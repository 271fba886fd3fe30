//! Conversion of normalized touch coordinates into device points.
//!
//! A normalized coordinate is held as a whole number of millionths (`0.5` is
//! `500000`), so the conversion is exact rational arithmetic; results are
//! rounded half away from zero.
use vstd::prelude::*;

verus! {

/// Millionths in one whole normalized unit.
pub const MICROS_PER_UNIT: u64 = 1000000;

/// Pixel width assumed when a request leaves the screen width out.
pub const DEFAULT_PIXEL_WIDTH: u32 = 393;

/// Pixel height assumed when a request leaves the screen height out.
pub const DEFAULT_PIXEL_HEIGHT: u32 = 852;

/// A normalized coordinate (0 to 1 across the screen), in millionths.
#[derive(Clone, Copy, Debug, PartialEq, Eq, Structural)]
pub struct NormCoord {
    pub micros: i32,
}

/// A normalized point.
#[derive(Clone, Copy, Debug, PartialEq, Eq, Structural)]
pub struct NormPoint {
    pub x: NormCoord,
    pub y: NormCoord,
}

/// Screen size in pixels.
#[derive(Clone, Copy, Debug, PartialEq, Eq, Structural)]
pub struct ScreenSize {
    pub width: u32,
    pub height: u32,
}

/// A point in device points, the unit the gesture tool takes.
#[derive(Clone, Copy, Debug, PartialEq, Eq, Structural)]
pub struct DevicePoint {
    pub x: i64,
    pub y: i64,
}

/// Pixel-to-point density: 3 above 1000 pixels wide, 2 above 700, else 1.
pub open spec fn scale_of(pixel_width: int) -> int {
    if pixel_width > 1000 { 3 } else if pixel_width > 700 { 2 } else { 1 }
}

/// `num / den` rounded to the nearest integer, halves away from zero.
pub open spec fn round_div(num: int, den: int) -> int {
    if num >= 0 {
        (2 * num + den) / (2 * den)
    } else {
        -((2 * (-num) + den) / (2 * den))
    }
}

/// `round(normalized * pixel_dim / scale)` with `normalized = micros / 10^6`.
pub open spec fn point_coord(micros: int, pixel_dim: int, scale: int) -> int {
    round_div(micros * pixel_dim, scale * 1000000)
}

/// The density factor for a screen `pixel_width` pixels wide.
pub fn scale_factor(pixel_width: u32) -> (r: u32)
    ensures
        r as int == scale_of(pixel_width as int),
{
    if pixel_width > 1000 {
        3
    } else if pixel_width > 700 {
        2
    } else {
        1
    }
}

/// The screen size of a request, each missing dimension taking its default.
pub open spec fn screen_of(width: Option<u32>, height: Option<u32>) -> ScreenSize {
    ScreenSize {
        width: match width { Some(w) => w, None => DEFAULT_PIXEL_WIDTH },
        height: match height { Some(h) => h, None => DEFAULT_PIXEL_HEIGHT },
    }
}

/// The screen size of a request, each missing dimension taking its default.
pub fn screen_or_default(width: Option<u32>, height: Option<u32>) -> (r: ScreenSize)
    ensures
        r == screen_of(width, height),
{
    let w = match width {
        Some(w) => w,
        None => DEFAULT_PIXEL_WIDTH,
    };
    let h = match height {
        Some(h) => h,
        None => DEFAULT_PIXEL_HEIGHT,
    };
    ScreenSize { width: w, height: h }
}

/// One axis: `c` on an axis `pixel_dim` pixels long, at density `scale`.
pub fn map_coord(c: NormCoord, pixel_dim: u32, scale: u32) -> (r: i64)
    requires
        1 <= scale <= 3,
    ensures
        r as int == point_coord(c.micros as int, pixel_dim as int, scale as int),
{
    let m: i128 = c.micros as i128;
    let px: i128 = pixel_dim as i128;
    assert(-0x8000_0000_0000_0000 <= m * px <= 0x7fff_ffff_ffff_ffff) by (nonlinear_arith)
        requires
            -0x8000_0000 <= m <= 0x7fff_ffff,
            0 <= px <= 0xffff_ffff;
    let num: i128 = m * px;
    let den: i128 = scale as i128 * 1000000;
    if num >= 0 {
        let q: i128 = (2 * num + den) / (2 * den);
        assert(0 <= q <= num) by (nonlinear_arith)
            requires
                num >= 0,
                den >= 1000000,
                q == (2 * num + den) / (2 * den);
        q as i64
    } else {
        let q: i128 = (2 * (0 - num) + den) / (2 * den);
        assert(0 <= q <= -num) by (nonlinear_arith)
            requires
                num < 0,
                den >= 1000000,
                q == (2 * (-num) + den) / (2 * den);
        (0 - q) as i64
    }
}

/// A normalized point in device points on `screen`: both axes take the
/// density of the screen's width.
pub fn map_point(p: NormPoint, screen: ScreenSize) -> (r: DevicePoint)
    ensures
        r.x == point_coord(p.x.micros as int, screen.width as int, scale_of(screen.width as int)),
        r.y == point_coord(p.y.micros as int, screen.height as int, scale_of(screen.width as int)),
{
    let scale = scale_factor(screen.width);
    DevicePoint { x: map_coord(p.x, screen.width, scale), y: map_coord(p.y, screen.height, scale) }
}

} // verus!
