//! Single tap and swipe gestures, sent through the external gesture tool in
//! device points.
use vstd::prelude::*;
use crate::coords::{NormPoint, ScreenSize, point_coord, scale_of, map_point, screen_of, screen_or_default};
use crate::error::ControlError;
use crate::events::concat2;
use crate::text::{signed_decimal, signed_text, thousandths, thousandths_text};

verus! {

/// Swipe duration when a request gives none, in thousandths of a second.
pub const DEFAULT_SWIPE_MILLIS: u64 = 300;

/// Device-point coordinate of `micros` on the axis `dim` pixels long of
/// `screen`, as text.
pub open spec fn axis_text(micros: int, dim: u32, screen: ScreenSize) -> Seq<char> {
    signed_decimal(point_coord(micros, dim as int, scale_of(screen.width as int)))
}

/// The gesture tool's arguments for a tap at `at` on a screen of the given
/// pixel size (393 by 852 where a dimension is missing).
pub fn tap_args(udid: &str, at: NormPoint, width: Option<u32>, height: Option<u32>) -> (r: Vec<String>)
    ensures
        r@.len() == 7,
        r@[0]@ == "tap"@,
        r@[1]@ == "-x"@,
        r@[2]@ == axis_text(at.x.micros as int, screen_of(width, height).width, screen_of(width, height)),
        r@[3]@ == "-y"@,
        r@[4]@ == axis_text(at.y.micros as int, screen_of(width, height).height, screen_of(width, height)),
        r@[5]@ == "--udid"@,
        r@[6]@ == udid@,
{
    let screen = screen_or_default(width, height);
    let p = map_point(at, screen);
    let mut v: Vec<String> = Vec::new();
    v.push(String::from_str("tap"));
    v.push(String::from_str("-x"));
    v.push(signed_text(p.x));
    v.push(String::from_str("-y"));
    v.push(signed_text(p.y));
    v.push(String::from_str("--udid"));
    v.push(String::from_str(udid));
    v
}

/// The gesture tool's arguments for a swipe from `start` to `end` lasting
/// `duration_millis` thousandths of a second (0.3 s when missing).
pub fn swipe_args(
    udid: &str,
    start: NormPoint,
    end: NormPoint,
    width: Option<u32>,
    height: Option<u32>,
    duration_millis: Option<u64>,
) -> (r: Vec<String>)
    ensures
        r@.len() == 13,
        r@[0]@ == "swipe"@,
        r@[1]@ == "--start-x"@,
        r@[2]@ == axis_text(start.x.micros as int, screen_of(width, height).width, screen_of(width, height)),
        r@[3]@ == "--start-y"@,
        r@[4]@ == axis_text(start.y.micros as int, screen_of(width, height).height, screen_of(width, height)),
        r@[5]@ == "--end-x"@,
        r@[6]@ == axis_text(end.x.micros as int, screen_of(width, height).width, screen_of(width, height)),
        r@[7]@ == "--end-y"@,
        r@[8]@ == axis_text(end.y.micros as int, screen_of(width, height).height, screen_of(width, height)),
        r@[9]@ == "--duration"@,
        r@[10]@ == thousandths(match duration_millis { Some(d) => d as nat, None => DEFAULT_SWIPE_MILLIS as nat }),
        r@[11]@ == "--udid"@,
        r@[12]@ == udid@,
{
    let screen = screen_or_default(width, height);
    let a = map_point(start, screen);
    let b = map_point(end, screen);
    let d = match duration_millis {
        Some(d) => d,
        None => DEFAULT_SWIPE_MILLIS,
    };
    let mut v: Vec<String> = Vec::new();
    v.push(String::from_str("swipe"));
    v.push(String::from_str("--start-x"));
    v.push(signed_text(a.x));
    v.push(String::from_str("--start-y"));
    v.push(signed_text(a.y));
    v.push(String::from_str("--end-x"));
    v.push(signed_text(b.x));
    v.push(String::from_str("--end-y"));
    v.push(signed_text(b.y));
    v.push(String::from_str("--duration"));
    v.push(thousandths_text(d));
    v.push(String::from_str("--udid"));
    v.push(String::from_str(udid));
    v
}

/// The outcome of one run of the gesture tool: success exactly when it
/// exited successfully, else a tool failure carrying its exit code and
/// error output.
pub fn tool_outcome(succeeded: bool, exit_code: Option<i32>, stderr: &str) -> (r: Result<(), ControlError>)
    ensures
        succeeded ==> r is Ok,
        !succeeded ==> (r matches Err(ControlError::ExternalToolFailure { exit_code: c, stderr: e })
            && c == exit_code && e@ == stderr@),
{
    if succeeded {
        Ok(())
    } else {
        Err(ControlError::ExternalToolFailure { exit_code, stderr: String::from_str(stderr) })
    }
}

/// The failure when the gesture tool cannot be run at all.
pub fn tool_launch_failed(cause: &str) -> (r: ControlError)
    ensures
        r matches ControlError::ProcessSpawnFailure { message } && message@ == "Failed to execute AXe: "@ + cause@,
{
    ControlError::ProcessSpawnFailure { message: concat2("Failed to execute AXe: ", cause) }
}

/// The failure when no executable of `tool` is found.
pub fn not_found(tool: &str) -> (r: ControlError)
    ensures
        r matches ControlError::BinaryNotFound { tool: t } && t@ == tool@,
{
    ControlError::BinaryNotFound { tool: String::from_str(tool) }
}

} // verus!
