//! Touch command lines for the mirroring process's standard input:
//! `touch <Down|Move|Up> <x,y> [<x,y> ...]`, coordinates normalized with four
//! decimal places.
use vstd::prelude::*;
use vstd::string::*;
use crate::coords::{NormCoord, NormPoint, round_div};
use crate::error::ControlError;
use crate::text::{fixed4, fixed4_text, same_text};

verus! {

/// Phase of a touch sequence, as the mirroring process names it.
#[derive(Clone, Copy, Debug, PartialEq, Eq, Structural)]
pub enum TouchKind {
    Down,
    Move,
    Up,
}

/// The protocol word for a touch phase.
pub open spec fn kind_word(k: TouchKind) -> Seq<char> {
    match k {
        TouchKind::Down => "Down"@,
        TouchKind::Move => "Move"@,
        TouchKind::Up => "Up"@,
    }
}

/// The phase that a request's touch type names: `began`, `moved`, `ended`.
pub open spec fn touch_kind_of(s: Seq<char>) -> Option<TouchKind> {
    if s == "began"@ {
        Some(TouchKind::Down)
    } else if s == "moved"@ {
        Some(TouchKind::Move)
    } else if s == "ended"@ {
        Some(TouchKind::Up)
    } else {
        None
    }
}

/// A coordinate rounded to ten-thousandths, halves away from zero.
pub open spec fn ten_thousandths(c: NormCoord) -> int {
    round_div(c.micros as int, 100)
}

/// `x,y` of one point, four decimal places each.
pub open spec fn pair_text(p: NormPoint) -> Seq<char> {
    fixed4(ten_thousandths(p.x)) + ","@ + fixed4(ten_thousandths(p.y))
}

/// The points' texts separated by single spaces.
pub open spec fn points_text(pts: Seq<NormPoint>) -> Seq<char>
    decreases pts.len(),
{
    if pts.len() == 0 {
        Seq::<char>::empty()
    } else if pts.len() == 1 {
        pair_text(pts[0])
    } else {
        points_text(pts.drop_last()) + " "@ + pair_text(pts.last())
    }
}

/// The whole command line, without its terminating newline.
pub open spec fn touch_line(k: TouchKind, pts: Seq<NormPoint>) -> Seq<char> {
    "touch "@ + kind_word(k) + " "@ + points_text(pts)
}

/// The touch phase that `touch_type` names, or the validation failure.
pub fn parse_touch_kind(touch_type: &str) -> (r: Result<TouchKind, ControlError>)
    ensures
        match touch_kind_of(touch_type@) {
            Some(k) => r == Ok::<TouchKind, ControlError>(k),
            None => r matches Err(ControlError::UnknownTouchType { given }) && given@ == touch_type@,
        },
{
    if same_text(touch_type, "began") {
        Ok(TouchKind::Down)
    } else if same_text(touch_type, "moved") {
        Ok(TouchKind::Move)
    } else if same_text(touch_type, "ended") {
        Ok(TouchKind::Up)
    } else {
        Err(ControlError::UnknownTouchType { given: String::from_str(touch_type) })
    }
}

/// The protocol word for a touch phase.
pub fn kind_text(k: TouchKind) -> (r: &'static str)
    ensures
        r@ == kind_word(k),
{
    match k {
        TouchKind::Down => "Down",
        TouchKind::Move => "Move",
        TouchKind::Up => "Up",
    }
}

/// A coordinate rounded to ten-thousandths.
pub fn coord_ten_thousandths(c: NormCoord) -> (r: i64)
    ensures
        r == ten_thousandths(c),
{
    let m: i64 = c.micros as i64;
    if m >= 0 {
        (2 * m + 100) / 200
    } else {
        0 - (2 * (0 - m) + 100) / 200
    }
}

fn append_pair(s: &mut String, p: NormPoint)
    ensures
        final(s)@ == old(s)@ + pair_text(p),
{
    let x = fixed4_text(coord_ten_thousandths(p.x));
    let y = fixed4_text(coord_ten_thousandths(p.y));
    s.append(x.as_str());
    s.append(",");
    s.append(y.as_str());
    assert(final(s)@ =~= old(s)@ + pair_text(p));
}

/// The command line for a touch request: `touch_type` is `began`, `moved` or
/// `ended`, and at least one point is required.
pub fn touch_command(touch_type: &str, points: &Vec<NormPoint>) -> (r: Result<String, ControlError>)
    ensures
        points@.len() == 0 ==> r matches Err(ControlError::EmptyTouches),
        points@.len() > 0 && touch_kind_of(touch_type@) is None ==> (r matches Err(
            ControlError::UnknownTouchType { given },
        ) && given@ == touch_type@),
        points@.len() > 0 && touch_kind_of(touch_type@) is Some ==> (r matches Ok(line)
            && line@ == touch_line(touch_kind_of(touch_type@)->0, points@)),
{
    if points.len() == 0 {
        return Err(ControlError::EmptyTouches);
    }
    let kind = match parse_touch_kind(touch_type) {
        Ok(k) => k,
        Err(e) => return Err(e),
    };
    let mut line = String::from_str("touch ");
    line.append(kind_text(kind));
    line.append(" ");
    let ghost head = line@;
    assert(head == "touch "@ + kind_word(kind) + " "@);
    append_pair(&mut line, points[0]);
    proof {
        assert(points@.take(1).drop_last() =~= Seq::<NormPoint>::empty());
        assert(points_text(points@.take(1)) == pair_text(points@[0]));
    }
    let mut i: usize = 1;
    while i < points.len()
        invariant
            1 <= i <= points@.len(),
            line@ == head + points_text(points@.take(i as int)),
        decreases points@.len() - i,
    {
        line.append(" ");
        append_pair(&mut line, points[i]);
        proof {
            assert(points@.take(i as int + 1).drop_last() =~= points@.take(i as int));
            assert(line@ =~= head + points_text(points@.take(i as int + 1)));
        }
        i = i + 1;
    }
    assert(points@.take(i as int) =~= points@);
    Ok(line)
}

/// A command line with its terminating newline, as written to the process.
pub fn terminated_line(command: &str) -> (r: String)
    ensures
        r@ == command@ + "\n"@,
{
    crate::events::concat2(command, "\n")
}

} // verus!
