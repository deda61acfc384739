//! The clock widget's data: where it stands and the `HH:MM` text it shows.
use vstd::prelude::*;

verus! {

/// A position on the screen, in pixels.
#[derive(Clone, Copy, Debug, PartialEq, Eq, Structural)]
pub struct Point {
    pub x: i32,
    pub y: i32,
}

/// Horizontal alignment of a text about its anchor point.
#[derive(Clone, Copy, Debug, PartialEq, Eq, Structural)]
pub enum Alignment {
    Left,
    Center,
    Right,
}

/// A line of text anchored at a point.
#[derive(Clone, Debug)]
pub struct Label {
    pub point: Point,
    pub text: String,
    pub alignment: Alignment,
    pub width: Option<u32>,
}

/// A clock showing the local time as hours and minutes.
#[derive(Clone, Debug)]
pub struct Clock {
    pub label: Label,
    pub point: Point,
}

/// `s` reads `HH:MM`: a two-digit hour from 00 to 23, a colon, and a
/// two-digit minute from 00 to 59.
pub open spec fn is_clock_text(s: Seq<char>) -> bool {
    &&& s.len() == 5
    &&& s[2] == ':'
    &&& forall|i: int| 0 <= i < 5 && i != 2 ==> '0' <= #[trigger] s[i] <= '9'
    &&& s[0] <= '2'
    &&& s[0] == '2' ==> s[1] <= '3'
    &&& s[3] <= '5'
}

/// Relies on chrono's `DateTime::format` with `%H:%M` on `Local::now()`: the
/// hour (00 to 23) and the minute (00 to 59) of the local time, each
/// zero-padded to two digits.
#[verifier::external_body]
fn local_time_text() -> (r: String)
    ensures
        is_clock_text(r@),
{
    chrono::Local::now().format("%H:%M").to_string()
}

impl Label {
    /// A label with `text` anchored at `point`.
    pub fn new(point: Point, text: String, alignment: Alignment, width: Option<u32>) -> (r: Label)
        ensures
            r.point == point,
            r.text@ == text@,
            r.alignment == alignment,
            r.width == width,
    {
        Label { point, text, alignment, width }
    }
}

impl Clock {
    /// A clock at `point` showing the current local time.
    pub fn new(point: Point, alignment: Alignment) -> (r: Clock)
        ensures
            r.point == point,
            r.label.point == point,
            r.label.alignment == alignment,
            r.label.width is None,
            is_clock_text(r.label.text@),
    {
        let label = Label::new(point, local_time_text(), alignment, None);
        Clock { label, point }
    }

    /// Moves the clock and its label to `point`.
    pub fn set_position(&mut self, point: Point)
        ensures
            final(self).point == point,
            final(self).label.point == point,
            final(self).label.text@ == old(self).label.text@,
            final(self).label.alignment == old(self).label.alignment,
            final(self).label.width == old(self).label.width,
    {
        self.point = point;
        self.label.point = point;
    }
}

} // verus!
