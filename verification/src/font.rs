//! The seven-segment font: which segments are lit for each digit, and the
//! way back from a lit pattern to the digit it draws.

use vstd::prelude::*;
use crate::digit::Digit;

verus! {

/// One of the seven bars of a display. The order of the variants is the
/// canonical order of every pattern: top to bottom, left to right.
#[derive(Clone, Copy, Debug, PartialEq, Eq, Structural)]
pub enum Segment {
    Top,
    TopLeft,
    TopRight,
    Middle,
    BottomLeft,
    BottomRight,
    Bottom,
}

impl Segment {
    /// The segment's place in a pattern.
    pub open spec fn position(self) -> int {
        match self {
            Segment::Top => 0,
            Segment::TopLeft => 1,
            Segment::TopRight => 2,
            Segment::Middle => 3,
            Segment::BottomLeft => 4,
            Segment::BottomRight => 5,
            Segment::Bottom => 6,
        }
    }

    /// The segment's place in a pattern.
    pub fn index(self) -> (i: usize)
        ensures
            i == self.position(),
            i < 7,
    {
        match self {
            Segment::Top => 0,
            Segment::TopLeft => 1,
            Segment::TopRight => 2,
            Segment::Middle => 3,
            Segment::BottomLeft => 4,
            Segment::BottomRight => 5,
            Segment::Bottom => 6,
        }
    }

    /// The seven segments in canonical order.
    pub fn all() -> (roles: [Segment; 7])
        ensures
            forall|i: int| 0 <= i < 7 ==> (#[trigger] roles@[i]).position() == i,
    {
        [
            Segment::Top,
            Segment::TopLeft,
            Segment::TopRight,
            Segment::Middle,
            Segment::BottomLeft,
            Segment::BottomRight,
            Segment::Bottom,
        ]
    }
}

/// The font table. Each row is the pattern of one digit in canonical
/// order; `true` is a lit segment.
pub open spec fn glyph(d: Digit) -> Seq<bool> {
    match d {
        Digit::Zero => seq![true, true, true, false, true, true, true],
        Digit::One => seq![false, false, true, false, false, true, false],
        Digit::Two => seq![true, false, true, true, true, false, true],
        Digit::Three => seq![true, false, true, true, false, true, true],
        Digit::Four => seq![false, true, true, true, false, true, false],
        Digit::Five => seq![true, true, false, true, false, true, true],
        Digit::Six => seq![true, true, false, true, true, true, true],
        Digit::Seven => seq![true, false, true, false, false, true, false],
        Digit::Eight => seq![true, true, true, true, true, true, true],
        Digit::Nine => seq![true, true, true, true, false, true, true],
    }
}

/// Whether a digit's glyph lights a segment: the font table read by
/// column.
pub open spec fn lights(role: Segment, d: Digit) -> bool {
    match role {
        Segment::Top => d != Digit::One && d != Digit::Four,
        Segment::TopLeft => d == Digit::Zero || d == Digit::Four || d == Digit::Five || d
            == Digit::Six || d == Digit::Eight || d == Digit::Nine,
        Segment::TopRight => d != Digit::Five && d != Digit::Six,
        Segment::Middle => d != Digit::Zero && d != Digit::One && d != Digit::Seven,
        Segment::BottomLeft => d == Digit::Zero || d == Digit::Two || d == Digit::Six || d
            == Digit::Eight,
        Segment::BottomRight => d != Digit::Two,
        Segment::Bottom => d != Digit::One && d != Digit::Four && d != Digit::Seven,
    }
}

/// The digit that a pattern draws, if it draws one.
pub open spec fn glyph_digit(p: Seq<bool>) -> Option<Digit> {
    if exists|d: Digit| glyph(d) == p {
        Some(choose|d: Digit| glyph(d) == p)
    } else {
        None
    }
}

/// Every glyph has one entry for each of the seven segments.
pub proof fn lemma_glyph_len(d: Digit)
    ensures
        glyph(d).len() == 7,
{
}

/// The rows of the font table and its columns agree.
pub proof fn lemma_glyph_by_segment(role: Segment, d: Digit)
    ensures
        glyph(d)[role.position()] == lights(role, d),
{
}

/// No two digits share a glyph.
pub proof fn lemma_glyph_injective(a: Digit, b: Digit)
    requires
        glyph(a) == glyph(b),
    ensures
        a == b,
{
    let p = glyph(a);
    let q = glyph(b);
    assert(p[0] == q[0] && p[1] == q[1] && p[2] == q[2] && p[3] == q[3] && p[4] == q[4] && p[5]
        == q[5] && p[6] == q[6]);
}

/// Reading a digit's glyph gives the digit back.
pub proof fn lemma_glyph_digit_of_glyph(d: Digit)
    ensures
        glyph_digit(glyph(d)) == Some(d),
{
    let e = choose|e: Digit| glyph(e) == glyph(d);
    lemma_glyph_injective(e, d);
}

/// The pattern that draws `d`.
pub fn segment_pattern(d: Digit) -> (p: [bool; 7])
    ensures
        p@ == glyph(d),
{
    let p: [bool; 7] = match d {
        Digit::Zero => [true, true, true, false, true, true, true],
        Digit::One => [false, false, true, false, false, true, false],
        Digit::Two => [true, false, true, true, true, false, true],
        Digit::Three => [true, false, true, true, false, true, true],
        Digit::Four => [false, true, true, true, false, true, false],
        Digit::Five => [true, true, false, true, false, true, true],
        Digit::Six => [true, true, false, true, true, true, true],
        Digit::Seven => [true, false, true, false, false, true, false],
        Digit::Eight => [true, true, true, true, true, true, true],
        Digit::Nine => [true, true, true, true, false, true, true],
    };
    assert(p@ =~= glyph(d));
    p
}

/// Whether two patterns light the same segments.
pub fn same_pattern(a: &[bool; 7], b: &[bool; 7]) -> (same: bool)
    ensures
        same == (a@ == b@),
{
    let mut i: usize = 0;
    while i < 7
        invariant
            i <= 7,
            forall|j: int| 0 <= j < i ==> a@[j] == b@[j],
        decreases 7 - i,
    {
        if a[i] != b[i] {
            return false;
        }
        i += 1;
    }
    assert(a@ =~= b@);
    true
}

/// The digit that a pattern draws: the inverse of the font table. A
/// pattern that is no row of the table draws no digit.
pub fn read_pattern(p: &[bool; 7]) -> (r: Option<Digit>)
    ensures
        r == glyph_digit(p@),
{
    let mut n: u8 = 0;
    while n < 10
        invariant
            n <= 10,
            forall|d: Digit| d.ordinal() < n ==> glyph(d) != p@,
        decreases 10 - n,
    {
        let d = Digit::from_value(n);
        let q = segment_pattern(d);
        if same_pattern(&q, p) {
            proof {
                lemma_glyph_digit_of_glyph(d);
            }
            return Some(d);
        }
        proof {
            assert forall|e: Digit| e.ordinal() < n + 1 implies glyph(e) != p@ by {
                if e.ordinal() == n {
                    Digit::lemma_ordinal_of(e);
                }
            }
        }
        n += 1;
    }
    proof {
        assert forall|e: Digit| glyph(e) != p@ by {
            Digit::lemma_ordinal_of(e);
        }
    }
    None
}

} // verus!
