//! One seven-segment display: eight output lines bound to segment roles,
//! and the level that each line is to carry.
//!
//! The display decides levels; it never touches hardware. Whoever owns the
//! physical pins reads each line's handle and state and sets the output.

use vstd::prelude::*;
use stm32f3xx_hal::hal::digital::v2::PinState;
use crate::digit::Digit;
use crate::font::{
    glyph, glyph_digit, lemma_glyph_by_segment, lemma_glyph_digit_of_glyph, lemma_glyph_len,
    lights, read_pattern, segment_pattern, Segment,
};
use crate::level::{pin_state, state_of};

verus! {

/// The place of a segment's line among the eight handed to
/// [`SegmentDisplay::new`]: the module's pins anticlockwise from the
/// bottom left, its two ground pins left out.
pub open spec fn wiring_position(role: Segment) -> int {
    match role {
        Segment::BottomLeft => 0,
        Segment::Bottom => 1,
        Segment::BottomRight => 2,
        Segment::TopRight => 4,
        Segment::Top => 5,
        Segment::TopLeft => 6,
        Segment::Middle => 7,
    }
}

/// The place of the decimal point's line among the eight handed to
/// [`SegmentDisplay::new`].
pub open spec fn decimal_wiring_position() -> int {
    3
}

/// What a display is: which handle serves which role, and the level of
/// each line.
pub struct DisplayView<P> {
    /// The handles of the seven segments, in canonical order.
    pub handles: Seq<P>,
    /// The handle of the decimal point.
    pub decimal_handle: P,
    /// The levels of the seven segments, in canonical order.
    pub lit: Seq<bool>,
    /// The level of the decimal point.
    pub decimal_lit: bool,
}

impl<P> DisplayView<P> {
    /// One handle and one level for each of the seven segments.
    pub open spec fn wf(self) -> bool {
        self.handles.len() == 7 && self.lit.len() == 7
    }

    /// The display made from eight handles in wiring order: each handle
    /// bound to its role, every line off.
    pub open spec fn wired(pins: Seq<P>) -> Self
        recommends
            pins.len() == 8,
    {
        DisplayView {
            handles: seq![pins[5], pins[6], pins[4], pins[7], pins[0], pins[2], pins[1]],
            decimal_handle: pins[3],
            lit: seq![false, false, false, false, false, false, false],
            decimal_lit: false,
        }
    }

    /// The handle bound to a segment.
    pub open spec fn handle(self, role: Segment) -> P {
        self.handles[role.position()]
    }

    /// Whether a segment is lit.
    pub open spec fn is_lit(self, role: Segment) -> bool {
        self.lit[role.position()]
    }

    /// The display after it is told to show `d`: the segments carry the
    /// digit's glyph, everything else is as before.
    pub open spec fn show(self, d: Digit) -> Self {
        DisplayView {
            handles: self.handles,
            decimal_handle: self.decimal_handle,
            lit: glyph(d),
            decimal_lit: self.decimal_lit,
        }
    }

    /// The display after `show` for each digit of `ds` in turn.
    pub open spec fn show_each(self, ds: Seq<Digit>) -> Self
        decreases ds.len(),
    {
        if ds.len() == 0 {
            self
        } else {
            self.show(ds[0]).show_each(ds.drop_first())
        }
    }

    /// The display after its decimal point is set to `on`.
    pub open spec fn set_decimal(self, on: bool) -> Self {
        DisplayView {
            handles: self.handles,
            decimal_handle: self.decimal_handle,
            lit: self.lit,
            decimal_lit: on,
        }
    }

    /// The digit that the segments draw, if they draw one.
    pub open spec fn shown_digit(self) -> Option<Digit> {
        glyph_digit(self.lit)
    }
}

/// Exchanges two entries of an array.
fn exchange<P>(a: &mut [P; 8], i: usize, j: usize)
    requires
        i < j < 8,
    ensures
        final(a)@ == old(a)@.update(i as int, old(a)@[j as int]).update(j as int, old(a)@[i as int]),
{
    let (left, right) = a.split_at_mut(j);
    core::mem::swap(&mut left[i], &mut right[0]);
}

/// A seven-segment display module with a decimal point.
pub struct SegmentDisplay<P> {
    /// The segments' handles in canonical order, then the decimal point's.
    lines: [P; 8],
    /// The segments' levels in canonical order.
    lit: [bool; 7],
    decimal_lit: bool,
}

impl<P> View for SegmentDisplay<P> {
    type V = DisplayView<P>;

    closed spec fn view(&self) -> DisplayView<P> {
        DisplayView {
            handles: self.lines@.subrange(0, 7),
            decimal_handle: self.lines@[7],
            lit: self.lit@,
            decimal_lit: self.decimal_lit,
        }
    }
}

impl<P> SegmentDisplay<P> {
    /// Builds a display from its eight lines in wiring order: the module's
    /// pins anticlockwise from the bottom left, the two ground pins left
    /// out. That is bottom left, bottom, bottom right, decimal point, top
    /// right, top, top left, middle. Every line starts off.
    pub fn new(pins: [P; 8]) -> (display: Self)
        ensures
            display@ == DisplayView::wired(pins@),
    {
        let mut lines = pins;
        exchange(&mut lines, 0, 5);
        exchange(&mut lines, 1, 6);
        exchange(&mut lines, 2, 4);
        exchange(&mut lines, 3, 7);
        exchange(&mut lines, 4, 5);
        let display = SegmentDisplay { lines, lit: [false; 7], decimal_lit: false };
        proof {
            let want = DisplayView::wired(pins@);
            assert(display@.handles =~= want.handles);
            assert(display@.lit =~= want.lit);
        }
        display
    }

    /// Shows the last decimal digit of `digit`: a value of ten or more is
    /// reduced modulo ten, not refused. The decimal point keeps its level.
    pub fn show_digit(&mut self, digit: u8)
        ensures
            final(self)@ == old(self)@.show(Digit::of(digit as nat)),
    {
        self.show_digit_enum(Digit::from_value(digit));
    }

    /// Shows a digit: the seven segments take the levels of its glyph. The
    /// decimal point keeps its level.
    pub fn show_digit_enum(&mut self, digit: Digit)
        ensures
            final(self)@ == old(self)@.show(digit),
    {
        self.lit = segment_pattern(digit);
    }

    /// Sets the decimal point. The segments keep their levels.
    pub fn set_decimal(&mut self, on: bool)
        ensures
            final(self)@ == old(self)@.set_decimal(on),
    {
        self.decimal_lit = on;
    }

    /// The handle bound to a segment.
    pub fn handle(&self, role: Segment) -> (h: &P)
        ensures
            *h == self@.handle(role),
    {
        &self.lines[role.index()]
    }

    /// The handle bound to the decimal point.
    pub fn decimal_handle(&self) -> (h: &P)
        ensures
            *h == self@.decimal_handle,
    {
        &self.lines[7]
    }

    /// Whether a segment is lit.
    pub fn is_lit(&self, role: Segment) -> (on: bool)
        ensures
            on == self@.is_lit(role),
    {
        self.lit[role.index()]
    }

    /// Whether the decimal point is lit.
    pub fn decimal_lit(&self) -> (on: bool)
        ensures
            on == self@.decimal_lit,
    {
        self.decimal_lit
    }

    /// The state to put on a segment's line: `High` if the segment is lit,
    /// `Low` if it is not.
    pub fn segment_state(&self, role: Segment) -> (state: PinState)
        ensures
            state == state_of(self@.is_lit(role)),
    {
        pin_state(self.lit[role.index()])
    }

    /// The state to put on the decimal point's line: `High` if it is lit,
    /// `Low` if it is not.
    pub fn decimal_state(&self) -> (state: PinState)
        ensures
            state == state_of(self@.decimal_lit),
    {
        pin_state(self.decimal_lit)
    }

    /// The levels of the seven segments in canonical order.
    pub fn pattern(&self) -> (p: [bool; 7])
        ensures
            p@ == self@.lit,
    {
        self.lit
    }

    /// The digit that the segments draw, if they draw one: the font table
    /// read backwards.
    pub fn shown_digit(&self) -> (r: Option<Digit>)
        ensures
            r == self@.shown_digit(),
    {
        read_pattern(&self.lit)
    }

    /// Every display has one handle and one level for each segment.
    pub proof fn lemma_wf(self)
        ensures
            self@.wf(),
    {
    }
}

/// A number shows what its last decimal digit shows: the row of the font
/// table for that digit. Ten and more are reduced modulo ten.
pub proof fn lemma_show_reduces<P>(v: DisplayView<P>, n: nat)
    ensures
        Digit::of(n).ordinal() == n % 10,
        v.show(Digit::of(n)).lit == glyph(Digit::of(n)),
        v.show(Digit::of(n)) == v.show(Digit::of(n % 10)),
{
    Digit::lemma_of_ordinal(n);
}

/// Showing a digit by name and showing its number are the same.
pub proof fn lemma_show_by_name<P>(v: DisplayView<P>, d: Digit)
    ensures
        v.show(d) == v.show(Digit::of(d.ordinal())),
{
    Digit::lemma_ordinal_of(d);
}

/// Setting the decimal point changes the decimal point's level and
/// nothing else.
pub proof fn lemma_set_decimal_alone<P>(v: DisplayView<P>, on: bool)
    ensures
        v.set_decimal(on).decimal_lit == on,
        v.set_decimal(on).lit == v.lit,
        v.set_decimal(on).handles == v.handles,
        v.set_decimal(on).decimal_handle == v.decimal_handle,
{
}

/// However many digits are shown one after another, the decimal point
/// keeps the level it had, and every handle keeps its role.
pub proof fn lemma_show_each_keeps_decimal<P>(v: DisplayView<P>, ds: Seq<Digit>)
    ensures
        v.show_each(ds).decimal_lit == v.decimal_lit,
        v.show_each(ds).decimal_handle == v.decimal_handle,
        v.show_each(ds).handles == v.handles,
    decreases ds.len(),
{
    if ds.len() > 0 {
        lemma_show_each_keeps_decimal(v.show(ds[0]), ds.drop_first());
    }
}

/// A level given to the decimal point outlasts every digit shown after
/// it.
pub proof fn lemma_decimal_outlasts_digits<P>(v: DisplayView<P>, on: bool, ds: Seq<Digit>)
    ensures
        v.set_decimal(on).show_each(ds).decimal_lit == on,
{
    lemma_show_each_keeps_decimal(v.set_decimal(on), ds);
}

/// After any run of digits the segments carry the glyph of the last one.
pub proof fn lemma_show_each_last<P>(v: DisplayView<P>, ds: Seq<Digit>)
    requires
        ds.len() > 0,
    ensures
        v.show_each(ds).lit == glyph(ds.last()),
    decreases ds.len(),
{
    let rest = ds.drop_first();
    if rest.len() > 0 {
        lemma_show_each_last(v.show(ds[0]), rest);
        assert(rest.last() == ds.last());
    } else {
        assert(v.show(ds[0]).show_each(rest) == v.show(ds[0]));
    }
}

/// Showing the same digit twice leaves the display as showing it once.
pub proof fn lemma_show_idempotent<P>(v: DisplayView<P>, d: Digit)
    ensures
        v.show(d).show(d) == v.show(d),
{
}

/// The handle given at a role's wiring position is the one that carries
/// that role's entry of the glyph, whatever digit is shown: it is lit for
/// exactly the digits that light the role. The handle at the decimal
/// point's position is the decimal point's.
pub proof fn lemma_wiring<P>(pins: Seq<P>, role: Segment, d: Digit)
    requires
        pins.len() == 8,
    ensures
        DisplayView::wired(pins).wf(),
        DisplayView::wired(pins).show(d).handle(role) == pins[wiring_position(role)],
        DisplayView::wired(pins).show(d).is_lit(role) == lights(role, d),
        DisplayView::wired(pins).show(d).decimal_handle == pins[decimal_wiring_position()],
{
    lemma_glyph_by_segment(role, d);
}

/// Showing a digit leaves a display with one handle and one level for
/// each segment.
pub proof fn lemma_show_wf<P>(v: DisplayView<P>, d: Digit)
    requires
        v.wf(),
    ensures
        v.show(d).wf(),
{
    lemma_glyph_len(d);
}

/// A lit pattern that is a digit's glyph reads back as that digit.
pub proof fn lemma_shown_after_show<P>(v: DisplayView<P>, d: Digit)
    ensures
        v.show(d).shown_digit() == Some(d),
{
    lemma_glyph_digit_of_glyph(d);
}

} // verus!
