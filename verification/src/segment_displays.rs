//! A row of displays that shows a number, one decimal digit per display,
//! least significant digit first.

use vstd::prelude::*;
use crate::decimal::{digit_at, lemma_digit_at_tail, lemma_low_digits_split, lemma_shift, pow10};
use crate::digit::Digit;
use crate::font::lemma_glyph_digit_of_glyph;
use crate::segment_display::{DisplayView, SegmentDisplay};

verus! {

/// What each display of a sequence is, in the same order.
pub open spec fn views<P>(displays: Seq<SegmentDisplay<P>>) -> Seq<DisplayView<P>> {
    Seq::new(displays.len(), |i: int| displays[i]@)
}

/// The row after it is told to show `x`: the display at position `i` shows
/// the decimal digit of `x` at position `i`. Digits of `x` beyond the
/// row's length are dropped; positions beyond the length of `x` show 0.
pub open spec fn row_show_number<P>(row: Seq<DisplayView<P>>, x: nat) -> Seq<DisplayView<P>> {
    Seq::new(row.len(), |i: int| row[i].show(Digit::of(digit_at(x, i as nat))))
}

/// The number that a row draws, position 0 being the least significant
/// digit; `None` if some display draws no digit.
pub open spec fn row_shown_number<P>(row: Seq<DisplayView<P>>) -> Option<nat>
    decreases row.len(),
{
    if row.len() == 0 {
        Some(0)
    } else {
        match (row[0].shown_digit(), row_shown_number(row.drop_first())) {
            (Some(d), Some(rest)) => Some(d.ordinal() + 10 * rest),
            _ => None,
        }
    }
}

/// Showing `x` on all but the first display is showing `x / 10` there.
pub proof fn lemma_row_show_number_tail<P>(row: Seq<DisplayView<P>>, x: nat)
    requires
        row.len() > 0,
    ensures
        row_show_number(row, x)[0] == row[0].show(Digit::of(x)),
        row_show_number(row, x).drop_first() == row_show_number(row.drop_first(), x / 10),
{
    let shown = row_show_number(row, x);
    let tail = row_show_number(row.drop_first(), x / 10);
    assert(pow10(0) == 1);
    assert(digit_at(x, 0) == x % 10);
    Digit::lemma_of_ordinal(x);
    Digit::lemma_of_ordinal(digit_at(x, 0));
    assert forall|i: int| 0 <= i < tail.len() implies shown.drop_first()[i] == tail[i] by {
        lemma_digit_at_tail(x, i as nat);
    }
    assert(shown.drop_first() =~= tail);
}

/// Reading back a row that was told to show `x` gives `x` modulo ten to
/// the row's length: the digits that fit are all there, in place.
pub proof fn lemma_row_round_trip<P>(row: Seq<DisplayView<P>>, x: nat)
    ensures
        row_shown_number(row_show_number(row, x)) == Some(x % pow10(row.len())),
    decreases row.len(),
{
    if row.len() > 0 {
        lemma_row_show_number_tail(row, x);
        lemma_row_round_trip(row.drop_first(), x / 10);
        lemma_glyph_digit_of_glyph(Digit::of(x));
        Digit::lemma_of_ordinal(x);
        lemma_low_digits_split(x, (row.len() - 1) as nat);
    }
}

/// A row of `N` displays, the least significant digit at position 0.
pub struct SegmentDisplays<P, const N: usize> {
    digits: [SegmentDisplay<P>; N],
}

impl<P, const N: usize> View for SegmentDisplays<P, N> {
    type V = Seq<DisplayView<P>>;

    closed spec fn view(&self) -> Seq<DisplayView<P>> {
        views(self.digits@)
    }
}

impl<P, const N: usize> SegmentDisplays<P, N> {
    /// Makes a row of the given displays, kept in the order given: least
    /// significant digit first.
    pub fn new(digits: [SegmentDisplay<P>; N]) -> (row: Self)
        ensures
            row@ == views(digits@),
    {
        SegmentDisplays { digits }
    }

    /// Shows `x` in decimal, one digit per display from position 0 up.
    /// Digits that do not fit are dropped without complaint, and displays
    /// above the number's highest digit show 0. Decimal points and handles
    /// are left alone.
    pub fn show_number(&mut self, x: u32)
        ensures
            final(self)@ == row_show_number(old(self)@, x as nat),
    {
        let mut rest: u32 = x;
        let mut i: usize = 0;
        assert(pow10(0) == 1);
        while i < N
            invariant
                i <= N,
                rest == (x as nat) / pow10(i as nat),
                forall|j: int|
                    0 <= j < i ==> (#[trigger] self.digits@[j])@ == old(self).digits@[j]@.show(
                        Digit::of(digit_at(x as nat, j as nat)),
                    ),
                forall|j: int| i <= j < N ==> #[trigger] self.digits@[j] == old(self).digits@[j],
            decreases N - i,
        {
            proof {
                lemma_shift(x as nat, i as nat);
                Digit::lemma_of_ordinal(rest as nat);
                Digit::lemma_of_ordinal(digit_at(x as nat, i as nat));
                Digit::lemma_of_ordinal((rest % 10) as nat);
            }
            self.digits[i].show_digit((rest % 10) as u8);
            rest = rest / 10;
            i += 1;
        }
        assert(self@ =~= row_show_number(old(self)@, x as nat));
    }

    /// The number of displays in the row.
    pub fn len(&self) -> (n: usize)
        ensures
            n == N,
            n == self@.len(),
    {
        N
    }

    /// The display at position `i`, if the row is that long.
    pub fn digit(&self, i: usize) -> (r: Option<&SegmentDisplay<P>>)
        ensures
            i < N ==> r.is_some() && r.unwrap()@ == self@[i as int],
            i >= N ==> r.is_none(),
    {
        if i < N {
            Some(&self.digits[i])
        } else {
            None
        }
    }
}

} // verus!
