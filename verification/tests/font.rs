use seven_segment::digit::Digit;
use seven_segment::font::{read_pattern, same_pattern, segment_pattern, Segment};

const T: bool = true;
const F: bool = false;

fn table() -> [(Digit, u8, [bool; 7]); 10] {
    [
        (Digit::Zero, 0, [T, T, T, F, T, T, T]),
        (Digit::One, 1, [F, F, T, F, F, T, F]),
        (Digit::Two, 2, [T, F, T, T, T, F, T]),
        (Digit::Three, 3, [T, F, T, T, F, T, T]),
        (Digit::Four, 4, [F, T, T, T, F, T, F]),
        (Digit::Five, 5, [T, T, F, T, F, T, T]),
        (Digit::Six, 6, [T, T, F, T, T, T, T]),
        (Digit::Seven, 7, [T, F, T, F, F, T, F]),
        (Digit::Eight, 8, [T, T, T, T, T, T, T]),
        (Digit::Nine, 9, [T, T, T, T, F, T, T]),
    ]
}

#[test]
fn digit_value_is_ordinal() {
    for (digit, value, _) in table() {
        assert_eq!(digit.value(), value);
    }
}

#[test]
fn digit_from_value_below_ten() {
    for (digit, value, _) in table() {
        assert_eq!(Digit::from_value(value), digit);
    }
}

#[test]
fn digit_from_value_reduces_modulo_ten() {
    assert_eq!(Digit::from_value(10), Digit::Zero);
    assert_eq!(Digit::from_value(17), Digit::Seven);
    assert_eq!(Digit::from_value(99), Digit::Nine);
    assert_eq!(Digit::from_value(250), Digit::Zero);
    assert_eq!(Digit::from_value(255), Digit::Five);
    for n in 0..=255u8 {
        assert_eq!(Digit::from_value(n).value(), n % 10);
    }
}

#[test]
fn digit_value_round_trip() {
    for (digit, _, _) in table() {
        assert_eq!(Digit::from_value(digit.value()), digit);
    }
}

#[test]
fn segment_pattern_matches_font_table() {
    for (digit, _, pattern) in table() {
        assert_eq!(segment_pattern(digit), pattern);
    }
}

#[test]
fn segment_pattern_one_lights_right_side_only() {
    let p = segment_pattern(Digit::One);
    let lit: Vec<Segment> =
        Segment::all().into_iter().filter(|s| p[s.index()]).collect();
    assert_eq!(lit, vec![Segment::TopRight, Segment::BottomRight]);
}

#[test]
fn segment_index_is_canonical_order() {
    assert_eq!(Segment::Top.index(), 0);
    assert_eq!(Segment::TopLeft.index(), 1);
    assert_eq!(Segment::TopRight.index(), 2);
    assert_eq!(Segment::Middle.index(), 3);
    assert_eq!(Segment::BottomLeft.index(), 4);
    assert_eq!(Segment::BottomRight.index(), 5);
    assert_eq!(Segment::Bottom.index(), 6);
}

#[test]
fn segment_all_is_in_index_order() {
    let roles = Segment::all();
    for i in 0..7 {
        assert_eq!(roles[i].index(), i);
    }
}

#[test]
fn same_pattern_compares_every_segment() {
    let eight = [T; 7];
    assert!(same_pattern(&eight, &eight));
    for i in 0..7 {
        let mut other = eight;
        other[i] = F;
        assert!(!same_pattern(&eight, &other));
        assert!(!same_pattern(&other, &eight));
        assert!(same_pattern(&other, &other));
    }
}

#[test]
fn read_pattern_inverts_font_table() {
    for (digit, _, pattern) in table() {
        assert_eq!(read_pattern(&pattern), Some(digit));
    }
}

#[test]
fn read_pattern_rejects_patterns_outside_table() {
    assert_eq!(read_pattern(&[F; 7]), None);
    assert_eq!(read_pattern(&[T, F, F, F, F, F, F]), None);
    assert_eq!(read_pattern(&[F, F, F, T, F, F, F]), None);
    assert_eq!(read_pattern(&[T, T, T, T, T, T, F]), None);
}

#[test]
fn read_pattern_accepts_exactly_ten_patterns() {
    let mut found = 0;
    for bits in 0..128u32 {
        let mut p = [F; 7];
        for i in 0..7 {
            p[i] = bits & (1 << i) != 0;
        }
        if let Some(d) = read_pattern(&p) {
            assert_eq!(segment_pattern(d), p);
            found += 1;
        }
    }
    assert_eq!(found, 10);
}
