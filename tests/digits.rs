use sonar_display::digits::{join, split};

#[test]
fn split_zero_shows_single_zero() {
    assert_eq!(split(0), [None, None, None, Some(0)]);
}

#[test]
fn split_single_digit() {
    assert_eq!(split(7), [None, None, None, Some(7)]);
}

#[test]
fn split_two_digits() {
    assert_eq!(split(42), [None, None, Some(4), Some(2)]);
}

#[test]
fn split_three_digits() {
    assert_eq!(split(123), [None, Some(1), Some(2), Some(3)]);
}

#[test]
fn split_clamps_to_four_nines() {
    assert_eq!(split(12345), split(9999));
    assert_eq!(split(9999), [Some(9), Some(9), Some(9), Some(9)]);
    assert_eq!(split(u16::MAX), [Some(9), Some(9), Some(9), Some(9)]);
}

#[test]
fn split_keeps_inner_zeros() {
    assert_eq!(split(10), [None, None, Some(1), Some(0)]);
    assert_eq!(split(1005), [Some(1), Some(0), Some(0), Some(5)]);
}

#[test]
fn join_split_round_trip_all_values() {
    for n in 0..=9999u16 {
        assert_eq!(join(&split(n)), n);
    }
}

#[test]
fn join_counts_blanks_as_zero() {
    assert_eq!(join(&[None, None, None, None]), 0);
    assert_eq!(join(&[Some(3), None, Some(7), None]), 3070);
}
