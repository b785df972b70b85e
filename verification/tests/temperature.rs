use fundamentals::temperature::fahr_to_cel;

#[test]
fn convert_freezing_point() {
    assert_eq!(fahr_to_cel(32), 0);
}

#[test]
fn convert_fifty() {
    assert_eq!(fahr_to_cel(50), 10);
}

#[test]
fn convert_boiling_point() {
    assert_eq!(fahr_to_cel(212), 100);
}

#[test]
fn convert_truncates_toward_zero() {
    // (0 - 32) * 5 == -160; -160 / 9 truncates to -17, not -18.
    assert_eq!(fahr_to_cel(0), -17);
    // (31 - 32) * 5 == -5; -5 / 9 truncates to 0.
    assert_eq!(fahr_to_cel(31), 0);
    assert_eq!(fahr_to_cel(-40), -40);
}

#[test]
fn convert_whole_input_range() {
    assert_eq!(fahr_to_cel(i32::MAX), 1193046452);
    assert_eq!(fahr_to_cel(i32::MIN), -1193046488);
}

#[test]
fn convert_same_input_same_output() {
    assert_eq!(fahr_to_cel(77), fahr_to_cel(77));
    assert_eq!(fahr_to_cel(-13), fahr_to_cel(-13));
}
