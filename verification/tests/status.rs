use reprl::status::{status_bytes, truncate_code, Outcome, Thrown};

#[test]
fn success_reports_zero() {
    let outcome = Outcome::classify(None);
    assert_eq!(outcome, Outcome::Success);
    assert_eq!(outcome.exit_code(), 0);
    assert_eq!(outcome.status_word(), 0);
    assert_eq!((outcome.status_word() >> 8) & 0xff, 0);
}

#[test]
fn thrown_seven_reports_seven() {
    let outcome = Outcome::classify(Some(Thrown::Integer(7)));
    assert_eq!(outcome, Outcome::Coded { code: 7 });
    assert_eq!(outcome.exit_code(), 7);
    assert_eq!(outcome.status_word(), 0x0700);
    assert_eq!((outcome.status_word() >> 8) & 0xff, 7);
}

#[test]
fn thrown_string_reports_one() {
    let outcome = Outcome::classify(Some(Thrown::Other));
    assert_eq!(outcome, Outcome::Generic);
    assert_eq!(outcome.exit_code(), 1);
    assert_eq!(outcome.status_word(), 0x0100);
    assert_eq!((outcome.status_word() >> 8) & 0xff, 1);
}

#[test]
fn thrown_integers_are_cut_to_eight_bits() {
    assert_eq!(truncate_code(0), 0);
    assert_eq!(truncate_code(255), 255);
    assert_eq!(truncate_code(256), 0);
    assert_eq!(truncate_code(257), 1);
    assert_eq!(truncate_code(-1), 255);
    assert_eq!(truncate_code(-256), 0);
    assert_eq!(truncate_code(0x1234), 0x34);
    assert_eq!(truncate_code(i64::MAX), 255);
    assert_eq!(truncate_code(i64::MIN), 0);
}

#[test]
fn truncation_agrees_with_the_cast_and_mask() {
    for value in [-70_000i64, -129, -128, -2, 3, 127, 128, 1000, 1 << 40, (1 << 46) + 9] {
        let masked = (value as u32) & 0xff;
        assert_eq!(truncate_code(value) as u32, masked);
        assert_eq!(Outcome::classify(Some(Thrown::Integer(value))).status_word(), masked << 8);
    }
}

#[test]
fn a_thrown_zero_is_still_an_error_with_code_zero() {
    let outcome = Outcome::classify(Some(Thrown::Integer(0)));
    assert_eq!(outcome, Outcome::Coded { code: 0 });
    assert_eq!(outcome.status_word(), 0);
}

#[test]
fn low_byte_and_high_half_stay_zero() {
    for code in 0..=255u8 {
        let word = Outcome::Coded { code }.status_word();
        assert_eq!(word & 0xff, 0);
        assert_eq!(word >> 16, 0);
        assert_eq!((word >> 8) as u8, code);
        assert_eq!(word, 256 * code as u32);
    }
}

#[test]
fn status_goes_out_in_native_order() {
    for word in [0u32, 0x0100, 0x0700, 0xff00, 0x1234_5678] {
        assert_eq!(status_bytes(word), word.to_ne_bytes());
    }
    let bytes = status_bytes(0x0700);
    assert!(bytes == [0, 7, 0, 0] || bytes == [0, 0, 7, 0]);
}
