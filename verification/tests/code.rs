use core_api::auth::code::{format_code, generate_code};

#[test]
fn code_is_six_digits() {
    for _ in 0..1000 {
        let c = generate_code();
        assert_eq!(c.len(), 6, "code {c} must be 6 chars");
        assert!(
            c.chars().all(|ch| ch.is_ascii_digit()),
            "code {c} must be digits"
        );
    }
}

#[test]
fn codes_are_zero_padded() {
    assert_eq!(format_code(0), "000000");
    assert_eq!(format_code(42), "000042");
    assert_eq!(format_code(123456), "123456");
    assert_eq!(format_code(999999), "999999");
}
