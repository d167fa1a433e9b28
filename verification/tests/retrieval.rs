use envfury::{maybe, must, or, or_else, or_parse};
use envfury::{Error, MustError, OrParseError, Raw, ValueError};
use envfury::parse::IntParseError;

#[test]
fn present_port_must() {
    let raw = Raw::Present(String::from("8080"));
    match must::<u16>("PORT", &raw) {
        Ok(v) => assert_eq!(v, 8080),
        Err(_) => panic!("expected a value"),
    }
}

#[test]
fn absent_timeout_or() {
    match or::<u32>("TIMEOUT", &Raw::Absent, 30) {
        Ok(v) => assert_eq!(v, 30),
        Err(_) => panic!("expected the default"),
    }
}

#[test]
fn unparseable_ratio_maybe() {
    let raw = Raw::Present(String::from("abc"));
    match maybe::<u32>("RATIO", &raw) {
        Ok(_) => panic!("expected an error"),
        Err(e) => {
            assert_eq!(e.key, "RATIO");
            assert!(matches!(e.reason, ValueError::Parse(IntParseError::InvalidDigit)));
        }
    }
}

#[test]
fn absent_level_or_parse() {
    match or_parse::<u8>("LEVEL", &Raw::Absent, "5") {
        Ok(v) => assert_eq!(v, 5),
        Err(_) => panic!("expected the parsed default"),
    }
}

#[test]
fn absent_level_or_parse_bad_default() {
    match or_parse::<u8>("LEVEL", &Raw::Absent, "xyz") {
        Ok(_) => panic!("expected an error"),
        Err(e) => {
            assert_eq!(e.key, "LEVEL");
            assert!(matches!(
                e.reason,
                OrParseError::ParseDefault(IntParseError::InvalidDigit)
            ));
        }
    }
}

#[test]
fn non_unicode_name_maybe() {
    match maybe::<String>("NAME", &Raw::NonUnicode) {
        Ok(_) => panic!("expected an error"),
        Err(e) => {
            assert_eq!(e.key, "NAME");
            assert!(matches!(e.reason, ValueError::NonUnicode));
        }
    }
}

#[test]
fn absent_maybe_none() {
    match maybe::<u32>("MISSING", &Raw::Absent) {
        Ok(v) => assert!(v.is_none()),
        Err(_) => panic!("absence is not an error for maybe"),
    }
}

#[test]
fn absent_must_not_set() {
    match must::<u32>("MISSING", &Raw::Absent) {
        Ok(_) => panic!("expected an error"),
        Err(e) => {
            assert_eq!(e.key, "MISSING");
            assert!(matches!(e.reason, MustError::NotSet));
        }
    }
}

#[test]
fn present_all_agree() {
    let raw = Raw::Present(String::from("8080"));
    let mut count = 0;
    match maybe::<u16>("PORT", &raw) {
        Ok(Some(v)) => assert_eq!(v, 8080),
        _ => panic!("expected the parsed value"),
    }
    match must::<u16>("PORT", &raw) {
        Ok(v) => assert_eq!(v, 8080),
        _ => panic!("expected the parsed value"),
    }
    match or::<u16>("PORT", &raw, 1) {
        Ok(v) => assert_eq!(v, 8080),
        _ => panic!("expected the parsed value, not the default"),
    }
    match or_else::<u16, _>("PORT", &raw, || {
        count += 1;
        1
    }) {
        Ok(v) => assert_eq!(v, 8080),
        _ => panic!("expected the parsed value, not the default"),
    }
    assert_eq!(count, 0);
    match or_parse::<u16>("PORT", &raw, "1") {
        Ok(v) => assert_eq!(v, 8080),
        _ => panic!("expected the parsed value, not the default"),
    }
}

#[test]
fn parse_error_all_fail_with_key() {
    let raw = Raw::Present(String::from("nope"));
    match maybe::<u32>("K", &raw) {
        Err(e) => {
            assert_eq!(e.key, "K");
            assert!(matches!(e.reason, ValueError::Parse(IntParseError::InvalidDigit)));
        }
        Ok(_) => panic!("expected an error"),
    }
    match must::<u32>("K", &raw) {
        Err(e) => {
            assert_eq!(e.key, "K");
            assert!(matches!(
                e.reason,
                MustError::Value(ValueError::Parse(IntParseError::InvalidDigit))
            ));
        }
        Ok(_) => panic!("expected an error"),
    }
    match or::<u32>("K", &raw, 7) {
        Err(e) => {
            assert_eq!(e.key, "K");
            assert!(matches!(e.reason, ValueError::Parse(IntParseError::InvalidDigit)));
        }
        Ok(_) => panic!("expected an error, not the default"),
    }
    match or_else::<u32, _>("K", &raw, || 7) {
        Err(e) => {
            assert_eq!(e.key, "K");
            assert!(matches!(e.reason, ValueError::Parse(IntParseError::InvalidDigit)));
        }
        Ok(_) => panic!("expected an error, not the default"),
    }
    match or_parse::<u32>("K", &raw, "7") {
        Err(e) => {
            assert_eq!(e.key, "K");
            assert!(matches!(
                e.reason,
                OrParseError::Value(ValueError::Parse(IntParseError::InvalidDigit))
            ));
        }
        Ok(_) => panic!("expected an error, not the default"),
    }
}

#[test]
fn absent_or_else_calls_once() {
    let mut count = 0;
    match or_else::<u32, _>("MISSING", &Raw::Absent, || {
        count += 1;
        42
    }) {
        Ok(v) => assert_eq!(v, 42),
        Err(_) => panic!("expected the computed default"),
    }
    assert_eq!(count, 1);
}

#[test]
fn idempotent_repeat() {
    let raw = Raw::Present(String::from("17"));
    let first = maybe::<u32>("N", &raw);
    let second = maybe::<u32>("N", &raw);
    match (first, second) {
        (Ok(Some(a)), Ok(Some(b))) => {
            assert_eq!(a, 17);
            assert_eq!(b, 17);
        }
        _ => panic!("expected the same parsed value twice"),
    }
    let bad = Raw::Present(String::from("x"));
    let first = must::<u32>("N", &bad);
    let second = must::<u32>("N", &bad);
    match (first, second) {
        (Err(a), Err(b)) => {
            assert_eq!(a.key, b.key);
            assert!(matches!(
                a.reason,
                MustError::Value(ValueError::Parse(IntParseError::InvalidDigit))
            ));
            assert!(matches!(
                b.reason,
                MustError::Value(ValueError::Parse(IntParseError::InvalidDigit))
            ));
        }
        _ => panic!("expected the same error twice"),
    }
}

#[test]
fn must_string_value() {
    let raw = Raw::Present(String::from("hello"));
    match must::<String>("GREETING", &raw) {
        Ok(v) => assert_eq!(v, "hello"),
        Err(_) => panic!("expected the text itself"),
    }
}

#[test]
fn error_new_and_map_reason() {
    let e = Error::new("K", 5u32);
    assert_eq!(e.key, "K");
    assert_eq!(e.reason, 5);
    let e = e.map_reason(|r| r + 1);
    assert_eq!(e.key, "K");
    assert_eq!(e.reason, 6);
}
