use envfury::custom::OneOrTwo;
use envfury::{must, or_parse, Custom, MustError, Raw, ValueError};

#[test]
fn custom_one_round_trip() {
    let raw = Raw::Present(String::from("one"));
    match must::<Custom<OneOrTwo>>("MY_ONE_OR_TWO", &raw) {
        Ok(Custom(v)) => assert_eq!(v.value, 1),
        Err(_) => panic!("expected the override to accept the word"),
    }
}

#[test]
fn custom_two_round_trip() {
    let raw = Raw::Present(String::from("two"));
    match must::<Custom<OneOrTwo>>("MY_ONE_OR_TWO", &raw) {
        Ok(Custom(v)) => assert_eq!(v.value, 2),
        Err(_) => panic!("expected the override to accept the word"),
    }
}

#[test]
fn custom_other_word_is_parse_error() {
    let raw = Raw::Present(String::from("three"));
    match must::<Custom<OneOrTwo>>("MY_ONE_OR_TWO", &raw) {
        Ok(_) => panic!("expected an error"),
        Err(e) => {
            assert_eq!(e.key, "MY_ONE_OR_TWO");
            match e.reason {
                MustError::Value(ValueError::Parse(msg)) => {
                    assert_eq!(msg, "not \"one\" or \"two\"");
                }
                _ => panic!("expected a parse-classified reason"),
            }
        }
    }
}

#[test]
fn custom_default_text_parses_through_override() {
    match or_parse::<Custom<OneOrTwo>>("MY_ONE_OR_TWO", &Raw::Absent, "two") {
        Ok(Custom(v)) => assert_eq!(v.value, 2),
        Err(_) => panic!("expected the parsed default"),
    }
}
