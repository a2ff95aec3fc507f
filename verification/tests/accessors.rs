use regex_captures::CaptureError;
use regex_captures::Captures;
use regex_captures::Group;
use regex_captures::Pattern;
use regex_captures::Positive;

fn accessor(pattern: &str, subject: &str) -> Captures {
    let p = Pattern::new(pattern).unwrap();
    Captures::new(&p, subject).unwrap()
}

#[test]
fn construction_succeeds_on_match() {
    let p = Pattern::new("^a(b)c$").unwrap();
    assert!(Captures::new(&p, "abc").is_ok());
}

#[test]
fn construction_fails_with_no_match() {
    let p = Pattern::new("^a(b)c$").unwrap();
    match Captures::new(&p, "xyz") {
        Err(CaptureError::NoMatch { regex, string }) => {
            assert_eq!(regex, "^a(b)c$");
            assert_eq!(string, "xyz");
        }
        other => panic!("expected the no-match error, got {:?}", other),
    }
}

#[test]
fn invalid_pattern_is_rejected() {
    assert!(Pattern::new("(").is_err());
}

#[test]
fn pattern_keeps_its_text() {
    let p = Pattern::new("a+b").unwrap();
    assert_eq!(p.as_str(), "a+b");
}

#[test]
fn whole_match_is_group_zero() {
    let c = accessor("b+", "abba");
    assert_eq!(c.get::<String>(0).unwrap(), "bb");
}

#[test]
fn empty_pattern_matches_empty_subject() {
    let c = accessor("", "");
    assert_eq!(c.get::<String>(0).unwrap(), "");
}

#[test]
fn numeric_group_out_of_range() {
    let c = accessor("^a(b)c$", "abc");
    match c.get::<String>(5) {
        Err(CaptureError::CaptureGroupNotFound { group }) => {
            assert_eq!(group, Group::Number(5));
        }
        other => panic!("expected group-not-found, got {:?}", other),
    }
}

#[test]
fn numeric_group_not_participating() {
    let c = accessor("(a)|(b)", "a");
    match c.parse_get::<u64>(2) {
        Err(CaptureError::CaptureGroupNotFound { group }) => {
            assert_eq!(group, Group::Number(2));
        }
        other => panic!("expected group-not-found, got {:?}", other),
    }
}

#[test]
fn named_group_absent() {
    let c = accessor("^(?P<a>x)$", "x");
    match c.name::<String>("nope") {
        Err(CaptureError::CaptureGroupNotFound { group }) => {
            assert_eq!(group, Group::Name("nope".to_owned()));
        }
        other => panic!("expected group-not-found, got {:?}", other),
    }
}

#[test]
fn named_group_not_participating() {
    let c = accessor("(?P<a>x)|(?P<b>y)", "x");
    match c.try_name::<Positive>("b") {
        Err(CaptureError::CaptureGroupNotFound { group }) => {
            assert_eq!(group, Group::Name("b".to_owned()));
        }
        other => panic!("expected group-not-found, got {:?}", other),
    }
}

#[test]
fn direct_conversion_returns_the_substring() {
    let c = accessor("^(\\w+) (\\w+)$", "hello world");
    assert_eq!(c.get::<String>(1).unwrap(), "hello");
    assert_eq!(c.get::<String>(2).unwrap(), "world");
}

#[test]
fn direct_conversion_to_bool() {
    let c = accessor("^(true|false):(true|false)$", "true:false");
    assert!(c.get::<bool>(1).unwrap());
    assert!(!c.get::<bool>(2).unwrap());
}

#[test]
fn parse_conversion_returns_the_parsed_value() {
    let c = accessor("^(\\d+)$", "123");
    assert_eq!(c.parse_get::<u64>(1).unwrap(), 123);
}

#[test]
fn parse_conversion_fails_on_bad_text() {
    let c = accessor("^(\\w+)$", "abc");
    match c.parse_get::<u64>(1) {
        Err(CaptureError::ConversionError { group, error }) => {
            assert_eq!(group, Group::Number(1));
            assert_eq!(error, "expected an unsigned decimal number, found: abc");
        }
        other => panic!("expected a conversion error, got {:?}", other),
    }
}

#[test]
fn parse_conversion_at_the_range_limit() {
    let c = accessor("^(\\d+)$", "18446744073709551615");
    assert_eq!(c.parse_get::<u64>(1).unwrap(), u64::MAX);
}

#[test]
fn parse_conversion_overflows() {
    let c = accessor("^(\\d+)$", "18446744073709551616");
    match c.parse_get::<u64>(1) {
        Err(CaptureError::ConversionError { group, .. }) => {
            assert_eq!(group, Group::Number(1));
        }
        other => panic!("expected a conversion error, got {:?}", other),
    }
}

#[test]
fn parse_conversion_to_bool() {
    let c = accessor("^(\\w+):(\\w+):(\\w+)$", "true:false:yes");
    assert!(c.parse_get::<bool>(1).unwrap());
    assert!(!c.parse_get::<bool>(2).unwrap());
    assert!(matches!(
        c.parse_get::<bool>(3),
        Err(CaptureError::ConversionError { .. })
    ));
}

#[test]
fn try_conversion_accepts_positive_numbers() {
    let c = accessor("^(\\d+)$", "17");
    assert_eq!(c.try_get::<Positive>(1).unwrap().value, 17);
}

#[test]
fn try_conversion_rejects_zero() {
    let c = accessor("^(\\d+)$", "0");
    match c.try_get::<Positive>(1) {
        Err(CaptureError::ConversionError { group, error }) => {
            assert_eq!(group, Group::Number(1));
            assert_eq!(error, "expected a positive number, found: 0");
        }
        other => panic!("expected a conversion error, got {:?}", other),
    }
}

#[test]
fn named_retrieval_mirrors_numeric() {
    let c = accessor("^(?P<word>\\w+) (?P<num>\\d+)$", "carrots 44");
    assert_eq!(c.name::<String>("word").unwrap(), "carrots");
    assert_eq!(c.get::<String>(1).unwrap(), "carrots");
    assert_eq!(c.parse_name::<u64>("num").unwrap(), 44);
    assert_eq!(c.parse_get::<u64>(2).unwrap(), 44);
    assert_eq!(c.try_name::<Positive>("num").unwrap().value, 44);
    assert_eq!(c.try_get::<Positive>(2).unwrap().value, 44);
}

#[test]
fn end_to_end_numeric() {
    let c = accessor("^(true|false):(.+):([^:]+)$", "true:two:three:4");
    assert!(c.get::<bool>(1).unwrap());
    assert_eq!(c.get::<String>(2).unwrap(), "two:three");
    assert_eq!(c.try_get::<Positive>(3).unwrap().value, 4);
}

#[test]
fn end_to_end_named() {
    let c = accessor(
        "^(?P<prefix>true|false):(?P<infixes>.+):(?P<suffix>[^:]+)$",
        "true:two:three:4",
    );
    assert!(c.name::<bool>("prefix").unwrap());
    assert_eq!(c.name::<String>("infixes").unwrap(), "two:three");
    assert_eq!(c.try_name::<Positive>("suffix").unwrap().value, 4);
}
