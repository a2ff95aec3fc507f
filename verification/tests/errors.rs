use regex_captures::CaptureError;
use regex_captures::Captures;
use regex_captures::Group;
use regex_captures::Pattern;

#[test]
fn group_text_renders_numbers() {
    assert_eq!(Group::Number(0).text(), "0");
    assert_eq!(Group::Number(7).text(), "7");
    assert_eq!(Group::Number(170).text(), "170");
}

#[test]
fn group_text_renders_names() {
    assert_eq!(Group::Name("suffix".to_owned()).text(), "suffix");
}

#[test]
fn group_from_usize() {
    assert_eq!(Group::from(3), Group::Number(3));
}

#[test]
fn group_from_string() {
    assert_eq!(Group::from("hi".to_owned()), Group::Name("hi".to_owned()));
}

#[test]
fn no_match_message() {
    let p = Pattern::new("^a(b)c$").unwrap();
    let e = Captures::new(&p, "xyz").unwrap_err();
    assert_eq!(e.message(), "The regex ^a(b)c$ did not match \"xyz\"");
}

#[test]
fn group_not_found_message() {
    let e = CaptureError::capture_group_not_found(Group::Number(5));
    assert_eq!(e.message(), "Could not find capture group 5");
    let e = CaptureError::capture_group_not_found(Group::Name("tail".to_owned()));
    assert_eq!(e.message(), "Could not find capture group tail");
}

#[test]
fn conversion_error_message() {
    let p = Pattern::new("^(\\w+)$").unwrap();
    let c = Captures::new(&p, "abc").unwrap();
    let e = c.parse_get::<u64>(1).unwrap_err();
    assert_eq!(
        e.message(),
        "Failed to convert capture group 1: expected an unsigned decimal number, found: abc"
    );
}

#[test]
fn errors_carry_their_parts() {
    let e = CaptureError::no_match("p".to_owned(), "s".to_owned());
    match e {
        CaptureError::NoMatch { regex, string } => {
            assert_eq!(regex, "p");
            assert_eq!(string, "s");
        }
        other => panic!("expected the no-match variant, got {:?}", other),
    }
    let e = CaptureError::conversion_error(Group::Number(2), "why".to_owned());
    match e {
        CaptureError::ConversionError { group, error } => {
            assert_eq!(group, Group::Number(2));
            assert_eq!(error, "why");
        }
        other => panic!("expected the conversion variant, got {:?}", other),
    }
}
