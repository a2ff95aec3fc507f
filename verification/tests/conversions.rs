use regex_captures::FromText;
use regex_captures::ParseText;
use regex_captures::Positive;
use regex_captures::TryFromText;

#[test]
fn string_direct_conversion_is_identity() {
    assert_eq!(<String as FromText>::from_text("two:three"), "two:three");
    assert_eq!(<String as FromText>::from_text(""), "");
}

#[test]
fn bool_direct_conversion_is_total() {
    assert!(<bool as FromText>::from_text("true"));
    assert!(!<bool as FromText>::from_text("false"));
    assert!(!<bool as FromText>::from_text("TRUE"));
    assert!(!<bool as FromText>::from_text(""));
}

#[test]
fn bool_parses_only_the_two_literals() {
    assert_eq!(<bool as ParseText>::parse_text("true"), Ok(true));
    assert_eq!(<bool as ParseText>::parse_text("false"), Ok(false));
    assert!(<bool as ParseText>::parse_text("yes").is_err());
    assert!(<bool as ParseText>::parse_text("").is_err());
}

#[test]
fn u64_parses_plain_decimals() {
    assert_eq!(<u64 as ParseText>::parse_text("0"), Ok(0));
    assert_eq!(<u64 as ParseText>::parse_text("007"), Ok(7));
    assert_eq!(<u64 as ParseText>::parse_text("90210"), Ok(90210));
    assert_eq!(
        <u64 as ParseText>::parse_text("18446744073709551615"),
        Ok(u64::MAX)
    );
}

#[test]
fn u64_rejects_everything_else() {
    assert!(<u64 as ParseText>::parse_text("").is_err());
    assert!(<u64 as ParseText>::parse_text("+3").is_err());
    assert!(<u64 as ParseText>::parse_text("-3").is_err());
    assert!(<u64 as ParseText>::parse_text("1e3").is_err());
    assert!(<u64 as ParseText>::parse_text("18446744073709551616").is_err());
}

#[test]
fn positive_accepts_only_nonzero_numbers() {
    assert_eq!(
        <Positive as TryFromText>::try_from_text("4"),
        Ok(Positive { value: 4 })
    );
    assert_eq!(
        <Positive as TryFromText>::try_from_text("007"),
        Ok(Positive { value: 7 })
    );
    assert!(<Positive as TryFromText>::try_from_text("0").is_err());
    assert!(<Positive as TryFromText>::try_from_text("000").is_err());
    assert!(<Positive as TryFromText>::try_from_text("x").is_err());
    assert!(<Positive as TryFromText>::try_from_text("").is_err());
}
