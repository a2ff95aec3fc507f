use vstd::prelude::*;
use vstd::string::StringExecFns;

use crate::digits::dec_ok;
use crate::digits::dec_value;
use crate::digits::parse_u64_digits;

verus! {

/// Total conversion from matched text: the capability behind the direct
/// retrieval methods. It cannot fail.
pub trait FromText: Sized {
    /// Which values count as the conversion of the text `s`.
    spec fn from_rel(s: Seq<char>, v: Self) -> bool;

    /// Convert `s`; the conversion is total, so no error is possible.
    fn from_text(s: &str) -> (r: Self)
        ensures
            Self::from_rel(s@, r),
    ;
}

/// Fallible conversion by parsing the matched text: the capability behind
/// the parse retrieval methods. On failure it returns a rendering of the
/// parse error.
pub trait ParseText: Sized {
    /// On which texts parsing succeeds.
    spec fn parse_ok(s: Seq<char>) -> bool;

    /// Which values count as the parse of the text `s`.
    spec fn parse_rel(s: Seq<char>, v: Self) -> bool;

    /// Parse `s`; succeeds exactly on the texts `parse_ok` admits.
    fn parse_text(s: &str) -> (r: Result<Self, String>)
        ensures
            r matches Ok(v) ==> Self::parse_ok(s@) && Self::parse_rel(s@, v),
            r is Err ==> !Self::parse_ok(s@),
    ;
}

/// Fallible, validated conversion from matched text, distinct from parsing:
/// the capability behind the try retrieval methods. On failure it returns a
/// rendering of the conversion error.
pub trait TryFromText: Sized {
    /// On which texts the conversion succeeds.
    spec fn try_ok(s: Seq<char>) -> bool;

    /// Which values count as the conversion of the text `s`.
    spec fn try_rel(s: Seq<char>, v: Self) -> bool;

    /// Convert `s`; succeeds exactly on the texts `try_ok` admits.
    fn try_from_text(s: &str) -> (r: Result<Self, String>)
        ensures
            r matches Ok(v) ==> Self::try_ok(s@) && Self::try_rel(s@, v),
            r is Err ==> !Self::try_ok(s@),
    ;
}

impl FromText for String {
    open spec fn from_rel(s: Seq<char>, v: String) -> bool {
        v@ == s
    }

    fn from_text(s: &str) -> (r: String) {
        s.to_owned()
    }
}

impl FromText for bool {
    /// The text `true` converts to `true`; every other text to `false`.
    open spec fn from_rel(s: Seq<char>, v: bool) -> bool {
        v == (s == "true"@)
    }

    fn from_text(s: &str) -> (r: bool) {
        let owned: String = s.to_owned();
        owned == "true".to_owned()
    }
}

impl ParseText for bool {
    open spec fn parse_ok(s: Seq<char>) -> bool {
        s == "true"@ || s == "false"@
    }

    open spec fn parse_rel(s: Seq<char>, v: bool) -> bool {
        v == (s == "true"@)
    }

    fn parse_text(s: &str) -> (r: Result<bool, String>) {
        let owned: String = s.to_owned();
        if owned == "true".to_owned() {
            Ok(true)
        } else if owned == "false".to_owned() {
            Ok(false)
        } else {
            Err("expected \"true\" or \"false\", found: ".to_owned().concat(s))
        }
    }
}

impl ParseText for u64 {
    /// Nonempty, decimal digits only, and within range.
    open spec fn parse_ok(s: Seq<char>) -> bool {
        dec_ok(s)
    }

    open spec fn parse_rel(s: Seq<char>, v: u64) -> bool {
        v as nat == dec_value(s)
    }

    fn parse_text(s: &str) -> (r: Result<u64, String>) {
        match parse_u64_digits(s) {
            Some(v) => Ok(v),
            None => Err("expected an unsigned decimal number, found: ".to_owned().concat(s)),
        }
    }
}

/// A positive (nonzero) unsigned integer. It converts from text through the
/// validated [`TryFromText`] capability alone: the range check is what makes
/// the conversion more than a parse.
#[derive(Debug, Clone, Copy, PartialEq, Eq)]
pub struct Positive {
    pub value: u64,
}

impl TryFromText for Positive {
    /// Nonempty, decimal digits only, within range, and not zero.
    open spec fn try_ok(s: Seq<char>) -> bool {
        dec_ok(s) && dec_value(s) > 0
    }

    open spec fn try_rel(s: Seq<char>, v: Positive) -> bool {
        v.value as nat == dec_value(s)
    }

    fn try_from_text(s: &str) -> (r: Result<Positive, String>) {
        match parse_u64_digits(s) {
            Some(v) => {
                if v > 0 {
                    Ok(Positive { value: v })
                } else {
                    Err("expected a positive number, found: ".to_owned().concat(s))
                }
            },
            None => Err("expected a positive number, found: ".to_owned().concat(s)),
        }
    }
}

} // verus!
