use vstd::prelude::*;

verus! {

/// What `regex::Regex::captures` returns for the pattern compiled from
/// `pattern` under the engine's default configuration, matched against
/// `subject`: `None` when the pattern does not match; otherwise the matched
/// text of each capture group, in order of opening parenthesis, with `None`
/// for a group that did not participate in the match. The engine documents
/// the result as a function of the pattern and the subject alone.
pub uninterp spec fn captures_of(pattern: Seq<char>, subject: Seq<char>) -> Option<
    Seq<Option<Seq<char>>>,
>;

/// What `regex::Regex::capture_names` returns for the pattern compiled from
/// `pattern`: the declared name of each capture group, in order of opening
/// parenthesis, `None` for an unnamed group. There is one entry per capture
/// group; the first is the implicit whole-match group, which is unnamed.
pub uninterp spec fn group_names_of(pattern: Seq<char>) -> Seq<Option<Seq<char>>>;

/// Whether `regex::Regex::new` accepts `pattern`: under the default
/// configuration, compilation succeeds or fails on the pattern text alone.
pub uninterp spec fn is_valid_pattern(pattern: Seq<char>) -> bool;

#[verifier::external_type_specification]
#[verifier::external_body]
pub struct ExRegex(regex::Regex);

#[verifier::external_type_specification]
#[verifier::external_body]
pub struct ExRegexError(regex::Error);

/// A compiled regular expression together with its textual form.
///
/// The engine's compiled object is opaque to the contracts, which speak of
/// the pattern text instead; the object corresponds to that text by
/// construction, since [`Pattern::new`] is the only way to build one.
pub struct Pattern {
    re: regex::Regex,
    text: String,
}

impl View for Pattern {
    type V = Seq<char>;

    closed spec fn view(&self) -> Seq<char> {
        self.text@
    }
}

impl Pattern {
    /// Compile `pattern` with the engine's default configuration. On
    /// failure, the engine's diagnostic is returned as text.
    pub fn new(pattern: &str) -> (r: Result<Pattern, String>)
        ensures
            r matches Ok(p) ==> p@ == pattern@ && is_valid_pattern(pattern@),
            r is Err ==> !is_valid_pattern(pattern@),
    {
        match compile_regex(pattern) {
            Ok(re) => Ok(Pattern { re, text: pattern.to_owned() }),
            Err(e) => Err(regex_error_text(&e)),
        }
    }

    /// The textual form this pattern was compiled from.
    pub fn as_str(&self) -> (r: &str)
        ensures
            r@ == self@,
    {
        self.text.as_str()
    }
}

/// Relies on `regex::Regex::new`: under the default configuration, whether a
/// pattern compiles depends on the pattern text alone.
#[verifier::external_body]
fn compile_regex(pattern: &str) -> (r: Result<regex::Regex, regex::Error>)
    ensures
        r is Ok <==> is_valid_pattern(pattern@),
{
    regex::Regex::new(pattern)
}

/// Relies on the `Display` impl of `regex::Error` for a readable diagnostic;
/// nothing is assumed of the text it renders.
#[verifier::external_body]
fn regex_error_text(e: &regex::Error) -> String {
    format!("{}", e)
}

/// Relies on `regex::Regex::captures`, `regex::Captures::iter` and
/// `regex::Match::as_str`: the match result is a function of the pattern and
/// the subject alone; the whole-match group `0` is always present in a
/// successful match; `Captures::iter` yields one entry per capture group of
/// the pattern, matched or not, which is also the number of entries
/// `Regex::capture_names` yields.
#[verifier::external_body]
pub(crate) fn captures_vec(p: &Pattern, subject: &str) -> (r: Option<Vec<Option<String>>>)
    ensures
        r.deep_view() == captures_of(p@, subject@),
        r matches Some(v) ==> v@.len() > 0 && v.deep_view()[0] is Some && v@.len()
            == group_names_of(p@).len(),
{
    p.re.captures(subject).map(|c| c.iter().map(|m| m.map(|x| x.as_str().to_owned())).collect())
}

/// Relies on `regex::Regex::capture_names`: the declared group names are a
/// function of the pattern alone, one entry per capture group, in order of
/// opening parenthesis.
#[verifier::external_body]
pub(crate) fn capture_names_vec(p: &Pattern) -> (r: Vec<Option<String>>)
    ensures
        r.deep_view() == group_names_of(p@),
{
    p.re.capture_names().map(|n| n.map(|x| x.to_owned())).collect()
}

} // verus!
