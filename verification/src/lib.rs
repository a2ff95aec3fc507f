//! Typed access to regular-expression capture groups.
//!
//! A compiled [`Pattern`] is matched once against a subject string to build
//! a [`Captures`] accessor. The accessor retrieves capture groups by number
//! or by name and converts the matched text into a caller-chosen type
//! through one of three conversion capabilities: total conversion
//! ([`FromText`]), string parsing ([`ParseText`]) and validated conversion
//! ([`TryFromText`]). Every failure is surfaced as a [`CaptureError`] value;
//! nothing panics.
//!
//! Retrieval methods, by lookup key and conversion capability:
//!
//! | method       | lookup  | capability    | total? |
//! |--------------|---------|---------------|--------|
//! | `get`        | numeric | [FromText]    | yes    |
//! | `parse_get`  | numeric | [ParseText]   | no     |
//! | `try_get`    | numeric | [TryFromText] | no     |
//! | `name`       | named   | [FromText]    | yes    |
//! | `parse_name` | named   | [ParseText]   | no     |
//! | `try_name`   | named   | [TryFromText] | no     |

mod convert;
mod digits;
mod error;
mod pattern;

use vstd::prelude::*;

pub use convert::FromText;
pub use convert::ParseText;
pub use convert::TryFromText;
pub use convert::Positive;
pub use error::CaptureError;
pub use error::CaptureErrorView;
pub use error::Group;
pub use error::GroupView;
pub use error::group_text_of;
pub use error::message_of;
pub use digits::dec_seq;
pub use digits::dec_value;
pub use digits::dec_ok;
pub use digits::all_digits;
pub use digits::is_digit;
pub use digits::digit_val;
pub use digits::digit_char;
pub use pattern::Pattern;
pub use pattern::captures_of;
pub use pattern::group_names_of;
pub use pattern::is_valid_pattern;

verus! {

/// `i` is the first position at which `names` declares the name `nm`.
pub open spec fn found_at(names: Seq<Option<Seq<char>>>, nm: Seq<char>, i: int) -> bool {
    &&& 0 <= i < names.len()
    &&& names[i] == Some(nm)
    &&& forall|k: int| 0 <= k < i ==> (#[trigger] names[k]) != Some(nm)
}

/// The first position is unique.
proof fn lemma_found_at_unique(names: Seq<Option<Seq<char>>>, nm: Seq<char>, i: int, j: int)
    requires
        found_at(names, nm, i),
        found_at(names, nm, j),
    ensures
        i == j,
{
    if i < j {
        assert(names[i] == Some(nm));
    }
    if j < i {
        assert(names[j] == Some(nm));
    }
}

/// The failure rule shared by all retrieval methods: given the group's
/// matched text (if any) and whether that text converts, an error must be
/// the group-not-found error exactly when there is no text, and the
/// conversion error exactly when the text does not convert — each carrying
/// the requested group reference.
pub open spec fn error_outcome(
    text: Option<Seq<char>>,
    converts: bool,
    gref: GroupView,
    e: CaptureError,
) -> bool {
    match e@ {
        CaptureErrorView::GroupNotFound { group } => group == gref && text is None,
        CaptureErrorView::Conversion { group, message: _ } => group == gref && text is Some
            && !converts,
        CaptureErrorView::NoMatch { regex: _, string: _ } => false,
    }
}

/// The outcome rule of the two total retrieval methods: the converted value
/// for a group with matched text, the group-not-found error carrying the
/// requested reference otherwise.
pub open spec fn direct_outcome<A: FromText>(
    text: Option<Seq<char>>,
    gref: GroupView,
    r: Result<A, CaptureError>,
) -> bool {
    match r {
        Ok(v) => text matches Some(t) && A::from_rel(t, v),
        Err(e) => text is None && (e@ matches CaptureErrorView::GroupNotFound { group }
            && group == gref),
    }
}

/// The outcome rule of the two parse retrieval methods: a correctly parsed
/// value exactly when the group has text the [`ParseText`] capability
/// admits; otherwise an error under the shared failure rule.
pub open spec fn parse_outcome<A: ParseText>(
    text: Option<Seq<char>>,
    gref: GroupView,
    r: Result<A, CaptureError>,
) -> bool {
    match r {
        Ok(v) => text matches Some(t) && A::parse_ok(t) && A::parse_rel(t, v),
        Err(e) => error_outcome(text, text matches Some(t) && A::parse_ok(t), gref, e),
    }
}

/// The outcome rule of the two validated-conversion retrieval methods: a
/// correctly converted value exactly when the group has text the
/// [`TryFromText`] capability admits; otherwise an error under the shared
/// failure rule.
pub open spec fn try_outcome<A: TryFromText>(
    text: Option<Seq<char>>,
    gref: GroupView,
    r: Result<A, CaptureError>,
) -> bool {
    match r {
        Ok(v) => text matches Some(t) && A::try_ok(t) && A::try_rel(t, v),
        Err(e) => error_outcome(text, text matches Some(t) && A::try_ok(t), gref, e),
    }
}

proof fn lemma_deep_len(v: Vec<Option<String>>)
    ensures
        v.deep_view().len() == v@.len(),
{
}

proof fn lemma_deep_index(v: Vec<Option<String>>, i: int)
    requires
        0 <= i < v@.len(),
    ensures
        v.deep_view()[i] == v@[i].deep_view(),
{
}

/// One successful match of a pattern against a subject string, holding the
/// matched text of every capture group and the pattern's declared group
/// names. Built only by [`Captures::new`], so it always describes a match
/// that succeeded.
#[derive(Debug)]
pub struct Captures {
    pattern: String,
    subject: String,
    groups: Vec<Option<String>>,
    names: Vec<Option<String>>,
}

impl Captures {
    /// The pattern's textual form.
    pub closed spec fn pattern_view(self) -> Seq<char> {
        self.pattern@
    }

    /// The subject string the pattern was matched against.
    pub closed spec fn subject_view(self) -> Seq<char> {
        self.subject@
    }

    /// The matched text of each capture group, in order of opening
    /// parenthesis; `None` for a group that did not participate.
    pub closed spec fn groups_view(self) -> Seq<Option<Seq<char>>> {
        self.groups.deep_view()
    }

    /// The declared name of each capture group, in the same order; `None`
    /// for an unnamed group.
    pub closed spec fn names_view(self) -> Seq<Option<Seq<char>>> {
        self.names.deep_view()
    }

    /// Well-formedness: the whole-match group is present, and there is one
    /// name entry per group.
    pub open spec fn wf(self) -> bool {
        &&& self.groups_view().len() > 0
        &&& self.groups_view()[0] is Some
        &&& self.names_view().len() == self.groups_view().len()
    }

    /// The text of numeric group `n`: `None` when the group does not exist
    /// or did not participate in the match.
    pub open spec fn numeric_text(self, n: int) -> Option<Seq<char>> {
        if 0 <= n < self.groups_view().len() {
            self.groups_view()[n]
        } else {
            None
        }
    }

    /// The text of the group first declared with name `nm`: `None` when no
    /// group has that name or the named group did not participate.
    pub open spec fn named_text(self, nm: Seq<char>) -> Option<Seq<char>> {
        if exists|i: int| found_at(self.names_view(), nm, i) {
            self.groups_view()[choose|i: int| found_at(self.names_view(), nm, i)]
        } else {
            None
        }
    }

    /// Match `pattern` against `subject` once and wrap the result.
    /// Succeeds exactly when the pattern matches; otherwise the no-match
    /// error carries the pattern's textual form and the subject.
    pub fn new(pattern: &Pattern, subject: &str) -> (r: Result<Captures, CaptureError>)
        ensures
            r matches Ok(c) ==> ({
                &&& captures_of(pattern@, subject@) == Some(c.groups_view())
                &&& c.names_view() == group_names_of(pattern@)
                &&& c.pattern_view() == pattern@
                &&& c.subject_view() == subject@
                &&& c.wf()
            }),
            r matches Err(e) ==> captures_of(pattern@, subject@) is None && (e@ matches
                CaptureErrorView::NoMatch { regex, string } && regex == pattern@ && string
                == subject@),
    {
        match pattern::captures_vec(pattern, subject) {
            Some(groups) => {
                let names = pattern::capture_names_vec(pattern);
                proof {
                    lemma_deep_len(groups);
                    lemma_deep_len(names);
                }
                Ok(
                    Captures {
                        pattern: pattern.as_str().to_owned(),
                        subject: subject.to_owned(),
                        groups,
                        names,
                    },
                )
            },
            None => Err(
                CaptureError::no_match(pattern.as_str().to_owned(), subject.to_owned()),
            ),
        }
    }

    /// Look up numeric group `n`.
    fn numeric_group(&self, n: usize) -> (r: Result<&String, CaptureError>)
        ensures
            r matches Ok(t) ==> self.numeric_text(n as int) == Some(t@),
            r matches Err(e) ==> self.numeric_text(n as int) is None && (e@ matches
                CaptureErrorView::GroupNotFound { group } && group == GroupView::Number(
                n as int,
            )),
    {
        proof {
            lemma_deep_len(self.groups);
        }
        if n < self.groups.len() {
            proof {
                lemma_deep_index(self.groups, n as int);
            }
            match &self.groups[n] {
                Some(t) => Ok(t),
                None => Err(CaptureError::capture_group_not_found(Group::Number(n))),
            }
        } else {
            Err(CaptureError::capture_group_not_found(Group::Number(n)))
        }
    }

    /// Look up the group first declared with name `name`.
    fn named_group(&self, name: &str) -> (r: Result<&String, CaptureError>)
        requires
            self.wf(),
        ensures
            r matches Ok(t) ==> self.named_text(name@) == Some(t@),
            r matches Err(e) ==> self.named_text(name@) is None && (e@ matches
                CaptureErrorView::GroupNotFound { group } && group == GroupView::Name(name@)),
    {
        let owned: String = name.to_owned();
        proof {
            lemma_deep_len(self.names);
            lemma_deep_len(self.groups);
        }
        let len: usize = self.names.len();
        let mut i: usize = 0;
        while i < len
            invariant
                self.wf(),
                i <= len,
                len == self.names@.len(),
                len == self.names_view().len(),
                len == self.groups@.len(),
                owned@ == name@,
                forall|k: int| 0 <= k < i ==> (#[trigger] self.names_view()[k]) != Some(name@),
            decreases len - i,
        {
            proof {
                lemma_deep_index(self.names, i as int);
            }
            let hit = match &self.names[i] {
                Some(nm) => *nm == owned,
                None => false,
            };
            if hit {
                proof {
                    assert(found_at(self.names_view(), name@, i as int));
                    let j = choose|j: int| found_at(self.names_view(), name@, j);
                    lemma_found_at_unique(self.names_view(), name@, i as int, j);
                    lemma_deep_index(self.groups, i as int);
                }
                match &self.groups[i] {
                    Some(t) => {
                        return Ok(t);
                    },
                    None => {
                        return Err(CaptureError::capture_group_not_found(Group::Name(owned)));
                    },
                }
            }
            i = i + 1;
        }
        proof {
            if exists|j: int| found_at(self.names_view(), name@, j) {
                let j = choose|j: int| found_at(self.names_view(), name@, j);
                assert(self.names_view()[j] == Some(name@));
            }
        }
        Err(CaptureError::capture_group_not_found(Group::Name(owned)))
    }

    /// Convert numeric group `n` with the total [`FromText`] capability.
    pub fn get<A: FromText>(&self, n: usize) -> (r: Result<A, CaptureError>)
        ensures
            direct_outcome(self.numeric_text(n as int), GroupView::Number(n as int), r),
    {
        match self.numeric_group(n) {
            Ok(t) => Ok(A::from_text(t.as_str())),
            Err(e) => Err(e),
        }
    }

    /// Parse numeric group `n` with the [`ParseText`] capability.
    pub fn parse_get<A: ParseText>(&self, n: usize) -> (r: Result<A, CaptureError>)
        ensures
            parse_outcome(self.numeric_text(n as int), GroupView::Number(n as int), r),
    {
        let t = match self.numeric_group(n) {
            Ok(t) => t,
            Err(e) => {
                return Err(e);
            },
        };
        match A::parse_text(t.as_str()) {
            Ok(v) => Ok(v),
            Err(msg) => Err(CaptureError::conversion_error(Group::Number(n), msg)),
        }
    }

    /// Convert numeric group `n` with the validated [`TryFromText`]
    /// capability.
    pub fn try_get<A: TryFromText>(&self, n: usize) -> (r: Result<A, CaptureError>)
        ensures
            try_outcome(self.numeric_text(n as int), GroupView::Number(n as int), r),
    {
        let t = match self.numeric_group(n) {
            Ok(t) => t,
            Err(e) => {
                return Err(e);
            },
        };
        match A::try_from_text(t.as_str()) {
            Ok(v) => Ok(v),
            Err(msg) => Err(CaptureError::conversion_error(Group::Number(n), msg)),
        }
    }

    /// Convert the group named `name` with the total [`FromText`]
    /// capability.
    pub fn name<A: FromText>(&self, name: &str) -> (r: Result<A, CaptureError>)
        requires
            self.wf(),
        ensures
            direct_outcome(self.named_text(name@), GroupView::Name(name@), r),
    {
        match self.named_group(name) {
            Ok(t) => Ok(A::from_text(t.as_str())),
            Err(e) => Err(e),
        }
    }

    /// Parse the group named `name` with the [`ParseText`] capability.
    pub fn parse_name<A: ParseText>(&self, name: &str) -> (r: Result<A, CaptureError>)
        requires
            self.wf(),
        ensures
            parse_outcome(self.named_text(name@), GroupView::Name(name@), r),
    {
        let t = match self.named_group(name) {
            Ok(t) => t,
            Err(e) => {
                return Err(e);
            },
        };
        match A::parse_text(t.as_str()) {
            Ok(v) => Ok(v),
            Err(msg) => Err(CaptureError::conversion_error(Group::Name(name.to_owned()), msg)),
        }
    }

    /// Convert the group named `name` with the validated [`TryFromText`]
    /// capability.
    pub fn try_name<A: TryFromText>(&self, name: &str) -> (r: Result<A, CaptureError>)
        requires
            self.wf(),
        ensures
            try_outcome(self.named_text(name@), GroupView::Name(name@), r),
    {
        let t = match self.named_group(name) {
            Ok(t) => t,
            Err(e) => {
                return Err(e);
            },
        };
        match A::try_from_text(t.as_str()) {
            Ok(v) => Ok(v),
            Err(msg) => Err(CaptureError::conversion_error(Group::Name(name.to_owned()), msg)),
        }
    }
}

/// For a group reference with no matched text, a total retrieval always
/// fails with the group-not-found error carrying exactly that reference.
pub proof fn lemma_absent_group_direct<A: FromText>(gref: GroupView, r: Result<A, CaptureError>)
    requires
        direct_outcome(None, gref, r),
    ensures
        r matches Err(e) && e@ matches CaptureErrorView::GroupNotFound { group } && group == gref,
{
}

/// For a group reference with no matched text, a parse retrieval always
/// fails with the group-not-found error carrying exactly that reference.
pub proof fn lemma_absent_group_parse<A: ParseText>(gref: GroupView, r: Result<A, CaptureError>)
    requires
        parse_outcome(None, gref, r),
    ensures
        r matches Err(e) && e@ matches CaptureErrorView::GroupNotFound { group } && group == gref,
{
}

/// For a group reference with no matched text, a validated-conversion
/// retrieval always fails with the group-not-found error carrying exactly
/// that reference.
pub proof fn lemma_absent_group_try<A: TryFromText>(gref: GroupView, r: Result<A, CaptureError>)
    requires
        try_outcome(None, gref, r),
    ensures
        r matches Err(e) && e@ matches CaptureErrorView::GroupNotFound { group } && group == gref,
{
}

/// The parse methods and the validated-conversion methods behave
/// identically for success and failure: for the same group text, and for
/// capabilities that admit the same texts, any results the two outcome
/// rules admit agree on success or failure and on the kind of error; each
/// error carries the requested reference. Only the capability consulted
/// differs.
pub proof fn lemma_outcome_agreement<A: ParseText, B: TryFromText>(
    text: Option<Seq<char>>,
    gref: GroupView,
    r1: Result<A, CaptureError>,
    r2: Result<B, CaptureError>,
)
    requires
        parse_outcome(text, gref, r1),
        try_outcome(text, gref, r2),
        forall|t: Seq<char>| (#[trigger] A::parse_ok(t)) <==> B::try_ok(t),
    ensures
        r1 is Ok <==> r2 is Ok,
        r1 is Err && r2 is Err ==> ((r1->Err_0@ is GroupNotFound <==> r2->Err_0@
            is GroupNotFound) && (r1->Err_0@ is Conversion <==> r2->Err_0@ is Conversion)),
{
    if r1 is Err && r2 is Err {
        let e1 = r1->Err_0;
        let e2 = r2->Err_0;
        match text {
            Some(t) => {
                assert(A::parse_ok(t) <==> B::try_ok(t));
                assert(e1@ is Conversion);
                assert(e2@ is Conversion);
            },
            None => {
                assert(e1@ is GroupNotFound);
                assert(e2@ is GroupNotFound);
            },
        }
    }
}

} // verus!
