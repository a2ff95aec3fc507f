use vstd::prelude::*;

use crate::digits::dec_seq;
use crate::digits::usize_dec;

verus! {

/// A reference to a capture group: a position, or a declared name.
///
/// Position `0` is the whole match; positions `1` and up are the pattern's
/// parenthesised groups, in order of opening parenthesis.
#[derive(Debug, PartialEq, Eq)]
pub enum Group {
    Number(usize),
    Name(String),
}

/// The mathematical value of a [`Group`]: the position itself, or the name
/// as a sequence of characters.
pub enum GroupView {
    Number(int),
    Name(Seq<char>),
}

impl View for Group {
    type V = GroupView;

    open spec fn view(&self) -> GroupView {
        match self {
            Group::Number(n) => GroupView::Number(*n as int),
            Group::Name(s) => GroupView::Name(s@),
        }
    }
}

impl From<usize> for Group {
    fn from(n: usize) -> (r: Group) {
        Group::Number(n)
    }
}

impl vstd::std_specs::convert::FromSpecImpl<usize> for Group {
    open spec fn obeys_from_spec() -> bool {
        true
    }

    open spec fn from_spec(n: usize) -> Group {
        Group::Number(n)
    }
}

impl From<String> for Group {
    fn from(s: String) -> (r: Group) {
        Group::Name(s)
    }
}

impl vstd::std_specs::convert::FromSpecImpl<String> for Group {
    open spec fn obeys_from_spec() -> bool {
        true
    }

    open spec fn from_spec(s: String) -> Group {
        Group::Name(s)
    }
}

/// The textual form of a group reference: the decimal digits of a position,
/// or the name itself.
pub open spec fn group_text_of(g: GroupView) -> Seq<char> {
    match g {
        GroupView::Number(n) => dec_seq(n as nat),
        GroupView::Name(s) => s,
    }
}

impl Group {
    /// The textual form of this reference, as the diagnostics render it.
    pub fn text(&self) -> (r: String)
        ensures
            r@ == group_text_of(self@),
    {
        match self {
            Group::Number(n) => usize_dec(*n),
            Group::Name(s) => s.clone(),
        }
    }
}

} // verus!
