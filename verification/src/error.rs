mod group;

use vstd::prelude::*;
use vstd::string::StringExecFns;

pub use group::Group;
pub use group::GroupView;
pub use group::group_text_of;

verus! {

/// The error taxonomy: the pattern did not match at all, a requested group
/// is absent, or a group's text would not convert to the requested type.
///
/// Each variant carries enough text to render a diagnostic; see
/// [`CaptureError::message`].
#[derive(Debug, PartialEq, Eq)]
#[non_exhaustive]
pub enum CaptureError {
    /// The pattern failed to match the subject string.
    NoMatch { regex: String, string: String },
    /// The requested group does not exist in the pattern, or did not
    /// participate in the match.
    CaptureGroupNotFound { group: Group },
    /// The group's matched text could not be converted to the requested type.
    ConversionError { group: Group, error: String },
}

/// The mathematical value of a [`CaptureError`].
pub enum CaptureErrorView {
    NoMatch { regex: Seq<char>, string: Seq<char> },
    GroupNotFound { group: GroupView },
    Conversion { group: GroupView, message: Seq<char> },
}

impl View for CaptureError {
    type V = CaptureErrorView;

    open spec fn view(&self) -> CaptureErrorView {
        match self {
            CaptureError::NoMatch { regex, string } => (CaptureErrorView::NoMatch {
                regex: regex@,
                string: string@,
            }),
            CaptureError::CaptureGroupNotFound { group } => (CaptureErrorView::GroupNotFound {
                group: group@,
            }),
            CaptureError::ConversionError { group, error } => (CaptureErrorView::Conversion {
                group: group@,
                message: error@,
            }),
        }
    }
}

/// The diagnostic text of an error, from its parts.
pub open spec fn message_of(e: CaptureErrorView) -> Seq<char> {
    match e {
        CaptureErrorView::NoMatch { regex, string } => "The regex "@ + regex
            + " did not match \""@ + string + "\""@,
        CaptureErrorView::GroupNotFound { group } => "Could not find capture group "@
            + group_text_of(group),
        CaptureErrorView::Conversion { group, message } => "Failed to convert capture group "@
            + group_text_of(group) + ": "@ + message,
    }
}

impl CaptureError {
    /// The no-match error, carrying the pattern's textual form and the
    /// subject string.
    pub fn no_match(regex: String, string: String) -> (r: Self)
        ensures
            r@ == (CaptureErrorView::NoMatch { regex: regex@, string: string@ }),
    {
        CaptureError::NoMatch { regex, string }
    }

    /// The group-not-found error, carrying the requested group reference.
    pub fn capture_group_not_found(group: Group) -> (r: Self)
        ensures
            r@ == (CaptureErrorView::GroupNotFound { group: group@ }),
    {
        CaptureError::CaptureGroupNotFound { group }
    }

    /// The conversion error, carrying the group reference and a rendering of
    /// the underlying conversion failure.
    pub fn conversion_error(group: Group, error: String) -> (r: Self)
        ensures
            r@ == (CaptureErrorView::Conversion { group: group@, message: error@ }),
    {
        CaptureError::ConversionError { group, error }
    }

    /// The human-readable diagnostic for this error.
    pub fn message(&self) -> (r: String)
        ensures
            r@ == message_of(self@),
    {
        match self {
            CaptureError::NoMatch { regex, string } => "The regex ".to_owned().concat(
                regex.as_str(),
            ).concat(" did not match \"").concat(string.as_str()).concat("\""),
            CaptureError::CaptureGroupNotFound { group } => "Could not find capture group "
                .to_owned().concat(group.text().as_str()),
            CaptureError::ConversionError { group, error } => "Failed to convert capture group "
                .to_owned().concat(group.text().as_str()).concat(": ").concat(error.as_str()),
        }
    }
}

} // verus!
