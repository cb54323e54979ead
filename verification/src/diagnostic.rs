//! Mapping from a finding to a structured diagnostic: a blamed range, a
//! primary message, and an optional secondary (range, message) pair that
//! points at a related location. Rendering the triple is left to the
//! surrounding engine.

use vstd::prelude::*;

use crate::model::TextSpan;
use crate::rule::Detection;
use vstd::string::StringExecFns;

verus! {

/// A structured diagnostic, ready for an engine to render.
#[derive(Debug, PartialEq, Eq)]
pub struct Diagnostic {
    pub range: TextSpan,
    pub message: String,
    pub detail: Option<(TextSpan, String)>,
}

/// Mathematical content of a diagnostic: the blamed range, the message
/// text, and the optional secondary annotation.
pub open spec fn diagnostic_view(d: Diagnostic) -> (TextSpan, Seq<char>, Option<(TextSpan, Seq<char>)>) {
    (
        d.range,
        d.message@,
        match d.detail {
            Option::Some(p) => Option::Some((p.0, p.1@)),
            Option::None => Option::None,
        },
    )
}

impl Detection {
    /// The blamed range: the `extends` clause for a missing call, the
    /// `super()` call for an unexpected or bad one.
    pub open spec fn range_spec(self) -> TextSpan {
        match self {
            Detection::MissingSuper(range) => range,
            Detection::UnexpectedSuper(range) => range,
            Detection::BadExtends { super_range, .. } => super_range,
        }
    }

    /// The primary message text for this finding.
    pub open spec fn message_spec(self) -> Seq<char> {
        match self {
            Detection::MissingSuper(_) =>
                "This class extends another class and a super() call is expected."@,
            Detection::UnexpectedSuper(_) =>
                "This class should not have a super() call. You should remove it."@,
            Detection::BadExtends { .. } =>
                "This class calls super(), but the class extends from a non-constructor."@,
        }
    }

    /// The optional secondary annotation: only `BadExtends` carries one,
    /// pointing at the non-constructor superclass expression.
    pub open spec fn detail_spec(self) -> Option<(TextSpan, Seq<char>)> {
        match self {
            Detection::BadExtends { extends_range, .. } => Option::Some(
                (extends_range, "This is where the non-constructor is used."@),
            ),
            _ => Option::None,
        }
    }

    /// Executable blamed range.
    pub fn range(&self) -> (r: TextSpan)
        ensures
            r == self.range_spec(),
    {
        match self {
            Detection::MissingSuper(range) => *range,
            Detection::UnexpectedSuper(range) => *range,
            Detection::BadExtends { super_range, .. } => *super_range,
        }
    }

    /// Executable primary message.
    pub fn message(&self) -> (m: String)
        ensures
            m@ == self.message_spec(),
    {
        match self {
            Detection::MissingSuper(_) => String::from_str(
                "This class extends another class and a super() call is expected.",
            ),
            Detection::UnexpectedSuper(_) => String::from_str(
                "This class should not have a super() call. You should remove it.",
            ),
            Detection::BadExtends { .. } => String::from_str(
                "This class calls super(), but the class extends from a non-constructor.",
            ),
        }
    }

    /// Executable secondary annotation.
    pub fn detail(&self) -> (d: Option<(TextSpan, String)>)
        ensures
            match d {
                Option::Some(p) => self.detail_spec() == Option::Some((p.0, p.1@)),
                Option::None => self.detail_spec() is None,
            },
    {
        match self {
            Detection::BadExtends { extends_range, .. } => Option::Some(
                (
                    *extends_range,
                    String::from_str("This is where the non-constructor is used."),
                ),
            ),
            _ => Option::None,
        }
    }
}

/// The diagnostic a finding maps to.
pub open spec fn diagnostic_of(state: Detection) -> (TextSpan, Seq<char>, Option<(TextSpan, Seq<char>)>) {
    (state.range_spec(), state.message_spec(), state.detail_spec())
}

/// Build the structured diagnostic for a finding; its content is exactly
/// `diagnostic_of` the finding.
pub fn diagnostic(state: &Detection) -> (d: Diagnostic)
    ensures
        diagnostic_view(d) == diagnostic_of(*state),
{
    Diagnostic { range: state.range(), message: state.message(), detail: state.detail() }
}

} // verus!
