//! The fatal conditions that end an expansion.

use vstd::prelude::*;
use vstd::string::StringExecFns;

verus! {

/// Why the expansion of an aggregate was abandoned.
#[derive(Debug)]
pub enum ControllerGenerationError {
    /// An HTTP-verb annotation whose argument is not one string literal.
    InvalidAttributeFormat,
    /// A provider identifier that was derived a second time; it carries the identifier.
    DependencyConflict(String),
}

/// The ghost model of a [`ControllerGenerationError`].
pub enum ErrorView {
    InvalidAttributeFormat,
    DependencyConflict(Seq<char>),
}

impl View for ControllerGenerationError {
    type V = ErrorView;

    open spec fn view(&self) -> ErrorView {
        match self {
            ControllerGenerationError::InvalidAttributeFormat => ErrorView::InvalidAttributeFormat,
            ControllerGenerationError::DependencyConflict(dep) => ErrorView::DependencyConflict(
                dep@,
            ),
        }
    }
}

/// The text of the message for an error.
pub open spec fn message_text(e: ErrorView) -> Seq<char> {
    match e {
        ErrorView::InvalidAttributeFormat => "Formato de atributo inválido"@,
        ErrorView::DependencyConflict(dep) => "Conflito na dependência: "@ + dep,
    }
}

impl ControllerGenerationError {
    /// The message that is reported upstream for this error.
    pub fn message(&self) -> (text: String)
        ensures
            text@ == message_text(self@),
    {
        match self {
            ControllerGenerationError::InvalidAttributeFormat => String::from_str(
                "Formato de atributo inválido",
            ),
            ControllerGenerationError::DependencyConflict(dep) => String::from_str(
                "Conflito na dependência: ",
            ).concat(dep.as_str()),
        }
    }
}

} // verus!
