use crate::engine::{error_kind, error_message};
use vstd::prelude::*;

verus! {

/// What went wrong while registering or rendering a template.
#[derive(Debug, Clone, Copy, PartialEq, Eq, Structural)]
pub enum ErrorKind {
    /// The source is not a valid template.
    Syntax,
    /// A template name, or the parent it extends, is not registered.
    UnknownTemplate,
    /// An undefined value was used where the strict policy forbids it.
    Undefined,
    /// Any other failure while evaluating the template.
    Eval,
}

/// An error with its kind and a readable message.
#[derive(Debug)]
pub struct TemplateError {
    pub kind: ErrorKind,
    pub message: String,
}

impl TemplateError {
    /// The error that minijinja reported, in the library's terms.
    pub(crate) fn from_engine(e: &minijinja::Error) -> (r: TemplateError) {
        TemplateError { kind: error_kind(e), message: error_message(e) }
    }

    /// The error for a template name that is not registered; the message is the name.
    pub fn unknown_template(name: &str) -> (r: TemplateError)
        ensures
            r.kind == ErrorKind::UnknownTemplate,
            r.message@ == name@,
    {
        TemplateError { kind: ErrorKind::UnknownTemplate, message: String::from_str(name) }
    }
}

} // verus!
