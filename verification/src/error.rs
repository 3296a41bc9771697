//! The errors that the commands end with.
use vstd::prelude::*;

verus! {

/// An error that ends a command.
#[derive(Debug, Clone, PartialEq, Eq)]
pub enum Error {
    /// A failure this tool describes itself.
    GenericError(String),
    /// A failure with a context message and, where there is one, the
    /// message of its cause.
    Context { context: String, cause: Option<String> },
    /// A failure that a step performed outside the library reported.
    Step(String),
}

/// The value of an [`Error`].
pub enum ErrorView {
    Generic(Seq<char>),
    Context(Seq<char>, Option<Seq<char>>),
    Step(Seq<char>),
}

pub open spec fn opt_text(s: Option<String>) -> Option<Seq<char>> {
    match s {
        Some(t) => Some(t@),
        None => None,
    }
}

impl View for Error {
    type V = ErrorView;

    open spec fn view(&self) -> ErrorView {
        match self {
            Error::GenericError(m) => ErrorView::Generic(m@),
            Error::Context { context, cause } => ErrorView::Context(context@, opt_text(*cause)),
            Error::Step(m) => ErrorView::Step(m@),
        }
    }
}

} // verus!
