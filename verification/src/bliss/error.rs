//! Failures of a pull or a push.

use vstd::prelude::*;
use crate::lemmy::{LemmyError, LemmyErrorView};

verus! {

/// Why an operation, or one step of it, failed.
#[derive(Debug)]
pub enum Error {
    /// A remote call failed.
    LemmyError(LemmyError),
    /// The local store failed; holds its description of the failure.
    IoError(String),
    /// The operation itself gave up; holds the reason.
    BlissError(String),
}

/// What an `Error` holds.
pub ghost enum ErrorView {
    LemmyError(LemmyErrorView),
    IoError(Seq<char>),
    BlissError(Seq<char>),
}

impl ErrorView {
    /// The text shown for the failure.
    pub open spec fn message(self) -> Seq<char> {
        match self {
            ErrorView::LemmyError(inner) => inner.message(),
            ErrorView::IoError(text) => text,
            ErrorView::BlissError(text) => "Error: "@ + text,
        }
    }
}

impl DeepView for Error {
    type V = ErrorView;

    open spec fn deep_view(&self) -> ErrorView {
        match self {
            Error::LemmyError(inner) => ErrorView::LemmyError(inner@),
            Error::IoError(text) => ErrorView::IoError(text@),
            Error::BlissError(text) => ErrorView::BlissError(text@),
        }
    }
}

impl View for Error {
    type V = ErrorView;

    open spec fn view(&self) -> ErrorView {
        self.deep_view()
    }
}

impl Error {
    /// The text shown for the failure.
    pub fn message(&self) -> (text: String)
        ensures
            text@ == self@.message(),
    {
        match self {
            Error::LemmyError(inner) => inner.message(),
            Error::IoError(text) => text.clone(),
            Error::BlissError(text) => String::from_str("Error: ").concat(text.as_str()),
        }
    }
}

impl Clone for Error {
    fn clone(&self) -> (copy: Self)
        ensures
            copy@ == self@,
    {
        match self {
            Error::LemmyError(inner) => Error::LemmyError(inner.clone()),
            Error::IoError(text) => Error::IoError(text.clone()),
            Error::BlissError(text) => Error::BlissError(text.clone()),
        }
    }
}

impl From<LemmyError> for Error {
    fn from(inner: LemmyError) -> (error: Error) {
        Error::LemmyError(inner)
    }
}

impl vstd::std_specs::convert::FromSpecImpl<LemmyError> for Error {
    open spec fn obeys_from_spec() -> bool {
        true
    }

    open spec fn from_spec(inner: LemmyError) -> Error {
        Error::LemmyError(inner)
    }
}

} // verus!
