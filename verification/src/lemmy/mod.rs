//! What the library knows of the remote interface of an instance.

use vstd::prelude::*;

pub mod api;
pub mod image;
pub mod request;
pub mod site;

verus! {

/// A failure of a remote call.
#[derive(Debug)]
pub enum LemmyError {
    /// The request could not be sent or its answer not be read; holds the
    /// transport's description of the failure.
    ReqwestError(String),
    /// A local input or output failed; holds its description.
    IoError(String),
    /// The instance answered, but not as expected; holds what it said.
    ResponeError(String),
}

/// What a `LemmyError` holds.
pub ghost enum LemmyErrorView {
    ReqwestError(Seq<char>),
    IoError(Seq<char>),
    ResponeError(Seq<char>),
}

impl LemmyErrorView {
    /// The text shown for the failure.
    pub open spec fn message(self) -> Seq<char> {
        match self {
            LemmyErrorView::ReqwestError(text) => text,
            LemmyErrorView::IoError(text) => text,
            LemmyErrorView::ResponeError(text) => "ResponeError: "@ + text,
        }
    }
}

impl DeepView for LemmyError {
    type V = LemmyErrorView;

    open spec fn deep_view(&self) -> LemmyErrorView {
        match self {
            LemmyError::ReqwestError(text) => LemmyErrorView::ReqwestError(text@),
            LemmyError::IoError(text) => LemmyErrorView::IoError(text@),
            LemmyError::ResponeError(text) => LemmyErrorView::ResponeError(text@),
        }
    }
}

impl View for LemmyError {
    type V = LemmyErrorView;

    open spec fn view(&self) -> LemmyErrorView {
        self.deep_view()
    }
}

impl LemmyError {
    /// The text shown for the failure.
    pub fn message(&self) -> (text: String)
        ensures
            text@ == self@.message(),
    {
        match self {
            LemmyError::ReqwestError(text) => text.clone(),
            LemmyError::IoError(text) => text.clone(),
            LemmyError::ResponeError(text) => String::from_str("ResponeError: ").concat(text.as_str()),
        }
    }
}

impl Clone for LemmyError {
    fn clone(&self) -> (copy: Self)
        ensures
            copy@ == self@,
    {
        match self {
            LemmyError::ReqwestError(text) => LemmyError::ReqwestError(text.clone()),
            LemmyError::IoError(text) => LemmyError::IoError(text.clone()),
            LemmyError::ResponeError(text) => LemmyError::ResponeError(text.clone()),
        }
    }
}

} // verus!
