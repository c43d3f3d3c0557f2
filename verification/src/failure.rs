//! Why an operation of the backend did not go through.

use vstd::prelude::*;
use vstd::string::*;

verus! {

/// What is said of a post or comment whose author is not in the directory.
pub const UNKNOWN_USER: &'static str = "Unknown User";

/// Why an operation did not go through.
#[derive(Debug, PartialEq, Eq)]
pub enum Failure {
    /// A post or a comment names an author that the user directory does not
    /// hold.
    UserNotFound,
    /// The store could not carry a statement out; the text is the store's.
    Store(String),
}

/// The mathematical value of a [`Failure`].
pub enum FailureView {
    UserNotFound,
    Store(Seq<char>),
}

impl View for Failure {
    type V = FailureView;

    open spec fn view(&self) -> FailureView {
        match self {
            Failure::UserNotFound => FailureView::UserNotFound,
            Failure::Store(why) => FailureView::Store(why@),
        }
    }
}

impl FailureView {
    /// The words for the failure.
    pub open spec fn message(self) -> Seq<char> {
        match self {
            FailureView::UserNotFound => UNKNOWN_USER@,
            FailureView::Store(why) => why,
        }
    }
}

impl Failure {
    /// The words for the failure: a fixed text for a missing author, the
    /// store's own words otherwise.
    pub fn message(&self) -> (r: String)
        ensures
            r@ == self@.message(),
    {
        match self {
            Failure::UserNotFound => String::from_str(UNKNOWN_USER),
            Failure::Store(why) => why.clone(),
        }
    }
}

/// The mathematical value of the outcome of an operation.
pub open spec fn outcome<T: DeepView>(r: Result<T, Failure>) -> Result<T::V, FailureView> {
    match r {
        Ok(value) => Ok(value.deep_view()),
        Err(why) => Err(why@),
    }
}

} // verus!
