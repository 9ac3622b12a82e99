//! One step of a reconstruction: either a call that the engine has to perform, or
//! the end.

use crate::abi::{Request, RequestView};
use crate::error::{Error, ErrorView};
use vstd::prelude::*;

verus! {

/// Where a reconstruction stands after a reply.
#[derive(Debug)]
pub enum Step<S, T> {
    /// The engine is to perform the request; its reply resumes the state.
    Ask(S, Request),
    /// The reconstruction has ended, with the value or with the failure.
    Done(Result<T, Error>),
}

/// The mathematical content of a [`Step`].
pub enum StepView<S, T> {
    Ask(S, RequestView),
    Done(Result<T, ErrorView>),
}

/// The mathematical content of the outcome of a reconstruction.
pub open spec fn outcome_view<T: View>(outcome: Result<T, Error>) -> Result<T::V, ErrorView> {
    match outcome {
        Ok(value) => Ok(value@),
        Err(error) => Err(error@),
    }
}

impl<S: View, T: View> View for Step<S, T> {
    type V = StepView<S::V, T::V>;

    open spec fn view(&self) -> StepView<S::V, T::V> {
        match *self {
            Step::Ask(state, request) => StepView::Ask(state@, request@),
            Step::Done(Ok(value)) => StepView::Done(Ok(value@)),
            Step::Done(Err(error)) => StepView::Done(Err(error@)),
        }
    }
}

} // verus!
