//! Typed failures, and the conversion of an engine status code into one.

use vstd::prelude::*;

verus! {

/// The status code by which the engine reports that a call succeeded.
pub const NO_ERROR: usize = 0;

/// Why an operation of this layer failed.
#[derive(Debug, Clone, PartialEq, Eq)]
pub enum Error {
    /// The engine answered a call with a status other than [`NO_ERROR`].
    Api { code: usize, context: String },
    /// A buffer filled by the engine does not hold valid UTF-8 text.
    Decoding { context: String },
}

/// The mathematical content of an [`Error`].
pub enum ErrorView {
    Api { code: usize, context: Seq<char> },
    Decoding { context: Seq<char> },
}

impl View for Error {
    type V = ErrorView;

    open spec fn view(&self) -> ErrorView {
        match *self {
            Error::Api { code, context } => ErrorView::Api { code, context: context@ },
            Error::Decoding { context } => ErrorView::Decoding { context: context@ },
        }
    }
}

/// What [`convert_err`] returns for a status code and a context.
pub open spec fn status_outcome(hr: usize, context: Seq<char>) -> Result<(), ErrorView> {
    if hr == NO_ERROR {
        Ok(())
    } else {
        Err(ErrorView::Api { code: hr, context })
    }
}

/// The view of a unit-or-error result.
pub open spec fn unit_view(r: Result<(), Error>) -> Result<(), ErrorView> {
    match r {
        Ok(()) => Ok(()),
        Err(e) => Err(e@),
    }
}

/// Turns an engine status code into success or a typed failure that carries the
/// code and the caller's context.
pub fn convert_err(hr: usize, err_msg: &str) -> (r: Result<(), Error>)
    ensures
        unit_view(r) == status_outcome(hr, err_msg@),
{
    if hr != NO_ERROR {
        Err(Error::Api { code: hr, context: err_msg.to_owned() })
    } else {
        Ok(())
    }
}

} // verus!
