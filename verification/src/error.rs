//! The error that device creation and packet transfer report.

use vstd::prelude::*;

verus! {

/// Why an operation on a device failed: either the operating system's error
/// code, or a descriptive message where there is no code.
#[derive(Clone, Debug, PartialEq, Eq)]
pub enum TunError {
    Os(i32),
    Other(String),
}

/// What a `TunError` says: the code, or the characters of the message.
pub enum ErrorView {
    Os(i32),
    Other(Seq<char>),
}

impl View for TunError {
    type V = ErrorView;

    open spec fn view(&self) -> ErrorView {
        match *self {
            TunError::Os(code) => ErrorView::Os(code),
            TunError::Other(message) => ErrorView::Other(message@),
        }
    }
}

impl TunError {
    /// A copy of this error.
    pub fn duplicate(&self) -> (copy: TunError)
        ensures
            copy@ == self@,
    {
        match self {
            TunError::Os(code) => TunError::Os(*code),
            TunError::Other(message) => TunError::Other(message.clone()),
        }
    }
}

} // verus!
