//! Error taxonomy of the prompt.

use vstd::prelude::*;

verus! {

/// How a prompt call can fail.
#[derive(Debug)]
pub enum InquireError {
    /// The prompt was set up with an unusable configuration: an empty option
    /// list, or a default / starting index outside the option range.
    InvalidConfiguration(String),
    /// The user aborted the prompt. Not a fault: a distinct explicit outcome.
    OperationCanceled,
    /// The render or key-source boundary failed; propagated unchanged.
    IO(String),
}

impl InquireError {
    /// A short human-readable description of the error.
    pub fn message(&self) -> (r: String)
        ensures
            self matches InquireError::InvalidConfiguration(m) ==> r@ == m@,
            self matches InquireError::IO(m) ==> r@ == m@,
            self is OperationCanceled ==> r@ == "operation canceled"@,
    {
        match self {
            InquireError::InvalidConfiguration(m) => m.clone(),
            InquireError::IO(m) => m.clone(),
            InquireError::OperationCanceled => "operation canceled".to_owned(),
        }
    }
}

} // verus!
