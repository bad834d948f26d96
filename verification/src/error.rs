//! What a caller is told when binding fails.
use vstd::prelude::*;

verus! {

/// What a statement reports of a call that failed: the five characters of the SQL state and the
/// error code of the data source.
#[derive(Debug, Clone, Copy, PartialEq, Eq)]
pub struct DiagnosticRecord {
    /// The SQL state, five ASCII characters.
    pub state: [u8; 5],
    /// The error code of the data source.
    pub native_error: i32,
}

/// A failure that can be recovered from. It is handed to the caller, and nothing is tried again.
#[derive(Debug, Clone, Copy, PartialEq, Eq)]
pub enum Error {
    /// A call to the statement failed. `record` is what the statement reported.
    Diagnostics {
        /// The diagnostics of the failed call.
        record: DiagnosticRecord,
    },
}

/// The result handed to the caller for the outcome of a call to a statement: success as it is,
/// a failure wrapped with its diagnostics.
pub open spec fn into_result_spec(outcome: Result<(), DiagnosticRecord>) -> Result<(), Error> {
    match outcome {
        Ok(()) => Ok(()),
        Err(record) => Err(Error::Diagnostics { record }),
    }
}

/// Turns the outcome of a call to a statement into the result handed to the caller: success as
/// it is, a failure wrapped with its diagnostics.
pub fn into_result(outcome: Result<(), DiagnosticRecord>) -> (result: Result<(), Error>)
    ensures
        result == into_result_spec(outcome),
{
    match outcome {
        Ok(()) => Ok(()),
        Err(record) => Err(Error::Diagnostics { record }),
    }
}

} // verus!
