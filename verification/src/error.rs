use vstd::prelude::*;
use vstd::string::*;

use crate::text::{decimal, decimal_text};

verus! {

/// Why a conversion step did not produce its result.
#[derive(Clone, Copy, Debug, PartialEq, Eq, Structural)]
pub enum TraceError {
    /// An identifier of zero, which tracing reserves for "no identifier".
    InvalidIdentifier,
    /// Metadata that is not a record at its top level.
    UnsupportedRecordShape,
    /// A listing request to the source failed.
    SourceUnavailable,
    /// The jobs of the run with this identifier could not be listed.
    JobFetchFailed { run_id: u64 },
}

impl TraceError {
    /// The error in words.
    pub open spec fn description(self) -> Seq<char> {
        match self {
            TraceError::InvalidIdentifier => "invalid identifier: zero is reserved"@,
            TraceError::UnsupportedRecordShape =>
                "unsupported record shape: metadata is not a record"@,
            TraceError::SourceUnavailable => "source unavailable: a listing request failed"@,
            TraceError::JobFetchFailed { run_id } => "job listing failed for run "@ + decimal_text(
                run_id as nat,
            ),
        }
    }

    /// The error in words.
    pub fn describe(&self) -> (text: String)
        ensures
            text@ == self.description(),
    {
        match self {
            TraceError::InvalidIdentifier => String::from_str(
                "invalid identifier: zero is reserved",
            ),
            TraceError::UnsupportedRecordShape => String::from_str(
                "unsupported record shape: metadata is not a record",
            ),
            TraceError::SourceUnavailable => String::from_str(
                "source unavailable: a listing request failed",
            ),
            TraceError::JobFetchFailed { run_id } => {
                let mut text = String::from_str("job listing failed for run ");
                text.append(decimal(*run_id).as_str());
                text
            },
        }
    }
}

} // verus!
