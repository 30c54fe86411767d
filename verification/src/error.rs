//! The errors the library's own logic can report. Failures of outside
//! collaborators (capture, store, backend) are absorbed at the edges and
//! never cross a stage boundary as errors.

use vstd::prelude::*;

verus! {

#[derive(Clone, Copy, Debug, PartialEq, Eq, Structural)]
pub enum WatcherError {
    /// The image encoder refused the frame.
    EncodeFailed,
    /// The first batch the report stage ever saw carried no records.
    EmptyFirstBatch,
    /// The backend's merge window was never configured nor derived.
    PulseTimeMissing,
    /// A timestamp lies outside the representable calendar range.
    TimestampOutOfRange,
}

impl WatcherError {
    /// A short description, for logs.
    pub fn describe(&self) -> (r: &'static str)
        ensures
            *self is EncodeFailed ==> r@ == "image encoding failed"@,
            *self is EmptyFirstBatch ==> r@ == "no data on first batch"@,
            *self is PulseTimeMissing ==> r@ == "pulse time not initialized"@,
            *self is TimestampOutOfRange ==> r@ == "timestamp out of range"@,
    {
        match self {
            WatcherError::EncodeFailed => "image encoding failed",
            WatcherError::EmptyFirstBatch => "no data on first batch",
            WatcherError::PulseTimeMissing => "pulse time not initialized",
            WatcherError::TimestampOutOfRange => "timestamp out of range",
        }
    }
}

} // verus!
