use vstd::prelude::*;

verus! {

/// Every way an operation of this library can fail.
#[derive(Clone, Copy, Debug, PartialEq, Eq, Structural)]
pub enum ErrorCode {
    /// Plugin discovery failed as a whole.
    InitError,
    /// `begin` on a region that is already running.
    AlreadyRunning,
    /// `end` on a region that has no open cycle.
    NotRunning,
    /// The filter was released, or the handle names no filter.
    InvalidFilter,
    /// The filter is still bound to a region that is not finalized.
    FilterInUse,
    /// The registry still holds an open filter or region.
    OutstandingReferences,
    /// A device produced no reading, or one that does not fit its counter.
    CounterReadError,
    /// The registry or the region was finalized, or the handle names no region.
    InvalidState,
}

impl ErrorCode {
    /// A short stable name for the error.
    pub fn describe(&self) -> (text: &'static str)
        ensures
            text@ == (match *self {
                ErrorCode::InitError => "InitError"@,
                ErrorCode::AlreadyRunning => "AlreadyRunning"@,
                ErrorCode::NotRunning => "NotRunning"@,
                ErrorCode::InvalidFilter => "InvalidFilter"@,
                ErrorCode::FilterInUse => "FilterInUse"@,
                ErrorCode::OutstandingReferences => "OutstandingReferences"@,
                ErrorCode::CounterReadError => "CounterReadError"@,
                ErrorCode::InvalidState => "InvalidState"@,
            }),
    {
        match *self {
            ErrorCode::InitError => "InitError",
            ErrorCode::AlreadyRunning => "AlreadyRunning",
            ErrorCode::NotRunning => "NotRunning",
            ErrorCode::InvalidFilter => "InvalidFilter",
            ErrorCode::FilterInUse => "FilterInUse",
            ErrorCode::OutstandingReferences => "OutstandingReferences",
            ErrorCode::CounterReadError => "CounterReadError",
            ErrorCode::InvalidState => "InvalidState",
        }
    }
}

} // verus!
