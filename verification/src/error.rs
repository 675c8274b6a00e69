//! Why a stream could not be opened.
use vstd::prelude::*;

verus! {

/// The two ways in which opening a stream fails. Neither leaves anything
/// behind: the table is as it was before the attempt.
#[derive(Debug, Clone, Copy, PartialEq, Eq, Structural)]
pub enum KDMAPIError {
    /// The table's stream is open already; KDMAPI has one stream and no more.
    StreamAlreadyOpen,
    /// The native initializer reported failure by returning zero.
    NativeInitFailed,
}

impl KDMAPIError {
    /// The text of the message for this error.
    pub open spec fn text(self) -> Seq<char> {
        match self {
            KDMAPIError::StreamAlreadyOpen => "KDMAPI stream is already open"@,
            KDMAPIError::NativeInitFailed => "Failed to initialize KDMAPI stream"@,
        }
    }

    /// Returns a message that names the failure, fit for a panic or a log.
    pub fn message(&self) -> (message: &'static str)
        ensures
            message@ == self.text(),
    {
        match self {
            KDMAPIError::StreamAlreadyOpen => "KDMAPI stream is already open",
            KDMAPIError::NativeInitFailed => "Failed to initialize KDMAPI stream",
        }
    }
}

} // verus!
