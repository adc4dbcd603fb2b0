//! The error channel: backend failures and boundary-detected domain
//! errors become a heap-allocated message whose ownership passes to the
//! caller, together with the matching release operation.

use vstd::prelude::*;
use vstd::string::StringExecFns;

verus! {

/// A caller-owned error handle.
///
/// Every failing operation of the boundary hands the caller exactly one
/// of these; the caller releases it with [`error_free`] exactly once.
pub struct BoundaryError {
    message: String,
}

impl View for BoundaryError {
    type V = Seq<char>;

    closed spec fn view(&self) -> Seq<char> {
        self.message@
    }
}

impl BoundaryError {
    /// Takes ownership of a message and wraps it into an error handle.
    pub fn new(message: String) -> (e: BoundaryError)
        ensures
            e@ == message@,
    {
        BoundaryError { message }
    }

    /// Reads the message the error carries, without giving it up.
    pub fn message(&self) -> (m: &str)
        ensures
            m@ == self@,
    {
        self.message.as_str()
    }
}

/// The message reported when a caller asks for a display index the
/// enumeration does not have.
pub open spec fn index_error_message() -> Seq<char> {
    "No display found in this index"@
}

/// Builds the domain error for an out-of-range display index.
pub fn index_error() -> (e: BoundaryError)
    ensures
        e@ == index_error_message(),
{
    BoundaryError::new(String::from_str("No display found in this index"))
}

/// Releases an error handle.
///
/// Consuming the handle returns its allocation to the system; the
/// caller must not hold the handle afterwards, and this is the only
/// release the handle needs.
pub fn error_free(err: BoundaryError) {
    let _ = err;
}

} // verus!
