use vstd::prelude::*;

verus! {

/// Every way a lifecycle operation can fail. Each failure path surfaces one
/// distinct variant so callers can branch on the cause.
#[derive(Clone, Copy, Debug, PartialEq, Eq, Structural)]
pub enum BlogError {
    /// The title is empty or longer than 50 bytes.
    InvalidTitle,
    /// The content is empty or longer than 1000 bytes.
    InvalidContent,
    /// The acting identity is not the record's owner.
    Unauthorized,
    /// A record already occupies the derived address.
    AlreadyExists,
    /// No record occupies the derived address.
    NotFound,
}

} // verus!
