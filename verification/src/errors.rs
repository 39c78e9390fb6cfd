use vstd::prelude::*;

verus! {

/// How a call against the ledger service fails.  Every kind is fatal: the
/// operation in progress is abandoned and no partial result is returned.
#[derive(Clone, Copy, Debug, PartialEq, Eq, Structural)]
pub enum LedgerError {
    /// The transport could not deliver the request or the response.
    TransportError,
    /// The service answered with a status outside the documented
    /// success and absence codes for the operation.
    UnexpectedStatus(u16),
    /// The response body was absent, was not the expected shape, or held a
    /// field that does not parse.
    MalformedResponse,
}

} // verus!
