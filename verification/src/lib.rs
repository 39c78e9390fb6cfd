//! Client core for building and signing ledger transactions.
//!
//! The library covers the decision and construction logic of the workflow:
//! interpreting the ledger service's responses, assembling the unsigned
//! transaction envelope, and embedding an ed25519 signature over the
//! service-provided signing message.  The HTTP transport itself is left to
//! the caller, which hands status codes and decoded bodies to this crate.

pub mod client;
pub mod decimal;
pub mod errors;
pub mod hexstr;
pub mod signing;
pub mod transaction;


