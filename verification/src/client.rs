//! The ledger service façade: request targets and response interpretation.
//!
//! The service speaks HTTP.  The transport lives outside this crate; a
//! caller issues the request against the path built here, then hands the
//! status code and the decoded body back to the functions below, which
//! decide between success, absence and the fatal error kinds.

use vstd::prelude::*;
use vstd::string::{StrSliceExecFns, StringExecFns};
use crate::errors::LedgerError;
use crate::hexstr::{hex_decode, is_hex_seq, spec_hex_decode};

verus! {

/// The decoded body of an account lookup: the fields the workflow reads.
#[derive(Clone, Debug, PartialEq, Eq)]
pub struct AccountState {
    /// The account's next expected sequence number, as the service reports
    /// it: a decimal string.
    pub sequence_number: String,
}

/// A handle on one ledger service, configured with its base URL.
#[derive(Clone, Debug)]
pub struct RestClient {
    pub url: String,
}

impl RestClient {
    /// A client for the service rooted at `url`.
    pub fn new(url: String) -> (r: Self)
        ensures
            r.url@ == url@,
    {
        RestClient { url }
    }

    /// The GET target of an account lookup; the address stands bare, with
    /// no `0x` prefix.
    pub fn account_path(&self, account_address: &str) -> (r: String)
        ensures
            r@ == self.url@ + "/accounts/"@ + account_address@,
    {
        let mut r = self.url.clone();
        r.append("/accounts/");
        r.append(account_address);
        r
    }

    /// The GET target of an account resource lookup.
    pub fn account_resource_path(&self, account_address: &str, resource_type: &str) -> (r: String)
        ensures
            r@ == self.url@ + "/accounts/"@ + account_address@ + "/resource/"@ + resource_type@,
    {
        let mut r = self.url.clone();
        r.append("/accounts/");
        r.append(account_address);
        r.append("/resource/");
        r.append(resource_type);
        r
    }

    /// The POST target of a signing message request.
    pub fn signing_message_path(&self) -> (r: String)
        ensures
            r@ == self.url@ + "/transactions/signing_message"@,
    {
        let mut r = self.url.clone();
        r.append("/transactions/signing_message");
        r
    }
}

/// Decides an account lookup from the HTTP status and the decoded body.
/// Only status 200 succeeds, and only with a body that decoded; every other
/// status is a fatal protocol violation.
pub fn account_response(status: u16, body: Option<AccountState>) -> (r: Result<
    AccountState,
    LedgerError,
>)
    ensures
        r is Ok <==> status == 200 && body is Some,
        body matches Some(state) ==> (status == 200 ==> r == Ok::<AccountState, LedgerError>(
            state,
        )),
        status == 200 && body is None ==> r == Err::<AccountState, LedgerError>(
            LedgerError::MalformedResponse,
        ),
        status != 200 ==> r == Err::<AccountState, LedgerError>(
            LedgerError::UnexpectedStatus(status),
        ),
{
    if status != 200 {
        Err(LedgerError::UnexpectedStatus(status))
    } else {
        match body {
            Some(state) => Ok(state),
            None => Err(LedgerError::MalformedResponse),
        }
    }
}

/// Decides an account resource lookup.  Status 404 means the resource is
/// absent, which is no error; status 200 yields the decoded resource; every
/// other status is fatal.  The resource itself is opaque to the workflow
/// and is passed through as the decoded body text.
pub fn account_resource_response(status: u16, body: Option<String>) -> (r: Result<
    Option<String>,
    LedgerError,
>)
    ensures
        status == 404 ==> r == Ok::<Option<String>, LedgerError>(None),
        body matches Some(resource) ==> (status == 200 ==> r == Ok::<Option<String>, LedgerError>(
            Some(resource),
        )),
        status == 200 && body is None ==> r == Err::<Option<String>, LedgerError>(
            LedgerError::MalformedResponse,
        ),
        status != 200 && status != 404 ==> r == Err::<Option<String>, LedgerError>(
            LedgerError::UnexpectedStatus(status),
        ),
{
    if status == 404 {
        Ok(None)
    } else if status != 200 {
        Err(LedgerError::UnexpectedStatus(status))
    } else {
        match body {
            Some(resource) => Ok(Some(resource)),
            None => Err(LedgerError::MalformedResponse),
        }
    }
}

/// Whether a reported signing message is well formed: a `0x` prefix and a
/// well-formed hex string after it.
pub open spec fn signing_message_wellformed(m: Seq<char>) -> bool {
    &&& m.len() >= 2
    &&& m[0] == '0'
    &&& m[1] == 'x'
    &&& is_hex_seq(m.skip(2))
}

/// The signing message bytes a well-formed report stands for.
pub open spec fn spec_signing_message(m: Seq<char>) -> Seq<u8>
    recommends
        signing_message_wellformed(m),
{
    spec_hex_decode(m.skip(2))
}

/// What a finished signing message request yields, once the status was
/// 200: the decoded bytes where the reported message is well formed, and
/// the malformed-response error where it is absent or ill-shaped.
pub open spec fn signing_message_decided(
    message: Option<&str>,
    r: Result<Vec<u8>, LedgerError>,
) -> bool {
    match message {
        None => r == Err::<Vec<u8>, LedgerError>(LedgerError::MalformedResponse),
        Some(m) => if signing_message_wellformed(m@) {
            match r {
                Ok(bytes) => bytes@ == spec_signing_message(m@),
                Err(_) => false,
            }
        } else {
            r == Err::<Vec<u8>, LedgerError>(LedgerError::MalformedResponse)
        },
    }
}

/// Decides a signing message request from the HTTP status and the `message`
/// field of the decoded body, where the body held one.  Only status 200
/// succeeds, and only with a message of the shape `0x` followed by hex
/// digits; the prefix is stripped and the rest decoded into the bytes to
/// sign.
pub fn signing_message_response(status: u16, message: Option<&str>) -> (r: Result<
    Vec<u8>,
    LedgerError,
>)
    ensures
        status != 200 ==> r == Err::<Vec<u8>, LedgerError>(LedgerError::UnexpectedStatus(status)),
        status == 200 && message is None ==> r == Err::<Vec<u8>, LedgerError>(
            LedgerError::MalformedResponse,
        ),
        status == 200 ==> signing_message_decided(message, r),
{
    if status != 200 {
        return Err(LedgerError::UnexpectedStatus(status));
    }
    let m = match message {
        Some(m) => m,
        None => {
            return Err(LedgerError::MalformedResponse);
        },
    };
    let len = m.unicode_len();
    if len < 2 {
        return Err(LedgerError::MalformedResponse);
    }
    if m.get_char(0) != '0' || m.get_char(1) != 'x' {
        return Err(LedgerError::MalformedResponse);
    }
    let digits = m.substring_char(2, len);
    proof {
        assert(digits@ =~= m@.skip(2));
    }
    match hex_decode(digits) {
        Some(bytes) => Ok(bytes),
        None => Err(LedgerError::MalformedResponse),
    }
}

} // verus!
