//! Assembling the unsigned transaction envelope and embedding a signature.
//!
//! `generate_transaction` builds the envelope from the account state the
//! service reported, the clock reading of the caller, and the opaque
//! payload; `sign_transaction` pairs it with an ed25519 signature over the
//! signing message bytes.  The laws at the end state the workflow's
//! round-trip properties.

use vstd::prelude::*;
use vstd::string::StringExecFns;
use vstd::string::StrSliceExecFns;
use crate::client::AccountState;
use crate::decimal::{lemma_dec_round_trip, parse_u64, spec_dec_string, spec_parse_u64, u64_to_dec};
use crate::errors::LedgerError;
use crate::hexstr::{hex_decode, hex_encode, is_hex_seq, lemma_hex_round_trip, spec_hex_decode, spec_hex_encode};
use crate::signing::{derive_public_key, ed25519_public_key_of, ed25519_signature_of, ed25519_verifies, sign_bytes, verify_bytes};

verus! {

/// The unsigned transaction envelope, every field in its wire form: the
/// sender `0x`-prefixed, counters as decimal strings, and the payload as
/// opaque, caller-supplied text carried through verbatim.
#[derive(Clone, Debug, PartialEq, Eq)]
pub struct UnsignedTransaction {
    pub sender: String,
    pub sequence_number: String,
    pub max_gas_amount: String,
    pub gas_unit_price: String,
    pub gas_currency_code: String,
    pub expiration_timestamp_secs: String,
    pub payload: String,
}

/// The signature object embedded into a signed transaction: the scheme
/// tag, and the public key and signature as `0x`-prefixed hex.
#[derive(Clone, Debug, PartialEq, Eq)]
pub struct TransactionSignature {
    pub sig_type: String,
    pub public_key: String,
    pub signature: String,
}

/// The terminal artifact of the workflow: the envelope with its signature.
#[derive(Clone, Debug, PartialEq, Eq)]
pub struct SignedTransaction {
    pub transaction: UnsignedTransaction,
    pub signature: TransactionSignature,
}

/// What a generated envelope holds, given the sender, the parsed sequence
/// number, the clock reading and the payload: the fixed gas policy, the
/// attempt-specific expiration of the call time plus 600 seconds, and the
/// counters re-rendered canonically.
pub open spec fn spec_generated(
    t: UnsignedTransaction,
    sender: Seq<char>,
    sequence_number: u64,
    now_unix_seconds: u64,
    payload: Seq<char>,
) -> bool {
    &&& t.sender@ == "0x"@ + sender
    &&& t.sequence_number@ == spec_dec_string(sequence_number as nat)
    &&& t.max_gas_amount@ == "1000"@
    &&& t.gas_unit_price@ == "1"@
    &&& t.gas_currency_code@ == "XUS"@
    &&& t.expiration_timestamp_secs@ == spec_dec_string((now_unix_seconds + 600) as nat)
    &&& t.payload@ == payload
}

/// Builds the unsigned envelope for one submission attempt.  Fails exactly
/// where the reported sequence number does not parse as an unsigned 64-bit
/// counter; the expiration is the given clock reading plus the fixed
/// 600-second validity window, computed afresh for each attempt.
pub fn generate_transaction(
    sender: &str,
    state: &AccountState,
    now_unix_seconds: u64,
    payload: String,
) -> (r: Result<UnsignedTransaction, LedgerError>)
    requires
        now_unix_seconds + 600 <= u64::MAX,
    ensures
        r is Ok <==> spec_parse_u64(state.sequence_number@) is Some,
        r is Err ==> r == Err::<UnsignedTransaction, LedgerError>(LedgerError::MalformedResponse),
        r matches Ok(t) ==> spec_generated(
            t,
            sender@,
            spec_parse_u64(state.sequence_number@).unwrap(),
            now_unix_seconds,
            payload@,
        ),
{
    let sequence_number = match parse_u64(state.sequence_number.as_str()) {
        Some(n) => n,
        None => {
            return Err(LedgerError::MalformedResponse);
        },
    };
    let mut sender_field = String::from_str("0x");
    sender_field.append(sender);
    Ok(
        UnsignedTransaction {
            sender: sender_field,
            sequence_number: u64_to_dec(sequence_number),
            max_gas_amount: String::from_str("1000"),
            gas_unit_price: String::from_str("1"),
            gas_currency_code: String::from_str("XUS"),
            expiration_timestamp_secs: u64_to_dec(now_unix_seconds + 600),
            payload,
        },
    )
}

/// What the signature object produced over `message` under `seed` holds:
/// the ed25519 tag, and the derived public key and the signature rendered
/// as `0x`-prefixed lowercase hex.
pub open spec fn spec_produced_signature(
    t: TransactionSignature,
    seed: Seq<u8>,
    message: Seq<u8>,
) -> bool {
    &&& t.sig_type@ == "ed25519_signature"@
    &&& t.public_key@ == "0x"@ + spec_hex_encode(ed25519_public_key_of(seed))
    &&& t.signature@ == "0x"@ + spec_hex_encode(ed25519_signature_of(seed, message))
}

/// Signs the signing message bytes with the account's secret seed and
/// embeds the resulting signature object into the envelope.  Every
/// envelope field is carried over unchanged, and the produced signature
/// verifies under the derived public key.
pub fn sign_transaction(
    transaction: UnsignedTransaction,
    signing_key: &[u8; 32],
    signing_message: &[u8],
) -> (r: SignedTransaction)
    ensures
        r.transaction == transaction,
        spec_produced_signature(r.signature, signing_key@, signing_message@),
        ed25519_public_key_of(signing_key@).len() == 32,
        ed25519_signature_of(signing_key@, signing_message@).len() == 64,
        ed25519_verifies(
            ed25519_public_key_of(signing_key@),
            signing_message@,
            ed25519_signature_of(signing_key@, signing_message@),
        ),
{
    let public_key = derive_public_key(signing_key);
    let signature = sign_bytes(signing_key, signing_message);
    let mut public_key_hex = String::from_str("0x");
    public_key_hex.append(hex_encode(public_key.as_slice()).as_str());
    let mut signature_hex = String::from_str("0x");
    signature_hex.append(hex_encode(signature.as_slice()).as_str());
    SignedTransaction {
        transaction,
        signature: TransactionSignature {
            sig_type: String::from_str("ed25519_signature"),
            public_key: public_key_hex,
            signature: signature_hex,
        },
    }
}

/// The bytes behind a `0x`-prefixed hex field of `n` bytes, or `None`
/// where the field is not of that shape.
pub open spec fn spec_hex_field(s: Seq<char>, n: nat) -> Option<Seq<u8>> {
    if s.len() == 2 + 2 * n && s[0] == '0' && s[1] == 'x' && is_hex_seq(s.skip(2)) {
        Some(spec_hex_decode(s.skip(2)))
    } else {
        None
    }
}

/// Whether a signature object is accepted for `message`: it carries the
/// ed25519 tag, both hex fields are well formed and of the right width,
/// and the signature bytes verify against the public key bytes.
pub open spec fn spec_signature_accepted(t: TransactionSignature, message: Seq<u8>) -> bool {
    &&& t.sig_type@ == "ed25519_signature"@
    &&& spec_hex_field(t.public_key@, 32) matches Some(pk) && spec_hex_field(t.signature@, 64)
        matches Some(sig) && ed25519_verifies(pk, message, sig)
}

/// Reads a `0x`-prefixed hex field of exactly `n` bytes.
fn decode_hex_field(s: &str, n: usize) -> (r: Option<Vec<u8>>)
    requires
        n <= 16384,
    ensures
        r is Some <==> spec_hex_field(s@, n as nat) is Some,
        r matches Some(v) ==> Some(v@) == spec_hex_field(s@, n as nat),
{
    let len = s.unicode_len();
    if len < 2 {
        return None;
    }
    if s.get_char(0) != '0' || s.get_char(1) != 'x' {
        return None;
    }
    let digits = s.substring_char(2, len);
    proof {
        assert(digits@ =~= s@.skip(2));
    }
    match hex_decode(digits) {
        Some(v) => {
            if v.len() == n {
                Some(v)
            } else {
                None
            }
        },
        None => None,
    }
}

/// Checks a signature object against signing message bytes: the tag must
/// be `ed25519_signature`, the hex fields must decode to a 32-byte key and
/// a 64-byte signature, and the signature must verify.
pub fn verify_transaction_signature(signature: &TransactionSignature, message: &[u8]) -> (r: bool)
    ensures
        r == spec_signature_accepted(*signature, message@),
{
    let expected_tag = String::from_str("ed25519_signature");
    if !signature.sig_type.eq(&expected_tag) {
        return false;
    }
    let public_key = match decode_hex_field(signature.public_key.as_str(), 32) {
        Some(v) => v,
        None => {
            return false;
        },
    };
    let signature_bytes = match decode_hex_field(signature.signature.as_str(), 64) {
        Some(v) => v,
        None => {
            return false;
        },
    };
    verify_bytes(public_key.as_slice(), message, signature_bytes.as_slice())
}

/// A generated then signed transaction carries the string form of the
/// sequence number the service reported: when the account state reads as
/// the decimal form of `n`, the envelope's `sequence_number` field is that
/// same decimal form, and signing keeps the envelope unchanged.
pub proof fn lemma_generate_sign_keeps_sequence_number(
    t: UnsignedTransaction,
    s: SignedTransaction,
    state: AccountState,
    n: u64,
    sender: Seq<char>,
    now_unix_seconds: u64,
    payload: Seq<char>,
)
    requires
        state.sequence_number@ == spec_dec_string(n as nat),
        spec_generated(
            t,
            sender,
            spec_parse_u64(state.sequence_number@).unwrap(),
            now_unix_seconds,
            payload,
        ),
        s.transaction == t,
    ensures
        s.transaction.sequence_number@ == spec_dec_string(n as nat),
{
    lemma_dec_round_trip(n);
}

/// Expirations move strictly forward with the clock: each one reads back
/// as its call time plus the fixed 600-second window, so of two attempts
/// the later one stamps the strictly larger expiration.
pub proof fn lemma_expiration_monotonic(now1: u64, now2: u64)
    requires
        now1 < now2,
        now2 + 600 <= u64::MAX,
    ensures
        spec_parse_u64(spec_dec_string((now1 + 600) as nat)) == Some((now1 + 600) as u64),
        spec_parse_u64(spec_dec_string((now2 + 600) as nat)) == Some((now2 + 600) as u64),
        ((now1 + 600) as u64) < ((now2 + 600) as u64),
{
    lemma_dec_round_trip((now1 + 600) as u64);
    lemma_dec_round_trip((now2 + 600) as u64);
}

/// Signing is deterministic in the seed and the message: two signature
/// objects produced over the same message under the same seed agree in
/// every field, and in particular name the same public key.
pub proof fn lemma_sign_deterministic(
    a: TransactionSignature,
    b: TransactionSignature,
    seed: Seq<u8>,
    message: Seq<u8>,
)
    requires
        spec_produced_signature(a, seed, message),
        spec_produced_signature(b, seed, message),
    ensures
        a.sig_type@ == b.sig_type@,
        a.public_key@ == b.public_key@,
        a.signature@ == b.signature@,
{
}

/// A produced signature object passes the check against its own public
/// key and the exact signing message bytes it was produced over: the hex
/// fields decode back to the key and signature bytes, which verify.
pub proof fn lemma_produced_signature_verifies(
    t: TransactionSignature,
    seed: Seq<u8>,
    message: Seq<u8>,
)
    requires
        spec_produced_signature(t, seed, message),
        ed25519_public_key_of(seed).len() == 32,
        ed25519_signature_of(seed, message).len() == 64,
        ed25519_verifies(
            ed25519_public_key_of(seed),
            message,
            ed25519_signature_of(seed, message),
        ),
    ensures
        spec_signature_accepted(t, message),
{
    reveal_strlit("0x");
    let pk = ed25519_public_key_of(seed);
    let sig = ed25519_signature_of(seed, message);
    lemma_hex_round_trip(pk);
    lemma_hex_round_trip(sig);
    assert(t.public_key@.skip(2) =~= spec_hex_encode(pk));
    assert(t.signature@.skip(2) =~= spec_hex_encode(sig));
    assert(spec_hex_field(t.public_key@, 32) == Some(pk));
    assert(spec_hex_field(t.signature@, 64) == Some(sig));
}

} // verus!
