//! Wallet key loading: from key-file text to a signing keypair and its
//! public address.

use vstd::prelude::*;
use crate::keyfile::{key_bytes_of, parse_key_json};
use solana_sdk::signature::Keypair;
use solana_sdk::signer::Signer;

verus! {

/// Length in bytes of a secret+public keypair.
pub const KEYPAIR_LEN: usize = 64;

#[verifier::external_type_specification]
#[verifier::external_body]
pub struct ExKeypair(Keypair);

/// The base58 wallet address that a 64-byte keypair array determines.
/// The address is a pure function of the bytes: the public half stands in
/// the last 32 bytes, and its base58 text is fixed.
pub uninterp spec fn address_of(key_bytes: Seq<u8>) -> Seq<char>;

/// Whether a 64-byte array is a valid keypair encoding: its public half
/// decodes as a public key and matches the key derived from its secret
/// half. A pure predicate of the bytes.
pub uninterp spec fn key_ok(key_bytes: Seq<u8>) -> bool;

/// Relies on solana_sdk's `Keypair::from_bytes`: it accepts exactly the
/// 64-byte arrays whose public half matches the key derived from their
/// secret half — `key_ok` names which arrays those are — and rejects
/// every other slice.
#[verifier::external_body]
fn keypair_from_bytes(bytes: &Vec<u8>) -> (r: Option<Keypair>)
    ensures
        r is Some <==> (bytes@.len() == KEYPAIR_LEN && key_ok(bytes@)),
{
    match Keypair::from_bytes(bytes.as_slice()) {
        Ok(kp) => Some(kp),
        Err(_) => None,
    }
}

/// Relies on solana_sdk's `Keypair::from_bytes`, `Signer::pubkey` and the
/// base58 display of `Pubkey`: for a fixed byte array the address text
/// depends on the bytes alone.
#[verifier::external_body]
fn derive_address(bytes: &Vec<u8>) -> (r: Option<String>)
    ensures
        r matches Some(s) ==> s@ == address_of(bytes@),
        r is Some <==> (bytes@.len() == KEYPAIR_LEN && key_ok(bytes@)),
{
    match Keypair::from_bytes(bytes.as_slice()) {
        Ok(kp) => Some(kp.pubkey().to_string()),
        Err(_) => None,
    }
}

/// The wallet address determined by the keypair bytes: an answer comes
/// exactly for the valid 64-byte keypair encodings, and it is the fixed
/// address of those bytes, so the same bytes always yield the same
/// address.
pub fn wallet_address(bytes: &Vec<u8>) -> (r: Option<String>)
    ensures
        r matches Some(s) ==> s@ == address_of(bytes@),
        r is Some <==> bytes@.len() == KEYPAIR_LEN && key_ok(bytes@),
{
    derive_address(bytes)
}

/// Why loading the wallet key failed.
#[derive(Clone, Copy, PartialEq, Eq, Structural, Debug)]
pub enum KeyError {
    /// The file text is not a JSON array of bytes.
    BadSyntax,
    /// The array does not hold exactly `KEYPAIR_LEN` bytes.
    WrongLength,
    /// The bytes have the right count but do not form a signing key.
    InvalidKey,
}

/// Parses the key-file text into the keypair bytes. Succeeds exactly when
/// the text is a well-formed JSON array of bytes holding `KEYPAIR_LEN` of
/// them; the two failure cases are told apart.
pub fn parse_key_bytes(text: &str) -> (r: Result<Vec<u8>, KeyError>)
    ensures
        match r {
            Ok(v) => key_bytes_of(text@) == Some(v@) && v@.len() == KEYPAIR_LEN,
            Err(e) => match e {
                KeyError::BadSyntax => key_bytes_of(text@) is None,
                KeyError::WrongLength => key_bytes_of(text@) matches Some(b) && b.len()
                    != KEYPAIR_LEN,
                KeyError::InvalidKey => false,
            },
        },
{
    match parse_key_json(text) {
        None => Err(KeyError::BadSyntax),
        Some(bytes) => {
            if bytes.len() != KEYPAIR_LEN {
                Err(KeyError::WrongLength)
            } else {
                Ok(bytes)
            }
        },
    }
}

/// Builds the signing keypair from the parsed bytes. Loading succeeds
/// exactly for the valid 64-byte keypair encodings; a byte count other
/// than `KEYPAIR_LEN` is rejected as `WrongLength`, and `InvalidKey`
/// reports a 64-byte array that is no keypair.
pub fn load_keypair(bytes: &Vec<u8>) -> (r: Result<Keypair, KeyError>)
    ensures
        r is Ok <==> bytes@.len() == KEYPAIR_LEN && key_ok(bytes@),
        r matches Err(e) ==> (e == KeyError::WrongLength <==> bytes@.len() != KEYPAIR_LEN),
{
    if bytes.len() != KEYPAIR_LEN {
        return Err(KeyError::WrongLength);
    }
    match keypair_from_bytes(bytes) {
        Some(kp) => Ok(kp),
        None => Err(KeyError::InvalidKey),
    }
}

}
