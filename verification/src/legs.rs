//! Decoding and re-signing of the transaction legs returned by the
//! transaction builder: each leg is a base64 blob holding one serialized
//! transaction, decoded in list order and re-signed with the wallet
//! keypair; the first failing leg aborts with a distinguishable error and
//! its position.

use vstd::prelude::*;
use base64::Engine;
use solana_sdk::message::VersionedMessage;
use solana_sdk::signature::Keypair;
use solana_sdk::signature::Signature;
use solana_sdk::transaction::VersionedTransaction;

verus! {

// Declaring `Signature` makes Verus read its trait impls, among them
// `TryFrom<&[u8]>`, whose error type must therefore be declared too.
#[verifier::external_type_specification]
#[verifier::external_body]
pub struct ExTryFromSliceError(core::array::TryFromSliceError);

#[verifier::external_type_specification]
#[verifier::external_body]
pub struct ExSignature(Signature);

#[verifier::external_type_specification]
#[verifier::external_body]
pub struct ExVersionedMessage(VersionedMessage);

#[verifier::external_type_specification]
pub struct ExVersionedTransaction(VersionedTransaction);

/// What base64's standard-alphabet decode returns for `s`: the decoded
/// bytes, or nothing where `s` is not well-formed padded base64.
pub uninterp spec fn b64_decoded(s: Seq<char>) -> Option<Seq<u8>>;

/// Relies on the `decode` of base64's `STANDARD` engine: the result
/// depends on the input text alone.
#[verifier::external_body]
fn b64_decode(s: &str) -> (r: Option<Vec<u8>>)
    ensures
        match r {
            Some(v) => b64_decoded(s@) == Some(v@),
            None => b64_decoded(s@) is None,
        },
{
    match base64::engine::general_purpose::STANDARD.decode(s) {
        Ok(v) => Some(v),
        Err(_) => None,
    }
}

/// Whether a byte string deserializes into a transaction under the fixed
/// binary transaction format. A pure predicate of the bytes.
pub uninterp spec fn vtx_ok(bytes: Seq<u8>) -> bool;

/// Relies on `bincode::deserialize` for solana's `VersionedTransaction`:
/// it decides by the bytes alone — `vtx_ok` names which byte strings it
/// accepts — and nothing is assumed of the decoded value.
#[verifier::external_body]
fn deserialize_vtx(bytes: &Vec<u8>) -> (r: Option<VersionedTransaction>)
    ensures
        r is Some <==> vtx_ok(bytes@),
{
    match bincode::deserialize::<VersionedTransaction>(bytes.as_slice()) {
        Ok(v) => Some(v),
        Err(_) => None,
    }
}

/// Whether signing succeeds for this message and keypair: the message
/// serializes, it asks for exactly one signature, and that signature is
/// the keypair's. A pure predicate of message and keypair.
pub uninterp spec fn sign_ok(m: VersionedMessage, k: Keypair) -> bool;

/// Relies on `VersionedTransaction::try_new`: on success the returned
/// transaction holds exactly the message it was given, with the
/// signatures produced for it by the keypair, and the outcome is a fixed
/// function of message and keypair, named `sign_ok`. A message whose
/// vectors are too long for the wire format is refused first, since
/// `try_new` would stop on it instead of returning.
#[verifier::external_body]
fn sign_with_keypair(message: &VersionedMessage, keypair: &Keypair) -> (r: Option<
    VersionedTransaction,
>)
    ensures
        r matches Some(v) ==> v.message == *message,
        r is Some <==> sign_ok(*message, *keypair),
{
    if bincode::serialize(message).is_err() {
        return None;
    }
    match VersionedTransaction::try_new(message.clone(), &[keypair]) {
        Ok(v) => Some(v),
        Err(_) => None,
    }
}

/// The step at which a transaction leg failed.
#[derive(Clone, Copy, PartialEq, Eq, Structural, Debug)]
pub enum LegStage {
    /// The blob is not well-formed base64.
    Base64,
    /// The decoded bytes do not deserialize into a transaction.
    Deserialize,
}

/// The position of the first failing leg, and the step that failed there.
#[derive(Clone, Copy, PartialEq, Eq, Structural, Debug)]
pub struct LegError {
    pub leg: usize,
    pub stage: LegStage,
}

/// Decodes every leg, in list order: base64, then the fixed binary
/// transaction format. Decoding succeeds exactly when every blob passes
/// both steps; the first failure aborts with its position and step, and
/// on success the transactions stand at the same positions as their
/// blobs.
pub fn decode_legs(blobs: &Vec<String>) -> (r: Result<Vec<VersionedTransaction>, LegError>)
    ensures
        match r {
            Ok(txs) => txs@.len() == blobs@.len() && (forall|i: int|
                0 <= i < blobs@.len() ==> ((#[trigger] b64_decoded(blobs@[i]@)) matches Some(b)
                    && vtx_ok(b))),
            Err(e) => e.leg < blobs@.len() && (forall|j: int|
                0 <= j < e.leg ==> ((#[trigger] b64_decoded(blobs@[j]@)) matches Some(b) && vtx_ok(
                b,
            ))) && (e.stage is Base64 ==> b64_decoded(blobs@[e.leg as int]@) is None) && (
            e.stage is Deserialize ==> (b64_decoded(blobs@[e.leg as int]@) matches Some(b)
                && !vtx_ok(b))),
        },
{
    let mut txs: Vec<VersionedTransaction> = Vec::new();
    let n = blobs.len();
    let mut i: usize = 0;
    while i < n
        invariant
            n == blobs@.len(),
            0 <= i <= n,
            txs@.len() == i,
            forall|j: int|
                0 <= j < i ==> ((#[trigger] b64_decoded(blobs@[j]@)) matches Some(b) && vtx_ok(b)),
        decreases n - i,
    {
        let blob = &blobs[i];
        match b64_decode(blob.as_str()) {
            None => {
                return Err(LegError { leg: i, stage: LegStage::Base64 });
            },
            Some(bytes) => {
                match deserialize_vtx(&bytes) {
                    None => {
                        return Err(LegError { leg: i, stage: LegStage::Deserialize });
                    },
                    Some(tx) => {
                        txs.push(tx);
                    },
                }
            },
        }
        i = i + 1;
    }
    Ok(txs)
}

/// Rebuilds one decoded transaction with a fresh signature from the
/// wallet keypair: signing succeeds exactly when the signer accepts the
/// message with this keypair, and on success the signed transaction
/// carries the original message content unchanged; only the signatures
/// differ.
pub fn sign_leg(tx: &VersionedTransaction, keypair: &Keypair) -> (r: Option<VersionedTransaction>)
    ensures
        r matches Some(v) ==> v.message == tx.message,
        r is Some <==> sign_ok(tx.message, *keypair),
{
    sign_with_keypair(&tx.message, keypair)
}

}
