use base64::Engine;
use raydium_swap::legs::{decode_legs, sign_leg, LegStage};
use solana_sdk::instruction::{AccountMeta, Instruction};
use solana_sdk::message::{Message, VersionedMessage};
use solana_sdk::pubkey::Pubkey;
use solana_sdk::signature::{Keypair, Signature};
use solana_sdk::signer::Signer;
use solana_sdk::transaction::VersionedTransaction;

fn unsigned_tx(payer: &Pubkey) -> VersionedTransaction {
    let program_id = Pubkey::new_unique();
    let ix = Instruction {
        program_id,
        accounts: vec![AccountMeta::new(*payer, true)],
        data: vec![7, 8, 9],
    };
    let msg = Message::new(&[ix], Some(payer));
    VersionedTransaction {
        signatures: vec![Signature::default()],
        message: VersionedMessage::Legacy(msg),
    }
}

fn encode(tx: &VersionedTransaction) -> String {
    let bytes = bincode::serialize(tx).unwrap();
    base64::engine::general_purpose::STANDARD.encode(bytes)
}

#[test]
fn round_trip_preserves_message_content() {
    let kp = Keypair::new();
    let tx = unsigned_tx(&kp.pubkey());
    let blob = encode(&tx);
    let decoded = decode_legs(&vec![blob]).unwrap();
    assert_eq!(decoded.len(), 1);
    assert_eq!(decoded[0].message, tx.message);
    let signed = sign_leg(&decoded[0], &kp).unwrap();
    assert_eq!(signed.message, tx.message);
    assert_eq!(signed.message.serialize(), tx.message.serialize());
    assert_ne!(signed.signatures[0], Signature::default());
    assert_ne!(signed.signatures, tx.signatures);
}

#[test]
fn decode_keeps_leg_order() {
    let kp = Keypair::new();
    let tx1 = unsigned_tx(&kp.pubkey());
    let tx2 = unsigned_tx(&kp.pubkey());
    let decoded = decode_legs(&vec![encode(&tx1), encode(&tx2)]).unwrap();
    assert_eq!(decoded.len(), 2);
    assert_eq!(decoded[0].message, tx1.message);
    assert_eq!(decoded[1].message, tx2.message);
}

#[test]
fn bad_base64_fails_with_position() {
    let kp = Keypair::new();
    let good = encode(&unsigned_tx(&kp.pubkey()));
    let e = decode_legs(&vec![good, String::from("!not base64!")]).err().unwrap();
    assert_eq!(e.leg, 1);
    assert_eq!(e.stage, LegStage::Base64);
}

#[test]
fn bad_transaction_bytes_fail_with_position() {
    let junk = base64::engine::general_purpose::STANDARD.encode([1u8, 2, 3]);
    let e = decode_legs(&vec![junk]).err().unwrap();
    assert_eq!(e.leg, 0);
    assert_eq!(e.stage, LegStage::Deserialize);
}

#[test]
fn signing_refuses_foreign_message() {
    let kp = Keypair::new();
    let other = Keypair::new();
    let tx = unsigned_tx(&other.pubkey());
    assert!(sign_leg(&tx, &kp).is_none());
}
