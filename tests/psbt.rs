use bitcoin::blockdata::script::Script;
use bitcoin::blockdata::transaction::{OutPoint as TxOutPoint, Transaction, TxIn, TxOut};
use bitcoin::util::psbt::PartiallySignedTransaction;
use revault_gui::psbt::Psbt;

fn unsigned_tx(lock_time: u32) -> Transaction {
    Transaction {
        version: 2,
        lock_time,
        input: vec![TxIn {
            previous_output: TxOutPoint::default(),
            script_sig: Script::new(),
            sequence: 0xffff_ffff,
            witness: vec![],
        }],
        output: vec![TxOut { value: 10_000, script_pubkey: Script::new() }],
    }
}

fn psbt_bytes(lock_time: u32) -> Vec<u8> {
    let psbt = PartiallySignedTransaction::from_unsigned_tx(unsigned_tx(lock_time)).unwrap();
    bitcoin::consensus::encode::serialize(&psbt)
}

#[test]
fn psbt_from_valid_base64() {
    let bytes = psbt_bytes(1);
    let text = bitcoin::base64::encode(&bytes);
    let psbt = Psbt::from_base64(&text).expect("a valid psbt");
    assert_eq!(psbt.bytes(), bytes.as_slice());
    let txid = unsigned_tx(1).txid();
    assert_eq!(psbt.txid(), &txid[..]);
}

#[test]
fn psbt_from_invalid_text() {
    assert!(Psbt::from_base64("not base64!").is_none());
    assert!(Psbt::from_base64("aGVsbG8=").is_none());
    assert!(Psbt::from_base64("").is_none());
}

#[test]
fn psbt_identity_differs_between_transactions() {
    let a = Psbt::from_bytes(psbt_bytes(1)).unwrap();
    let b = Psbt::from_bytes(psbt_bytes(2)).unwrap();
    let a2 = Psbt::from_bytes(psbt_bytes(1)).unwrap();
    assert!(!a.same_transaction(&b));
    assert!(a.same_transaction(&a2));
}
