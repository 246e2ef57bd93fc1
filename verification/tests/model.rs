//! Construction and field access: values are carried verbatim and
//! input/output order is preserved.

use txmodel::Amount;
use txmodel::Input;
use txmodel::Output;
use txmodel::Transaction;
use txmodel::Txid;

#[test]
fn amount_keeps_zero() {
    assert_eq!(Amount::from_sat(0).sat(), 0);
}

#[test]
fn amount_keeps_one_btc_in_sat() {
    assert_eq!(Amount::from_sat(100_000_000).sat(), 100_000_000);
}

#[test]
fn amount_keeps_max() {
    assert_eq!(Amount::from_sat(u64::MAX).sat(), u64::MAX);
}

#[test]
fn txid_keeps_bytes_in_storage_order() {
    let mut bytes = [0u8; 32];
    bytes[0] = 0x01;
    bytes[31] = 0xff;
    let t = Txid::from_bytes(bytes);
    assert_eq!(t.bytes(), bytes);
}

#[test]
fn input_keeps_fields() {
    let mut bytes = [0u8; 32];
    bytes[0] = 0xab;
    let i = Input::new(Txid::from_bytes(bytes), 3, String::from("6a"), 0xfffffffe);
    assert_eq!(i.txid().bytes(), bytes);
    assert_eq!(i.output_index(), 3);
    assert_eq!(i.script(), "6a");
    assert_eq!(i.sequence(), 0xfffffffe);
}

#[test]
fn output_keeps_fields() {
    let o = Output::new(Amount::from_sat(50_000), String::from("76a914"));
    assert_eq!(o.amount().sat(), 50_000);
    assert_eq!(o.script_pubkey(), "76a914");
}

#[test]
fn transaction_keeps_scalars() {
    let t = Transaction::new(Txid::from_bytes([0u8; 32]), 2, Vec::new(), Vec::new(), 630_000);
    assert_eq!(t.transaction_id().bytes(), [0u8; 32]);
    assert_eq!(t.version(), 2);
    assert_eq!(t.lock_time(), 630_000);
    assert_eq!(t.inputs().len(), 0);
    assert_eq!(t.outputs().len(), 0);
}

#[test]
fn transaction_keeps_output_order() {
    let a = Output::new(Amount::from_sat(1), String::from("aa"));
    let b = Output::new(Amount::from_sat(2), String::from("bb"));
    let t = Transaction::new(Txid::from_bytes([0u8; 32]), 1, Vec::new(), vec![a, b], 0);
    assert_eq!(t.outputs()[0].amount().sat(), 1);
    assert_eq!(t.outputs()[0].script_pubkey(), "aa");
    assert_eq!(t.outputs()[1].amount().sat(), 2);
    assert_eq!(t.outputs()[1].script_pubkey(), "bb");
}

#[test]
fn transaction_keeps_input_order() {
    let first = Input::new(Txid::from_bytes([1u8; 32]), 0, String::from("51"), 10);
    let second = Input::new(Txid::from_bytes([2u8; 32]), 7, String::from("52"), 20);
    let t = Transaction::new(Txid::from_bytes([0u8; 32]), 1, vec![first, second], Vec::new(), 0);
    assert_eq!(t.inputs()[0].txid().bytes(), [1u8; 32]);
    assert_eq!(t.inputs()[0].output_index(), 0);
    assert_eq!(t.inputs()[1].txid().bytes(), [2u8; 32]);
    assert_eq!(t.inputs()[1].output_index(), 7);
}
