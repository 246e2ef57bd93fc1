//! Rendering: reversed-hex identifiers, decimal integers, verbatim
//! scripts, and the aggregate textual form.

use txmodel::Amount;
use txmodel::Input;
use txmodel::Output;
use txmodel::Transaction;
use txmodel::Txid;
use txmodel::render_u32;

#[test]
fn decimal_zero() {
    assert_eq!(render_u32(0), "0");
}

#[test]
fn decimal_ten() {
    assert_eq!(render_u32(10), "10");
}

#[test]
fn decimal_max_u32() {
    assert_eq!(render_u32(u32::MAX), "4294967295");
}

#[test]
fn txid_renders_first_byte_last() {
    let mut bytes = [0u8; 32];
    bytes[0] = 0x01;
    let rendered = Txid::from_bytes(bytes).render();
    let expected = format!("{}01", "00".repeat(31));
    assert_eq!(rendered, expected);
    assert_eq!(rendered.len(), 64);
}

#[test]
fn txid_renders_reversed_lowercase_hex() {
    let mut bytes = [0u8; 32];
    let mut i = 0;
    while i < 32 {
        bytes[i] = i as u8;
        i += 1;
    }
    let rendered = Txid::from_bytes(bytes).render();
    assert_eq!(
        rendered,
        "1f1e1d1c1b1a191817161514131211100f0e0d0c0b0a09080706050403020100"
    );
}

#[test]
fn txid_rendering_is_lowercase_hex_charset() {
    let rendered = Txid::from_bytes([0xABu8; 32]).render();
    assert_eq!(rendered.len(), 64);
    assert!(rendered.chars().all(|c| c.is_ascii_hexdigit() && !c.is_ascii_uppercase()));
}

#[test]
fn input_renders_all_fields() {
    let mut bytes = [0u8; 32];
    bytes[0] = 0x01;
    let input = Input::new(Txid::from_bytes(bytes), 0, String::from("abc"), u32::MAX);
    let expected = format!(
        "{{\"txid\":\"{}01\",\"output_index\":0,\"script\":\"abc\",\"sequence\":4294967295}}",
        "00".repeat(31)
    );
    assert_eq!(input.render(), expected);
}

#[test]
fn output_renders_amount_text_verbatim() {
    let output = Output::new(Amount::from_sat(50_000), String::from("76a914"));
    assert_eq!(
        output.render("0.0005"),
        "{\"amount\":0.0005,\"script_pubkey\":\"76a914\"}"
    );
}

#[test]
fn empty_transaction_renders_empty_sequences() {
    let t = Transaction::new(Txid::from_bytes([0u8; 32]), 1, Vec::new(), Vec::new(), 0);
    let expected = format!(
        "{{\"transaction_id\":\"{}\",\"version\":1,\"inputs\":[],\"outputs\":[],\"lock_time\":0}}",
        "00".repeat(32)
    );
    assert_eq!(t.render(&Vec::new()), expected);
}

#[test]
fn transaction_renders_outputs_in_order() {
    let a = Output::new(Amount::from_sat(50_000_000), String::from("aa"));
    let b = Output::new(Amount::from_sat(25_000_000), String::from("bb"));
    let t = Transaction::new(Txid::from_bytes([0u8; 32]), 1, Vec::new(), vec![a, b], 0);
    let texts = vec![String::from("0.5"), String::from("0.25")];
    let rendered = t.render(&texts);
    let zeros = "00".repeat(32);
    let expected = format!(
        "{{\"transaction_id\":\"{zeros}\",\"version\":1,\"inputs\":[],\"outputs\":[{{\"amount\":0.5,\"script_pubkey\":\"aa\"}},{{\"amount\":0.25,\"script_pubkey\":\"bb\"}}],\"lock_time\":0}}"
    );
    assert_eq!(rendered, expected);
}

#[test]
fn transaction_renders_inputs_in_order() {
    let first = Input::new(Txid::from_bytes([0u8; 32]), 1, String::from("51"), 10);
    let second = Input::new(Txid::from_bytes([0u8; 32]), 2, String::from("52"), 20);
    let t = Transaction::new(Txid::from_bytes([0u8; 32]), 1, vec![first, second], Vec::new(), 0);
    let rendered = t.render(&Vec::new());
    let zeros = "00".repeat(32);
    let expected = format!(
        "{{\"transaction_id\":\"{zeros}\",\"version\":1,\"inputs\":[{{\"txid\":\"{zeros}\",\"output_index\":1,\"script\":\"51\",\"sequence\":10}},{{\"txid\":\"{zeros}\",\"output_index\":2,\"script\":\"52\",\"sequence\":20}}],\"outputs\":[],\"lock_time\":0}}"
    );
    assert_eq!(rendered, expected);
}
