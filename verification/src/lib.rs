//! A Bitcoin-style transaction data model with verified canonical rendering.
//!
//! The model holds a monetary amount as an integer satoshi count, a
//! transaction identifier as exactly 32 raw bytes, and plain aggregate
//! records for inputs, outputs and whole transactions.  Rendering to the
//! textual form reverses the identifier's bytes before lowercase hex
//! encoding and preserves input/output ordering verbatim.

mod amount;
mod codec;
mod render;
mod transaction;
mod txid;

pub use amount::Amount;
pub use transaction::Input;
pub use transaction::Output;
pub use transaction::Transaction;
pub use render::InputView;
pub use render::OutputView;
pub use render::TransactionView;
pub use render::lemma_two_inputs_in_order;
pub use render::lemma_two_outputs_in_order;
pub use render::spec_join_inputs;
pub use render::spec_join_outputs;
pub use render::spec_render_input;
pub use render::spec_render_output;
pub use render::spec_render_transaction;
pub use txid::Txid;
pub use txid::lemma_txid_text_shape;
pub use codec::is_hex_char;
pub use codec::lemma_spec_hex_charset;
pub use codec::lemma_spec_hex_len;
pub use codec::render_u32;
pub use codec::spec_byte_hex;
pub use codec::spec_dec;
pub use codec::spec_digit;
pub use codec::spec_hex;
pub use codec::spec_hex_digit;
