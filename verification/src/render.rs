//! The canonical textual form of the model, as mathematical functions on
//! the types' views.  The aggregate form nests the per-type rules: an
//! identifier renders as byte-reversed lowercase hex, integers render in
//! decimal, scripts pass through verbatim, and input/output order is kept
//! exactly as supplied.

use vstd::prelude::*;

use crate::codec::spec_dec;
use crate::codec::spec_hex;

verus! {

/// The mathematical content of an input record.
pub ghost struct InputView {
    pub txid: Seq<u8>,
    pub output_index: u32,
    pub script: Seq<char>,
    pub sequence: u32,
}

/// The mathematical content of an output record.
pub ghost struct OutputView {
    pub amount: u64,
    pub script_pubkey: Seq<char>,
}

/// The mathematical content of a transaction.
pub ghost struct TransactionView {
    pub transaction_id: Seq<u8>,
    pub version: u32,
    pub inputs: Seq<InputView>,
    pub outputs: Seq<OutputView>,
    pub lock_time: u32,
}

/// The rendered form of one input: referenced identifier in reversed hex,
/// output index and sequence in decimal, script passed through verbatim.
pub open spec fn spec_render_input(v: InputView) -> Seq<char> {
    "{\"txid\":\""@ + spec_hex(v.txid.reverse()) + "\",\"output_index\":"@ + spec_dec(
        v.output_index as nat,
    ) + ",\"script\":\""@ + v.script + "\",\"sequence\":"@ + spec_dec(v.sequence as nat) + "}"@
}

/// The rendered form of one output.  The amount's decimal projection is
/// not a function this library defines (it is a derived, lossy floating
/// point form computed by the caller); the text supplied for it is spliced
/// in verbatim, and the locking script passes through verbatim.
pub open spec fn spec_render_output(v: OutputView, amount_text: Seq<char>) -> Seq<char> {
    "{\"amount\":"@ + amount_text + ",\"script_pubkey\":\""@ + v.script_pubkey + "\"}"@
}

/// The inputs' renderings joined with commas, in the order supplied.
pub open spec fn spec_join_inputs(ins: Seq<InputView>) -> Seq<char>
    decreases ins.len(),
{
    if ins.len() == 0 {
        Seq::empty()
    } else if ins.len() == 1 {
        spec_render_input(ins[0])
    } else {
        spec_join_inputs(ins.drop_last()) + ","@ + spec_render_input(ins.last())
    }
}

/// The outputs' renderings joined with commas, in the order supplied,
/// each spliced together with its amount text.
pub open spec fn spec_join_outputs(outs: Seq<OutputView>, amount_texts: Seq<Seq<char>>) -> Seq<
    char,
>
    recommends
        outs.len() == amount_texts.len(),
    decreases outs.len(),
{
    if outs.len() == 0 {
        Seq::empty()
    } else if outs.len() == 1 {
        spec_render_output(outs[0], amount_texts[0])
    } else {
        spec_join_outputs(outs.drop_last(), amount_texts.drop_last()) + ","@ + spec_render_output(
            outs.last(),
            amount_texts.last(),
        )
    }
}

/// The rendered form of a whole transaction: its own identifier in
/// reversed hex, version, the ordered inputs, the ordered outputs, and
/// the lock time, in that field order.
pub open spec fn spec_render_transaction(t: TransactionView, amount_texts: Seq<Seq<char>>) -> Seq<
    char,
> {
    "{\"transaction_id\":\""@ + spec_hex(t.transaction_id.reverse()) + "\",\"version\":"@
        + spec_dec(t.version as nat) + ",\"inputs\":["@ + spec_join_inputs(t.inputs)
        + "],\"outputs\":["@ + spec_join_outputs(t.outputs, amount_texts) + "],\"lock_time\":"@
        + spec_dec(t.lock_time as nat) + "}"@
}

/// Law: joining keeps input order.  For two inputs the joined text is the
/// first input's rendering, a comma, then the second input's rendering,
/// never the other order.
pub proof fn lemma_two_inputs_in_order(a: InputView, b: InputView)
    ensures
        spec_join_inputs(seq![a, b]) == spec_render_input(a) + ","@ + spec_render_input(b),
{
    let two = seq![a, b];
    assert(two.drop_last() =~= seq![a]);
    assert(two.last() == b);
    assert(spec_join_inputs(seq![a]) == spec_render_input(a));
    assert(spec_join_inputs(two) == spec_join_inputs(two.drop_last()) + ","@ + spec_render_input(
        b,
    ));
}

/// Law: joining keeps output order.  For two outputs the joined text is
/// the first output's rendering, a comma, then the second output's
/// rendering, never the other order.
pub proof fn lemma_two_outputs_in_order(
    a: OutputView,
    b: OutputView,
    ta: Seq<char>,
    tb: Seq<char>,
)
    ensures
        spec_join_outputs(seq![a, b], seq![ta, tb]) == spec_render_output(a, ta) + ","@
            + spec_render_output(b, tb),
{
    let two = seq![a, b];
    let texts = seq![ta, tb];
    assert(two.drop_last() =~= seq![a]);
    assert(texts.drop_last() =~= seq![ta]);
    assert(two.last() == b);
    assert(texts.last() == tb);
    assert(spec_join_outputs(seq![a], seq![ta]) == spec_render_output(a, ta));
    assert(spec_join_outputs(two, texts) == spec_join_outputs(two.drop_last(), texts.drop_last())
        + ","@ + spec_render_output(b, tb));
}

} // verus!
