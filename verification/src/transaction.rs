//! The aggregate records: inputs, outputs, and the transaction that owns
//! ordered sequences of both.  Every record is constructed once, fully
//! populated, and never mutated; rendering is a pure projection.

use vstd::prelude::*;
use vstd::string::StringExecFns;

use crate::amount::Amount;
use crate::codec::render_u32;
use crate::render::InputView;
use crate::render::OutputView;
use crate::render::TransactionView;
use crate::render::spec_join_inputs;
use crate::render::spec_join_outputs;
use crate::render::spec_render_input;
use crate::render::spec_render_output;
use crate::render::spec_render_transaction;
use crate::txid::Txid;

verus! {

/// A reference to a previous transaction's output, with the unlocking
/// script and the sequence number.  No cross-checking that the referenced
/// output exists: that is an external validator's concern.
#[derive(Debug)]
pub struct Input {
    txid: Txid,
    output_index: u32,
    script: String,
    sequence: u32,
}

impl View for Input {
    type V = InputView;

    closed spec fn view(&self) -> InputView {
        InputView {
            txid: self.txid@,
            output_index: self.output_index,
            script: self.script@,
            sequence: self.sequence,
        }
    }
}

impl DeepView for Input {
    type V = InputView;

    open spec fn deep_view(&self) -> InputView {
        self.view()
    }
}

impl Input {
    /// Plain aggregate constructor.  Total: no cross-field validation.
    pub fn new(txid: Txid, output_index: u32, script: String, sequence: u32) -> (i: Input)
        ensures
            i@ == (InputView { txid: txid@, output_index, script: script@, sequence }),
    {
        Input { txid, output_index, script, sequence }
    }

    /// The referenced transaction's identifier.
    pub fn txid(&self) -> (t: &Txid)
        ensures
            t@ == self@.txid,
    {
        &self.txid
    }

    /// The index of the referenced output.
    pub fn output_index(&self) -> (n: u32)
        ensures
            n == self@.output_index,
    {
        self.output_index
    }

    /// The unlocking script, carried verbatim.
    pub fn script(&self) -> (s: &String)
        ensures
            s@ == self@.script,
    {
        &self.script
    }

    /// The sequence number.
    pub fn sequence(&self) -> (n: u32)
        ensures
            n == self@.sequence,
    {
        self.sequence
    }

    /// Renders this input: identifier in reversed hex, index and sequence
    /// in decimal, script passed through verbatim.
    pub fn render(&self) -> (r: String)
        ensures
            r@ == spec_render_input(self@),
    {
        let mut s = String::from_str("{\"txid\":\"");
        let h = self.txid.render();
        s.append(h.as_str());
        s.append("\",\"output_index\":");
        let oi = render_u32(self.output_index);
        s.append(oi.as_str());
        s.append(",\"script\":\"");
        s.append(self.script.as_str());
        s.append("\",\"sequence\":");
        let sq = render_u32(self.sequence);
        s.append(sq.as_str());
        s.append("}");
        proof {
            assert(s@ =~= spec_render_input(self@));
        }
        s
    }
}

/// An output: an amount and the locking script that encumbers it, with no
/// semantic interpretation of the script.
#[derive(Debug)]
pub struct Output {
    amount: Amount,
    script_pubkey: String,
}

impl View for Output {
    type V = OutputView;

    closed spec fn view(&self) -> OutputView {
        OutputView { amount: self.amount@, script_pubkey: self.script_pubkey@ }
    }
}

impl DeepView for Output {
    type V = OutputView;

    open spec fn deep_view(&self) -> OutputView {
        self.view()
    }
}

impl Output {
    /// Plain aggregate constructor.  Total.
    pub fn new(amount: Amount, script_pubkey: String) -> (o: Output)
        ensures
            o@ == (OutputView { amount: amount@, script_pubkey: script_pubkey@ }),
    {
        Output { amount, script_pubkey }
    }

    /// The carried amount.
    pub fn amount(&self) -> (a: Amount)
        ensures
            a@ == self@.amount,
    {
        self.amount
    }

    /// The locking script, carried verbatim.
    pub fn script_pubkey(&self) -> (s: &String)
        ensures
            s@ == self@.script_pubkey,
    {
        &self.script_pubkey
    }

    /// Renders this output around the supplied amount text.  The amount's
    /// decimal projection is a derived floating point form that the caller
    /// computes; it is spliced in verbatim.
    pub fn render(&self, amount_text: &str) -> (r: String)
        ensures
            r@ == spec_render_output(self@, amount_text@),
    {
        let mut s = String::from_str("{\"amount\":");
        s.append(amount_text);
        s.append(",\"script_pubkey\":\"");
        s.append(self.script_pubkey.as_str());
        s.append("\"}");
        proof {
            assert(s@ =~= spec_render_output(self@, amount_text@));
        }
        s
    }
}

/// A transaction: its own identifier, a version, the ordered inputs, the
/// ordered outputs, and a lock time.
#[derive(Debug)]
pub struct Transaction {
    transaction_id: Txid,
    version: u32,
    inputs: Vec<Input>,
    outputs: Vec<Output>,
    lock_time: u32,
}

impl View for Transaction {
    type V = TransactionView;

    closed spec fn view(&self) -> TransactionView {
        TransactionView {
            transaction_id: self.transaction_id@,
            version: self.version,
            inputs: self.inputs.deep_view(),
            outputs: self.outputs.deep_view(),
            lock_time: self.lock_time,
        }
    }
}

impl Transaction {
    /// Plain aggregate constructor.  Total; the supplied input and output
    /// sequences are kept verbatim, in order: no sorting, no deduplication.
    pub fn new(
        transaction_id: Txid,
        version: u32,
        inputs: Vec<Input>,
        outputs: Vec<Output>,
        lock_time: u32,
    ) -> (t: Transaction)
        ensures
            t@ == (TransactionView {
                transaction_id: transaction_id@,
                version,
                inputs: inputs.deep_view(),
                outputs: outputs.deep_view(),
                lock_time,
            }),
    {
        Transaction { transaction_id, version, inputs, outputs, lock_time }
    }

    /// The transaction's own identifier.
    pub fn transaction_id(&self) -> (t: &Txid)
        ensures
            t@ == self@.transaction_id,
    {
        &self.transaction_id
    }

    /// The version number.
    pub fn version(&self) -> (n: u32)
        ensures
            n == self@.version,
    {
        self.version
    }

    /// The inputs, in the order supplied at construction.
    pub fn inputs(&self) -> (v: &Vec<Input>)
        ensures
            v.deep_view() == self@.inputs,
    {
        &self.inputs
    }

    /// The outputs, in the order supplied at construction.
    pub fn outputs(&self) -> (v: &Vec<Output>)
        ensures
            v.deep_view() == self@.outputs,
    {
        &self.outputs
    }

    /// The lock time.
    pub fn lock_time(&self) -> (n: u32)
        ensures
            n == self@.lock_time,
    {
        self.lock_time
    }

    /// Renders the whole transaction.  `amount_texts` supplies, in output
    /// order, the caller-computed decimal text of each output's amount;
    /// everything else is rendered by this library's own rules.
    pub fn render(&self, amount_texts: &Vec<String>) -> (r: String)
        requires
            amount_texts@.len() == self@.outputs.len(),
        ensures
            r@ == spec_render_transaction(self@, amount_texts.deep_view()),
    {
        let mut s = String::from_str("{\"transaction_id\":\"");
        let h = self.transaction_id.render();
        s.append(h.as_str());
        s.append("\",\"version\":");
        let v = render_u32(self.version);
        s.append(v.as_str());
        s.append(",\"inputs\":[");
        let ins = render_inputs(&self.inputs);
        s.append(ins.as_str());
        s.append("],\"outputs\":[");
        let outs = render_outputs(&self.outputs, amount_texts);
        s.append(outs.as_str());
        s.append("],\"lock_time\":");
        let lt = render_u32(self.lock_time);
        s.append(lt.as_str());
        s.append("}");
        proof {
            assert(s@ =~= spec_render_transaction(self@, amount_texts.deep_view()));
        }
        s
    }
}

/// The comma-joined renderings of the inputs, in order.
fn render_inputs(inputs: &Vec<Input>) -> (r: String)
    ensures
        r@ == spec_join_inputs(inputs.deep_view()),
{
    let views = Ghost(inputs.deep_view());
    let mut s = String::new();
    let mut i: usize = 0;
    while i < inputs.len()
        invariant
            i <= inputs.len(),
            views@ == inputs.deep_view(),
            s@ == spec_join_inputs(views@.take(i as int)),
        decreases inputs.len() - i,
    {
        if i > 0 {
            s.append(",");
        }
        let ri = inputs[i].render();
        s.append(ri.as_str());
        proof {
            let taken = views@.take(i + 1);
            assert(taken.drop_last() =~= views@.take(i as int));
            assert(taken.last() == inputs[i as int].deep_view());
            assert(s@ =~= spec_join_inputs(taken));
        }
        i = i + 1;
    }
    proof {
        assert(views@.take(inputs.deep_view().len() as int) =~= inputs.deep_view());
    }
    s
}

/// The comma-joined renderings of the outputs, in order, each spliced
/// together with its amount text.
fn render_outputs(outputs: &Vec<Output>, amount_texts: &Vec<String>) -> (r: String)
    requires
        amount_texts@.len() == outputs@.len(),
    ensures
        r@ == spec_join_outputs(outputs.deep_view(), amount_texts.deep_view()),
{
    let views = Ghost(outputs.deep_view());
    let texts = Ghost(amount_texts.deep_view());
    let mut s = String::new();
    let mut i: usize = 0;
    while i < outputs.len()
        invariant
            i <= outputs.len(),
            amount_texts@.len() == outputs@.len(),
            views@ == outputs.deep_view(),
            texts@ == amount_texts.deep_view(),
            s@ == spec_join_outputs(views@.take(i as int), texts@.take(i as int)),
        decreases outputs.len() - i,
    {
        if i > 0 {
            s.append(",");
        }
        let ro = outputs[i].render(amount_texts[i].as_str());
        s.append(ro.as_str());
        proof {
            let taken = views@.take(i + 1);
            let taken_texts = texts@.take(i + 1);
            assert(taken.drop_last() =~= views@.take(i as int));
            assert(taken_texts.drop_last() =~= texts@.take(i as int));
            assert(taken.last() == outputs[i as int].deep_view());
            assert(taken_texts.last() == amount_texts[i as int]@);
            assert(s@ =~= spec_join_outputs(taken, taken_texts));
        }
        i = i + 1;
    }
    proof {
        assert(views@.take(outputs.deep_view().len() as int) =~= outputs.deep_view());
        assert(texts@.take(amount_texts.deep_view().len() as int) =~= amount_texts.deep_view());
    }
    s
}

} // verus!
