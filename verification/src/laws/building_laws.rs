//! What building a transaction keeps and what it changes.

use vstd::prelude::*;

use crate::builder::{BuilderState, TransactionBuilder};
use crate::codec;
use crate::encoding_laws;
use crate::error::Result;
use crate::input::{InputContext, TxInput, TxInputP2PKH, TxInputP2TRKeySpend};
use crate::output::TxOutput;
use crate::outside;
use crate::transaction::{self, TxOutView};

verus! {

/// A new builder, and the default one, has version 2, no lock time, no inputs,
/// no outputs and no transaction.
pub proof fn law_new_builder(a: TransactionBuilder, b: TransactionBuilder)
    requires
        call_ensures(TransactionBuilder::new, (), a),
        call_ensures(<TransactionBuilder as Default>::default, (), b),
    ensures
        a@.version == 2 && a@.lock_time == 0,
        a@.inputs.len() == 0 && a@.outputs.len() == 0,
        !a@.contains_taproot && a@.transaction is None,
        b@ == a@,
{
}

/// Setting the version sets it to the number that was given, and nothing else.
pub proof fn law_version_is_set(b: TransactionBuilder, version: i32, r: TransactionBuilder)
    requires
        call_ensures(TransactionBuilder::version, (b, version), r),
    ensures
        r@.version == version,
        r@.lock_time == b@.lock_time,
        r@.inputs == b@.inputs,
        r@.outputs == b@.outputs,
        r@.contains_taproot == b@.contains_taproot,
        r@.transaction == b@.transaction,
{
}

/// Setting the lock time sets it to the height that was given, and nothing else.
pub proof fn law_lock_time_is_set(b: TransactionBuilder, height: u32, r: TransactionBuilder)
    requires
        call_ensures(TransactionBuilder::lock_time, (b, height), r),
    ensures
        r@.lock_time == height,
        r@.version == b@.version,
        r@.inputs == b@.inputs,
        r@.outputs == b@.outputs,
        r@.contains_taproot == b@.contains_taproot,
        r@.transaction == b@.transaction,
{
}

/// An input is added behind those that are there, which stay as they are. There
/// is a taproot input afterwards exactly where there was one or this is one.
pub proof fn law_input_is_added(b: TransactionBuilder, input: TxInput, r: TransactionBuilder)
    requires
        call_ensures(TransactionBuilder::add_input, (b, input), r),
    ensures
        r@.inputs.len() == b@.inputs.len() + 1,
        r@.inputs[b@.inputs.len() as int] == input,
        forall|i: int| 0 <= i < b@.inputs.len() ==> #[trigger] r@.inputs[i] == b@.inputs[i],
        r@.contains_taproot <==> b@.contains_taproot || input is P2TRKeySpend,
        r@.version == b@.version,
        r@.lock_time == b@.lock_time,
        r@.outputs == b@.outputs,
        r@.transaction == b@.transaction,
{
}

/// An output is added behind those that are there, which stay as they are.
pub proof fn law_output_is_added(b: TransactionBuilder, output: TxOutput, r: TransactionBuilder)
    requires
        call_ensures(TransactionBuilder::add_output, (b, output), r),
    ensures
        r@.outputs.len() == b@.outputs.len() + 1,
        r@.outputs[b@.outputs.len() as int] == output,
        forall|i: int| 0 <= i < b@.outputs.len() ==> #[trigger] r@.outputs[i] == b@.outputs[i],
        r@.version == b@.version,
        r@.lock_time == b@.lock_time,
        r@.inputs == b@.inputs,
        r@.contains_taproot == b@.contains_taproot,
        r@.transaction == b@.transaction,
{
}

/// A builder says that there is a taproot input exactly where there is one, and
/// its lock time is a block height.
pub proof fn law_flag_tells_taproot(state: BuilderState)
    requires
        state.wf(),
    ensures
        state.contains_taproot <==> exists|i: int|
            0 <= i < state.inputs.len() && #[trigger] state.inputs[i] is P2TRKeySpend,
        state.lock_time < 500_000_000,
{
}

/// Whether an input has a context.
pub open spec fn is_context_of(ctx: InputContext, input: TxInput) -> bool {
    match input {
        TxInput::P2PKH(t) => t.ctx == ctx,
        TxInput::P2TRKeySpend(t) => t.ctx == ctx,
        TxInput::NonStandard { ctx: c } => c == ctx,
    }
}

/// The context of an input is the one it holds, whatever its kind.
pub proof fn law_context_is_held(
    p: TxInputP2PKH,
    t: TxInputP2TRKeySpend,
    c: InputContext,
    ctx: InputContext,
)
    ensures
        is_context_of(ctx, TxInput::P2PKH(p)) <==> ctx == p.ctx,
        is_context_of(ctx, TxInput::P2TRKeySpend(t)) <==> ctx == t.ctx,
        is_context_of(ctx, TxInput::NonStandard { ctx: c }) <==> ctx == c,
{
}

/// A prepared transaction has the builder's version and lock time. It has an
/// input for each input, in order: the same place, sequence number and witness,
/// and no script. It has an output for each output, in order: the same amount
/// and script. The builder is otherwise as it was.
pub proof fn law_prepared_transaction(b: TransactionBuilder, r: TransactionBuilder)
    requires
        call_ensures(TransactionBuilder::prepare_for_signing, (b,), r),
    ensures
        r@.transaction is Some,
        r@.transaction->Some_0.version == b@.version,
        r@.transaction->Some_0.lock_time == b@.lock_time,
        r@.transaction->Some_0.input.len() == b@.inputs.len(),
        forall|i: int, ctx: InputContext|
            0 <= i < b@.inputs.len() && #[trigger] is_context_of(ctx, b@.inputs[i]) ==> {
                let tx_in = r@.transaction->Some_0.input[i];
                &&& tx_in.previous_output.txid == ctx.previous_output.txid@
                &&& tx_in.previous_output.vout == ctx.previous_output.vout
                &&& tx_in.sequence == ctx.sequence
                &&& tx_in.witness == outside::witness_items(ctx.witness)
                &&& tx_in.script_sig.len() == 0
            },
        r@.transaction->Some_0.output.len() == b@.outputs.len(),
        forall|i: int|
            0 <= i < b@.outputs.len() ==> #[trigger] r@.transaction->Some_0.output[i]
                == match b@.outputs[i] {
                TxOutput::P2PKH(o) => o@,
                TxOutput::P2TRKeyPath(o) => o@,
            },
        r@.version == b@.version,
        r@.lock_time == b@.lock_time,
        r@.inputs == b@.inputs,
        r@.outputs == b@.outputs,
        r@.contains_taproot == b@.contains_taproot,
{
}

/// The transaction of a builder refers, input by input, to the places of the
/// builder's first inputs, with their sequence numbers, and has the builder's
/// first outputs; its lock time is a block height.
pub proof fn law_transaction_follows_parts(state: BuilderState)
    requires
        state.wf(),
        state.transaction is Some,
    ensures
        ({
            let tx = state.transaction->Some_0;
            &&& tx.lock_time < 500_000_000
            &&& tx.input.len() <= state.inputs.len()
            &&& forall|i: int, ctx: InputContext|
                0 <= i < tx.input.len() && #[trigger] is_context_of(ctx, state.inputs[i]) ==> {
                    &&& tx.input[i].previous_output.txid == ctx.previous_output.txid@
                    &&& tx.input[i].previous_output.vout == ctx.previous_output.vout
                    &&& tx.input[i].sequence == ctx.sequence
                }
            &&& tx.output.len() <= state.outputs.len()
            &&& forall|i: int|
                0 <= i < tx.output.len() ==> #[trigger] tx.output[i] == match state.outputs[i] {
                    TxOutput::P2PKH(o) => o@,
                    TxOutput::P2TRKeyPath(o) => o@,
                }
        }),
{
    let tx = state.transaction->Some_0;
    assert forall|i: int, ctx: InputContext|
        0 <= i < tx.input.len() && #[trigger] is_context_of(ctx, state.inputs[i]) implies {
        &&& tx.input[i].previous_output.txid == ctx.previous_output.txid@
        &&& tx.input[i].previous_output.vout == ctx.previous_output.vout
        &&& tx.input[i].sequence == ctx.sequence
    } by {
        assert(tx.input[i].previous_output == ctx@.previous_output);
    }
}

/// Every step of building keeps a builder's parts together.
pub proof fn law_every_step_keeps_parts_together(
    b: TransactionBuilder,
    version: i32,
    height: u32,
    input: TxInput,
    output: TxOutput,
    r: TransactionBuilder,
)
    requires
        ({
            ||| call_ensures(TransactionBuilder::new, (), r)
            ||| call_ensures(TransactionBuilder::version, (b, version), r)
            ||| call_ensures(TransactionBuilder::lock_time, (b, height), r)
            ||| call_ensures(TransactionBuilder::add_input, (b, input), r)
            ||| call_ensures(TransactionBuilder::add_output, (b, output), r)
            ||| call_ensures(TransactionBuilder::prepare_for_signing, (b,), r)
            ||| call_ensures(<TransactionBuilder as Clone>::clone, (&b,), r)
        }),
    ensures
        r@.wf(),
{
}

/// The unsigned transaction of a builder has its version and lock time.
pub proof fn law_unsigned_version_and_lock_time(state: BuilderState)
    ensures
        state.unsigned_transaction().version == state.version,
        state.unsigned_transaction().lock_time == state.lock_time,
{
}

/// A copy of a builder has the same version, lock time and transaction, and the
/// same inputs and outputs in the same order.
pub proof fn law_copy_of_builder(a: TransactionBuilder, b: TransactionBuilder)
    requires
        call_ensures(<TransactionBuilder as Clone>::clone, (&a,), b),
    ensures
        b@.version == a@.version,
        b@.lock_time == a@.lock_time,
        b@.contains_taproot == a@.contains_taproot,
        b@.transaction == a@.transaction,
        b@.inputs.len() == a@.inputs.len(),
        forall|i: int| 0 <= i < a@.inputs.len() ==> (#[trigger] b@.inputs[i])@ == a@.inputs[i]@,
        b@.outputs.len() == a@.outputs.len(),
        forall|i: int|
            0 <= i < a@.outputs.len() ==> match (a@.outputs[i], #[trigger] b@.outputs[i]) {
                (TxOutput::P2PKH(x), TxOutput::P2PKH(y)) => x@ == y@,
                (TxOutput::P2TRKeyPath(x), TxOutput::P2TRKeyPath(y)) => x@ == y@,
                _ => false,
            },
{
    let a_in = crate::input::tx_inputs(a@.inputs);
    let b_in = crate::input::tx_inputs(b@.inputs);
    assert(a_in.len() == a@.inputs.len() && b_in.len() == b@.inputs.len());
    assert forall|i: int| 0 <= i < a@.inputs.len() implies (#[trigger] b@.inputs[i])@
        == a@.inputs[i]@ by {
        assert(a_in[i] == a@.inputs[i]@ && b_in[i] == b@.inputs[i]@);
    }
    let a_out = crate::output::tx_outputs(a@.outputs);
    let b_out = crate::output::tx_outputs(b@.outputs);
    assert(a_out.len() == a@.outputs.len() && b_out.len() == b@.outputs.len());
    assert forall|i: int| 0 <= i < a@.outputs.len() implies match (
        a@.outputs[i],
        #[trigger] b@.outputs[i],
    ) {
        (TxOutput::P2PKH(x), TxOutput::P2PKH(y)) => x@ == y@,
        (TxOutput::P2TRKeyPath(x), TxOutput::P2TRKeyPath(y)) => x@ == y@,
        _ => false,
    } by {
        assert(a_out[i] == a@.outputs[i]@ && b_out[i] == b@.outputs[i]@);
    }
}

/// What is serialized is read back as the builder's transaction, and starts with
/// its version and ends with its lock time, each in four little-endian bytes.
pub proof fn law_serialized_transaction(b: TransactionBuilder, r: Result<Vec<u8>>)
    requires
        call_ensures(TransactionBuilder::serialize, (&b,), r),
        b@.transaction is Some,
        encoding_laws::encodable(b@.transaction->Some_0),
    ensures
        r is Ok,
        transaction::read_transaction(r->Ok_0@) == b@.transaction,
        r->Ok_0@.len() >= 8,
        codec::signed_value(codec::le_value(r->Ok_0@.take(4))) == b@.transaction->Some_0.version,
        codec::le_value(r->Ok_0@.skip(r->Ok_0@.len() - 4)) == b@.transaction->Some_0.lock_time,
{
    let tx = b@.transaction->Some_0;
    encoding_laws::law_transaction_is_read_back(tx);
    encoding_laws::law_encoding_frame(tx);
    codec::lemma_pow256();
    codec::lemma_le_value_of_bytes(codec::twos_complement(tx.version), 4);
    codec::lemma_le_value_of_bytes(tx.lock_time as nat, 4);
}

/// Two builders are serialized alike exactly where their transactions are the
/// same.
pub proof fn law_serialized_alike(
    a: TransactionBuilder,
    b: TransactionBuilder,
    r: Result<Vec<u8>>,
    s: Result<Vec<u8>>,
)
    requires
        call_ensures(TransactionBuilder::serialize, (&a,), r),
        call_ensures(TransactionBuilder::serialize, (&b,), s),
        a@.transaction is Some,
        b@.transaction is Some,
        encoding_laws::encodable(a@.transaction->Some_0),
        encoding_laws::encodable(b@.transaction->Some_0),
    ensures
        r->Ok_0@ == s->Ok_0@ <==> a@.transaction == b@.transaction,
{
    encoding_laws::law_transaction_is_read_back(a@.transaction->Some_0);
    encoding_laws::law_transaction_is_read_back(b@.transaction->Some_0);
}

/// The version and the lock time that are set arrive in the serialized
/// transaction: its first and its last four bytes.
pub proof fn law_settings_arrive(
    b: TransactionBuilder,
    version: i32,
    height: u32,
    versioned: TransactionBuilder,
    locked: TransactionBuilder,
    prepared: TransactionBuilder,
    r: Result<Vec<u8>>,
)
    requires
        call_ensures(TransactionBuilder::version, (b, version), versioned),
        call_ensures(TransactionBuilder::lock_time, (versioned, height), locked),
        call_ensures(TransactionBuilder::prepare_for_signing, (locked,), prepared),
        call_ensures(TransactionBuilder::serialize, (&prepared,), r),
    ensures
        r is Ok,
        r->Ok_0@.len() >= 8,
        codec::signed_value(codec::le_value(r->Ok_0@.take(4))) == version,
        codec::le_value(r->Ok_0@.skip(r->Ok_0@.len() - 4)) == height,
{
    let tx = prepared@.transaction->Some_0;
    encoding_laws::law_encoding_frame(tx);
    codec::lemma_pow256();
    codec::lemma_le_value_of_bytes(codec::twos_complement(tx.version), 4);
    codec::lemma_le_value_of_bytes(tx.lock_time as nat, 4);
}

/// An input that is added arrives in the transaction that is read back from what
/// is serialized: the last one, with its context's place, sequence number and
/// witness, and without a script.
pub proof fn law_added_input_arrives(
    b: TransactionBuilder,
    input: TxInput,
    ctx: InputContext,
    added: TransactionBuilder,
    prepared: TransactionBuilder,
    r: Result<Vec<u8>>,
)
    requires
        call_ensures(TransactionBuilder::add_input, (b, input), added),
        call_ensures(TransactionBuilder::prepare_for_signing, (added,), prepared),
        call_ensures(TransactionBuilder::serialize, (&prepared,), r),
        is_context_of(ctx, input),
        encoding_laws::encodable(prepared@.transaction->Some_0),
    ensures
        r is Ok,
        ({
            let read = transaction::read_transaction(r->Ok_0@);
            let tx_in = read->Some_0.input.last();
            &&& read is Some
            &&& read->Some_0.input.len() == b@.inputs.len() + 1
            &&& tx_in.previous_output.txid == ctx.previous_output.txid@
            &&& tx_in.previous_output.vout == ctx.previous_output.vout
            &&& tx_in.sequence == ctx.sequence
            &&& tx_in.witness == outside::witness_items(ctx.witness)
            &&& tx_in.script_sig.len() == 0
        }),
{
    law_input_is_added(b, input, added);
    law_prepared_transaction(added, prepared);
    encoding_laws::law_transaction_is_read_back(prepared@.transaction->Some_0);
    let tx = prepared@.transaction->Some_0;
    let last = b@.inputs.len() as int;
    assert(is_context_of(ctx, added@.inputs[last]));
    assert(tx.input[last] == tx.input.last());
}

/// An output that is added arrives in the transaction that is read back from
/// what is serialized: the last one, with its amount and script.
pub proof fn law_added_output_arrives(
    b: TransactionBuilder,
    output: TxOutput,
    added: TransactionBuilder,
    prepared: TransactionBuilder,
    r: Result<Vec<u8>>,
)
    requires
        call_ensures(TransactionBuilder::add_output, (b, output), added),
        call_ensures(TransactionBuilder::prepare_for_signing, (added,), prepared),
        call_ensures(TransactionBuilder::serialize, (&prepared,), r),
        encoding_laws::encodable(prepared@.transaction->Some_0),
    ensures
        r is Ok,
        ({
            let read = transaction::read_transaction(r->Ok_0@);
            let paid: TxOutView = match output {
                TxOutput::P2PKH(o) => o@,
                TxOutput::P2TRKeyPath(o) => o@,
            };
            &&& read is Some
            &&& read->Some_0.output.len() == b@.outputs.len() + 1
            &&& read->Some_0.output.last() == paid
        }),
{
    law_output_is_added(b, output, added);
    law_prepared_transaction(added, prepared);
    encoding_laws::law_transaction_is_read_back(prepared@.transaction->Some_0);
    let tx = prepared@.transaction->Some_0;
    assert(tx.output[b@.outputs.len() as int] == tx.output.last());
}

} // verus!
