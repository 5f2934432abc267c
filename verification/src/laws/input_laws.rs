//! How inputs are read, and what becomes of them in a transaction.

use vstd::prelude::*;

use crate::codec;
use crate::error::{Error, Result};
use crate::input::{
    self,
    InputContext,
    InputContextView,
    TxInput,
    TxInputP2PKH,
    TxInputP2TRKeySpend,
    TxInputView,
};
use crate::keys;
use crate::laws::codec_laws;
use crate::outside;
use crate::transaction::{self, OutPoint, TxIn, TxOut};

verus! {

/// The context of an output refers to the place that was given, holds the
/// output's amount and script, has the sequence number `0xFFFFFFFF` and no
/// witness.
pub proof fn law_context_of_output(utxo: TxOut, point: OutPoint, ctx: InputContext)
    requires
        call_ensures(InputContext::new, (utxo, point), ctx),
    ensures
        ctx.previous_output.txid@ == point.txid@,
        ctx.previous_output.vout == point.vout,
        ctx.value == Some(utxo.value),
        ctx.script_pubkey@ == utxo.script_pubkey@,
        ctx.sequence == 0xFFFF_FFFF,
        outside::witness_items(ctx.witness).len() == 0,
{
}

/// What is read as a context stands in the bytes: the transaction's hash, the
/// number of the output, the script behind its length, and the sequence number.
/// The value is the one that was given, and there is no witness.
pub proof fn law_context_stands_in_bytes(
    bytes: &[u8],
    value: Option<u64>,
    r: Result<InputContext>,
) -> (parts: (nat, Seq<u8>))
    requires
        call_ensures(InputContext::from_slice, (bytes, value), r),
    ensures
        r matches Ok(ctx) ==> {
            &&& bytes@ == ctx.previous_output.txid@ + (codec::le_bytes(
                ctx.previous_output.vout as nat,
                4,
            ) + (codec::compact_size(parts.0) + (ctx.script_pubkey@ + (codec::le_bytes(
                ctx.sequence as nat,
                4,
            ) + parts.1))))
            &&& parts.0 <= u64::MAX
            &&& ctx.script_pubkey@.len() == (parts.0 as u64) as usize
            &&& ctx.value == value
            &&& outside::witness_items(ctx.witness).len() == 0
        },
        r matches Err(e) ==> e == Error::Todo,
{
    let s = bytes@;
    match transaction::read_out_point(s) {
        Some((point, rest)) => {
            let number = s.subrange(32, 36);
            codec_laws::law_le_bytes_of_value(number);
            codec::lemma_pow256();
            assert(s =~= s.take(32) + (number + s.skip(36)));
            let n = codec_laws::law_read_sized_bytes_is_written(rest);
            match codec::read_sized_bytes(rest) {
                Some((script, behind)) => {
                    codec_laws::law_read_le_is_written(behind, 4);
                    match codec::read_le(behind, 4) {
                        Some((sequence, left)) => (n, left),
                        None => (0, Seq::empty()),
                    }
                },
                None => (0, Seq::empty()),
            }
        },
        None => (0, Seq::empty()),
    }
}

/// A context that is written in the form above is read, and read as it was
/// written, whatever follows it.
pub proof fn law_written_context_is_read(
    bytes: &[u8],
    value: Option<u64>,
    r: Result<InputContext>,
    txid: Seq<u8>,
    vout: u32,
    script: Seq<u8>,
    sequence: u32,
    rest: Seq<u8>,
)
    requires
        call_ensures(InputContext::from_slice, (bytes, value), r),
        txid.len() == 32,
        script.len() <= usize::MAX,
        bytes@ == txid + (codec::le_bytes(vout as nat, 4) + (codec::compact_size(script.len()) + (
        script + (codec::le_bytes(sequence as nat, 4) + rest)))),
    ensures
        r is Ok,
        r->Ok_0.previous_output.txid@ == txid,
        r->Ok_0.previous_output.vout == vout,
        r->Ok_0.value == value,
        r->Ok_0.script_pubkey@ == script,
        r->Ok_0.sequence == sequence,
        outside::witness_items(r->Ok_0.witness).len() == 0,
{
    let tx_in = transaction::TxInView {
        previous_output: transaction::OutPointView { txid, vout },
        script_sig: script,
        sequence,
        witness: Seq::empty(),
    };
    assert(bytes@ =~= transaction::encode_tx_in(tx_in) + rest);
    crate::laws::law_context_is_read_back(tx_in, value, rest);
    let ctx = r->Ok_0;
    assert(ctx@ == crate::laws::described_context(tx_in, value));
    assert(ctx@.previous_output.txid == ctx.previous_output.txid@);
}

/// An input is recognised exactly where its bytes hold a context whose script is
/// `OP_DUP OP_HASH160 <hash> OP_EQUALVERIFY OP_CHECKSIG` with a hash of 20 bytes.
/// It then spends a public key hash's output, with that context and that hash.
/// Every other script is refused.
pub proof fn law_only_public_key_hashes_are_recognised(
    bytes: &[u8],
    value: Option<u64>,
    context: Result<InputContext>,
    r: Result<TxInput>,
)
    requires
        call_ensures(InputContext::from_slice, (bytes, value), context),
        call_ensures(TxInput::from_slice, (bytes, value), r),
    ensures
        r is Ok <==> {
            &&& context is Ok
            &&& exists|hash: Seq<u8>| #[trigger]
                hash.len() == 20 && context->Ok_0.script_pubkey@ == seq![0x76u8, 0xa9u8, 0x14u8]
                    + hash + seq![0x88u8, 0xacu8]
        },
        r matches Ok(input) ==> {
            &&& input is P2PKH
            &&& input->P2PKH_0.ctx@ == context->Ok_0@
            &&& input->P2PKH_0.ctx.script_pubkey@ == seq![0x76u8, 0xa9u8, 0x14u8]
                + input->P2PKH_0.recipient.0@ + seq![0x88u8, 0xacu8]
        },
        r matches Err(e) ==> e == Error::Todo,
{
    if context is Ok {
        let s = context->Ok_0.script_pubkey@;
        if r is Ok {
            let hash = s.subrange(3, 23);
            assert(hash.len() == 20);
            assert(s =~= seq![0x76u8, 0xa9u8, 0x14u8] + hash + seq![0x88u8, 0xacu8]);
        }
    }
}

/// What is recognised in bytes is an input that spends a public key hash's
/// output: its context is the one in the bytes, and its script is
/// `OP_DUP OP_HASH160 <recipient> OP_EQUALVERIFY OP_CHECKSIG`.
pub proof fn law_recognition_is_sound(s: Seq<u8>, value: Option<u64>)
    ensures
        input::read_input(s, value) matches Some(found) ==> {
            &&& input::read_context(s, value) is Some
            &&& found is P2PKH
            &&& found->P2PKH_ctx == input::read_context(s, value)->Some_0
            &&& found->P2PKH_recipient.len() == 20
            &&& found->P2PKH_ctx.script_pubkey == seq![0x76u8, 0xa9u8, 0x14u8]
                + found->P2PKH_recipient + seq![0x88u8, 0xacu8]
        },
{
    if input::read_input(s, value) is Some {
        let script = input::read_context(s, value)->Some_0.script_pubkey;
        assert(script =~= seq![0x76u8, 0xa9u8, 0x14u8] + script.subrange(3, 23) + seq![
            0x88u8,
            0xacu8,
        ]);
    }
}

/// A context becomes an input that refers to the same place, with the same
/// sequence number and witness and without a script.
pub proof fn law_context_becomes_unsigned(ctx: InputContext, tx_in: TxIn)
    requires
        call_ensures(<TxIn as From<InputContext>>::from, (ctx,), tx_in),
    ensures
        tx_in.previous_output.txid@ == ctx.previous_output.txid@,
        tx_in.previous_output.vout == ctx.previous_output.vout,
        tx_in.script_sig@.len() == 0,
        tx_in.sequence == ctx.sequence,
        outside::witness_items(tx_in.witness) == outside::witness_items(ctx.witness),
{
    assert(tx_in@.previous_output == ctx@.previous_output);
}

/// An input of every kind becomes what its context becomes.
pub proof fn law_input_becomes_unsigned(input: TxInput, ctx: InputContext, tx_in: TxIn)
    requires
        call_ensures(<TxIn as From<TxInput>>::from, (input,), tx_in),
        match input {
            TxInput::P2PKH(t) => t.ctx == ctx,
            TxInput::P2TRKeySpend(t) => t.ctx == ctx,
            TxInput::NonStandard { ctx: c } => c == ctx,
        },
    ensures
        tx_in.previous_output.txid@ == ctx.previous_output.txid@,
        tx_in.previous_output.vout == ctx.previous_output.vout,
        tx_in.script_sig@.len() == 0,
        tx_in.sequence == ctx.sequence,
        outside::witness_items(tx_in.witness) == outside::witness_items(ctx.witness),
{
    assert(tx_in@.previous_output == ctx@.previous_output);
}

/// The context of an input is the one that it was made with.
pub proof fn law_context_of_input(
    p2pkh: TxInputP2PKH,
    taproot: TxInputP2TRKeySpend,
    other: InputContext,
    a: &InputContext,
    b: &InputContext,
    c: &InputContext,
)
    requires
        call_ensures(TxInput::ctx, (&TxInput::P2PKH(p2pkh),), a),
        call_ensures(TxInput::ctx, (&TxInput::P2TRKeySpend(taproot),), b),
        call_ensures(TxInput::ctx, (&TxInput::NonStandard { ctx: other },), c),
    ensures
        *a == p2pkh.ctx,
        *b == taproot.ctx,
        *c == other,
        input::input_context(TxInput::P2PKH(p2pkh)) == p2pkh.ctx,
        input::input_context(TxInput::P2TRKeySpend(taproot)) == taproot.ctx,
        input::input_context(TxInput::NonStandard { ctx: other }) == other,
{
}

/// The input that spends a taproot output by its key has the context that was
/// given, and the sum of the untweaked key and its hash as the recipient.
pub proof fn law_key_spend(
    ctx: InputContext,
    untweaked: [u8; 32],
    r: TxInput,
    checked: Option<TxInput>,
)
    requires
        call_ensures(TxInput::key_spend, (ctx, &untweaked), r),
        call_ensures(TxInput::checked_key_spend, (ctx, &untweaked), checked),
        keys::is_x_only_key(untweaked@),
        keys::is_scalar(outside::tap_tweak_hash(untweaked@)),
        outside::key_plus_tweak(untweaked@, outside::tap_tweak_hash(untweaked@)) is Some,
    ensures
        r is P2TRKeySpend,
        r->P2TRKeySpend_0.ctx == ctx,
        outside::key_plus_tweak(untweaked@, outside::tap_tweak_hash(untweaked@)) == Some(
            r->P2TRKeySpend_0.recipient@,
        ),
        checked is Some,
        checked->Some_0 is P2TRKeySpend,
        checked->Some_0->P2TRKeySpend_0.ctx == ctx,
        checked->Some_0->P2TRKeySpend_0.recipient@ == r->P2TRKeySpend_0.recipient@,
{
}

/// There is no checked key spend of bytes that are no x-only key, or whose hash
/// is no number below the order of the curve, or has no sum with them.
pub proof fn law_no_key_spend(ctx: InputContext, untweaked: [u8; 32], checked: Option<TxInput>)
    requires
        call_ensures(TxInput::checked_key_spend, (ctx, &untweaked), checked),
        ({
            let hash = outside::tap_tweak_hash(untweaked@);
            ||| !keys::is_x_only_key(untweaked@)
            ||| !keys::is_scalar(hash)
            ||| outside::key_plus_tweak(untweaked@, hash) is None
        }),
    ensures
        checked is None,
{
}

/// A copy of a context has the same place, value, script, sequence number and
/// witness.
pub proof fn law_copy_of_context(a: InputContext, b: InputContext)
    requires
        call_ensures(<InputContext as Clone>::clone, (&a,), b),
    ensures
        b.previous_output.txid@ == a.previous_output.txid@,
        b.previous_output.vout == a.previous_output.vout,
        b.value == a.value,
        b.script_pubkey@ == a.script_pubkey@,
        b.sequence == a.sequence,
        outside::witness_items(b.witness) == outside::witness_items(a.witness),
{
    assert(b@.previous_output == a@.previous_output);
}

/// A copy of an input is of the same kind, with the same context and recipient.
pub proof fn law_copy_of_input(a: TxInput, b: TxInput)
    requires
        call_ensures(<TxInput as Clone>::clone, (&a,), b),
    ensures
        match a {
            TxInput::P2PKH(t) => b is P2PKH && b->P2PKH_0.ctx@ == t.ctx@
                && b->P2PKH_0.recipient.0@ == t.recipient.0@,
            TxInput::P2TRKeySpend(t) => b is P2TRKeySpend && b->P2TRKeySpend_0.ctx@ == t.ctx@
                && b->P2TRKeySpend_0.recipient@ == t.recipient@,
            TxInput::NonStandard { ctx } => b is NonStandard && b->NonStandard_ctx@ == ctx@,
        },
{
}

/// Copies of the parts of an input keep context and recipient.
pub proof fn law_copy_of_input_parts(
    a: TxInputP2PKH,
    b: TxInputP2PKH,
    c: TxInputP2TRKeySpend,
    d: TxInputP2TRKeySpend,
)
    requires
        call_ensures(<TxInputP2PKH as Clone>::clone, (&a,), b),
        call_ensures(<TxInputP2TRKeySpend as Clone>::clone, (&c,), d),
    ensures
        b.ctx@ == a.ctx@,
        b.recipient == a.recipient,
        d.ctx@ == c.ctx@,
        d.recipient == c.recipient,
{
}

/// What a context holds: each of its fields as it is.
pub proof fn law_view_of_context(ctx: InputContext)
    ensures
        ctx@ == (InputContextView {
            previous_output: transaction::OutPointView {
                txid: ctx.previous_output.txid@,
                vout: ctx.previous_output.vout,
            },
            value: ctx.value,
            script_pubkey: ctx.script_pubkey@,
            sequence: ctx.sequence,
            witness: outside::witness_items(ctx.witness),
        }),
{
}

/// What an input holds: its kind, its context and its recipient as they are.
pub proof fn law_view_of_input(input: TxInput)
    ensures
        input@ == match input {
            TxInput::P2PKH(t) => TxInputView::P2PKH { ctx: t.ctx@, recipient: t.recipient.0@ },
            TxInput::P2TRKeySpend(t) => TxInputView::P2TRKeySpend {
                ctx: t.ctx@,
                recipient: t.recipient@,
            },
            TxInput::NonStandard { ctx } => TxInputView::NonStandard { ctx: ctx@ },
        },
{
}

} // verus!
