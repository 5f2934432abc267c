//! What holds between the parts of the library.

pub mod building_laws;
pub mod codec_laws;
pub mod input_laws;
pub mod key_laws;
pub mod output_laws;
pub mod script_laws;
pub mod signing_laws;
pub mod transaction_laws;

use vstd::prelude::*;

use bitcoin::Witness;

use crate::builder::{BuilderState, TransactionBuilder};
use crate::claim::{ClaimLocation, TransactionSigner};
use crate::codec;
use crate::encoding_laws;
use crate::error::Result;
use crate::input::{self, InputContextView, TxInput, TxInputView};
use crate::output;
use crate::outside;
use crate::script;
use crate::transaction::{self, OutPointView, TransactionView, TxInView};

verus! {

// Inputs and scripts.

/// The context that an encoded input describes, with the spent output's script
/// where the input's own script would stand.
pub open spec fn described_context(tx_in: TxInView, value: Option<u64>) -> InputContextView {
    InputContextView {
        previous_output: tx_in.previous_output,
        value,
        script_pubkey: tx_in.script_sig,
        sequence: tx_in.sequence,
        witness: Seq::empty(),
    }
}

/// A context is read back as it was written, whatever follows it.
pub proof fn law_context_is_read_back(tx_in: TxInView, value: Option<u64>, rest: Seq<u8>)
    requires
        tx_in.previous_output.txid.len() == 32,
        tx_in.script_sig.len() <= usize::MAX,
    ensures
        input::read_context(transaction::encode_tx_in(tx_in) + rest, value) == Some(
            described_context(tx_in, value),
        ),
{
    let point = tx_in.previous_output;
    let tail = codec::le_bytes(tx_in.sequence as nat, 4) + rest;
    let middle = codec::sized_bytes(tx_in.script_sig) + tail;
    let s = transaction::encode_tx_in(tx_in) + rest;
    assert(s =~= transaction::encode_out_point(point) + middle);
    encoding_laws::law_out_point_is_read_back(point, middle);
    codec::law_read_sized_bytes(tx_in.script_sig, tail);
    codec::lemma_pow256();
    codec::law_read_le_of_bytes(tx_in.sequence as nat, 4, rest);
}

/// The scripts that pay to a public key hash are the ones that are made for
/// one, and the hash is read back from them.
pub proof fn law_p2pkh_scripts(hash: Seq<u8>, s: Seq<u8>)
    requires
        hash.len() == 20,
    ensures
        script::is_p2pkh_script(script::p2pkh_script(hash)),
        script::p2pkh_script(hash).subrange(3, 23) == hash,
        script::is_p2pkh_script(s) ==> s == script::p2pkh_script(s.subrange(3, 23)),
{
    assert(script::p2pkh_script(hash).subrange(3, 23) =~= hash);
    if script::is_p2pkh_script(s) {
        assert(s =~= script::p2pkh_script(s.subrange(3, 23)));
    }
}

/// The scripts that pay to a taproot output key are the ones that are made for
/// one, and none of them pays to a public key hash.
pub proof fn law_p2tr_scripts(key: Seq<u8>, s: Seq<u8>)
    requires
        key.len() == 32,
    ensures
        script::is_p2tr_script(script::p2tr_script(key)),
        script::is_p2tr_script(s) ==> s == script::p2tr_script(s.skip(2)),
        !(script::is_p2tr_script(s) && script::is_p2pkh_script(s)),
{
    if script::is_p2tr_script(s) {
        assert(s =~= script::p2tr_script(s.skip(2)));
    }
}

/// An input that describes an output that pays to a public key hash is read as
/// one that spends it, with the hash as the recipient.
pub proof fn law_p2pkh_output_is_recognised(
    point: OutPointView,
    hash: Seq<u8>,
    sequence: u32,
    value: Option<u64>,
    rest: Seq<u8>,
)
    requires
        point.txid.len() == 32,
        hash.len() == 20,
    ensures
        ({
            let tx_in = TxInView {
                previous_output: point,
                script_sig: script::p2pkh_script(hash),
                sequence,
                witness: Seq::empty(),
            };
            input::read_input(transaction::encode_tx_in(tx_in) + rest, value) == Some(
                TxInputView::P2PKH { ctx: described_context(tx_in, value), recipient: hash },
            )
        }),
{
    let tx_in = TxInView {
        previous_output: point,
        script_sig: script::p2pkh_script(hash),
        sequence,
        witness: Seq::empty(),
    };
    law_context_is_read_back(tx_in, value, rest);
    law_p2pkh_scripts(hash, hash);
}

/// An input that describes a taproot output is refused.
pub proof fn law_taproot_output_is_refused(s: Seq<u8>, value: Option<u64>)
    requires
        input::read_context(s, value) is Some,
        script::is_p2tr_script(input::read_context(s, value)->Some_0.script_pubkey),
    ensures
        input::read_input(s, value) is None,
{
}

/// The header of a push tells how many bytes are pushed.
pub proof fn law_push_header_tells_size(a: u32, b: u32)
    requires
        script::push_header_bytes(a) == script::push_header_bytes(b),
    ensures
        a == b,
{
    codec::lemma_pow256();
    codec::lemma_le_bytes_len(a as nat, 4);
    codec::lemma_le_bytes_len(b as nat, 4);
    codec::lemma_le_value_of_bytes(a as nat, 4);
    codec::lemma_le_value_of_bytes(b as nat, 4);
    let a_bytes = script::push_header_bytes(a);
    let b_bytes = script::push_header_bytes(b);
    assert(a_bytes[0] == b_bytes[0] && a_bytes.len() == b_bytes.len());
    if a > 75 {
        assert(a_bytes.skip(1) =~= codec::le_bytes(a as nat, 4));
        assert(b_bytes.skip(1) =~= codec::le_bytes(b as nat, 4));
    }
}

// Building and signing.

/// Preparing again what is prepared, signed or not, gives the same unsigned
/// transaction.
pub proof fn law_preparing_again(state: BuilderState, tx: Option<TransactionView>)
    ensures
        (BuilderState { transaction: tx, ..state }).unsigned_transaction()
            == state.unsigned_transaction(),
{
}

/// In an unsigned transaction there is one input for each input and one output
/// for each output, in order, and no input has a script.
pub proof fn law_unsigned_transaction(state: BuilderState)
    ensures
        state.unsigned_transaction().input.len() == state.inputs.len(),
        state.unsigned_transaction().output.len() == state.outputs.len(),
        forall|i: int|
            0 <= i < state.inputs.len() ==> {
                let tx_in = #[trigger] state.unsigned_transaction().input[i];
                let ctx = input::input_context(state.inputs[i])@;
                &&& tx_in.previous_output == ctx.previous_output
                &&& tx_in.sequence == ctx.sequence
                &&& tx_in.witness == ctx.witness
                &&& tx_in.script_sig.len() == 0
            },
        forall|i: int|
            0 <= i < state.outputs.len() ==> #[trigger] state.unsigned_transaction().output[i]
                == output::paid_output(state.outputs[i]),
{
}

/// Once all inputs are prepared, signing lacks nothing but, for taproot inputs,
/// the value of an output that is spent.
pub proof fn law_prepared_can_be_signed(state: BuilderState)
    requires
        state.wf(),
        !state.lacks_value(),
    ensures
        (BuilderState {
            transaction: Some(state.unsigned_transaction()),
            ..state
        }).can_be_signed(),
{
    let prepared = BuilderState { transaction: Some(state.unsigned_transaction()), ..state };
    assert forall|i: int| #[trigger] prepared.is_signed(i) implies prepared.has_message(i) by {
        if prepared.inputs[i] is P2TRKeySpend {
            assert(state.inputs[i] is P2TRKeySpend);
            assert(state.contains_taproot);
        }
    }
}

/// Claims change nothing in a transaction but the scripts and witnesses of the
/// inputs that they are for.
pub proof fn law_claims_change_only_their_place(
    tx: TransactionView,
    claims: Seq<Option<ClaimLocation>>,
    i: int,
)
    requires
        0 <= i < tx.input.len(),
        i < claims.len(),
    ensures
        ({
            let signed = crate::builder::with_claims(tx, claims);
            &&& signed.version == tx.version
            &&& signed.lock_time == tx.lock_time
            &&& signed.output == tx.output
            &&& signed.input.len() == tx.input.len()
            &&& signed.input[i].previous_output == tx.input[i].previous_output
            &&& signed.input[i].sequence == tx.input[i].sequence
            &&& signed.input[i].script_sig == match claims[i] {
                Some(ClaimLocation::Script(script)) => script@,
                _ => tx.input[i].script_sig,
            }
            &&& signed.input[i].witness == match claims[i] {
                Some(ClaimLocation::Witness(witness)) => outside::witness_items(witness),
                _ => tx.input[i].witness,
            }
        }),
{
}

/// A signed builder differs from the unsigned one in its transaction alone, and
/// there in the scripts and witnesses of the inputs alone; an input that is not
/// signed is left as it was.
pub proof fn law_signing_changes_only_claims(
    state: BuilderState,
    answers: spec_fn(TxInput, Seq<u8>, Result<ClaimLocation>) -> bool,
    signed: TransactionBuilder,
)
    requires
        crate::builder::signing_outcome(state, answers, Ok(signed)),
    ensures
        signed@.version == state.version,
        signed@.lock_time == state.lock_time,
        signed@.inputs == state.inputs,
        signed@.outputs == state.outputs,
        signed@.contains_taproot == state.contains_taproot,
        state.transaction is Some,
        signed@.transaction is Some,
        ({
            let before = state.transaction->Some_0;
            let after = signed@.transaction->Some_0;
            &&& after.version == before.version
            &&& after.lock_time == before.lock_time
            &&& after.output == before.output
            &&& after.input.len() == before.input.len()
            &&& forall|i: int|
                0 <= i < before.input.len() ==> {
                    &&& (#[trigger] after.input[i]).previous_output
                        == before.input[i].previous_output
                    &&& after.input[i].sequence == before.input[i].sequence
                    &&& !state.is_signed(i) ==> after.input[i] == before.input[i]
                }
        }),
{
    let before = state.transaction->Some_0;
    let claims = choose|claims: Seq<Option<ClaimLocation>>|
        {
            &&& #[trigger] crate::builder::claims_made(state, answers, claims)
            &&& signed@ == (BuilderState {
                transaction: Some(crate::builder::with_claims(before, claims)),
                ..state
            })
        };
    let after = signed@.transaction->Some_0;
    assert forall|i: int| 0 <= i < before.input.len() implies {
        &&& (#[trigger] after.input[i]).previous_output == before.input[i].previous_output
        &&& after.input[i].sequence == before.input[i].sequence
        &&& !state.is_signed(i) ==> after.input[i] == before.input[i]
    } by {
        if i < claims.len() {
            assert(claims[i] is Some ==> state.is_signed(i));
        }
    }
}

/// The script of an input that spends a public key hash's output is a claim that
/// the signer made for the input's hash, and its witness is left as it was. With
/// a taproot output it is the witness that is the claim, and the script that is
/// left as it was.
pub proof fn law_signer_claims_go_to_their_place<S: TransactionSigner>(
    state: BuilderState,
    signer: &S,
    signed: TransactionBuilder,
    i: int,
)
    requires
        crate::builder::signing_outcome(
            state,
            |input: TxInput, message: Seq<u8>, answer: Result<ClaimLocation>|
                crate::builder::signer_answers(signer, input, message, answer),
            Ok(signed),
        ),
        state.is_signed(i),
        i < state.transaction->Some_0.input.len(),
    ensures
        ({
            let before = state.transaction->Some_0.input[i];
            let after = signed@.transaction->Some_0.input[i];
            match state.inputs[i] {
                TxInput::P2PKH(_) => {
                    &&& after.witness == before.witness
                    &&& exists|script: Vec<u8>|
                        script@ == after.script_sig && #[trigger] crate::builder::signer_answers(
                            signer,
                            state.inputs[i],
                            state.message(i),
                            Ok(ClaimLocation::Script(script)),
                        )
                },
                _ => {
                    &&& after.script_sig == before.script_sig
                    &&& exists|witness: Witness|
                        outside::witness_items(witness) == after.witness
                            && #[trigger] crate::builder::signer_answers(
                            signer,
                            state.inputs[i],
                            state.message(i),
                            Ok(ClaimLocation::Witness(witness)),
                        )
                },
            }
        }),
{
    let answers = |input: TxInput, message: Seq<u8>, answer: Result<ClaimLocation>|
        crate::builder::signer_answers(signer, input, message, answer);
    let before = state.transaction->Some_0;
    let claims = choose|claims: Seq<Option<ClaimLocation>>|
        {
            &&& #[trigger] crate::builder::claims_made(state, answers, claims)
            &&& signed@ == (BuilderState {
                transaction: Some(crate::builder::with_claims(before, claims)),
                ..state
            })
        };
    assert(claims[i] is Some);
    assert(answers(state.inputs[i], state.message(i), Ok(claims[i]->Some_0)));
    match claims[i]->Some_0 {
        ClaimLocation::Script(script) => {
            assert(crate::builder::signer_answers(
                signer,
                state.inputs[i],
                state.message(i),
                Ok(ClaimLocation::Script(script)),
            ));
        },
        ClaimLocation::Witness(witness) => {
            assert(crate::builder::signer_answers(
                signer,
                state.inputs[i],
                state.message(i),
                Ok(ClaimLocation::Witness(witness)),
            ));
        },
    }
}

/// The claims in a transaction do not enter into the hashes that are signed: a
/// signed builder has the same ones as the unsigned.
pub proof fn law_claims_do_not_enter_hashes(
    state: BuilderState,
    answers: spec_fn(TxInput, Seq<u8>, Result<ClaimLocation>) -> bool,
    signed: TransactionBuilder,
    i: int,
)
    requires
        crate::builder::signing_outcome(state, answers, Ok(signed)),
        state.is_signed(i),
    ensures
        signed@.is_signed(i),
        signed@.has_message(i) == state.has_message(i),
        signed@.message(i) == state.message(i),
{
    law_signing_changes_only_claims(state, answers, signed);
    assert(transaction::without_claims(signed@.transaction->Some_0).input
        =~= transaction::without_claims(state.transaction->Some_0).input);
}

/// Signing again, with answers that depend on the input and the hash alone,
/// succeeds and changes nothing.
pub proof fn law_signing_again(
    state: BuilderState,
    answers: spec_fn(TxInput, Seq<u8>, Result<ClaimLocation>) -> bool,
    once: TransactionBuilder,
    r: Result<TransactionBuilder>,
)
    requires
        crate::builder::answers_alike(answers),
        crate::builder::signing_outcome(state, answers, Ok(once)),
        crate::builder::signing_outcome(once@, answers, r),
    ensures
        r is Ok,
        r->Ok_0@ == once@,
{
    let before = state.transaction->Some_0;
    let first = choose|claims: Seq<Option<ClaimLocation>>|
        {
            &&& #[trigger] crate::builder::claims_made(state, answers, claims)
            &&& once@ == (BuilderState {
                transaction: Some(crate::builder::with_claims(before, claims)),
                ..state
            })
        };
    let after = crate::builder::with_claims(before, first);
    assert forall|i: int| #[trigger] once@.is_signed(i) implies once@.has_message(i) && answers(
        once@.inputs[i],
        once@.message(i),
        Ok(first[i]->Some_0),
    ) by {
        assert(state.is_signed(i));
        assert(first[i] is Some);
        law_claims_do_not_enter_hashes(state, answers, once, i);
    }
    assert(once@.can_be_signed());
    if r is Err {
        let i = choose|i: int| #[trigger]
            crate::builder::refuses(once@, answers, i, r->Err_0);
        assert(once@.is_signed(i));
        assert(crate::builder::same_answer(Ok(first[i]->Some_0), Err(r->Err_0)));
    }
    let second = choose|claims: Seq<Option<ClaimLocation>>|
        {
            &&& #[trigger] crate::builder::claims_made(once@, answers, claims)
            &&& r->Ok_0@ == (BuilderState {
                transaction: Some(crate::builder::with_claims(after, claims)),
                ..once@
            })
        };
    assert forall|i: int| 0 <= i < after.input.len() implies crate::builder::with_claims(
        after,
        second,
    ).input[i] == #[trigger] after.input[i] by {
        if i < second.len() && second[i] is Some {
            assert(once@.is_signed(i));
            assert(crate::builder::same_answer(Ok(first[i]->Some_0), Ok(second[i]->Some_0)));
        }
    }
    assert(crate::builder::with_claims(after, second).input =~= after.input);
}

/// A transaction whose inputs spend no taproot output, and bring no witness, is
/// signed without a witness.
pub proof fn law_legacy_transaction_has_no_witness<S: TransactionSigner>(
    state: BuilderState,
    signer: &S,
    signed: TransactionBuilder,
)
    requires
        crate::builder::signing_outcome(
            state,
            |input: TxInput, message: Seq<u8>, answer: Result<ClaimLocation>|
                crate::builder::signer_answers(signer, input, message, answer),
            Ok(signed),
        ),
        state.transaction == Some(state.unsigned_transaction()),
        state.inputs.len() > 0,
        forall|i: int|
            0 <= i < state.inputs.len() ==> {
                &&& !(#[trigger] state.inputs[i] is P2TRKeySpend)
                &&& input::input_context(state.inputs[i])@.witness.len() == 0
            },
    ensures
        signed@.transaction is Some,
        !transaction::has_witness_section(signed@.transaction->Some_0),
{
    law_signing_changes_only_claims(
        state,
        |input: TxInput, message: Seq<u8>, answer: Result<ClaimLocation>|
            crate::builder::signer_answers(signer, input, message, answer),
        signed,
    );
    let before = state.transaction->Some_0;
    let after = signed@.transaction->Some_0;
    assert forall|i: int| 0 <= i < after.input.len() implies (#[trigger] after.input[i]).witness.len()
        == 0 by {
        assert(!(state.inputs[i] is P2TRKeySpend));
        assert(before.input[i].witness.len() == 0);
        if state.is_signed(i) {
            law_signer_claims_go_to_their_place(state, signer, signed, i);
        }
    }
}

/// Where no input is to be signed, signing succeeds and changes nothing.
pub proof fn law_nothing_to_sign(
    state: BuilderState,
    answers: spec_fn(TxInput, Seq<u8>, Result<ClaimLocation>) -> bool,
    r: Result<TransactionBuilder>,
)
    requires
        crate::builder::signing_outcome(state, answers, r),
        !state.lacks_value(),
        forall|i: int| !#[trigger] state.is_signed(i),
    ensures
        r is Ok,
        r->Ok_0@ == state,
{
    assert(state.can_be_signed());
    if r is Err {
        assert(false) by {
            let i = choose|i: int| #[trigger] crate::builder::refuses(state, answers, i, r->Err_0);
            assert(state.is_signed(i));
        }
    }
    let before = state.transaction->Some_0;
    let claims = choose|claims: Seq<Option<ClaimLocation>>|
        {
            &&& #[trigger] crate::builder::claims_made(state, answers, claims)
            &&& r->Ok_0@ == (BuilderState {
                transaction: Some(crate::builder::with_claims(before, claims)),
                ..state
            })
        };
    assert forall|i: int| 0 <= i < claims.len() implies #[trigger] claims[i] is None by {
        assert(!state.is_signed(i));
    }
    assert(crate::builder::with_claims(before, claims).input =~= before.input);
}

/// Where the value of a spent output is missing that a taproot signature
/// commits to, or an input was added after the transaction was prepared,
/// signing fails.
pub proof fn law_what_is_missing_is_refused(
    state: BuilderState,
    answers: spec_fn(TxInput, Seq<u8>, Result<ClaimLocation>) -> bool,
    r: Result<TransactionBuilder>,
    i: int,
)
    requires
        crate::builder::signing_outcome(state, answers, r),
        state.wf(),
        ({
            ||| state.lacks_value()
            ||| state.is_signed(i) && state.transaction is Some
                && state.transaction->Some_0.input.len() <= i
        }),
    ensures
        r is Err,
{
    if !state.lacks_value() {
        if state.inputs[i] is P2TRKeySpend {
            assert(state.contains_taproot);
            assert(state.prevouts().len() == state.inputs.len());
        }
        assert(!state.has_message(i));
    }
}

} // verus!
