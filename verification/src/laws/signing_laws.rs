//! What a signer is asked to sign, and what becomes of its answers.

use vstd::prelude::*;

use bitcoin::Witness;

use crate::builder::{BuilderState, TransactionBuilder};
use crate::claim::{ClaimLocation, ClaimP2PKH, ClaimP2TRKeyPath, TransactionSigner};
use crate::error::{Error, Result};
use crate::hash::Message;
use crate::input::{InputContext, TxInput, TxInputP2PKH, TxInputP2TRKeySpend};
use crate::laws::building_laws;
use crate::outside;
use crate::transaction::{self, TransactionView, TxOutView};

verus! {

/// Whether `bare` is a transaction with all scripts and witnesses of its inputs
/// taken out, and nothing else changed.
pub open spec fn is_bare(bare: TransactionView, tx: TransactionView) -> bool {
    &&& bare.version == tx.version
    &&& bare.lock_time == tx.lock_time
    &&& bare.output == tx.output
    &&& bare.input.len() == tx.input.len()
    &&& forall|i: int|
        0 <= i < tx.input.len() ==> {
            &&& (#[trigger] bare.input[i]).previous_output == tx.input[i].previous_output
            &&& bare.input[i].sequence == tx.input[i].sequence
            &&& bare.input[i].script_sig.len() == 0
            &&& bare.input[i].witness.len() == 0
        }
}

/// Whether `spent` lists what the inputs spend: one output per input, in order,
/// with the value and the script of the input's context.
pub open spec fn is_spent(spent: Seq<TxOutView>, inputs: Seq<TxInput>) -> bool {
    &&& spent.len() == inputs.len()
    &&& forall|i: int, ctx: InputContext|
        0 <= i < inputs.len() && #[trigger] building_laws::is_context_of(ctx, inputs[i]) ==> {
            &&& ctx.value == Some(spent[i].value)
            &&& ctx.script_pubkey@ == spent[i].script_pubkey
        }
}

/// There is one bare form of a transaction.
pub proof fn law_bare_form_is_unique(a: TransactionView, b: TransactionView, tx: TransactionView)
    requires
        is_bare(a, tx),
        is_bare(b, tx),
    ensures
        a == b,
{
    assert forall|i: int| 0 <= i < a.input.len() implies a.input[i] == b.input[i] by {
        assert(a.input[i].previous_output == b.input[i].previous_output);
        assert(a.input[i].script_sig =~= b.input[i].script_sig);
        assert(a.input[i].witness =~= b.input[i].witness);
    }
    assert(a.input =~= b.input);
}

/// There is one list of what inputs spend.
pub proof fn law_spent_outputs_are_unique(
    a: Seq<TxOutView>,
    b: Seq<TxOutView>,
    inputs: Seq<TxInput>,
)
    requires
        is_spent(a, inputs),
        is_spent(b, inputs),
    ensures
        a == b,
{
    assert forall|i: int| 0 <= i < a.len() implies a[i] == b[i] by {
        let ctx = crate::input::input_context(inputs[i]);
        assert(building_laws::is_context_of(ctx, inputs[i]));
    }
    assert(a =~= b);
}

/// With a taproot input and all values known, the outputs that taproot hashes
/// commit to are one per input, in order, each with exactly the value and the
/// script of the input's context.
pub proof fn law_prevouts_are_what_is_spent(state: BuilderState)
    requires
        state.contains_taproot,
        !state.lacks_value(),
    ensures
        state.prevouts().len() == state.inputs.len(),
        forall|i: int, ctx: InputContext|
            0 <= i < state.inputs.len() && #[trigger] building_laws::is_context_of(
                ctx,
                state.inputs[i],
            ) ==> {
                &&& ctx.value == Some(state.prevouts()[i].value)
                &&& ctx.script_pubkey@ == state.prevouts()[i].script_pubkey
            },
        is_spent(state.prevouts(), state.inputs),
{
    assert forall|i: int, ctx: InputContext|
        0 <= i < state.inputs.len() && #[trigger] building_laws::is_context_of(
            ctx,
            state.inputs[i],
        ) implies {
        &&& ctx.value == Some(state.prevouts()[i].value)
        &&& ctx.script_pubkey@ == state.prevouts()[i].script_pubkey
    } by {
        assert(crate::input::input_context(state.inputs[i]) == ctx);
        assert(ctx.value is Some);
    }
}

/// A value is lacking exactly where there is a taproot input and an input whose
/// context has none.
pub proof fn law_when_a_value_is_lacking(state: BuilderState)
    requires
        state.wf(),
    ensures
        state.lacks_value() <==> {
            &&& exists|i: int|
                0 <= i < state.inputs.len() && #[trigger] state.inputs[i] is P2TRKeySpend
            &&& exists|i: int, ctx: InputContext|
                0 <= i < state.inputs.len() && #[trigger] building_laws::is_context_of(
                    ctx,
                    state.inputs[i],
                ) && ctx.value is None
        },
{
    if state.lacks_value() {
        let i = choose|i: int|
            0 <= i < state.inputs.len() && crate::input::input_context(
                #[trigger] state.inputs[i],
            ).value is None;
        let ctx = crate::input::input_context(state.inputs[i]);
        assert(building_laws::is_context_of(ctx, state.inputs[i]));
    }
    if exists|i: int, ctx: InputContext|
        0 <= i < state.inputs.len() && #[trigger] building_laws::is_context_of(
            ctx,
            state.inputs[i],
        ) && ctx.value is None {
        let (i, ctx) = choose|i: int, ctx: InputContext|
            0 <= i < state.inputs.len() && #[trigger] building_laws::is_context_of(
                ctx,
                state.inputs[i],
            ) && ctx.value is None;
        assert(crate::input::input_context(state.inputs[i]) == ctx);
    }
}

/// The hash to be signed: for a public key hash's output the legacy hash of the
/// bare transaction, at the input's number, with the script of the input's
/// context; for a taproot output the taproot hash of the bare transaction, at the
/// input's number, with what all inputs spend. Both sign all inputs and outputs.
pub proof fn law_hash_to_be_signed(
    state: BuilderState,
    bare: TransactionView,
    spent: Seq<TxOutView>,
    i: int,
)
    requires
        state.wf(),
        !state.lacks_value(),
        state.transaction is Some,
        is_bare(bare, state.transaction->Some_0),
        state.contains_taproot ==> is_spent(spent, state.inputs),
        0 <= i < state.inputs.len(),
    ensures
        state.inputs[i] matches TxInput::P2PKH(t) ==> state.message(i) == outside::legacy_sighash(
            bare,
            i,
            t.ctx.script_pubkey@,
            1,
        ),
        state.inputs[i] is P2TRKeySpend ==> state.message(i) == outside::taproot_sighash(
            bare,
            i,
            spent,
            1,
        ),
        state.is_signed(i) <==> !(state.inputs[i] is NonStandard),
{
    let tx = state.transaction->Some_0;
    assert(is_bare(transaction::without_claims(tx), tx));
    law_bare_form_is_unique(bare, transaction::without_claims(tx), tx);
    if state.contains_taproot {
        law_prevouts_are_what_is_spent(state);
        law_spent_outputs_are_unique(spent, state.prevouts(), state.inputs);
    }
}

/// What signing with a function puts into each input: for a public key hash's
/// output a claim that the function made for the legacy hash, for a taproot
/// output one that it made for the taproot hash, each in its place; nothing for
/// any other output.
pub proof fn law_signed_input<F>(
    b: TransactionBuilder,
    signer: F,
    signed: TransactionBuilder,
    bare: TransactionView,
    spent: Seq<TxOutView>,
    i: int,
) -> (answer: (Message, ClaimLocation)) where F: Fn(&TxInput, Message) -> Result<ClaimLocation>
    requires
        call_ensures(TransactionBuilder::sign_inputs_fn::<F>, (b, signer), Ok(signed)),
        b@.wf(),
        is_bare(bare, b@.transaction->Some_0),
        b@.contains_taproot ==> is_spent(spent, b@.inputs),
        0 <= i < b@.inputs.len(),
    ensures
        b@.transaction is Some,
        signed@.transaction is Some,
        ({
            let (m, claim) = answer;
            let input = b@.inputs[i];
            let before = b@.transaction->Some_0.input[i];
            let after = signed@.transaction->Some_0.input[i];
            let made = i < b@.transaction->Some_0.input.len() && call_ensures(
                signer,
                (&input, m),
                Ok(claim),
            ) && after.script_sig == match claim {
                ClaimLocation::Script(script) => script@,
                ClaimLocation::Witness(_) => before.script_sig,
            } && after.witness == match claim {
                ClaimLocation::Script(_) => before.witness,
                ClaimLocation::Witness(witness) => outside::witness_items(witness),
            };
            match input {
                TxInput::P2PKH(t) => made && m@ == outside::legacy_sighash(
                    bare,
                    i,
                    t.ctx.script_pubkey@,
                    1,
                ),
                TxInput::P2TRKeySpend(_) => made && m@ == outside::taproot_sighash(
                    bare,
                    i,
                    spent,
                    1,
                ),
                TxInput::NonStandard { .. } => i < b@.transaction->Some_0.input.len() ==> after
                    == before,
            }
        }),
{
    let state = b@;
    let answers = |input: TxInput, message: Seq<u8>, answer: Result<ClaimLocation>|
        crate::builder::function_answers(signer, input, message, answer);
    assert(crate::builder::signing_outcome(state, answers, Ok(signed)));
    let tx = state.transaction->Some_0;
    let claims = choose|claims: Seq<Option<ClaimLocation>>|
        {
            &&& #[trigger] crate::builder::claims_made(state, answers, claims)
            &&& signed@ == (BuilderState {
                transaction: Some(crate::builder::with_claims(tx, claims)),
                ..state
            })
        };
    law_hash_to_be_signed(state, bare, spent, i);
    if state.is_signed(i) {
        assert(state.has_message(i));
        assert(claims[i] is Some);
        let claim = claims[i]->Some_0;
        assert(answers(state.inputs[i], state.message(i), Ok(claim)));
        if state.inputs[i] is P2TRKeySpend {
            assert(state.contains_taproot);
        }
        let m = choose|m: Message|
            m@ == state.message(i) && #[trigger] call_ensures(
                signer,
                (&state.inputs[i], m),
                Ok(claim),
            );
        (m, claim)
    } else {
        assert(claims[i] is None);
        (arbitrary(), arbitrary())
    }
}

/// Signing with a function changes nothing but the scripts and witnesses in the
/// transaction's inputs.
pub proof fn law_signing_keeps_the_rest<F>(
    b: TransactionBuilder,
    signer: F,
    signed: TransactionBuilder,
) where F: Fn(&TxInput, Message) -> Result<ClaimLocation>
    requires
        call_ensures(TransactionBuilder::sign_inputs_fn::<F>, (b, signer), Ok(signed)),
    ensures
        signed@.version == b@.version,
        signed@.lock_time == b@.lock_time,
        signed@.inputs == b@.inputs,
        signed@.outputs == b@.outputs,
        signed@.contains_taproot == b@.contains_taproot,
        b@.transaction is Some,
        signed@.transaction is Some,
        ({
            let before = b@.transaction->Some_0;
            let after = signed@.transaction->Some_0;
            &&& after.version == before.version
            &&& after.lock_time == before.lock_time
            &&& after.output == before.output
            &&& after.input.len() == before.input.len()
            &&& forall|i: int|
                0 <= i < before.input.len() ==> {
                    &&& (#[trigger] after.input[i]).previous_output
                        == before.input[i].previous_output
                    &&& after.input[i].sequence == before.input[i].sequence
                }
        }),
{
    let answers = |input: TxInput, message: Seq<u8>, answer: Result<ClaimLocation>|
        crate::builder::function_answers(signer, input, message, answer);
    crate::laws::law_signing_changes_only_claims(b@, answers, signed);
}

/// Signing with a function succeeds where every input is prepared, the values
/// are known that taproot hashes commit to, and the function refuses no input.
pub proof fn law_signing_succeeds<F>(
    b: TransactionBuilder,
    signer: F,
    r: Result<TransactionBuilder>,
    spent: Seq<TxOutView>,
) where F: Fn(&TxInput, Message) -> Result<ClaimLocation>
    requires
        call_ensures(TransactionBuilder::sign_inputs_fn::<F>, (b, signer), r),
        b@.wf(),
        b@.transaction is Some,
        b@.transaction->Some_0.input.len() == b@.inputs.len(),
        (exists|i: int| 0 <= i < b@.inputs.len() && #[trigger] b@.inputs[i] is P2TRKeySpend)
            ==> is_spent(spent, b@.inputs),
        forall|i: int, m: Message, e: Error|
            0 <= i < b@.inputs.len() && !(b@.inputs[i] is NonStandard) ==> !#[trigger] call_ensures(
                signer,
                (&b@.inputs[i], m),
                Err(e),
            ),
    ensures
        r is Ok,
{
    let state = b@;
    let answers = |input: TxInput, message: Seq<u8>, answer: Result<ClaimLocation>|
        crate::builder::function_answers(signer, input, message, answer);
    assert(crate::builder::signing_outcome(state, answers, r));
    law_when_a_value_is_lacking(state);
    if state.lacks_value() {
        let (i, ctx) = choose|i: int, ctx: InputContext|
            0 <= i < state.inputs.len() && #[trigger] building_laws::is_context_of(
                ctx,
                state.inputs[i],
            ) && ctx.value is None;
        assert(is_spent(spent, b@.inputs));
        assert(false);
    }
    assert(state.can_be_signed()) by {
        assert forall|i: int| #[trigger] state.is_signed(i) implies state.has_message(i) by {
            if state.inputs[i] is P2TRKeySpend {
                assert(state.contains_taproot);
                law_prevouts_are_what_is_spent(state);
            }
        }
    }
    if let Err(e) = r {
        let i = choose|i: int| #[trigger] crate::builder::refuses(state, answers, i, e);
        assert(answers(state.inputs[i], state.message(i), Err(e)));
        assert(false);
    }
}

/// Signing with a function fails where a value is missing that a taproot hash
/// commits to, where an input that is signed is not in the transaction, and where
/// there is a taproot input and any input is not in the transaction.
pub proof fn law_signing_fails<F>(
    b: TransactionBuilder,
    signer: F,
    r: Result<TransactionBuilder>,
) where F: Fn(&TxInput, Message) -> Result<ClaimLocation>
    requires
        call_ensures(TransactionBuilder::sign_inputs_fn::<F>, (b, signer), r),
        b@.wf(),
        ({
            ||| {
                &&& exists|i: int|
                    0 <= i < b@.inputs.len() && #[trigger] b@.inputs[i] is P2TRKeySpend
                &&& exists|i: int, ctx: InputContext|
                    0 <= i < b@.inputs.len() && #[trigger] building_laws::is_context_of(
                        ctx,
                        b@.inputs[i],
                    ) && ctx.value is None
            }
            ||| b@.transaction is Some && exists|i: int|
                b@.transaction->Some_0.input.len() <= i < b@.inputs.len() && !(
                #[trigger] b@.inputs[i] is NonStandard)
            ||| b@.transaction is Some && b@.transaction->Some_0.input.len() != b@.inputs.len()
                && exists|i: int|
                0 <= i < b@.inputs.len() && #[trigger] b@.inputs[i] is P2TRKeySpend
        }),
    ensures
        r is Err,
        r->Err_0 == Error::Todo,
{
    let state = b@;
    let answers = |input: TxInput, message: Seq<u8>, answer: Result<ClaimLocation>|
        crate::builder::function_answers(signer, input, message, answer);
    assert(crate::builder::signing_outcome(state, answers, r));
    law_when_a_value_is_lacking(state);
    if !state.lacks_value() {
        if exists|i: int|
            b@.transaction->Some_0.input.len() <= i < b@.inputs.len() && !(
            #[trigger] b@.inputs[i] is NonStandard) {
            let i = choose|i: int|
                b@.transaction->Some_0.input.len() <= i < b@.inputs.len() && !(
                #[trigger] b@.inputs[i] is NonStandard);
            crate::laws::law_what_is_missing_is_refused(state, answers, r, i);
        } else {
            let i = choose|i: int|
                0 <= i < b@.inputs.len() && #[trigger] b@.inputs[i] is P2TRKeySpend;
            assert(state.contains_taproot);
            law_prevouts_are_what_is_spent(state);
            assert(state.is_signed(i) && !state.has_message(i));
        }
    }
    assert(r->Err_0 == Error::Todo) by {
        match r->Err_0 {
            Error::Todo => {},
        }
    }
}

/// Where every input is prepared and the values are known that taproot hashes
/// commit to, signing with a function fails only with the error with which the
/// function refused an input, asked for the hash that is to be signed.
pub proof fn law_why_signing_fails<F>(
    b: TransactionBuilder,
    signer: F,
    e: Error,
    bare: TransactionView,
    spent: Seq<TxOutView>,
) -> (refused: (int, Message)) where F: Fn(&TxInput, Message) -> Result<ClaimLocation>
    requires
        call_ensures(TransactionBuilder::sign_inputs_fn::<F>, (b, signer), Err(e)),
        b@.wf(),
        b@.transaction is Some,
        is_bare(bare, b@.transaction->Some_0),
        b@.transaction->Some_0.input.len() == b@.inputs.len(),
        b@.contains_taproot ==> is_spent(spent, b@.inputs),
    ensures
        ({
            let (i, m) = refused;
            &&& 0 <= i < b@.inputs.len()
            &&& call_ensures(signer, (&b@.inputs[i], m), Err(e))
            &&& match b@.inputs[i] {
                TxInput::P2PKH(t) => m@ == outside::legacy_sighash(
                    bare,
                    i,
                    t.ctx.script_pubkey@,
                    1,
                ),
                TxInput::P2TRKeySpend(_) => m@ == outside::taproot_sighash(bare, i, spent, 1),
                TxInput::NonStandard { .. } => false,
            }
        }),
{
    let state = b@;
    let r = Err::<TransactionBuilder, Error>(e);
    let answers = |input: TxInput, message: Seq<u8>, answer: Result<ClaimLocation>|
        crate::builder::function_answers(signer, input, message, answer);
    assert(crate::builder::signing_outcome(state, answers, r));
    law_when_a_value_is_lacking(state);
    if state.lacks_value() {
        let (i, ctx) = choose|i: int, ctx: InputContext|
            0 <= i < state.inputs.len() && #[trigger] building_laws::is_context_of(
                ctx,
                state.inputs[i],
            ) && ctx.value is None;
        assert(is_spent(spent, b@.inputs));
        assert(false);
    }
    assert(state.can_be_signed()) by {
        assert forall|i: int| #[trigger] state.is_signed(i) implies state.has_message(i) by {
            if state.inputs[i] is P2TRKeySpend {
                assert(state.contains_taproot);
                law_prevouts_are_what_is_spent(state);
            }
        }
    }
    let i = choose|i: int| #[trigger] crate::builder::refuses(state, answers, i, e);
    law_hash_to_be_signed(state, bare, spent, i);
    assert(answers(state.inputs[i], state.message(i), Err(e)));
    let m = choose|m: Message|
        m@ == state.message(i) && #[trigger] call_ensures(signer, (&state.inputs[i], m), Err(e));
    (i, m)
}

/// What a signer may answer for an input: for a public key hash's output its
/// claim for one, as a script, and for a taproot output its claim for one, as a
/// witness, or the error with which it refuses; each asked without a hash type.
pub proof fn law_signer_is_asked_by_kind<S: TransactionSigner>(
    signer: &S,
    p2pkh: TxInputP2PKH,
    taproot: TxInputP2TRKeySpend,
    other: InputContext,
    message: Seq<u8>,
    answer: Result<ClaimLocation>,
)
    ensures
        crate::builder::signer_answers(signer, TxInput::P2PKH(p2pkh), message, answer) <==> {
            exists|m: Message|
                m@ == message && #[trigger] asked_for_p2pkh(signer, &p2pkh, m, answer)
        },
        crate::builder::signer_answers(signer, TxInput::P2TRKeySpend(taproot), message, answer)
            <==> {
            exists|m: Message|
                m@ == message && #[trigger] asked_for_key_spend(signer, &taproot, m, answer)
        },
        !crate::builder::signer_answers(
            signer,
            TxInput::NonStandard { ctx: other },
            message,
            answer,
        ),
{
    let p = TxInput::P2PKH(p2pkh);
    let t = TxInput::P2TRKeySpend(taproot);
    assert forall|m: Message|
        crate::builder::signer_answers_message(signer, p, m, answer) == #[trigger] asked_for_p2pkh(
            signer,
            &p2pkh,
            m,
            answer,
        ) by {}
    assert forall|m: Message|
        crate::builder::signer_answers_message(signer, t, m, answer)
            == #[trigger] asked_for_key_spend(signer, &taproot, m, answer) by {}
    if crate::builder::signer_answers(signer, p, message, answer) {
        let m = choose|m: Message|
            m@ == message && #[trigger] crate::builder::signer_answers_message(
                signer,
                p,
                m,
                answer,
            );
        assert(asked_for_p2pkh(signer, &p2pkh, m, answer));
    }
    if crate::builder::signer_answers(signer, t, message, answer) {
        let m = choose|m: Message|
            m@ == message && #[trigger] crate::builder::signer_answers_message(
                signer,
                t,
                m,
                answer,
            );
        assert(asked_for_key_spend(signer, &taproot, m, answer));
    }
}

/// Whether asking a signer to claim a public key hash's output may give an
/// answer.
pub open spec fn asked_for_p2pkh<S: TransactionSigner>(
    signer: &S,
    input: &TxInputP2PKH,
    m: Message,
    answer: Result<ClaimLocation>,
) -> bool {
    match answer {
        Ok(claim) => claim is Script && call_ensures(
            S::claim_p2pkh,
            (signer, input, m, None::<u32>),
            Ok(ClaimP2PKH(claim->Script_0)),
        ),
        Err(e) => call_ensures(S::claim_p2pkh, (signer, input, m, None::<u32>), Err(e)),
    }
}

/// Whether asking a signer to claim a taproot output by its key may give an
/// answer.
pub open spec fn asked_for_key_spend<S: TransactionSigner>(
    signer: &S,
    input: &TxInputP2TRKeySpend,
    m: Message,
    answer: Result<ClaimLocation>,
) -> bool {
    match answer {
        Ok(claim) => claim is Witness && call_ensures(
            S::claim_p2tr_key_spend,
            (signer, input, m, None::<u8>),
            Ok(ClaimP2TRKeyPath(claim->Witness_0)),
        ),
        Err(e) => call_ensures(S::claim_p2tr_key_spend, (signer, input, m, None::<u8>), Err(e)),
    }
}

/// What signing with a signer puts into each input. For a public key hash's
/// output it is a script that the signer claimed it with, given the input, the
/// legacy hash and no hash type, and the witness is left. For a taproot output it
/// is a witness that the signer claimed it with, given the input, the taproot
/// hash and no hash type, and the script is left. Any other input is left.
pub proof fn law_signers_claim_is_put_in<S: TransactionSigner>(
    b: TransactionBuilder,
    signer: S,
    signed: TransactionBuilder,
    bare: TransactionView,
    spent: Seq<TxOutView>,
    i: int,
) -> (answer: (Message, Vec<u8>, Witness))
    requires
        call_ensures(TransactionBuilder::sign_inputs::<S>, (b, signer), Ok(signed)),
        b@.wf(),
        is_bare(bare, b@.transaction->Some_0),
        b@.contains_taproot ==> is_spent(spent, b@.inputs),
        0 <= i < b@.inputs.len(),
    ensures
        b@.transaction is Some,
        signed@.transaction is Some,
        ({
            let (m, script, witness) = answer;
            let before = b@.transaction->Some_0.input[i];
            let after = signed@.transaction->Some_0.input[i];
            match b@.inputs[i] {
                TxInput::P2PKH(t) => {
                    &&& i < b@.transaction->Some_0.input.len()
                    &&& m@ == outside::legacy_sighash(bare, i, t.ctx.script_pubkey@, 1)
                    &&& call_ensures(
                        S::claim_p2pkh,
                        (&signer, &t, m, None::<u32>),
                        Ok(ClaimP2PKH(script)),
                    )
                    &&& after.script_sig == script@
                    &&& after.witness == before.witness
                },
                TxInput::P2TRKeySpend(t) => {
                    &&& i < b@.transaction->Some_0.input.len()
                    &&& m@ == outside::taproot_sighash(bare, i, spent, 1)
                    &&& call_ensures(
                        S::claim_p2tr_key_spend,
                        (&signer, &t, m, None::<u8>),
                        Ok(ClaimP2TRKeyPath(witness)),
                    )
                    &&& after.witness == outside::witness_items(witness)
                    &&& after.script_sig == before.script_sig
                },
                TxInput::NonStandard { .. } => i < b@.transaction->Some_0.input.len() ==> after
                    == before,
            }
        }),
{
    let state = b@;
    let answers = |input: TxInput, message: Seq<u8>, answer: Result<ClaimLocation>|
        crate::builder::signer_answers(&signer, input, message, answer);
    assert(crate::builder::signing_outcome(state, answers, Ok(signed)));
    let tx = state.transaction->Some_0;
    let claims = choose|claims: Seq<Option<ClaimLocation>>|
        {
            &&& #[trigger] crate::builder::claims_made(state, answers, claims)
            &&& signed@ == (BuilderState {
                transaction: Some(crate::builder::with_claims(tx, claims)),
                ..state
            })
        };
    law_hash_to_be_signed(state, bare, spent, i);
    if state.is_signed(i) {
        assert(state.has_message(i));
        assert(claims[i] is Some);
        let claim = claims[i]->Some_0;
        assert(answers(state.inputs[i], state.message(i), Ok(claim)));
        if state.inputs[i] is P2TRKeySpend {
            assert(state.contains_taproot);
        }
        let m = choose|m: Message|
            m@ == state.message(i) && #[trigger] crate::builder::signer_answers_message(
                &signer,
                state.inputs[i],
                m,
                Ok(claim),
            );
        match claim {
            ClaimLocation::Script(script) => (m, script, arbitrary()),
            ClaimLocation::Witness(witness) => (m, arbitrary(), witness),
        }
    } else {
        assert(claims[i] is None);
        (arbitrary(), arbitrary(), arbitrary())
    }
}

/// Signing with a signer changes nothing but the scripts and witnesses in the
/// transaction's inputs.
pub proof fn law_signer_keeps_the_rest<S: TransactionSigner>(
    b: TransactionBuilder,
    signer: S,
    signed: TransactionBuilder,
)
    requires
        call_ensures(TransactionBuilder::sign_inputs::<S>, (b, signer), Ok(signed)),
    ensures
        signed@.version == b@.version,
        signed@.lock_time == b@.lock_time,
        signed@.inputs == b@.inputs,
        signed@.outputs == b@.outputs,
        signed@.contains_taproot == b@.contains_taproot,
        b@.transaction is Some,
        signed@.transaction is Some,
        ({
            let before = b@.transaction->Some_0;
            let after = signed@.transaction->Some_0;
            &&& after.version == before.version
            &&& after.lock_time == before.lock_time
            &&& after.output == before.output
            &&& after.input.len() == before.input.len()
            &&& forall|i: int|
                0 <= i < before.input.len() ==> {
                    &&& (#[trigger] after.input[i]).previous_output
                        == before.input[i].previous_output
                    &&& after.input[i].sequence == before.input[i].sequence
                }
        }),
{
    let answers = |input: TxInput, message: Seq<u8>, answer: Result<ClaimLocation>|
        crate::builder::signer_answers(&signer, input, message, answer);
    crate::laws::law_signing_changes_only_claims(b@, answers, signed);
}

/// Signing with a signer succeeds where every input is prepared, the values are
/// known that taproot hashes commit to, and the signer refuses no input; it fails
/// where such a value or an input that is signed is missing, or any input beside
/// a taproot input.
pub proof fn law_when_a_signer_succeeds<S: TransactionSigner>(
    b: TransactionBuilder,
    signer: S,
    r: Result<TransactionBuilder>,
)
    requires
        call_ensures(TransactionBuilder::sign_inputs::<S>, (b, signer), r),
        b@.wf(),
        b@.transaction is Some,
    ensures
        ({
            let missing_value = {
                &&& exists|i: int|
                    0 <= i < b@.inputs.len() && #[trigger] b@.inputs[i] is P2TRKeySpend
                &&& exists|i: int, ctx: InputContext|
                    0 <= i < b@.inputs.len() && #[trigger] building_laws::is_context_of(
                        ctx,
                        b@.inputs[i],
                    ) && ctx.value is None
            };
            let missing_input = exists|i: int|
                b@.transaction->Some_0.input.len() <= i < b@.inputs.len() && !(
                #[trigger] b@.inputs[i] is NonStandard);
            let missing_any = b@.transaction->Some_0.input.len() != b@.inputs.len()
                && exists|i: int|
                0 <= i < b@.inputs.len() && #[trigger] b@.inputs[i] is P2TRKeySpend;
            let refuses = exists|i: int, m: Message, e: Error|
                0 <= i < b@.inputs.len() && #[trigger] refuses_with(&signer, b@.inputs[i], m, e);
            &&& missing_value || missing_input || missing_any ==> r is Err
            &&& !missing_value && b@.transaction->Some_0.input.len() == b@.inputs.len() && !refuses
                ==> r is Ok
        }),
{
    let state = b@;
    let answers = |input: TxInput, message: Seq<u8>, answer: Result<ClaimLocation>|
        crate::builder::signer_answers(&signer, input, message, answer);
    assert(crate::builder::signing_outcome(state, answers, r));
    law_when_a_value_is_lacking(state);
    if !state.lacks_value() {
        if exists|i: int|
            b@.transaction->Some_0.input.len() <= i < b@.inputs.len() && !(
            #[trigger] b@.inputs[i] is NonStandard) {
            let i = choose|i: int|
                b@.transaction->Some_0.input.len() <= i < b@.inputs.len() && !(
                #[trigger] b@.inputs[i] is NonStandard);
            crate::laws::law_what_is_missing_is_refused(state, answers, r, i);
        }
        if b@.transaction->Some_0.input.len() != b@.inputs.len() && exists|i: int|
            0 <= i < b@.inputs.len() && #[trigger] b@.inputs[i] is P2TRKeySpend {
            let i = choose|i: int|
                0 <= i < b@.inputs.len() && #[trigger] b@.inputs[i] is P2TRKeySpend;
            assert(state.contains_taproot);
            law_prevouts_are_what_is_spent(state);
            assert(state.is_signed(i) && !state.has_message(i));
        }
        if b@.transaction->Some_0.input.len() == b@.inputs.len() && r is Err {
            let e = r->Err_0;
            assert(state.can_be_signed()) by {
                assert forall|i: int| #[trigger] state.is_signed(i) implies state.has_message(
                    i,
                ) by {
                    if state.inputs[i] is P2TRKeySpend {
                        assert(state.contains_taproot);
                        law_prevouts_are_what_is_spent(state);
                    }
                }
            }
            let i = choose|i: int| #[trigger] crate::builder::refuses(state, answers, i, e);
            assert(answers(state.inputs[i], state.message(i), Err(e)));
            let m = choose|m: Message|
                m@ == state.message(i) && #[trigger] crate::builder::signer_answers_message(
                    &signer,
                    state.inputs[i],
                    m,
                    Err(e),
                );
            assert(refuses_with(&signer, b@.inputs[i], m, e));
        }
    }
}

/// Whether a signer may refuse an input with an error.
pub open spec fn refuses_with<S: TransactionSigner>(
    signer: &S,
    input: TxInput,
    m: Message,
    e: Error,
) -> bool {
    match input {
        TxInput::P2PKH(t) => call_ensures(S::claim_p2pkh, (signer, &t, m, None::<u32>), Err(e)),
        TxInput::P2TRKeySpend(t) => call_ensures(
            S::claim_p2tr_key_spend,
            (signer, &t, m, None::<u8>),
            Err(e),
        ),
        TxInput::NonStandard { .. } => false,
    }
}

} // verus!
