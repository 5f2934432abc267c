//! Building a transaction, signing it and serializing it.

use vstd::prelude::*;

use crate::claim::{ClaimLocation, ClaimP2PKH, ClaimP2TRKeyPath, TransactionSigner};
use crate::error::{Error, Result};
use crate::hash::{LegacySighash, Message, TapSighash, TransactionHash};
use crate::input::{self, TxInput};
use crate::output::{self, TxOutput};
use crate::outside;
use crate::transaction::{self, Transaction, TransactionView, TxIn, TxInView, TxOut, TxOutView};

verus! {

/// Sign all inputs and outputs, in a legacy input.
const SIGHASH_ALL: u32 = 1;

/// Sign all inputs and outputs, in a taproot input.
const TAP_SIGHASH_ALL: u8 = 1;

/// A transaction that is being built.
#[derive(Debug)]
pub struct TransactionBuilder {
    version: i32,
    lock_time: u32,
    inputs: Vec<TxInput>,
    outputs: Vec<TxOutput>,
    contains_taproot: bool,
    btc_tx: Option<Transaction>,
}

/// What a [`TransactionBuilder`] holds.
pub struct BuilderState {
    pub version: i32,
    pub lock_time: u32,
    pub inputs: Seq<TxInput>,
    pub outputs: Seq<TxOutput>,
    pub contains_taproot: bool,
    pub transaction: Option<TransactionView>,
}

impl View for TransactionBuilder {
    type V = BuilderState;

    closed spec fn view(&self) -> BuilderState {
        BuilderState {
            version: self.version,
            lock_time: self.lock_time,
            inputs: self.inputs@,
            outputs: self.outputs@,
            contains_taproot: self.contains_taproot,
            transaction: match self.btc_tx {
                Some(tx) => Some(tx@),
                None => None,
            },
        }
    }
}

/// The outputs that the inputs spend, as far as their values are known.
pub open spec fn spent_outputs(inputs: Seq<TxInput>) -> Seq<TxOutView> {
    inputs.map_values(
        |i: TxInput|
            TxOutView {
                value: input::input_context(i).value->Some_0,
                script_pubkey: input::input_context(i).script_pubkey@,
            },
    )
}

/// Whether the value of the output that each input spends is known.
pub open spec fn values_known(inputs: Seq<TxInput>) -> bool {
    forall|i: int|
        0 <= i < inputs.len() ==> input::input_context(#[trigger] inputs[i]).value is Some
}

impl BuilderState {
    /// Whether signing lacks a value: a taproot signature commits to the
    /// values of all outputs that are spent.
    pub open spec fn lacks_value(self) -> bool {
        self.contains_taproot && !values_known(self.inputs)
    }

    /// The spent outputs that taproot signatures commit to.
    pub open spec fn prevouts(self) -> Seq<TxOutView> {
        if self.contains_taproot {
            spent_outputs(self.inputs)
        } else {
            Seq::empty()
        }
    }

    /// Whether an input is to be signed.
    pub open spec fn is_signed(self, i: int) -> bool {
        0 <= i < self.inputs.len() && !(self.inputs[i] is NonStandard)
    }

    /// Whether there is a hash to be signed for an input: the transaction
    /// has the input, and for a taproot input all inputs.
    pub open spec fn has_message(self, i: int) -> bool {
        &&& self.transaction is Some
        &&& match self.inputs[i] {
            TxInput::P2PKH(_) => i < self.transaction->Some_0.input.len(),
            TxInput::P2TRKeySpend(_) => self.prevouts().len()
                == self.transaction->Some_0.input.len(),
            TxInput::NonStandard { .. } => false,
        }
    }

    /// The hash to be signed for an input. The claims that the transaction holds
    /// already do not enter into it.
    pub open spec fn message(self, i: int) -> Seq<u8> {
        match self.inputs[i] {
            TxInput::P2PKH(t) => outside::legacy_sighash(
                transaction::without_claims(self.transaction->Some_0),
                i,
                t.ctx.script_pubkey@,
                1,
            ),
            _ => outside::taproot_sighash(
                transaction::without_claims(self.transaction->Some_0),
                i,
                self.prevouts(),
                1,
            ),
        }
    }

    /// Whether the parts fit together: the flag says whether there is a taproot
    /// input, the lock time is a block height, and a prepared transaction has
    /// been made from the first inputs and outputs.
    pub open spec fn wf(self) -> bool {
        &&& self.contains_taproot <==> exists|i: int|
            0 <= i < self.inputs.len() && #[trigger] self.inputs[i] is P2TRKeySpend
        &&& self.lock_time < 500_000_000
        &&& self.transaction matches Some(tx) ==> self.made_from_parts(tx)
    }

    /// Whether the inputs and outputs of a transaction have been made from the
    /// first inputs and outputs of the builder.
    pub open spec fn made_from_parts(self, tx: TransactionView) -> bool {
        &&& tx.lock_time < 500_000_000
        &&& tx.input.len() <= self.inputs.len()
        &&& forall|i: int|
            0 <= i < tx.input.len() ==> {
                &&& (#[trigger] tx.input[i]).previous_output == input::input_context(
                    self.inputs[i],
                )@.previous_output
                &&& tx.input[i].sequence == input::input_context(self.inputs[i])@.sequence
            }
        &&& tx.output.len() <= self.outputs.len()
        &&& forall|i: int|
            0 <= i < tx.output.len() ==> #[trigger] tx.output[i] == output::paid_output(
                self.outputs[i],
            )
    }

    /// The unsigned transaction.
    pub open spec fn unsigned_transaction(self) -> TransactionView {
        TransactionView {
            version: self.version,
            lock_time: self.lock_time,
            input: self.inputs.map_values(
                |i: TxInput| input::unsigned_input(input::input_context(i)@),
            ),
            output: self.outputs.map_values(|o: TxOutput| output::paid_output(o)),
        }
    }

    /// Whether all is there that signing needs.
    pub open spec fn can_be_signed(self) -> bool {
        &&& !self.lacks_value()
        &&& forall|i: int| #[trigger] self.is_signed(i) ==> self.has_message(i)
    }
}

/// An input with a claim put in.
pub open spec fn with_claim(tx_in: TxInView, claim: Option<ClaimLocation>) -> TxInView {
    match claim {
        Some(ClaimLocation::Script(script)) => TxInView { script_sig: script@, ..tx_in },
        Some(ClaimLocation::Witness(witness)) => TxInView {
            witness: outside::witness_items(witness),
            ..tx_in
        },
        None => tx_in,
    }
}

/// A transaction with the claims put into its inputs.
pub open spec fn with_claims(
    tx: TransactionView,
    claims: Seq<Option<ClaimLocation>>,
) -> TransactionView {
    TransactionView {
        input: Seq::new(
            tx.input.len(),
            |i: int|
                if i < claims.len() {
                    with_claim(tx.input[i], claims[i])
                } else {
                    tx.input[i]
                },
        ),
        ..tx
    }
}

/// Puts claims into the inputs of a transaction, the `i`-th into the `i`-th
/// input.
pub fn attach_claims(tx: Transaction, claims: Vec<Option<ClaimLocation>>) -> (r: Transaction)
    requires
        forall|i: int|
            0 <= i < claims@.len() && #[trigger] claims@[i] is Some ==> i < tx@.input.len(),
    ensures
        r@ == with_claims(tx@, claims@),
{
    let mut tx = tx;
    let mut claims = claims;
    let ghost tx0 = tx@;
    let ghost claims0 = claims@;
    while claims.len() > 0
        invariant
            claims@ == claims0.take(claims@.len() as int),
            claims@.len() <= claims0.len(),
            forall|i: int|
                0 <= i < claims0.len() && #[trigger] claims0[i] is Some ==> i < tx0.input.len(),
            tx@.version == tx0.version,
            tx@.lock_time == tx0.lock_time,
            tx@.output == tx0.output,
            tx@.input.len() == tx0.input.len(),
            forall|i: int|
                0 <= i < tx0.input.len() ==> #[trigger] tx@.input[i] == if claims@.len() <= i
                    < claims0.len() {
                    with_claim(tx0.input[i], claims0[i])
                } else {
                    tx0.input[i]
                },
        decreases claims.len(),
    {
        let ghost before = tx@;
        let claim = claims.pop();
        let index = claims.len();
        assert(claim == Some(claims0[index as int]));
        if let Some(Some(claim)) = claim {
            match claim {
                ClaimLocation::Script(script) => {
                    tx.input[index].script_sig = script;
                },
                ClaimLocation::Witness(witness) => {
                    tx.input[index].witness = witness;
                },
            }
        }
        assert forall|i: int| 0 <= i < tx0.input.len() implies #[trigger] tx@.input[i]
            == if claims@.len() <= i < claims0.len() {
            with_claim(tx0.input[i], claims0[i])
        } else {
            tx0.input[i]
        } by {
            assert(before.input[i] == if claims@.len() + 1 <= i < claims0.len() {
                with_claim(tx0.input[i], claims0[i])
            } else {
                tx0.input[i]
            });
        }
    }
    assert(tx@.input =~= with_claims(tx0, claims0).input);
    tx
}

/// Whether `claims` holds what a signer answered: for each input that is signed,
/// a claim for its hash, and none for the others. `answers` says which answers
/// the signer may give for an input and a hash.
pub open spec fn claims_made(
    state: BuilderState,
    answers: spec_fn(TxInput, Seq<u8>, Result<ClaimLocation>) -> bool,
    claims: Seq<Option<ClaimLocation>>,
) -> bool {
    &&& claims.len() == state.inputs.len()
    &&& forall|i: int|
        0 <= i < claims.len() ==> match #[trigger] claims[i] {
            Some(claim) => state.is_signed(i) && answers(
                state.inputs[i],
                state.message(i),
                Ok(claim),
            ),
            None => !state.is_signed(i),
        }
}

/// Whether the signer refuses an input with an error.
pub open spec fn refuses(
    state: BuilderState,
    answers: spec_fn(TxInput, Seq<u8>, Result<ClaimLocation>) -> bool,
    i: int,
    error: Error,
) -> bool {
    state.is_signed(i) && state.has_message(i) && answers(
        state.inputs[i],
        state.message(i),
        Err(error),
    )
}

/// Whether two answers are the same claim, or the same error.
pub open spec fn same_answer(a: Result<ClaimLocation>, b: Result<ClaimLocation>) -> bool {
    match (a, b) {
        (Ok(a), Ok(b)) => a@ == b@,
        (Err(a), Err(b)) => a == b,
        _ => false,
    }
}

/// Whether the answer depends on the input and the hash alone.
pub open spec fn answers_alike(
    answers: spec_fn(TxInput, Seq<u8>, Result<ClaimLocation>) -> bool,
) -> bool {
    forall|input: TxInput, message: Seq<u8>, a: Result<ClaimLocation>, b: Result<ClaimLocation>|
        #[trigger] answers(input, message, a) && #[trigger] answers(input, message, b)
            ==> same_answer(a, b)
}

/// What signing gives. It succeeds only where all is there that it needs, and
/// then the signer's claims are in the transaction and nothing else changed. It
/// fails only where something is missing, or with the error with which the
/// signer refused an input.
pub open spec fn signing_outcome(
    state: BuilderState,
    answers: spec_fn(TxInput, Seq<u8>, Result<ClaimLocation>) -> bool,
    r: Result<TransactionBuilder>,
) -> bool {
    match r {
        Ok(signed) => {
            &&& state.can_be_signed()
            &&& state.transaction is Some
            &&& exists|claims: Seq<Option<ClaimLocation>>|
                {
                    &&& #[trigger] claims_made(state, answers, claims)
                    &&& signed@ == (BuilderState {
                        transaction: Some(with_claims(state.transaction->Some_0, claims)),
                        ..state
                    })
                }
        },
        Err(error) => {
            ||| !state.can_be_signed() && error == Error::Todo
            ||| exists|i: int| #[trigger] refuses(state, answers, i, error)
        },
    }
}

/// What signing gives under some answers it gives under more answers too.
proof fn lemma_signing_outcome_weakens(
    state: BuilderState,
    fewer: spec_fn(TxInput, Seq<u8>, Result<ClaimLocation>) -> bool,
    more: spec_fn(TxInput, Seq<u8>, Result<ClaimLocation>) -> bool,
    r: Result<TransactionBuilder>,
)
    requires
        signing_outcome(state, fewer, r),
        forall|input: TxInput, message: Seq<u8>, answer: Result<ClaimLocation>| #[trigger]
            fewer(input, message, answer) ==> more(input, message, answer),
    ensures
        signing_outcome(state, more, r),
{
    match r {
        Ok(signed) => {
            let claims = choose|claims: Seq<Option<ClaimLocation>>|
                {
                    &&& #[trigger] claims_made(state, fewer, claims)
                    &&& signed@ == (BuilderState {
                        transaction: Some(with_claims(state.transaction->Some_0, claims)),
                        ..state
                    })
                };
            assert(claims_made(state, more, claims));
        },
        Err(error) => {
            if state.can_be_signed() {
                let i = choose|i: int| #[trigger] refuses(state, fewer, i, error);
                assert(refuses(state, more, i, error));
            }
        },
    }
}

/// Whether a function may give an answer for an input and a hash.
pub open spec fn function_answers<F>(
    signer: F,
    input: TxInput,
    message: Seq<u8>,
    answer: Result<ClaimLocation>,
) -> bool where F: Fn(&TxInput, Message) -> Result<ClaimLocation> {
    exists|m: Message| m@ == message && #[trigger] call_ensures(signer, (&input, m), answer)
}

/// Whether a signer may give an answer for an input and a hash: it makes the
/// claim of the input's kind, and is given no type for the hash.
pub open spec fn signer_answers<S: TransactionSigner>(
    signer: &S,
    input: TxInput,
    message: Seq<u8>,
    answer: Result<ClaimLocation>,
) -> bool {
    exists|m: Message| m@ == message && #[trigger] signer_answers_message(signer, input, m, answer)
}

/// Whether a signer may give an answer for an input and a message.
pub open spec fn signer_answers_message<S: TransactionSigner>(
    signer: &S,
    input: TxInput,
    m: Message,
    answer: Result<ClaimLocation>,
) -> bool {
    match input {
        TxInput::P2PKH(t) => match answer {
            Ok(ClaimLocation::Script(script)) => call_ensures(
                S::claim_p2pkh,
                (signer, &t, m, None::<u32>),
                Ok(ClaimP2PKH(script)),
            ),
            Ok(ClaimLocation::Witness(_)) => false,
            Err(e) => call_ensures(S::claim_p2pkh, (signer, &t, m, None::<u32>), Err(e)),
        },
        TxInput::P2TRKeySpend(t) => match answer {
            Ok(ClaimLocation::Script(_)) => false,
            Ok(ClaimLocation::Witness(witness)) => call_ensures(
                S::claim_p2tr_key_spend,
                (signer, &t, m, None::<u8>),
                Ok(ClaimP2TRKeyPath(witness)),
            ),
            Err(e) => call_ensures(S::claim_p2tr_key_spend, (signer, &t, m, None::<u8>), Err(e)),
        },
        TxInput::NonStandard { .. } => false,
    }
}

impl Default for TransactionBuilder {
    /// An empty transaction of version 2 without a lock time.
    fn default() -> (r: Self)
        ensures
            r@ == (BuilderState {
                version: 2,
                lock_time: 0,
                inputs: Seq::empty(),
                outputs: Seq::empty(),
                contains_taproot: false,
                transaction: None,
            }),
            r@.wf(),
    {
        TransactionBuilder {
            version: 2,
            // No lock time, transaction is immediately spendable.
            lock_time: 0,
            inputs: Vec::new(),
            outputs: Vec::new(),
            contains_taproot: false,
            btc_tx: None,
        }
    }
}

/// A copy of a state whose parts fit together has parts that fit together.
proof fn lemma_wf_of_copy(a: BuilderState, b: BuilderState)
    requires
        a.wf(),
        b.lock_time == a.lock_time,
        b.contains_taproot == a.contains_taproot,
        b.transaction == a.transaction,
        input::tx_inputs(b.inputs) == input::tx_inputs(a.inputs),
        output::tx_outputs(b.outputs) == output::tx_outputs(a.outputs),
    ensures
        b.wf(),
{
    assert(a.inputs.len() == input::tx_inputs(a.inputs).len());
    assert(b.inputs.len() == input::tx_inputs(b.inputs).len());
    assert(a.outputs.len() == output::tx_outputs(a.outputs).len());
    assert(b.outputs.len() == output::tx_outputs(b.outputs).len());
    assert forall|i: int| 0 <= i < a.inputs.len() implies #[trigger] a.inputs[i]@
        == b.inputs[i]@ by {
        assert(input::tx_inputs(a.inputs)[i] == a.inputs[i]@);
        assert(input::tx_inputs(b.inputs)[i] == b.inputs[i]@);
    }
    assert forall|i: int| 0 <= i < a.inputs.len() implies input::input_context(
        #[trigger] a.inputs[i],
    )@ == input::input_context(b.inputs[i])@ by {
        assert(a.inputs[i]@ == b.inputs[i]@);
    }
    assert forall|i: int| 0 <= i < a.outputs.len() implies #[trigger] a.outputs[i]@
        == b.outputs[i]@ by {
        assert(output::tx_outputs(a.outputs)[i] == a.outputs[i]@);
        assert(output::tx_outputs(b.outputs)[i] == b.outputs[i]@);
    }
    assert forall|i: int| 0 <= i < a.outputs.len() implies output::paid_output(
        #[trigger] a.outputs[i],
    ) == output::paid_output(b.outputs[i]) by {
        assert(a.outputs[i]@ == b.outputs[i]@);
    }
    if a.contains_taproot {
        let i = choose|i: int| 0 <= i < a.inputs.len() && #[trigger] a.inputs[i] is P2TRKeySpend;
        assert(a.inputs[i]@ == b.inputs[i]@);
        assert(b.inputs[i] is P2TRKeySpend);
    } else {
        assert forall|i: int| 0 <= i < b.inputs.len() implies !(
        #[trigger] b.inputs[i] is P2TRKeySpend) by {
            assert(a.inputs[i]@ == b.inputs[i]@);
        }
    }
}

impl Clone for TransactionBuilder {
    fn clone(&self) -> (r: Self)
        ensures
            r@.version == self@.version,
            r@.lock_time == self@.lock_time,
            input::tx_inputs(r@.inputs) == input::tx_inputs(self@.inputs),
            output::tx_outputs(r@.outputs) == output::tx_outputs(self@.outputs),
            forall|i: int|
                0 <= i < self@.outputs.len() ==> (#[trigger] r@.outputs[i] is P2PKH
                    <==> self@.outputs[i] is P2PKH),
            r@.contains_taproot == self@.contains_taproot,
            r@.transaction == self@.transaction,
            r@.wf(),
    {
        proof {
            use_type_invariant(self);
        }
        let mut inputs: Vec<TxInput> = Vec::new();
        for i in 0..self.inputs.len()
            invariant
                inputs@.len() == i,
                forall|j: int| 0 <= j < i ==> (#[trigger] inputs@[j])@ == self.inputs@[j]@,
        {
            inputs.push(self.inputs[i].clone());
        }
        let mut outputs: Vec<TxOutput> = Vec::new();
        for i in 0..self.outputs.len()
            invariant
                outputs@.len() == i,
                forall|j: int| 0 <= j < i ==> (#[trigger] outputs@[j])@ == self.outputs@[j]@,
        {
            outputs.push(self.outputs[i].clone());
        }
        let btc_tx = match &self.btc_tx {
            Some(tx) => Some(tx.clone()),
            None => None,
        };
        assert(input::tx_inputs(inputs@) =~= input::tx_inputs(self.inputs@));
        assert(output::tx_outputs(outputs@) =~= output::tx_outputs(self.outputs@));
        proof {
            lemma_wf_of_copy(
                self@,
                BuilderState { inputs: inputs@, outputs: outputs@, ..self@ },
            );
        }
        TransactionBuilder {
            version: self.version,
            lock_time: self.lock_time,
            inputs,
            outputs,
            contains_taproot: self.contains_taproot,
            btc_tx,
        }
    }
}

impl TransactionBuilder {
    #[verifier::type_invariant]
    spec fn valid(self) -> bool {
        self@.wf()
    }

    /// An empty transaction of version 2 without a lock time.
    pub fn new() -> (r: Self)
        ensures
            r@ == (BuilderState {
                version: 2,
                lock_time: 0,
                inputs: Seq::empty(),
                outputs: Seq::empty(),
                contains_taproot: false,
                transaction: None,
            }),
            r@.wf(),
    {
        Self::default()
    }

    /// Sets the version.
    pub fn version(self, version: i32) -> (r: Self)
        ensures
            r@ == (BuilderState { version, ..self@ }),
            r@.wf(),
    {
        proof {
            use_type_invariant(&self);
        }
        TransactionBuilder { version, ..self }
    }

    /// Sets the lock time to a block height.
    pub fn lock_time(self, height: u32) -> (r: Self)
        requires
            height < 500_000_000,
        ensures
            r@ == (BuilderState { lock_time: height, ..self@ }),
            r@.wf(),
    {
        proof {
            use_type_invariant(&self);
        }
        TransactionBuilder { lock_time: outside::height_from_consensus(height).unwrap(), ..self }
    }

    /// Adds an input.
    pub fn add_input(self, input: TxInput) -> (r: Self)
        ensures
            r@ == (BuilderState {
                inputs: self@.inputs.push(input),
                contains_taproot: self@.contains_taproot || input is P2TRKeySpend,
                ..self@
            }),
            r@.wf(),
    {
        proof {
            use_type_invariant(&self);
        }
        let contains_taproot = match input {
            TxInput::P2TRKeySpend(_) => true,
            _ => self.contains_taproot,
        };
        let ghost before = self@.inputs;
        let mut inputs = self.inputs;
        inputs.push(input);
        proof {
            assert forall|i: int| 0 <= i < before.len() implies #[trigger] before[i]
                == inputs@[i] by {}
            assert(inputs@[before.len() as int] == input);
        }
        TransactionBuilder {
            version: self.version,
            lock_time: self.lock_time,
            inputs,
            outputs: self.outputs,
            contains_taproot,
            btc_tx: self.btc_tx,
        }
    }

    /// Adds an output.
    pub fn add_output(self, output: TxOutput) -> (r: Self)
        ensures
            r@ == (BuilderState { outputs: self@.outputs.push(output), ..self@ }),
            r@.wf(),
    {
        proof {
            use_type_invariant(&self);
        }
        let mut outputs = self.outputs;
        outputs.push(output);
        TransactionBuilder {
            version: self.version,
            lock_time: self.lock_time,
            inputs: self.inputs,
            outputs,
            contains_taproot: self.contains_taproot,
            btc_tx: self.btc_tx,
        }
    }

    /// Makes the unsigned transaction out of the inputs and outputs.
    pub fn prepare_for_signing(self) -> (r: Self)
        ensures
            r@ == (BuilderState { transaction: Some(self@.unsigned_transaction()), ..self@ }),
            r@.wf(),
    {
        proof {
            use_type_invariant(&self);
        }
        let ghost state = self@;
        let mut tx = Transaction {
            version: self.version,
            lock_time: self.lock_time,
            input: Vec::new(),
            output: Vec::new(),
        };

        for i in 0..self.inputs.len()
            invariant
                self@ == state,
                tx.version == state.version,
                tx.lock_time == state.lock_time,
                tx.output@.len() == 0,
                tx.input@.len() == i,
                forall|j: int|
                    0 <= j < i ==> (#[trigger] tx.input@[j])@ == input::unsigned_input(
                        input::input_context(state.inputs[j])@,
                    ),
        {
            let input = self.inputs[i].clone();
            assert(input@ == state.inputs[i as int]@);
            tx.input.push(TxIn::from(input));
        }

        for i in 0..self.outputs.len()
            invariant
                self@ == state,
                tx.version == state.version,
                tx.lock_time == state.lock_time,
                tx.output@.len() == i,
                forall|j: int|
                    0 <= j < i ==> (#[trigger] tx.output@[j])@ == output::paid_output(
                        state.outputs[j],
                    ),
                tx.input@.len() == state.inputs.len(),
                forall|j: int|
                    0 <= j < state.inputs.len() ==> (#[trigger] tx.input@[j])@
                        == input::unsigned_input(input::input_context(state.inputs[j])@),
        {
            let output = self.outputs[i].clone();
            assert(output@ == state.outputs[i as int]@);
            tx.output.push(TxOut::from(output));
        }

        assert(tx@.input =~= state.unsigned_transaction().input);
        assert(tx@.output =~= state.unsigned_transaction().output);
        TransactionBuilder { btc_tx: Some(tx), ..self }
    }

    /// Signs the inputs with a signer.
    pub fn sign_inputs<S>(self, signer: S) -> (r: Result<Self>) where S: TransactionSigner
        requires
            self@.lacks_value() || self@.transaction is Some,
        ensures
            signing_outcome(
                self@,
                |input: TxInput, message: Seq<u8>, answer: Result<ClaimLocation>|
                    signer_answers(&signer, input, message, answer),
                r,
            ),
            r matches Ok(signed) ==> signed@.wf(),
    {
        let claim = |input: &TxInput, sighash: Message| -> (answer: Result<ClaimLocation>)
            requires
                !(input is NonStandard),
            ensures
                signer_answers_message(&signer, *input, sighash, answer),
            {
                match input {
                    TxInput::P2PKH(p2pkh) => match signer.claim_p2pkh(p2pkh, sighash, None) {
                        Ok(claim) => Ok(ClaimLocation::Script(claim.0)),
                        Err(e) => Err(e),
                    },
                    TxInput::P2TRKeySpend(p2tr) => match signer.claim_p2tr_key_spend(
                        p2tr,
                        sighash,
                        None,
                    ) {
                        Ok(claim) => Ok(ClaimLocation::Witness(claim.0)),
                        Err(e) => Err(e),
                    },
                    TxInput::NonStandard { .. } => vstd::pervasive::unreached(),
                }
            };
        let ghost state = self@;
        let ghost given = |input: TxInput, message: Seq<u8>, answer: Result<ClaimLocation>|
            function_answers(claim, input, message, answer);
        let ghost wanted = |input: TxInput, message: Seq<u8>, answer: Result<ClaimLocation>|
            signer_answers(&signer, input, message, answer);
        assert forall|input: TxInput, message: Seq<u8>, answer: Result<ClaimLocation>| #[trigger]
            given(input, message, answer) implies wanted(input, message, answer) by {
            let m = choose|m: Message|
                m@ == message && #[trigger] call_ensures(claim, (&input, m), answer);
            assert(signer_answers_message(&signer, input, m, answer));
        }
        let r = self.sign_inputs_fn(claim);
        proof {
            lemma_signing_outcome_weakens(state, given, wanted, r);
        }
        r
    }

    /// Signs the inputs with a function that makes a claim for an input and
    /// the hash to be signed.
    pub fn sign_inputs_fn<F>(self, signer: F) -> (r: Result<Self>) where
        F: Fn(&TxInput, Message) -> Result<ClaimLocation>,

        requires
            self@.lacks_value() || self@.transaction is Some,
            forall|i: int, m: Message|
                self@.is_signed(i) ==> #[trigger] call_requires(signer, (&self@.inputs[i], m)),
        ensures
            signing_outcome(
                self@,
                |input: TxInput, message: Seq<u8>, answer: Result<ClaimLocation>|
                    function_answers(signer, input, message, answer),
                r,
            ),
            r matches Ok(signed) ==> signed@.wf(),
    {
        proof {
            use_type_invariant(&self);
        }
        let ghost state = self@;
        let ghost answers = |input: TxInput, message: Seq<u8>, answer: Result<ClaimLocation>|
            function_answers(signer, input, message, answer);
        let TransactionBuilder { version, lock_time, inputs, outputs, contains_taproot, btc_tx } =
            self;

        // Taproot signatures commit to the value and the script of every
        // output that is spent.
        let mut prevouts: Vec<TxOut> = Vec::new();
        if contains_taproot {
            for i in 0..inputs.len()
                invariant
                    state == self@,
                    inputs@ == state.inputs,
                    contains_taproot == state.contains_taproot,
                    contains_taproot,
                    prevouts@.len() == i,
                    forall|j: int|
                        0 <= j < i ==> (#[trigger] prevouts@[j])@ == spent_outputs(inputs@)[j],
                    forall|j: int|
                        0 <= j < i ==> input::input_context(
                            #[trigger] inputs@[j],
                        ).value is Some,
            {
                match inputs[i].ctx().value {
                    Some(value) => prevouts.push(
                        TxOut { value, script_pubkey: inputs[i].ctx().script_pubkey.clone() },
                    ),
                    None => {
                        assert(!values_known(inputs@));
                        return Err(Error::Todo);
                    },
                }
            }
        }
        assert(transaction::tx_outs(prevouts@) =~= state.prevouts());
        assert(!state.lacks_value());

        let tx = btc_tx.unwrap();

        // For each input there is a hash which is to be signed.
        let mut claims: Vec<Option<ClaimLocation>> = Vec::new();
        for index in 0..inputs.len()
            invariant
                state == self@,
                inputs@ == state.inputs,
                state.transaction == Some(tx@),
                !state.lacks_value(),
                transaction::tx_outs(prevouts@) == state.prevouts(),
                forall|i: int, m: Message|
                    state.is_signed(i) ==> #[trigger] call_requires(
                        signer,
                        (&state.inputs[i], m),
                    ),
                answers == (|
                    input: TxInput,
                    message: Seq<u8>,
                    answer: Result<ClaimLocation>,
                | function_answers(signer, input, message, answer)),
                claims@.len() == index,
                forall|i: int|
                    0 <= i < index ==> match #[trigger] claims@[i] {
                        Some(claim) => state.is_signed(i) && state.has_message(i) && answers(
                            state.inputs[i],
                            state.message(i),
                            Ok(claim),
                        ),
                        None => !state.is_signed(i),
                    },
        {
            let input = &inputs[index];
            let hash: Option<TransactionHash> = match input {
                TxInput::P2PKH(p2pkh) => {
                    match outside::legacy_signature_hash(
                        &tx,
                        index,
                        &p2pkh.ctx.script_pubkey,
                        SIGHASH_ALL,
                    ) {
                        Ok(hash) => Some(
                            TransactionHash::from_legacy_sig_hash(LegacySighash(hash)),
                        ),
                        Err(_) => {
                            assert(state.is_signed(index as int));
                            return Err(Error::Todo);
                        },
                    }
                },
                TxInput::P2TRKeySpend(_) => {
                    match outside::taproot_key_spend_signature_hash(
                        tx.clone(),
                        index,
                        transaction::clone_outputs(&prevouts),
                        TAP_SIGHASH_ALL,
                    ) {
                        Ok(hash) => Some(TransactionHash::from_tapsig_hash(TapSighash(hash))),
                        Err(_) => {
                            assert(state.is_signed(index as int));
                            return Err(Error::Todo);
                        },
                    }
                },
                // Skip.
                TxInput::NonStandard { .. } => None,
            };
            match hash {
                Some(hash) => {
                    let message = Message::from(hash);
                    assert(state.is_signed(index as int) && state.has_message(index as int));
                    assert(message@ == state.message(index as int));
                    match signer(input, message) {
                        Ok(claim) => claims.push(Some(claim)),
                        Err(e) => {
                            assert(answers(*input, message@, Err(e)));
                            assert(refuses(state, answers, index as int, e));
                            return Err(e);
                        },
                    }
                },
                None => claims.push(None),
            }
        }

        assert(state.can_be_signed()) by {
            assert forall|i: int| #[trigger] state.is_signed(i) implies state.has_message(i) by {
                assert(claims@[i] is Some);
            }
        }
        assert(claims_made(state, answers, claims@));
        let tx = attach_claims(tx, claims);
        Ok(
            TransactionBuilder {
                version,
                lock_time,
                inputs,
                outputs,
                contains_taproot,
                btc_tx: Some(tx),
            },
        )
    }

    /// The transaction's consensus encoding.
    pub fn serialize(&self) -> (r: Result<Vec<u8>>)
        requires
            self@.transaction is Some,
        ensures
            r is Ok,
            r->Ok_0@ == transaction::encode_transaction(self@.transaction->Some_0),
    {
        match outside::encode_transaction(self.btc_tx.as_ref().unwrap()) {
            Ok(bytes) => Ok(bytes),
            Err(_) => Err(Error::Todo),
        }
    }
}

} // verus!
