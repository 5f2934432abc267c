//! The inputs that a transaction is built from.

use vstd::prelude::*;

use bitcoin::Witness;

use crate::codec;
use crate::error::{Error, Result};
use crate::keys::{self, TweakedPublicKey};
use crate::outside;
use crate::script::{self, Payload, PubkeyHash};
use crate::transaction::{self, OutPoint, OutPointView, TxIn, TxInView, TxOut};

verus! {

/// The output that an input spends, and how the input refers to it.
#[derive(Debug, PartialEq, Eq)]
pub struct InputContext {
    pub previous_output: OutPoint,
    pub value: Option<u64>,
    /// The condition for claiming the output.
    pub script_pubkey: Vec<u8>,
    pub sequence: u32,
    /// Witness data for segwit and taproot transactions.
    pub witness: Witness,
}

/// What an [`InputContext`] holds.
pub struct InputContextView {
    pub previous_output: OutPointView,
    pub value: Option<u64>,
    pub script_pubkey: Seq<u8>,
    pub sequence: u32,
    pub witness: Seq<Seq<u8>>,
}

impl View for InputContext {
    type V = InputContextView;

    open spec fn view(&self) -> InputContextView {
        InputContextView {
            previous_output: self.previous_output@,
            value: self.value,
            script_pubkey: self.script_pubkey@,
            sequence: self.sequence,
            witness: outside::witness_items(self.witness),
        }
    }
}

impl Clone for InputContext {
    fn clone(&self) -> (r: Self)
        ensures
            r@ == self@,
    {
        InputContext {
            previous_output: self.previous_output,
            value: self.value,
            script_pubkey: self.script_pubkey.clone(),
            sequence: self.sequence,
            witness: self.witness.clone(),
        }
    }
}

/// Reads an input's context: the out point, the script with its length in
/// front, and the sequence number. What follows is ignored.
pub open spec fn read_context(s: Seq<u8>, value: Option<u64>) -> Option<InputContextView> {
    match transaction::read_out_point(s) {
        Some((previous_output, rest)) => match codec::read_sized_bytes(rest) {
            Some((script_pubkey, rest)) => match codec::read_le(rest, 4) {
                Some((sequence, _)) => Some(
                    InputContextView {
                        previous_output,
                        value,
                        script_pubkey,
                        sequence: sequence as u32,
                        witness: Seq::empty(),
                    },
                ),
                None => None,
            },
            None => None,
        },
        None => None,
    }
}

/// Reads an input that spends a public key hash's output, with the hash as the
/// recipient. Every other input is refused.
pub open spec fn read_input(s: Seq<u8>, value: Option<u64>) -> Option<TxInputView> {
    match read_context(s, value) {
        Some(ctx) if script::is_p2pkh_script(ctx.script_pubkey) => Some(
            TxInputView::P2PKH { ctx, recipient: ctx.script_pubkey.subrange(3, 23) },
        ),
        _ => None,
    }
}

/// The unsigned input with a context.
pub open spec fn unsigned_input(ctx: InputContextView) -> TxInView {
    TxInView {
        previous_output: ctx.previous_output,
        script_sig: Seq::empty(),
        sequence: ctx.sequence,
        witness: ctx.witness,
    }
}

impl InputContext {
    /// The context of an output and the place where it stands, with the
    /// sequence number `0xFFFFFFFF` and an empty witness.
    pub fn new(utxo: TxOut, point: OutPoint) -> (r: Self)
        ensures
            r@ == (InputContextView {
                previous_output: point@,
                value: Some(utxo.value),
                script_pubkey: utxo.script_pubkey@,
                sequence: 0xFFFF_FFFF,
                witness: Seq::empty(),
            }),
    {
        InputContext {
            previous_output: point,
            value: Some(utxo.value),
            script_pubkey: utxo.script_pubkey,
            sequence: 0xFFFF_FFFF,
            witness: Witness::new(),
        }
    }

    /// Reads a context from bytes; an error where they are too few or the
    /// script's length is not in its shortest form.
    pub fn from_slice(slice: &[u8], value: Option<u64>) -> (r: Result<Self>)
        ensures
            match read_context(slice@, value) {
                Some(ctx) => r is Ok && r->Ok_0@ == ctx,
                None => r is Err && r->Err_0 == Error::Todo,
            },
    {
        let (previous_output, rest) = match outside::decode_out_point(slice) {
            Ok(decoded) => decoded,
            Err(_) => return Err(Error::Todo),
        };
        let (script_pubkey, rest) = match outside::decode_script(rest) {
            Ok(decoded) => decoded,
            Err(_) => return Err(Error::Todo),
        };
        let (sequence, _) = match outside::decode_sequence(rest) {
            Ok(decoded) => decoded,
            Err(_) => return Err(Error::Todo),
        };
        Ok(InputContext { previous_output, value, script_pubkey, sequence, witness: Witness::new() })
    }
}

impl From<InputContext> for TxIn {
    fn from(ctx: InputContext) -> (r: Self)
        ensures
            r@ == unsigned_input(ctx@),
    {
        let r = TxIn {
            previous_output: ctx.previous_output,
            script_sig: Vec::new(),
            sequence: ctx.sequence,
            witness: ctx.witness,
        };
        assert(r@.script_sig =~= Seq::empty());
        r
    }
}

impl vstd::std_specs::convert::FromSpecImpl<InputContext> for TxIn {
    /// The clause on `from` speaks of what the input holds instead.
    open spec fn obeys_from_spec() -> bool {
        false
    }

    open spec fn from_spec(ctx: InputContext) -> Self {
        arbitrary()
    }
}

/// An input that spends an output that pays to a public key hash.
#[derive(Debug, PartialEq, Eq)]
pub struct TxInputP2PKH {
    pub ctx: InputContext,
    pub recipient: PubkeyHash,
}

/// An input that spends a taproot output by its key.
#[derive(Debug, PartialEq, Eq)]
pub struct TxInputP2TRKeySpend {
    pub ctx: InputContext,
    pub recipient: TweakedPublicKey,
}

/// An input of a transaction that is being built.
#[derive(Debug, PartialEq, Eq)]
pub enum TxInput {
    P2PKH(TxInputP2PKH),
    P2TRKeySpend(TxInputP2TRKeySpend),
    NonStandard { ctx: InputContext },
}

/// What a [`TxInput`] holds.
pub enum TxInputView {
    P2PKH { ctx: InputContextView, recipient: Seq<u8> },
    P2TRKeySpend { ctx: InputContextView, recipient: Seq<u8> },
    NonStandard { ctx: InputContextView },
}

impl View for TxInput {
    type V = TxInputView;

    open spec fn view(&self) -> TxInputView {
        match self {
            TxInput::P2PKH(t) => TxInputView::P2PKH { ctx: t.ctx@, recipient: t.recipient.0@ },
            TxInput::P2TRKeySpend(t) => TxInputView::P2TRKeySpend {
                ctx: t.ctx@,
                recipient: t.recipient@,
            },
            TxInput::NonStandard { ctx } => TxInputView::NonStandard { ctx: ctx@ },
        }
    }
}

/// What a list of inputs holds.
pub open spec fn tx_inputs(inputs: Seq<TxInput>) -> Seq<TxInputView> {
    inputs.map_values(|i: TxInput| i@)
}

impl Clone for TxInputP2PKH {
    fn clone(&self) -> (r: Self)
        ensures
            r.ctx@ == self.ctx@,
            r.recipient == self.recipient,
    {
        TxInputP2PKH { ctx: self.ctx.clone(), recipient: self.recipient }
    }
}

impl Clone for TxInputP2TRKeySpend {
    fn clone(&self) -> (r: Self)
        ensures
            r.ctx@ == self.ctx@,
            r.recipient == self.recipient,
    {
        TxInputP2TRKeySpend { ctx: self.ctx.clone(), recipient: self.recipient }
    }
}

impl Clone for TxInput {
    fn clone(&self) -> (r: Self)
        ensures
            r@ == self@,
    {
        match self {
            TxInput::P2PKH(t) => TxInput::P2PKH(t.clone()),
            TxInput::P2TRKeySpend(t) => TxInput::P2TRKeySpend(t.clone()),
            TxInput::NonStandard { ctx } => TxInput::NonStandard { ctx: ctx.clone() },
        }
    }
}

/// The context of an input.
pub open spec fn input_context(input: TxInput) -> InputContext {
    match input {
        TxInput::P2PKH(t) => t.ctx,
        TxInput::P2TRKeySpend(t) => t.ctx,
        TxInput::NonStandard { ctx } => ctx,
    }
}

impl TxInput {
    /// The input's context.
    pub fn ctx(&self) -> (r: &InputContext)
        ensures
            *r == input_context(*self),
    {
        match self {
            TxInput::P2PKH(t) => &t.ctx,
            TxInput::P2TRKeySpend(t) => &t.ctx,
            TxInput::NonStandard { ctx } => ctx,
        }
    }

    /// The input that spends, by its key, the taproot output of an untweaked
    /// key.
    pub fn key_spend(ctx: InputContext, untweaked: &[u8; 32]) -> (r: Self)
        requires
            keys::can_be_tweaked(untweaked@),
        ensures
            r matches TxInput::P2TRKeySpend(t) && t.ctx == ctx && t.recipient@
                == keys::tap_tweaked_key(untweaked@),
    {
        let recipient = keys::tweak_x_only_key(untweaked);
        TxInput::P2TRKeySpend(TxInputP2TRKeySpend { ctx, recipient })
    }

    /// The input that spends, by its key, the taproot output of an untweaked
    /// key; `None` where the bytes are no key or it cannot be tweaked.
    pub fn checked_key_spend(ctx: InputContext, untweaked: &[u8; 32]) -> (r: Option<Self>)
        ensures
            r is Some <==> keys::can_be_tweaked(untweaked@),
            r matches Some(input) ==> (input matches TxInput::P2TRKeySpend(t) && t.ctx == ctx
                && t.recipient@ == keys::tap_tweaked_key(untweaked@)),
    {
        if keys::is_tweakable(untweaked) {
            Some(Self::key_spend(ctx, untweaked))
        } else {
            None
        }
    }

    /// Reads an input from bytes. It is an input that spends a public key
    /// hash's output, with the hash as the recipient, where the script pays to
    /// one; it is an error for every other script, a taproot script included.
    pub fn from_slice(slice: &[u8], value: Option<u64>) -> (r: Result<Self>)
        ensures
            match read_input(slice@, value) {
                Some(input) => r is Ok && r->Ok_0@ == input,
                None => r is Err && r->Err_0 == Error::Todo,
            },
    {
        let ctx = match InputContext::from_slice(slice, value) {
            Ok(ctx) => ctx,
            Err(e) => return Err(e),
        };

        if outside::is_p2pkh(&ctx.script_pubkey) {
            let recipient = match outside::payload_from_script(&ctx.script_pubkey) {
                Ok(Payload::PubkeyHash(hash)) => hash,
                _ => return Err(Error::Todo),
            };

            Ok(TxInput::P2PKH(TxInputP2PKH { ctx, recipient }))
        } else if outside::is_v1_p2tr(&ctx.script_pubkey) {
            // Skip the first byte, which is the version indicator.
            let raw = vstd::slice::slice_subrange(
                ctx.script_pubkey.as_slice(),
                1,
                ctx.script_pubkey.len(),
            );
            match outside::parse_x_only_key(raw) {
                Ok(untweaked) => Ok(TxInput::key_spend(ctx, &untweaked)),
                Err(_) => Err(Error::Todo),
            }
        } else {
            Err(Error::Todo)
        }
    }
}

impl From<TxInput> for TxIn {
    fn from(input: TxInput) -> (r: Self)
        ensures
            r@ == unsigned_input(input_context(input)@),
    {
        let ctx = input.ctx();
        let r = TxIn {
            previous_output: ctx.previous_output,
            script_sig: Vec::new(),
            sequence: ctx.sequence,
            witness: ctx.witness.clone(),
        };
        assert(r@.script_sig =~= Seq::empty());
        r
    }
}

impl vstd::std_specs::convert::FromSpecImpl<TxInput> for TxIn {
    /// The clause on `from` speaks of what the input holds instead.
    open spec fn obeys_from_spec() -> bool {
        false
    }

    open spec fn from_spec(input: TxInput) -> Self {
        arbitrary()
    }
}

} // verus!
