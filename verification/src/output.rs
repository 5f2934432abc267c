//! The outputs that a transaction is built from.

use vstd::prelude::*;

use crate::keys::{self, PublicKey, TweakedPublicKey};
use crate::outside;
use crate::script::{self, PubkeyHash};
use crate::transaction::{TxOut, TxOutView};

verus! {

/// An output of a transaction that is being built.
#[derive(Debug, PartialEq, Eq)]
pub enum TxOutput {
    P2PKH(TxOutputP2PKH),
    P2TRKeyPath(TxOutputP2TKeyPath),
}

/// What a [`TxOutput`] holds.
pub enum TxOutputView {
    P2PKH(TxOutView),
    P2TRKeyPath(TxOutView),
}

impl View for TxOutput {
    type V = TxOutputView;

    open spec fn view(&self) -> TxOutputView {
        match self {
            TxOutput::P2PKH(output) => TxOutputView::P2PKH(output@),
            TxOutput::P2TRKeyPath(output) => TxOutputView::P2TRKeyPath(output@),
        }
    }
}

/// What an output becomes in a transaction.
pub open spec fn paid_output(output: TxOutput) -> TxOutView {
    match output {
        TxOutput::P2PKH(output) => output@,
        TxOutput::P2TRKeyPath(output) => output@,
    }
}

impl Clone for TxOutput {
    fn clone(&self) -> (r: Self)
        ensures
            r@ == self@,
    {
        match self {
            TxOutput::P2PKH(output) => TxOutput::P2PKH(output.clone()),
            TxOutput::P2TRKeyPath(output) => TxOutput::P2TRKeyPath(output.clone()),
        }
    }
}

/// What a list of outputs holds.
pub open spec fn tx_outputs(outputs: Seq<TxOutput>) -> Seq<TxOutputView> {
    outputs.map_values(|o: TxOutput| o@)
}

impl From<TxOutputP2PKH> for TxOutput {
    fn from(output: TxOutputP2PKH) -> (r: Self) {
        TxOutput::P2PKH(output)
    }
}

impl vstd::std_specs::convert::FromSpecImpl<TxOutputP2PKH> for TxOutput {
    open spec fn obeys_from_spec() -> bool {
        true
    }

    open spec fn from_spec(output: TxOutputP2PKH) -> Self {
        TxOutput::P2PKH(output)
    }
}

impl From<TxOutputP2TKeyPath> for TxOutput {
    fn from(output: TxOutputP2TKeyPath) -> (r: Self) {
        TxOutput::P2TRKeyPath(output)
    }
}

impl vstd::std_specs::convert::FromSpecImpl<TxOutputP2TKeyPath> for TxOutput {
    open spec fn obeys_from_spec() -> bool {
        true
    }

    open spec fn from_spec(output: TxOutputP2TKeyPath) -> Self {
        TxOutput::P2TRKeyPath(output)
    }
}

/// An output that pays to a public key hash.
#[derive(Debug, PartialEq, Eq)]
pub struct TxOutputP2PKH {
    satoshis: u64,
    script_pubkey: Vec<u8>,
}

impl View for TxOutputP2PKH {
    type V = TxOutView;

    closed spec fn view(&self) -> TxOutView {
        TxOutView { value: self.satoshis, script_pubkey: self.script_pubkey@ }
    }
}

impl Clone for TxOutputP2PKH {
    fn clone(&self) -> (r: Self)
        ensures
            r@ == self@,
    {
        TxOutputP2PKH { satoshis: self.satoshis, script_pubkey: self.script_pubkey.clone() }
    }
}

impl TxOutputP2PKH {
    /// Pays an amount to a public key hash.
    pub fn new(satoshis: u64, recipient: &PubkeyHash) -> (r: Self)
        ensures
            r@ == (TxOutView {
                value: satoshis,
                script_pubkey: script::p2pkh_script(recipient.0@),
            }),
    {
        TxOutputP2PKH { satoshis, script_pubkey: outside::new_p2pkh(&recipient.0) }
    }
}

/// An output that pays to a taproot output key.
#[derive(Debug, PartialEq, Eq)]
pub struct TxOutputP2TKeyPath {
    satoshis: u64,
    script_pubkey: Vec<u8>,
}

impl View for TxOutputP2TKeyPath {
    type V = TxOutView;

    closed spec fn view(&self) -> TxOutView {
        TxOutView { value: self.satoshis, script_pubkey: self.script_pubkey@ }
    }
}

impl Clone for TxOutputP2TKeyPath {
    fn clone(&self) -> (r: Self)
        ensures
            r@ == self@,
    {
        TxOutputP2TKeyPath { satoshis: self.satoshis, script_pubkey: self.script_pubkey.clone() }
    }
}

impl TxOutputP2TKeyPath {
    /// Pays an amount to a key that is tweaked already.
    pub fn new_tweaked(satoshis: u64, recipient: TweakedPublicKey) -> (r: Self)
        ensures
            r@ == (TxOutView { value: satoshis, script_pubkey: script::p2tr_script(recipient@) }),
    {
        let key = recipient.serialize();
        TxOutputP2TKeyPath { satoshis, script_pubkey: outside::new_v1_p2tr_tweaked(&key) }
    }

    /// Pays an amount to the tweak of a public key.
    pub fn new(satoshis: u64, recipient: PublicKey) -> (r: Self)
        requires
            keys::can_be_tweaked(recipient@.skip(1)),
        ensures
            r@ == (TxOutView {
                value: satoshis,
                script_pubkey: script::p2tr_script(keys::tap_tweaked_key(recipient@.skip(1))),
            }),
    {
        Self::new_tweaked(satoshis, keys::tweak_pubkey(recipient))
    }

    /// Pays an amount to the tweak of a public key; `None` where it cannot be
    /// tweaked.
    pub fn checked_new(satoshis: u64, recipient: PublicKey) -> (r: Option<Self>)
        ensures
            r is Some <==> keys::can_be_tweaked(recipient@.skip(1)),
            r matches Some(output) ==> output@ == (TxOutView {
                value: satoshis,
                script_pubkey: script::p2tr_script(keys::tap_tweaked_key(recipient@.skip(1))),
            }),
    {
        if recipient.is_tweakable() {
            Some(Self::new(satoshis, recipient))
        } else {
            None
        }
    }
}

impl From<TxOutput> for TxOut {
    fn from(out: TxOutput) -> (r: Self)
        ensures
            r@ == paid_output(out),
    {
        match out {
            TxOutput::P2PKH(p2pkh) => TxOut {
                value: p2pkh.satoshis,
                script_pubkey: p2pkh.script_pubkey,
            },
            TxOutput::P2TRKeyPath(p2trkp) => TxOut {
                value: p2trkp.satoshis,
                script_pubkey: p2trkp.script_pubkey,
            },
        }
    }
}

impl vstd::std_specs::convert::FromSpecImpl<TxOutput> for TxOut {
    open spec fn obeys_from_spec() -> bool {
        true
    }

    closed spec fn from_spec(out: TxOutput) -> Self {
        match out {
            TxOutput::P2PKH(p2pkh) => TxOut {
                value: p2pkh.satoshis,
                script_pubkey: p2pkh.script_pubkey,
            },
            TxOutput::P2TRKeyPath(p2trkp) => TxOut {
                value: p2trkp.satoshis,
                script_pubkey: p2trkp.script_pubkey,
            },
        }
    }
}

} // verus!
