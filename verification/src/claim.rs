//! What is put into an input to spend the output that it refers to.

use vstd::prelude::*;

use bitcoin::Witness;

use crate::error::Result;
use crate::hash::Message;
use crate::input::{TxInputP2PKH, TxInputP2TRKeySpend};
use crate::outside;

verus! {

/// Where a claim goes: into the input's script, or into its witness.
#[derive(Debug, PartialEq, Eq)]
pub enum ClaimLocation {
    Script(Vec<u8>),
    Witness(Witness),
}

/// What a [`ClaimLocation`] holds.
pub enum ClaimLocationView {
    Script(Seq<u8>),
    Witness(Seq<Seq<u8>>),
}

impl View for ClaimLocation {
    type V = ClaimLocationView;

    open spec fn view(&self) -> ClaimLocationView {
        match self {
            ClaimLocation::Script(script) => ClaimLocationView::Script(script@),
            ClaimLocation::Witness(witness) => ClaimLocationView::Witness(
                outside::witness_items(*witness),
            ),
        }
    }
}

/// The script that claims an output that pays to a public key hash.
#[derive(Debug, PartialEq, Eq)]
pub struct ClaimP2PKH(pub Vec<u8>);

/// The witness that claims a taproot output by its key.
#[derive(Debug, PartialEq, Eq)]
pub struct ClaimP2TRKeyPath(pub Witness);

/// Makes claims, out of the hash that a claim has to sign. The hash's type is
/// the signer's choice where none is given.
pub trait TransactionSigner {
    fn claim_p2pkh(
        &self,
        input: &TxInputP2PKH,
        sighash: Message,
        sighash_type: Option<u32>,
    ) -> Result<ClaimP2PKH>;

    fn claim_p2tr_key_spend(
        &self,
        input: &TxInputP2TRKeySpend,
        sighash: Message,
        sighash_type: Option<u8>,
    ) -> Result<ClaimP2TRKeyPath>;
}

} // verus!
