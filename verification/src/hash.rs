//! The hashes that signatures commit to.

use vstd::prelude::*;

use crate::outside;

verus! {

/// The hash that the signature of a legacy input commits to.
#[derive(Debug, Clone, Copy, PartialEq, Eq)]
pub struct LegacySighash(pub [u8; 32]);

/// The hash that the signature of a taproot input commits to.
#[derive(Debug, Clone, Copy, PartialEq, Eq)]
pub struct TapSighash(pub [u8; 32]);

/// A hash of a transaction, to be signed.
pub struct TransactionHash([u8; 32]);

impl View for TransactionHash {
    type V = Seq<u8>;

    closed spec fn view(&self) -> Seq<u8> {
        self.0@
    }
}

impl TransactionHash {
    pub fn from_legacy_sig_hash(hash: LegacySighash) -> (r: Self)
        ensures
            r@ == hash.0@,
    {
        TransactionHash(hash.0)
    }

    pub fn from_tapsig_hash(hash: TapSighash) -> (r: Self)
        ensures
            r@ == hash.0@,
    {
        TransactionHash(hash.0)
    }
}

/// What a signer signs.
#[derive(Debug, Clone, Copy, PartialEq, Eq)]
pub struct Message([u8; 32]);

impl View for Message {
    type V = Seq<u8>;

    closed spec fn view(&self) -> Seq<u8> {
        self.0@
    }
}

impl Message {
    /// The bytes to be signed.
    pub fn to_bytes(&self) -> (r: [u8; 32])
        ensures
            r@ == self@,
    {
        self.0
    }
}

impl From<TransactionHash> for Message {
    fn from(hash: TransactionHash) -> (r: Self)
        ensures
            r@ == hash@,
    {
        // Never fails since the byte array is always 32 bytes.
        let r = Message(outside::parse_message(&hash.0).unwrap());
        assert(r.0 =~= hash.0);
        r
    }
}

impl vstd::std_specs::convert::FromSpecImpl<TransactionHash> for Message {
    open spec fn obeys_from_spec() -> bool {
        true
    }

    closed spec fn from_spec(hash: TransactionHash) -> Self {
        Message(hash.0)
    }
}

} // verus!
