//! Bitcoin transactions: building, signing and serializing.

pub mod builder;
pub mod claim;
pub mod codec;
pub mod encoding_laws;
pub mod error;
pub mod hash;
pub mod input;
pub mod keys;
pub mod laws;
pub mod output;
pub mod outside;
pub mod script;
pub mod transaction;

pub use bitcoin;
pub use bitcoin::Address;

pub use builder::{attach_claims, TransactionBuilder};
pub use claim::{ClaimLocation, ClaimP2PKH, ClaimP2TRKeyPath, TransactionSigner};
pub use error::{Error, Result};
pub use hash::{LegacySighash, Message, TapSighash, TransactionHash};
pub use input::{InputContext, TxInput, TxInputP2PKH, TxInputP2TRKeySpend};
pub use keys::{
    checked_tweak_keypair,
    checked_tweak_pubkey,
    checked_tweak_x_only_key,
    keypair_from_wif,
    tweak_keypair,
    tweak_pubkey,
    KeyPair,
    PublicKey,
    TweakedKeyPair,
    TweakedPublicKey,
};
pub use output::{TxOutput, TxOutputP2PKH, TxOutputP2TKeyPath};
pub use script::{pubkey_hash_from_address, Payload, PubkeyHash, ScriptHash};
pub use transaction::{OutPoint, Transaction, TxIn, TxOut};
