//! The calls into the crate `bitcoin`, and what is relied on of each.
//!
//! A function here turns plain values into the types of `bitcoin`, makes one
//! call, and turns the result back. Nothing in this module is proved: the
//! contracts say what the crate's code and documentation promise.

use vstd::prelude::*;

use bitcoin::absolute::{Error as HeightError, Height, LockTime};
use bitcoin::address::{Error as AddressError, Payload as AddressPayload};
use bitcoin::consensus::encode::Error as DecodeError;
use bitcoin::consensus::{Decodable, Encodable};
use bitcoin::hashes::Hash as HashBytes;
use bitcoin::key::{Error as WifError, TapTweak, TweakedPublicKey as OutputKey};
use bitcoin::opcodes::All as Opcode;
use bitcoin::script::{Builder, PushBytesBuf, PushBytesError};
use bitcoin::secp256k1::scalar::{OutOfRangeError, Scalar};
use bitcoin::secp256k1::{
    Error as SecpError,
    KeyPair as SecpKeyPair,
    Message as SecpMessage,
    PublicKey as SecpPublicKey,
    Secp256k1,
    SecretKey,
    XOnlyPublicKey,
};
use bitcoin::sighash::{Error as SighashError, Prevouts, SighashCache, TapSighashType};
use bitcoin::taproot::TapTweakHash;
use bitcoin::{
    Address,
    OutPoint as BtcOutPoint,
    PrivateKey,
    PubkeyHash as BtcPubkeyHash,
    Script,
    ScriptBuf,
    Sequence,
    Transaction as BtcTransaction,
    TxIn as BtcTxIn,
    TxOut as BtcTxOut,
    Witness as BtcWitness,
};
use std::io::Error as IoError;
use std::str::FromStr;

use crate::codec;
use crate::keys;
use crate::script::{self, Payload, PubkeyHash};
use crate::transaction::{self, OutPoint, Transaction, TransactionView, TxOut, TxOutView};

verus! {

// Errors.

/// The error of the crate `secp256k1`.
#[verifier::external_type_specification]
#[verifier::external_body]
pub struct ExSecpError(SecpError);

/// The error of a number that is too large for the curve.
#[verifier::external_type_specification]
#[verifier::external_body]
pub struct ExOutOfRangeError(OutOfRangeError);

/// The error of reading an address or of recognising a script.
#[verifier::external_type_specification]
#[verifier::external_body]
pub struct ExAddressError(AddressError);

/// The error of reading a private key.
#[verifier::external_type_specification]
#[verifier::external_body]
pub struct ExWifError(WifError);

/// The error of reading a block height.
#[verifier::external_type_specification]
#[verifier::external_body]
pub struct ExHeightError(HeightError);

/// The error of consensus decoding.
#[verifier::external_type_specification]
#[verifier::external_body]
pub struct ExDecodeError(DecodeError);

/// The error of the signature hashes.
#[verifier::external_type_specification]
#[verifier::external_body]
pub struct ExSighashError(SighashError);

/// The error of a push that is too long for a script.
#[verifier::external_type_specification]
#[verifier::external_body]
pub struct ExPushBytesError(PushBytesError);

/// The error of consensus encoding.
#[verifier::external_type_specification]
#[verifier::external_body]
pub struct ExIoError(IoError);

// Keys.

/// `secp256k1::PublicKey::from_slice` on 33 bytes, then `serialize`: a key in
/// compressed form is handed back, anything else is an error.
#[verifier::external_body]
pub(crate) fn parse_public_key(bytes: &[u8; 33]) -> (r: Result<[u8; 33], SecpError>)
    ensures
        r is Ok <==> keys::is_compressed_key(bytes@),
        r matches Ok(key) ==> key@ == bytes@,
{
    SecpPublicKey::from_slice(bytes).map(|key| key.serialize())
}

/// `XOnlyPublicKey::from(PublicKey)`: the key without the parity of y.
#[verifier::external_body]
pub(crate) fn x_only_public_key(key: &[u8; 33]) -> (r: [u8; 32])
    requires
        keys::is_compressed_key(key@),
    ensures
        r@ == key@.skip(1),
{
    XOnlyPublicKey::from(SecpPublicKey::from_slice(key).unwrap()).serialize()
}

/// `XOnlyPublicKey::from_slice`: 32 bytes that are the x coordinate of a point
/// are handed back, anything else is an error.
#[verifier::external_body]
pub(crate) fn parse_x_only_key(data: &[u8]) -> (r: Result<[u8; 32], SecpError>)
    ensures
        r is Ok <==> keys::is_x_only_key(data@),
        r matches Ok(key) ==> key@ == data@,
{
    XOnlyPublicKey::from_slice(data).map(|key| key.serialize())
}

/// The hash that `TapTweakHash::from_key_and_tweak` gives for an x-only public
/// key, without a merkle root.
pub uninterp spec fn tap_tweak_hash(key: Seq<u8>) -> Seq<u8>;

/// `TapTweakHash::from_key_and_tweak` of an x-only public key, without a merkle
/// root.
#[verifier::external_body]
pub(crate) fn hash_of_key(key: &[u8; 32]) -> (r: [u8; 32])
    requires
        keys::is_x_only_key(key@),
    ensures
        r@ == tap_tweak_hash(key@),
{
    TapTweakHash::from_key_and_tweak(XOnlyPublicKey::from_slice(key).unwrap(), None).to_byte_array()
}

/// `Scalar::from_be_bytes`: a number below the order of the curve is handed
/// back, anything else is an error.
#[verifier::external_body]
pub(crate) fn parse_scalar(bytes: &[u8; 32]) -> (r: Result<[u8; 32], OutOfRangeError>)
    ensures
        r is Ok <==> keys::is_scalar(bytes@),
        r matches Ok(scalar) ==> scalar@ == bytes@,
{
    Scalar::from_be_bytes(*bytes).map(|scalar| scalar.to_be_bytes())
}

/// The sum that `XOnlyPublicKey::add_tweak` gives for an x-only public key and a
/// number, if it is a key.
pub uninterp spec fn key_plus_tweak(key: Seq<u8>, tweak: Seq<u8>) -> Option<Seq<u8>>;

/// `XOnlyPublicKey::add_tweak`: the sum, itself an x-only public key, or an
/// error where the sum is no key.
#[verifier::external_body]
pub(crate) fn add_tweak(key: &[u8; 32], tweak: &[u8; 32]) -> (r: Result<[u8; 32], SecpError>)
    requires
        keys::is_x_only_key(key@),
        keys::is_scalar(tweak@),
    ensures
        r is Ok <==> key_plus_tweak(key@, tweak@) is Some,
        r matches Ok(sum) ==> key_plus_tweak(key@, tweak@) == Some(sum@) && keys::is_x_only_key(sum@),
{
    let tweak = Scalar::from_be_bytes(*tweak).unwrap();
    XOnlyPublicKey::from_slice(key).unwrap().add_tweak(&Secp256k1::new(), &tweak).map(|sum| sum.0.serialize())
}

/// `TapTweak::tap_tweak` of an x-only public key, without a merkle root: the sum
/// of the key and its hash. It panics where the hash is too large or the sum is
/// no key.
#[verifier::external_body]
pub(crate) fn tap_tweak(key: &[u8; 32]) -> (r: [u8; 32])
    requires
        keys::can_be_tweaked(key@),
    ensures
        r@ == keys::tap_tweaked_key(key@),
        keys::is_x_only_key(r@),
{
    XOnlyPublicKey::from_slice(key).unwrap().tap_tweak(&Secp256k1::new(), None).0.serialize()
}

/// The secret key that a string in wallet import format holds, if it is one.
pub uninterp spec fn wif_secret_key(wif: Seq<char>) -> Option<Seq<u8>>;

/// `PrivateKey::from_wif`: the secret key, or an error where the string is not
/// in wallet import format. What is returned is a valid secret key.
#[verifier::external_body]
pub(crate) fn parse_wif(wif: &str) -> (r: Result<[u8; 32], WifError>)
    ensures
        r is Ok <==> wif_secret_key(wif@) is Some,
        r matches Ok(key) ==> wif_secret_key(wif@) == Some(key@) && keys::is_secret_key(key@),
{
    PrivateKey::from_wif(wif).map(|key| key.inner.secret_bytes())
}

/// The public key that `KeyPair::from_secret_key` pairs with a secret key, in
/// compressed form.
pub uninterp spec fn public_key_of(secret_key: Seq<u8>) -> Seq<u8>;

/// `KeyPair::from_secret_key`, then `public_key`: the public key that belongs
/// to the secret key. It panics on bytes that are no secret key.
#[verifier::external_body]
pub(crate) fn key_pair_public_key(secret_key: &[u8; 32]) -> (r: [u8; 33])
    requires
        keys::is_secret_key(secret_key@),
    ensures
        r@ == public_key_of(secret_key@),
        keys::is_compressed_key(r@),
{
    let secret_key = SecretKey::from_slice(secret_key).unwrap();
    SecpKeyPair::from_secret_key(&Secp256k1::new(), &secret_key).public_key().serialize()
}

/// The secret key that `TapTweak::tap_tweak` gives for a key pair, without a
/// merkle root.
pub uninterp spec fn tap_tweaked_secret_key(secret_key: Seq<u8>) -> Seq<u8>;

/// `TapTweak::tap_tweak` of a key pair, without a merkle root: a secret key
/// whose public key is, up to the parity of y, the tweak of the pair's public
/// key. It panics where [`tap_tweak`] does on the public key.
#[verifier::external_body]
pub(crate) fn tap_tweak_key_pair(secret_key: &[u8; 32]) -> (r: [u8; 32])
    requires
        keys::is_secret_key(secret_key@),
        keys::can_be_tweaked(public_key_of(secret_key@).skip(1)),
    ensures
        r@ == tap_tweaked_secret_key(secret_key@),
        keys::is_secret_key(r@),
        public_key_of(r@).skip(1) == keys::tap_tweaked_key(public_key_of(secret_key@).skip(1)),
{
    let secp = Secp256k1::new();
    let key_pair = SecpKeyPair::from_secret_key(&secp, &SecretKey::from_slice(secret_key).unwrap());
    key_pair.tap_tweak(&secp, None).to_inner().secret_bytes()
}

/// `secp256k1::Message::from_slice`: 32 bytes are handed back, anything else is
/// an error.
#[verifier::external_body]
pub(crate) fn parse_message(data: &[u8]) -> (r: Result<[u8; 32], SecpError>)
    ensures
        r is Ok <==> data@.len() == 32,
        r matches Ok(message) ==> message@ == data@,
{
    SecpMessage::from_slice(data).map(|message| *message.as_ref())
}

// Addresses and scripts.

/// What a string pays to, if it is an address.
pub uninterp spec fn address_payload(address: Seq<char>) -> Option<Payload>;

/// `Address::from_str`: what the address pays to, or an error where the string
/// is no address.
#[verifier::external_body]
pub(crate) fn parse_address(address: &str) -> (r: Result<Payload, AddressError>)
    ensures
        r is Ok <==> address_payload(address@) is Some,
        r matches Ok(payload) ==> address_payload(address@) == Some(payload),
{
    Address::from_str(address).map(|address| match address.payload {
        AddressPayload::PubkeyHash(hash) => Payload::PubkeyHash(PubkeyHash(hash.to_byte_array())),
        _ => Payload::Other,
    })
}

/// `Payload::from_script`, on scripts that pay to a public key hash: the hash.
#[verifier::external_body]
pub(crate) fn payload_from_script(script_pubkey: &Vec<u8>) -> (r: Result<Payload, AddressError>)
    requires
        script::is_p2pkh_script(script_pubkey@),
    ensures
        r is Ok,
        r->Ok_0 is PubkeyHash,
        r->Ok_0->PubkeyHash_0.0@ == script_pubkey@.subrange(3, 23),
{
    AddressPayload::from_script(Script::from_bytes(script_pubkey)).map(|payload| match payload {
        AddressPayload::PubkeyHash(hash) => Payload::PubkeyHash(PubkeyHash(hash.to_byte_array())),
        _ => Payload::Other,
    })
}

/// `Script::is_p2pkh`: whether a script pays to a public key hash.
#[verifier::external_body]
pub(crate) fn is_p2pkh(script_pubkey: &Vec<u8>) -> (r: bool)
    ensures
        r == script::is_p2pkh_script(script_pubkey@),
{
    Script::from_bytes(script_pubkey).is_p2pkh()
}

/// `Script::is_v1_p2tr`: whether a script pays to a taproot output key.
#[verifier::external_body]
pub(crate) fn is_v1_p2tr(script_pubkey: &Vec<u8>) -> (r: bool)
    ensures
        r == script::is_p2tr_script(script_pubkey@),
{
    Script::from_bytes(script_pubkey).is_v1_p2tr()
}

/// `ScriptBuf::new_p2pkh`: the script that pays to a public key hash.
#[verifier::external_body]
pub(crate) fn new_p2pkh(hash: &[u8; 20]) -> (r: Vec<u8>)
    ensures
        r@ == script::p2pkh_script(hash@),
{
    ScriptBuf::new_p2pkh(&BtcPubkeyHash::from_byte_array(*hash)).into_bytes()
}

/// `ScriptBuf::new_v1_p2tr_tweaked`: the script that pays to a taproot output
/// key.
#[verifier::external_body]
pub(crate) fn new_v1_p2tr_tweaked(key: &[u8; 32]) -> (r: Vec<u8>)
    requires
        keys::is_x_only_key(key@),
    ensures
        r@ == script::p2tr_script(key@),
{
    let key = XOnlyPublicKey::from_slice(key).unwrap();
    ScriptBuf::new_v1_p2tr_tweaked(OutputKey::dangerous_assume_tweaked(key)).into_bytes()
}

/// `PushBytesBuf`, a list of bytes short enough to be pushed by a script.
#[verifier::external_type_specification]
#[verifier::external_body]
pub struct ExPushBytesBuf(PushBytesBuf);

/// The bytes of a `PushBytesBuf`.
pub uninterp spec fn push_bytes(buf: PushBytesBuf) -> Seq<u8>;

/// `PushBytesBuf::new`: no bytes.
pub assume_specification[ PushBytesBuf::new ]() -> (r: PushBytesBuf)
    ensures
        push_bytes(r) == Seq::<u8>::empty(),
;

/// `PushBytesBuf::push`: one byte more, or an error and no change where that
/// would make it longer than a script can push.
pub assume_specification[ PushBytesBuf::push ](buf: &mut PushBytesBuf, byte: u8) -> (r:
    std::result::Result<(), PushBytesError>)
    ensures
        r is Ok <==> push_bytes(*old(buf)).len() + 1 <= u32::MAX,
        r is Ok ==> push_bytes(*final(buf)) == push_bytes(*old(buf)).push(byte),
        r is Err ==> push_bytes(*final(buf)) == push_bytes(*old(buf)),
;

/// `PushBytesBuf::extend_from_slice`: the bytes of the slice at the end, or an
/// error and no change where that would make it longer than a script can push.
pub assume_specification[ PushBytesBuf::extend_from_slice ](
    buf: &mut PushBytesBuf,
    bytes: &[u8],
) -> (r: std::result::Result<(), PushBytesError>)
    ensures
        r is Ok <==> push_bytes(*old(buf)).len() + bytes@.len() <= u32::MAX,
        r is Ok ==> push_bytes(*final(buf)) == push_bytes(*old(buf)) + bytes@,
        r is Err ==> push_bytes(*final(buf)) == push_bytes(*old(buf)),
;

/// `script::Builder`, a script that is being written.
#[verifier::external_type_specification]
#[verifier::external_body]
pub struct ExBuilder(Builder);

/// The bytes that a `Builder` has written so far.
pub uninterp spec fn script_bytes(builder: Builder) -> Seq<u8>;

/// `Builder::new`: an empty script.
pub assume_specification[ Builder::new ]() -> (r: Builder)
    ensures
        script_bytes(r) == Seq::<u8>::empty(),
;

/// `Builder::push_opcode`: the opcode's byte at the end.
#[verifier::external_body]
pub(crate) fn push_opcode(builder: Builder, opcode: u8) -> (r: Builder)
    ensures
        script_bytes(r) == script_bytes(builder).push(opcode),
{
    builder.push_opcode(Opcode::from(opcode))
}

/// `Builder::push_slice`: an instruction that pushes the bytes, at the end. It
/// panics on more bytes than a script can push.
#[verifier::external_body]
pub(crate) fn push_slice(builder: Builder, data: PushBytesBuf) -> (r: Builder)
    requires
        push_bytes(data).len() <= u32::MAX,
    ensures
        script_bytes(r) == script_bytes(builder) + script::push_instruction(push_bytes(data)),
{
    builder.push_slice(data)
}

/// `Builder::into_bytes`: what has been written.
pub assume_specification[ Builder::into_bytes ](builder: Builder) -> (r: Vec<u8>)
    ensures
        r@ == script_bytes(builder),
;

// Transactions.

/// `bitcoin::Witness`, the list of byte strings that unlocks an input.
#[verifier::external_type_specification]
#[verifier::external_body]
pub struct ExWitness(BtcWitness);

/// The byte strings of a witness, in order.
pub uninterp spec fn witness_items(witness: BtcWitness) -> Seq<Seq<u8>>;

/// `Witness::new`: a witness without items.
pub assume_specification[ BtcWitness::new ]() -> (r: BtcWitness)
    ensures
        witness_items(r) == Seq::<Seq<u8>>::empty(),
;

/// `Witness::clone`: a witness with the same items.
pub assume_specification[ <BtcWitness as Clone>::clone ](witness: &BtcWitness) -> (r: BtcWitness)
    ensures
        witness_items(r) == witness_items(*witness),
;

/// `Height::from_consensus`: a number below 500,000,000 is a block height and
/// handed back, anything else is an error.
#[verifier::external_body]
pub(crate) fn height_from_consensus(n: u32) -> (r: Result<u32, HeightError>)
    ensures
        r is Ok <==> n < 500_000_000,
        r matches Ok(height) ==> height == n,
{
    Height::from_consensus(n).map(|height| height.to_consensus_u32())
}

/// `Decodable::consensus_decode_from_finite_reader` of an `OutPoint`: the first
/// 36 bytes, and the bytes that are left; an error where there are fewer.
#[verifier::external_body]
pub(crate) fn decode_out_point(data: &[u8]) -> (r: Result<(OutPoint, &[u8]), DecodeError>)
    ensures
        r is Ok <==> transaction::read_out_point(data@) is Some,
        r matches Ok((point, rest)) ==> transaction::read_out_point(data@) == Some((point@, rest@)),
{
    let mut reader = data;
    let point = BtcOutPoint::consensus_decode_from_finite_reader(&mut reader)?;
    Ok((OutPoint { txid: point.txid.to_byte_array(), vout: point.vout }, reader))
}

/// `Decodable::consensus_decode_from_finite_reader` of a `ScriptBuf`: a compact
/// size and as many bytes, and the bytes that are left; an error where the size
/// is not in its shortest form or there are too few bytes.
#[verifier::external_body]
pub(crate) fn decode_script(data: &[u8]) -> (r: Result<(Vec<u8>, &[u8]), DecodeError>)
    ensures
        r is Ok <==> codec::read_sized_bytes(data@) is Some,
        r matches Ok((script, rest)) ==> codec::read_sized_bytes(data@) == Some((script@, rest@)),
{
    let mut reader = data;
    let script = ScriptBuf::consensus_decode_from_finite_reader(&mut reader)?;
    Ok((script.into_bytes(), reader))
}

/// `Decodable::consensus_decode_from_finite_reader` of a `Sequence`: four
/// little-endian bytes, and the bytes that are left; an error where there are
/// fewer.
#[verifier::external_body]
pub(crate) fn decode_sequence(data: &[u8]) -> (r: Result<(u32, &[u8]), DecodeError>)
    ensures
        r is Ok <==> codec::read_le(data@, 4) is Some,
        r matches Ok((sequence, rest)) ==> codec::read_le(data@, 4) == Some((sequence as nat, rest@)),
{
    let mut reader = data;
    let sequence = Sequence::consensus_decode_from_finite_reader(&mut reader)?;
    Ok((sequence.0, reader))
}

/// `Encodable::consensus_encode` of a `Transaction` into a `Vec<u8>`: the
/// transaction's consensus encoding. It hands on the errors of the writer, and
/// writing to a `Vec<u8>` has none.
#[verifier::external_body]
pub(crate) fn encode_transaction(tx: &Transaction) -> (r: Result<Vec<u8>, IoError>)
    ensures
        r is Ok,
        r->Ok_0@ == transaction::encode_transaction(tx@),
{
    let tx = BtcTransaction {
        version: tx.version,
        lock_time: LockTime::from_consensus(tx.lock_time),
        input: tx.input.iter().map(|i| BtcTxIn {
            previous_output: BtcOutPoint::new(HashBytes::from_byte_array(i.previous_output.txid), i.previous_output.vout),
            script_sig: i.script_sig.clone().into(), sequence: Sequence(i.sequence), witness: i.witness.clone(),
        }).collect(),
        output: tx.output.iter().map(|o| BtcTxOut { value: o.value, script_pubkey: o.script_pubkey.clone().into() }).collect(),
    };
    let mut buffer = Vec::new();
    tx.consensus_encode(&mut buffer).map(|_| buffer)
}

/// The hash that `SighashCache::legacy_signature_hash` returns, for a
/// transaction without claims.
pub uninterp spec fn legacy_sighash(
    tx: TransactionView,
    index: int,
    script_pubkey: Seq<u8>,
    sighash_type: u32,
) -> Seq<u8>;

/// `SighashCache::legacy_signature_hash`: the hash that the signature of an
/// input commits to, or an error where the transaction has no such input. The
/// scripts and witnesses in the transaction's inputs do not enter into the hash.
#[verifier::external_body]
pub(crate) fn legacy_signature_hash(
    tx: &Transaction,
    index: usize,
    script_pubkey: &Vec<u8>,
    sighash_type: u32,
) -> (r: Result<[u8; 32], SighashError>)
    ensures
        r is Ok <==> index < tx@.input.len(),
        r matches Ok(hash) ==> hash@ == legacy_sighash(
            transaction::without_claims(tx@),
            index as int,
            script_pubkey@,
            sighash_type,
        ),
{
    let tx = BtcTransaction {
        version: tx.version,
        lock_time: LockTime::from_consensus(tx.lock_time),
        input: tx.input.iter().map(|i| BtcTxIn {
            previous_output: BtcOutPoint::new(HashBytes::from_byte_array(i.previous_output.txid), i.previous_output.vout),
            script_sig: i.script_sig.clone().into(), sequence: Sequence(i.sequence), witness: i.witness.clone(),
        }).collect(),
        output: tx.output.iter().map(|o| BtcTxOut { value: o.value, script_pubkey: o.script_pubkey.clone().into() }).collect(),
    };
    let cache = SighashCache::new(&tx);
    cache.legacy_signature_hash(index, Script::from_bytes(script_pubkey), sighash_type).map(HashBytes::to_byte_array)
}

/// The hash that `SighashCache::taproot_key_spend_signature_hash` returns, for a
/// transaction without claims, given all outputs that it spends.
pub uninterp spec fn taproot_sighash(
    tx: TransactionView,
    index: int,
    prevouts: Seq<TxOutView>,
    sighash_type: u8,
) -> Seq<u8>;

/// `SighashCache::taproot_key_spend_signature_hash`, given all outputs that the
/// transaction spends: the hash that the signature of an input commits to. The
/// scripts and witnesses in the inputs do not enter into it. With the type 1 (sign all inputs and outputs) it is an error exactly where there
/// are not as many spent outputs as inputs.
#[verifier::external_body]
pub(crate) fn taproot_key_spend_signature_hash(
    tx: Transaction,
    index: usize,
    prevouts: Vec<TxOut>,
    sighash_type: u8,
) -> (r: Result<[u8; 32], SighashError>)
    ensures
        sighash_type == 1 ==> (r is Ok <==> prevouts@.len() == tx@.input.len()),
        r matches Ok(hash) ==> hash@ == taproot_sighash(
            transaction::without_claims(tx@),
            index as int,
            transaction::tx_outs(prevouts@),
            sighash_type,
        ),
{
    let out = |o: TxOut| BtcTxOut { value: o.value, script_pubkey: o.script_pubkey.into() };
    let tx = BtcTransaction {
        version: tx.version,
        lock_time: LockTime::from_consensus(tx.lock_time),
        input: tx.input.into_iter().map(|i| BtcTxIn {
            previous_output: BtcOutPoint::new(HashBytes::from_byte_array(i.previous_output.txid), i.previous_output.vout),
            script_sig: i.script_sig.into(), sequence: Sequence(i.sequence), witness: i.witness,
        }).collect(),
        output: tx.output.into_iter().map(out).collect(),
    };
    let prevouts = Vec::from_iter(prevouts.into_iter().map(out));
    SighashCache::new(&tx)
        .taproot_key_spend_signature_hash(index, &Prevouts::All(&prevouts), TapSighashType::from_consensus_u8(sighash_type)?)
        .map(HashBytes::to_byte_array)
}

} // verus!
