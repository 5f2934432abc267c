//! What outputs pay.

use vstd::prelude::*;

use crate::keys::{self, PublicKey, TweakedPublicKey};
use crate::output::{self, TxOutput, TxOutputP2PKH, TxOutputP2TKeyPath};
use crate::outside;
use crate::script::PubkeyHash;
use crate::transaction::TxOut;

verus! {

/// An output to a public key hash pays the amount that was given, under the
/// script `OP_DUP OP_HASH160 <hash> OP_EQUALVERIFY OP_CHECKSIG`.
pub proof fn law_p2pkh_output_pays(
    satoshis: u64,
    hash: PubkeyHash,
    output: TxOutputP2PKH,
    kind: TxOutput,
    paid: TxOut,
)
    requires
        call_ensures(TxOutputP2PKH::new, (satoshis, &hash), output),
        call_ensures(<TxOutput as From<TxOutputP2PKH>>::from, (output,), kind),
        call_ensures(<TxOut as From<TxOutput>>::from, (kind,), paid),
    ensures
        output@.value == satoshis,
        output@.script_pubkey == paid.script_pubkey@,
        kind == TxOutput::P2PKH(output),
        paid.value == satoshis,
        paid.script_pubkey@ == seq![0x76u8, 0xa9u8, 0x14u8] + hash.0@ + seq![0x88u8, 0xacu8],
{
}

/// An output to a key that is tweaked already pays the amount that was given,
/// under the script `OP_1 <key>`.
pub proof fn law_tweaked_output_pays(
    satoshis: u64,
    key: TweakedPublicKey,
    output: TxOutputP2TKeyPath,
    kind: TxOutput,
    paid: TxOut,
)
    requires
        call_ensures(TxOutputP2TKeyPath::new_tweaked, (satoshis, key), output),
        call_ensures(<TxOutput as From<TxOutputP2TKeyPath>>::from, (output,), kind),
        call_ensures(<TxOut as From<TxOutput>>::from, (kind,), paid),
    ensures
        output@.value == satoshis,
        output@.script_pubkey == paid.script_pubkey@,
        kind == TxOutput::P2TRKeyPath(output),
        paid.value == satoshis,
        paid.script_pubkey@ == seq![0x51u8, 0x20u8] + key@,
{
}

/// An output to a public key pays the amount that was given to the sum of the
/// key and its hash, under the script `OP_1 <key>`. It is the output to the key
/// that tweaking gives.
pub proof fn law_taproot_output_pays(
    satoshis: u64,
    key: PublicKey,
    output: TxOutputP2TKeyPath,
    kind: TxOutput,
    paid: TxOut,
    tweaked: TweakedPublicKey,
)
    requires
        call_ensures(TxOutputP2TKeyPath::new, (satoshis, key), output),
        call_ensures(<TxOutput as From<TxOutputP2TKeyPath>>::from, (output,), kind),
        call_ensures(<TxOut as From<TxOutput>>::from, (kind,), paid),
        call_ensures(keys::tweak_pubkey, (key,), tweaked),
        outside::key_plus_tweak(key@.skip(1), outside::tap_tweak_hash(key@.skip(1))) is Some,
    ensures
        output@.value == satoshis,
        output@.script_pubkey == paid.script_pubkey@,
        kind == TxOutput::P2TRKeyPath(output),
        paid.value == satoshis,
        paid.script_pubkey@ == seq![0x51u8, 0x20u8] + tweaked@,
        outside::key_plus_tweak(key@.skip(1), outside::tap_tweak_hash(key@.skip(1))) == Some(
            paid.script_pubkey@.skip(2),
        ),
{
    let sum = outside::key_plus_tweak(
        key@.skip(1),
        outside::tap_tweak_hash(key@.skip(1)),
    )->Some_0;
    assert((seq![0x51u8, 0x20u8] + sum).skip(2) =~= sum);
}

/// The checked output is there exactly where the key is an x-only key whose hash
/// is a number below the order of the curve and can be added to it, and then
/// pays what the unchecked one pays.
pub proof fn law_checked_output_pays(
    satoshis: u64,
    key: PublicKey,
    checked: Option<TxOutputP2TKeyPath>,
    kind: TxOutput,
    paid: TxOut,
)
    requires
        call_ensures(TxOutputP2TKeyPath::checked_new, (satoshis, key), checked),
        checked is Some ==> kind == TxOutput::P2TRKeyPath(checked->Some_0),
        call_ensures(<TxOut as From<TxOutput>>::from, (kind,), paid),
    ensures
        ({
            let x = key@.skip(1);
            let hash = outside::tap_tweak_hash(x);
            &&& checked is Some <==> keys::is_x_only_key(x) && hash.len() == 32 && keys::be_value(
                hash,
            ) < keys::group_order() && outside::key_plus_tweak(x, hash) is Some
            &&& checked is Some ==> paid.value == satoshis && paid.script_pubkey@ == seq![
                0x51u8,
                0x20u8,
            ] + outside::key_plus_tweak(x, hash)->Some_0
        }),
{
}

/// What an output becomes in a transaction is what it holds, amount and script.
pub proof fn law_paid_output(p2pkh: TxOutputP2PKH, taproot: TxOutputP2TKeyPath)
    ensures
        output::paid_output(TxOutput::P2PKH(p2pkh)) == p2pkh@,
        output::paid_output(TxOutput::P2TRKeyPath(taproot)) == taproot@,
{
}

/// Turning an output into one of a transaction keeps its amount and its script.
pub proof fn law_conversion_keeps_output(kind: TxOutput, paid: TxOut)
    requires
        call_ensures(<TxOut as From<TxOutput>>::from, (kind,), paid),
    ensures
        kind matches TxOutput::P2PKH(o) ==> paid.value == o@.value && paid.script_pubkey@
            == o@.script_pubkey,
        kind matches TxOutput::P2TRKeyPath(o) ==> paid.value == o@.value && paid.script_pubkey@
            == o@.script_pubkey,
{
}

/// A copy of an output is of the same kind and becomes the same output of a
/// transaction.
pub proof fn law_copy_pays_alike(a: TxOutput, b: TxOutput, a_paid: TxOut, b_paid: TxOut)
    requires
        call_ensures(<TxOutput as Clone>::clone, (&a,), b),
        call_ensures(<TxOut as From<TxOutput>>::from, (a,), a_paid),
        call_ensures(<TxOut as From<TxOutput>>::from, (b,), b_paid),
    ensures
        a is P2PKH <==> b is P2PKH,
        a_paid.value == b_paid.value,
        a_paid.script_pubkey@ == b_paid.script_pubkey@,
{
}

/// A copy of a transaction's output has its amount and its script.
pub proof fn law_copy_of_tx_out(a: TxOut, b: TxOut)
    requires
        call_ensures(<TxOut as Clone>::clone, (&a,), b),
    ensures
        b.value == a.value,
        b.script_pubkey@ == a.script_pubkey@,
{
}

} // verus!
