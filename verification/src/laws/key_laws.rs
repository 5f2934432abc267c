//! What keys are, and which belong together.

use vstd::prelude::*;

use crate::error::{Error, Result};
use crate::hash::{LegacySighash, Message, TapSighash, TransactionHash};
use crate::keys::{self, KeyPair, PublicKey, TweakedKeyPair, TweakedPublicKey};
use crate::outside;

verus! {

/// Big-endian numbers: nothing is zero, and a byte at the end is the lowest
/// digit.
pub proof fn law_big_endian(s: Seq<u8>, b: u8)
    ensures
        keys::be_value(Seq::empty()) == 0,
        keys::be_value(s.push(b)) == 256 * keys::be_value(s) + b,
{
    assert(s.push(b).drop_last() =~= s);
}

/// What keys and secret keys are: an x coordinate on `y^2 = x^3 + 7` over the
/// field, the same behind a byte that says the parity of y, and a number that is
/// neither zero nor as large as the order of the curve.
pub proof fn law_what_keys_are(s: Seq<u8>)
    ensures
        keys::is_x_only_key(s) <==> {
            let p =
                0xFFFFFFFF_FFFFFFFF_FFFFFFFF_FFFFFFFF_FFFFFFFF_FFFFFFFF_FFFFFFFE_FFFFFC2Fnat;
            let x = keys::be_value(s);
            s.len() == 32 && x < p && exists|y: nat|
                (#[trigger] (y * y)) % p == (x * x * x + 7) % p
        },
        keys::is_compressed_key(s) <==> s.len() == 33 && (s[0] == 2 || s[0] == 3)
            && keys::is_x_only_key(s.skip(1)),
        keys::is_scalar(s) <==> s.len() == 32 && keys::be_value(s)
            < 0xFFFFFFFF_FFFFFFFF_FFFFFFFF_FFFFFFFE_BAAEDCE6_AF48A03B_BFD25E8C_D0364141nat,
        keys::is_secret_key(s) <==> keys::is_scalar(s) && keys::be_value(s) != 0,
{
    let p = 0xFFFFFFFF_FFFFFFFF_FFFFFFFF_FFFFFFFF_FFFFFFFF_FFFFFFFF_FFFFFFFE_FFFFFC2Fnat;
    let x = keys::be_value(s);
    assert forall|y: nat| (#[trigger] (y * y)) % p == (x * x * x + 7) % p implies keys::solves_curve(
        x,
        y,
    ) by {}
    if exists|y: nat| #[trigger] keys::solves_curve(x, y) {
        let y = choose|y: nat| #[trigger] keys::solves_curve(x, y);
        assert((y * y) % p == (x * x * x + 7) % p);
    }
}

/// A public key is read exactly from the compressed form of a key, and written
/// in all 33 bytes as it was read.
pub proof fn law_public_key_is_written_back(bytes: [u8; 33], r: Result<PublicKey>, back: [u8; 33])
    requires
        call_ensures(PublicKey::from_compressed, (&bytes,), r),
        r is Ok ==> call_ensures(PublicKey::serialize, (&r->Ok_0,), back),
    ensures
        r is Ok <==> keys::is_compressed_key(bytes@),
        r is Ok ==> back@ == bytes@,
        r is Err ==> r->Err_0 == Error::Todo,
{
}

/// An output key is taken exactly from an x-only key, and written as it was
/// taken.
pub proof fn law_output_key_is_written_back(
    bytes: [u8; 32],
    r: Result<TweakedPublicKey>,
    back: [u8; 32],
)
    requires
        call_ensures(TweakedPublicKey::from_x_only, (&bytes,), r),
        r is Ok ==> call_ensures(TweakedPublicKey::serialize, (&r->Ok_0,), back),
    ensures
        r is Ok <==> keys::is_x_only_key(bytes@),
        r is Ok ==> back@ == bytes@,
        r is Err ==> r->Err_0 == Error::Todo,
{
}

/// The key pair of a secret key holds that secret key, and in all 33 bytes the
/// public key that belongs to it.
pub proof fn law_key_pair_belongs_together(
    secret: [u8; 32],
    pair: KeyPair,
    secret_back: [u8; 32],
    public_key: PublicKey,
    public_bytes: [u8; 33],
)
    requires
        call_ensures(KeyPair::from_secret_key, (&secret,), pair),
        call_ensures(KeyPair::secret_bytes, (&pair,), secret_back),
        call_ensures(KeyPair::public_key, (&pair,), public_key),
        call_ensures(PublicKey::serialize, (&public_key,), public_bytes),
    ensures
        pair@.secret_key == secret@,
        pair@.public_key == outside::public_key_of(secret@),
        secret_back@ == secret@,
        public_bytes@ == outside::public_key_of(secret@),
{
}

/// Every key pair holds, in all 33 bytes, the public key that belongs to its
/// secret key.
pub proof fn law_every_key_pair_belongs_together(
    pair: KeyPair,
    secret: [u8; 32],
    public_key: PublicKey,
    public_bytes: [u8; 33],
)
    requires
        call_ensures(KeyPair::secret_bytes, (&pair,), secret),
        call_ensures(KeyPair::public_key, (&pair,), public_key),
        call_ensures(PublicKey::serialize, (&public_key,), public_bytes),
    ensures
        keys::is_secret_key(secret@),
        public_bytes@ == outside::public_key_of(secret@),
{
}

/// A string in wallet import format gives the pair of the secret key that it
/// holds: that secret key, and in all 33 bytes the public key that belongs to
/// it. Every other string is refused.
pub proof fn law_wif_gives_its_key_pair(
    wif: &str,
    r: Result<KeyPair>,
    secret: [u8; 32],
    public_key: PublicKey,
    public_bytes: [u8; 33],
)
    requires
        call_ensures(keys::keypair_from_wif, (wif,), r),
        r is Ok ==> call_ensures(KeyPair::secret_bytes, (&r->Ok_0,), secret),
        r is Ok ==> call_ensures(KeyPair::public_key, (&r->Ok_0,), public_key),
        r is Ok ==> call_ensures(PublicKey::serialize, (&public_key,), public_bytes),
    ensures
        r is Ok <==> outside::wif_secret_key(wif@) is Some,
        r is Ok ==> outside::wif_secret_key(wif@) == Some(secret@),
        r is Ok ==> r->Ok_0@.secret_key == secret@,
        r is Ok ==> r->Ok_0@.public_key == outside::public_key_of(secret@),
        r is Ok ==> public_bytes@ == outside::public_key_of(secret@),
        r is Err ==> r->Err_0 == Error::Todo,
{
}

/// The tweak of a public key is the sum of its x coordinate and that
/// coordinate's hash; the parity of y has no part in it.
pub proof fn law_tweak_is_the_sum(key: PublicKey, tweaked: TweakedPublicKey, bytes: [u8; 32])
    requires
        call_ensures(keys::tweak_pubkey, (key,), tweaked),
        call_ensures(TweakedPublicKey::serialize, (&tweaked,), bytes),
        outside::key_plus_tweak(key@.skip(1), outside::tap_tweak_hash(key@.skip(1))) is Some,
    ensures
        outside::key_plus_tweak(key@.skip(1), outside::tap_tweak_hash(key@.skip(1))) == Some(
            bytes@,
        ),
{
}

/// The tweak of an x-only key is the sum of the key and its hash.
pub proof fn law_x_only_tweak_is_the_sum(
    key: [u8; 32],
    tweaked: TweakedPublicKey,
    bytes: [u8; 32],
)
    requires
        call_ensures(keys::tweak_x_only_key, (&key,), tweaked),
        call_ensures(TweakedPublicKey::serialize, (&tweaked,), bytes),
        outside::key_plus_tweak(key@, outside::tap_tweak_hash(key@)) is Some,
    ensures
        outside::key_plus_tweak(key@, outside::tap_tweak_hash(key@)) == Some(bytes@),
{
}

/// A key can be tweaked exactly where it is an x-only key, its hash is a number
/// below the order of the curve, and the two have a sum; the tweak is that sum.
pub proof fn law_tweak_of_a_key(key: Seq<u8>)
    ensures
        keys::can_be_tweaked(key) <==> keys::is_x_only_key(key) && outside::tap_tweak_hash(
            key,
        ).len() == 32 && keys::be_value(outside::tap_tweak_hash(key))
            < 0xFFFFFFFF_FFFFFFFF_FFFFFFFF_FFFFFFFE_BAAEDCE6_AF48A03B_BFD25E8C_D0364141nat
            && outside::key_plus_tweak(key, outside::tap_tweak_hash(key)) is Some,
        keys::can_be_tweaked(key) ==> outside::key_plus_tweak(key, outside::tap_tweak_hash(key))
            == Some(keys::tap_tweaked_key(key)),
{
}

/// Bytes can be tweaked exactly where they are an x-only key, their hash is a
/// number below the order of the curve, and the two have a sum.
pub proof fn law_what_can_be_tweaked(key: [u8; 32], r: bool, tweaked: Option<TweakedPublicKey>)
    requires
        call_ensures(keys::is_tweakable, (&key,), r),
        call_ensures(keys::checked_tweak_x_only_key, (&key,), tweaked),
    ensures
        ({
            let hash = outside::tap_tweak_hash(key@);
            let possible = keys::is_x_only_key(key@) && keys::is_scalar(hash)
                && outside::key_plus_tweak(key@, hash) is Some;
            &&& r == possible
            &&& keys::can_be_tweaked(key@) == possible
            &&& tweaked is Some <==> possible
            &&& tweaked matches Some(t) ==> outside::key_plus_tweak(key@, hash) == Some(t@)
        }),
{
}

/// The checked tweak of a public key is there exactly where its x coordinate can
/// be tweaked, and then is the sum of the coordinate and its hash.
pub proof fn law_checked_tweak(key: PublicKey, r: bool, tweaked: Option<TweakedPublicKey>)
    requires
        call_ensures(PublicKey::is_tweakable, (&key,), r),
        call_ensures(keys::checked_tweak_pubkey, (key,), tweaked),
    ensures
        ({
            let x = key@.skip(1);
            let hash = outside::tap_tweak_hash(x);
            let possible = keys::is_x_only_key(x) && keys::is_scalar(hash)
                && outside::key_plus_tweak(x, hash) is Some;
            &&& r == possible
            &&& tweaked is Some <==> possible
            &&& tweaked matches Some(t) ==> outside::key_plus_tweak(x, hash) == Some(t@)
        }),
{
}

/// A tweaked key pair is the pair of the tweaked secret key, in all 33 bytes of
/// its public key; and up to the parity of y that is the tweak of the public
/// key.
pub proof fn law_tweaked_pair_belongs_together(
    pair: KeyPair,
    tweaked: TweakedKeyPair,
    inner: KeyPair,
    key: PublicKey,
    output_key: TweakedPublicKey,
)
    requires
        call_ensures(keys::tweak_keypair, (&pair,), tweaked),
        call_ensures(TweakedKeyPair::to_inner, (tweaked,), inner),
        call_ensures(KeyPair::public_key, (&pair,), key),
        call_ensures(keys::tweak_pubkey, (key,), output_key),
    ensures
        inner@.secret_key == outside::tap_tweaked_secret_key(pair@.secret_key),
        inner@.public_key == outside::public_key_of(inner@.secret_key),
        inner@.public_key.skip(1) == output_key@,
{
}

/// The checked tweak of a key pair is there exactly where its public key can be
/// tweaked, and then is what the unchecked one is.
pub proof fn law_checked_pair_tweak(
    pair: KeyPair,
    checked: Option<TweakedKeyPair>,
    tweaked: TweakedKeyPair,
)
    requires
        call_ensures(keys::checked_tweak_keypair, (&pair,), checked),
        call_ensures(keys::tweak_keypair, (&pair,), tweaked),
    ensures
        checked is Some <==> keys::can_be_tweaked(pair@.public_key.skip(1)),
        checked matches Some(t) ==> t@ == tweaked@,
{
}

/// The message that is signed is, byte for byte, the hash that it was made of.
pub proof fn law_message_is_the_hash(
    legacy: LegacySighash,
    tap: TapSighash,
    legacy_hash: TransactionHash,
    tap_hash: TransactionHash,
    legacy_message: Message,
    tap_message: Message,
    legacy_bytes: [u8; 32],
    tap_bytes: [u8; 32],
)
    requires
        call_ensures(TransactionHash::from_legacy_sig_hash, (legacy,), legacy_hash),
        call_ensures(TransactionHash::from_tapsig_hash, (tap,), tap_hash),
        call_ensures(<Message as From<TransactionHash>>::from, (legacy_hash,), legacy_message),
        call_ensures(<Message as From<TransactionHash>>::from, (tap_hash,), tap_message),
        call_ensures(Message::to_bytes, (&legacy_message,), legacy_bytes),
        call_ensures(Message::to_bytes, (&tap_message,), tap_bytes),
    ensures
        legacy_bytes@ == legacy.0@,
        tap_bytes@ == tap.0@,
        legacy_message@ == legacy.0@,
        tap_message@ == tap.0@,
{
}

} // verus!
