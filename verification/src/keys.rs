//! Keys on the curve secp256k1, as the bytes they are written in.

use vstd::prelude::*;

use crate::error::{Error, Result};
use crate::outside;

verus! {

/// The number whose big-endian digits to base 256 are `s`.
pub open spec fn be_value(s: Seq<u8>) -> nat
    decreases s.len(),
{
    if s.len() == 0 {
        0
    } else {
        256 * be_value(s.drop_last()) + s.last() as nat
    }
}

/// The prime of the field that secp256k1 is defined over.
pub open spec fn field_prime() -> nat {
    0xFFFFFFFF_FFFFFFFF_FFFFFFFF_FFFFFFFF_FFFFFFFF_FFFFFFFF_FFFFFFFE_FFFFFC2Fnat
}

/// The number of points on secp256k1.
pub open spec fn group_order() -> nat {
    0xFFFFFFFF_FFFFFFFF_FFFFFFFF_FFFFFFFE_BAAEDCE6_AF48A03B_BFD25E8C_D0364141nat
}

/// Whether `(x, y)` solves the curve's equation.
pub open spec fn solves_curve(x: nat, y: nat) -> bool {
    (y * y) % field_prime() == (x * x * x + 7) % field_prime()
}

/// Whether `x` is the coordinate of a point on the curve.
pub open spec fn is_curve_x(x: nat) -> bool {
    x < field_prime() && exists|y: nat| #[trigger] solves_curve(x, y)
}

/// Whether `s` is an x-only public key.
pub open spec fn is_x_only_key(s: Seq<u8>) -> bool {
    s.len() == 32 && is_curve_x(be_value(s))
}

/// Whether `s` is a public key in compressed form: the parity of y, then x.
pub open spec fn is_compressed_key(s: Seq<u8>) -> bool {
    s.len() == 33 && (s[0] == 2 || s[0] == 3) && is_curve_x(be_value(s.skip(1)))
}

/// Whether `s` is a secret key.
pub open spec fn is_secret_key(s: Seq<u8>) -> bool {
    s.len() == 32 && 0 < be_value(s) < group_order()
}

/// Whether `s` is a number below the order of the curve.
pub open spec fn is_scalar(s: Seq<u8>) -> bool {
    s.len() == 32 && be_value(s) < group_order()
}

/// Whether an x-only public key can be tweaked by its own hash: the hash is a
/// number below the order of the curve, and the sum is a key. No key is known
/// for which that fails.
pub open spec fn can_be_tweaked(key: Seq<u8>) -> bool {
    &&& is_x_only_key(key)
    &&& is_scalar(outside::tap_tweak_hash(key))
    &&& outside::key_plus_tweak(key, outside::tap_tweak_hash(key)) is Some
}

/// An x-only public key, tweaked by its own hash.
pub open spec fn tap_tweaked_key(key: Seq<u8>) -> Seq<u8> {
    outside::key_plus_tweak(key, outside::tap_tweak_hash(key))->Some_0
}

/// A public key, in compressed form.
#[derive(Debug, Clone, Copy, PartialEq, Eq)]
pub struct PublicKey {
    bytes: [u8; 33],
}

impl View for PublicKey {
    type V = Seq<u8>;

    closed spec fn view(&self) -> Seq<u8> {
        self.bytes@
    }
}

impl PublicKey {
    #[verifier::type_invariant]
    spec fn valid(self) -> bool {
        is_compressed_key(self.bytes@)
    }

    /// Reads a public key in compressed form.
    pub fn from_compressed(bytes: &[u8; 33]) -> (r: Result<PublicKey>)
        ensures
            is_compressed_key(bytes@) ==> r is Ok && r->Ok_0@ == bytes@,
            !is_compressed_key(bytes@) ==> r == Err::<PublicKey, Error>(Error::Todo),
    {
        match outside::parse_public_key(bytes) {
            Ok(bytes) => Ok(PublicKey { bytes }),
            Err(_) => Err(Error::Todo),
        }
    }

    /// The key in compressed form.
    pub fn serialize(&self) -> (r: [u8; 33])
        ensures
            r@ == self@,
            is_compressed_key(self@),
    {
        proof {
            use_type_invariant(self);
        }
        self.bytes
    }

    /// Whether the key can be tweaked, without a script tree.
    pub fn is_tweakable(&self) -> (r: bool)
        ensures
            r == can_be_tweaked(self@.skip(1)),
    {
        let bytes = self.serialize();
        let x_only = outside::x_only_public_key(&bytes);
        is_tweakable(&x_only)
    }
}

/// The key that a taproot output pays to.
#[derive(Debug, Clone, Copy, PartialEq, Eq)]
pub struct TweakedPublicKey {
    bytes: [u8; 32],
}

impl View for TweakedPublicKey {
    type V = Seq<u8>;

    closed spec fn view(&self) -> Seq<u8> {
        self.bytes@
    }
}

impl TweakedPublicKey {
    #[verifier::type_invariant]
    spec fn valid(self) -> bool {
        is_x_only_key(self.bytes@)
    }

    /// Takes an x-only public key as one that is tweaked already.
    pub fn from_x_only(bytes: &[u8; 32]) -> (r: Result<TweakedPublicKey>)
        ensures
            is_x_only_key(bytes@) ==> r is Ok && r->Ok_0@ == bytes@,
            !is_x_only_key(bytes@) ==> r == Err::<TweakedPublicKey, Error>(Error::Todo),
    {
        match outside::parse_x_only_key(bytes) {
            Ok(bytes) => Ok(TweakedPublicKey { bytes }),
            Err(_) => Err(Error::Todo),
        }
    }

    /// The x coordinate of the key.
    pub fn serialize(&self) -> (r: [u8; 32])
        ensures
            r@ == self@,
            is_x_only_key(self@),
    {
        proof {
            use_type_invariant(self);
        }
        self.bytes
    }
}

/// Whether 32 bytes are an x-only public key that can be tweaked, without a
/// script tree.
pub fn is_tweakable(key: &[u8; 32]) -> (r: bool)
    ensures
        r == can_be_tweaked(key@),
{
    match outside::parse_x_only_key(key) {
        Ok(key) => {
            let hash = outside::hash_of_key(&key);
            match outside::parse_scalar(&hash) {
                Ok(tweak) => outside::add_tweak(&key, &tweak).is_ok(),
                Err(_) => false,
            }
        },
        Err(_) => false,
    }
}

/// Tweaks an x-only public key, without a script tree.
pub fn tweak_x_only_key(key: &[u8; 32]) -> (r: TweakedPublicKey)
    requires
        can_be_tweaked(key@),
    ensures
        r@ == tap_tweaked_key(key@),
{
    TweakedPublicKey { bytes: outside::tap_tweak(key) }
}

/// Tweaks an x-only public key, without a script tree; `None` where the bytes
/// are no key or it cannot be tweaked.
pub fn checked_tweak_x_only_key(key: &[u8; 32]) -> (r: Option<TweakedPublicKey>)
    ensures
        r is Some <==> can_be_tweaked(key@),
        r matches Some(tweaked) ==> tweaked@ == tap_tweaked_key(key@),
{
    if is_tweakable(key) {
        Some(tweak_x_only_key(key))
    } else {
        None
    }
}

/// Tweaks a public key, without a script tree.
pub fn tweak_pubkey(pubkey: PublicKey) -> (r: TweakedPublicKey)
    requires
        can_be_tweaked(pubkey@.skip(1)),
    ensures
        r@ == tap_tweaked_key(pubkey@.skip(1)),
{
    let bytes = pubkey.serialize();
    let x_only = outside::x_only_public_key(&bytes);
    tweak_x_only_key(&x_only)
}

/// Tweaks a public key, without a script tree; `None` where it cannot be tweaked.
pub fn checked_tweak_pubkey(pubkey: PublicKey) -> (r: Option<TweakedPublicKey>)
    ensures
        r is Some <==> can_be_tweaked(pubkey@.skip(1)),
        r matches Some(tweaked) ==> tweaked@ == tap_tweaked_key(pubkey@.skip(1)),
{
    if pubkey.is_tweakable() {
        Some(tweak_pubkey(pubkey))
    } else {
        None
    }
}

/// A secret key and the public key that belongs to it.
#[derive(Clone, Copy, PartialEq, Eq)]
pub struct KeyPair {
    secret_key: [u8; 32],
    public_key: PublicKey,
}

/// What a [`KeyPair`] holds.
pub struct KeyPairView {
    pub secret_key: Seq<u8>,
    pub public_key: Seq<u8>,
}

impl View for KeyPair {
    type V = KeyPairView;

    closed spec fn view(&self) -> KeyPairView {
        KeyPairView { secret_key: self.secret_key@, public_key: self.public_key@ }
    }
}

/// The key pair of a secret key.
pub open spec fn key_pair_of(secret_key: Seq<u8>) -> KeyPairView {
    KeyPairView { secret_key, public_key: outside::public_key_of(secret_key) }
}

impl KeyPair {
    #[verifier::type_invariant]
    spec fn valid(self) -> bool {
        is_secret_key(self.secret_key@) && self@ == key_pair_of(self.secret_key@)
    }

    /// Pairs a secret key with its public key.
    pub fn from_secret_key(secret_key: &[u8; 32]) -> (r: KeyPair)
        requires
            is_secret_key(secret_key@),
        ensures
            r@ == key_pair_of(secret_key@),
    {
        let public_key = PublicKey { bytes: outside::key_pair_public_key(secret_key) };
        KeyPair { secret_key: *secret_key, public_key }
    }

    /// The secret key.
    pub fn secret_bytes(&self) -> (r: [u8; 32])
        ensures
            r@ == self@.secret_key,
            is_secret_key(self@.secret_key),
            self@ == key_pair_of(self@.secret_key),
    {
        proof {
            use_type_invariant(self);
        }
        self.secret_key
    }

    /// The public key.
    pub fn public_key(&self) -> (r: PublicKey)
        ensures
            r@ == self@.public_key,
    {
        self.public_key
    }
}

/// The key pair of a private key in wallet import format; an error where the
/// string is not in that format.
pub fn keypair_from_wif(string: &str) -> (r: Result<KeyPair>)
    ensures
        match outside::wif_secret_key(string@) {
            Some(secret_key) => r is Ok && r->Ok_0@ == key_pair_of(secret_key),
            None => r == Err::<KeyPair, Error>(Error::Todo),
        },
{
    match outside::parse_wif(string) {
        Ok(secret_key) => Ok(KeyPair::from_secret_key(&secret_key)),
        Err(_) => Err(Error::Todo),
    }
}

/// A key pair that can spend a taproot output by its key.
#[derive(Clone, Copy, PartialEq, Eq)]
pub struct TweakedKeyPair {
    key_pair: KeyPair,
}

impl View for TweakedKeyPair {
    type V = KeyPairView;

    closed spec fn view(&self) -> KeyPairView {
        self.key_pair@
    }
}

impl TweakedKeyPair {
    /// The key pair itself.
    pub fn to_inner(self) -> (r: KeyPair)
        ensures
            r@ == self@,
    {
        self.key_pair
    }
}

/// Tweaks a key pair, without a script tree. Up to the parity of y its public
/// key is the tweak of the pair's public key.
pub fn tweak_keypair(keypair: &KeyPair) -> (r: TweakedKeyPair)
    requires
        can_be_tweaked(keypair@.public_key.skip(1)),
    ensures
        r@ == key_pair_of(outside::tap_tweaked_secret_key(keypair@.secret_key)),
        r@.public_key.skip(1) == tap_tweaked_key(keypair@.public_key.skip(1)),
{
    let secret_key = keypair.secret_bytes();
    let tweaked = outside::tap_tweak_key_pair(&secret_key);
    TweakedKeyPair { key_pair: KeyPair::from_secret_key(&tweaked) }
}

/// Tweaks a key pair, without a script tree; `None` where it cannot be tweaked.
pub fn checked_tweak_keypair(keypair: &KeyPair) -> (r: Option<TweakedKeyPair>)
    ensures
        r is Some <==> can_be_tweaked(keypair@.public_key.skip(1)),
        r matches Some(tweaked) ==> tweaked@ == key_pair_of(
            outside::tap_tweaked_secret_key(keypair@.secret_key),
        ) && tweaked@.public_key.skip(1) == tap_tweaked_key(keypair@.public_key.skip(1)),
{
    if keypair.public_key().is_tweakable() {
        Some(tweak_keypair(keypair))
    } else {
        None
    }
}

} // verus!
