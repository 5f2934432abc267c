//! Keys, tweaks and hashes.

use bitcoin::hashes::Hash as HashBytes;
use bitcoin::key::TapTweak;
use bitcoin::secp256k1::{self, Secp256k1};
use tw_bitcoin::{
    checked_tweak_keypair, checked_tweak_pubkey, checked_tweak_x_only_key, keypair_from_wif,
    tweak_keypair, tweak_pubkey, Error, KeyPair, LegacySighash, Message, PublicKey, TapSighash,
    TransactionHash, TweakedPublicKey,
};

const WIF_OF_ONE: &str = "KwDiBf89QgGbjEhKnhXJuH7LrciVrZi3qYjgd9M7rFU73sVHnoWn";

fn unhex(s: &str) -> Vec<u8> {
    (0..s.len() / 2).map(|i| u8::from_str_radix(&s[2 * i..2 * i + 2], 16).unwrap()).collect()
}

fn one() -> [u8; 32] {
    let mut key = [0; 32];
    key[31] = 1;
    key
}

fn compressed(parity: u8, x: &str) -> [u8; 33] {
    let mut bytes = vec![parity];
    bytes.extend(unhex(x));
    bytes.try_into().unwrap()
}

#[test]
fn wif_gives_key_pair() {
    let key_pair = keypair_from_wif(WIF_OF_ONE).unwrap();
    assert_eq!(key_pair.secret_bytes(), one());
    assert_eq!(
        key_pair.public_key().serialize().to_vec(),
        unhex("0279be667ef9dcbbac55a06295ce870b07029bfcdb2dce28d959f2815b16f81798"),
    );
    assert!(key_pair == KeyPair::from_secret_key(&one()));
}

#[test]
fn wif_with_wrong_checksum_is_refused() {
    let wrong = "KwDiBf89QgGbjEhKnhXJuH7LrciVrZi3qYjgd9M7rFU73sVHnoWo";
    assert_eq!(keypair_from_wif(wrong).err(), Some(Error::Todo));
}

#[test]
fn text_that_is_no_wif_is_refused() {
    assert_eq!(keypair_from_wif("").err(), Some(Error::Todo));
    assert_eq!(keypair_from_wif("not a key").err(), Some(Error::Todo));
}

#[test]
fn key_pair_has_the_public_key_of_its_secret_key() {
    for byte in [1u8, 2, 0x7f, 0xfe] {
        let secret = [byte; 32];
        let pair = secp256k1::KeyPair::from_seckey_slice(&Secp256k1::new(), &secret).unwrap();
        assert_eq!(
            KeyPair::from_secret_key(&secret).public_key().serialize(),
            pair.public_key().serialize(),
        );
    }
}

#[test]
fn compressed_keys_are_read_and_written() {
    let x = "79be667ef9dcbbac55a06295ce870b07029bfcdb2dce28d959f2815b16f81798";
    for parity in [2, 3] {
        let bytes = compressed(parity, x);
        assert_eq!(PublicKey::from_compressed(&bytes).unwrap().serialize(), bytes);
    }
}

#[test]
fn bytes_that_are_no_key_are_refused() {
    let x = "79be667ef9dcbbac55a06295ce870b07029bfcdb2dce28d959f2815b16f81798";
    // The first byte says neither parity.
    assert_eq!(PublicKey::from_compressed(&compressed(4, x)), Err(Error::Todo));
    assert_eq!(PublicKey::from_compressed(&compressed(0, x)), Err(Error::Todo));
    // No point has this coordinate: 5^3 + 7 is no square.
    let five = "0000000000000000000000000000000000000000000000000000000000000005";
    assert_eq!(PublicKey::from_compressed(&compressed(2, five)), Err(Error::Todo));
    // The prime of the field, and more.
    let prime = "fffffffffffffffffffffffffffffffffffffffffffffffffffffffefffffc2f";
    assert_eq!(PublicKey::from_compressed(&compressed(2, prime)), Err(Error::Todo));
    assert_eq!(PublicKey::from_compressed(&[0xff; 33]), Err(Error::Todo));
}

#[test]
fn tweak_of_a_known_key() {
    let x = "cc8a4bc64d897bddc5fbc2f670f7a8ba0b386779106cf1223c6fc5d7cd6fc115";
    let tweaked = "a60869f0dbcf1dc659c9cecbaf8050135ea9e8cdc487053f1dc6880949dc684c";
    for parity in [2, 3] {
        let key = PublicKey::from_compressed(&compressed(parity, x)).unwrap();
        assert_eq!(tweak_pubkey(key).serialize().to_vec(), unhex(tweaked));
    }
}

#[test]
fn tweaked_pair_has_the_tweaked_public_key() {
    for byte in [1u8, 3, 0x42, 0xfe] {
        let key_pair = KeyPair::from_secret_key(&[byte; 32]);
        let tweaked = tweak_keypair(&key_pair).to_inner();
        let expected = tweak_pubkey(key_pair.public_key());
        assert_eq!(tweaked.public_key().serialize()[1..], expected.serialize());
        assert!(tweaked != key_pair);
    }
}

#[test]
fn tweaked_pair_is_a_pair() {
    let secp = Secp256k1::new();
    let secret = [7; 32];
    let tweaked = tweak_keypair(&KeyPair::from_secret_key(&secret)).to_inner();
    let expected = secp256k1::KeyPair::from_seckey_slice(&secp, &secret)
        .unwrap()
        .tap_tweak(&secp, None)
        .to_inner();
    assert_eq!(tweaked.secret_bytes(), expected.secret_bytes());
    assert!(tweaked == KeyPair::from_secret_key(&tweaked.secret_bytes()));
}

#[test]
fn checked_tweaks_agree() {
    for byte in [1u8, 3, 0x42, 0xfe] {
        let key_pair = KeyPair::from_secret_key(&[byte; 32]);
        let key = key_pair.public_key();
        assert!(key.is_tweakable());
        assert_eq!(checked_tweak_pubkey(key), Some(tweak_pubkey(key)));
        assert!(checked_tweak_keypair(&key_pair) == Some(tweak_keypair(&key_pair)));
        let x_only: [u8; 32] = key.serialize()[1..].try_into().unwrap();
        assert_eq!(checked_tweak_x_only_key(&x_only), Some(tweak_pubkey(key)));
    }
}

#[test]
fn key_above_the_order_can_be_tweaked() {
    // The coordinate is no number below the order of the curve; its hash is.
    let x = "fffffffffffffffffffffffffffffffffffffffffffffffffffffffefffffc2c";
    let key = PublicKey::from_compressed(&compressed(2, x)).unwrap();
    let expected = secp256k1::XOnlyPublicKey::from_slice(&unhex(x))
        .unwrap()
        .tap_tweak(&Secp256k1::new(), None)
        .0;
    assert_eq!(checked_tweak_pubkey(key).unwrap().serialize(), expected.serialize());
}

#[test]
fn bytes_that_are_no_key_are_not_tweaked() {
    let mut five = [0; 32];
    five[31] = 5;
    assert_eq!(checked_tweak_x_only_key(&five), None);
    assert_eq!(checked_tweak_x_only_key(&[0xff; 32]), None);
}

#[test]
fn output_keys_are_taken_as_they_are() {
    let x = "a60869f0dbcf1dc659c9cecbaf8050135ea9e8cdc487053f1dc6880949dc684c";
    let bytes: [u8; 32] = unhex(x).try_into().unwrap();
    assert_eq!(TweakedPublicKey::from_x_only(&bytes).unwrap().serialize(), bytes);
    let internal = "cc8a4bc64d897bddc5fbc2f670f7a8ba0b386779106cf1223c6fc5d7cd6fc115";
    let key = PublicKey::from_compressed(&compressed(2, internal)).unwrap();
    assert_eq!(TweakedPublicKey::from_x_only(&bytes), Ok(tweak_pubkey(key)));
    assert_eq!(TweakedPublicKey::from_x_only(&[0xff; 32]), Err(Error::Todo));
}

#[test]
fn messages_hold_the_hash() {
    let bytes: [u8; 32] = std::array::from_fn(|i| i as u8);
    let legacy = bitcoin::sighash::LegacySighash::from_byte_array(bytes);
    let hash = TransactionHash::from_legacy_sig_hash(LegacySighash(legacy.to_byte_array()));
    assert_eq!(Message::from(hash).to_bytes(), bytes);
    let hash = TransactionHash::from_tapsig_hash(TapSighash([9; 32]));
    assert_eq!(Message::from(hash).to_bytes(), [9; 32]);
}
