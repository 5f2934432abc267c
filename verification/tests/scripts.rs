//! Addresses, scripts, pushes and the envelope.

use tw_bitcoin::codec::u32_to_le_bytes;
use tw_bitcoin::script::{assemble_envelope, get_push};
use tw_bitcoin::{
    pubkey_hash_from_address, tweak_pubkey, Error, KeyPair, Payload,
    PubkeyHash, TxOut, TxOutput, TxOutputP2PKH, TxOutputP2TKeyPath,
};

fn unhex(s: &str) -> Vec<u8> {
    (0..s.len() / 2).map(|i| u8::from_str_radix(&s[2 * i..2 * i + 2], 16).unwrap()).collect()
}

#[test]
fn address_of_a_public_key_hash() {
    let hash = pubkey_hash_from_address("1A1zP1eP5QGefi2DMPTfTL5SLmv7DivfNa").unwrap();
    assert_eq!(hash.0.to_vec(), unhex("62e907b15cbf27d5425399ebf6f0fb50ebb88f18"));
}

#[test]
fn other_addresses_are_refused() {
    // A script hash, a witness public key hash, a taproot key.
    for address in [
        "3J98t1WpEZ73CNmQviecrnyiWrnqRhWNLy",
        "bc1qw508d6qejxtdg4y5r3zarvary0c5xw7kv8f3t4",
        "bc1p5cyxnuxmeuwuvkwfem96lqzszd02n6xdcjrs20cac6yqjjwudpxqkedrcr",
    ] {
        assert_eq!(pubkey_hash_from_address(address), Err(Error::Todo));
    }
}

#[test]
fn text_that_is_no_address_is_refused() {
    assert_eq!(pubkey_hash_from_address(""), Err(Error::Todo));
    assert_eq!(
        pubkey_hash_from_address("1A1zP1eP5QGefi2DMPTfTL5SLmv7DivfNb"),
        Err(Error::Todo),
    );
}

#[test]
fn payload_gives_its_hash() {
    let hash = PubkeyHash([3; 20]);
    assert_eq!(Payload::PubkeyHash(hash).pubkey_hash(), Ok(hash));
    assert_eq!(Payload::Other.pubkey_hash(), Err(Error::Todo));
}

#[test]
fn output_to_a_public_key_hash() {
    let hash = PubkeyHash(std::array::from_fn(|i| i as u8));
    let out = TxOut::from(TxOutput::from(TxOutputP2PKH::new(50, &hash)));
    assert_eq!(out.value, 50);
    assert_eq!(
        out.script_pubkey,
        unhex("76a914000102030405060708090a0b0c0d0e0f1011121388ac"),
    );
}

#[test]
fn output_to_a_tweaked_key() {
    let key = KeyPair::from_secret_key(&[5; 32]).public_key();
    let tweaked = tweak_pubkey(key);
    let out = TxOut::from(TxOutput::from(TxOutputP2TKeyPath::new(u64::MAX, key)));
    assert_eq!(out.value, u64::MAX);
    assert_eq!(out.script_pubkey[..2], [0x51, 0x20]);
    assert_eq!(out.script_pubkey[2..], tweaked.serialize());
    let same = TxOutputP2TKeyPath::new_tweaked(u64::MAX, tweaked);
    assert_eq!(TxOut::from(TxOutput::from(same)), out);
    let checked = TxOutputP2TKeyPath::checked_new(u64::MAX, key).unwrap();
    assert_eq!(TxOut::from(TxOutput::from(checked)), out);
}

#[test]
fn copies_of_outputs_are_equal() {
    let output = TxOutput::from(TxOutputP2PKH::new(1, &PubkeyHash([1; 20])));
    assert_eq!(output.clone(), output);
    let key = KeyPair::from_secret_key(&[5; 32]).public_key();
    let output = TxOutput::from(TxOutputP2TKeyPath::new(1, key));
    assert_eq!(output.clone(), output);
}

#[test]
fn small_pushes_have_their_size_as_opcode() {
    for size in 0..=75 {
        assert_eq!(get_push(size), Ok((size as u8, None)));
    }
}

#[test]
fn larger_pushes_have_their_size_behind_the_opcode() {
    assert_eq!(get_push(76), Ok((0x4c, Some(vec![76, 0, 0, 0]))));
    assert_eq!(get_push(255), Ok((0x4c, Some(vec![255, 0, 0, 0]))));
    assert_eq!(get_push(256), Ok((0x4d, Some(vec![0, 1, 0, 0]))));
    assert_eq!(get_push(65535), Ok((0x4d, Some(vec![255, 255, 0, 0]))));
    assert_eq!(get_push(65536), Ok((0x4e, Some(vec![0, 0, 1, 0]))));
    assert_eq!(get_push(u32::MAX), Ok((0x4e, Some(vec![255, 255, 255, 255]))));
}

#[test]
fn push_headers_differ() {
    let sizes = [0, 1, 75, 76, 77, 255, 256, 257, 65535, 65536, 65537, u32::MAX];
    for a in sizes {
        for b in sizes {
            assert_eq!(get_push(a) == get_push(b), a == b);
        }
    }
}

#[test]
fn little_endian_bytes() {
    assert_eq!(u32_to_le_bytes(0x0403_0201), vec![1, 2, 3, 4]);
    assert_eq!(u32_to_le_bytes(0), vec![0, 0, 0, 0]);
    assert_eq!(u32_to_le_bytes(u32::MAX), vec![255, 255, 255, 255]);
}

#[test]
fn assembled_envelope_of_a_short_text() {
    // A content type of ten bytes: its push has the header 0x0a.
    assert_eq!(
        assemble_envelope("text/plain", "hi").unwrap(),
        unhex("006303036f726251010a0002686968"),
    );
}

#[test]
fn assembled_envelope_of_nothing() {
    assert_eq!(assemble_envelope("", "").unwrap(), unhex("006303036f7262510100000068"));
}

#[test]
fn assembled_envelope_with_a_long_content_type() {
    let mime = "m".repeat(80);
    assert_eq!(
        assemble_envelope(&mime, "x").unwrap(),
        unhex("006303036f726251054c5000000000017868"),
    );
}

#[test]
fn assembled_envelope_pushes_content_of_every_size() {
    let cases: [(usize, &str); 6] = [
        (75, "4b"),
        (76, "4c4c"),
        (255, "4cff"),
        (256, "4d0001"),
        (65535, "4dffff"),
        (65536, "4e00000100"),
    ];
    for (len, header) in cases {
        let mut expected = unhex("006303036f726251010300");
        expected.extend(unhex(header));
        expected.extend(vec![b'z'; len]);
        expected.push(0x68);
        assert_eq!(assemble_envelope("a/b", &"z".repeat(len)).unwrap(), expected);
    }
}

#[test]
fn assembled_envelope_counts_bytes() {
    // Two characters of two bytes each.
    assert_eq!(
        assemble_envelope("é", "éé").unwrap(),
        unhex("006303036f7262510102").into_iter().chain(unhex("0004c3a9c3a968")).collect::<Vec<u8>>(),
    );
}
