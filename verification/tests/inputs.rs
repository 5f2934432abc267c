//! Reading inputs.

use bitcoin::consensus::{serialize, Encodable};
use bitcoin::hashes::Hash as HashBytes;
use bitcoin::{ScriptBuf, Sequence, Txid, Witness};
use tw_bitcoin::{
    Error, InputContext, KeyPair, OutPoint, PubkeyHash, TxIn, TxInput, TxInputP2PKH,
    TxInputP2TRKeySpend, TxOut, TxOutput, TxOutputP2PKH, TxOutputP2TKeyPath,
};

fn point() -> OutPoint {
    OutPoint { txid: std::array::from_fn(|i| i as u8), vout: 0x0a0b_0c0d }
}

fn encoded(script: &[u8], sequence: u32) -> Vec<u8> {
    let mut bytes = vec![];
    bitcoin::OutPoint::new(Txid::from_byte_array(point().txid), point().vout)
        .consensus_encode(&mut bytes)
        .unwrap();
    bytes.extend(serialize(&ScriptBuf::from(script.to_vec())));
    bytes.extend(serialize(&Sequence(sequence)));
    bytes
}

fn p2pkh_script(hash: &PubkeyHash) -> Vec<u8> {
    TxOut::from(TxOutput::from(TxOutputP2PKH::new(1, hash))).script_pubkey
}

fn p2tr_script() -> Vec<u8> {
    let key = KeyPair::from_secret_key(&[5; 32]).public_key();
    TxOut::from(TxOutput::from(TxOutputP2TKeyPath::new(1, key))).script_pubkey
}

#[test]
fn context_of_an_output() {
    let ctx = InputContext::new(TxOut { value: 7, script_pubkey: vec![1, 2] }, point());
    assert_eq!(ctx.previous_output, point());
    assert_eq!(ctx.value, Some(7));
    assert_eq!(ctx.script_pubkey, vec![1, 2]);
    assert_eq!(ctx.sequence, 0xFFFF_FFFF);
    assert_eq!(ctx.witness, Witness::new());
    assert_eq!(ctx.clone(), ctx);
}

#[test]
fn context_is_read_from_bytes() {
    let mut bytes: Vec<u8> = (0..32).collect();
    bytes.extend([0x0d, 0x0c, 0x0b, 0x0a]);
    bytes.extend([3, 7, 8, 9]);
    bytes.extend([4, 3, 2, 1]);
    let ctx = InputContext::from_slice(&bytes, Some(5)).unwrap();
    assert_eq!(ctx.previous_output, point());
    assert_eq!(ctx.value, Some(5));
    assert_eq!(ctx.script_pubkey, vec![7, 8, 9]);
    assert_eq!(ctx.sequence, 0x0102_0304);
    assert!(ctx.witness.is_empty());
    assert_eq!(InputContext::from_slice(&bytes, None).unwrap().value, None);
}

#[test]
fn context_is_read_back() {
    for len in [0, 1, 0xfc, 0xfd, 0xffff, 0x1_0000] {
        let script: Vec<u8> = (0..len).map(|i: usize| i as u8).collect();
        let ctx = InputContext::from_slice(&encoded(&script, 6), None).unwrap();
        assert_eq!(ctx.previous_output, point());
        assert_eq!(ctx.script_pubkey, script);
        assert_eq!(ctx.sequence, 6);
    }
}

#[test]
fn what_follows_a_context_is_ignored() {
    let bytes = encoded(&[1, 2, 3], 6);
    let mut longer = bytes.clone();
    longer.extend([9, 9, 9]);
    assert_eq!(InputContext::from_slice(&longer, None), InputContext::from_slice(&bytes, None));
}

#[test]
fn truncated_contexts_are_refused() {
    let bytes = encoded(&[1, 2, 3], 6);
    for len in 0..bytes.len() {
        assert_eq!(InputContext::from_slice(&bytes[..len], None), Err(Error::Todo));
        assert_eq!(TxInput::from_slice(&bytes[..len], None), Err(Error::Todo));
    }
}

#[test]
fn length_in_a_longer_form_is_refused() {
    let mut bytes = encoded(&[], 6)[..36].to_vec();
    bytes.extend([0xfd, 3, 0, 7, 8, 9]);
    bytes.extend([0, 0, 0, 0]);
    assert_eq!(InputContext::from_slice(&bytes, None), Err(Error::Todo));
}

#[test]
fn length_beyond_the_bytes_is_refused() {
    let mut bytes = encoded(&[], 6)[..36].to_vec();
    bytes.extend([0xff; 9]);
    assert_eq!(InputContext::from_slice(&bytes, None), Err(Error::Todo));
}

#[test]
fn public_key_hash_output_is_recognised() {
    let hash = PubkeyHash(std::array::from_fn(|i| 3 * i as u8));
    let bytes = encoded(&p2pkh_script(&hash), 17);
    match TxInput::from_slice(&bytes, Some(1)).unwrap() {
        TxInput::P2PKH(input) => {
            assert_eq!(input.recipient, hash);
            assert_eq!(input.ctx, InputContext::from_slice(&bytes, Some(1)).unwrap());
        },
        _ => panic!("another kind of input"),
    }
}

#[test]
fn scripts_close_to_a_public_key_hash_are_refused() {
    let script = p2pkh_script(&PubkeyHash([1; 20]));
    for i in [0, 1, 2, 23, 24] {
        let mut other = script.clone();
        other[i] ^= 1;
        assert_eq!(TxInput::from_slice(&encoded(&other, 0), None), Err(Error::Todo));
    }
    let mut longer = script.clone();
    longer.push(0);
    assert_eq!(TxInput::from_slice(&encoded(&longer, 0), None), Err(Error::Todo));
}

#[test]
fn taproot_output_is_refused() {
    let bytes = encoded(&p2tr_script(), 0);
    assert!(InputContext::from_slice(&bytes, Some(1)).is_ok());
    assert_eq!(TxInput::from_slice(&bytes, Some(1)), Err(Error::Todo));
}

#[test]
fn other_scripts_are_refused() {
    for script in [vec![], vec![0x51], vec![0; 22], vec![0; 25], vec![0; 34]] {
        assert_eq!(TxInput::from_slice(&encoded(&script, 0), None), Err(Error::Todo));
    }
}

#[test]
fn key_spend_tweaks_the_key() {
    let key = KeyPair::from_secret_key(&[5; 32]).public_key();
    let untweaked: [u8; 32] = key.serialize()[1..].try_into().unwrap();
    let ctx = InputContext::new(TxOut { value: 7, script_pubkey: p2tr_script() }, point());
    match TxInput::key_spend(ctx.clone(), &untweaked) {
        TxInput::P2TRKeySpend(input) => {
            assert_eq!(input.ctx, ctx);
            assert_eq!(input.recipient, tw_bitcoin::tweak_pubkey(key));
        },
        _ => panic!("another kind of input"),
    }
}

#[test]
fn checked_key_spend_tests_the_key() {
    let key = KeyPair::from_secret_key(&[5; 32]).public_key();
    let untweaked: [u8; 32] = key.serialize()[1..].try_into().unwrap();
    let ctx = InputContext::new(TxOut { value: 7, script_pubkey: p2tr_script() }, point());
    assert_eq!(
        TxInput::checked_key_spend(ctx.clone(), &untweaked),
        Some(TxInput::key_spend(ctx.clone(), &untweaked)),
    );
    assert_eq!(TxInput::checked_key_spend(ctx, &[0xff; 32]), None);
}

#[test]
fn inputs_become_unsigned() {
    let mut ctx = InputContext::new(TxOut { value: 7, script_pubkey: vec![1, 2] }, point());
    ctx.sequence = 12;
    ctx.witness.push([4, 5]);
    let expected = TxIn {
        previous_output: point(),
        script_sig: vec![],
        sequence: 12,
        witness: Witness::from_slice(&[[4, 5]]),
    };
    let key = KeyPair::from_secret_key(&[5; 32]).public_key();
    let inputs = [
        TxInput::P2PKH(TxInputP2PKH { ctx: ctx.clone(), recipient: PubkeyHash([1; 20]) }),
        TxInput::P2TRKeySpend(TxInputP2TRKeySpend {
            ctx: ctx.clone(),
            recipient: tw_bitcoin::tweak_pubkey(key),
        }),
        TxInput::NonStandard { ctx: ctx.clone() },
    ];
    assert_eq!(TxIn::from(ctx.clone()), expected);
    for input in inputs {
        assert_eq!(*input.ctx(), ctx);
        assert_eq!(input.clone(), input);
        assert_eq!(TxIn::from(input), expected);
    }
}
