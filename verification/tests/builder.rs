//! Building, signing and serializing.

use bitcoin::consensus::deserialize;
use bitcoin::hashes::Hash as HashBytes;
use bitcoin::sighash::{Prevouts, SighashCache, TapSighashType};
use bitcoin::{ScriptBuf, Witness};
use tw_bitcoin::{
    attach_claims, tweak_pubkey, ClaimLocation, ClaimP2PKH, ClaimP2TRKeyPath, Error, InputContext,
    KeyPair, Message, OutPoint, PubkeyHash, Result, Transaction, TransactionBuilder,
    TransactionSigner, TxIn, TxInput, TxInputP2PKH, TxInputP2TRKeySpend, TxOut, TxOutput,
    TxOutputP2PKH, TxOutputP2TKeyPath,
};

fn point(n: u8) -> OutPoint {
    OutPoint { txid: [n; 32], vout: n as u32 }
}

fn hash(n: u8) -> PubkeyHash {
    PubkeyHash([n; 20])
}

fn p2pkh(n: u8) -> TxInput {
    let utxo = TxOut::from(TxOutput::from(TxOutputP2PKH::new(1000 + n as u64, &hash(n))));
    TxInput::P2PKH(TxInputP2PKH { ctx: InputContext::new(utxo, point(n)), recipient: hash(n) })
}

fn taproot(n: u8) -> TxInput {
    let recipient = tweak_pubkey(KeyPair::from_secret_key(&[n; 32]).public_key());
    let utxo = TxOut::from(TxOutput::from(TxOutputP2TKeyPath::new_tweaked(2000, recipient)));
    TxInput::P2TRKeySpend(TxInputP2TRKeySpend { ctx: InputContext::new(utxo, point(n)), recipient })
}

fn non_standard(n: u8) -> TxInput {
    let utxo = TxOut { value: 3000, script_pubkey: vec![0x51] };
    TxInput::NonStandard { ctx: InputContext::new(utxo, point(n)) }
}

fn without_value(input: TxInput) -> TxInput {
    match input {
        TxInput::P2PKH(t) => {
            let ctx = InputContext { value: None, ..t.ctx };
            TxInput::P2PKH(TxInputP2PKH { ctx, recipient: t.recipient })
        },
        TxInput::P2TRKeySpend(t) => {
            let ctx = InputContext { value: None, ..t.ctx };
            TxInput::P2TRKeySpend(TxInputP2TRKeySpend { ctx, recipient: t.recipient })
        },
        TxInput::NonStandard { ctx } => {
            TxInput::NonStandard { ctx: InputContext { value: None, ..ctx } }
        },
    }
}

fn output(n: u8) -> TxOutput {
    TxOutput::from(TxOutputP2PKH::new(n as u64, &hash(n)))
}

fn decoded(builder: &TransactionBuilder) -> bitcoin::Transaction {
    deserialize(&builder.serialize().unwrap()).unwrap()
}

fn prevouts(inputs: &[TxInput]) -> Vec<bitcoin::TxOut> {
    inputs
        .iter()
        .map(|input| bitcoin::TxOut {
            value: input.ctx().value.unwrap(),
            script_pubkey: ScriptBuf::from(input.ctx().script_pubkey.clone()),
        })
        .collect()
}

/// Claims with the message itself, and with the recipient behind it.
struct Echo;

impl TransactionSigner for Echo {
    fn claim_p2pkh(
        &self,
        input: &TxInputP2PKH,
        sighash: Message,
        sighash_type: Option<u32>,
    ) -> Result<ClaimP2PKH> {
        assert_eq!(sighash_type, None);
        let mut script = sighash.to_bytes().to_vec();
        script.extend(input.recipient.0);
        Ok(ClaimP2PKH(script))
    }

    fn claim_p2tr_key_spend(
        &self,
        input: &TxInputP2TRKeySpend,
        sighash: Message,
        sighash_type: Option<u8>,
    ) -> Result<ClaimP2TRKeyPath> {
        assert_eq!(sighash_type, None);
        let mut witness = Witness::new();
        witness.push(sighash.to_bytes());
        witness.push(input.recipient.serialize());
        Ok(ClaimP2TRKeyPath(witness))
    }
}

/// Refuses taproot inputs.
struct LegacyOnly;

impl TransactionSigner for LegacyOnly {
    fn claim_p2pkh(
        &self,
        _input: &TxInputP2PKH,
        _sighash: Message,
        _sighash_type: Option<u32>,
    ) -> Result<ClaimP2PKH> {
        Ok(ClaimP2PKH(vec![1]))
    }

    fn claim_p2tr_key_spend(
        &self,
        _input: &TxInputP2TRKeySpend,
        _sighash: Message,
        _sighash_type: Option<u8>,
    ) -> Result<ClaimP2TRKeyPath> {
        Err(Error::Todo)
    }
}

#[test]
fn empty_transaction() {
    let bytes = TransactionBuilder::new().prepare_for_signing().serialize().unwrap();
    assert_eq!(bytes, vec![2, 0, 0, 0, 0, 1, 0, 0, 0, 0, 0, 0]);
    let same = TransactionBuilder::default().prepare_for_signing().serialize().unwrap();
    assert_eq!(same, bytes);
}

#[test]
fn version_and_lock_time_are_the_frame() {
    let tx = TransactionBuilder::new().version(-2).lock_time(0x0102_0304).prepare_for_signing();
    let bytes = tx.serialize().unwrap();
    assert_eq!(bytes[..4], [0xfe, 0xff, 0xff, 0xff]);
    assert_eq!(bytes[bytes.len() - 4..], [4, 3, 2, 1]);
}

#[test]
fn highest_block_height() {
    let tx = TransactionBuilder::new()
        .lock_time(499_999_999)
        .add_input(p2pkh(1))
        .prepare_for_signing();
    assert_eq!(decoded(&tx).lock_time.to_consensus_u32(), 499_999_999);
}

#[test]
fn serialized_bytes_of_a_small_transaction() {
    let tx = TransactionBuilder::new()
        .version(1)
        .lock_time(5)
        .add_input(p2pkh(7))
        .add_output(output(9))
        .prepare_for_signing();
    let mut expected = vec![1, 0, 0, 0, 1];
    expected.extend([7; 32]);
    expected.extend([7, 0, 0, 0, 0, 0xff, 0xff, 0xff, 0xff]);
    expected.extend([1, 9, 0, 0, 0, 0, 0, 0, 0, 25, 0x76, 0xa9, 0x14]);
    expected.extend([9; 20]);
    expected.extend([0x88, 0xac, 5, 0, 0, 0]);
    assert_eq!(tx.serialize().unwrap(), expected);
}

#[test]
fn unsigned_transaction_follows_inputs_and_outputs() {
    let tx = decoded(
        &TransactionBuilder::new()
            .add_input(p2pkh(1))
            .add_input(non_standard(2))
            .add_input(taproot(3))
            .add_output(output(4))
            .add_output(output(5))
            .prepare_for_signing(),
    );
    assert_eq!(tx.version, 2);
    assert_eq!(tx.lock_time.to_consensus_u32(), 0);
    assert_eq!(tx.input.len(), 3);
    for (i, input) in tx.input.iter().enumerate() {
        let n = i as u8 + 1;
        assert_eq!(input.previous_output.txid.to_byte_array(), [n; 32]);
        assert_eq!(input.previous_output.vout, n as u32);
        assert!(input.script_sig.is_empty());
        assert!(input.witness.is_empty());
        assert_eq!(input.sequence.0, 0xFFFF_FFFF);
    }
    assert_eq!(tx.output.iter().map(|o| o.value).collect::<Vec<u64>>(), vec![4, 5]);
}

#[test]
fn signer_gets_the_legacy_hashes() {
    let prepared = TransactionBuilder::new()
        .lock_time(77)
        .add_input(p2pkh(1))
        .add_input(p2pkh(2))
        .add_output(output(3))
        .prepare_for_signing();
    let unsigned = decoded(&prepared);
    let signed = decoded(&prepared.sign_inputs(Echo).unwrap());
    let cache = SighashCache::new(&unsigned);
    for (i, n) in [(0, 1), (1, 2)] {
        let script = ScriptBuf::from(p2pkh(n).ctx().script_pubkey.clone());
        let mut expected =
            cache.legacy_signature_hash(i, &script, 1).unwrap().to_byte_array().to_vec();
        expected.extend([n; 20]);
        assert_eq!(signed.input[i].script_sig.to_bytes(), expected);
        assert!(signed.input[i].witness.is_empty());
    }
}

#[test]
fn legacy_transaction_has_no_witness() {
    let prepared = TransactionBuilder::new()
        .add_input(p2pkh(1))
        .add_input(non_standard(2))
        .add_output(output(3))
        .prepare_for_signing();
    let bytes = prepared.sign_inputs(Echo).unwrap().serialize().unwrap();
    // The number of inputs follows the version.
    assert_eq!(bytes[..5], [2, 0, 0, 0, 2]);
    assert_eq!(bytes[bytes.len() - 4..], [0, 0, 0, 0]);
}

#[test]
fn signer_gets_the_taproot_hashes() {
    let inputs = [taproot(1), p2pkh(2), taproot(3)];
    let mut builder = TransactionBuilder::new().add_output(output(3));
    for input in &inputs {
        builder = builder.add_input(input.clone());
    }
    let prepared = builder.prepare_for_signing();
    let unsigned = decoded(&prepared);
    let signed = decoded(&prepared.sign_inputs(Echo).unwrap());
    let spent = prevouts(&inputs);
    for i in [0, 2] {
        let expected = SighashCache::new(&unsigned)
            .taproot_key_spend_signature_hash(i, &Prevouts::All(&spent), TapSighashType::All)
            .unwrap();
        let items = signed.input[i].witness.to_vec();
        assert_eq!(items.len(), 2);
        assert_eq!(items[0], expected.to_byte_array().to_vec());
        assert!(signed.input[i].script_sig.is_empty());
    }
    let script = ScriptBuf::from(inputs[1].ctx().script_pubkey.clone());
    let expected = SighashCache::new(&unsigned).legacy_signature_hash(1, &script, 1).unwrap();
    assert_eq!(signed.input[1].script_sig.to_bytes()[..32], expected.to_byte_array());
    assert!(signed.input[1].witness.is_empty());
}

#[test]
fn signing_changes_only_claims() {
    let prepared = TransactionBuilder::new()
        .version(1)
        .lock_time(9)
        .add_input(p2pkh(1))
        .add_input(taproot(2))
        .add_input(non_standard(3))
        .add_output(output(4))
        .prepare_for_signing();
    let before = decoded(&prepared);
    let mut after = decoded(&prepared.sign_inputs(Echo).unwrap());
    assert_eq!(after.input[2], before.input[2]);
    assert_ne!(after, before);
    after.input[0].script_sig = ScriptBuf::new();
    after.input[1].witness = Witness::new();
    assert_eq!(after, before);
}

#[test]
fn nothing_to_sign_changes_nothing() {
    let prepared = TransactionBuilder::new()
        .add_input(non_standard(1))
        .add_output(output(2))
        .prepare_for_signing();
    let before = prepared.serialize().unwrap();
    let signed = prepared.sign_inputs_fn(|_, _| panic!("no input is signed")).unwrap();
    assert_eq!(signed.serialize().unwrap(), before);
}

#[test]
fn unknown_value_is_refused_with_a_taproot_input() {
    for input in [p2pkh(1), non_standard(1), taproot(1)] {
        let prepared = TransactionBuilder::new()
            .add_input(taproot(2))
            .add_input(without_value(input))
            .prepare_for_signing();
        assert_eq!(prepared.sign_inputs(Echo).err(), Some(Error::Todo));
    }
}

#[test]
fn unknown_value_is_refused_before_anything_is_prepared() {
    let builder = TransactionBuilder::new().add_input(without_value(taproot(1)));
    assert_eq!(builder.sign_inputs(Echo).err(), Some(Error::Todo));
}

#[test]
fn unknown_value_is_no_matter_without_a_taproot_input() {
    let prepared = TransactionBuilder::new()
        .add_input(without_value(p2pkh(1)))
        .add_output(output(2))
        .prepare_for_signing();
    let known = TransactionBuilder::new()
        .add_input(p2pkh(1))
        .add_output(output(2))
        .prepare_for_signing();
    assert_eq!(
        prepared.sign_inputs(Echo).unwrap().serialize(),
        known.sign_inputs(Echo).unwrap().serialize(),
    );
}

#[test]
fn inputs_added_after_preparing_are_refused() {
    for input in [p2pkh(2), taproot(2)] {
        let builder =
            TransactionBuilder::new().add_input(p2pkh(1)).prepare_for_signing().add_input(input);
        assert_eq!(builder.clone().sign_inputs(Echo).err(), Some(Error::Todo));
        // Preparing once more takes the input in.
        let signed = builder.prepare_for_signing().sign_inputs(Echo).unwrap();
        assert_eq!(decoded(&signed).input.len(), 2);
    }
}

#[test]
fn refusal_of_the_signer_is_handed_on() {
    let prepared = TransactionBuilder::new()
        .add_input(p2pkh(1))
        .add_input(taproot(2))
        .prepare_for_signing();
    assert_eq!(prepared.clone().sign_inputs(LegacyOnly).err(), Some(Error::Todo));
    assert_eq!(prepared.sign_inputs_fn(|_, _| Err(Error::Todo)).err(), Some(Error::Todo));
}

#[test]
fn function_may_put_a_claim_anywhere() {
    let prepared = TransactionBuilder::new()
        .add_input(p2pkh(1))
        .add_input(p2pkh(2))
        .add_output(output(3))
        .prepare_for_signing();
    let signed = prepared
        .sign_inputs_fn(|input, _| {
            if input.ctx().previous_output == point(1) {
                Ok(ClaimLocation::Witness(Witness::from_slice(&[[1, 2, 3]])))
            } else {
                Ok(ClaimLocation::Script(vec![4, 5]))
            }
        })
        .unwrap();
    let tx = decoded(&signed);
    assert_eq!(tx.input[0].witness.to_vec(), vec![vec![1, 2, 3]]);
    assert!(tx.input[0].script_sig.is_empty());
    assert!(tx.input[1].witness.is_empty());
    assert_eq!(tx.input[1].script_sig.to_bytes(), vec![4, 5]);
}

#[test]
fn signing_again_changes_nothing() {
    let prepared = TransactionBuilder::new()
        .add_input(p2pkh(1))
        .add_input(taproot(2))
        .add_input(non_standard(3))
        .add_output(output(4))
        .prepare_for_signing();
    let once = prepared.sign_inputs(Echo).unwrap();
    let bytes = once.serialize().unwrap();
    let twice = once.sign_inputs(Echo).unwrap();
    assert_eq!(twice.serialize().unwrap(), bytes);
}

#[test]
fn signed_transaction_is_read_back() {
    let signed = TransactionBuilder::new()
        .version(-1)
        .lock_time(6)
        .add_input(taproot(1))
        .add_input(p2pkh(2))
        .add_output(output(3))
        .prepare_for_signing()
        .sign_inputs(Echo)
        .unwrap();
    let tx = decoded(&signed);
    assert_eq!((tx.version, tx.lock_time.to_consensus_u32()), (-1, 6));
    assert_eq!(tx.input[0].witness.len(), 2);
    assert_eq!(tx.input[1].script_sig.len(), 52);
    assert_eq!(bitcoin::consensus::serialize(&tx), signed.serialize().unwrap());
}

#[test]
fn preparing_again_drops_the_claims() {
    let prepared = TransactionBuilder::new()
        .add_input(p2pkh(1))
        .add_input(taproot(2))
        .add_output(output(3))
        .prepare_for_signing();
    let unsigned = prepared.serialize().unwrap();
    let signed = prepared.sign_inputs(Echo).unwrap();
    assert_ne!(signed.serialize().unwrap(), unsigned);
    let again = signed.prepare_for_signing();
    assert_eq!(again.serialize().unwrap(), unsigned);
    assert_eq!(again.prepare_for_signing().serialize().unwrap(), unsigned);
}

#[test]
fn settings_after_preparing_wait_for_the_next() {
    let prepared = TransactionBuilder::new().add_input(p2pkh(1)).prepare_for_signing();
    let before = prepared.serialize().unwrap();
    let changed = prepared.version(1).lock_time(3).add_output(output(1));
    assert_eq!(changed.serialize().unwrap(), before);
    let tx = decoded(&changed.prepare_for_signing());
    assert_eq!((tx.version, tx.lock_time.to_consensus_u32(), tx.output.len()), (1, 3, 1));
}

#[test]
fn copy_of_a_builder_goes_its_own_way() {
    let prepared =
        TransactionBuilder::new().add_input(p2pkh(1)).add_input(taproot(2)).prepare_for_signing();
    let copy = prepared.clone();
    assert_eq!(copy.serialize().unwrap(), prepared.serialize().unwrap());
    let signed = prepared.sign_inputs(Echo).unwrap();
    assert_ne!(copy.serialize().unwrap(), signed.serialize().unwrap());
    assert_eq!(copy.sign_inputs(Echo).unwrap().serialize(), signed.serialize());
}

#[test]
fn witnesses_are_serialized() {
    let mut ctx = InputContext::new(TxOut { value: 1, script_pubkey: vec![] }, point(1));
    ctx.witness.push([0xaa; 3]);
    ctx.witness.push([]);
    let bytes = TransactionBuilder::new()
        .add_input(TxInput::NonStandard { ctx })
        .add_input(non_standard(2))
        .prepare_for_signing()
        .serialize()
        .unwrap();
    assert_eq!(bytes[..7], [2, 0, 0, 0, 0, 1, 2]);
    // Two items of three and no bytes, then no item, then the lock time.
    assert_eq!(bytes[bytes.len() - 11..], [2, 3, 0xaa, 0xaa, 0xaa, 0, 0, 0, 0, 0, 0]);
}

#[test]
fn many_outputs_are_counted_in_a_longer_form() {
    let mut builder = TransactionBuilder::new().add_input(p2pkh(1));
    for i in 0..300 {
        builder = builder.add_output(output((i % 256) as u8));
    }
    let prepared = builder.prepare_for_signing();
    let bytes = prepared.serialize().unwrap();
    assert_eq!(bytes[4 + 1 + 41..4 + 1 + 41 + 3], [0xfd, 0x2c, 0x01]);
    assert_eq!(decoded(&prepared).output.len(), 300);
}

#[test]
fn different_transactions_are_serialized_differently() {
    let base = || TransactionBuilder::new().add_input(p2pkh(1)).add_output(output(2));
    let builders = [
        base(),
        base().version(1),
        base().lock_time(1),
        base().add_input(p2pkh(1)),
        base().add_input(non_standard(1)).add_output(output(2)),
        base().add_output(output(2)),
    ];
    let serialized: Vec<Vec<u8>> =
        builders.iter().map(|b| b.clone().prepare_for_signing().serialize().unwrap()).collect();
    for i in 0..serialized.len() {
        for j in 0..i {
            assert_ne!(serialized[i], serialized[j]);
        }
    }
}

#[test]
fn claims_go_to_their_place() {
    let input = |n: u8| TxIn {
        previous_output: point(n),
        script_sig: vec![],
        sequence: n as u32,
        witness: Witness::new(),
    };
    let tx = Transaction {
        version: 3,
        lock_time: 600_000_000,
        input: vec![input(1), input(2), input(3)],
        output: vec![TxOut { value: 1, script_pubkey: vec![2] }],
    };
    let witness = Witness::from_slice(&[[8]]);
    let claims = vec![
        Some(ClaimLocation::Script(vec![7])),
        None,
        Some(ClaimLocation::Witness(witness.clone())),
    ];
    let mut expected = tx.clone();
    expected.input[0].script_sig = vec![7];
    expected.input[2].witness = witness;
    assert_eq!(attach_claims(tx.clone(), claims), expected);
    assert_eq!(attach_claims(tx.clone(), vec![]), tx);
}
