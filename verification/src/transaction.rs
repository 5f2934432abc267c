//! Transactions, held in plain values.

use vstd::prelude::*;

use bitcoin::Witness;

use crate::codec;
use crate::outside;

verus! {

/// A reference to an output of an earlier transaction.
#[derive(Debug, Clone, Copy, PartialEq, Eq)]
pub struct OutPoint {
    pub txid: [u8; 32],
    pub vout: u32,
}

/// What an [`OutPoint`] holds.
pub struct OutPointView {
    pub txid: Seq<u8>,
    pub vout: u32,
}

impl View for OutPoint {
    type V = OutPointView;

    open spec fn view(&self) -> OutPointView {
        OutPointView { txid: self.txid@, vout: self.vout }
    }
}

/// A transaction's input.
#[derive(Debug, PartialEq, Eq)]
pub struct TxIn {
    pub previous_output: OutPoint,
    pub script_sig: Vec<u8>,
    pub sequence: u32,
    pub witness: Witness,
}

/// What a [`TxIn`] holds.
pub struct TxInView {
    pub previous_output: OutPointView,
    pub script_sig: Seq<u8>,
    pub sequence: u32,
    pub witness: Seq<Seq<u8>>,
}

impl View for TxIn {
    type V = TxInView;

    open spec fn view(&self) -> TxInView {
        TxInView {
            previous_output: self.previous_output@,
            script_sig: self.script_sig@,
            sequence: self.sequence,
            witness: outside::witness_items(self.witness),
        }
    }
}

impl Clone for TxIn {
    fn clone(&self) -> (r: Self)
        ensures
            r@ == self@,
    {
        TxIn {
            previous_output: self.previous_output,
            script_sig: self.script_sig.clone(),
            sequence: self.sequence,
            witness: self.witness.clone(),
        }
    }
}

/// A transaction's output.
#[derive(Debug, PartialEq, Eq)]
pub struct TxOut {
    pub value: u64,
    pub script_pubkey: Vec<u8>,
}

/// What a [`TxOut`] holds.
pub struct TxOutView {
    pub value: u64,
    pub script_pubkey: Seq<u8>,
}

impl View for TxOut {
    type V = TxOutView;

    open spec fn view(&self) -> TxOutView {
        TxOutView { value: self.value, script_pubkey: self.script_pubkey@ }
    }
}

impl Clone for TxOut {
    fn clone(&self) -> (r: Self)
        ensures
            r@ == self@,
    {
        TxOut { value: self.value, script_pubkey: self.script_pubkey.clone() }
    }
}

/// A transaction. The lock time is in the form in which it is serialized: a
/// block height below 500,000,000, a time in seconds from there on.
#[derive(Debug, PartialEq, Eq)]
pub struct Transaction {
    pub version: i32,
    pub lock_time: u32,
    pub input: Vec<TxIn>,
    pub output: Vec<TxOut>,
}

/// What a [`Transaction`] holds.
pub struct TransactionView {
    pub version: i32,
    pub lock_time: u32,
    pub input: Seq<TxInView>,
    pub output: Seq<TxOutView>,
}

impl View for Transaction {
    type V = TransactionView;

    open spec fn view(&self) -> TransactionView {
        TransactionView {
            version: self.version,
            lock_time: self.lock_time,
            input: self.input@.map_values(|i: TxIn| i@),
            output: tx_outs(self.output@),
        }
    }
}

/// What a list of outputs holds.
pub open spec fn tx_outs(outputs: Seq<TxOut>) -> Seq<TxOutView> {
    outputs.map_values(|o: TxOut| o@)
}

/// A transaction without what its inputs are claimed with: no scripts and no
/// witnesses.
pub open spec fn without_claims(tx: TransactionView) -> TransactionView {
    TransactionView {
        input: tx.input.map_values(
            |i: TxInView| TxInView { script_sig: Seq::empty(), witness: Seq::empty(), ..i },
        ),
        ..tx
    }
}

/// Copies a list of outputs.
pub fn clone_outputs(outputs: &Vec<TxOut>) -> (r: Vec<TxOut>)
    ensures
        tx_outs(r@) == tx_outs(outputs@),
{
    let mut r: Vec<TxOut> = Vec::new();
    for i in 0..outputs.len()
        invariant
            r.len() == i,
            forall|j: int| 0 <= j < i ==> (#[trigger] r[j])@ == outputs[j]@,
    {
        r.push(outputs[i].clone());
    }
    assert(tx_outs(r@) =~= tx_outs(outputs@));
    r
}

impl Clone for Transaction {
    fn clone(&self) -> (r: Self)
        ensures
            r@ == self@,
    {
        let mut input: Vec<TxIn> = Vec::new();
        for i in 0..self.input.len()
            invariant
                input.len() == i,
                forall|j: int| 0 <= j < i ==> (#[trigger] input[j])@ == self.input[j]@,
        {
            input.push(self.input[i].clone());
        }
        let r = Transaction {
            version: self.version,
            lock_time: self.lock_time,
            input,
            output: clone_outputs(&self.output),
        };
        assert(r@.input =~= self@.input);
        r
    }
}

/// The consensus encoding of an out point.
pub open spec fn encode_out_point(p: OutPointView) -> Seq<u8> {
    p.txid + codec::le_bytes(p.vout as nat, 4)
}

/// Reads an out point off the front of `s`; gives it and what is left of `s`.
pub open spec fn read_out_point(s: Seq<u8>) -> Option<(OutPointView, Seq<u8>)> {
    if s.len() < 36 {
        None
    } else {
        Some(
            (
                OutPointView {
                    txid: s.take(32),
                    vout: codec::le_value(s.subrange(32, 36)) as u32,
                },
                s.skip(36),
            ),
        )
    }
}

/// Reads `n` things off the front of `s`, one after the other.
pub open spec fn read_list<T>(
    read: spec_fn(Seq<u8>) -> Option<(T, Seq<u8>)>,
    n: nat,
    s: Seq<u8>,
) -> Option<(Seq<T>, Seq<u8>)>
    decreases n,
{
    if n == 0 {
        Some((Seq::empty(), s))
    } else {
        match read(s) {
            Some((first, rest)) => match read_list(read, (n - 1) as nat, rest) {
                Some((others, rest)) => Some((seq![first] + others, rest)),
                None => None,
            },
            None => None,
        }
    }
}

/// Reads a list with its length in front off the front of `s`.
pub open spec fn read_counted<T>(
    read: spec_fn(Seq<u8>) -> Option<(T, Seq<u8>)>,
    s: Seq<u8>,
) -> Option<(Seq<T>, Seq<u8>)> {
    match codec::read_compact_size(s) {
        Some((n, rest)) => read_list(read, n, rest),
        None => None,
    }
}

/// Reads an input off the front of `s`, without its witness.
pub open spec fn read_tx_in(s: Seq<u8>) -> Option<(TxInView, Seq<u8>)> {
    match read_out_point(s) {
        Some((previous_output, rest)) => match codec::read_sized_bytes(rest) {
            Some((script_sig, rest)) => match codec::read_le(rest, 4) {
                Some((sequence, rest)) => Some(
                    (
                        TxInView {
                            previous_output,
                            script_sig,
                            sequence: sequence as u32,
                            witness: Seq::empty(),
                        },
                        rest,
                    ),
                ),
                None => None,
            },
            None => None,
        },
        None => None,
    }
}

/// Reads an output off the front of `s`.
pub open spec fn read_tx_out(s: Seq<u8>) -> Option<(TxOutView, Seq<u8>)> {
    match codec::read_le(s, 8) {
        Some((value, rest)) => match codec::read_sized_bytes(rest) {
            Some((script_pubkey, rest)) => Some(
                (TxOutView { value: value as u64, script_pubkey }, rest),
            ),
            None => None,
        },
        None => None,
    }
}

/// Reads a witness off the front of `s`.
pub open spec fn read_witness(s: Seq<u8>) -> Option<(Seq<Seq<u8>>, Seq<u8>)> {
    read_counted(|s: Seq<u8>| codec::read_sized_bytes(s), s)
}

/// Inputs with their witnesses put in.
pub open spec fn with_witnesses(
    inputs: Seq<TxInView>,
    witnesses: Seq<Seq<Seq<u8>>>,
) -> Seq<TxInView> {
    Seq::new(inputs.len(), |i: int| TxInView { witness: witnesses[i], ..inputs[i] })
}

/// Puts together a transaction whose lock time is all that is left to read.
pub open spec fn read_lock_time(
    version: i32,
    input: Seq<TxInView>,
    output: Seq<TxOutView>,
    s: Seq<u8>,
) -> Option<TransactionView> {
    match codec::read_le(s, 4) {
        Some((lock_time, rest)) if rest.len() == 0 => Some(
            TransactionView { version, lock_time: lock_time as u32, input, output },
        ),
        _ => None,
    }
}

/// Reads what follows the version of a transaction that has no witness section,
/// from behind its inputs.
#[verifier::opaque]
pub open spec fn read_without_witnesses(
    version: i32,
    input: Seq<TxInView>,
    s: Seq<u8>,
) -> Option<TransactionView> {
    match read_counted(|s: Seq<u8>| read_tx_out(s), s) {
        Some((output, rest)) => read_lock_time(version, input, output, rest),
        None => None,
    }
}

/// Reads what follows the marker of a transaction that has a witness section. A
/// section in which no input has a witness is refused.
#[verifier::opaque]
pub open spec fn read_with_witnesses(version: i32, s: Seq<u8>) -> Option<TransactionView> {
    match read_counted(|s: Seq<u8>| read_tx_in(s), s) {
        Some((input, rest)) => match read_counted(|s: Seq<u8>| read_tx_out(s), rest) {
            Some((output, rest)) => match read_list(
                |s: Seq<u8>| read_witness(s),
                input.len(),
                rest,
            ) {
                Some((witnesses, rest)) => match read_lock_time(
                    version,
                    with_witnesses(input, witnesses),
                    output,
                    rest,
                ) {
                    Some(tx) if has_witness_section(tx) => Some(tx),
                    _ => None,
                },
                None => None,
            },
            None => None,
        },
        None => None,
    }
}

/// Reads a transaction, and nothing behind it. Where the number of inputs would
/// stand, a zero and a one mark a transaction with a witness section.
#[verifier::opaque]
pub open spec fn read_transaction(s: Seq<u8>) -> Option<TransactionView> {
    match codec::read_le(s, 4) {
        Some((pattern, rest)) => {
            let version = codec::signed_value(pattern);
            match read_counted(|s: Seq<u8>| read_tx_in(s), rest) {
                Some((input, rest)) => if input.len() > 0 {
                    read_without_witnesses(version, input, rest)
                } else if rest.len() > 0 && rest[0] == 1 {
                    read_with_witnesses(version, rest.skip(1))
                } else {
                    None
                },
                None => None,
            }
        },
        None => None,
    }
}

/// The consensus encoding of an input, without its witness.
pub open spec fn encode_tx_in(i: TxInView) -> Seq<u8> {
    encode_out_point(i.previous_output) + codec::sized_bytes(i.script_sig) + codec::le_bytes(
        i.sequence as nat,
        4,
    )
}

/// The consensus encoding of an output.
pub open spec fn encode_tx_out(o: TxOutView) -> Seq<u8> {
    codec::le_bytes(o.value as nat, 8) + codec::sized_bytes(o.script_pubkey)
}

/// The consensus encoding of a witness: the number of its items, then each.
pub open spec fn encode_witness(items: Seq<Seq<u8>>) -> Seq<u8> {
    codec::compact_size(items.len()) + items.map_values(
        |item: Seq<u8>| codec::sized_bytes(item),
    ).flatten()
}

/// Whether the encoding of a transaction has room for witnesses: one of its
/// inputs has a witness, or it has no inputs.
pub open spec fn has_witness_section(tx: TransactionView) -> bool {
    tx.input.len() == 0 || exists|i: int|
        0 <= i < tx.input.len() && (#[trigger] tx.input[i]).witness.len() > 0
}

/// The inputs and outputs of a transaction, each list with its length in front.
pub open spec fn encode_body(tx: TransactionView) -> Seq<u8> {
    codec::compact_size(tx.input.len()) + tx.input.map_values(
        |i: TxInView| encode_tx_in(i),
    ).flatten() + codec::compact_size(tx.output.len()) + tx.output.map_values(
        |o: TxOutView| encode_tx_out(o),
    ).flatten()
}

/// The consensus encoding of a transaction.
pub open spec fn encode_transaction(tx: TransactionView) -> Seq<u8> {
    let version = codec::le_bytes(codec::twos_complement(tx.version), 4);
    let lock_time = codec::le_bytes(tx.lock_time as nat, 4);
    if has_witness_section(tx) {
        version + seq![0u8, 1u8] + encode_body(tx) + tx.input.map_values(
            |i: TxInView| encode_witness(i.witness),
        ).flatten() + lock_time
    } else {
        version + encode_body(tx) + lock_time
    }
}

} // verus!
