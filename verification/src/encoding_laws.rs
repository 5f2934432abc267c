//! The consensus encoding of a transaction is read back as the transaction.

use vstd::prelude::*;

use crate::codec;
use crate::transaction::{self, OutPointView, TransactionView, TxInView, TxOutView};

verus! {

/// Whether an input has the lengths that an input on a machine has.
pub open spec fn encodable_tx_in(i: TxInView) -> bool {
    &&& i.previous_output.txid.len() == 32
    &&& i.script_sig.len() <= usize::MAX
}

/// Whether an output has the lengths that an output on a machine has.
pub open spec fn encodable_tx_out(o: TxOutView) -> bool {
    o.script_pubkey.len() <= usize::MAX
}

/// Whether a witness has the lengths that a witness on a machine has.
pub open spec fn encodable_witness(items: Seq<Seq<u8>>) -> bool {
    &&& items.len() <= usize::MAX
    &&& forall|i: int| 0 <= i < items.len() ==> (#[trigger] items[i]).len() <= usize::MAX
}

/// Whether a transaction has the lengths that a transaction on a machine has.
pub open spec fn encodable(tx: TransactionView) -> bool {
    &&& tx.input.len() <= usize::MAX
    &&& forall|i: int|
        0 <= i < tx.input.len() ==> encodable_tx_in(#[trigger] tx.input[i]) && encodable_witness(
            tx.input[i].witness,
        )
    &&& tx.output.len() <= usize::MAX
    &&& forall|i: int| 0 <= i < tx.output.len() ==> encodable_tx_out(#[trigger] tx.output[i])
}

/// Whether the values for which `fits` holds are read back as they are written,
/// whatever follows them.
spec fn reads_back<T>(
    fits: spec_fn(T) -> bool,
    encode: spec_fn(T) -> Seq<u8>,
    read: spec_fn(Seq<u8>) -> Option<(T, Seq<u8>)>,
) -> bool {
    forall|x: T, rest: Seq<u8>|
        fits(x) ==> #[trigger] read(encode(x) + rest) == Some((x, rest))
}

proof fn lemma_list_is_read_back<T>(
    fits: spec_fn(T) -> bool,
    encode: spec_fn(T) -> Seq<u8>,
    read: spec_fn(Seq<u8>) -> Option<(T, Seq<u8>)>,
    list: Seq<T>,
    rest: Seq<u8>,
)
    requires
        reads_back(fits, encode, read),
        forall|i: int| 0 <= i < list.len() ==> fits(#[trigger] list[i]),
    ensures
        transaction::read_list(read, list.len(), list.map_values(encode).flatten() + rest)
            == Some((list, rest)),
    decreases list.len(),
{
    let s = list.map_values(encode).flatten() + rest;
    if list.len() == 0 {
        assert(list =~= Seq::empty());
        assert(s =~= rest);
    } else {
        let tail = list.drop_first();
        let more = tail.map_values(encode).flatten() + rest;
        assert(list.map_values(encode).drop_first() =~= tail.map_values(encode));
        assert(s =~= encode(list[0]) + more);
        assert(read(encode(list[0]) + more) == Some((list[0], more)));
        lemma_list_is_read_back(fits, encode, read, tail, rest);
        assert(list =~= seq![list[0]] + tail);
    }
}

proof fn lemma_counted_is_read_back<T>(
    fits: spec_fn(T) -> bool,
    encode: spec_fn(T) -> Seq<u8>,
    read: spec_fn(Seq<u8>) -> Option<(T, Seq<u8>)>,
    list: Seq<T>,
    rest: Seq<u8>,
)
    requires
        reads_back(fits, encode, read),
        list.len() <= usize::MAX,
        forall|i: int| 0 <= i < list.len() ==> fits(#[trigger] list[i]),
    ensures
        transaction::read_counted(
            read,
            codec::compact_size(list.len()) + (list.map_values(encode).flatten() + rest),
        ) == Some((list, rest)),
{
    codec::law_read_compact_size(list.len(), list.map_values(encode).flatten() + rest);
    lemma_list_is_read_back(fits, encode, read, list, rest);
}

/// An out point is read back as it was written, whatever follows it.
pub proof fn law_out_point_is_read_back(point: OutPointView, rest: Seq<u8>)
    requires
        point.txid.len() == 32,
    ensures
        transaction::read_out_point(transaction::encode_out_point(point) + rest) == Some(
            (point, rest),
        ),
{
    let s = transaction::encode_out_point(point) + rest;
    codec::lemma_pow256();
    codec::lemma_le_bytes_len(point.vout as nat, 4);
    codec::lemma_le_value_of_bytes(point.vout as nat, 4);
    assert(s.take(32) =~= point.txid);
    assert(s.subrange(32, 36) =~= codec::le_bytes(point.vout as nat, 4));
    assert(s.skip(36) =~= rest);
}

/// An input as its encoding shows it, which is without the witness.
pub open spec fn without_witness(i: TxInView) -> TxInView {
    TxInView { witness: Seq::empty(), ..i }
}

/// An input is read back as it was written, but for its witness, whatever
/// follows it.
pub proof fn law_tx_in_is_read_back(i: TxInView, rest: Seq<u8>)
    requires
        encodable_tx_in(i),
    ensures
        transaction::read_tx_in(transaction::encode_tx_in(i) + rest) == Some(
            (without_witness(i), rest),
        ),
{
    let sequence = codec::le_bytes(i.sequence as nat, 4) + rest;
    let script = codec::sized_bytes(i.script_sig) + sequence;
    assert(transaction::encode_tx_in(i) + rest =~= transaction::encode_out_point(i.previous_output)
        + script);
    law_out_point_is_read_back(i.previous_output, script);
    codec::law_read_sized_bytes(i.script_sig, sequence);
    codec::lemma_pow256();
    codec::law_read_le_of_bytes(i.sequence as nat, 4, rest);
}

/// An output is read back as it was written, whatever follows it.
pub proof fn law_tx_out_is_read_back(o: TxOutView, rest: Seq<u8>)
    requires
        encodable_tx_out(o),
    ensures
        transaction::read_tx_out(transaction::encode_tx_out(o) + rest) == Some((o, rest)),
{
    let script = codec::sized_bytes(o.script_pubkey) + rest;
    assert(transaction::encode_tx_out(o) + rest =~= codec::le_bytes(o.value as nat, 8) + script);
    codec::lemma_pow256();
    codec::law_read_le_of_bytes(o.value as nat, 8, script);
    codec::law_read_sized_bytes(o.script_pubkey, rest);
}

/// A witness is read back as it was written, whatever follows it.
pub proof fn law_witness_is_read_back(items: Seq<Seq<u8>>, rest: Seq<u8>)
    requires
        encodable_witness(items),
    ensures
        transaction::read_witness(transaction::encode_witness(items) + rest) == Some((items, rest)),
{
    let fits = |item: Seq<u8>| item.len() <= usize::MAX;
    let encode = |item: Seq<u8>| codec::sized_bytes(item);
    let read = |s: Seq<u8>| codec::read_sized_bytes(s);
    assert forall|item: Seq<u8>, rest: Seq<u8>| fits(item) implies #[trigger] read(
        encode(item) + rest,
    ) == Some((item, rest)) by {
        codec::law_read_sized_bytes(item, rest);
    }
    assert(transaction::encode_witness(items) + rest =~= codec::compact_size(items.len()) + (
    items.map_values(encode).flatten() + rest));
    lemma_counted_is_read_back(fits, encode, read, items, rest);
}

proof fn lemma_inputs_are_read_back(inputs: Seq<TxInView>, rest: Seq<u8>)
    requires
        inputs.len() <= usize::MAX,
        forall|i: int| 0 <= i < inputs.len() ==> encodable_tx_in(#[trigger] inputs[i]),
    ensures
        transaction::read_counted(
            |s: Seq<u8>| transaction::read_tx_in(s),
            codec::compact_size(inputs.len()) + (inputs.map_values(
                |i: TxInView| transaction::encode_tx_in(i),
            ).flatten() + rest),
        ) == Some((inputs.map_values(|i: TxInView| without_witness(i)), rest)),
{
    let fits = |i: TxInView| encodable_tx_in(i) && i == without_witness(i);
    let encode = |i: TxInView| transaction::encode_tx_in(i);
    let read = |s: Seq<u8>| transaction::read_tx_in(s);
    let bare = inputs.map_values(|i: TxInView| without_witness(i));
    assert(inputs.map_values(encode) =~= bare.map_values(encode));
    assert forall|i: TxInView, rest: Seq<u8>| fits(i) implies #[trigger] read(encode(i) + rest)
        == Some((i, rest)) by {
        law_tx_in_is_read_back(i, rest);
    }
    assert forall|i: int| 0 <= i < bare.len() implies fits(#[trigger] bare[i]) by {
        assert(encodable_tx_in(inputs[i]));
    }
    lemma_counted_is_read_back(fits, encode, read, bare, rest);
}

proof fn lemma_outputs_are_read_back(outputs: Seq<TxOutView>, rest: Seq<u8>)
    requires
        outputs.len() <= usize::MAX,
        forall|i: int| 0 <= i < outputs.len() ==> encodable_tx_out(#[trigger] outputs[i]),
    ensures
        transaction::read_counted(
            |s: Seq<u8>| transaction::read_tx_out(s),
            codec::compact_size(outputs.len()) + (outputs.map_values(
                |o: TxOutView| transaction::encode_tx_out(o),
            ).flatten() + rest),
        ) == Some((outputs, rest)),
{
    let fits = |o: TxOutView| encodable_tx_out(o);
    let encode = |o: TxOutView| transaction::encode_tx_out(o);
    let read = |s: Seq<u8>| transaction::read_tx_out(s);
    assert forall|o: TxOutView, rest: Seq<u8>| fits(o) implies #[trigger] read(encode(o) + rest)
        == Some((o, rest)) by {
        law_tx_out_is_read_back(o, rest);
    }
    lemma_counted_is_read_back(fits, encode, read, outputs, rest);
}

proof fn lemma_witnesses_are_read_back(inputs: Seq<TxInView>, rest: Seq<u8>)
    requires
        forall|i: int| 0 <= i < inputs.len() ==> encodable_witness((#[trigger] inputs[i]).witness),
    ensures
        transaction::read_list(
            |s: Seq<u8>| transaction::read_witness(s),
            inputs.len(),
            inputs.map_values(
                |i: TxInView| transaction::encode_witness(i.witness),
            ).flatten() + rest,
        ) == Some((inputs.map_values(|i: TxInView| i.witness), rest)),
{
    let fits = |items: Seq<Seq<u8>>| encodable_witness(items);
    let encode = |items: Seq<Seq<u8>>| transaction::encode_witness(items);
    let read = |s: Seq<u8>| transaction::read_witness(s);
    let witnesses = inputs.map_values(|i: TxInView| i.witness);
    assert(inputs.map_values(|i: TxInView| transaction::encode_witness(i.witness))
        =~= witnesses.map_values(encode));
    assert forall|items: Seq<Seq<u8>>, rest: Seq<u8>| fits(items) implies #[trigger] read(
        encode(items) + rest,
    ) == Some((items, rest)) by {
        law_witness_is_read_back(items, rest);
    }
    assert forall|i: int| 0 <= i < witnesses.len() implies fits(#[trigger] witnesses[i]) by {
        assert(encodable_witness(inputs[i].witness));
    }
    lemma_list_is_read_back(fits, encode, read, witnesses, rest);
}

proof fn lemma_lock_time_is_read_back(tx: TransactionView)
    ensures
        transaction::read_lock_time(
            tx.version,
            tx.input,
            tx.output,
            codec::le_bytes(tx.lock_time as nat, 4),
        ) == Some(tx),
{
    let s = codec::le_bytes(tx.lock_time as nat, 4);
    codec::lemma_pow256();
    codec::law_read_le_of_bytes(tx.lock_time as nat, 4, Seq::empty());
    assert(s + Seq::empty() =~= s);
}

/// The number of outputs, the outputs, and what follows.
spec fn encode_outputs(tx: TransactionView, rest: Seq<u8>) -> Seq<u8> {
    codec::compact_size(tx.output.len()) + (tx.output.map_values(
        |o: TxOutView| transaction::encode_tx_out(o),
    ).flatten() + rest)
}

proof fn lemma_body_is_read_back(tx: TransactionView, rest: Seq<u8>)
    requires
        encodable(tx),
    ensures
        transaction::read_counted(
            |s: Seq<u8>| transaction::read_tx_in(s),
            transaction::encode_body(tx) + rest,
        ) == Some((tx.input.map_values(|i: TxInView| without_witness(i)), encode_outputs(tx, rest))),
        transaction::read_counted(
            |s: Seq<u8>| transaction::read_tx_out(s),
            encode_outputs(tx, rest),
        ) == Some((tx.output, rest)),
{
    let inputs = codec::compact_size(tx.input.len()) + (tx.input.map_values(
        |i: TxInView| transaction::encode_tx_in(i),
    ).flatten() + encode_outputs(tx, rest));
    assert(transaction::encode_body(tx) + rest =~= inputs);
    lemma_inputs_are_read_back(tx.input, encode_outputs(tx, rest));
    lemma_outputs_are_read_back(tx.output, rest);
}

proof fn lemma_read_back_with_witnesses(tx: TransactionView)
    requires
        encodable(tx),
        transaction::has_witness_section(tx),
    ensures
        transaction::read_with_witnesses(
            tx.version,
            transaction::encode_body(tx) + (tx.input.map_values(
                |i: TxInView| transaction::encode_witness(i.witness),
            ).flatten() + codec::le_bytes(tx.lock_time as nat, 4)),
        ) == Some(tx),
{
    let lock_time = codec::le_bytes(tx.lock_time as nat, 4);
    let witnesses = tx.input.map_values(
        |i: TxInView| transaction::encode_witness(i.witness),
    ).flatten() + lock_time;
    let bare = tx.input.map_values(|i: TxInView| without_witness(i));
    reveal(transaction::read_with_witnesses);
    lemma_body_is_read_back(tx, witnesses);
    lemma_witnesses_are_read_back(tx.input, lock_time);
    assert(transaction::with_witnesses(bare, tx.input.map_values(|i: TxInView| i.witness))
        =~= tx.input);
    lemma_lock_time_is_read_back(tx);
}

proof fn lemma_read_back_without_witnesses(tx: TransactionView)
    requires
        encodable(tx),
        !transaction::has_witness_section(tx),
    ensures
        ({
            let lock_time = codec::le_bytes(tx.lock_time as nat, 4);
            &&& transaction::read_counted(
                |s: Seq<u8>| transaction::read_tx_in(s),
                transaction::encode_body(tx) + lock_time,
            ) == Some((tx.input, encode_outputs(tx, lock_time)))
            &&& transaction::read_without_witnesses(
                tx.version,
                tx.input,
                encode_outputs(tx, lock_time),
            ) == Some(tx)
        }),
{
    let bare = tx.input.map_values(|i: TxInView| without_witness(i));
    assert forall|i: int| 0 <= i < bare.len() implies bare[i] == #[trigger] tx.input[i] by {
        assert(tx.input[i].witness =~= Seq::empty());
    }
    assert(bare =~= tx.input);
    reveal(transaction::read_without_witnesses);
    lemma_body_is_read_back(tx, codec::le_bytes(tx.lock_time as nat, 4));
    lemma_lock_time_is_read_back(tx);
}

proof fn lemma_version_is_read_back(version: i32, rest: Seq<u8>)
    ensures
        codec::read_le(codec::le_bytes(codec::twos_complement(version), 4) + rest, 4) == Some(
            (codec::twos_complement(version), rest),
        ),
        codec::signed_value(codec::twos_complement(version)) == version,
{
    codec::lemma_pow256();
    codec::law_read_le_of_bytes(codec::twos_complement(version), 4, rest);
}

/// The marker of a witness section reads as a list of no inputs and a one.
proof fn lemma_marker_is_read(rest: Seq<u8>)
    ensures
        transaction::read_counted(
            |s: Seq<u8>| transaction::read_tx_in(s),
            seq![0u8, 1u8] + rest,
        ) == Some((Seq::<TxInView>::empty(), seq![1u8] + rest)),
        (seq![1u8] + rest)[0] == 1,
        (seq![1u8] + rest).skip(1) == rest,
{
    assert((seq![0u8, 1u8] + rest).skip(1) =~= seq![1u8] + rest);
    assert((seq![1u8] + rest).skip(1) =~= rest);
}

proof fn lemma_read_marked(version: i32, body: Seq<u8>)
    ensures
        transaction::read_transaction(
            codec::le_bytes(codec::twos_complement(version), 4) + (seq![0u8, 1u8] + body),
        ) == transaction::read_with_witnesses(version, body),
{
    reveal(transaction::read_transaction);
    lemma_version_is_read_back(version, seq![0u8, 1u8] + body);
    lemma_marker_is_read(body);
}

proof fn lemma_read_unmarked(version: i32, body: Seq<u8>, input: Seq<TxInView>, rest: Seq<u8>)
    requires
        input.len() > 0,
        transaction::read_counted(|s: Seq<u8>| transaction::read_tx_in(s), body) == Some(
            (input, rest),
        ),
    ensures
        transaction::read_transaction(
            codec::le_bytes(codec::twos_complement(version), 4) + body,
        ) == transaction::read_without_witnesses(version, input, rest),
{
    reveal(transaction::read_transaction);
    lemma_version_is_read_back(version, body);
}

proof fn lemma_encoding_regrouped(version: Seq<u8>, body: Seq<u8>, witnesses: Seq<u8>, end: Seq<u8>)
    ensures
        version + seq![0u8, 1u8] + body + witnesses + end == version + (seq![0u8, 1u8] + (body + (
        witnesses + end))),
        version + body + end == version + (body + end),
{
    assert(version + seq![0u8, 1u8] + body + witnesses + end =~= version + (seq![0u8, 1u8] + (body
        + (witnesses + end))));
    assert(version + body + end =~= version + (body + end));
}

/// A serialized transaction is read back as the transaction, its scripts and
/// witnesses included.
pub proof fn law_transaction_is_read_back(tx: TransactionView)
    requires
        encodable(tx),
    ensures
        transaction::read_transaction(transaction::encode_transaction(tx)) == Some(tx),
{
    let version = codec::le_bytes(codec::twos_complement(tx.version), 4);
    let body = transaction::encode_body(tx);
    let witnesses = tx.input.map_values(
        |i: TxInView| transaction::encode_witness(i.witness),
    ).flatten();
    let lock_time = codec::le_bytes(tx.lock_time as nat, 4);
    lemma_encoding_regrouped(version, body, witnesses, lock_time);
    if transaction::has_witness_section(tx) {
        lemma_read_marked(tx.version, body + (witnesses + lock_time));
        lemma_read_back_with_witnesses(tx);
    } else {
        lemma_read_back_without_witnesses(tx);
        lemma_read_unmarked(
            tx.version,
            body + lock_time,
            tx.input,
            encode_outputs(tx, lock_time),
        );
    }
}

/// Two transactions are serialized alike only if they are the same.
pub proof fn law_encoding_is_unambiguous(a: TransactionView, b: TransactionView)
    requires
        encodable(a),
        encodable(b),
        transaction::encode_transaction(a) == transaction::encode_transaction(b),
    ensures
        a == b,
{
    law_transaction_is_read_back(a);
    law_transaction_is_read_back(b);
}

/// The encoding starts with the version and ends with the lock time. Where no
/// input has a witness, and there is an input, only the inputs and outputs stand
/// between them.
pub proof fn law_encoding_frame(tx: TransactionView)
    ensures
        ({
            let s = transaction::encode_transaction(tx);
            &&& s.len() >= 8
            &&& s.take(4) == codec::le_bytes(codec::twos_complement(tx.version), 4)
            &&& s.skip(s.len() - 4) == codec::le_bytes(tx.lock_time as nat, 4)
            &&& !transaction::has_witness_section(tx) ==> s.subrange(4, s.len() - 4)
                == transaction::encode_body(tx)
        }),
{
    let s = transaction::encode_transaction(tx);
    let version = codec::le_bytes(codec::twos_complement(tx.version), 4);
    let lock_time = codec::le_bytes(tx.lock_time as nat, 4);
    codec::lemma_le_bytes_len(codec::twos_complement(tx.version), 4);
    codec::lemma_le_bytes_len(tx.lock_time as nat, 4);
    assert(s.take(4) =~= version);
    assert(s.skip(s.len() - 4) =~= lock_time);
    if !transaction::has_witness_section(tx) {
        assert(s.subrange(4, s.len() - 4) =~= transaction::encode_body(tx));
    }
}

} // verus!
