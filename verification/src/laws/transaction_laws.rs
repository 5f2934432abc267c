//! What transactions hold, and what their copies keep.

use vstd::prelude::*;

use crate::claim::{ClaimLocation, ClaimLocationView};
use crate::outside;
use crate::transaction::{
    self,
    OutPoint,
    Transaction,
    TransactionView,
    TxIn,
    TxInView,
    TxOut,
    TxOutView,
};

verus! {

/// What the parts of a transaction hold: each of their fields as it is.
pub proof fn law_view_of_parts(point: OutPoint, i: TxIn, o: TxOut, claim: ClaimLocation)
    ensures
        point@.txid == point.txid@ && point@.vout == point.vout,
        i@ == (TxInView {
            previous_output: i.previous_output@,
            script_sig: i.script_sig@,
            sequence: i.sequence,
            witness: outside::witness_items(i.witness),
        }),
        o@ == (TxOutView { value: o.value, script_pubkey: o.script_pubkey@ }),
        claim@ == match claim {
            ClaimLocation::Script(script) => ClaimLocationView::Script(script@),
            ClaimLocation::Witness(witness) => ClaimLocationView::Witness(
                outside::witness_items(witness),
            ),
        },
{
}

/// What a transaction holds: its version and lock time as they are, and its
/// inputs and outputs, all of them in order.
pub proof fn law_view_of_transaction(tx: Transaction)
    ensures
        tx@.version == tx.version,
        tx@.lock_time == tx.lock_time,
        tx@.input.len() == tx.input@.len(),
        forall|i: int| 0 <= i < tx.input@.len() ==> #[trigger] tx@.input[i] == tx.input@[i]@,
        tx@.output.len() == tx.output@.len(),
        forall|i: int| 0 <= i < tx.output@.len() ==> #[trigger] tx@.output[i] == tx.output@[i]@,
        transaction::tx_outs(tx.output@) == tx@.output,
{
}

/// Without its claims a transaction keeps all but the scripts and witnesses of
/// its inputs, which are empty. The claims are all that two transactions can
/// differ in that are the same without them.
pub proof fn law_without_claims(a: TransactionView, b: TransactionView)
    ensures
        ({
            let bare = transaction::without_claims(a);
            &&& bare.version == a.version
            &&& bare.lock_time == a.lock_time
            &&& bare.output == a.output
            &&& bare.input.len() == a.input.len()
            &&& forall|i: int|
                0 <= i < a.input.len() ==> {
                    &&& (#[trigger] bare.input[i]).previous_output == a.input[i].previous_output
                    &&& bare.input[i].sequence == a.input[i].sequence
                    &&& bare.input[i].script_sig.len() == 0
                    &&& bare.input[i].witness.len() == 0
                }
        }),
        transaction::without_claims(a) == transaction::without_claims(b) <==> {
            &&& a.version == b.version
            &&& a.lock_time == b.lock_time
            &&& a.output == b.output
            &&& a.input.len() == b.input.len()
            &&& forall|i: int|
                0 <= i < a.input.len() ==> (#[trigger] a.input[i]).previous_output
                    == b.input[i].previous_output && a.input[i].sequence == b.input[i].sequence
        },
{
    let x = transaction::without_claims(a);
    let y = transaction::without_claims(b);
    if x == y {
        assert(x.input.len() == y.input.len());
        assert forall|i: int| 0 <= i < a.input.len() implies (
        #[trigger] a.input[i]).previous_output == b.input[i].previous_output && a.input[i].sequence
            == b.input[i].sequence by {
            assert(x.input[i] == y.input[i]);
        }
    }
    if {
        &&& a.version == b.version
        &&& a.lock_time == b.lock_time
        &&& a.output == b.output
        &&& a.input.len() == b.input.len()
        &&& forall|i: int|
            0 <= i < a.input.len() ==> (#[trigger] a.input[i]).previous_output
                == b.input[i].previous_output && a.input[i].sequence == b.input[i].sequence
    } {
        assert forall|i: int| 0 <= i < x.input.len() implies x.input[i] == y.input[i] by {
            assert(a.input[i].previous_output == b.input[i].previous_output);
        }
        assert(x.input =~= y.input);
    }
}

/// A copy of a transaction has the same version and lock time, and the same
/// inputs and outputs in the same order.
pub proof fn law_copy_of_transaction(a: Transaction, b: Transaction)
    requires
        call_ensures(<Transaction as Clone>::clone, (&a,), b),
    ensures
        b.version == a.version,
        b.lock_time == a.lock_time,
        b.input@.len() == a.input@.len(),
        forall|i: int| 0 <= i < a.input@.len() ==> (#[trigger] b.input@[i])@ == a.input@[i]@,
        b.output@.len() == a.output@.len(),
        forall|i: int|
            0 <= i < a.output@.len() ==> (#[trigger] b.output@[i]).value == a.output@[i].value
                && b.output@[i].script_pubkey@ == a.output@[i].script_pubkey@,
{
    law_view_of_transaction(a);
    law_view_of_transaction(b);
    assert forall|i: int| 0 <= i < a.input@.len() implies (#[trigger] b.input@[i])@
        == a.input@[i]@ by {
        assert(a@.input[i] == b@.input[i]);
    }
    assert forall|i: int| 0 <= i < a.output@.len() implies (#[trigger] b.output@[i]).value
        == a.output@[i].value && b.output@[i].script_pubkey@ == a.output@[i].script_pubkey@ by {
        assert(a@.output[i] == b@.output[i]);
        assert(b.output@[i]@ == a.output@[i]@);
    }
}

/// A copy of an input has the same place, script, sequence number and witness.
pub proof fn law_copy_of_tx_in(a: TxIn, b: TxIn)
    requires
        call_ensures(<TxIn as Clone>::clone, (&a,), b),
    ensures
        b.previous_output.txid@ == a.previous_output.txid@,
        b.previous_output.vout == a.previous_output.vout,
        b.script_sig@ == a.script_sig@,
        b.sequence == a.sequence,
        outside::witness_items(b.witness) == outside::witness_items(a.witness),
{
    assert(b@.previous_output == a@.previous_output);
}

/// A copy of a list of outputs has the same amounts and scripts in the same
/// order.
pub proof fn law_copy_of_outputs(a: Vec<TxOut>, b: Vec<TxOut>)
    requires
        call_ensures(transaction::clone_outputs, (&a,), b),
    ensures
        b@.len() == a@.len(),
        forall|i: int|
            0 <= i < a@.len() ==> (#[trigger] b@[i]).value == a@[i].value && b@[i].script_pubkey@
                == a@[i].script_pubkey@,
{
    let x = transaction::tx_outs(a@);
    let y = transaction::tx_outs(b@);
    assert(x.len() == a@.len() && y.len() == b@.len());
    assert forall|i: int| 0 <= i < a@.len() implies (#[trigger] b@[i]).value == a@[i].value
        && b@[i].script_pubkey@ == a@[i].script_pubkey@ by {
        assert(x[i] == a@[i]@ && y[i] == b@[i]@);
    }
}

/// Attaching claims puts each claim into its place in the input of the same
/// number, the script or the witness, and changes nothing else.
pub proof fn law_attached_claims(
    tx: Transaction,
    claims: Vec<Option<ClaimLocation>>,
    r: Transaction,
)
    requires
        call_ensures(crate::builder::attach_claims, (tx, claims), r),
    ensures
        r.version == tx.version,
        r.lock_time == tx.lock_time,
        r@.output == tx@.output,
        r@.input.len() == tx@.input.len(),
        forall|i: int|
            0 <= i < tx@.input.len() ==> {
                let before = tx@.input[i];
                let after = #[trigger] r@.input[i];
                let claim = if i < claims@.len() {
                    claims@[i]
                } else {
                    None
                };
                &&& after.previous_output == before.previous_output
                &&& after.sequence == before.sequence
                &&& after.script_sig == match claim {
                    Some(ClaimLocation::Script(script)) => script@,
                    _ => before.script_sig,
                }
                &&& after.witness == match claim {
                    Some(ClaimLocation::Witness(witness)) => outside::witness_items(witness),
                    _ => before.witness,
                }
            },
{
}

} // verus!
