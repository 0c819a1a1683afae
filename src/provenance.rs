//! Provenance of a transfer: its input's owner and amount, found by following
//! the first input to the output it spends, and the split of its own outputs
//! into the payment to a counterparty and the change.

use vstd::prelude::*;
use crate::address::{is_regtest_address, regtest_address_valid};

verus! {

/// An input of a raw transaction: the output it spends, as far as the node reported it.
pub struct TxInput {
    /// Identifier of the transaction that holds the spent output.
    pub prev_txid: Option<String>,
    /// Index of the spent output in that transaction.
    pub prev_vout: Option<u64>,
}

/// An output of a raw transaction.
pub struct TxOutput {
    /// The address its script pays to, where the node reported one.
    pub address: Option<String>,
    /// Its amount in satoshis, where the reported value was a valid amount.
    pub value_sat: Option<u64>,
}

/// A raw transaction: its inputs and outputs in order.
pub struct RawTransaction {
    pub vin: Vec<TxInput>,
    pub vout: Vec<TxOutput>,
}

/// The view of an optional string.
pub open spec fn opt_view(o: Option<String>) -> Option<Seq<char>> {
    match o {
        Some(s) => Some(s@),
        None => None,
    }
}

/// An output decoded into its address and amount; `None` where the address is
/// missing or not a regtest address, or the amount is missing.
pub open spec fn decoded(o: TxOutput) -> Option<(Seq<char>, u64)> {
    match (o.address, o.value_sat) {
        (Some(a), Some(v)) => if is_regtest_address(a@) {
            Some((a@, v))
        } else {
            None
        },
        _ => None,
    }
}

/// Decodes an output into its address and amount.
pub fn decode_output(o: &TxOutput) -> (r: Option<(String, u64)>)
    ensures
        r.is_some() == decoded(*o).is_some(),
        r.is_some() ==> decoded(*o) == Some((r.unwrap().0@, r.unwrap().1)),
{
    match (&o.address, o.value_sat) {
        (Some(a), Some(v)) => {
            if regtest_address_valid(a.as_str()) {
                Some((a.clone(), v))
            } else {
                None
            }
        },
        _ => None,
    }
}

/// The output that the first input spends, as (transaction id, index); `None`
/// where there is no input or it does not name both.
pub open spec fn spec_previous_output_ref(tx: RawTransaction) -> Option<(Seq<char>, u64)> {
    if tx.vin@.len() == 0 {
        None
    } else {
        match (tx.vin@[0].prev_txid, tx.vin@[0].prev_vout) {
            (Some(t), Some(i)) => Some((t@, i)),
            _ => None,
        }
    }
}

/// Finds the output that the first input spends; the caller fetches the
/// transaction it names.
pub fn previous_output_ref(tx: &RawTransaction) -> (r: Option<(String, u64)>)
    ensures
        r.is_some() == spec_previous_output_ref(*tx).is_some(),
        r.is_some() ==> spec_previous_output_ref(*tx) == Some((r.unwrap().0@, r.unwrap().1)),
{
    if tx.vin.len() == 0 {
        return None;
    }
    match (&tx.vin[0].prev_txid, tx.vin[0].prev_vout) {
        (Some(t), Some(i)) => Some((t.clone(), i)),
        _ => None,
    }
}

/// The owner and amount of the first input: the decoded output that it spends
/// in `prev`, the previous transaction as fetched (`None` where the fetch
/// failed). Where anything is missing, out of range or undecodable, no
/// address and a zero amount.
pub open spec fn spec_resolved_input(tx: RawTransaction, prev: Option<RawTransaction>) -> (
    Option<Seq<char>>,
    u64,
) {
    match (spec_previous_output_ref(tx), prev) {
        (Some((_, i)), Some(p)) => if (i as int) < p.vout@.len() {
            match decoded(p.vout@[i as int]) {
                Some((a, v)) => (Some(a), v),
                None => (None, 0),
            }
        } else {
            (None, 0)
        },
        _ => (None, 0),
    }
}

/// Resolves the owner and amount of the first input of `tx` from the
/// previous transaction `prev`.
pub fn resolve_input(tx: &RawTransaction, prev: &Option<RawTransaction>) -> (r: (
    Option<String>,
    u64,
))
    ensures
        (opt_view(r.0), r.1) == spec_resolved_input(*tx, *prev),
{
    match (previous_output_ref(tx), prev) {
        (Some((_, i)), Some(p)) => {
            if i < p.vout.len() as u64 {
                match decode_output(&p.vout[i as usize]) {
                    Some((a, v)) => (Some(a), v),
                    None => (None, 0),
                }
            } else {
                (None, 0)
            }
        },
        _ => (None, 0),
    }
}

/// The payment to `counterparty`, and the change address and amount, over
/// the decodable outputs in order: an output to the counterparty sets the
/// payment, any other sets the change, and a later one replaces an earlier.
pub open spec fn spec_classify(outs: Seq<TxOutput>, counterparty: Seq<char>) -> (
    u64,
    Option<Seq<char>>,
    u64,
)
    decreases outs.len(),
{
    if outs.len() == 0 {
        (0, None, 0)
    } else {
        let (pay, change_addr, change_amt) = spec_classify(outs.drop_last(), counterparty);
        match decoded(outs.last()) {
            None => (pay, change_addr, change_amt),
            Some((a, v)) => if a == counterparty {
                (v, change_addr, change_amt)
            } else {
                (pay, Some(a), v)
            },
        }
    }
}

/// Splits the outputs of `tx` into the payment to `counterparty` and the change.
pub fn classify_outputs(tx: &RawTransaction, counterparty: &String) -> (r: (u64, Option<String>, u64))
    ensures
        (r.0, opt_view(r.1), r.2) == spec_classify(tx.vout@, counterparty@),
{
    let mut pay: u64 = 0;
    let mut change_addr: Option<String> = None;
    let mut change_amt: u64 = 0;
    let mut i: usize = 0;
    while i < tx.vout.len()
        invariant
            i <= tx.vout.len(),
            (pay, opt_view(change_addr), change_amt) == spec_classify(
                tx.vout@.take(i as int),
                counterparty@,
            ),
        decreases tx.vout.len() - i,
    {
        assert(tx.vout@.take(i + 1).drop_last() == tx.vout@.take(i as int));
        assert(tx.vout@.take(i + 1).last() == tx.vout@[i as int]);
        match decode_output(&tx.vout[i]) {
            Some((a, v)) => {
                if a == *counterparty {
                    pay = v;
                } else {
                    change_addr = Some(a);
                    change_amt = v;
                }
            },
            None => {},
        }
        i += 1;
    }
    assert(tx.vout@.take(i as int) == tx.vout@);
    (pay, change_addr, change_amt)
}

/// The magnitude of a reported fee; zero where none was reported.
pub open spec fn spec_fee_magnitude(fee: Option<i64>) -> int {
    match fee {
        Some(f) => if f < 0 {
            -f
        } else {
            f as int
        },
        None => 0,
    }
}

/// Normalizes a reported fee in satoshis to its magnitude: the node may
/// report it as a negative adjustment from the wallet's side.
pub fn normalize_fee(fee: Option<i64>) -> (r: u64)
    ensures
        r as int == spec_fee_magnitude(fee),
{
    match fee {
        Some(f) => {
            if f < 0 {
                if f == i64::MIN {
                    9_223_372_036_854_775_808u64
                } else {
                    (-f) as u64
                }
            } else {
                f as u64
            }
        },
        None => 0,
    }
}

/// What the node reports of a transfer from the sending wallet's side.
pub struct TxStatus {
    /// The fee in satoshis, possibly negative.
    pub fee_sat: Option<i64>,
    /// Height of the confirming block, once confirmed.
    pub block_height: Option<u64>,
    /// Hash of the confirming block, once confirmed.
    pub block_hash: Option<String>,
}

/// Why a provenance could not be reconstructed.
#[derive(Debug, Clone, Copy, PartialEq, Eq, Structural)]
pub enum ReconstructError {
    /// The transfer has no confirming block height or hash yet.
    Unconfirmed,
}

/// The reconstructed settlement of a transfer; amounts in satoshis.
pub struct ProvenanceResult {
    pub txid: String,
    pub input_address: Option<String>,
    pub input_amount: u64,
    pub counterparty_address: String,
    pub payment_amount: u64,
    pub change_address: Option<String>,
    pub change_amount: u64,
    pub fee: u64,
    pub block_height: u64,
    pub block_hash: String,
}

/// Whether `status` names both the confirming block's height and hash.
pub open spec fn spec_confirmed(status: TxStatus) -> bool {
    status.block_height.is_some() && status.block_hash.is_some()
}

/// Reconstructs the settlement of the transfer `txid` to `counterparty` from
/// its raw transaction `tx`, the previous transaction `prev` that its first
/// input spends (`None` where it could not be fetched), and its status.
/// Fails exactly when the transfer is not confirmed.
pub fn reconstruct(
    txid: &String,
    counterparty: &String,
    tx: &RawTransaction,
    prev: &Option<RawTransaction>,
    status: &TxStatus,
) -> (r: Result<ProvenanceResult, ReconstructError>)
    ensures
        r.is_err() == !spec_confirmed(*status),
        r.is_err() ==> r == Err::<ProvenanceResult, ReconstructError>(ReconstructError::Unconfirmed),
        r.is_ok() ==> ({
            let p = r.unwrap();
            &&& p.txid@ == txid@
            &&& (opt_view(p.input_address), p.input_amount) == spec_resolved_input(*tx, *prev)
            &&& p.counterparty_address@ == counterparty@
            &&& (p.payment_amount, opt_view(p.change_address), p.change_amount) == spec_classify(
                tx.vout@,
                counterparty@,
            )
            &&& p.fee as int == spec_fee_magnitude(status.fee_sat)
            &&& Some(p.block_height) == status.block_height
            &&& Some(p.block_hash@) == opt_view(status.block_hash)
        }),
{
    let (block_height, block_hash) = match (status.block_height, &status.block_hash) {
        (Some(h), Some(b)) => (h, b.clone()),
        _ => {
            return Err(ReconstructError::Unconfirmed);
        },
    };
    let (input_address, input_amount) = resolve_input(tx, prev);
    let (payment_amount, change_address, change_amount) = classify_outputs(tx, counterparty);
    Ok(
        ProvenanceResult {
            txid: txid.clone(),
            input_address,
            input_amount,
            counterparty_address: counterparty.clone(),
            payment_amount,
            change_address,
            change_amount,
            fee: normalize_fee(status.fee_sat),
            block_height,
            block_hash,
        },
    )
}

/// Where the first input names an output that the fetched previous
/// transaction holds and that decodes, the input's owner and amount are that
/// output's address and amount.
pub proof fn lemma_input_resolves_to_previous_output(
    tx: RawTransaction,
    prev: RawTransaction,
    prev_txid: Seq<char>,
    index: u64,
)
    requires
        tx.vin@.len() == 1,
        spec_previous_output_ref(tx) == Some((prev_txid, index)),
        (index as int) < prev.vout@.len(),
        decoded(prev.vout@[index as int]).is_some(),
    ensures
        spec_resolved_input(tx, Some(prev)) == (
            Some(decoded(prev.vout@[index as int]).unwrap().0),
            decoded(prev.vout@[index as int]).unwrap().1,
        ),
{
}

/// Where the previous transaction could not be fetched, the input has no
/// owner and a zero amount.
pub proof fn lemma_unfetched_previous_gives_empty_input(tx: RawTransaction)
    ensures
        spec_resolved_input(tx, None) == (None::<Seq<char>>, 0u64),
{
}

/// Of two decodable outputs, one to the counterparty and one elsewhere, the
/// first gives the payment and the second the change, in either order.
pub proof fn lemma_two_outputs_split(outs: Seq<TxOutput>, counterparty: Seq<char>, pay_index: int)
    requires
        outs.len() == 2,
        0 <= pay_index < 2,
        decoded(outs[pay_index]).is_some(),
        decoded(outs[pay_index]).unwrap().0 == counterparty,
        decoded(outs[1 - pay_index]).is_some(),
        decoded(outs[1 - pay_index]).unwrap().0 != counterparty,
    ensures
        spec_classify(outs, counterparty) == (
            decoded(outs[pay_index]).unwrap().1,
            Some(decoded(outs[1 - pay_index]).unwrap().0),
            decoded(outs[1 - pay_index]).unwrap().1,
        ),
{
    reveal_with_fuel(spec_classify, 3);
    let first = outs.drop_last();
    assert(first.drop_last() =~= Seq::<TxOutput>::empty());
    assert(first.last() == outs[0]);
    assert(outs.last() == outs[1]);
}

/// The change reported is the last decodable output, in output order, that
/// does not pay the counterparty.
pub proof fn lemma_change_is_last_other_output(
    outs: Seq<TxOutput>,
    counterparty: Seq<char>,
    j: int,
)
    requires
        0 <= j < outs.len(),
        decoded(outs[j]).is_some(),
        decoded(outs[j]).unwrap().0 != counterparty,
        forall|k: int|
            j < k < outs.len() ==> decoded(#[trigger] outs[k]).is_none() || decoded(
                outs[k],
            ).unwrap().0 == counterparty,
    ensures
        spec_classify(outs, counterparty).1 == Some(decoded(outs[j]).unwrap().0),
        spec_classify(outs, counterparty).2 == decoded(outs[j]).unwrap().1,
    decreases outs.len(),
{
    if j < outs.len() - 1 {
        let init = outs.drop_last();
        assert forall|k: int| j < k < init.len() implies decoded(#[trigger] init[k]).is_none()
            || decoded(init[k]).unwrap().0 == counterparty by {
            assert(init[k] == outs[k]);
        }
        assert(init[j] == outs[j]);
        lemma_change_is_last_other_output(init, counterparty, j);
        assert(outs.last() == outs[outs.len() - 1]);
    }
}

} // verus!
