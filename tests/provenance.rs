use tx_provenance::provenance::{
    classify_outputs, decode_output, normalize_fee, previous_output_ref, reconstruct,
    resolve_input, RawTransaction, ReconstructError, TxInput, TxOutput, TxStatus,
};

const MINER: &str = "bcrt1q2nfxmhd4n3c8834pj72xagvyr9gl57n5r94fsl";
const TRADER: &str = "mqkhEMH6NCeYjFybv7pvFC22MFeaNT9AQC";
const OTHER: &str = "2N83imGV3gPwBzKJQvWJ7cRUY2SpUyU6A5e";
const MAINNET: &str = "bc1qhvd6suvqzjcu9pxjhrwhtrlj85ny3n2mqql5w4";

fn out(addr: Option<&str>, sat: Option<u64>) -> TxOutput {
    TxOutput { address: addr.map(|a| a.to_string()), value_sat: sat }
}

fn input(txid: &str, vout: u64) -> TxInput {
    TxInput { prev_txid: Some(txid.to_string()), prev_vout: Some(vout) }
}

fn transfer(vout: Vec<TxOutput>) -> RawTransaction {
    RawTransaction { vin: vec![input("aa11", 1)], vout }
}

fn confirmed(fee: i64) -> TxStatus {
    TxStatus { fee_sat: Some(fee), block_height: Some(102), block_hash: Some("00ff".to_string()) }
}

#[test]
fn decode_valid_regtest_output() {
    let r = decode_output(&out(Some(MINER), Some(5_000_000_000)));
    assert_eq!(r, Some((MINER.to_string(), 5_000_000_000)));
    assert_eq!(decode_output(&out(Some(OTHER), Some(1))), Some((OTHER.to_string(), 1)));
}

#[test]
fn decode_rejects_missing_or_foreign_address() {
    assert_eq!(decode_output(&out(None, Some(5))), None);
    assert_eq!(decode_output(&out(Some(MAINNET), Some(5))), None);
    assert_eq!(decode_output(&out(Some("not an address"), Some(5))), None);
    assert_eq!(decode_output(&out(Some(MINER), None)), None);
}

#[test]
fn previous_ref_of_first_input() {
    let tx = RawTransaction { vin: vec![input("aa11", 1), input("bb22", 0)], vout: vec![] };
    assert_eq!(previous_output_ref(&tx), Some(("aa11".to_string(), 1)));
    let coinbase = RawTransaction {
        vin: vec![TxInput { prev_txid: None, prev_vout: None }],
        vout: vec![],
    };
    assert_eq!(previous_output_ref(&coinbase), None);
    assert_eq!(previous_output_ref(&RawTransaction { vin: vec![], vout: vec![] }), None);
}

#[test]
fn input_resolves_to_previous_output() {
    let tx = transfer(vec![]);
    let prev = RawTransaction {
        vin: vec![],
        vout: vec![out(Some(OTHER), Some(7)), out(Some(MINER), Some(5_000_000_000))],
    };
    assert_eq!(resolve_input(&tx, &Some(prev)), (Some(MINER.to_string()), 5_000_000_000));
}

#[test]
fn unfetched_previous_gives_empty_input() {
    let tx = transfer(vec![]);
    assert_eq!(resolve_input(&tx, &None), (None, 0));
}

#[test]
fn out_of_range_or_undecodable_previous_output_gives_empty_input() {
    let tx = transfer(vec![]);
    let short = RawTransaction { vin: vec![], vout: vec![out(Some(MINER), Some(9))] };
    assert_eq!(resolve_input(&tx, &Some(short)), (None, 0));
    let bad = RawTransaction {
        vin: vec![],
        vout: vec![out(Some(MINER), Some(9)), out(None, Some(9))],
    };
    assert_eq!(resolve_input(&tx, &Some(bad)), (None, 0));
}

#[test]
fn two_outputs_split_in_either_order() {
    let a = transfer(vec![out(Some(TRADER), Some(2_000_000_000)), out(Some(MINER), Some(2_999_985_000))]);
    let b = transfer(vec![out(Some(MINER), Some(2_999_985_000)), out(Some(TRADER), Some(2_000_000_000))]);
    let expected = (2_000_000_000, Some(MINER.to_string()), 2_999_985_000);
    assert_eq!(classify_outputs(&a, &TRADER.to_string()), expected);
    assert_eq!(classify_outputs(&b, &TRADER.to_string()), expected);
}

#[test]
fn last_other_output_is_the_change() {
    let tx = transfer(vec![
        out(Some(MINER), Some(11)),
        out(Some(TRADER), Some(20)),
        out(Some(OTHER), Some(33)),
        out(None, Some(44)),
    ]);
    assert_eq!(classify_outputs(&tx, &TRADER.to_string()), (20, Some(OTHER.to_string()), 33));
}

#[test]
fn undecodable_outputs_are_skipped() {
    let tx = transfer(vec![out(Some(MAINNET), Some(5)), out(None, Some(6))]);
    assert_eq!(classify_outputs(&tx, &TRADER.to_string()), (0, None, 0));
}

#[test]
fn negative_fee_is_normalized() {
    assert_eq!(normalize_fee(Some(-15_000)), 15_000);
    assert_eq!(normalize_fee(Some(15_000)), 15_000);
    assert_eq!(normalize_fee(None), 0);
    assert_eq!(normalize_fee(Some(i64::MIN)), 9_223_372_036_854_775_808);
}

#[test]
fn reconstruct_transfer() {
    let tx = transfer(vec![out(Some(TRADER), Some(2_000_000_000)), out(Some(MINER), Some(2_999_985_000))]);
    let prev = RawTransaction { vin: vec![], vout: vec![out(None, Some(1)), out(Some(MINER), Some(5_000_000_000))] };
    let r = reconstruct(&"cc33".to_string(), &TRADER.to_string(), &tx, &Some(prev), &confirmed(-15_000)).unwrap();
    assert_eq!(r.txid, "cc33");
    assert_eq!(r.input_address, Some(MINER.to_string()));
    assert_eq!(r.input_amount, 5_000_000_000);
    assert_eq!(r.counterparty_address, TRADER);
    assert_eq!(r.payment_amount, 2_000_000_000);
    assert_eq!(r.change_address, Some(MINER.to_string()));
    assert_eq!(r.change_amount, 2_999_985_000);
    assert_eq!(r.fee, 15_000);
    assert_eq!(r.block_height, 102);
    assert_eq!(r.block_hash, "00ff");
}

#[test]
fn reconstruct_with_unfetched_previous_still_succeeds() {
    let tx = transfer(vec![out(Some(TRADER), Some(20))]);
    let r = reconstruct(&"cc33".to_string(), &TRADER.to_string(), &tx, &None, &confirmed(0)).unwrap();
    assert_eq!(r.input_address, None);
    assert_eq!(r.input_amount, 0);
    assert_eq!(r.payment_amount, 20);
}

#[test]
fn reconstruct_unconfirmed_fails() {
    let tx = transfer(vec![]);
    let status = TxStatus { fee_sat: Some(-1), block_height: None, block_hash: None };
    let r = reconstruct(&"cc33".to_string(), &TRADER.to_string(), &tx, &None, &status);
    assert!(matches!(r, Err(ReconstructError::Unconfirmed)));
    let status = TxStatus { fee_sat: Some(-1), block_height: Some(5), block_hash: None };
    let r = reconstruct(&"cc33".to_string(), &TRADER.to_string(), &tx, &None, &status);
    assert!(matches!(r, Err(ReconstructError::Unconfirmed)));
}
