use tx_provenance::provenance::ProvenanceResult;
use tx_provenance::report::{btc_string, decimal_string, settlement_text};

#[test]
fn decimal_numbers() {
    assert_eq!(decimal_string(0), "0");
    assert_eq!(decimal_string(102), "102");
    assert_eq!(decimal_string(u64::MAX), "18446744073709551615");
}

#[test]
fn bitcoin_amounts() {
    assert_eq!(btc_string(2_000_000_000), "20");
    assert_eq!(btc_string(15_000), "0.00015");
    assert_eq!(btc_string(2_999_985_000), "29.99985");
    assert_eq!(btc_string(1), "0.00000001");
    assert_eq!(btc_string(0), "0");
    assert_eq!(btc_string(123_456_789), "1.23456789");
}

#[test]
fn record_has_ten_lines_in_order() {
    let p = ProvenanceResult {
        txid: "cc33".to_string(),
        input_address: Some("addr_in".to_string()),
        input_amount: 5_000_000_000,
        counterparty_address: "addr_cp".to_string(),
        payment_amount: 2_000_000_000,
        change_address: None,
        change_amount: 2_999_985_000,
        fee: 15_000,
        block_height: 102,
        block_hash: "00ff".to_string(),
    };
    assert_eq!(
        settlement_text(&p),
        "cc33\naddr_in\n50\naddr_cp\n20\n\n29.99985\n0.00015\n102\n00ff\n"
    );
}
