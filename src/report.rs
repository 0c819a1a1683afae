//! The settlement record as text: ten lines in a fixed order, amounts in
//! bitcoin with the trailing zeros of the fraction left out.

use vstd::prelude::*;
use crate::provenance::ProvenanceResult;

verus! {

/// Satoshis in one bitcoin.
pub const SAT_PER_BTC: u64 = 100_000_000;

/// The character of a decimal digit.
pub open spec fn digit_char(d: int) -> char {
    if d == 0 {
        '0'
    } else if d == 1 {
        '1'
    } else if d == 2 {
        '2'
    } else if d == 3 {
        '3'
    } else if d == 4 {
        '4'
    } else if d == 5 {
        '5'
    } else if d == 6 {
        '6'
    } else if d == 7 {
        '7'
    } else if d == 8 {
        '8'
    } else {
        '9'
    }
}

/// The decimal numeral of `n`, without leading zeros.
pub open spec fn decimal_text(n: nat) -> Seq<char>
    decreases n,
{
    if n < 10 {
        seq![digit_char(n as int)]
    } else {
        decimal_text(n / 10) + seq![digit_char((n % 10) as int)]
    }
}

/// The last `w` decimal digits of `n`, padded with zeros on the left.
pub open spec fn fixed_text(n: nat, w: nat) -> Seq<char>
    decreases w,
{
    if w == 0 {
        Seq::empty()
    } else {
        fixed_text(n / 10, (w - 1) as nat) + seq![digit_char((n % 10) as int)]
    }
}

/// `s` without its trailing `'0'` characters.
pub open spec fn trim_zeros(s: Seq<char>) -> Seq<char>
    decreases s.len(),
{
    if s.len() > 0 && s.last() == '0' {
        trim_zeros(s.drop_last())
    } else {
        s
    }
}

/// An amount of satoshis written in bitcoin: the whole part, then a point and
/// the fraction without trailing zeros where the fraction is not zero.
pub open spec fn btc_text(sat: nat) -> Seq<char> {
    let whole = decimal_text(sat / (SAT_PER_BTC as nat));
    let frac = sat % (SAT_PER_BTC as nat);
    if frac == 0 {
        whole
    } else {
        whole + seq!['.'] + trim_zeros(fixed_text(frac, 8))
    }
}

fn digit_str(d: u64) -> (r: &'static str)
    requires
        d < 10,
    ensures
        r@ == seq![digit_char(d as int)],
{
    if d == 0 {
        proof { reveal_strlit("0"); }
        "0"
    } else if d == 1 {
        proof { reveal_strlit("1"); }
        "1"
    } else if d == 2 {
        proof { reveal_strlit("2"); }
        "2"
    } else if d == 3 {
        proof { reveal_strlit("3"); }
        "3"
    } else if d == 4 {
        proof { reveal_strlit("4"); }
        "4"
    } else if d == 5 {
        proof { reveal_strlit("5"); }
        "5"
    } else if d == 6 {
        proof { reveal_strlit("6"); }
        "6"
    } else if d == 7 {
        proof { reveal_strlit("7"); }
        "7"
    } else if d == 8 {
        proof { reveal_strlit("8"); }
        "8"
    } else {
        proof { reveal_strlit("9"); }
        "9"
    }
}

/// Writes `n` in decimal.
pub fn decimal_string(n: u64) -> (r: String)
    ensures
        r@ == decimal_text(n as nat),
    decreases n,
{
    if n < 10 {
        String::from_str(digit_str(n))
    } else {
        decimal_string(n / 10).concat(digit_str(n % 10))
    }
}

fn fixed_string(n: u64, w: u64) -> (r: String)
    ensures
        r@ == fixed_text(n as nat, w as nat),
    decreases w,
{
    if w == 0 {
        String::new()
    } else {
        fixed_string(n / 10, w - 1).concat(digit_str(n % 10))
    }
}

proof fn lemma_fixed_trailing_zero(n: nat, w: nat)
    requires
        w > 0,
        n % 10 == 0,
    ensures
        trim_zeros(fixed_text(n, w)) == trim_zeros(fixed_text(n / 10, (w - 1) as nat)),
{
    let s = fixed_text(n, w);
    assert(s.drop_last() == fixed_text(n / 10, (w - 1) as nat));
}

proof fn lemma_fixed_no_trailing_zero(n: nat, w: nat)
    requires
        w == 0 || n % 10 != 0,
    ensures
        trim_zeros(fixed_text(n, w)) == fixed_text(n, w),
{
    if w > 0 {
        assert(fixed_text(n, w).last() == digit_char((n % 10) as int));
    }
}

/// Writes an amount of satoshis in bitcoin.
pub fn btc_string(sat: u64) -> (r: String)
    ensures
        r@ == btc_text(sat as nat),
{
    let whole = decimal_string(sat / SAT_PER_BTC);
    let frac = sat % SAT_PER_BTC;
    if frac == 0 {
        return whole;
    }
    let mut f: u64 = frac;
    let mut w: u64 = 8;
    while w > 0 && f % 10 == 0
        invariant
            w <= 8,
            trim_zeros(fixed_text(f as nat, w as nat)) == trim_zeros(fixed_text(frac as nat, 8)),
        decreases w,
    {
        proof {
            lemma_fixed_trailing_zero(f as nat, w as nat);
        }
        f = f / 10;
        w = w - 1;
    }
    proof {
        lemma_fixed_no_trailing_zero(f as nat, w as nat);
    }
    proof { reveal_strlit("."); }
    whole.concat(".").concat(fixed_string(f, w).as_str())
}

/// An optional address as a line's text: empty where there is none.
pub open spec fn address_text(a: Option<String>) -> Seq<char> {
    match a {
        Some(s) => s@,
        None => Seq::empty(),
    }
}

/// The settlement record: transaction id, input address, input amount,
/// counterparty address, payment amount, change address, change amount, fee,
/// block height and block hash, one per line, each line ended by a newline.
pub open spec fn record_text(p: ProvenanceResult) -> Seq<char> {
    let nl = seq!['\n'];
    p.txid@ + nl + address_text(p.input_address) + nl + btc_text(p.input_amount as nat) + nl
        + p.counterparty_address@ + nl + btc_text(p.payment_amount as nat) + nl + address_text(
        p.change_address,
    ) + nl + btc_text(p.change_amount as nat) + nl + btc_text(p.fee as nat) + nl + decimal_text(
        p.block_height as nat,
    ) + nl + p.block_hash@ + nl
}

fn push_line(out: String, line: &str) -> (r: String)
    ensures
        r@ == out@ + line@ + seq!['\n'],
{
    proof { reveal_strlit("\n"); }
    out.concat(line).concat("\n")
}

/// Writes the settlement record as its ten lines.
pub fn settlement_text(p: &ProvenanceResult) -> (r: String)
    ensures
        r@ == record_text(*p),
{
    let empty = String::new();
    let input_address = match &p.input_address {
        Some(a) => a,
        None => &empty,
    };
    let change_address = match &p.change_address {
        Some(a) => a,
        None => &empty,
    };
    let mut out = String::new();
    out = push_line(out, p.txid.as_str());
    out = push_line(out, input_address.as_str());
    out = push_line(out, btc_string(p.input_amount).as_str());
    out = push_line(out, p.counterparty_address.as_str());
    out = push_line(out, btc_string(p.payment_amount).as_str());
    out = push_line(out, change_address.as_str());
    out = push_line(out, btc_string(p.change_amount).as_str());
    out = push_line(out, btc_string(p.fee).as_str());
    out = push_line(out, decimal_string(p.block_height).as_str());
    out = push_line(out, p.block_hash.as_str());
    assert(out@ =~= record_text(*p));
    out
}

} // verus!
