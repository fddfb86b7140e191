//! Display of an amount of satoshis in whole coins, with exact decimals.
use vstd::prelude::*;

verus! {

/// Number of satoshis in one coin.
pub const SATS_PER_BTC: u64 = 100_000_000;

/// Number of decimal places of one satoshi when counted in coins.
pub const BTC_DECIMALS: u64 = 8;

/// The ASCII character of a decimal digit.
pub open spec fn digit_char(d: nat) -> char {
    ((d + 48) as u8) as char
}

/// Decimal digits of `n`, most significant first, without leading zeros.
pub open spec fn decimal_digits(n: nat) -> Seq<char>
    decreases n,
{
    if n < 10 {
        seq![digit_char(n)]
    } else {
        decimal_digits(n / 10).push(digit_char(n % 10))
    }
}

/// The last `k` decimal digits of `f`, padded with leading zeros.
pub open spec fn padded_digits(f: nat, k: nat) -> Seq<char>
    decreases k,
{
    if k == 0 {
        Seq::empty()
    } else {
        padded_digits(f / 10, (k - 1) as nat).push(digit_char(f % 10))
    }
}

/// The fraction `f / 10^k` written as its `k` digits with trailing zeros removed.
pub open spec fn fraction_digits(f: nat, k: nat) -> Seq<char>
    decreases k,
{
    if k > 0 && f % 10 == 0 {
        fraction_digits(f / 10, (k - 1) as nat)
    } else {
        padded_digits(f, k)
    }
}

/// `sats / 10^8` as a decimal number: the whole part, then, when the remainder is
/// not zero, a point and the shortest run of decimals that states it exactly.
pub open spec fn btc_text(sats: nat) -> Seq<char> {
    let whole = sats / (SATS_PER_BTC as nat);
    let frac = sats % (SATS_PER_BTC as nat);
    if frac == 0 {
        decimal_digits(whole)
    } else {
        decimal_digits(whole) + seq!['.'] + fraction_digits(frac, BTC_DECIMALS as nat)
    }
}

fn digit(d: u64) -> (c: char)
    requires
        d < 10,
    ensures
        c == digit_char(d as nat),
{
    ((d as u8) + 48u8) as char
}

fn push_decimal_digits(n: u64, out: &mut Vec<char>)
    ensures
        final(out)@ == old(out)@ + decimal_digits(n as nat),
    decreases n,
{
    if n < 10 {
        out.push(digit(n));
        assert(old(out)@.push(digit_char(n as nat)) =~= old(out)@ + decimal_digits(n as nat));
    } else {
        push_decimal_digits(n / 10, out);
        out.push(digit(n % 10));
        assert(old(out)@ + decimal_digits(n as nat) =~= old(out)@ + decimal_digits((n / 10) as nat)
            + seq![digit_char((n % 10) as nat)]);
    }
}

fn push_padded_digits(f: u64, k: u64, out: &mut Vec<char>)
    ensures
        final(out)@ == old(out)@ + padded_digits(f as nat, k as nat),
    decreases k,
{
    if k == 0 {
        assert(old(out)@ + padded_digits(f as nat, 0) =~= old(out)@);
    } else {
        push_padded_digits(f / 10, k - 1, out);
        out.push(digit(f % 10));
        assert(old(out)@ + padded_digits(f as nat, k as nat) =~= old(out)@ + padded_digits(
            (f / 10) as nat,
            (k - 1) as nat,
        ) + seq![digit_char((f % 10) as nat)]);
    }
}

/// Relies on std's `FromIterator<char>` for `String`: the string holds the
/// characters in the order given.
#[verifier::external_body]
fn string_of_chars(chars: &Vec<char>) -> (r: String)
    ensures
        r@ == chars@,
{
    chars.iter().collect()
}

/// Writes `sats / 10^8` in coins, exactly: `500000000` gives `5`,
/// `150000000` gives `1.5`, `1` gives `0.00000001`.
pub fn format_btc(sats: u64) -> (r: String)
    ensures
        r@ == btc_text(sats as nat),
{
    let whole = sats / SATS_PER_BTC;
    let mut frac = sats % SATS_PER_BTC;
    let mut out: Vec<char> = Vec::new();
    push_decimal_digits(whole, &mut out);
    if frac != 0 {
        out.push('.');
        let mut k: u64 = BTC_DECIMALS;
        while k > 0 && frac % 10 == 0
            invariant
                fraction_digits(frac as nat, k as nat) == fraction_digits(
                    (sats % SATS_PER_BTC) as nat,
                    BTC_DECIMALS as nat,
                ),
            decreases k,
        {
            frac = frac / 10;
            k = k - 1;
        }
        push_padded_digits(frac, k, &mut out);
        assert(out@ =~= btc_text(sats as nat));
    }
    string_of_chars(&out)
}

} // verus!
