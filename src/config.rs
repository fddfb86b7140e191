//! The client's configuration values, read from text with their defaults.
use vstd::prelude::*;
use vstd::string::StringSliceAdditionalSpecFns;

verus! {

/// Upstream address used when none is configured.
pub const DEFAULT_SERVER: &'static str = "127.0.0.1:8442";

/// Largest additional coinbase output size declared when none is configured.
pub const DEFAULT_COINBASE_OUT_DATA_SIZE: u32 = 34;

/// A configuration value that cannot be used.
#[derive(Debug, Clone, Copy, PartialEq, Eq, Structural)]
pub enum ConfigError {
    /// The coinbase output size is not a decimal number that fits in 32 bits.
    InvalidCoinbaseOutSize,
}

pub open spec fn is_ascii_digit(b: u8) -> bool {
    48 <= b <= 57
}

/// Value of a sequence of ASCII decimal digits, most significant first.
pub open spec fn digits_value(s: Seq<u8>) -> nat
    decreases s.len(),
{
    if s.len() == 0 {
        0
    } else {
        digits_value(s.drop_last()) * 10 + (s.last() - 48) as nat
    }
}

/// The text after an optional leading `+`.
pub open spec fn unsigned_part(s: Seq<u8>) -> Seq<u8> {
    if s.len() > 0 && s[0] == 43u8 {
        s.drop_first()
    } else {
        s
    }
}

/// The 32-bit unsigned integer that `s` writes in decimal: an optional `+`, then
/// one or more ASCII digits, of a value that fits.
pub open spec fn decimal_u32(s: Seq<u8>) -> Option<u32> {
    let d = unsigned_part(s);
    if d.len() > 0 && (forall|i: int| 0 <= i < d.len() ==> is_ascii_digit(#[trigger] d[i]))
        && digits_value(d) <= u32::MAX {
        Some(digits_value(d) as u32)
    } else {
        None
    }
}

proof fn lemma_digits_prefix(s: Seq<u8>, j: int)
    requires
        0 <= j <= s.len(),
        forall|i: int| 0 <= i < s.len() ==> is_ascii_digit(#[trigger] s[i]),
    ensures
        digits_value(s.take(j)) <= digits_value(s),
    decreases s.len(),
{
    if j < s.len() {
        assert(s.drop_last().take(j) =~= s.take(j));
        lemma_digits_prefix(s.drop_last(), j);
    } else {
        assert(s.take(j) =~= s);
    }
}

/// Reads a 32-bit unsigned integer written in decimal, as `str::parse::<u32>`
/// accepts it.
pub fn parse_u32(s: &str) -> (r: Option<u32>)
    ensures
        r == decimal_u32(s.spec_bytes()),
{
    let bytes = s.as_bytes();
    let ghost d = unsigned_part(bytes@);
    let mut start: usize = 0;
    if bytes.len() > 0 && bytes[0] == 43u8 {
        start = 1;
    }
    assert(d =~= bytes@.skip(start as int));
    if start >= bytes.len() {
        return None;
    }
    let mut acc: u64 = 0;
    let mut i: usize = start;
    while i < bytes.len()
        invariant
            d == bytes@.skip(start as int),
            d == unsigned_part(bytes@),
            bytes@ == s.spec_bytes(),
            start <= i <= bytes.len(),
            d.len() > 0,
            forall|k: int| 0 <= k < i - start ==> is_ascii_digit(#[trigger] d[k]),
            acc == digits_value(d.take(i - start)),
            acc <= u32::MAX,
        decreases bytes.len() - i,
    {
        let b = bytes[i];
        if b < 48u8 || b > 57u8 {
            assert(d[i - start] == b);
            return None;
        }
        assert(d.take(i - start + 1).drop_last() =~= d.take(i - start));
        acc = acc * 10 + (b - 48u8) as u64;
        i = i + 1;
        if acc > u32::MAX as u64 {
            proof {
                if forall|k: int| 0 <= k < d.len() ==> is_ascii_digit(#[trigger] d[k]) {
                    lemma_digits_prefix(d, i - start);
                }
            }
            return None;
        }
    }
    assert(d.take(i - start) =~= d);
    Some(acc as u32)
}

/// The declared maximum additional coinbase output size: the configured text read
/// as a 32-bit unsigned integer, or the default when nothing is configured.
pub fn coinbase_out_size(configured: Option<&str>) -> (r: Result<u32, ConfigError>)
    ensures
        match configured {
            None => r == Ok::<u32, ConfigError>(DEFAULT_COINBASE_OUT_DATA_SIZE),
            Some(s) => match decimal_u32(s.spec_bytes()) {
                Some(v) => r == Ok::<u32, ConfigError>(v),
                None => r == Err::<u32, ConfigError>(ConfigError::InvalidCoinbaseOutSize),
            },
        },
{
    match configured {
        None => Ok(DEFAULT_COINBASE_OUT_DATA_SIZE),
        Some(s) => match parse_u32(s) {
            Some(v) => Ok(v),
            None => Err(ConfigError::InvalidCoinbaseOutSize),
        },
    }
}

/// The upstream address: the configured one, or the default when nothing is
/// configured.
pub fn server_address(configured: Option<String>) -> (r: String)
    ensures
        match configured {
            None => r@ == DEFAULT_SERVER@,
            Some(s) => r@ == s@,
        },
{
    match configured {
        None => DEFAULT_SERVER.to_owned(),
        Some(s) => s,
    }
}

} // verus!
