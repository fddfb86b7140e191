//! Decoding of consensus-encoded transactions and aggregation of their output values.
use vstd::prelude::*;

use bitcoin::consensus::Decodable;
use bitcoin::Transaction;

verus! {

#[verifier::external_type_specification]
#[verifier::external_body]
pub struct ExEncodeError(bitcoin::consensus::encode::Error);

/// What the consensus decoder makes of the front of `b`: the value in satoshis of
/// each output of the transaction it read, and how many bytes it left unread.
pub uninterp spec fn tx_prefix_decoding(b: Seq<u8>) -> Option<(Seq<u64>, nat)>;

/// The output values of the transaction that `b` encodes, when `b` holds exactly
/// one transaction and nothing after it.
pub open spec fn exact_decoding(b: Seq<u8>) -> Option<Seq<u64>> {
    match tx_prefix_decoding(b) {
        Some((values, rest)) => if rest == 0 {
            Some(values)
        } else {
            None
        },
        None => None,
    }
}

/// Sum of a sequence of output values.
pub open spec fn sum_values(v: Seq<u64>) -> int
    decreases v.len(),
{
    if v.len() == 0 {
        0
    } else {
        sum_values(v.drop_last()) + v.last()
    }
}

/// Sum of the output values of every transaction.
pub open spec fn total_of(txs: Seq<Seq<u64>>) -> int
    decreases txs.len(),
{
    if txs.len() == 0 {
        0
    } else {
        total_of(txs.drop_last()) + sum_values(txs.last())
    }
}

/// All output values of all transactions, in order, as one sequence.
pub open spec fn concat_all(txs: Seq<Seq<u64>>) -> Seq<u64>
    decreases txs.len(),
{
    if txs.len() == 0 {
        Seq::empty()
    } else {
        concat_all(txs.drop_last()) + txs.last()
    }
}

/// The contents of each byte string.
pub open spec fn byte_strings(list: Seq<Vec<u8>>) -> Seq<Seq<u8>> {
    list.map_values(|b: Vec<u8>| b@)
}

/// The output values of each transaction.
pub open spec fn value_lists(list: Seq<Vec<u64>>) -> Seq<Seq<u64>> {
    list.map_values(|v: Vec<u64>| v@)
}

/// Every byte string decodes to exactly one transaction.
pub open spec fn all_decode(list: Seq<Seq<u8>>) -> bool {
    forall|i: int| 0 <= i < list.len() ==> (#[trigger] exact_decoding(list[i])) is Some
}

/// The output values of each transaction of a list that decodes.
pub open spec fn decoded_values(list: Seq<Seq<u8>>) -> Seq<Seq<u64>> {
    list.map_values(|b: Seq<u8>| exact_decoding(b)->Some_0)
}

/// Why a byte string is not one transaction.
#[derive(Debug, Clone, Copy, PartialEq, Eq, Structural)]
pub enum DecodeError {
    /// The bytes do not begin with a valid transaction.
    Invalid,
    /// A valid transaction is followed by this many more bytes.
    TrailingBytes(usize),
}

/// Why the transaction data of a template could not be totalled.
#[derive(Debug, Clone, PartialEq, Eq)]
pub enum TxDataError {
    /// The byte string at `index`, the first that fails, is not one transaction.
    Malformed { index: usize, bytes: Vec<u8> },
    /// The total does not fit in 64 bits.
    ValueOverflow,
}

/// Relies on bitcoin's `Transaction::consensus_decode_from_finite_reader`: it reads
/// one transaction from the front of the slice and advances the slice past the
/// bytes it read; each output's value is read with `Amount::to_sat`.
#[verifier::external_body]
fn decode_transaction_prefix(bytes: &[u8]) -> (r: Result<
    (Vec<u64>, usize),
    bitcoin::consensus::encode::Error,
>)
    ensures
        match r {
            Ok((values, rest)) => tx_prefix_decoding(bytes@) == Some((values@, rest as nat))
                && rest <= bytes@.len(),
            Err(_) => tx_prefix_decoding(bytes@) is None,
        },
{
    let mut reader = bytes;
    match Transaction::consensus_decode_from_finite_reader(&mut reader) {
        Ok(tx) => Ok((tx.output.iter().map(|o| o.value.to_sat()).collect(), reader.len())),
        Err(e) => Err(e),
    }
}

/// Decodes `bytes` as one transaction that takes up every byte, and returns the
/// value of each of its outputs in satoshis.
pub fn decode_transaction(bytes: &[u8]) -> (r: Result<Vec<u64>, DecodeError>)
    ensures
        match r {
            Ok(values) => exact_decoding(bytes@) == Some(values@),
            Err(DecodeError::Invalid) => tx_prefix_decoding(bytes@) is None,
            Err(DecodeError::TrailingBytes(n)) => n > 0 && (tx_prefix_decoding(bytes@) matches Some(
                (_, rest),
            ) && rest == n),
        },
{
    match decode_transaction_prefix(bytes) {
        Ok((values, rest)) => {
            if rest == 0 {
                Ok(values)
            } else {
                Err(DecodeError::TrailingBytes(rest))
            }
        },
        Err(_) => Err(DecodeError::Invalid),
    }
}

proof fn lemma_sum_prefix(v: Seq<u64>, j: int)
    requires
        0 <= j <= v.len(),
    ensures
        sum_values(v.take(j)) <= sum_values(v),
        sum_values(v) >= 0,
    decreases v.len(),
{
    if v.len() > 0 {
        if j < v.len() {
            assert(v.drop_last().take(j) =~= v.take(j));
            lemma_sum_prefix(v.drop_last(), j);
        } else {
            assert(v.take(j) =~= v);
            lemma_sum_prefix(v.drop_last(), 0);
        }
    } else {
        assert(v.take(j) =~= v);
    }
}

proof fn lemma_total_nonneg(t: Seq<Seq<u64>>)
    ensures
        total_of(t) >= 0,
    decreases t.len(),
{
    if t.len() > 0 {
        lemma_sum_prefix(t.last(), 0);
        lemma_total_nonneg(t.drop_last());
    }
}

proof fn lemma_total_prefix(t: Seq<Seq<u64>>, i: int)
    requires
        0 <= i <= t.len(),
    ensures
        total_of(t.take(i)) <= total_of(t),
    decreases t.len(),
{
    if t.len() > 0 {
        lemma_sum_prefix(t.last(), 0);
        if i < t.len() {
            assert(t.drop_last().take(i) =~= t.take(i));
            lemma_total_prefix(t.drop_last(), i);
        } else {
            assert(t.take(i) =~= t);
        }
    } else {
        assert(t.take(i) =~= t);
    }
}

/// Sum of the output values of transactions already decoded: `None` when the sum
/// does not fit in 64 bits.
pub fn total_of_outputs(decoded: &Vec<Vec<u64>>) -> (r: Option<u64>)
    ensures
        r == (if total_of(value_lists(decoded@)) <= u64::MAX {
            Some(total_of(value_lists(decoded@)) as u64)
        } else {
            None::<u64>
        }),
{
    let ghost txs = value_lists(decoded@);
    let mut acc: u64 = 0;
    let mut i: usize = 0;
    while i < decoded.len()
        invariant
            txs == value_lists(decoded@),
            0 <= i <= decoded.len(),
            acc == total_of(txs.take(i as int)),
        decreases decoded.len() - i,
    {
        let tx = &decoded[i];
        assert(tx@ == txs[i as int]);
        let mut j: usize = 0;
        while j < tx.len()
            invariant
                txs == value_lists(decoded@),
                0 <= i < decoded.len(),
                tx@ == txs[i as int],
                0 <= j <= tx.len(),
                acc == total_of(txs.take(i as int)) + sum_values(tx@.take(j as int)),
            decreases tx.len() - j,
        {
            assert(tx@.take(j as int + 1).drop_last() =~= tx@.take(j as int));
            if acc > u64::MAX - tx[j] {
                proof {
                    assert(txs.take(i as int + 1).drop_last() =~= txs.take(i as int));
                    lemma_sum_prefix(tx@, j as int + 1);
                    lemma_total_prefix(txs, i as int + 1);
                }
                return None;
            }
            acc = acc + tx[j];
            j = j + 1;
        }
        assert(tx@.take(j as int) =~= tx@);
        assert(txs.take(i as int + 1).drop_last() =~= txs.take(i as int));
        i = i + 1;
    }
    assert(txs.take(i as int) =~= txs);
    Some(acc)
}

/// `r` is what totalling the transaction data `list` gives: the sum of all output
/// values when every byte string decodes and the sum fits in 64 bits; else the
/// first byte string that does not decode, or the overflow.
pub open spec fn is_data_total(list: Seq<Vec<u8>>, r: Result<u64, TxDataError>) -> bool {
    match r {
        Ok(t) => all_decode(byte_strings(list)) && t == total_of(decoded_values(byte_strings(list))),
        Err(TxDataError::Malformed { index, bytes }) => index < list.len() && exact_decoding(
            list[index as int]@,
        ) is None && all_decode(byte_strings(list).take(index as int)) && bytes@
            == list[index as int]@,
        Err(TxDataError::ValueOverflow) => all_decode(byte_strings(list)) && total_of(
            decoded_values(byte_strings(list)),
        ) > u64::MAX,
    }
}

/// Decodes every transaction of a template's transaction data and sums all their
/// output values. The first byte string that is not exactly one transaction stops
/// the work and is handed back.
pub fn transaction_data_total(list: &Vec<Vec<u8>>) -> (r: Result<u64, TxDataError>)
    ensures
        is_data_total(list@, r),
{
    let ghost l = byte_strings(list@);
    let mut decoded: Vec<Vec<u64>> = Vec::new();
    let mut i: usize = 0;
    while i < list.len()
        invariant
            l == byte_strings(list@),
            0 <= i <= list.len(),
            decoded.len() == i,
            all_decode(l.take(i as int)),
            value_lists(decoded@) =~= decoded_values(l.take(i as int)),
        decreases list.len() - i,
    {
        assert(l[i as int] == list@[i as int]@);
        match decode_transaction(list[i].as_slice()) {
            Ok(values) => {
                let ghost before = decoded@;
                decoded.push(values);
                proof {
                    assert(decoded@ == before.push(values));
                    assert(exact_decoding(l[i as int]) == Some(values@));
                    assert(l.take(i as int + 1) =~= l.take(i as int).push(l[i as int]));
                    assert forall|k: int| 0 <= k < i + 1 implies value_lists(decoded@)[k]
                        == decoded_values(l.take(i as int + 1))[k] by {
                        if k < i {
                            assert(value_lists(before)[k] == decoded_values(l.take(i as int))[k]);
                        }
                    }
                    assert(value_lists(decoded@) =~= decoded_values(l.take(i as int + 1)));
                }
            },
            Err(_) => {
                let bytes = list[i].clone();
                assert(bytes@ =~= list@[i as int]@);
                return Err(TxDataError::Malformed { index: i, bytes });
            },
        }
        i = i + 1;
    }
    assert(l.take(i as int) =~= l);
    assert(value_lists(decoded@) == decoded_values(l));
    proof {
        lemma_total_nonneg(decoded_values(l));
    }
    match total_of_outputs(&decoded) {
        Some(t) => Ok(t),
        None => Err(TxDataError::ValueOverflow),
    }
}

proof fn lemma_sum_append(a: Seq<u64>, b: Seq<u64>)
    ensures
        sum_values(a + b) == sum_values(a) + sum_values(b),
    decreases b.len(),
{
    if b.len() == 0 {
        assert(a + b =~= a);
    } else {
        assert((a + b).drop_last() =~= a + b.drop_last());
        lemma_sum_append(a, b.drop_last());
    }
}

/// However the output values are split into transactions, their total is the sum
/// of all the values taken together.
pub proof fn lemma_total_is_sum_of_all_outputs(txs: Seq<Seq<u64>>)
    ensures
        total_of(txs) == sum_values(concat_all(txs)),
    decreases txs.len(),
{
    if txs.len() > 0 {
        lemma_total_is_sum_of_all_outputs(txs.drop_last());
        lemma_sum_append(concat_all(txs.drop_last()), txs.last());
    }
}

/// A valid transaction followed by further bytes is refused, never cut short.
pub proof fn lemma_trailing_bytes_refused(b: Seq<u8>)
    requires
        tx_prefix_decoding(b) matches Some((_, rest)) && rest > 0,
    ensures
        exact_decoding(b) is None,
{
}

} // verus!
