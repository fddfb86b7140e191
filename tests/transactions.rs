use bitcoin::consensus::encode::serialize;
use bitcoin::{absolute, transaction, Amount, ScriptBuf, Transaction, TxIn, TxOut};
use tp_client::transactions::{
    decode_transaction, total_of_outputs, transaction_data_total, DecodeError, TxDataError,
};

fn tx_bytes(values: &[u64]) -> Vec<u8> {
    let tx = Transaction {
        version: transaction::Version::TWO,
        lock_time: absolute::LockTime::ZERO,
        input: vec![TxIn::default()],
        output: values
            .iter()
            .map(|v| TxOut { value: Amount::from_sat(*v), script_pubkey: ScriptBuf::new() })
            .collect(),
    };
    serialize(&tx)
}

#[test]
fn decode_reads_output_values() {
    let bytes = tx_bytes(&[100_000_000, 7, 0]);
    assert_eq!(decode_transaction(&bytes), Ok(vec![100_000_000, 7, 0]));
}

#[test]
fn decode_rejects_trailing_bytes() {
    let mut bytes = tx_bytes(&[5]);
    bytes.push(0);
    assert_eq!(decode_transaction(&bytes), Err(DecodeError::TrailingBytes(1)));
    bytes.extend_from_slice(&[1, 2, 3]);
    assert_eq!(decode_transaction(&bytes), Err(DecodeError::TrailingBytes(4)));
}

#[test]
fn decode_rejects_truncated_and_garbage() {
    let bytes = tx_bytes(&[5]);
    assert_eq!(decode_transaction(&bytes[..bytes.len() - 1]), Err(DecodeError::Invalid));
    assert_eq!(decode_transaction(&[]), Err(DecodeError::Invalid));
    assert_eq!(decode_transaction(&[0xff, 0xff]), Err(DecodeError::Invalid));
}

#[test]
fn total_is_independent_of_grouping() {
    let values = [3u64, 5, 7, 11, 13];
    let one = vec![tx_bytes(&values)];
    let split = vec![tx_bytes(&values[..2]), tx_bytes(&[]), tx_bytes(&values[2..])];
    assert_eq!(transaction_data_total(&one), Ok(39));
    assert_eq!(transaction_data_total(&split), Ok(39));
}

#[test]
fn total_of_two_transactions() {
    let list = vec![tx_bytes(&[60_000_000, 40_000_000]), tx_bytes(&[50_000_000])];
    assert_eq!(transaction_data_total(&list), Ok(150_000_000));
    assert_eq!(transaction_data_total(&vec![]), Ok(0));
}

#[test]
fn malformed_transaction_names_its_bytes() {
    let bad = vec![1u8, 2, 3];
    let list = vec![tx_bytes(&[1]), bad.clone(), vec![9]];
    assert_eq!(
        transaction_data_total(&list),
        Err(TxDataError::Malformed { index: 1, bytes: bad })
    );
}

#[test]
fn overflowing_total_is_an_error() {
    let list = vec![tx_bytes(&[u64::MAX]), tx_bytes(&[1])];
    assert_eq!(transaction_data_total(&list), Err(TxDataError::ValueOverflow));
    assert_eq!(total_of_outputs(&vec![vec![u64::MAX - 1], vec![1]]), Some(u64::MAX));
    assert_eq!(total_of_outputs(&vec![vec![u64::MAX, 1]]), None);
}
