use bitcoin::consensus::encode::serialize;
use bitcoin::{absolute, transaction, Amount, ScriptBuf, Transaction, TxIn, TxOut};
use tp_client::session::{Handler, Message, PublisherState, Report, Session, SessionError};
use tp_client::transactions::TxDataError;

fn tx_bytes(values: &[u64]) -> Vec<u8> {
    let tx = Transaction {
        version: transaction::Version::ONE,
        lock_time: absolute::LockTime::ZERO,
        input: vec![TxIn::default()],
        output: values
            .iter()
            .map(|v| TxOut { value: Amount::from_sat(*v), script_pubkey: ScriptBuf::new() })
            .collect(),
    };
    serialize(&tx)
}

fn config(size: u32) -> Message {
    Message::CoinbaseOutputDataSize { coinbase_output_max_additional_size: size }
}

#[test]
fn new_template_is_reported_and_requested() {
    let mut s = Session::new(34);
    assert_eq!(s.start(), Some(config(34)));
    let step = s
        .on_message(Message::NewTemplate { template_id: 7, coinbase_tx_value_remaining: 500_000_000 })
        .unwrap();
    assert_eq!(step.outbound, vec![Message::RequestTransactionData { template_id: 7 }]);
    assert_eq!(
        step.report,
        Some(Report::NewTemplate { template_id: 7, value_btc: "5".to_string() })
    );
}

#[test]
fn every_template_gets_one_request_for_its_id() {
    let mut s = Session::new(1);
    s.start();
    for (id, value) in [(0u64, 0u64), (u64::MAX, u64::MAX), (42, 1)] {
        let step = s
            .on_message(Message::NewTemplate { template_id: id, coinbase_tx_value_remaining: value })
            .unwrap();
        assert_eq!(step.outbound, vec![Message::RequestTransactionData { template_id: id }]);
    }
}

#[test]
fn transaction_data_is_totalled() {
    let mut s = Session::new(34);
    s.start();
    let list = vec![tx_bytes(&[100_000_000]), tx_bytes(&[20_000_000, 30_000_000])];
    let step = s
        .on_message(Message::RequestTransactionDataSuccess { template_id: 7, transaction_list: list })
        .unwrap();
    assert!(step.outbound.is_empty());
    assert_eq!(
        step.report,
        Some(Report::TransactionData {
            template_id: 7,
            transactions: 2,
            total_btc: "1.5".to_string()
        })
    );
}

#[test]
fn malformed_transaction_ends_the_session() {
    let mut s = Session::new(34);
    s.start();
    let bad = vec![0xde, 0xad];
    let r = s.on_message(Message::RequestTransactionDataSuccess {
        template_id: 9,
        transaction_list: vec![tx_bytes(&[1]), bad.clone()],
    });
    match r {
        Err(e) => assert_eq!(
            e,
            SessionError::TransactionData {
                template_id: 9,
                error: TxDataError::Malformed { index: 1, bytes: bad }
            }
        ),
        Ok(_) => panic!("malformed transaction accepted"),
    }
}

#[test]
fn coinbase_config_is_sent_once_and_first() {
    let mut s = Session::new(34);
    let step = s
        .on_message(Message::NewTemplate { template_id: 3, coinbase_tx_value_remaining: 10 })
        .unwrap();
    assert_eq!(
        step.outbound,
        vec![config(34), Message::RequestTransactionData { template_id: 3 }]
    );
    assert_eq!(s.publisher, PublisherState::Idle);
    assert_eq!(s.start(), None);
    let step = s
        .on_message(Message::NewTemplate { template_id: 4, coinbase_tx_value_remaining: 10 })
        .unwrap();
    assert_eq!(step.outbound, vec![Message::RequestTransactionData { template_id: 4 }]);
}

#[test]
fn start_sends_config_once() {
    let mut s = Session::new(1000);
    assert_eq!(s.start(), Some(config(1000)));
    assert_eq!(s.start(), None);
}

#[test]
fn closed_handler_sends_nothing() {
    let mut s = Session::new(34);
    s.start();
    s.close(Handler::NewTemplate);
    let step = s
        .on_message(Message::NewTemplate { template_id: 7, coinbase_tx_value_remaining: 1 })
        .unwrap();
    assert!(step.outbound.is_empty());
    assert_eq!(step.report, None);
    s.close(Handler::TransactionData);
    let step = s
        .on_message(Message::RequestTransactionDataSuccess {
            template_id: 7,
            transaction_list: vec![vec![1, 2, 3]],
        })
        .unwrap();
    assert!(step.outbound.is_empty());
    assert_eq!(step.report, None);
}

#[test]
fn unhandled_messages_are_dropped() {
    let mut s = Session::new(34);
    s.start();
    let step = s.on_message(Message::RequestTransactionData { template_id: 1 }).unwrap();
    assert!(step.outbound.is_empty());
    assert_eq!(step.report, None);
    let step = s.on_message(config(5)).unwrap();
    assert!(step.outbound.is_empty());
}
