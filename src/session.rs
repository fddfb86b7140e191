//! The decisions of a template-distribution session: which handler each inbound
//! message goes to, what each handler sends upstream and reports, and the one-shot
//! declaration of the coinbase output size.
use vstd::prelude::*;

use crate::amount::{btc_text, format_btc};
use crate::transactions::{
    all_decode, byte_strings, decoded_values, is_data_total, total_of, transaction_data_total,
    TxDataError,
};

verus! {

/// A message of the template distribution protocol, as this client sees it.
#[derive(Debug, Clone, PartialEq, Eq)]
pub enum Message {
    /// Client to upstream: the largest size the coinbase outputs may grow by.
    CoinbaseOutputDataSize { coinbase_output_max_additional_size: u32 },
    /// Upstream to client: a new block template.
    NewTemplate { template_id: u64, coinbase_tx_value_remaining: u64 },
    /// Client to upstream: ask for the transactions of a template.
    RequestTransactionData { template_id: u64 },
    /// Upstream to client: the consensus-encoded transactions of a template.
    RequestTransactionDataSuccess { template_id: u64, transaction_list: Vec<Vec<u8>> },
}

/// The handlers that receive inbound messages.
#[derive(Debug, Clone, Copy, PartialEq, Eq, Structural)]
pub enum Handler {
    NewTemplate,
    TransactionData,
}

/// The two states of the coinbase configuration publisher.
#[derive(Debug, Clone, Copy, PartialEq, Eq, Structural)]
pub enum PublisherState {
    /// The declaration has not been sent yet.
    Sending,
    /// The declaration was sent; nothing more is ever sent.
    Idle,
}

/// What a handler reports of a message it handled.
#[derive(Debug, Clone, PartialEq, Eq)]
pub enum Report {
    /// A template arrived; `value_btc` is its remaining coinbase value in coins.
    NewTemplate { template_id: u64, value_btc: String },
    /// The transactions of a template arrived; `total_btc` is the sum of all their
    /// output values in coins.
    TransactionData { template_id: u64, transactions: usize, total_btc: String },
}

/// What one inbound message leads to: the messages to send upstream, in order, and
/// the report of the handler, if one handled it.
pub struct Step {
    pub outbound: Vec<Message>,
    pub report: Option<Report>,
}

/// A failure that ends the session.
#[derive(Debug, Clone, PartialEq, Eq)]
pub enum SessionError {
    /// The transaction data of the template could not be totalled.
    TransactionData { template_id: u64, error: TxDataError },
}

/// The handler registered for a message, if any: messages that no handler
/// listens to are dropped.
pub open spec fn handler_of(m: Message) -> Option<Handler> {
    match m {
        Message::NewTemplate { .. } => Some(Handler::NewTemplate),
        Message::RequestTransactionDataSuccess { .. } => Some(Handler::TransactionData),
        _ => None,
    }
}

/// The one declaration of the coinbase output size.
pub open spec fn coinbase_config(size: u32) -> Message {
    Message::CoinbaseOutputDataSize { coinbase_output_max_additional_size: size }
}

/// The state of one session.
pub struct Session {
    /// The declared maximum additional coinbase output size.
    pub coinbase_out_size: u32,
    pub publisher: PublisherState,
    pub new_template_open: bool,
    pub tx_data_open: bool,
    /// Every message sent upstream so far, in order.
    pub sent: Ghost<Seq<Message>>,
}

impl Session {
    /// Whether the inbound channel of handler `h` is still open.
    pub open spec fn is_open(&self, h: Handler) -> bool {
        match h {
            Handler::NewTemplate => self.new_template_open,
            Handler::TransactionData => self.tx_data_open,
        }
    }

    /// The coinbase declaration is sent once, before anything else.
    pub open spec fn wf(&self) -> bool {
        match self.publisher {
            PublisherState::Sending => self.sent@.len() == 0,
            PublisherState::Idle => self.sent@.len() >= 1 && self.sent@[0] == coinbase_config(
                self.coinbase_out_size,
            ) && forall|i: int|
                1 <= i < self.sent@.len() ==> !(#[trigger] self.sent@[i] is CoinbaseOutputDataSize),
        }
    }

    /// What must go upstream before anything else: the declaration, if not sent.
    pub open spec fn pending_config(&self) -> Seq<Message> {
        match self.publisher {
            PublisherState::Sending => seq![coinbase_config(self.coinbase_out_size)],
            PublisherState::Idle => Seq::empty(),
        }
    }

    /// What the handler of `m` sends upstream in reply: one request for the
    /// transactions of each new template, and nothing else.
    pub open spec fn reply(&self, m: Message) -> Seq<Message> {
        match m {
            Message::NewTemplate { template_id, .. } => if self.new_template_open {
                seq![Message::RequestTransactionData { template_id }]
            } else {
                Seq::empty()
            },
            _ => Seq::empty(),
        }
    }

    /// `rep` is what the handler of `m` reports: the template's id and value in
    /// coins; or the template's id, the number of its transactions and the total
    /// of all their outputs in coins. Nothing where no open handler takes `m`.
    pub open spec fn is_report(&self, m: Message, rep: Option<Report>) -> bool {
        match m {
            Message::NewTemplate { template_id, coinbase_tx_value_remaining } => if self.new_template_open {
                (rep matches Some(Report::NewTemplate { template_id: t, value_btc }) && t == template_id
                    && value_btc@ == btc_text(coinbase_tx_value_remaining as nat))
            } else {
                rep is None
            },
            Message::RequestTransactionDataSuccess { template_id, transaction_list } => if self.tx_data_open {
                (rep matches Some(Report::TransactionData { template_id: t, transactions, total_btc })
                    && t == template_id && transactions == transaction_list.len() && all_decode(
                    byte_strings(transaction_list@),
                ) && total_btc@ == btc_text(
                    total_of(decoded_values(byte_strings(transaction_list@))) as nat,
                ))
            } else {
                rep is None
            },
            _ => rep is None,
        }
    }

    /// A session that has sent nothing, with both handlers listening.
    pub fn new(coinbase_out_size: u32) -> (s: Session)
        ensures
            s.wf(),
            s.coinbase_out_size == coinbase_out_size,
            s.publisher == PublisherState::Sending,
            s.new_template_open,
            s.tx_data_open,
            s.sent@ == Seq::<Message>::empty(),
    {
        Session {
            coinbase_out_size,
            publisher: PublisherState::Sending,
            new_template_open: true,
            tx_data_open: true,
            sent: Ghost(Seq::empty()),
        }
    }

    /// Starts the session: the first call hands out the coinbase declaration to
    /// send; every later call hands out nothing.
    pub fn start(&mut self) -> (r: Option<Message>)
        requires
            old(self).wf(),
        ensures
            final(self).wf(),
            final(self).publisher == PublisherState::Idle,
            final(self).coinbase_out_size == old(self).coinbase_out_size,
            final(self).new_template_open == old(self).new_template_open,
            final(self).tx_data_open == old(self).tx_data_open,
            r == (match old(self).publisher {
                PublisherState::Sending => Some(coinbase_config(old(self).coinbase_out_size)),
                PublisherState::Idle => None::<Message>,
            }),
            final(self).sent@ == old(self).sent@ + old(self).pending_config(),
    {
        match self.publisher {
            PublisherState::Sending => {
                let m = Message::CoinbaseOutputDataSize {
                    coinbase_output_max_additional_size: self.coinbase_out_size,
                };
                self.publisher = PublisherState::Idle;
                let ghost before = self.sent@;
                self.sent = Ghost(self.sent@.push(m));
                assert(self.sent@ =~= before + seq![coinbase_config(self.coinbase_out_size)]);
                Some(m)
            },
            PublisherState::Idle => {
                assert(self.sent@ + self.pending_config() =~= self.sent@);
                None
            },
        }
    }

    /// Handles one inbound message: the coinbase declaration goes first if it has
    /// not been sent, then the reply of the handler that takes `m`. A template's
    /// transaction data that cannot be totalled ends the session, and then nothing
    /// is sent and the state is unchanged.
    pub fn on_message(&mut self, m: Message) -> (r: Result<Step, SessionError>)
        requires
            old(self).wf(),
        ensures
            final(self).wf(),
            final(self).coinbase_out_size == old(self).coinbase_out_size,
            final(self).new_template_open == old(self).new_template_open,
            final(self).tx_data_open == old(self).tx_data_open,
            match r {
                Ok(step) => final(self).publisher == PublisherState::Idle && step.outbound@ == old(
                    self,
                ).pending_config() + old(self).reply(m) && final(self).sent@ == old(self).sent@
                    + step.outbound@ && old(self).is_report(m, step.report),
                Err(SessionError::TransactionData { template_id, error }) => *final(self) == *old(
                    self,
                ) && old(self).tx_data_open && (m matches Message::RequestTransactionDataSuccess {
                    template_id: id,
                    transaction_list,
                } && id == template_id && is_data_total(transaction_list@, Err(error))),
            },
    {
        let (request, report): (Option<Message>, Option<Report>) = match m {
            Message::NewTemplate { template_id, coinbase_tx_value_remaining } => {
                if self.new_template_open {
                    (
                        Some(Message::RequestTransactionData { template_id }),
                        Some(
                            Report::NewTemplate {
                                template_id,
                                value_btc: format_btc(coinbase_tx_value_remaining),
                            },
                        ),
                    )
                } else {
                    (None, None)
                }
            },
            Message::RequestTransactionDataSuccess { template_id, transaction_list } => {
                if self.tx_data_open {
                    match transaction_data_total(&transaction_list) {
                        Ok(total) => (
                            None,
                            Some(
                                Report::TransactionData {
                                    template_id,
                                    transactions: transaction_list.len(),
                                    total_btc: format_btc(total),
                                },
                            ),
                        ),
                        Err(error) => {
                            return Err(SessionError::TransactionData { template_id, error });
                        },
                    }
                } else {
                    (None, None)
                }
            },
            _ => (None, None),
        };
        let ghost before = *self;
        let mut outbound: Vec<Message> = Vec::new();
        match self.start() {
            Some(c) => outbound.push(c),
            None => {},
        }
        assert(outbound@ =~= before.pending_config());
        match request {
            Some(q) => outbound.push(q),
            None => {},
        }
        assert(outbound@ =~= before.pending_config() + before.reply(m));
        let ghost mid = self.sent@;
        self.sent = Ghost(self.sent@ + before.reply(m));
        proof {
            assert(mid =~= before.sent@ + before.pending_config());
            assert(self.sent@ =~= before.sent@ + outbound@);
            assert forall|i: int| 1 <= i < self.sent@.len() implies !(
            #[trigger] self.sent@[i] is CoinbaseOutputDataSize) by {
                if i >= mid.len() {
                    assert(self.sent@[i] == before.reply(m)[i - mid.len()]);
                } else {
                    assert(self.sent@[i] == mid[i]);
                }
            }
        }
        Ok(Step { outbound, report })
    }

    /// Closes the inbound channel of handler `h`: it handles nothing more.
    pub fn close(&mut self, h: Handler)
        requires
            old(self).wf(),
        ensures
            final(self).wf(),
            !final(self).is_open(h),
            forall|g: Handler| g != h ==> final(self).is_open(g) == old(self).is_open(g),
            final(self).publisher == old(self).publisher,
            final(self).coinbase_out_size == old(self).coinbase_out_size,
            final(self).sent@ == old(self).sent@,
    {
        match h {
            Handler::NewTemplate => self.new_template_open = false,
            Handler::TransactionData => self.tx_data_open = false,
        }
    }
}

/// Every new template, handled by an open handler, is answered by exactly one
/// request for transaction data, for that same template.
pub proof fn lemma_new_template_requests_its_data(
    s: Session,
    template_id: u64,
    coinbase_tx_value_remaining: u64,
)
    requires
        s.new_template_open,
    ensures
        ({
            let reply = s.reply(Message::NewTemplate { template_id, coinbase_tx_value_remaining });
            &&& reply.len() == 1
            &&& reply[0] == Message::RequestTransactionData { template_id }
        }),
{
}

/// In every state of a session the coinbase declaration has been sent at most
/// once, and when it has been sent it was the first message.
pub proof fn lemma_coinbase_config_once_and_first(s: Session)
    requires
        s.wf(),
    ensures
        forall|i: int|
            0 <= i < s.sent@.len() ==> ((#[trigger] s.sent@[i] is CoinbaseOutputDataSize) <==> i
                == 0),
        s.sent@.len() > 0 ==> s.sent@[0] == coinbase_config(s.coinbase_out_size),
{
}

/// A handler whose inbound channel is closed sends and reports nothing.
pub proof fn lemma_closed_handler_is_silent(s: Session, m: Message)
    requires
        handler_of(m) matches Some(h) && !s.is_open(h),
    ensures
        s.reply(m) == Seq::<Message>::empty(),
        s.is_report(m, None),
{
}

} // verus!
