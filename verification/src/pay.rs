//! Paying the invoice of a melt quote.
//!
//! A payment is a conversation with the node. It starts by asking whether the
//! invoice was paid before, so that no invoice is paid twice. Then the invoice is
//! paid in one piece, or, where only a part of it is wanted, along one of the
//! routes that the node proposes, tried one after another. [`Payment`] holds the
//! state of the conversation: each reply of the node goes into [`Payment::step`],
//! which says what to ask next, or how the payment ended.

use vstd::prelude::*;
use crate::error::Error;
use crate::hex;
use crate::invoice::{bolt11_info, bolt11_valid, parse_bolt11, InvoiceInfo, InvoiceInfoView};
use crate::lnd::Lnd;
use crate::types::{
    result_view,
    MeltQuote,
    MeltQuoteState,
    PayInvoiceResponse,
    PayInvoiceResponseView,
};
use crate::units::{msat_to_sat, sats_of_msat, to_signed, to_signed_spec, to_unit, to_unit_spec, CurrencyUnit};

verus! {

/// The failure code by which the node reports a channel that cannot carry the
/// payment for now.
pub const TEMPORARY_CHANNEL_FAILURE: i32 = 15;

/// The node's status codes for an attempt on a route.
pub const ATTEMPT_IN_FLIGHT: i32 = 0;

pub const ATTEMPT_SUCCEEDED: i32 = 1;

pub const ATTEMPT_FAILED: i32 = 2;

/// How far a payment has come.
#[derive(Clone, Copy, Debug, PartialEq, Eq, Structural)]
pub enum Phase {
    /// The node was asked whether the invoice was paid before.
    Checking,
    /// The node was asked to pay the invoice in one piece.
    Sending,
    /// The node was asked for routes.
    Querying,
    /// The node was asked to pay along one of the routes.
    Routing,
    /// The payment has ended.
    Done,
}

/// What to ask of the node next, or how the payment ended.
#[derive(Debug, PartialEq, Eq)]
pub enum Action {
    /// Ask for the state of the payment with this lookup id: its hash in hex.
    CheckOutgoing { lookup_id: String },
    /// Pay the invoice in one piece. The fee limit is a fixed amount.
    SendPayment { payment_request: String, amt_msat: i64, fee_limit: Option<i64> },
    /// Ask for routes to the node with this public key, given in hex, that carry
    /// the amount within the fee limit.
    QueryRoutes { pub_key: String, amt_msat: i64, fee_limit: Option<i64> },
    /// Pay along the candidate route with index `route`, whose last hop is to
    /// carry a multi-path record with this payment address and this total.
    SendToRoute { route: usize, payment_hash: Vec<u8>, payment_addr: Vec<u8>, total_amt_msat: i64 },
    /// The payment has ended, with this outcome.
    Finish(Result<PayInvoiceResponse, Error>),
}

/// Mathematical value of an [`Action`].
pub enum ActionView {
    CheckOutgoing { lookup_id: Seq<char> },
    SendPayment { payment_request: Seq<char>, amt_msat: i64, fee_limit: Option<i64> },
    QueryRoutes { pub_key: Seq<char>, amt_msat: i64, fee_limit: Option<i64> },
    SendToRoute { route: int, payment_hash: Seq<u8>, payment_addr: Seq<u8>, total_amt_msat: i64 },
    Finish(Result<PayInvoiceResponseView, Error>),
}

impl View for Action {
    type V = ActionView;

    open spec fn view(&self) -> ActionView {
        match self {
            Action::CheckOutgoing { lookup_id } => ActionView::CheckOutgoing { lookup_id: lookup_id@ },
            Action::SendPayment { payment_request, amt_msat, fee_limit } => ActionView::SendPayment {
                payment_request: payment_request@,
                amt_msat: *amt_msat,
                fee_limit: *fee_limit,
            },
            Action::QueryRoutes { pub_key, amt_msat, fee_limit } => ActionView::QueryRoutes {
                pub_key: pub_key@,
                amt_msat: *amt_msat,
                fee_limit: *fee_limit,
            },
            Action::SendToRoute {
                route,
                payment_hash,
                payment_addr,
                total_amt_msat,
            } => ActionView::SendToRoute {
                route: *route as int,
                payment_hash: payment_hash@,
                payment_addr: payment_addr@,
                total_amt_msat: *total_amt_msat,
            },
            Action::Finish(outcome) => ActionView::Finish(result_view(*outcome)),
        }
    }
}

impl ActionView {
    /// Whether the action moves funds, or prepares to: a payment or a route
    /// query.
    pub open spec fn is_attempt(self) -> bool {
        self is SendPayment || self is QueryRoutes || self is SendToRoute
    }
}

/// What the node answered.
#[derive(Debug, PartialEq, Eq)]
pub enum Reply {
    /// The state of the payment asked about, or why it could not be had.
    Outgoing(Result<MeltQuoteState, Error>),
    /// The answer to a payment in one piece: the payment's hash and preimage, and
    /// the total of the route taken in millisatoshis, if one was taken.
    Sent { payment_hash: Vec<u8>, payment_preimage: Vec<u8>, total_amt_msat: Option<i64> },
    /// The candidate routes, each given by the number of its hops.
    Routes(Vec<usize>),
    /// The answer to a payment along a route: the status of the attempt, the code
    /// of its failure if it failed, the preimage, and the total of the route in
    /// millisatoshis, if the node names the route.
    Attempt { status: i32, failure_code: Option<i32>, preimage: Vec<u8>, total_amt_msat: Option<i64> },
    /// The node rejected the request.
    Rejected,
}

/// Mathematical value of a [`Reply`].
pub enum ReplyView {
    Outgoing(Result<MeltQuoteState, Error>),
    Sent { payment_hash: Seq<u8>, payment_preimage: Seq<u8>, total_amt_msat: Option<i64> },
    Routes(Seq<usize>),
    Attempt { status: i32, failure_code: Option<i32>, preimage: Seq<u8>, total_amt_msat: Option<i64> },
    Rejected,
}

impl View for Reply {
    type V = ReplyView;

    open spec fn view(&self) -> ReplyView {
        match self {
            Reply::Outgoing(state) => ReplyView::Outgoing(*state),
            Reply::Sent { payment_hash, payment_preimage, total_amt_msat } => ReplyView::Sent {
                payment_hash: payment_hash@,
                payment_preimage: payment_preimage@,
                total_amt_msat: *total_amt_msat,
            },
            Reply::Routes(routes) => ReplyView::Routes(routes@),
            Reply::Attempt { status, failure_code, preimage, total_amt_msat } => ReplyView::Attempt {
                status: *status,
                failure_code: *failure_code,
                preimage: preimage@,
                total_amt_msat: *total_amt_msat,
            },
            Reply::Rejected => ReplyView::Rejected,
        }
    }
}

/// The satoshis spent on a route with the given total. No route, nothing spent.
pub open spec fn route_sats(total_amt_msat: Option<i64>) -> u64 {
    match total_amt_msat {
        Some(msat) => sats_of_msat(msat),
        None => 0,
    }
}

/// The outcome of a payment in one piece. It is paid if anything was spent, and
/// unpaid if nothing was.
pub open spec fn sent_outcome(
    payment_hash: Seq<u8>,
    payment_preimage: Seq<u8>,
    total_amt_msat: Option<i64>,
) -> PayInvoiceResponseView {
    let total_spent = route_sats(total_amt_msat);
    PayInvoiceResponseView {
        payment_lookup_id: hex::encoded(payment_hash),
        payment_preimage: if total_spent == 0 {
            None
        } else {
            Some(hex::encoded(payment_preimage))
        },
        status: if total_spent == 0 {
            MeltQuoteState::Unpaid
        } else {
            MeltQuoteState::Paid
        },
        total_spent,
        unit: CurrencyUnit::Sat,
    }
}

/// The state that an attempt's status code stands for.
pub open spec fn attempt_state(status: i32) -> MeltQuoteState {
    if status == ATTEMPT_IN_FLIGHT {
        MeltQuoteState::Pending
    } else if status == ATTEMPT_SUCCEEDED {
        MeltQuoteState::Paid
    } else if status == ATTEMPT_FAILED {
        MeltQuoteState::Unpaid
    } else {
        MeltQuoteState::Unknown
    }
}

/// The outcome of the attempt that ended a multi-path payment. The state is that
/// of the attempt. What was spent is the total of the attempt's route if the
/// attempt succeeded, and nothing otherwise.
pub open spec fn attempt_outcome(
    payment_hash: Seq<u8>,
    status: i32,
    preimage: Seq<u8>,
    total_amt_msat: Option<i64>,
) -> PayInvoiceResponseView {
    PayInvoiceResponseView {
        payment_lookup_id: hex::encoded(payment_hash),
        payment_preimage: if attempt_state(status) is Paid {
            Some(hex::encoded(preimage))
        } else {
            None
        },
        status: attempt_state(status),
        total_spent: if attempt_state(status) is Paid {
            route_sats(total_amt_msat)
        } else {
            0
        },
        unit: CurrencyUnit::Sat,
    }
}

/// A payment under way.
#[derive(Clone, Debug, PartialEq, Eq)]
pub struct Payment {
    /// The encoded invoice.
    pub request: String,
    /// What the invoice says.
    pub invoice: InvoiceInfo,
    /// The unit of the melt quote.
    pub unit: CurrencyUnit,
    /// The amount to pay in millisatoshis, for an invoice that names none.
    pub msat_to_pay: Option<u64>,
    /// The part to pay, in the unit of the quote, if not all is wanted.
    pub partial_amount: Option<u64>,
    /// The most to pay in fees.
    pub max_fee: Option<u64>,
    /// How far the payment has come.
    pub phase: Phase,
    /// The total of the invoice in millisatoshis, once it is known.
    pub total_amt_msat: i64,
    /// The candidate routes, each given by the number of its hops, once known.
    pub routes: Vec<usize>,
    /// Index of the candidate route being tried.
    pub next: usize,
}

/// Mathematical value of a [`Payment`].
pub struct PaymentView {
    pub request: Seq<char>,
    pub invoice: InvoiceInfoView,
    pub unit: CurrencyUnit,
    pub msat_to_pay: Option<u64>,
    pub partial_amount: Option<u64>,
    pub max_fee: Option<u64>,
    pub phase: Phase,
    pub total_amt_msat: i64,
    pub routes: Seq<usize>,
    pub next: int,
}

impl View for Payment {
    type V = PaymentView;

    open spec fn view(&self) -> PaymentView {
        PaymentView {
            request: self.request@,
            invoice: self.invoice@,
            unit: self.unit,
            msat_to_pay: self.msat_to_pay,
            partial_amount: self.partial_amount,
            max_fee: self.max_fee,
            phase: self.phase,
            total_amt_msat: self.total_amt_msat,
            routes: self.routes@,
            next: self.next as int,
        }
    }
}

impl PaymentView {
    /// A payment of the invoice `request`, which says `invoice`, before anything
    /// was asked of the node.
    pub open spec fn fresh(
        request: Seq<char>,
        invoice: InvoiceInfoView,
        unit: CurrencyUnit,
        msat_to_pay: Option<u64>,
        partial_amount: Option<u64>,
        max_fee: Option<u64>,
    ) -> PaymentView {
        PaymentView {
            request,
            invoice,
            unit,
            msat_to_pay,
            partial_amount,
            max_fee,
            phase: Phase::Checking,
            total_amt_msat: 0,
            routes: Seq::empty(),
            next: 0,
        }
    }

    /// The first thing to ask: whether the invoice was paid before.
    pub open spec fn first_action(self) -> ActionView {
        ActionView::CheckOutgoing { lookup_id: hex::encoded(self.invoice.payment_hash) }
    }

    /// The payment, ended with `outcome`.
    pub open spec fn finish(self, outcome: Result<PayInvoiceResponseView, Error>) -> (
        PaymentView,
        ActionView,
    ) {
        (PaymentView { phase: Phase::Done, ..self }, ActionView::Finish(outcome))
    }

    /// The amount to pay, in millisatoshis: that of the invoice if it names one,
    /// else that of the melt quote.
    pub open spec fn amount_msat(self) -> Result<i64, Error> {
        match self.invoice.amount_msat {
            Some(msat) => to_signed_spec(msat),
            None => match self.msat_to_pay {
                Some(msat) => to_signed_spec(msat),
                None => Err(Error::UnknownInvoiceAmount),
            },
        }
    }

    /// The part to pay, in millisatoshis.
    pub open spec fn partial_msat(self, partial_amount: u64) -> Result<i64, Error> {
        match to_unit_spec(partial_amount, self.unit, CurrencyUnit::Msat) {
            Ok(msat) => to_signed_spec(msat),
            Err(e) => Err(e),
        }
    }

    /// The fee limit to hand to the node.
    pub open spec fn fee_limit(self) -> Result<Option<i64>, Error> {
        match self.max_fee {
            None => Ok(None),
            Some(fee) => match to_signed_spec(fee) {
                Ok(limit) => Ok(Some(limit)),
                Err(e) => Err(e),
            },
        }
    }

    /// What to do once the invoice is known not to be paid or in flight: pay it
    /// in one piece, or ask for routes that carry the part wanted.
    ///
    /// The amount is settled first, then the part, then the fee limit; the first
    /// of them that cannot be had ends the payment.
    pub open spec fn launch(self) -> (PaymentView, ActionView) {
        match self.amount_msat() {
            Err(e) => self.finish(Err(e)),
            Ok(total) => match self.partial_amount {
                None => match self.fee_limit() {
                    Err(e) => self.finish(Err(e)),
                    Ok(fee_limit) => (
                        PaymentView { phase: Phase::Sending, total_amt_msat: total, ..self },
                        ActionView::SendPayment {
                            payment_request: self.request,
                            amt_msat: total,
                            fee_limit,
                        },
                    ),
                },
                Some(partial_amount) => match self.partial_msat(partial_amount) {
                    Err(e) => self.finish(Err(e)),
                    Ok(partial) => match self.fee_limit() {
                        Err(e) => self.finish(Err(e)),
                        Ok(fee_limit) => (
                            PaymentView { phase: Phase::Querying, total_amt_msat: total, ..self },
                            ActionView::QueryRoutes {
                                pub_key: hex::encoded(self.invoice.payee_pub_key),
                                amt_msat: partial,
                                fee_limit,
                            },
                        ),
                    },
                },
            },
        }
    }

    /// What to do about the candidate route with index `next`.
    ///
    /// If there is none, the payment has found no route. A route without hops is
    /// malformed and ends the payment. Any other route is tried: its last hop
    /// gets the invoice's payment secret and the total of the whole invoice, not
    /// of the part.
    pub open spec fn attempt(self, next: int) -> (PaymentView, ActionView) {
        if next >= self.routes.len() || next < 0 {
            self.finish(Err(Error::NoRoute))
        } else if self.routes[next] == 0 {
            self.finish(Err(Error::MissingLastHop))
        } else {
            (
                PaymentView { phase: Phase::Routing, next, ..self },
                ActionView::SendToRoute {
                    route: next,
                    payment_hash: self.invoice.payment_hash,
                    payment_addr: self.invoice.payment_secret,
                    total_amt_msat: self.total_amt_msat,
                },
            )
        }
    }

    /// The payment after `reply`, and what to do next.
    ///
    /// - An invoice that is paid already is not paid again, and one with a
    ///   payment in flight is left alone. If the state could not be had, the
    ///   payment ends with that error.
    /// - A payment in one piece ends with the node's answer.
    /// - Routes are tried in the order in which the node gave them. An attempt
    ///   that fails for a channel's temporary want of capacity leads to the next
    ///   route. Any other attempt ends the payment, succeeded or not.
    /// - That the node rejects a request ends the payment.
    /// - A reply that was not asked for ends the payment too.
    pub open spec fn step(self, reply: ReplyView) -> (PaymentView, ActionView) {
        match (self.phase, reply) {
            (Phase::Checking, ReplyView::Outgoing(Err(e))) => self.finish(Err(e)),
            (Phase::Checking, ReplyView::Outgoing(Ok(state))) => if state is Paid {
                self.finish(Err(Error::InvoiceAlreadyPaid))
            } else if state is Pending {
                self.finish(Err(Error::InvoicePaymentPending))
            } else {
                self.launch()
            },
            (Phase::Sending, ReplyView::Rejected) => self.finish(Err(Error::PaymentFailed)),
            (
                Phase::Sending,
                ReplyView::Sent { payment_hash, payment_preimage, total_amt_msat },
            ) => self.finish(Ok(sent_outcome(payment_hash, payment_preimage, total_amt_msat))),
            (Phase::Querying, ReplyView::Rejected) => self.finish(Err(Error::Node)),
            (Phase::Querying, ReplyView::Routes(routes)) => (PaymentView { routes, ..self }).attempt(
                0,
            ),
            (Phase::Routing, ReplyView::Rejected) => self.finish(Err(Error::Node)),
            (
                Phase::Routing,
                ReplyView::Attempt { status, failure_code, preimage, total_amt_msat },
            ) => if failure_code == Some(TEMPORARY_CHANNEL_FAILURE) {
                self.attempt(self.next + 1)
            } else {
                self.finish(
                    Ok(attempt_outcome(self.invoice.payment_hash, status, preimage, total_amt_msat)),
                )
            },
            _ => self.finish(Err(Error::UnexpectedReply)),
        }
    }

    /// The actions that a run of replies leads to, one for each reply.
    pub open spec fn actions(self, replies: Seq<ReplyView>) -> Seq<ActionView>
        decreases replies.len(),
    {
        if replies.len() == 0 {
            Seq::empty()
        } else {
            let (after, action) = self.step(replies[0]);
            seq![action] + after.actions(replies.drop_first())
        }
    }
}

fn copy_bytes(bytes: &Vec<u8>) -> (copy: Vec<u8>)
    ensures
        copy@ == bytes@,
{
    let copy = bytes.clone();
    assert(copy@ =~= bytes@);
    copy
}

fn route_total(total_amt_msat: Option<i64>) -> (sats: u64)
    ensures
        sats == route_sats(total_amt_msat),
{
    match total_amt_msat {
        Some(msat) => msat_to_sat(msat),
        None => 0,
    }
}

fn sent_response(
    payment_hash: &Vec<u8>,
    payment_preimage: &Vec<u8>,
    total_amt_msat: Option<i64>,
) -> (r: PayInvoiceResponse)
    ensures
        r@ == sent_outcome(payment_hash@, payment_preimage@, total_amt_msat),
{
    let total_spent: u64 = route_total(total_amt_msat);
    if total_spent == 0 {
        PayInvoiceResponse {
            payment_lookup_id: hex::encode(payment_hash),
            payment_preimage: None,
            status: MeltQuoteState::Unpaid,
            total_spent,
            unit: CurrencyUnit::Sat,
        }
    } else {
        PayInvoiceResponse {
            payment_lookup_id: hex::encode(payment_hash),
            payment_preimage: Some(hex::encode(payment_preimage)),
            status: MeltQuoteState::Paid,
            total_spent,
            unit: CurrencyUnit::Sat,
        }
    }
}

fn attempt_response(
    payment_hash: &Vec<u8>,
    status: i32,
    preimage: &Vec<u8>,
    total_amt_msat: Option<i64>,
) -> (r: PayInvoiceResponse)
    ensures
        r@ == attempt_outcome(payment_hash@, status, preimage@, total_amt_msat),
{
    let (state, payment_preimage) = if status == ATTEMPT_IN_FLIGHT {
        (MeltQuoteState::Pending, None)
    } else if status == ATTEMPT_SUCCEEDED {
        (MeltQuoteState::Paid, Some(hex::encode(preimage)))
    } else if status == ATTEMPT_FAILED {
        (MeltQuoteState::Unpaid, None)
    } else {
        (MeltQuoteState::Unknown, None)
    };
    let total_spent: u64 = if status == ATTEMPT_SUCCEEDED {
        route_total(total_amt_msat)
    } else {
        0
    };
    PayInvoiceResponse {
        payment_lookup_id: hex::encode(payment_hash),
        payment_preimage,
        status: state,
        total_spent,
        unit: CurrencyUnit::Sat,
    }
}

/// Begins the payment of a melt quote whose invoice has been read already.
/// Returns the payment, and the first thing to ask of the node: whether the
/// invoice was paid before.
pub fn begin(
    melt_quote: MeltQuote,
    invoice: InvoiceInfo,
    partial_amount: Option<u64>,
    max_fee: Option<u64>,
) -> (r: (Payment, Action))
    ensures
        r.0@ == PaymentView::fresh(
            melt_quote.request@,
            invoice@,
            melt_quote.unit,
            melt_quote.msat_to_pay,
            partial_amount,
            max_fee,
        ),
        r.1@ == r.0@.first_action(),
{
    let action = Action::CheckOutgoing { lookup_id: hex::encode(&invoice.payment_hash) };
    let payment = Payment {
        request: melt_quote.request,
        invoice,
        unit: melt_quote.unit,
        msat_to_pay: melt_quote.msat_to_pay,
        partial_amount,
        max_fee,
        phase: Phase::Checking,
        total_amt_msat: 0,
        routes: Vec::new(),
        next: 0,
    };
    (payment, action)
}

impl Lnd {
    /// Begins the payment of a melt quote. Returns the payment, and the first
    /// thing to ask of the node: whether the invoice was paid before.
    ///
    /// With `partial_amount` only that part of the invoice is paid, along a route
    /// of the node's choosing, as one part of a multi-path payment. `max_fee`
    /// limits the fee.
    ///
    /// Fails with [`Error::InvalidInvoice`] if the quote's request is not a valid
    /// invoice.
    pub fn pay_invoice(
        &self,
        melt_quote: MeltQuote,
        partial_amount: Option<u64>,
        max_fee: Option<u64>,
    ) -> (r: Result<(Payment, Action), Error>)
        ensures
            r is Ok <==> bolt11_valid(melt_quote.request@),
            r matches Ok((payment, action)) ==> {
                &&& payment@ == PaymentView::fresh(
                    melt_quote.request@,
                    bolt11_info(melt_quote.request@),
                    melt_quote.unit,
                    melt_quote.msat_to_pay,
                    partial_amount,
                    max_fee,
                )
                &&& action@ == payment@.first_action()
            },
            r matches Err(e) ==> e == Error::InvalidInvoice,
    {
        match parse_bolt11(melt_quote.request.as_str()) {
            Some(invoice) => Ok(begin(melt_quote, invoice, partial_amount, max_fee)),
            None => Err(Error::InvalidInvoice),
        }
    }
}

impl Payment {
    fn finish(&mut self, outcome: Result<PayInvoiceResponse, Error>) -> (action: Action)
        ensures
            (final(self)@, action@) == old(self)@.finish(result_view(outcome)),
    {
        self.phase = Phase::Done;
        Action::Finish(outcome)
    }

    fn amount_msat(&self) -> (r: Result<i64, Error>)
        ensures
            r == self@.amount_msat(),
    {
        match self.invoice.amount_msat {
            Some(msat) => to_signed(msat),
            None => match self.msat_to_pay {
                Some(msat) => to_signed(msat),
                None => Err(Error::UnknownInvoiceAmount),
            },
        }
    }

    fn partial_msat(&self, partial_amount: u64) -> (r: Result<i64, Error>)
        ensures
            r == self@.partial_msat(partial_amount),
    {
        match to_unit(partial_amount, self.unit, CurrencyUnit::Msat) {
            Ok(msat) => to_signed(msat),
            Err(e) => Err(e),
        }
    }

    fn fee_limit(&self) -> (r: Result<Option<i64>, Error>)
        ensures
            r == self@.fee_limit(),
    {
        match self.max_fee {
            None => Ok(None),
            Some(fee) => match to_signed(fee) {
                Ok(limit) => Ok(Some(limit)),
                Err(e) => Err(e),
            },
        }
    }

    fn launch(&mut self) -> (action: Action)
        ensures
            (final(self)@, action@) == old(self)@.launch(),
    {
        let total: i64 = match self.amount_msat() {
            Ok(total) => total,
            Err(e) => {
                return self.finish(Err(e));
            },
        };
        match self.partial_amount {
            None => {
                let fee_limit = match self.fee_limit() {
                    Ok(fee_limit) => fee_limit,
                    Err(e) => {
                        return self.finish(Err(e));
                    },
                };
                self.phase = Phase::Sending;
                self.total_amt_msat = total;
                Action::SendPayment {
                    payment_request: self.request.clone(),
                    amt_msat: total,
                    fee_limit,
                }
            },
            Some(partial_amount) => {
                let partial: i64 = match self.partial_msat(partial_amount) {
                    Ok(partial) => partial,
                    Err(e) => {
                        return self.finish(Err(e));
                    },
                };
                let fee_limit = match self.fee_limit() {
                    Ok(fee_limit) => fee_limit,
                    Err(e) => {
                        return self.finish(Err(e));
                    },
                };
                self.phase = Phase::Querying;
                self.total_amt_msat = total;
                Action::QueryRoutes {
                    pub_key: hex::encode(&self.invoice.payee_pub_key),
                    amt_msat: partial,
                    fee_limit,
                }
            },
        }
    }

    fn attempt(&mut self, next: usize) -> (action: Action)
        ensures
            (final(self)@, action@) == old(self)@.attempt(next as int),
    {
        if next >= self.routes.len() {
            self.finish(Err(Error::NoRoute))
        } else if self.routes[next] == 0 {
            self.finish(Err(Error::MissingLastHop))
        } else {
            self.phase = Phase::Routing;
            self.next = next;
            Action::SendToRoute {
                route: next,
                payment_hash: copy_bytes(&self.invoice.payment_hash),
                payment_addr: copy_bytes(&self.invoice.payment_secret),
                total_amt_msat: self.total_amt_msat,
            }
        }
    }

    /// Takes in the node's reply to the last action, and says what to do next.
    pub fn step(&mut self, reply: Reply) -> (action: Action)
        ensures
            (final(self)@, action@) == old(self)@.step(reply@),
    {
        match self.phase {
            Phase::Checking => match reply {
                Reply::Outgoing(Err(e)) => self.finish(Err(e)),
                Reply::Outgoing(Ok(MeltQuoteState::Paid)) => self.finish(
                    Err(Error::InvoiceAlreadyPaid),
                ),
                Reply::Outgoing(Ok(MeltQuoteState::Pending)) => self.finish(
                    Err(Error::InvoicePaymentPending),
                ),
                Reply::Outgoing(Ok(_)) => self.launch(),
                _ => self.finish(Err(Error::UnexpectedReply)),
            },
            Phase::Sending => match reply {
                Reply::Rejected => self.finish(Err(Error::PaymentFailed)),
                Reply::Sent { payment_hash, payment_preimage, total_amt_msat } => {
                    let outcome = sent_response(&payment_hash, &payment_preimage, total_amt_msat);
                    self.finish(Ok(outcome))
                },
                _ => self.finish(Err(Error::UnexpectedReply)),
            },
            Phase::Querying => match reply {
                Reply::Rejected => self.finish(Err(Error::Node)),
                Reply::Routes(routes) => {
                    self.routes = routes;
                    self.attempt(0)
                },
                _ => self.finish(Err(Error::UnexpectedReply)),
            },
            Phase::Routing => match reply {
                Reply::Rejected => self.finish(Err(Error::Node)),
                Reply::Attempt { status, failure_code, preimage, total_amt_msat } => {
                    let transient = match failure_code {
                        Some(code) => code == TEMPORARY_CHANNEL_FAILURE,
                        None => false,
                    };
                    if transient {
                        if self.next >= self.routes.len() {
                            self.finish(Err(Error::NoRoute))
                        } else {
                            self.attempt(self.next + 1)
                        }
                    } else {
                        let outcome = attempt_response(
                            &self.invoice.payment_hash,
                            status,
                            &preimage,
                            total_amt_msat,
                        );
                        self.finish(Ok(outcome))
                    }
                },
                _ => self.finish(Err(Error::UnexpectedReply)),
            },
            Phase::Done => self.finish(Err(Error::UnexpectedReply)),
        }
    }
}

impl PaymentView {
    /// A run of replies leads to one action for each reply.
    pub proof fn lemma_actions_len(self, replies: Seq<ReplyView>)
        ensures
            self.actions(replies).len() == replies.len(),
        decreases replies.len(),
    {
        if replies.len() > 0 {
            self.step(replies[0]).0.lemma_actions_len(replies.drop_first());
        }
    }

    /// A payment that has ended asks nothing more of the node, whatever replies
    /// it is fed.
    pub proof fn lemma_ended_payment_attempts_nothing(self, replies: Seq<ReplyView>)
        requires
            self.phase is Done,
        ensures
            forall|i: int|
                0 <= i < replies.len() ==> self.actions(replies)[i] == ActionView::Finish(
                    Err(Error::UnexpectedReply),
                ),
        decreases replies.len(),
    {
        if replies.len() > 0 {
            let after = self.step(replies[0]).0;
            after.lemma_ended_payment_attempts_nothing(replies.drop_first());
            after.lemma_actions_len(replies.drop_first());
            assert forall|i: int| 0 <= i < replies.len() implies self.actions(replies)[i]
                == ActionView::Finish(Err(Error::UnexpectedReply)) by {
                if i > 0 {
                    assert(self.actions(replies)[i] == after.actions(replies.drop_first())[i - 1]);
                }
            }
        }
    }

    /// An invoice that is paid already is never paid again: where the node
    /// reports it paid, the payment ends with [`Error::InvoiceAlreadyPaid`], and
    /// nothing that follows makes it send a payment or look for a route.
    pub proof fn lemma_paid_invoice_not_paid_again(self, replies: Seq<ReplyView>)
        requires
            self.phase is Checking,
            replies.len() > 0,
            replies[0] == ReplyView::Outgoing(Ok(MeltQuoteState::Paid)),
        ensures
            self.actions(replies)[0] == ActionView::Finish(Err(Error::InvoiceAlreadyPaid)),
            forall|i: int| 0 <= i < replies.len() ==> !self.actions(replies)[i].is_attempt(),
    {
        self.lemma_guarded(replies);
    }

    /// An invoice with a payment in flight is left alone: where the node reports
    /// it pending, the payment ends with [`Error::InvoicePaymentPending`], and
    /// nothing that follows makes it send a payment or look for a route.
    pub proof fn lemma_pending_invoice_left_alone(self, replies: Seq<ReplyView>)
        requires
            self.phase is Checking,
            replies.len() > 0,
            replies[0] == ReplyView::Outgoing(Ok(MeltQuoteState::Pending)),
        ensures
            self.actions(replies)[0] == ActionView::Finish(Err(Error::InvoicePaymentPending)),
            forall|i: int| 0 <= i < replies.len() ==> !self.actions(replies)[i].is_attempt(),
    {
        self.lemma_guarded(replies);
    }

    proof fn lemma_guarded(self, replies: Seq<ReplyView>)
        requires
            self.phase is Checking,
            replies.len() > 0,
            self.step(replies[0]).0.phase is Done,
        ensures
            self.actions(replies)[0] == self.step(replies[0]).1,
            forall|i: int| 0 < i < replies.len() ==> !self.actions(replies)[i].is_attempt(),
    {
        let after = self.step(replies[0]).0;
        after.lemma_ended_payment_attempts_nothing(replies.drop_first());
        after.lemma_actions_len(replies.drop_first());
        assert forall|i: int| 0 < i < replies.len() implies !self.actions(replies)[i].is_attempt() by {
            assert(self.actions(replies)[i] == after.actions(replies.drop_first())[i - 1]);
        }
    }

    /// No funds move before the node was asked about the invoice: a payment that
    /// waits for that answer makes an attempt only on the answer that the invoice
    /// is neither paid nor pending.
    pub proof fn lemma_no_attempt_unchecked(self, reply: ReplyView)
        requires
            self.phase is Checking,
            self.step(reply).1.is_attempt(),
        ensures
            reply matches ReplyView::Outgoing(Ok(state)) && !(state is Paid) && !(state is Pending),
    {
    }

    /// Routes are tried one after another in the order given: the first attempt
    /// is on the first route, and each further one on the route after the one
    /// that just failed.
    pub proof fn lemma_routes_in_order(self, reply: ReplyView)
        requires
            self.step(reply).1 is SendToRoute,
        ensures
            self.phase is Querying ==> self.step(reply).1->SendToRoute_route == 0,
            self.phase is Routing ==> self.step(reply).1->SendToRoute_route == self.next + 1,
            self.phase is Querying || self.phase is Routing,
            self.phase is Routing ==> (reply matches ReplyView::Attempt { failure_code, .. }
                && failure_code == Some(TEMPORARY_CHANNEL_FAILURE)),
    {
    }

    /// Whether `reply` reports an attempt that failed for a channel's temporary
    /// want of capacity.
    pub open spec fn is_transient(reply: ReplyView) -> bool {
        reply matches ReplyView::Attempt { failure_code, .. } && failure_code == Some(
            TEMPORARY_CHANNEL_FAILURE,
        )
    }

    /// The attempt on the candidate route with index `route`.
    pub open spec fn route_attempt(self, route: int) -> ActionView {
        ActionView::SendToRoute {
            route,
            payment_hash: self.invoice.payment_hash,
            payment_addr: self.invoice.payment_secret,
            total_amt_msat: self.total_amt_msat,
        }
    }

    /// Failures for want of capacity are absorbed: while routes with hops remain,
    /// each such failure leads to an attempt on the next route, and the first
    /// attempt that ends otherwise is the outcome of the payment. The caller sees
    /// nothing of the failures before it.
    pub proof fn lemma_transient_failures_absorbed(self, failures: Seq<ReplyView>, last: ReplyView)
        requires
            self.phase is Routing,
            0 <= self.next,
            self.next + failures.len() < self.routes.len(),
            forall|i: int| self.next < i <= self.next + failures.len() ==> self.routes[i] > 0,
            forall|i: int| 0 <= i < failures.len() ==> Self::is_transient(#[trigger] failures[i]),
            last is Attempt,
            !Self::is_transient(last),
        ensures
            self.actions(failures.push(last)).len() == failures.len() + 1,
            forall|i: int|
                0 <= i < failures.len() ==> self.actions(failures.push(last))[i]
                    == self.route_attempt(self.next + 1 + i),
            self.actions(failures.push(last))[failures.len() as int] == ActionView::Finish(
                Ok(
                    attempt_outcome(
                        self.invoice.payment_hash,
                        last->Attempt_status,
                        last->Attempt_preimage,
                        last->Attempt_total_amt_msat,
                    ),
                ),
            ),
        decreases failures.len(),
    {
        let replies = failures.push(last);
        self.lemma_actions_len(replies);
        if failures.len() == 0 {
            assert(replies[0] == last);
        } else {
            assert(replies[0] == failures[0]);
            assert(Self::is_transient(failures[0]));
            let after = self.step(replies[0]).0;
            let rest = failures.drop_first();
            assert(replies.drop_first() =~= rest.push(last));
            assert forall|i: int| 0 <= i < rest.len() implies Self::is_transient(
                #[trigger] rest[i],
            ) by {
                assert(rest[i] == failures[i + 1]);
            }
            after.lemma_transient_failures_absorbed(rest, last);
            after.lemma_actions_len(rest.push(last));
            assert forall|i: int| 0 <= i < failures.len() implies self.actions(replies)[i]
                == self.route_attempt(self.next + 1 + i) by {
                if i > 0 {
                    assert(self.actions(replies)[i] == after.actions(rest.push(last))[i - 1]);
                }
            }
            assert(self.actions(replies)[failures.len() as int] == after.actions(rest.push(last))[
                failures.len() - 1
            ]);
        }
    }

    /// Where every route that remains fails for want of capacity, the payment
    /// ends without a route.
    pub proof fn lemma_routes_exhausted(self, failures: Seq<ReplyView>)
        requires
            self.phase is Routing,
            0 <= self.next,
            self.next + failures.len() == self.routes.len(),
            forall|i: int| self.next < i < self.routes.len() ==> self.routes[i] > 0,
            forall|i: int| 0 <= i < failures.len() ==> Self::is_transient(#[trigger] failures[i]),
        ensures
            self.actions(failures).len() == failures.len(),
            forall|i: int|
                0 <= i < failures.len() - 1 ==> self.actions(failures)[i] == self.route_attempt(
                    self.next + 1 + i,
                ),
            failures.len() > 0 ==> self.actions(failures)[failures.len() - 1] == ActionView::Finish(
                Err(Error::NoRoute),
            ),
        decreases failures.len(),
    {
        self.lemma_actions_len(failures);
        if failures.len() > 0 {
            assert(Self::is_transient(failures[0]));
            let after = self.step(failures[0]).0;
            let rest = failures.drop_first();
            if rest.len() > 0 {
                assert forall|i: int| 0 <= i < rest.len() implies Self::is_transient(
                    #[trigger] rest[i],
                ) by {
                    assert(rest[i] == failures[i + 1]);
                }
                after.lemma_routes_exhausted(rest);
                after.lemma_actions_len(rest);
                assert forall|i: int| 0 <= i < failures.len() - 1 implies self.actions(failures)[i]
                    == self.route_attempt(self.next + 1 + i) by {
                    if i > 0 {
                        assert(self.actions(failures)[i] == after.actions(rest)[i - 1]);
                    }
                }
                assert(self.actions(failures)[failures.len() - 1] == after.actions(rest)[rest.len()
                    - 1]);
            }
        }
    }

    /// The fee limit is handed to the node as it stands: every payment in one
    /// piece and every route query carries the limit of the melt, and there is no
    /// second try with another.
    pub proof fn lemma_fee_limit_kept(self, reply: ReplyView)
        ensures
            self.step(reply).1 matches ActionView::SendPayment { fee_limit, .. } ==> self.fee_limit()
                == Ok::<Option<i64>, Error>(fee_limit),
            self.step(reply).1 matches ActionView::QueryRoutes { fee_limit, .. } ==> self.fee_limit()
                == Ok::<Option<i64>, Error>(fee_limit),
            self.step(reply).1.is_attempt() ==> self.step(reply).0.max_fee == self.max_fee,
    {
    }

    /// Every outcome is consistent, whichever way the payment went: a preimage
    /// is reported for a paid payment and for no other, and nothing counts as
    /// spent unless the payment is paid.
    pub proof fn lemma_outcome_consistent(self, reply: ReplyView)
        ensures
            self.step(reply).1 matches ActionView::Finish(Ok(outcome)) ==> outcome.consistent(),
    {
    }
}

} // verus!
