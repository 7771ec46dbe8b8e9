//! The state of an outgoing payment, as the node reports it.
//!
//! Any payment can be asked about by its hash, whoever started it. The node
//! answers with a stream of updates, of which the first final one decides.

use vstd::prelude::*;
use crate::error::Error;
use crate::hex;
use crate::lnd::Lnd;
use crate::types::{result_view, MeltQuoteState, PayInvoiceResponse, PayInvoiceResponseView};
use crate::units::{sats_spent, total_sats, CurrencyUnit};

verus! {

/// The node's status codes for a payment.
pub const PAYMENT_IN_FLIGHT: i32 = 1;

pub const PAYMENT_SUCCEEDED: i32 = 2;

pub const PAYMENT_FAILED: i32 = 3;

/// The request to track a payment.
#[derive(Clone, Debug, PartialEq, Eq)]
pub struct TrackPaymentRequest {
    /// Hash of the payment.
    pub payment_hash: Vec<u8>,
    /// Whether the node is to leave out updates on attempts in flight.
    pub no_inflight_updates: bool,
}

/// Mathematical value of a [`TrackPaymentRequest`].
pub struct TrackPaymentRequestView {
    pub payment_hash: Seq<u8>,
    pub no_inflight_updates: bool,
}

impl View for TrackPaymentRequest {
    type V = TrackPaymentRequestView;

    open spec fn view(&self) -> TrackPaymentRequestView {
        TrackPaymentRequestView {
            payment_hash: self.payment_hash@,
            no_inflight_updates: self.no_inflight_updates,
        }
    }
}

/// The request by which the node tracks the payment with hash `payment_hash`,
/// given in hex. Updates on attempts in flight are not asked for. A hash that is
/// not hex is refused.
pub open spec fn track_request_spec(payment_hash: Seq<char>) -> Result<
    TrackPaymentRequestView,
    Error,
> {
    if hex::is_hex(payment_hash) {
        Ok(
            TrackPaymentRequestView {
                payment_hash: hex::decoded(payment_hash),
                no_inflight_updates: true,
            },
        )
    } else {
        Err(Error::InvalidHash)
    }
}

/// An update on a payment from the node.
#[derive(Clone, Debug, PartialEq, Eq)]
pub struct PaymentUpdate {
    /// The node's status code.
    pub status: i32,
    /// The preimage of the payment hash, in hex.
    pub payment_preimage: String,
    /// The amount paid, in satoshis.
    pub value_sat: i64,
    /// The fee paid, in satoshis.
    pub fee_sat: i64,
}

/// What the node answered to a tracking request, one answer at a time.
#[derive(Clone, Debug, PartialEq, Eq)]
pub enum TrackReply {
    /// The node knows of no such payment.
    NotFound,
    /// The node refused the request for another reason.
    Refused,
    /// The stream delivered an update.
    Update(PaymentUpdate),
    /// The stream delivered an error.
    Broken,
    /// The stream ended.
    Ended,
}

/// Mathematical value of a [`TrackReply`].
pub enum TrackReplyView {
    NotFound,
    Refused,
    Update { status: i32, payment_preimage: Seq<char>, value_sat: i64, fee_sat: i64 },
    Broken,
    Ended,
}

impl View for TrackReply {
    type V = TrackReplyView;

    open spec fn view(&self) -> TrackReplyView {
        match self {
            TrackReply::NotFound => TrackReplyView::NotFound,
            TrackReply::Refused => TrackReplyView::Refused,
            TrackReply::Update(update) => TrackReplyView::Update {
                status: update.status,
                payment_preimage: update.payment_preimage@,
                value_sat: update.value_sat,
                fee_sat: update.fee_sat,
            },
            TrackReply::Broken => TrackReplyView::Broken,
            TrackReply::Ended => TrackReplyView::Ended,
        }
    }
}

/// The views of a run of replies.
pub open spec fn reply_views(replies: Seq<TrackReply>) -> Seq<TrackReplyView> {
    replies.map_values(|reply: TrackReply| reply@)
}

/// A payment of which nothing was spent, in the given state.
pub open spec fn unspent(payment_hash: Seq<char>, status: MeltQuoteState) -> PayInvoiceResponseView {
    PayInvoiceResponseView {
        payment_lookup_id: payment_hash,
        payment_preimage: None,
        status,
        total_spent: 0,
        unit: CurrencyUnit::Msat,
    }
}

/// What one reply of the node says about the payment with hash `payment_hash`:
/// `None` if it settles nothing and the next reply has to be awaited.
///
/// That the node does not know the payment is an answer, not a failure: the
/// state is then unknown and nothing was spent. Updates on attempts in flight
/// are passed over. The first other update decides: a payment that succeeded is
/// paid, with its preimage, and what was spent is the value plus the fee; one
/// that failed, or whose status the node does not know, has spent nothing.
pub open spec fn reply_outcome(payment_hash: Seq<char>, reply: TrackReplyView) -> Option<
    Result<PayInvoiceResponseView, Error>,
> {
    match reply {
        TrackReplyView::NotFound => Some(Ok(unspent(payment_hash, MeltQuoteState::Unknown))),
        TrackReplyView::Refused => Some(Err(Error::UnknownPaymentState)),
        TrackReplyView::Update { status, payment_preimage, value_sat, fee_sat } => {
            if status == PAYMENT_IN_FLIGHT {
                None
            } else if status == PAYMENT_SUCCEEDED {
                Some(
                    Ok(
                        PayInvoiceResponseView {
                            payment_lookup_id: payment_hash,
                            payment_preimage: Some(payment_preimage),
                            status: MeltQuoteState::Paid,
                            total_spent: sats_spent(value_sat, fee_sat),
                            unit: CurrencyUnit::Sat,
                        },
                    ),
                )
            } else if status == PAYMENT_FAILED {
                Some(Ok(unspent(payment_hash, MeltQuoteState::Failed)))
            } else {
                Some(Ok(unspent(payment_hash, MeltQuoteState::Unknown)))
            }
        },
        TrackReplyView::Broken => Some(Err(Error::UnknownPaymentStatus)),
        TrackReplyView::Ended => Some(Err(Error::UnknownPaymentStatus)),
    }
}

/// What a run of replies says about the payment: what its first decisive reply
/// says. A run without one leaves the state undetermined.
pub open spec fn settled(payment_hash: Seq<char>, replies: Seq<TrackReplyView>) -> Result<
    PayInvoiceResponseView,
    Error,
>
    decreases replies.len(),
{
    if replies.len() == 0 {
        Err(Error::UnknownPaymentStatus)
    } else {
        match reply_outcome(payment_hash, replies[0]) {
            Some(outcome) => outcome,
            None => settled(payment_hash, replies.drop_first()),
        }
    }
}

/// The state of the payment with hash `payment_hash`, given the node's replies
/// to the tracking request. A hash that is not hex is refused before the node is
/// asked.
pub open spec fn check_outgoing_spec(
    payment_hash: Seq<char>,
    replies: Seq<TrackReplyView>,
) -> Result<PayInvoiceResponseView, Error> {
    if hex::is_hex(payment_hash) {
        settled(payment_hash, replies)
    } else {
        Err(Error::InvalidHash)
    }
}

impl Lnd {
    /// The request by which the node tracks the payment with hash `payment_hash`,
    /// given in hex. Only final updates are asked for.
    ///
    /// Fails with [`Error::InvalidHash`] if `payment_hash` is not hex.
    pub fn track_payment_request(&self, payment_hash: &str) -> (r: Result<
        TrackPaymentRequest,
        Error,
    >)
        ensures
            result_view(r) == track_request_spec(payment_hash@),
    {
        match hex::decode(payment_hash) {
            Some(bytes) => Ok(TrackPaymentRequest { payment_hash: bytes, no_inflight_updates: true }),
            None => Err(Error::InvalidHash),
        }
    }

    /// Takes in one reply of the node to a tracking request. Returns the state of
    /// the payment if the reply settles it, and `None` if the next reply has to
    /// be awaited.
    pub fn track_payment_reply(&self, payment_hash: &str, reply: &TrackReply) -> (r: Option<
        Result<PayInvoiceResponse, Error>,
    >)
        ensures
            match r {
                Some(outcome) => reply_outcome(payment_hash@, reply@) == Some(result_view(outcome)),
                None => reply_outcome(payment_hash@, reply@) is None,
            },
    {
        match reply {
            TrackReply::NotFound => Some(Ok(nothing_spent(payment_hash, MeltQuoteState::Unknown))),
            TrackReply::Refused => Some(Err(Error::UnknownPaymentState)),
            TrackReply::Update(update) => {
                if update.status == PAYMENT_IN_FLIGHT {
                    None
                } else if update.status == PAYMENT_SUCCEEDED {
                    Some(
                        Ok(
                            PayInvoiceResponse {
                                payment_lookup_id: payment_hash.to_owned(),
                                payment_preimage: Some(update.payment_preimage.clone()),
                                status: MeltQuoteState::Paid,
                                total_spent: total_sats(update.value_sat, update.fee_sat),
                                unit: CurrencyUnit::Sat,
                            },
                        ),
                    )
                } else if update.status == PAYMENT_FAILED {
                    Some(Ok(nothing_spent(payment_hash, MeltQuoteState::Failed)))
                } else {
                    Some(Ok(nothing_spent(payment_hash, MeltQuoteState::Unknown)))
                }
            },
            TrackReply::Broken => Some(Err(Error::UnknownPaymentStatus)),
            TrackReply::Ended => Some(Err(Error::UnknownPaymentStatus)),
        }
    }

    /// The state of the payment with hash `payment_hash`, from the replies that
    /// the node gave to the tracking request, in the order in which it gave them.
    /// Replies after the first decisive one are not read.
    pub fn check_outgoing_payment(&self, payment_hash: &str, replies: &Vec<TrackReply>) -> (r:
        Result<PayInvoiceResponse, Error>)
        ensures
            result_view(r) == check_outgoing_spec(payment_hash@, reply_views(replies@)),
    {
        if self.track_payment_request(payment_hash).is_err() {
            return Err(Error::InvalidHash);
        }
        let ghost views = reply_views(replies@);
        assert(views.skip(0) =~= views);
        let mut i: usize = 0;
        while i < replies.len()
            invariant
                i <= replies.len(),
                hex::is_hex(payment_hash@),
                views == reply_views(replies@),
                settled(payment_hash@, views) == settled(payment_hash@, views.skip(i as int)),
            decreases replies.len() - i,
        {
            assert(views.skip(i as int)[0] == replies@[i as int]@);
            assert(views.skip(i as int).drop_first() =~= views.skip(i + 1));
            match self.track_payment_reply(payment_hash, &replies[i]) {
                Some(outcome) => {
                    return outcome;
                },
                None => {},
            }
            i = i + 1;
        }
        assert(views.skip(i as int).len() == 0);
        Err(Error::UnknownPaymentStatus)
    }
}

fn nothing_spent(payment_hash: &str, status: MeltQuoteState) -> (r: PayInvoiceResponse)
    ensures
        r@ == unspent(payment_hash@, status),
{
    PayInvoiceResponse {
        payment_lookup_id: payment_hash.to_owned(),
        payment_preimage: None,
        status,
        total_spent: 0,
        unit: CurrencyUnit::Msat,
    }
}

/// What tracking reports is consistent: a preimage comes with a paid payment and
/// with no other, and nothing counts as spent unless the payment is paid.
pub proof fn lemma_tracked_outcome_consistent(payment_hash: Seq<char>, replies: Seq<TrackReplyView>)
    ensures
        check_outgoing_spec(payment_hash, replies) matches Ok(outcome) ==> outcome.consistent()
            && outcome.payment_lookup_id == payment_hash,
    decreases replies.len(),
{
    if replies.len() > 0 {
        lemma_tracked_outcome_consistent(payment_hash, replies.drop_first());
    }
}

/// Whether `reply` is an update on an attempt in flight.
pub open spec fn is_in_flight(reply: TrackReplyView) -> bool {
    reply matches TrackReplyView::Update { status, .. } && status == PAYMENT_IN_FLIGHT
}

/// The first reply that is no update on an attempt in flight decides: what comes
/// after it is not read.
pub proof fn lemma_first_final_reply_decides(
    payment_hash: Seq<char>,
    before: Seq<TrackReplyView>,
    decisive: TrackReplyView,
    after: Seq<TrackReplyView>,
)
    requires
        forall|i: int| 0 <= i < before.len() ==> is_in_flight(#[trigger] before[i]),
        !is_in_flight(decisive),
    ensures
        Some(settled(payment_hash, before.push(decisive) + after)) == reply_outcome(
            payment_hash,
            decisive,
        ),
    decreases before.len(),
{
    let replies = before.push(decisive) + after;
    if before.len() == 0 {
        assert(replies[0] == decisive);
    } else {
        assert(replies[0] == before[0]);
        assert(is_in_flight(before[0]));
        let rest = before.drop_first();
        assert(replies.drop_first() =~= rest.push(decisive) + after);
        assert forall|i: int| 0 <= i < rest.len() implies is_in_flight(#[trigger] rest[i]) by {
            assert(rest[i] == before[i + 1]);
        }
        lemma_first_final_reply_decides(payment_hash, rest, decisive, after);
    }
}

/// A stream that delivers nothing but updates on attempts in flight leaves the
/// state undetermined.
pub proof fn lemma_in_flight_only_is_undetermined(
    payment_hash: Seq<char>,
    replies: Seq<TrackReplyView>,
)
    requires
        forall|i: int| 0 <= i < replies.len() ==> is_in_flight(#[trigger] replies[i]),
    ensures
        settled(payment_hash, replies) == Err::<PayInvoiceResponseView, Error>(
            Error::UnknownPaymentStatus,
        ),
    decreases replies.len(),
{
    if replies.len() > 0 {
        assert(is_in_flight(replies[0]));
        let rest = replies.drop_first();
        assert forall|i: int| 0 <= i < rest.len() implies is_in_flight(#[trigger] rest[i]) by {
            assert(rest[i] == replies[i + 1]);
        }
        lemma_in_flight_only_is_undetermined(payment_hash, rest);
    }
}

} // verus!
