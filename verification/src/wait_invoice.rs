//! The feed of paid invoices.
//!
//! A feed listens to the node's invoice events and hands on the lookup id of each
//! invoice that settles. It can be cancelled from outside, and stops for good
//! when it is, or when the node's stream ends or breaks.

use vstd::prelude::*;
use crate::hex;
use crate::incoming::INVOICE_SETTLED;
use crate::lnd::Lnd;

verus! {

/// State of a feed of paid invoices.
#[derive(Clone, Copy, Debug, PartialEq, Eq, Structural)]
pub struct WaitInvoice {
    /// Whether the feed is listening.
    pub is_active: bool,
    /// Whether cancellation was asked for.
    pub cancelled: bool,
    /// Whether the feed has stopped. A stopped feed never listens again.
    pub stopped: bool,
}

/// What the driver of a feed observed while it waited.
#[derive(Clone, Debug, PartialEq, Eq)]
pub enum InvoiceEvent {
    /// The cancellation signal fired.
    Cancelled,
    /// The node reported an invoice, in the given state and with the given
    /// payment hash.
    Invoice { state: i32, r_hash: Vec<u8> },
    /// The node closed the stream.
    Closed,
    /// The stream broke.
    Failed,
}

/// Mathematical value of an [`InvoiceEvent`].
pub enum InvoiceEventView {
    Cancelled,
    Invoice { state: i32, r_hash: Seq<u8> },
    Closed,
    Failed,
}

impl View for InvoiceEvent {
    type V = InvoiceEventView;

    open spec fn view(&self) -> InvoiceEventView {
        match self {
            InvoiceEvent::Cancelled => InvoiceEventView::Cancelled,
            InvoiceEvent::Invoice { state, r_hash } => InvoiceEventView::Invoice {
                state: *state,
                r_hash: r_hash@,
            },
            InvoiceEvent::Closed => InvoiceEventView::Closed,
            InvoiceEvent::Failed => InvoiceEventView::Failed,
        }
    }
}

/// What a feed does about an event.
#[derive(Clone, Debug, PartialEq, Eq)]
pub enum FeedStep {
    /// Hand on the lookup id of a paid invoice, and go on listening.
    Emit(String),
    /// Hand on nothing, and go on listening.
    Skip,
    /// End the feed.
    Stop,
}

/// Mathematical value of a [`FeedStep`].
pub enum FeedStepView {
    Emit(Seq<char>),
    Skip,
    Stop,
}

impl View for FeedStep {
    type V = FeedStepView;

    open spec fn view(&self) -> FeedStepView {
        match self {
            FeedStep::Emit(id) => FeedStepView::Emit(id@),
            FeedStep::Skip => FeedStepView::Skip,
            FeedStep::Stop => FeedStepView::Stop,
        }
    }
}




impl WaitInvoice {
    /// The state of a feed that has not started.
    pub open spec fn fresh() -> WaitInvoice {
        WaitInvoice { is_active: false, cancelled: false, stopped: false }
    }

    /// The state after cancellation was asked for. The feed itself stops at its
    /// next event.
    pub open spec fn cancel_spec(self) -> WaitInvoice {
        WaitInvoice { cancelled: true, ..self }
    }

    /// The state once the feed waits for its next event. A feed that was
    /// cancelled or has stopped does not listen.
    pub open spec fn listen_spec(self) -> WaitInvoice {
        if self.cancelled || self.stopped {
            WaitInvoice { is_active: false, stopped: true, ..self }
        } else {
            WaitInvoice { is_active: true, ..self }
        }
    }

    /// The state after `event`, and what the feed does about it.
    ///
    /// Cancellation comes first: once asked for, it stops the feed whatever the
    /// event. Of the node's invoice events only a settled one is handed on. The
    /// end of the stream and a broken stream stop the feed.
    pub open spec fn on_event_spec(self, event: InvoiceEventView) -> (WaitInvoice, FeedStepView) {
        let halted = WaitInvoice { is_active: false, stopped: true, ..self };
        if self.cancelled || self.stopped {
            (halted, FeedStepView::Stop)
        } else {
            match event {
                InvoiceEventView::Cancelled => (
                    WaitInvoice { cancelled: true, ..halted },
                    FeedStepView::Stop,
                ),
                InvoiceEventView::Invoice { state, r_hash } => if state == INVOICE_SETTLED {
                    (WaitInvoice { is_active: true, ..self }, FeedStepView::Emit(hex::encoded(r_hash)))
                } else {
                    (WaitInvoice { is_active: true, ..self }, FeedStepView::Skip)
                },
                InvoiceEventView::Closed => (halted, FeedStepView::Stop),
                InvoiceEventView::Failed => (halted, FeedStepView::Stop),
            }
        }
    }

    /// The feed's steps over a run of events, one for each event.
    pub open spec fn steps(self, events: Seq<InvoiceEventView>) -> Seq<FeedStepView>
        decreases events.len(),
    {
        if events.len() == 0 {
            Seq::empty()
        } else {
            let (after, step) = self.on_event_spec(events[0]);
            seq![step] + after.steps(events.drop_first())
        }
    }

    /// The feed's state after a run of events.
    pub open spec fn after(self, events: Seq<InvoiceEventView>) -> WaitInvoice
        decreases events.len(),
    {
        if events.len() == 0 {
            self
        } else {
            self.on_event_spec(events[0]).0.after(events.drop_first())
        }
    }

    /// A feed that has not started.
    pub fn new() -> (feed: WaitInvoice)
        ensures
            feed == WaitInvoice::fresh(),
    {
        WaitInvoice { is_active: false, cancelled: false, stopped: false }
    }

    /// Asks the feed to stop. Asking again changes nothing.
    pub fn cancel(&mut self)
        ensures
            *final(self) == old(self).cancel_spec(),
    {
        self.cancelled = true;
    }

    /// Marks the feed as listening, before its driver waits for the next event.
    /// Returns whether there is anything to wait for: `false` once the feed was
    /// cancelled or has stopped.
    pub fn listen(&mut self) -> (listening: bool)
        ensures
            *final(self) == old(self).listen_spec(),
            listening == final(self).is_active,
    {
        if self.cancelled || self.stopped {
            self.is_active = false;
            self.stopped = true;
            false
        } else {
            self.is_active = true;
            true
        }
    }

    /// Takes in what the driver observed, and says what to do about it.
    pub fn on_event(&mut self, event: &InvoiceEvent) -> (step: FeedStep)
        ensures
            (*final(self), step@) == old(self).on_event_spec(event@),
    {
        if self.cancelled || self.stopped {
            self.is_active = false;
            self.stopped = true;
            return FeedStep::Stop;
        }
        match event {
            InvoiceEvent::Invoice { state, r_hash } => {
                self.is_active = true;
                if *state == INVOICE_SETTLED {
                    FeedStep::Emit(hex::encode(r_hash))
                } else {
                    FeedStep::Skip
                }
            },
            InvoiceEvent::Cancelled => {
                self.cancelled = true;
                self.is_active = false;
                self.stopped = true;
                FeedStep::Stop
            },
            _ => {
                self.is_active = false;
                self.stopped = true;
                FeedStep::Stop
            },
        }
    }

    /// After cancellation the feed hands on nothing more: whatever events
    /// follow, each of its steps is to stop, and from the first of them on it is
    /// no longer listening.
    pub proof fn lemma_cancelled_feed_is_silent(self, events: Seq<InvoiceEventView>)
        requires
            self.cancelled,
        ensures
            forall|i: int| 0 <= i < events.len() ==> self.steps(events)[i] == FeedStepView::Stop,
            events.len() > 0 ==> !self.after(events).is_active,
            self.after(events).cancelled,
        decreases events.len(),
    {
        if events.len() > 0 {
            let next = self.on_event_spec(events[0]).0;
            next.lemma_cancelled_feed_is_silent(events.drop_first());
            assert(self.steps(events).len() == events.len()) by {
                self.lemma_steps_len(events);
            }
            assert forall|i: int| 0 <= i < events.len() implies self.steps(events)[i]
                == FeedStepView::Stop by {
                next.lemma_steps_len(events.drop_first());
                if i > 0 {
                    assert(self.steps(events)[i] == next.steps(events.drop_first())[i - 1]);
                }
            }
            if events.len() == 1 {
                assert(events.drop_first().len() == 0);
            }
        }
    }

    /// Asking twice for cancellation is asking once.
    pub proof fn lemma_cancel_idempotent(self)
        ensures
            self.cancel_spec().cancel_spec() == self.cancel_spec(),
            self.cancel_spec().is_active == self.is_active,
    {
    }

    /// The feed takes one step for each event.
    pub proof fn lemma_steps_len(self, events: Seq<InvoiceEventView>)
        ensures
            self.steps(events).len() == events.len(),
        decreases events.len(),
    {
        if events.len() > 0 {
            self.on_event_spec(events[0]).0.lemma_steps_len(events.drop_first());
        }
    }

    /// A feed that has stopped stays stopped, and is not listening.
    pub proof fn lemma_stopped_feed_stays_stopped(self, events: Seq<InvoiceEventView>)
        requires
            self.stopped,
            !self.is_active,
        ensures
            forall|i: int| 0 <= i < events.len() ==> self.steps(events)[i] == FeedStepView::Stop,
            self.after(events).stopped,
            !self.after(events).is_active,
        decreases events.len(),
    {
        if events.len() > 0 {
            let next = self.on_event_spec(events[0]).0;
            next.lemma_stopped_feed_stays_stopped(events.drop_first());
            self.lemma_steps_len(events);
            next.lemma_steps_len(events.drop_first());
            assert forall|i: int| 0 <= i < events.len() implies self.steps(events)[i]
                == FeedStepView::Stop by {
                if i > 0 {
                    assert(self.steps(events)[i] == next.steps(events.drop_first())[i - 1]);
                }
            }
        }
    }
}

impl Lnd {
    /// Whether the feed of paid invoices is listening.
    pub fn is_wait_invoice_active(&self) -> (active: bool)
        ensures
            active == self.wait_invoice.is_active,
    {
        self.wait_invoice.is_active
    }

    /// Asks the feed of paid invoices to stop. The feed stops at its next event;
    /// until then it still counts as listening. Asking again changes nothing.
    pub fn cancel_wait_invoice(&mut self)
        ensures
            final(self).wait_invoice == old(self).wait_invoice.cancel_spec(),
            final(self).fee_reserve == old(self).fee_reserve,
    {
        self.wait_invoice.cancel();
    }

    /// Begins a feed of paid invoices. Each feed is a subscription of its own: it
    /// takes nothing over from a feed before it, neither its cancellation nor
    /// its end.
    pub fn wait_any_invoice(&mut self)
        ensures
            final(self).wait_invoice == WaitInvoice::fresh(),
            final(self).fee_reserve == old(self).fee_reserve,
    {
        self.wait_invoice = WaitInvoice::new();
    }

    /// Marks the feed as listening, before its driver waits for the next event.
    /// Returns `false` if there is nothing to wait for, because the feed was
    /// cancelled or has stopped.
    pub fn wait_invoice_listen(&mut self) -> (listening: bool)
        ensures
            final(self).wait_invoice == old(self).wait_invoice.listen_spec(),
            listening == final(self).wait_invoice.is_active,
            final(self).fee_reserve == old(self).fee_reserve,
    {
        self.wait_invoice.listen()
    }

    /// One turn of the feed: takes in what its driver observed while waiting, and
    /// says what to hand on.
    pub fn wait_invoice_event(&mut self, event: &InvoiceEvent) -> (step: FeedStep)
        ensures
            (final(self).wait_invoice, step@) == old(self).wait_invoice.on_event_spec(event@),
            final(self).fee_reserve == old(self).fee_reserve,
    {
        self.wait_invoice.on_event(event)
    }
}

} // verus!
