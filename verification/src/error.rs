//! Errors of the settlement backend.

use vstd::prelude::*;

verus! {

/// Why an operation of the backend failed.
#[derive(Clone, Copy, Debug, PartialEq, Eq, Structural)]
pub enum Error {
    /// The node could not be reached, or refused the connection.
    Connection,
    /// A payment hash handed to a status query is not a hex string.
    InvalidHash,
    /// A payment request is not a valid BOLT11 invoice.
    InvalidInvoice,
    /// Neither the invoice nor the melt quote says how much to pay.
    UnknownInvoiceAmount,
    /// No exact conversion exists between the two currency units.
    CannotConvertUnits,
    /// An amount does not fit the integer type that has to carry it.
    AmountOverflow,
    /// A melt was attempted on an invoice that is already paid.
    InvoiceAlreadyPaid,
    /// A melt was attempted on an invoice with a payment in flight.
    InvoicePaymentPending,
    /// A candidate route has no hop to carry the multi-path record.
    MissingLastHop,
    /// No candidate route was offered, or every one failed for want of channel
    /// capacity.
    NoRoute,
    /// The node rejected a route query or a route attempt.
    Node,
    /// The node rejected a direct payment.
    PaymentFailed,
    /// The node refused to track a payment, for a reason other than not knowing it.
    UnknownPaymentState,
    /// The tracking stream broke or ended before a final state was seen.
    UnknownPaymentStatus,
    /// The node reported an invoice state outside the known ones.
    InvalidInvoiceState,
    /// An invoice was asked for whose expiry is not after the time of issue.
    InvoiceExpired,
    /// A reply was fed to a payment that was not waiting for it.
    UnexpectedReply,
}

} // verus!
