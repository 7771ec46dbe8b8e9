//! The values that the backend exchanges with the mint.

use vstd::prelude::*;
use crate::error::Error;
use crate::units::CurrencyUnit;

verus! {

/// The mathematical value of a result: that of what it holds on success, the
/// error itself on failure.
pub open spec fn result_view<T: View>(r: Result<T, Error>) -> Result<T::V, Error> {
    match r {
        Ok(v) => Ok(v@),
        Err(e) => Err(e),
    }
}

/// Policy for the fee that a melt quote holds in reserve: a share of the amount,
/// and never less than a fixed minimum.
#[derive(Clone, Copy, Debug, PartialEq, Eq, Structural)]
pub struct FeeReserve {
    /// The least fee to reserve, in satoshis.
    pub min_fee_reserve: u64,
    /// The share of the amount to reserve, in parts per million.
    pub fee_reserve_ppm: u64,
}

/// State of a melt quote, and of the outgoing payment behind it.
#[derive(Clone, Copy, Debug, PartialEq, Eq, Structural, Hash)]
pub enum MeltQuoteState {
    /// Nothing was paid.
    Unpaid,
    /// A payment is in flight.
    Pending,
    /// The payment settled.
    Paid,
    /// The state could not be determined.
    Unknown,
    /// The payment failed for good.
    Failed,
}

/// State of a mint quote, and of the invoice behind it.
#[derive(Clone, Copy, Debug, PartialEq, Eq, Structural, Hash)]
pub enum MintQuoteState {
    /// The invoice was not paid.
    Unpaid,
    /// The invoice was paid, and no ecash issued for it yet.
    Paid,
    /// Minting is in progress.
    Pending,
    /// Ecash was issued for the invoice.
    Issued,
}

/// What a backend can do.
#[derive(Clone, Copy, Debug, PartialEq, Eq, Structural)]
pub struct Settings {
    /// Whether multi-path payments are supported.
    pub mpp: bool,
    /// The unit that the backend settles in.
    pub unit: CurrencyUnit,
    /// Whether invoices can carry a description.
    pub invoice_description: bool,
}

/// A melt request, as the mint hands it over for a quote.
#[derive(Clone, Debug, PartialEq, Eq)]
pub struct MeltQuoteBolt11Request {
    /// The encoded BOLT11 invoice to pay.
    pub request: String,
    /// The unit that the wallet wants to pay in.
    pub unit: CurrencyUnit,
}

/// A melt quote, as the mint hands it over for payment.
#[derive(Clone, Debug, PartialEq, Eq)]
pub struct MeltQuote {
    /// Identifier of the quote.
    pub id: String,
    /// The encoded BOLT11 invoice to pay.
    pub request: String,
    /// The unit of the quote.
    pub unit: CurrencyUnit,
    /// The amount to pay in millisatoshis, for an invoice that names none.
    pub msat_to_pay: Option<u64>,
}

/// The estimated cost of settling a melt request.
#[derive(Clone, Debug, PartialEq, Eq)]
pub struct PaymentQuoteResponse {
    /// Identifier by which the payment can be looked up: the payment hash in hex.
    pub request_lookup_id: String,
    /// The amount to pay, in satoshis.
    pub amount: u64,
    /// The fee to hold in reserve, in satoshis.
    pub fee: u64,
    /// State of the quote.
    pub state: MeltQuoteState,
}

/// Mathematical value of a [`PaymentQuoteResponse`].
pub struct PaymentQuoteResponseView {
    pub request_lookup_id: Seq<char>,
    pub amount: u64,
    pub fee: u64,
    pub state: MeltQuoteState,
}

impl View for PaymentQuoteResponse {
    type V = PaymentQuoteResponseView;

    open spec fn view(&self) -> PaymentQuoteResponseView {
        PaymentQuoteResponseView {
            request_lookup_id: self.request_lookup_id@,
            amount: self.amount,
            fee: self.fee,
            state: self.state,
        }
    }
}

/// An invoice that the node issued for a mint quote.
#[derive(Clone, Debug, PartialEq, Eq)]
pub struct CreateInvoiceResponse {
    /// Identifier by which the invoice can be looked up: its payment hash in hex.
    pub request_lookup_id: String,
    /// The encoded BOLT11 invoice.
    pub request: String,
    /// Unix time at which the invoice expires.
    pub expiry: Option<u64>,
}

/// Mathematical value of a [`CreateInvoiceResponse`].
pub struct CreateInvoiceResponseView {
    pub request_lookup_id: Seq<char>,
    pub request: Seq<char>,
    pub expiry: Option<u64>,
}

impl View for CreateInvoiceResponse {
    type V = CreateInvoiceResponseView;

    open spec fn view(&self) -> CreateInvoiceResponseView {
        CreateInvoiceResponseView {
            request_lookup_id: self.request_lookup_id@,
            request: self.request@,
            expiry: self.expiry,
        }
    }
}

/// What is known of an outgoing payment.
#[derive(Clone, Debug, PartialEq, Eq)]
pub struct PayInvoiceResponse {
    /// Identifier by which the payment can be looked up: the payment hash in hex.
    pub payment_lookup_id: String,
    /// The preimage that proves settlement, in hex.
    pub payment_preimage: Option<String>,
    /// State of the payment.
    pub status: MeltQuoteState,
    /// The amount that left the node, fees included.
    pub total_spent: u64,
    /// The unit of `total_spent`.
    pub unit: CurrencyUnit,
}

/// Mathematical value of a [`PayInvoiceResponse`].
pub struct PayInvoiceResponseView {
    pub payment_lookup_id: Seq<char>,
    pub payment_preimage: Option<Seq<char>>,
    pub status: MeltQuoteState,
    pub total_spent: u64,
    pub unit: CurrencyUnit,
}

impl View for PayInvoiceResponse {
    type V = PayInvoiceResponseView;

    open spec fn view(&self) -> PayInvoiceResponseView {
        PayInvoiceResponseView {
            payment_lookup_id: self.payment_lookup_id@,
            payment_preimage: match self.payment_preimage {
                Some(p) => Some(p@),
                None => None,
            },
            status: self.status,
            total_spent: self.total_spent,
            unit: self.unit,
        }
    }
}

impl PayInvoiceResponseView {
    /// A preimage is reported for a settled payment, and for no other.
    pub open spec fn preimage_iff_paid(self) -> bool {
        self.status is Paid <==> self.payment_preimage is Some
    }

    /// Nothing counts as spent unless the payment settled.
    pub open spec fn spent_only_if_paid(self) -> bool {
        !(self.status is Paid) ==> self.total_spent == 0
    }

    /// Both of the above.
    pub open spec fn consistent(self) -> bool {
        self.preimage_iff_paid() && self.spent_only_if_paid()
    }
}

} // verus!
