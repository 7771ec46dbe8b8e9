//! Invoices for mint quotes: issuing them, and asking whether they were paid.

use vstd::prelude::*;
use crate::error::Error;
use crate::hex;
use crate::invoice::{bolt11_payment_hash, bolt11_valid, parse_bolt11};
use crate::lnd::Lnd;
use crate::types::{
    result_view,
    CreateInvoiceResponse,
    CreateInvoiceResponseView,
    MintQuoteState,
};
use crate::units::{to_signed, to_signed_spec, to_unit, to_unit_spec, CurrencyUnit};

verus! {

/// The node's state codes for an invoice.
pub const INVOICE_OPEN: i32 = 0;

pub const INVOICE_SETTLED: i32 = 1;

pub const INVOICE_CANCELED: i32 = 2;

pub const INVOICE_ACCEPTED: i32 = 3;

/// The request by which the node issues an invoice.
#[derive(Clone, Debug, PartialEq, Eq)]
pub struct AddInvoiceRequest {
    /// The amount of the invoice, in millisatoshis.
    pub value_msat: i64,
    /// The description that the invoice carries.
    pub memo: String,
}

/// Mathematical value of an [`AddInvoiceRequest`].
pub struct AddInvoiceRequestView {
    pub value_msat: i64,
    pub memo: Seq<char>,
}

impl View for AddInvoiceRequest {
    type V = AddInvoiceRequestView;

    open spec fn view(&self) -> AddInvoiceRequestView {
        AddInvoiceRequestView { value_msat: self.value_msat, memo: self.memo@ }
    }
}

/// The request for an invoice over `amount` of `unit` with the given
/// description, wanted at `time_now` and to expire at `unix_expiry`.
///
/// The expiry has to lie after the time of issue, the unit has to convert to
/// millisatoshis, and the amount has to fit the node's signed integer. The
/// errors come in that order.
pub open spec fn create_invoice_spec(
    amount: u64,
    unit: CurrencyUnit,
    description: Seq<char>,
    unix_expiry: u64,
    time_now: u64,
) -> Result<AddInvoiceRequestView, Error> {
    if unix_expiry <= time_now {
        Err(Error::InvoiceExpired)
    } else {
        match to_unit_spec(amount, unit, CurrencyUnit::Msat) {
            Ok(msat) => match to_signed_spec(msat) {
                Ok(value_msat) => Ok(AddInvoiceRequestView { value_msat, memo: description }),
                Err(e) => Err(e),
            },
            Err(e) => Err(e),
        }
    }
}

/// The invoice `request` that the node issued, as the mint records it. Its
/// lookup id is its payment hash in hex.
pub open spec fn created_invoice_spec(request: Seq<char>, unix_expiry: u64) -> Result<
    CreateInvoiceResponseView,
    Error,
> {
    if bolt11_valid(request) {
        Ok(
            CreateInvoiceResponseView {
                request_lookup_id: hex::encoded(bolt11_payment_hash(request)),
                request,
                expiry: Some(unix_expiry),
            },
        )
    } else {
        Err(Error::InvalidInvoice)
    }
}

/// The payment hash to look an invoice up by, given its lookup id.
pub open spec fn lookup_hash_spec(request_lookup_id: Seq<char>) -> Result<Seq<u8>, Error> {
    if hex::is_hex(request_lookup_id) {
        Ok(hex::decoded(request_lookup_id))
    } else {
        Err(Error::InvalidHash)
    }
}

/// The state of a mint quote whose invoice the node reports in state `state`.
/// Only a settled invoice counts as paid; an open, a cancelled and an accepted
/// one are all unpaid.
pub open spec fn incoming_status_spec(state: i32) -> Result<MintQuoteState, Error> {
    if state == INVOICE_SETTLED {
        Ok(MintQuoteState::Paid)
    } else if state == INVOICE_OPEN || state == INVOICE_CANCELED || state == INVOICE_ACCEPTED {
        Ok(MintQuoteState::Unpaid)
    } else {
        Err(Error::InvalidInvoiceState)
    }
}

/// The record of an invoice that the node issued, given its payment hash.
pub fn created_invoice(payment_request: &str, payment_hash: &Vec<u8>, unix_expiry: u64) -> (r:
    CreateInvoiceResponse)
    ensures
        r@ == (CreateInvoiceResponseView {
            request_lookup_id: hex::encoded(payment_hash@),
            request: payment_request@,
            expiry: Some(unix_expiry),
        }),
{
    CreateInvoiceResponse {
        request_lookup_id: hex::encode(payment_hash),
        request: payment_request.to_owned(),
        expiry: Some(unix_expiry),
    }
}

impl Lnd {
    /// The request for an invoice over `amount` of `unit` with the given
    /// description, wanted at `time_now` and to expire at `unix_expiry`.
    ///
    /// Fails with [`Error::InvoiceExpired`] if the expiry is not after
    /// `time_now`, with [`Error::CannotConvertUnits`] if `unit` does not convert
    /// to millisatoshis, and with [`Error::AmountOverflow`] if the amount in
    /// millisatoshis exceeds what the node can take.
    pub fn create_invoice(
        &self,
        amount: u64,
        unit: CurrencyUnit,
        description: String,
        unix_expiry: u64,
        time_now: u64,
    ) -> (r: Result<AddInvoiceRequest, Error>)
        ensures
            result_view(r) == create_invoice_spec(amount, unit, description@, unix_expiry, time_now),
    {
        if unix_expiry <= time_now {
            return Err(Error::InvoiceExpired);
        }
        let msat: u64 = match to_unit(amount, unit, CurrencyUnit::Msat) {
            Ok(msat) => msat,
            Err(e) => {
                return Err(e);
            },
        };
        match to_signed(msat) {
            Ok(value_msat) => Ok(AddInvoiceRequest { value_msat, memo: description }),
            Err(e) => Err(e),
        }
    }

    /// Records the invoice that the node issued: reads `payment_request` and
    /// takes its payment hash as the lookup id.
    ///
    /// Fails with [`Error::InvalidInvoice`] if what the node returned is not a
    /// valid invoice.
    pub fn invoice_created(&self, payment_request: &str, unix_expiry: u64) -> (r: Result<
        CreateInvoiceResponse,
        Error,
    >)
        ensures
            result_view(r) == created_invoice_spec(payment_request@, unix_expiry),
    {
        match parse_bolt11(payment_request) {
            Some(invoice) => Ok(created_invoice(payment_request, &invoice.payment_hash, unix_expiry)),
            None => Err(Error::InvalidInvoice),
        }
    }

    /// The payment hash by which the node looks up the invoice with the given
    /// lookup id.
    ///
    /// Fails with [`Error::InvalidHash`] if the lookup id is not hex.
    pub fn lookup_invoice_hash(&self, request_lookup_id: &str) -> (r: Result<Vec<u8>, Error>)
        ensures
            result_view(r) == lookup_hash_spec(request_lookup_id@),
    {
        match hex::decode(request_lookup_id) {
            Some(r_hash) => Ok(r_hash),
            None => Err(Error::InvalidHash),
        }
    }

    /// The state of a mint quote, given the state in which the node reports its
    /// invoice.
    ///
    /// Fails with [`Error::InvalidInvoiceState`] if the node's state code is none
    /// of the four known ones.
    pub fn check_incoming_invoice_status(&self, invoice_state: i32) -> (r: Result<
        MintQuoteState,
        Error,
    >)
        ensures
            r == incoming_status_spec(invoice_state),
    {
        if invoice_state == INVOICE_SETTLED {
            Ok(MintQuoteState::Paid)
        } else if invoice_state == INVOICE_OPEN || invoice_state == INVOICE_CANCELED
            || invoice_state == INVOICE_ACCEPTED {
            Ok(MintQuoteState::Unpaid)
        } else {
            Err(Error::InvalidInvoiceState)
        }
    }
}

/// The lookup id of an issued invoice leads back to it: it is hex, and the hash
/// that it stands for is the invoice's own payment hash. So the request that
/// looks the invoice up by that id names the invoice just issued.
pub proof fn lemma_lookup_id_finds_invoice(payment_request: Seq<char>, unix_expiry: u64)
    ensures
        created_invoice_spec(payment_request, unix_expiry) matches Ok(created) ==> lookup_hash_spec(
            created.request_lookup_id,
        ) == Ok::<Seq<u8>, Error>(bolt11_payment_hash(payment_request)),
{
    hex::lemma_decode_encode(bolt11_payment_hash(payment_request));
}

} // verus!
