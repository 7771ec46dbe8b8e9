//! The fee reserve, and the quote for a payment.
//!
//! A quote is computed from the invoice and the fee policy alone. The node is
//! not asked.

use vstd::prelude::*;
use crate::error::Error;
use crate::hex;
use crate::invoice::{bolt11_info, bolt11_valid, parse_bolt11, InvoiceInfo, InvoiceInfoView};
use crate::lnd::Lnd;
use crate::types::{
    result_view,
    FeeReserve,
    MeltQuoteBolt11Request,
    MeltQuoteState,
    PaymentQuoteResponse,
    PaymentQuoteResponseView,
};
use crate::units::MSAT_IN_SAT;

verus! {

/// The whole that the fee policy's share is a part of.
pub const PARTS_PER_MILLION: u64 = 1_000_000;

impl FeeReserve {
    /// The policy's share of `amount`, rounded down.
    pub open spec fn relative_fee(self, amount: u64) -> nat {
        (amount as nat * self.fee_reserve_ppm as nat) / (PARTS_PER_MILLION as nat)
    }

    /// The fee to hold in reserve for `amount`: the policy's share of it or the
    /// policy's minimum, whichever is greater. A share that exceeds `u64` counts
    /// as `u64::MAX`.
    pub open spec fn fee(self, amount: u64) -> u64 {
        let relative = self.relative_fee(amount);
        let capped = if relative > u64::MAX {
            u64::MAX
        } else {
            relative as u64
        };
        if capped > self.min_fee_reserve {
            capped
        } else {
            self.min_fee_reserve
        }
    }

    /// Computes the fee to hold in reserve for `amount`.
    pub fn reserve(&self, amount: u64) -> (fee: u64)
        ensures
            fee == self.fee(amount),
    {
        assert(amount as nat * self.fee_reserve_ppm as nat <= u64::MAX as nat * u64::MAX as nat)
            by (nonlinear_arith);
        let product: u128 = (amount as u128) * (self.fee_reserve_ppm as u128);
        let relative: u128 = product / (PARTS_PER_MILLION as u128);
        let capped: u64 = if relative > u64::MAX as u128 {
            u64::MAX
        } else {
            relative as u64
        };
        if capped > self.min_fee_reserve {
            capped
        } else {
            self.min_fee_reserve
        }
    }

    /// A greater amount never has a smaller fee.
    pub proof fn lemma_fee_monotonic(self, a1: u64, a2: u64)
        requires
            a1 <= a2,
        ensures
            self.fee(a1) <= self.fee(a2),
    {
        assert(a1 as nat * self.fee_reserve_ppm as nat <= a2 as nat * self.fee_reserve_ppm as nat)
            by (nonlinear_arith)
            requires
                a1 <= a2,
        ;
    }

    /// The fee is never below the policy's minimum, and equals the policy's share
    /// of the amount wherever that share is at least the minimum and fits `u64`.
    pub proof fn lemma_fee_bounds(self, amount: u64)
        ensures
            self.fee(amount) >= self.min_fee_reserve,
            self.min_fee_reserve <= self.relative_fee(amount) <= u64::MAX ==> self.fee(amount)
                == self.relative_fee(amount),
    {
    }
}

/// The quote for paying `invoice` under `policy`.
///
/// The amount is that of the invoice in whole satoshis. An invoice that names no
/// amount cannot be quoted.
pub open spec fn quote_spec(policy: FeeReserve, invoice: InvoiceInfoView) -> Result<
    PaymentQuoteResponseView,
    Error,
> {
    match invoice.amount_msat {
        None => Err(Error::UnknownInvoiceAmount),
        Some(msat) => Ok(
            PaymentQuoteResponseView {
                request_lookup_id: hex::encoded(invoice.payment_hash),
                amount: msat / MSAT_IN_SAT,
                fee: policy.fee(msat / MSAT_IN_SAT),
                state: MeltQuoteState::Unpaid,
            },
        ),
    }
}

/// Quotes the payment of an invoice that has been read already.
pub fn quote_invoice(policy: &FeeReserve, invoice: &InvoiceInfo) -> (r: Result<
    PaymentQuoteResponse,
    Error,
>)
    ensures
        result_view(r) == quote_spec(*policy, invoice@),
{
    match invoice.amount_msat {
        None => Err(Error::UnknownInvoiceAmount),
        Some(msat) => {
            let amount: u64 = msat / MSAT_IN_SAT;
            Ok(
                PaymentQuoteResponse {
                    request_lookup_id: hex::encode(&invoice.payment_hash),
                    amount,
                    fee: policy.reserve(amount),
                    state: MeltQuoteState::Unpaid,
                },
            )
        },
    }
}

impl Lnd {
    /// Quotes a melt request: the amount of its invoice, and the fee to hold in
    /// reserve for it.
    ///
    /// Fails with [`Error::InvalidInvoice`] if the request is not a valid invoice,
    /// and with [`Error::UnknownInvoiceAmount`] if the invoice names no amount.
    pub fn get_payment_quote(&self, melt_quote_request: &MeltQuoteBolt11Request) -> (r: Result<
        PaymentQuoteResponse,
        Error,
    >)
        ensures
            result_view(r) == if bolt11_valid(melt_quote_request.request@) {
                quote_spec(self.fee_reserve, bolt11_info(melt_quote_request.request@))
            } else {
                Err(Error::InvalidInvoice)
            },
    {
        match parse_bolt11(melt_quote_request.request.as_str()) {
            Some(invoice) => quote_invoice(&self.fee_reserve, &invoice),
            None => Err(Error::InvalidInvoice),
        }
    }
}

} // verus!
