//! BOLT11 invoices, as far as settlement reads them.

use vstd::prelude::*;

verus! {

/// What the backend reads from a BOLT11 invoice.
#[derive(Clone, Debug, PartialEq, Eq)]
pub struct InvoiceInfo {
    /// Hash whose preimage settles the payment.
    pub payment_hash: Vec<u8>,
    /// The amount asked for in millisatoshis, if the invoice names one.
    pub amount_msat: Option<u64>,
    /// Secret that each part of a multi-path payment has to present.
    pub payment_secret: Vec<u8>,
    /// Public key of the node to pay, in compressed form.
    pub payee_pub_key: Vec<u8>,
}

/// Mathematical value of an [`InvoiceInfo`].
pub struct InvoiceInfoView {
    pub payment_hash: Seq<u8>,
    pub amount_msat: Option<u64>,
    pub payment_secret: Seq<u8>,
    pub payee_pub_key: Seq<u8>,
}

impl View for InvoiceInfo {
    type V = InvoiceInfoView;

    open spec fn view(&self) -> InvoiceInfoView {
        InvoiceInfoView {
            payment_hash: self.payment_hash@,
            amount_msat: self.amount_msat,
            payment_secret: self.payment_secret@,
            payee_pub_key: self.payee_pub_key@,
        }
    }
}

/// Whether `request` is a BOLT11 invoice that `lightning_invoice` accepts: well
/// formed, with the fields that the format demands, and correctly signed.
pub uninterp spec fn bolt11_valid(request: Seq<char>) -> bool;

/// The payment hash of the invoice `request`.
pub uninterp spec fn bolt11_payment_hash(request: Seq<char>) -> Seq<u8>;

/// The amount of the invoice `request` in millisatoshis, if it names one.
pub uninterp spec fn bolt11_amount_msat(request: Seq<char>) -> Option<u64>;

/// The payment secret of the invoice `request`.
pub uninterp spec fn bolt11_payment_secret(request: Seq<char>) -> Seq<u8>;

/// The payee's public key of the invoice `request`, named in it or recovered from
/// its signature, in compressed form.
pub uninterp spec fn bolt11_payee_pub_key(request: Seq<char>) -> Seq<u8>;

/// What a valid invoice `request` says.
pub open spec fn bolt11_info(request: Seq<char>) -> InvoiceInfoView {
    InvoiceInfoView {
        payment_hash: bolt11_payment_hash(request),
        amount_msat: bolt11_amount_msat(request),
        payment_secret: bolt11_payment_secret(request),
        payee_pub_key: bolt11_payee_pub_key(request),
    }
}

/// Parses `request` with `lightning_invoice::Bolt11Invoice::from_str` and reads
/// the invoice with `payment_hash`, `amount_milli_satoshis`, `payment_secret` and
/// `get_payee_pub_key`.
///
/// Trusted: that parsing succeeds exactly on the strings named valid above, and
/// that the four values read are those named above. Both are functions of the
/// string alone. Nothing is claimed about what they are.
#[verifier::external_body]
pub(crate) fn parse_bolt11(request: &str) -> (r: Option<InvoiceInfo>)
    ensures
        r is Some <==> bolt11_valid(request@),
        r matches Some(info) ==> {
            &&& info.payment_hash@ == bolt11_payment_hash(request@)
            &&& info.amount_msat == bolt11_amount_msat(request@)
            &&& info.payment_secret@ == bolt11_payment_secret(request@)
            &&& info.payee_pub_key@ == bolt11_payee_pub_key(request@)
        },
{
    match request.parse::<lightning_invoice::Bolt11Invoice>() {
        Ok(invoice) => Some(
            InvoiceInfo {
                payment_hash: invoice.payment_hash()[..].to_vec(),
                amount_msat: invoice.amount_milli_satoshis(),
                payment_secret: invoice.payment_secret().0.to_vec(),
                payee_pub_key: invoice.get_payee_pub_key().serialize().to_vec(),
            },
        ),
        Err(_) => None,
    }
}

} // verus!
