//! The backend for an LND node.

use vstd::prelude::*;
use crate::types::{FeeReserve, Settings};
use crate::units::CurrencyUnit;
use crate::wait_invoice::WaitInvoice;

verus! {

/// Settlement backend for an LND node: its fee policy, and the state of its feed
/// of paid invoices.
///
/// The methods of this type are spread over the modules of the crate, one module
/// for each operation.
#[derive(Clone, Copy, Debug, PartialEq, Eq, Structural)]
pub struct Lnd {
    /// Policy for the fee reserve of melt quotes. It never changes.
    pub fee_reserve: FeeReserve,
    /// The feed of paid invoices.
    pub wait_invoice: WaitInvoice,
}

impl Lnd {
    /// A backend with the given fee policy, whose feed has not started.
    pub fn new(fee_reserve: FeeReserve) -> (lnd: Lnd)
        ensures
            lnd.fee_reserve == fee_reserve,
            lnd.wait_invoice == WaitInvoice::fresh(),
    {
        Lnd { fee_reserve, wait_invoice: WaitInvoice::new() }
    }

    /// What this backend can do: multi-path payments and invoice descriptions, in
    /// millisatoshis.
    pub fn get_settings(&self) -> (settings: Settings)
        ensures
            settings == (Settings { mpp: true, unit: CurrencyUnit::Msat, invoice_description: true }),
    {
        Settings { mpp: true, unit: CurrencyUnit::Msat, invoice_description: true }
    }
}

} // verus!
