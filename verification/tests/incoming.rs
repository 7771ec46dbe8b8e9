use cdk_lnd::error::Error;
use cdk_lnd::incoming::{created_invoice, AddInvoiceRequest};
use cdk_lnd::lnd::Lnd;
use cdk_lnd::types::{CreateInvoiceResponse, FeeReserve, MintQuoteState};
use cdk_lnd::units::CurrencyUnit;

const COFFEE: &str = "lnbc2500u1pvjluezsp5zyg3zyg3zyg3zyg3zyg3zyg3zyg3zyg3zyg3zyg3zyg3zyg3zygspp5qqqsyqcyq5rqwzqfqqqsyqcyq5rqwzqfqqqsyqcyq5rqwzqfqypqdq5xysxxatsyp3k7enxv4jsxqzpu9qrsgquk0rl77nj30yxdy8j9vdx85fkpmdla2087ne0xh8nhedh8w27kyke0lp53ut353s06fv3qfegext0eh0ymjpf39tuven09sam30g4vgpfna3rh";

const HASH: &str = "0001020304050607080900010203040506070809000102030405060708090102";

fn hash_bytes() -> Vec<u8> {
    vec![
        0, 1, 2, 3, 4, 5, 6, 7, 8, 9, 0, 1, 2, 3, 4, 5, 6, 7, 8, 9, 0, 1, 2, 3, 4, 5, 6, 7, 8, 9,
        1, 2,
    ]
}

fn lnd() -> Lnd {
    Lnd::new(FeeReserve { min_fee_reserve: 1, fee_reserve_ppm: 20_000 })
}

#[test]
fn an_invoice_in_sats_is_asked_for_in_msats() {
    assert_eq!(
        lnd().create_invoice(21, CurrencyUnit::Sat, "coffee".to_string(), 2000, 1000),
        Ok(AddInvoiceRequest { value_msat: 21_000, memo: "coffee".to_string() })
    );
}

#[test]
fn an_invoice_in_msats_keeps_its_amount() {
    assert_eq!(
        lnd().create_invoice(21, CurrencyUnit::Msat, String::new(), 1001, 1000),
        Ok(AddInvoiceRequest { value_msat: 21, memo: String::new() })
    );
}

#[test]
fn an_invoice_has_to_expire_after_it_is_issued() {
    assert_eq!(
        lnd().create_invoice(21, CurrencyUnit::Sat, "late".to_string(), 1000, 1000),
        Err(Error::InvoiceExpired)
    );
    assert_eq!(
        lnd().create_invoice(21, CurrencyUnit::Sat, "late".to_string(), 999, 1000),
        Err(Error::InvoiceExpired)
    );
    assert_eq!(
        lnd().create_invoice(21, CurrencyUnit::Sat, "late".to_string(), 0, 0),
        Err(Error::InvoiceExpired)
    );
}

#[test]
fn the_expiry_is_judged_before_the_unit() {
    assert_eq!(
        lnd().create_invoice(21, CurrencyUnit::Usd, "late".to_string(), 5, 10),
        Err(Error::InvoiceExpired)
    );
}

#[test]
fn an_invoice_in_a_unit_without_conversion_is_refused() {
    assert_eq!(
        lnd().create_invoice(21, CurrencyUnit::Usd, "dollars".to_string(), 2000, 1000),
        Err(Error::CannotConvertUnits)
    );
    assert_eq!(
        lnd().create_invoice(21, CurrencyUnit::Eur, "euros".to_string(), 2000, 1000),
        Err(Error::CannotConvertUnits)
    );
}

#[test]
fn an_invoice_too_large_for_the_node_is_refused() {
    assert_eq!(
        lnd().create_invoice(u64::MAX, CurrencyUnit::Sat, "much".to_string(), 2000, 1000),
        Err(Error::AmountOverflow)
    );
    assert_eq!(
        lnd().create_invoice(u64::MAX, CurrencyUnit::Msat, "much".to_string(), 2000, 1000),
        Err(Error::AmountOverflow)
    );
    assert_eq!(
        lnd().create_invoice(i64::MAX as u64, CurrencyUnit::Msat, "most".to_string(), 2000, 1000),
        Ok(AddInvoiceRequest { value_msat: i64::MAX, memo: "most".to_string() })
    );
    assert_eq!(
        lnd().create_invoice(
            i64::MAX as u64 / 1000 + 1,
            CurrencyUnit::Sat,
            "much".to_string(),
            2000,
            1000
        ),
        Err(Error::AmountOverflow)
    );
}

#[test]
fn the_record_of_an_invoice_carries_its_hash_as_lookup_id() {
    assert_eq!(
        created_invoice("lnbc1...", &vec![0xde, 0xad, 0xbe, 0xef], 77),
        CreateInvoiceResponse {
            request_lookup_id: "deadbeef".to_string(),
            request: "lnbc1...".to_string(),
            expiry: Some(77),
        }
    );
}

#[test]
fn an_issued_invoice_is_recorded_under_its_payment_hash() {
    assert_eq!(
        lnd().invoice_created(COFFEE, 1_700_000_000),
        Ok(CreateInvoiceResponse {
            request_lookup_id: HASH.to_string(),
            request: COFFEE.to_string(),
            expiry: Some(1_700_000_000),
        })
    );
}

#[test]
fn what_is_no_invoice_is_not_recorded() {
    assert_eq!(lnd().invoice_created("", 5), Err(Error::InvalidInvoice));
    assert_eq!(lnd().invoice_created(HASH, 5), Err(Error::InvalidInvoice));
    assert_eq!(lnd().invoice_created(&COFFEE[..COFFEE.len() - 3], 5), Err(Error::InvalidInvoice));
}

#[test]
fn the_lookup_id_of_an_issued_invoice_leads_to_its_hash() {
    let lnd = lnd();
    let created = lnd.invoice_created(COFFEE, 1_700_000_000).unwrap();
    assert_eq!(lnd.lookup_invoice_hash(&created.request_lookup_id), Ok(hash_bytes()));
}

#[test]
fn a_lookup_id_that_is_not_hex_is_refused() {
    assert_eq!(lnd().lookup_invoice_hash("nothex"), Err(Error::InvalidHash));
    assert_eq!(lnd().lookup_invoice_hash("abc"), Err(Error::InvalidHash));
    assert_eq!(lnd().lookup_invoice_hash(COFFEE), Err(Error::InvalidHash));
}

#[test]
fn only_a_settled_invoice_is_paid() {
    let lnd = lnd();
    assert_eq!(lnd.check_incoming_invoice_status(0), Ok(MintQuoteState::Unpaid));
    assert_eq!(lnd.check_incoming_invoice_status(1), Ok(MintQuoteState::Paid));
    assert_eq!(lnd.check_incoming_invoice_status(2), Ok(MintQuoteState::Unpaid));
    assert_eq!(lnd.check_incoming_invoice_status(3), Ok(MintQuoteState::Unpaid));
}

#[test]
fn an_invoice_state_that_is_not_known_is_an_error() {
    let lnd = lnd();
    for state in [4, -1, 100, i32::MAX, i32::MIN] {
        assert_eq!(lnd.check_incoming_invoice_status(state), Err(Error::InvalidInvoiceState));
    }
}
