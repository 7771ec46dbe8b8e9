use cdk_lnd::error::Error;
use cdk_lnd::invoice::InvoiceInfo;
use cdk_lnd::lnd::Lnd;
use cdk_lnd::pay::{begin, Action, Payment, Phase, Reply};
use cdk_lnd::types::{FeeReserve, MeltQuote, MeltQuoteState, PayInvoiceResponse};
use cdk_lnd::units::CurrencyUnit;

const COFFEE: &str = "lnbc2500u1pvjluezsp5zyg3zyg3zyg3zyg3zyg3zyg3zyg3zyg3zyg3zyg3zyg3zyg3zygspp5qqqsyqcyq5rqwzqfqqqsyqcyq5rqwzqfqqqsyqcyq5rqwzqfqypqdq5xysxxatsyp3k7enxv4jsxqzpu9qrsgquk0rl77nj30yxdy8j9vdx85fkpmdla2087ne0xh8nhedh8w27kyke0lp53ut353s06fv3qfegext0eh0ymjpf39tuven09sam30g4vgpfna3rh";

const DONATION: &str = "lnbc1pvjluezsp5zyg3zyg3zyg3zyg3zyg3zyg3zyg3zyg3zyg3zyg3zyg3zyg3zygspp5qqqsyqcyq5rqwzqfqqqsyqcyq5rqwzqfqqqsyqcyq5rqwzqfqypqdpl2pkx2ctnv5sxxmmwwd5kgetjypeh2ursdae8g6twvus8g6rfwvs8qun0dfjkxaq9qrsgq357wnc5r2ueh7ck6q93dj32dlqnls087fxdwk8qakdyafkq3yap9us6v52vjjsrvywa6rt52cm9r9zqt8r2t7mlcwspyetp5h2tztugp9lfyql";

const HASH: &str = "0001020304050607080900010203040506070809000102030405060708090102";

const PAYEE: &str = "03e7156ae33b0a208d0744199163177e909e80176e55d97a2f221ede0f934dd9ad";

fn hash_bytes() -> Vec<u8> {
    vec![
        0, 1, 2, 3, 4, 5, 6, 7, 8, 9, 0, 1, 2, 3, 4, 5, 6, 7, 8, 9, 0, 1, 2, 3, 4, 5, 6, 7, 8, 9,
        1, 2,
    ]
}

fn lnd() -> Lnd {
    Lnd::new(FeeReserve { min_fee_reserve: 1, fee_reserve_ppm: 20_000 })
}

fn quote(request: &str, unit: CurrencyUnit, msat_to_pay: Option<u64>) -> MeltQuote {
    MeltQuote { id: "quote-1".to_string(), request: request.to_string(), unit, msat_to_pay }
}

fn invoice(amount_msat: Option<u64>) -> InvoiceInfo {
    InvoiceInfo {
        payment_hash: vec![0xaa, 0xbb],
        amount_msat,
        payment_secret: vec![0x5e, 0xc2],
        payee_pub_key: vec![0x02, 0x99],
    }
}

fn checked(
    amount_msat: Option<u64>,
    unit: CurrencyUnit,
    msat_to_pay: Option<u64>,
    partial_amount: Option<u64>,
    max_fee: Option<u64>,
) -> Payment {
    let (payment, action) =
        begin(quote("lnbc-any", unit, msat_to_pay), invoice(amount_msat), partial_amount, max_fee);
    assert_eq!(action, Action::CheckOutgoing { lookup_id: "aabb".to_string() });
    assert_eq!(payment.phase, Phase::Checking);
    payment
}

fn routing(routes: Vec<usize>) -> (Payment, Action) {
    let mut payment = checked(Some(100_000), CurrencyUnit::Sat, None, Some(40), Some(3));
    let action = payment.step(Reply::Outgoing(Ok(MeltQuoteState::Unpaid)));
    assert_eq!(
        action,
        Action::QueryRoutes { pub_key: "0299".to_string(), amt_msat: 40_000, fee_limit: Some(3) }
    );
    let action = payment.step(Reply::Routes(routes));
    (payment, action)
}

fn to_route(route: usize) -> Action {
    Action::SendToRoute {
        route,
        payment_hash: vec![0xaa, 0xbb],
        payment_addr: vec![0x5e, 0xc2],
        total_amt_msat: 100_000,
    }
}

fn attempt(status: i32, failure_code: Option<i32>, total_amt_msat: Option<i64>) -> Reply {
    Reply::Attempt { status, failure_code, preimage: vec![0x01, 0x02, 0x03], total_amt_msat }
}

fn failed(error: Error) -> Action {
    Action::Finish(Err(error))
}

fn outcome(
    payment_preimage: Option<&str>,
    status: MeltQuoteState,
    total_spent: u64,
) -> Action {
    Action::Finish(Ok(PayInvoiceResponse {
        payment_lookup_id: "aabb".to_string(),
        payment_preimage: payment_preimage.map(|p| p.to_string()),
        status,
        total_spent,
        unit: CurrencyUnit::Sat,
    }))
}

#[test]
fn a_payment_begins_by_asking_about_the_invoice() {
    let (payment, action) =
        lnd().pay_invoice(quote(COFFEE, CurrencyUnit::Sat, None), None, None).unwrap();
    assert_eq!(action, Action::CheckOutgoing { lookup_id: HASH.to_string() });
    assert_eq!(payment.phase, Phase::Checking);
    assert_eq!(payment.request, COFFEE);
    assert_eq!(payment.invoice.payment_hash, hash_bytes());
    assert_eq!(payment.invoice.amount_msat, Some(250_000_000));
    assert_eq!(payment.invoice.payment_secret, vec![0x11; 32]);
}

#[test]
fn what_is_no_invoice_is_not_paid() {
    assert_eq!(
        lnd().pay_invoice(quote("lnbc-nothing", CurrencyUnit::Sat, Some(5)), None, None),
        Err(Error::InvalidInvoice)
    );
    assert_eq!(
        lnd().pay_invoice(quote("", CurrencyUnit::Sat, Some(5)), Some(1), Some(1)),
        Err(Error::InvalidInvoice)
    );
}

#[test]
fn an_invoice_already_paid_is_not_paid_again() {
    for partial in [None, Some(40)] {
        let mut payment = checked(Some(100_000), CurrencyUnit::Sat, None, partial, Some(3));
        assert_eq!(
            payment.step(Reply::Outgoing(Ok(MeltQuoteState::Paid))),
            failed(Error::InvoiceAlreadyPaid)
        );
        assert_eq!(payment.phase, Phase::Done);
        assert_eq!(payment.step(Reply::Routes(vec![2])), failed(Error::UnexpectedReply));
        assert_eq!(
            payment.step(Reply::Outgoing(Ok(MeltQuoteState::Unpaid))),
            failed(Error::UnexpectedReply)
        );
        assert_eq!(payment.phase, Phase::Done);
    }
}

#[test]
fn an_invoice_already_paid_is_reported_before_a_missing_amount() {
    let mut payment = checked(None, CurrencyUnit::Sat, None, None, None);
    assert_eq!(
        payment.step(Reply::Outgoing(Ok(MeltQuoteState::Paid))),
        failed(Error::InvoiceAlreadyPaid)
    );
}

#[test]
fn an_invoice_with_a_payment_in_flight_is_left_alone() {
    let mut payment = checked(Some(100_000), CurrencyUnit::Sat, None, None, None);
    assert_eq!(
        payment.step(Reply::Outgoing(Ok(MeltQuoteState::Pending))),
        failed(Error::InvoicePaymentPending)
    );
    assert_eq!(payment.phase, Phase::Done);
}

#[test]
fn a_state_that_could_not_be_had_ends_the_payment() {
    for error in [
        Error::UnknownPaymentStatus,
        Error::UnknownPaymentState,
        Error::InvalidHash,
        Error::Connection,
    ] {
        let mut payment = checked(Some(100_000), CurrencyUnit::Sat, None, None, None);
        assert_eq!(payment.step(Reply::Outgoing(Err(error))), failed(error));
        assert_eq!(payment.phase, Phase::Done);
    }
}

#[test]
fn an_invoice_not_paid_before_is_paid_in_one_piece() {
    for state in [MeltQuoteState::Unpaid, MeltQuoteState::Unknown, MeltQuoteState::Failed] {
        let mut payment = checked(Some(100_000), CurrencyUnit::Sat, Some(7), None, Some(3));
        assert_eq!(
            payment.step(Reply::Outgoing(Ok(state))),
            Action::SendPayment {
                payment_request: "lnbc-any".to_string(),
                amt_msat: 100_000,
                fee_limit: Some(3),
            }
        );
        assert_eq!(payment.phase, Phase::Sending);
    }
}

#[test]
fn the_amount_of_the_quote_serves_where_the_invoice_names_none() {
    let mut payment = checked(None, CurrencyUnit::Sat, Some(7000), None, None);
    assert_eq!(
        payment.step(Reply::Outgoing(Ok(MeltQuoteState::Unpaid))),
        Action::SendPayment {
            payment_request: "lnbc-any".to_string(),
            amt_msat: 7000,
            fee_limit: None,
        }
    );
}

#[test]
fn without_any_amount_nothing_is_paid() {
    for partial in [None, Some(40)] {
        let mut payment = checked(None, CurrencyUnit::Sat, None, partial, None);
        assert_eq!(
            payment.step(Reply::Outgoing(Ok(MeltQuoteState::Unpaid))),
            failed(Error::UnknownInvoiceAmount)
        );
        assert_eq!(payment.phase, Phase::Done);
    }
}

#[test]
fn amounts_too_large_for_the_node_end_the_payment() {
    let mut payment = checked(Some(u64::MAX), CurrencyUnit::Sat, None, None, None);
    assert_eq!(
        payment.step(Reply::Outgoing(Ok(MeltQuoteState::Unpaid))),
        failed(Error::AmountOverflow)
    );
    let mut payment = checked(Some(1000), CurrencyUnit::Sat, None, None, Some(u64::MAX));
    assert_eq!(
        payment.step(Reply::Outgoing(Ok(MeltQuoteState::Unpaid))),
        failed(Error::AmountOverflow)
    );
    let mut payment = checked(Some(1000), CurrencyUnit::Sat, None, Some(u64::MAX), None);
    assert_eq!(
        payment.step(Reply::Outgoing(Ok(MeltQuoteState::Unpaid))),
        failed(Error::AmountOverflow)
    );
    let mut payment = checked(Some(1000), CurrencyUnit::Msat, None, Some(u64::MAX), None);
    assert_eq!(
        payment.step(Reply::Outgoing(Ok(MeltQuoteState::Unpaid))),
        failed(Error::AmountOverflow)
    );
}

#[test]
fn a_part_in_a_unit_without_conversion_ends_the_payment() {
    let mut payment = checked(Some(1000), CurrencyUnit::Usd, None, Some(1), None);
    assert_eq!(
        payment.step(Reply::Outgoing(Ok(MeltQuoteState::Unpaid))),
        failed(Error::CannotConvertUnits)
    );
    assert_eq!(payment.phase, Phase::Done);
}

#[test]
fn a_payment_in_one_piece_that_spent_something_is_paid() {
    let mut payment = checked(Some(100_000), CurrencyUnit::Sat, None, None, None);
    payment.step(Reply::Outgoing(Ok(MeltQuoteState::Unpaid)));
    let action = payment.step(Reply::Sent {
        payment_hash: vec![0xaa, 0xbb],
        payment_preimage: vec![0x0f, 0xf0],
        total_amt_msat: Some(101_999),
    });
    assert_eq!(action, outcome(Some("0ff0"), MeltQuoteState::Paid, 101));
    assert_eq!(payment.phase, Phase::Done);
}

#[test]
fn the_lookup_id_of_a_payment_in_one_piece_is_the_hash_the_node_reports() {
    let mut payment = checked(Some(100_000), CurrencyUnit::Sat, None, None, None);
    payment.step(Reply::Outgoing(Ok(MeltQuoteState::Unpaid)));
    let action = payment.step(Reply::Sent {
        payment_hash: vec![0x12, 0x34],
        payment_preimage: vec![0x0f, 0xf0],
        total_amt_msat: Some(5000),
    });
    assert_eq!(
        action,
        Action::Finish(Ok(PayInvoiceResponse {
            payment_lookup_id: "1234".to_string(),
            payment_preimage: Some("0ff0".to_string()),
            status: MeltQuoteState::Paid,
            total_spent: 5,
            unit: CurrencyUnit::Sat,
        }))
    );
}

#[test]
fn a_payment_in_one_piece_that_spent_nothing_is_unpaid() {
    for total in [None, Some(0), Some(999), Some(-5000)] {
        let mut payment = checked(Some(100_000), CurrencyUnit::Sat, None, None, None);
        payment.step(Reply::Outgoing(Ok(MeltQuoteState::Unpaid)));
        let action = payment.step(Reply::Sent {
            payment_hash: vec![0xaa, 0xbb],
            payment_preimage: vec![0x0f, 0xf0],
            total_amt_msat: total,
        });
        assert_eq!(action, outcome(None, MeltQuoteState::Unpaid, 0));
    }
}

#[test]
fn a_rejected_payment_in_one_piece_has_failed() {
    let mut payment = checked(Some(100_000), CurrencyUnit::Sat, None, None, Some(1));
    payment.step(Reply::Outgoing(Ok(MeltQuoteState::Unpaid)));
    assert_eq!(payment.step(Reply::Rejected), failed(Error::PaymentFailed));
    assert_eq!(payment.phase, Phase::Done);
}

#[test]
fn a_part_is_paid_along_a_route() {
    let (payment, action) = routing(vec![3, 2]);
    assert_eq!(action, to_route(0));
    assert_eq!(payment.phase, Phase::Routing);
    assert_eq!(payment.next, 0);
}

#[test]
fn the_part_is_converted_to_msats() {
    let mut payment = checked(Some(100_000), CurrencyUnit::Msat, None, Some(40), None);
    assert_eq!(
        payment.step(Reply::Outgoing(Ok(MeltQuoteState::Unknown))),
        Action::QueryRoutes { pub_key: "0299".to_string(), amt_msat: 40, fee_limit: None }
    );
    assert_eq!(payment.phase, Phase::Querying);
}

#[test]
fn a_route_that_succeeds_ends_the_payment() {
    let (mut payment, _) = routing(vec![3, 2]);
    assert_eq!(
        payment.step(attempt(1, None, Some(40_500))),
        outcome(Some("010203"), MeltQuoteState::Paid, 40)
    );
    assert_eq!(payment.phase, Phase::Done);
}

#[test]
fn a_route_that_fails_for_want_of_capacity_leads_to_the_next() {
    let (mut payment, first) = routing(vec![3, 2, 1]);
    assert_eq!(first, to_route(0));
    assert_eq!(payment.step(attempt(2, Some(15), Some(40_100))), to_route(1));
    assert_eq!(payment.phase, Phase::Routing);
    assert_eq!(
        payment.step(attempt(1, None, Some(41_999))),
        outcome(Some("010203"), MeltQuoteState::Paid, 41)
    );
    assert_eq!(payment.phase, Phase::Done);
}

#[test]
fn routes_are_tried_in_the_order_given() {
    let (mut payment, first) = routing(vec![1, 1, 1, 1]);
    assert_eq!(first, to_route(0));
    for route in 1..4usize {
        assert_eq!(payment.step(attempt(2, Some(15), None)), to_route(route));
        assert_eq!(payment.next, route);
    }
    assert_eq!(payment.step(attempt(2, Some(15), None)), failed(Error::NoRoute));
    assert_eq!(payment.phase, Phase::Done);
}

#[test]
fn a_route_that_fails_otherwise_ends_the_payment() {
    for code in [0, 1, 14, 16, -15] {
        let (mut payment, _) = routing(vec![3, 2]);
        assert_eq!(
            payment.step(attempt(2, Some(code), Some(40_500))),
            outcome(None, MeltQuoteState::Unpaid, 0)
        );
        assert_eq!(payment.phase, Phase::Done);
    }
}

#[test]
fn the_status_of_the_last_attempt_decides() {
    let (mut payment, _) = routing(vec![3]);
    assert_eq!(
        payment.step(attempt(0, None, Some(40_500))),
        outcome(None, MeltQuoteState::Pending, 0)
    );
    let (mut payment, _) = routing(vec![3]);
    assert_eq!(payment.step(attempt(2, None, None)), outcome(None, MeltQuoteState::Unpaid, 0));
    for status in [3, -1, 77] {
        let (mut payment, _) = routing(vec![3]);
        assert_eq!(
            payment.step(attempt(status, None, Some(1000))),
            outcome(None, MeltQuoteState::Unknown, 0)
        );
    }
}

#[test]
fn no_routes_is_no_route() {
    let (payment, action) = routing(Vec::new());
    assert_eq!(action, failed(Error::NoRoute));
    assert_eq!(payment.phase, Phase::Done);
}

#[test]
fn a_route_without_hops_ends_the_payment() {
    let (payment, action) = routing(vec![0, 2]);
    assert_eq!(action, failed(Error::MissingLastHop));
    assert_eq!(payment.phase, Phase::Done);
    let (mut payment, first) = routing(vec![2, 0, 2]);
    assert_eq!(first, to_route(0));
    assert_eq!(payment.step(attempt(2, Some(15), None)), failed(Error::MissingLastHop));
    assert_eq!(payment.phase, Phase::Done);
}

#[test]
fn a_rejected_route_query_ends_the_payment() {
    let mut payment = checked(Some(100_000), CurrencyUnit::Sat, None, Some(40), None);
    payment.step(Reply::Outgoing(Ok(MeltQuoteState::Unpaid)));
    assert_eq!(payment.step(Reply::Rejected), failed(Error::Node));
    assert_eq!(payment.phase, Phase::Done);
}

#[test]
fn a_rejected_attempt_ends_the_payment() {
    let (mut payment, _) = routing(vec![3, 2]);
    assert_eq!(payment.step(Reply::Rejected), failed(Error::Node));
    assert_eq!(payment.phase, Phase::Done);
}

#[test]
fn a_reply_not_asked_for_ends_the_payment() {
    let mut payment = checked(Some(100_000), CurrencyUnit::Sat, None, None, None);
    assert_eq!(payment.step(Reply::Rejected), failed(Error::UnexpectedReply));
    assert_eq!(payment.phase, Phase::Done);

    let mut payment = checked(Some(100_000), CurrencyUnit::Sat, None, None, None);
    payment.step(Reply::Outgoing(Ok(MeltQuoteState::Unpaid)));
    assert_eq!(payment.step(Reply::Routes(vec![1])), failed(Error::UnexpectedReply));

    let mut payment = checked(Some(100_000), CurrencyUnit::Sat, None, Some(1), None);
    payment.step(Reply::Outgoing(Ok(MeltQuoteState::Unpaid)));
    assert_eq!(payment.step(attempt(1, None, None)), failed(Error::UnexpectedReply));

    let (mut payment, _) = routing(vec![3, 2]);
    assert_eq!(
        payment.step(Reply::Outgoing(Ok(MeltQuoteState::Unpaid))),
        failed(Error::UnexpectedReply)
    );
    assert_eq!(payment.phase, Phase::Done);
}

#[test]
fn a_part_of_an_encoded_invoice_goes_to_its_payee_with_its_secret() {
    let (mut payment, _) =
        lnd().pay_invoice(quote(COFFEE, CurrencyUnit::Sat, None), Some(100_000), Some(9)).unwrap();
    assert_eq!(
        payment.step(Reply::Outgoing(Ok(MeltQuoteState::Unknown))),
        Action::QueryRoutes {
            pub_key: PAYEE.to_string(),
            amt_msat: 100_000_000,
            fee_limit: Some(9),
        }
    );
    assert_eq!(
        payment.step(Reply::Routes(vec![4])),
        Action::SendToRoute {
            route: 0,
            payment_hash: hash_bytes(),
            payment_addr: vec![0x11; 32],
            total_amt_msat: 250_000_000,
        }
    );
    assert_eq!(
        payment.step(attempt(1, None, Some(100_000_000))),
        Action::Finish(Ok(PayInvoiceResponse {
            payment_lookup_id: HASH.to_string(),
            payment_preimage: Some("010203".to_string()),
            status: MeltQuoteState::Paid,
            total_spent: 100_000,
            unit: CurrencyUnit::Sat,
        }))
    );
}

#[test]
fn an_encoded_invoice_without_amount_is_paid_with_the_amount_of_the_quote() {
    let (mut payment, action) =
        lnd().pay_invoice(quote(DONATION, CurrencyUnit::Sat, Some(21_000)), None, None).unwrap();
    assert_eq!(action, Action::CheckOutgoing { lookup_id: HASH.to_string() });
    assert_eq!(payment.invoice.amount_msat, None);
    assert_eq!(
        payment.step(Reply::Outgoing(Ok(MeltQuoteState::Unpaid))),
        Action::SendPayment {
            payment_request: DONATION.to_string(),
            amt_msat: 21_000,
            fee_limit: None,
        }
    );
}

#[test]
fn an_attempt_that_did_not_succeed_has_spent_nothing() {
    let (mut payment, _) = routing(vec![3]);
    assert_eq!(
        payment.step(attempt(2, Some(1), Some(5000))),
        outcome(None, MeltQuoteState::Unpaid, 0)
    );
    let (mut payment, _) = routing(vec![3]);
    assert_eq!(
        payment.step(attempt(1, None, Some(5000))),
        outcome(Some("010203"), MeltQuoteState::Paid, 5)
    );
    let (mut payment, _) = routing(vec![3]);
    assert_eq!(
        payment.step(attempt(1, None, None)),
        outcome(Some("010203"), MeltQuoteState::Paid, 0)
    );
    let (mut payment, _) = routing(vec![3]);
    assert_eq!(
        payment.step(attempt(1, None, Some(-5000))),
        outcome(Some("010203"), MeltQuoteState::Paid, 0)
    );
}

#[test]
fn every_outcome_is_consistent() {
    for status in -1..5 {
        for code in [None, Some(1), Some(14)] {
            for total in [None, Some(0), Some(999), Some(5000), Some(-5000), Some(i64::MAX)] {
                let (mut payment, _) = routing(vec![3]);
                if let Action::Finish(Ok(outcome)) = payment.step(attempt(status, code, total)) {
                    assert_eq!(
                        outcome.status == MeltQuoteState::Paid,
                        outcome.payment_preimage.is_some()
                    );
                    if outcome.status != MeltQuoteState::Paid {
                        assert_eq!(outcome.total_spent, 0);
                    }
                } else {
                    panic!("the attempt ends the payment");
                }
            }
        }
    }
    for total in [None, Some(0), Some(999), Some(5000), Some(-5000), Some(i64::MAX)] {
        let mut payment = checked(Some(100_000), CurrencyUnit::Sat, None, None, None);
        payment.step(Reply::Outgoing(Ok(MeltQuoteState::Unpaid)));
        let action = payment.step(Reply::Sent {
            payment_hash: vec![0xaa, 0xbb],
            payment_preimage: vec![0x0f, 0xf0],
            total_amt_msat: total,
        });
        if let Action::Finish(Ok(outcome)) = action {
            assert_eq!(
                outcome.status == MeltQuoteState::Paid,
                outcome.payment_preimage.is_some()
            );
            if outcome.status != MeltQuoteState::Paid {
                assert_eq!(outcome.total_spent, 0);
            }
        } else {
            panic!("the answer ends the payment");
        }
    }
}
