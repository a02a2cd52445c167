use std::collections::HashMap;

use clawhire::clock::Timestamp;
use clawhire::payments::{
    FetchedTransaction, InvoiceGenerator, InvoiceStatus, InvoiceStore, PaymentCheck, PaymentEngine, PaymentError,
    PaymentMonitor, PaymentQuote, PaymentStatus, PricingConfig, ServicePricing, SolanaPaymentProvider,
    AMOUNT_TOLERANCE_LAMPORTS,
};
use clawhire::runtime::{App, EventType, Invoice, Job, JobStatus, ServiceType};

const WALLET: &str = "11111111111111111111111111111111";
const OTHER_WALLET: &str = "TokenkegQfeZyiNwAJbNbGKPFXCWuBvf9Ss623VQ5DA";
const SIGNATURE: &str = "1111111111111111111111111111111111111111111111111111111111111111";
const FAR_FUTURE: i64 = 4_000_000_000;
const NOW: Timestamp = Timestamp { secs: 1_800_000_000, nanos: 5 };

fn paid(slot: u64, amount: u64) -> FetchedTransaction {
    FetchedTransaction { slot, has_meta: true, failed: false, balance_before: 1_000, balance_after: 1_000 + amount }
}

fn pricing() -> PricingConfig {
    PricingConfig {
        smart_contract_review: ServicePricing { enabled: true, price: 200_000_000, currency: "SOL".to_string() },
        onchain_intelligence: ServicePricing { enabled: true, price: 100_000_000, currency: "SOL".to_string() },
    }
}

fn engine() -> PaymentEngine {
    PaymentEngine::new(WALLET, pricing(), 15).unwrap()
}

fn is_uuid(s: &str) -> bool {
    s.len() == 36
        && s.chars().enumerate().all(|(i, c)| {
            if i == 8 || i == 13 || i == 18 || i == 23 {
                c == '-'
            } else {
                c.is_ascii_digit() || ('a'..='f').contains(&c)
            }
        })
        && s.as_bytes()[14] == b'4'
        && matches!(s.as_bytes()[19], b'8' | b'9' | b'a' | b'b')
}

fn invoice(id: &str, status: &str, expires: i64) -> Invoice {
    Invoice {
        invoice_id: id.to_string(),
        wallet: WALLET.to_string(),
        amount: 100_000_000,
        currency: "SOL".to_string(),
        status: status.to_string(),
        created_at: Timestamp { secs: 1_700_000_000, nanos: 0 },
        expires_at: Timestamp { secs: expires, nanos: 0 },
        signature: None,
    }
}

fn job(id: &str, status: JobStatus, invoice_id: Option<&str>) -> Job {
    Job {
        id: id.to_string(),
        status,
        service: ServiceType::OnChainIntelligence,
        created_at: Timestamp { secs: 1_700_000_000, nanos: 0 },
        updated_at: Timestamp { secs: 1_700_000_000, nanos: 0 },
        input_source: WALLET.to_string(),
        invoice_id: invoice_id.map(|s| s.to_string()),
        report_id: None,
        metadata: HashMap::new(),
    }
}

fn quote_for(wallet: &str, amount: u64) -> PaymentQuote {
    PaymentQuote {
        job_id: "j".to_string(),
        service: ServiceType::OnChainIntelligence,
        amount,
        currency: "SOL".to_string(),
        wallet_address: wallet.to_string(),
        invoice_reference: "inv".to_string(),
        expires_at: Timestamp { secs: FAR_FUTURE, nanos: 0 },
    }
}

#[test]
fn invoice_statuses_are_written_by_name() {
    let all = [
        (InvoiceStatus::Created, "Created"),
        (InvoiceStatus::AwaitingPayment, "AwaitingPayment"),
        (InvoiceStatus::PendingConfirmation, "PendingConfirmation"),
        (InvoiceStatus::Confirmed, "Confirmed"),
        (InvoiceStatus::Expired, "Expired"),
        (InvoiceStatus::Failed, "Failed"),
        (InvoiceStatus::Cancelled, "Cancelled"),
    ];
    for (s, t) in all {
        assert_eq!(s.to_string(), t);
    }
}

#[test]
fn invoice_numbers_have_the_documented_shape() {
    assert_eq!(
        InvoiceGenerator::compose_invoice_number("20260724", "abcd12ef-0000-4000-8000-000000000000"),
        "CHR-20260724-ABCD12"
    );
    assert_eq!(
        InvoiceGenerator::compose_invoice_number("20250101", "01234f67-89ab-4cde-8f01-23456789abcd"),
        "CHR-20250101-01234F"
    );
    let n = InvoiceGenerator::generate_invoice_number();
    assert!(n.starts_with("CHR-"), "{}", n);
    assert_eq!(n.len(), "CHR-".len() + 8 + 1 + 6);
    let tail = &n[13..];
    assert!(tail.chars().all(|c| c.is_ascii_digit() || ('A'..='F').contains(&c)), "{}", n);
    assert!(is_uuid(&InvoiceGenerator::generate_reference()));
}

#[test]
fn provider_refuses_an_invalid_merchant_wallet() {
    match SolanaPaymentProvider::new("not-a-wallet", pricing(), 15) {
        Err(PaymentError::WalletError(m)) => assert_eq!(m, "Invalid merchant wallet address"),
        _ => panic!("expected a wallet error"),
    }
    assert!(matches!(PaymentEngine::new("", pricing(), 15), Err(PaymentError::WalletError(_))));
    let p = SolanaPaymentProvider::new(OTHER_WALLET, pricing(), 15).unwrap();
    assert_eq!(p.merchant_wallet, OTHER_WALLET);
}

#[test]
fn amounts_match_within_the_tolerance() {
    let p = SolanaPaymentProvider::new(WALLET, pricing(), 15).unwrap();
    assert_eq!(AMOUNT_TOLERANCE_LAMPORTS, 100);
    assert!(p.validate_amount(1_000, 1_000).is_ok());
    assert!(p.validate_amount(1_000, 1_100).is_ok());
    assert!(p.validate_amount(1_100, 1_000).is_ok());
    match p.validate_amount(1_000, 1_101) {
        Err(PaymentError::AmountMismatch { expected, found }) => {
            assert_eq!(expected, 1_000);
            assert_eq!(found, 1_101);
        }
        _ => panic!("expected an amount mismatch"),
    }
    assert!(p.validate_amount(0, u64::MAX).is_err());
}

#[test]
fn receivers_must_match() {
    let p = SolanaPaymentProvider::new(WALLET, pricing(), 15).unwrap();
    assert!(p.validate_receiver(WALLET, WALLET).is_ok());
    match p.validate_receiver(WALLET, OTHER_WALLET) {
        Err(PaymentError::ReceiverMismatch { expected, found }) => {
            assert_eq!(expected, WALLET);
            assert_eq!(found, OTHER_WALLET);
        }
        _ => panic!("expected a receiver mismatch"),
    }
}

#[test]
fn quotes_carry_the_service_price_and_the_configured_expiry() {
    let p = SolanaPaymentProvider::new(WALLET, pricing(), 15).unwrap();
    let q = p.create_quote("job-1", ServiceType::SmartContractReview, NOW);
    assert_eq!(q.job_id, "job-1");
    assert_eq!(q.amount, 200_000_000);
    assert_eq!(q.currency, "SOL");
    assert_eq!(q.wallet_address, WALLET);
    assert!(is_uuid(&q.invoice_reference));
    assert_eq!(q.expires_at, Timestamp { secs: NOW.secs + 900, nanos: 5 });
    assert_eq!(p.create_quote("j", ServiceType::OnChainIntelligence, NOW).amount, 100_000_000);
    let longer = SolanaPaymentProvider::new(WALLET, pricing(), 60).unwrap();
    assert_eq!(longer.create_quote("j", ServiceType::OnChainIntelligence, NOW).expires_at.secs, NOW.secs + 3600);
}

#[test]
fn watching_detects_a_recent_success_or_expiry() {
    let now = Timestamp { secs: 1000, nanos: 0 };
    let later = Timestamp { secs: 2000, nanos: 0 };
    let earlier = Timestamp { secs: 500, nanos: 0 };
    assert_eq!(SolanaPaymentProvider::watch_outcome(&vec![true, false], now, later), PaymentStatus::Detected);
    assert_eq!(SolanaPaymentProvider::watch_outcome(&vec![true, true], now, later), PaymentStatus::Unknown);
    assert_eq!(SolanaPaymentProvider::watch_outcome(&vec![], now, earlier), PaymentStatus::Expired);
    assert_eq!(SolanaPaymentProvider::watch_outcome(&vec![true; 5], now, earlier), PaymentStatus::Expired);
    let sixth_only = vec![true, true, true, true, true, false];
    assert_eq!(SolanaPaymentProvider::watch_outcome(&sixth_only, now, later), PaymentStatus::Unknown);
    assert_eq!(SolanaPaymentProvider::watch_outcome(&vec![], now, now), PaymentStatus::Unknown);
    let p = SolanaPaymentProvider::new(WALLET, pricing(), 15).unwrap();
    assert_eq!(p.watch(&quote_for(WALLET, 5), &vec![false], NOW), PaymentStatus::Detected);
    assert_eq!(p.watch(&quote_for(WALLET, 5), &vec![true], NOW), PaymentStatus::Unknown);
    let past = Timestamp { secs: FAR_FUTURE + 1, nanos: 0 };
    assert_eq!(p.watch(&quote_for(WALLET, 5), &vec![true], past), PaymentStatus::Expired);
}

#[test]
fn signatures_are_checked_before_lookup() {
    let p = SolanaPaymentProvider::new(WALLET, pricing(), 15).unwrap();
    assert!(p.check_signature(SIGNATURE).is_ok());
    match p.check_signature("xyz") {
        Err(PaymentError::PaymentVerificationError(m)) => assert_eq!(m, "Invalid transaction signature"),
        _ => panic!("expected a verification error"),
    }
}

#[test]
fn verification_checks_metadata_failure_and_receiver() {
    let p = SolanaPaymentProvider::new(WALLET, pricing(), 15).unwrap();
    let q = quote_for(WALLET, 42);
    let ok = paid(77, 42);
    let rc = p.verify(&q, SIGNATURE, &ok).unwrap();
    assert!(is_uuid(&rc.receipt_id));
    assert_eq!(rc.invoice_id, "inv");
    assert_eq!(rc.signature, SIGNATURE);
    assert_eq!(rc.amount, 42);
    assert_eq!(rc.sender, "Unknown_Sender");
    assert_eq!(rc.receiver, WALLET);
    assert_eq!(rc.slot, 77);
    assert_eq!(rc.confirmation_status, "Confirmed");
    match p.verify(&q, "not-a-signature", &ok) {
        Err(PaymentError::PaymentVerificationError(m)) => assert_eq!(m, "Invalid transaction signature"),
        _ => panic!("expected an invalid signature"),
    }
    match p.verify(&q, SIGNATURE, &FetchedTransaction { has_meta: false, ..ok }) {
        Err(PaymentError::PaymentVerificationError(m)) => assert_eq!(m, "Transaction metadata missing"),
        _ => panic!("expected missing metadata"),
    }
    match p.verify(&q, SIGNATURE, &FetchedTransaction { failed: true, ..ok }) {
        Err(PaymentError::PaymentVerificationError(m)) => assert_eq!(m, "Transaction failed on-chain"),
        _ => panic!("expected an on-chain failure"),
    }
    assert_eq!(p.verify(&q, SIGNATURE, &paid(1, 142)).unwrap().amount, 142);
    match p.verify(&q, SIGNATURE, &paid(1, 143)) {
        Err(PaymentError::AmountMismatch { expected, found }) => {
            assert_eq!(expected, 42);
            assert_eq!(found, 143);
        }
        _ => panic!("expected an amount mismatch"),
    }
    let refund = FetchedTransaction { balance_before: 500, balance_after: 100, ..ok };
    assert_eq!(refund.amount_received(), 0);
    assert!(p.verify(&q, SIGNATURE, &refund).is_ok());
    let big = quote_for(WALLET, 1_000);
    assert!(matches!(p.verify(&big, SIGNATURE, &refund), Err(PaymentError::AmountMismatch { expected: 1_000, found: 0 })));
    match p.verify(&quote_for(OTHER_WALLET, 42), SIGNATURE, &ok) {
        Err(PaymentError::ReceiverMismatch { expected, found }) => {
            assert_eq!(expected, WALLET);
            assert_eq!(found, OTHER_WALLET);
        }
        _ => panic!("expected a receiver mismatch"),
    }
}

#[test]
fn quote_for_an_invoice_copies_its_terms() {
    let x = invoice("i1", "Created", FAR_FUTURE);
    let q = PaymentQuote::for_invoice(&x);
    assert_eq!(q.job_id, "");
    assert_eq!(q.service, ServiceType::SmartContractReview);
    assert_eq!(q.amount, x.amount);
    assert_eq!(q.wallet_address, x.wallet);
    assert_eq!(q.invoice_reference, "i1");
    assert_eq!(q.expires_at, x.expires_at);
}

#[test]
fn creating_an_invoice_quotes_links_and_announces() {
    let e = engine();
    let mut app = App::new(vec![job("j1", JobStatus::Created, None)], vec![], vec![]);
    let events = app.state.event_history.len();
    let x = e.create_invoice(&mut app, "j1", ServiceType::OnChainIntelligence, NOW).unwrap();
    assert!(is_uuid(&x.invoice_id));
    assert_eq!(x.amount, 100_000_000);
    assert_eq!(x.status, "AwaitingPayment");
    assert_eq!(x.wallet, WALLET);
    assert_eq!(x.signature, None);
    assert_eq!(x.created_at, NOW);
    assert_eq!(x.expires_at, Timestamp { secs: NOW.secs + 900, nanos: NOW.nanos });
    let j = app.find_job("j1").unwrap();
    assert_eq!(j.status, JobStatus::AwaitingPayment);
    assert_eq!(j.invoice_id.as_deref(), Some(x.invoice_id.as_str()));
    assert_eq!(app.find_invoice(&x.invoice_id).unwrap().amount, 100_000_000);
    let pending: Vec<String> = InvoiceStore::new().list_pending(&app).into_iter().map(|i| i.invoice_id).collect();
    assert_eq!(pending, vec![x.invoice_id.clone()]);
    assert_eq!(app.state.event_history.len(), events + 2);
    let last = app.state.event_history.last().unwrap();
    assert_eq!(last.event_type, EventType::InvoiceCreated);
    assert_eq!(last.job_id.as_deref(), Some("j1"));
    assert_eq!(last.message, format!("Invoice {} created.", x.invoice_id));
}

#[test]
fn creating_an_invoice_for_a_missing_job_stores_it_and_fails() {
    let e = engine();
    let mut app = App::new(vec![], vec![], vec![]);
    match e.create_invoice(&mut app, "ghost", ServiceType::SmartContractReview, NOW) {
        Err(PaymentError::InvoiceError(m)) => assert_eq!(m, "Job not found: ghost"),
        _ => panic!("expected an invoice error"),
    }
    assert_eq!(app.state.invoice_cache.len(), 1);
    assert_eq!(app.state.invoice_cache.items()[0].amount, 200_000_000);
}

#[test]
fn the_invoice_store_reads_lists_and_filters() {
    let store = InvoiceStore::new();
    let mut app = App::new(vec![], vec![], vec![]);
    store.store_invoice(&mut app, invoice("a", "Created", FAR_FUTURE)).unwrap();
    store.store_invoice(&mut app, invoice("b", "AwaitingPayment", FAR_FUTURE)).unwrap();
    store.store_invoice(&mut app, invoice("c", "PendingConfirmation", FAR_FUTURE)).unwrap();
    store.store_invoice(&mut app, invoice("d", "Confirmed", FAR_FUTURE)).unwrap();
    assert_eq!(store.get_invoice(&app, "b").unwrap().status, "AwaitingPayment");
    match store.get_invoice(&app, "z") {
        Err(PaymentError::InvoiceError(m)) => assert_eq!(m, "Invoice not found: z"),
        _ => panic!("expected an invoice error"),
    }
    let all: Vec<String> = store.list_invoices(&app).into_iter().map(|x| x.invoice_id).collect();
    assert_eq!(all, vec!["a", "b", "c", "d"]);
    let pending: Vec<String> = store.list_pending(&app).into_iter().map(|x| x.invoice_id).collect();
    assert_eq!(pending, vec!["b", "c"]);
    let monitored: Vec<String> = PaymentMonitor::new().pending_invoices(&app).into_iter().map(|x| x.invoice_id).collect();
    assert_eq!(monitored, pending);
}

#[test]
fn a_confirmed_payment_updates_invoice_and_job() {
    let e = engine();
    let mut app = App::new(vec![job("j1", JobStatus::Quoted, Some("i1"))], vec![], vec![invoice("i1", "Created", FAR_FUTURE)]);
    let events = app.state.event_history.len();
    e.confirm_payment(&mut app, invoice("i1", "Created", FAR_FUTURE), SIGNATURE).unwrap();
    let x = app.find_invoice("i1").unwrap();
    assert_eq!(x.status, "Confirmed");
    assert_eq!(x.signature.as_deref(), Some(SIGNATURE));
    assert_eq!(app.find_job("j1").unwrap().status, JobStatus::PaymentDetected);
    assert_eq!(app.state.event_history.len(), events + 2);
    let last = app.state.event_history.last().unwrap();
    assert_eq!(last.event_type, EventType::PaymentDetected);
    assert_eq!(last.message, "Payment confirmed for invoice i1");
    assert_eq!(last.job_id.as_deref(), Some("j1"));
}

#[test]
fn a_confirmed_payment_without_a_job_only_stores_the_invoice() {
    let e = engine();
    let mut app = App::new(vec![job("j1", JobStatus::Quoted, Some("other"))], vec![], vec![]);
    let events = app.state.event_history.len();
    e.confirm_payment(&mut app, invoice("i1", "Created", FAR_FUTURE), SIGNATURE).unwrap();
    assert_eq!(app.find_invoice("i1").unwrap().status, "Confirmed");
    assert_eq!(app.find_job("j1").unwrap().status, JobStatus::Quoted);
    assert_eq!(app.state.event_history.len(), events + 1);
}

#[test]
fn verifying_a_payment_begins_with_lookup_and_signature() {
    let e = engine();
    let app = App::new(vec![], vec![], vec![invoice("i1", "AwaitingPayment", FAR_FUTURE)]);
    match e.verify_payment_begin(&app, "nope", SIGNATURE) {
        Err(PaymentError::InvoiceError(m)) => assert_eq!(m, "Invoice not found: nope"),
        _ => panic!("expected an invoice error"),
    }
    match e.verify_payment_begin(&app, "i1", "bad") {
        Err(PaymentError::PaymentVerificationError(m)) => assert_eq!(m, "Invalid transaction signature"),
        _ => panic!("expected a verification error"),
    }
    let (x, q) = e.verify_payment_begin(&app, "i1", SIGNATURE).unwrap();
    assert_eq!(x.invoice_id, "i1");
    assert_eq!(q.invoice_reference, "i1");
    assert_eq!(q.amount, x.amount);
}

#[test]
fn verifying_a_payment_completes_with_the_fetched_transaction() {
    let e = engine();
    let mut app = App::new(vec![job("j1", JobStatus::Quoted, Some("i1"))], vec![], vec![invoice("i1", "AwaitingPayment", FAR_FUTURE)]);
    let (x, q) = e.verify_payment_begin(&app, "i1", SIGNATURE).unwrap();
    let lookup_failed = Err(PaymentError::RPCError("unreachable".to_string()));
    match e.verify_payment_complete(&mut app, x.clone(), &q, SIGNATURE, lookup_failed) {
        Err(PaymentError::RPCError(m)) => assert_eq!(m, "unreachable"),
        _ => panic!("expected the lookup error"),
    }
    assert_eq!(app.find_invoice("i1").unwrap().status, "AwaitingPayment");
    let failed_tx = Ok(FetchedTransaction { failed: true, ..paid(5, 100_000_000) });
    assert!(e.verify_payment_complete(&mut app, x.clone(), &q, SIGNATURE, failed_tx).is_err());
    assert_eq!(app.find_invoice("i1").unwrap().status, "AwaitingPayment");
    let good_tx = Ok(paid(9, 100_000_000));
    let rc = e.verify_payment_complete(&mut app, x, &q, SIGNATURE, good_tx).unwrap();
    assert_eq!(rc.slot, 9);
    assert_eq!(rc.invoice_id, "i1");
    assert_eq!(app.find_invoice("i1").unwrap().status, "Confirmed");
    assert_eq!(app.find_job("j1").unwrap().status, JobStatus::PaymentDetected);
}

#[test]
fn checking_a_payment_settles_expires_or_watches() {
    let e = engine();
    let mut app = App::new(
        vec![],
        vec![],
        vec![
            invoice("done", "Confirmed", 1_700_000_900),
            invoice("old", "AwaitingPayment", 1_700_000_900),
            invoice("live", "AwaitingPayment", FAR_FUTURE),
        ],
    );
    let events = app.state.event_history.len();
    match e.check_payment_begin(&mut app, "done", NOW).unwrap() {
        PaymentCheck::Settled(x) => assert_eq!(x.status, "Confirmed"),
        _ => panic!("expected a settled invoice"),
    }
    assert_eq!(app.state.event_history.len(), events);
    match e.check_payment_begin(&mut app, "old", NOW).unwrap() {
        PaymentCheck::Settled(x) => assert_eq!(x.status, "Expired"),
        _ => panic!("expected an expired invoice"),
    }
    assert_eq!(app.find_invoice("old").unwrap().status, "Expired");
    assert_eq!(app.state.event_history.len(), events + 1);
    match e.check_payment_begin(&mut app, "live", NOW).unwrap() {
        PaymentCheck::Watch(x, q) => {
            assert_eq!(x.invoice_id, "live");
            assert_eq!(q.invoice_reference, "live");
        }
        _ => panic!("expected a watch"),
    }
    match e.check_payment_begin(&mut app, "missing", NOW) {
        Err(PaymentError::InvoiceError(m)) => assert_eq!(m, "Invoice not found: missing"),
        _ => panic!("expected an invoice error"),
    }
}

#[test]
fn what_the_watch_saw_moves_the_invoice() {
    let e = engine();
    let mut app = App::new(vec![], vec![], vec![invoice("i", "AwaitingPayment", FAR_FUTURE)]);
    let x = invoice("i", "AwaitingPayment", FAR_FUTURE);
    assert_eq!(e.check_payment_complete(&mut app, x.clone(), Ok(PaymentStatus::Unknown)).status, "AwaitingPayment");
    let err = Err(PaymentError::RPCError("down".to_string()));
    assert_eq!(e.check_payment_complete(&mut app, x.clone(), err).status, "AwaitingPayment");
    assert_eq!(app.find_invoice("i").unwrap().status, "AwaitingPayment");
    assert_eq!(e.check_payment_complete(&mut app, x.clone(), Ok(PaymentStatus::Detected)).status, "PendingConfirmation");
    assert_eq!(app.find_invoice("i").unwrap().status, "PendingConfirmation");
    assert_eq!(e.check_payment_complete(&mut app, x.clone(), Ok(PaymentStatus::Confirmed)).status, "Confirmed");
    assert_eq!(e.check_payment_complete(&mut app, x, Ok(PaymentStatus::Expired)).status, "Expired");
    assert_eq!(app.find_invoice("i").unwrap().status, "Expired");
}

#[test]
fn invoices_can_be_cancelled_or_failed() {
    let e = engine();
    let mut app = App::new(vec![], vec![], vec![invoice("a", "Created", FAR_FUTURE), invoice("b", "Created", FAR_FUTURE)]);
    e.cancel_invoice(&mut app, "a").unwrap();
    e.mark_failed(&mut app, "b").unwrap();
    assert_eq!(app.find_invoice("a").unwrap().status, "Cancelled");
    assert_eq!(app.find_invoice("b").unwrap().status, "Failed");
    match e.cancel_invoice(&mut app, "c") {
        Err(PaymentError::InvoiceError(m)) => assert_eq!(m, "Invoice not found: c"),
        _ => panic!("expected an invoice error"),
    }
    assert!(matches!(e.mark_failed(&mut app, "c"), Err(PaymentError::InvoiceError(_))));
}

#[test]
fn the_monitor_expires_or_quotes_and_applies_what_it_saw() {
    let m = PaymentMonitor::new();
    let mut app = App::new(vec![], vec![], vec![invoice("old", "AwaitingPayment", 1_700_000_900), invoice("live", "AwaitingPayment", FAR_FUTURE)]);
    let events = app.state.event_history.len();
    assert!(m.expire_or_quote(&mut app, invoice("old", "AwaitingPayment", 1_700_000_900), NOW).is_none());
    assert_eq!(app.find_invoice("old").unwrap().status, "Expired");
    assert_eq!(app.state.event_history.len(), events + 2);
    let last = app.state.event_history.last().unwrap();
    assert_eq!(last.event_type, EventType::PaymentDetected);
    assert_eq!(last.message, "Invoice old expired.");
    let q = m.expire_or_quote(&mut app, invoice("live", "AwaitingPayment", FAR_FUTURE), NOW).unwrap();
    assert_eq!(q.invoice_reference, "live");
    m.apply_observation(&mut app, invoice("live", "AwaitingPayment", FAR_FUTURE), Ok(PaymentStatus::Unknown));
    assert_eq!(app.find_invoice("live").unwrap().status, "AwaitingPayment");
    m.apply_observation(&mut app, invoice("live", "AwaitingPayment", FAR_FUTURE), Ok(PaymentStatus::Expired));
    assert_eq!(app.find_invoice("live").unwrap().status, "AwaitingPayment");
    m.apply_observation(&mut app, invoice("live", "AwaitingPayment", FAR_FUTURE), Ok(PaymentStatus::Detected));
    assert_eq!(app.find_invoice("live").unwrap().status, "PendingConfirmation");
    m.apply_observation(&mut app, invoice("live", "PendingConfirmation", FAR_FUTURE), Ok(PaymentStatus::Confirmed));
    assert_eq!(app.find_invoice("live").unwrap().status, "Confirmed");
}

#[test]
fn payment_error_messages() {
    assert_eq!(PaymentError::InvoiceError("x".to_string()).message().as_deref(), Some("Invoice error: x"));
    assert_eq!(PaymentError::RPCError("x".to_string()).message().as_deref(), Some("RPC error: x"));
    assert_eq!(
        PaymentError::PaymentVerificationError("x".to_string()).message().as_deref(),
        Some("Payment verification error: x")
    );
    assert_eq!(PaymentError::TimeoutError("x".to_string()).message().as_deref(), Some("Timeout error: x"));
    assert_eq!(PaymentError::ConfigurationError("x".to_string()).message().as_deref(), Some("Configuration error: x"));
    assert_eq!(PaymentError::WalletError("x".to_string()).message().as_deref(), Some("Wallet error: x"));
    assert_eq!(
        PaymentError::ReceiverMismatch { expected: "a".to_string(), found: "b".to_string() }.message().as_deref(),
        Some("Receiver mismatch: expected a, found b")
    );
    assert_eq!(PaymentError::ReferenceMismatch.message().as_deref(), Some("Reference mismatch"));
    assert_eq!(PaymentError::AmountMismatch { expected: 1, found: 2 }.message(), None);
}

#[test]
fn an_amount_mismatch_marks_the_invoice_failed() {
    let e = engine();
    let mut app = App::new(vec![job("j1", JobStatus::AwaitingPayment, Some("i1"))], vec![], vec![invoice("i1", "AwaitingPayment", FAR_FUTURE)]);
    let (x, q) = e.verify_payment_begin(&app, "i1", SIGNATURE).unwrap();
    let events = app.state.event_history.len();
    match e.verify_payment_complete(&mut app, x, &q, SIGNATURE, Ok(paid(3, 50_000_000))) {
        Err(PaymentError::AmountMismatch { expected, found }) => {
            assert_eq!(expected, 100_000_000);
            assert_eq!(found, 50_000_000);
        }
        _ => panic!("expected an amount mismatch"),
    }
    let stored = app.find_invoice("i1").unwrap();
    assert_eq!(stored.status, "Failed");
    assert_eq!(stored.signature, None);
    assert_eq!(app.find_job("j1").unwrap().status, JobStatus::AwaitingPayment);
    assert_eq!(app.state.event_history.len(), events + 1);
}

#[test]
fn expiry_is_judged_by_the_given_time() {
    let e = engine();
    let deadline = Timestamp { secs: 2_000_000_000, nanos: 10 };
    let x = Invoice { expires_at: deadline, ..invoice("i", "AwaitingPayment", 0) };
    let mut app = App::new(vec![], vec![], vec![x.clone()]);
    assert!(matches!(e.check_payment_begin(&mut app, "i", deadline).unwrap(), PaymentCheck::Watch(_, _)));
    let just_after = Timestamp { secs: 2_000_000_000, nanos: 11 };
    let m = PaymentMonitor::new();
    assert!(m.expire_or_quote(&mut app, x.clone(), deadline).is_some());
    match e.check_payment_begin(&mut app, "i", just_after).unwrap() {
        PaymentCheck::Settled(y) => assert_eq!(y.status, "Expired"),
        _ => panic!("expected the invoice to expire"),
    }
    assert!(m.expire_or_quote(&mut app, x, just_after).is_none());
}

#[test]
fn the_merchant_balances_are_read_at_its_first_account_position() {
    let keys: Vec<String> = vec!["payer".to_string(), WALLET.to_string(), WALLET.to_string()];
    let t = FetchedTransaction::from_balances(7, true, false, &keys, &vec![900, 100, 5], &vec![800, 300, 9], WALLET);
    assert_eq!((t.slot, t.has_meta, t.failed), (7, true, false));
    assert_eq!((t.balance_before, t.balance_after), (100, 300));
    assert_eq!(t.amount_received(), 200);
    let short = FetchedTransaction::from_balances(7, true, false, &keys, &vec![900], &vec![800, 300], WALLET);
    assert_eq!((short.balance_before, short.balance_after), (0, 300));
    let absent = FetchedTransaction::from_balances(7, true, true, &vec!["payer".to_string()], &vec![1], &vec![2], WALLET);
    assert_eq!((absent.balance_before, absent.balance_after, absent.failed), (0, 0, true));
    let no_meta = FetchedTransaction::from_balances(7, false, false, &keys, &vec![900, 100], &vec![800, 300], WALLET);
    assert_eq!((no_meta.balance_before, no_meta.balance_after), (0, 0));
}
