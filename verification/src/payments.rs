//! The payment engine: pricing, invoices, quotes, payment detection and
//! verification decisions, and the invoice and job state changes that follow.
//! Amounts are in lamports (10^-9 SOL).

use vstd::prelude::*;
use crate::clock::{Timestamp, utc_now, format_utc, spec_format_utc};
use crate::runtime::{
    App, CoreError, EventType, Invoice, JobStatus, ServiceType, clone_opt, core_error_text, emitted,
    generate_uuid, holds_invoice, invoice_stored_message, is_uuid_text, is_v4_uuid_text, opt_view, prefixed,
};
use crate::solana::{pubkey_parses, signature_parses, spec_pubkey_parses, spec_signature_parses};
use crate::text::{chars_of, push_char, str_eq};

verus! {

/// The largest difference between the expected and the paid amount that
/// still counts as the expected amount: 100 lamports (10^-7 SOL).
pub const AMOUNT_TOLERANCE_LAMPORTS: u64 = 100;

/// Errors of the payment engine.
#[derive(Debug)]
pub enum PaymentError {
    InvoiceError(String),
    RPCError(String),
    PaymentVerificationError(String),
    TimeoutError(String),
    ConfigurationError(String),
    WalletError(String),
    AmountMismatch { expected: u64, found: u64 },
    ReceiverMismatch { expected: String, found: String },
    ReferenceMismatch,
}

/// The message of a payment error, as its display text reads; an amount
/// mismatch, whose text shows the amounts in SOL, has none here.
pub open spec fn payment_error_text(e: PaymentError) -> Option<Seq<char>> {
    match e {
        PaymentError::InvoiceError(s) => Some("Invoice error: "@ + s@),
        PaymentError::RPCError(s) => Some("RPC error: "@ + s@),
        PaymentError::PaymentVerificationError(s) => Some("Payment verification error: "@ + s@),
        PaymentError::TimeoutError(s) => Some("Timeout error: "@ + s@),
        PaymentError::ConfigurationError(s) => Some("Configuration error: "@ + s@),
        PaymentError::WalletError(s) => Some("Wallet error: "@ + s@),
        PaymentError::AmountMismatch { .. } => None,
        PaymentError::ReceiverMismatch { expected, found } => Some(
            "Receiver mismatch: expected "@ + expected@ + ", found "@ + found@,
        ),
        PaymentError::ReferenceMismatch => Some("Reference mismatch"@),
    }
}

impl PaymentError {
    /// The error's message; `None` for an amount mismatch, whose amounts are
    /// written in SOL by the caller.
    pub fn message(&self) -> (r: Option<String>)
        ensures
            opt_view(r) == payment_error_text(*self),
    {
        match self {
            PaymentError::InvoiceError(s) => Some(prefixed("Invoice error: ", s)),
            PaymentError::RPCError(s) => Some(prefixed("RPC error: ", s)),
            PaymentError::PaymentVerificationError(s) => Some(prefixed("Payment verification error: ", s)),
            PaymentError::TimeoutError(s) => Some(prefixed("Timeout error: ", s)),
            PaymentError::ConfigurationError(s) => Some(prefixed("Configuration error: ", s)),
            PaymentError::WalletError(s) => Some(prefixed("Wallet error: ", s)),
            PaymentError::AmountMismatch { .. } => None,
            PaymentError::ReceiverMismatch { expected, found } => {
                let mut m = prefixed("Receiver mismatch: expected ", expected);
                m.append(", found ");
                m.append(found);
                Some(m)
            },
            PaymentError::ReferenceMismatch => Some(String::from_str("Reference mismatch")),
        }
    }
}

/// The lifecycle status of an invoice.
#[derive(Clone, Copy, Debug, PartialEq, Eq, Structural)]
pub enum InvoiceStatus {
    Created,
    AwaitingPayment,
    PendingConfirmation,
    Confirmed,
    Expired,
    Failed,
    Cancelled,
}

/// The text an invoice stores for a status.
pub open spec fn invoice_status_text(s: InvoiceStatus) -> Seq<char> {
    match s {
        InvoiceStatus::Created => "Created"@,
        InvoiceStatus::AwaitingPayment => "AwaitingPayment"@,
        InvoiceStatus::PendingConfirmation => "PendingConfirmation"@,
        InvoiceStatus::Confirmed => "Confirmed"@,
        InvoiceStatus::Expired => "Expired"@,
        InvoiceStatus::Failed => "Failed"@,
        InvoiceStatus::Cancelled => "Cancelled"@,
    }
}

impl InvoiceStatus {
    /// The status's text.
    pub fn to_string(&self) -> (r: String)
        ensures
            r@ == invoice_status_text(*self),
    {
        let t = match self {
            InvoiceStatus::Created => "Created",
            InvoiceStatus::AwaitingPayment => "AwaitingPayment",
            InvoiceStatus::PendingConfirmation => "PendingConfirmation",
            InvoiceStatus::Confirmed => "Confirmed",
            InvoiceStatus::Expired => "Expired",
            InvoiceStatus::Failed => "Failed",
            InvoiceStatus::Cancelled => "Cancelled",
        };
        String::from_str(t)
    }
}

/// The status of one blockchain payment detection.
#[derive(Clone, Copy, Debug, PartialEq, Eq, Structural)]
pub enum PaymentStatus {
    Unknown,
    Detected,
    Confirmed,
    Rejected,
    Expired,
}

/// The price of one service.
#[derive(Clone, Debug)]
pub struct ServicePricing {
    pub enabled: bool,
    pub price: u64,
    pub currency: String,
}

/// The price list.
#[derive(Clone, Debug)]
pub struct PricingConfig {
    pub smart_contract_review: ServicePricing,
    pub onchain_intelligence: ServicePricing,
}

/// The price of a service under a price list.
pub open spec fn price_of(pricing: PricingConfig, service: ServiceType) -> u64 {
    match service {
        ServiceType::SmartContractReview => pricing.smart_contract_review.price,
        ServiceType::OnChainIntelligence => pricing.onchain_intelligence.price,
    }
}

/// A quote for executing a requested service.
#[derive(Debug)]
pub struct PaymentQuote {
    pub job_id: String,
    pub service: ServiceType,
    pub amount: u64,
    pub currency: String,
    pub wallet_address: String,
    pub invoice_reference: String,
    pub expires_at: Timestamp,
}

impl Clone for PaymentQuote {
    fn clone(&self) -> (r: Self)
        ensures
            r == *self,
    {
        PaymentQuote {
            job_id: self.job_id.clone(),
            service: self.service,
            amount: self.amount,
            currency: self.currency.clone(),
            wallet_address: self.wallet_address.clone(),
            invoice_reference: self.invoice_reference.clone(),
            expires_at: self.expires_at,
        }
    }
}

/// The quote that stands for an existing invoice: no job, the placeholder
/// service `SmartContractReview`, and the invoice's amount, currency, wallet,
/// id and expiry.
pub open spec fn quote_of_invoice(quote: PaymentQuote, invoice: Invoice) -> bool {
    &&& quote.job_id@ == Seq::<char>::empty()
    &&& quote.service == ServiceType::SmartContractReview
    &&& quote.amount == invoice.amount
    &&& quote.currency == invoice.currency
    &&& quote.wallet_address == invoice.wallet
    &&& quote.invoice_reference == invoice.invoice_id
    &&& quote.expires_at == invoice.expires_at
}

impl PaymentQuote {
    /// The quote that stands for an existing invoice.
    pub fn for_invoice(invoice: &Invoice) -> (q: PaymentQuote)
        ensures
            quote_of_invoice(q, *invoice),
    {
        PaymentQuote {
            job_id: String::new(),
            service: ServiceType::SmartContractReview,
            amount: invoice.amount,
            currency: invoice.currency.clone(),
            wallet_address: invoice.wallet.clone(),
            invoice_reference: invoice.invoice_id.clone(),
            expires_at: invoice.expires_at,
        }
    }
}

/// A receipt produced when a payment is verified.
#[derive(Debug)]
pub struct PaymentReceipt {
    pub receipt_id: String,
    pub invoice_id: String,
    pub signature: String,
    pub amount: u64,
    pub sender: String,
    pub receiver: String,
    pub slot: u64,
    pub confirmation_status: String,
    pub confirmed_at: Timestamp,
}

/// An event emitted by the payment engine.
#[derive(Debug)]
pub struct PaymentEvent {
    pub event_id: String,
    pub invoice_id: String,
    pub event_type: String,
    pub timestamp: Timestamp,
    pub message: String,
}

/// What the chain reported about a transaction: its slot, whether status
/// metadata came with it, whether that metadata records a failure, and the
/// merchant wallet's balance before and after it, in lamports (both 0 when
/// the wallet is not among the transaction's accounts).
#[derive(Clone, Copy, Debug)]
pub struct FetchedTransaction {
    pub slot: u64,
    pub has_meta: bool,
    pub failed: bool,
    pub balance_before: u64,
    pub balance_after: u64,
}

/// What a transaction paid the merchant: the growth of its balance, 0 when
/// the balance did not grow.
pub open spec fn amount_received(tx: FetchedTransaction) -> u64 {
    if tx.balance_after >= tx.balance_before {
        (tx.balance_after - tx.balance_before) as u64
    } else {
        0
    }
}

/// `i` is the first position of `keys` that holds `merchant`.
pub open spec fn first_position(keys: Seq<String>, merchant: Seq<char>, i: int) -> bool {
    &&& 0 <= i < keys.len()
    &&& keys[i]@ == merchant
    &&& forall|j: int| 0 <= j < i ==> (#[trigger] keys[j])@ != merchant
}

/// The balance at position `i` of a balance list, 0 when the list is
/// shorter.
pub open spec fn balance_at(balances: Seq<u64>, i: int) -> u64 {
    if 0 <= i < balances.len() {
        balances[i]
    } else {
        0
    }
}

impl FetchedTransaction {
    /// What the chain reported, with the merchant's balances taken from the
    /// transaction's account list and its balance lists before and after:
    /// those at the first position that holds the merchant wallet (0 where a
    /// list is shorter), and 0 when the wallet is not among the accounts or
    /// there is no status metadata.
    pub fn from_balances(
        slot: u64,
        has_meta: bool,
        failed: bool,
        account_keys: &Vec<String>,
        pre_balances: &Vec<u64>,
        post_balances: &Vec<u64>,
        merchant_wallet: &str,
    ) -> (t: FetchedTransaction)
        ensures
            t.slot == slot,
            t.has_meta == has_meta,
            t.failed == failed,
            !has_meta ==> t.balance_before == 0 && t.balance_after == 0,
            (forall|j: int| 0 <= j < account_keys@.len() ==> (#[trigger] account_keys@[j])@ != merchant_wallet@)
                ==> t.balance_before == 0 && t.balance_after == 0,
            forall|i: int| has_meta && first_position(account_keys@, merchant_wallet@, i) ==> {
                &&& t.balance_before == balance_at(pre_balances@, i)
                &&& t.balance_after == balance_at(post_balances@, i)
            },
    {
        if !has_meta {
            return FetchedTransaction { slot, has_meta, failed, balance_before: 0, balance_after: 0 };
        }
        let mut i: usize = 0;
        while i < account_keys.len()
            invariant
                has_meta,
                i <= account_keys@.len(),
                forall|j: int| 0 <= j < i ==> (#[trigger] account_keys@[j])@ != merchant_wallet@,
            decreases account_keys@.len() - i,
        {
            if str_eq(account_keys[i].as_str(), merchant_wallet) {
                let before = if i < pre_balances.len() { pre_balances[i] } else { 0 };
                let after = if i < post_balances.len() { post_balances[i] } else { 0 };
                proof {
                    assert(first_position(account_keys@, merchant_wallet@, i as int));
                    assert forall|k: int| first_position(account_keys@, merchant_wallet@, k) implies k == i by {
                        if k < i {
                            assert(account_keys@[k]@ != merchant_wallet@);
                        } else if k > i {
                            assert(account_keys@[i as int]@ != merchant_wallet@);
                        }
                    }
                }
                return FetchedTransaction { slot, has_meta, failed, balance_before: before, balance_after: after };
            }
            i = i + 1;
        }
        FetchedTransaction { slot, has_meta, failed, balance_before: 0, balance_after: 0 }
    }

    /// What the transaction paid the merchant.
    pub fn amount_received(&self) -> (r: u64)
        ensures
            r == amount_received(*self),
    {
        if self.balance_after >= self.balance_before {
            self.balance_after - self.balance_before
        } else {
            0
        }
    }
}

/// An upper-case hexadecimal digit for a lower-case one; other characters
/// unchanged.
pub open spec fn upper_hex(c: char) -> char {
    if c == 'a' { 'A' }
    else if c == 'b' { 'B' }
    else if c == 'c' { 'C' }
    else if c == 'd' { 'D' }
    else if c == 'e' { 'E' }
    else if c == 'f' { 'F' }
    else { c }
}

/// An invoice number: `CHR-`, the date, `-`, and the first six characters of
/// the identifier in upper case.
pub open spec fn invoice_number_text(date: Seq<char>, uuid: Seq<char>) -> Seq<char> {
    "CHR-"@ + date + "-"@ + uuid.subrange(0, 6).map_values(|c: char| upper_hex(c))
}

/// Generates human-readable invoice numbers and references.
pub struct InvoiceGenerator;

impl InvoiceGenerator {
    /// A human-readable invoice number such as `CHR-20260724-ABCD12`, built
    /// from today's date and a fresh random identifier.
    pub fn generate_invoice_number() -> (r: String)
        ensures
            exists|t: Timestamp, u: Seq<char>|
                t.representable() && is_v4_uuid_text(u) && r@ == invoice_number_text(
                    spec_format_utc(t.secs, t.nanos, "%Y%m%d"@),
                    u,
                ),
    {
        let now = utc_now();
        let date = format_utc(now, "%Y%m%d");
        let id = generate_uuid();
        Self::compose_invoice_number(&date, &id)
    }

    /// The invoice number for a date text and an identifier.
    pub fn compose_invoice_number(date: &str, uuid: &str) -> (r: String)
        requires
            is_uuid_text(uuid@),
        ensures
            r@ == invoice_number_text(date@, uuid@),
    {
        let mut r = prefixed("CHR-", date);
        r.append("-");
        let cs = chars_of(uuid);
        let ghost base = r@;
        let mut i: usize = 0;
        while i < 6
            invariant
                cs@ == uuid@,
                uuid@.len() == 36,
                i <= 6,
                r@ == base + uuid@.subrange(0, i as int).map_values(|c: char| upper_hex(c)),
            decreases 6 - i,
        {
            let c = cs[i];
            let u = if c == 'a' { 'A' } else if c == 'b' { 'B' } else if c == 'c' { 'C' }
                else if c == 'd' { 'D' } else if c == 'e' { 'E' } else if c == 'f' { 'F' } else { c };
            push_char(&mut r, u);
            i = i + 1;
            assert(uuid@.subrange(0, i as int).map_values(|c: char| upper_hex(c))
                =~= uuid@.subrange(0, (i - 1) as int).map_values(|c: char| upper_hex(c)).push(u));
        }
        r
    }

    /// A fresh random reference (a UUID v4 text).
    pub fn generate_reference() -> (r: String)
        ensures
            is_v4_uuid_text(r@),
    {
        generate_uuid()
    }
}

/// An invoice waits for payment: its status is `AwaitingPayment` or
/// `PendingConfirmation`.
pub open spec fn is_pending(invoice: Invoice) -> bool {
    invoice.status@ == "AwaitingPayment"@ || invoice.status@ == "PendingConfirmation"@
}

/// Stores and retrieves invoices in the application's invoice cache.
pub struct InvoiceStore;

impl InvoiceStore {
    pub fn new() -> (s: InvoiceStore) {
        InvoiceStore
    }

    /// Stores a new invoice or replaces the one with the same id (emitting
    /// the runtime's `InvoiceCreated` event).
    pub fn store_invoice(&self, app: &mut App, invoice: Invoice) -> (r: Result<(), PaymentError>)
        requires
            old(app).wf(),
        ensures
            r is Ok,
            final(app).wf(),
            final(app).invoices() == old(app).invoices().insert(invoice.invoice_id@, invoice),
            final(app).active() == old(app).active(),
            final(app).completed() == old(app).completed(),
            final(app).reports() == old(app).reports(),
            emitted(
                old(app).events(),
                final(app).events(),
                EventType::InvoiceCreated,
                None,
                invoice_stored_message(invoice.invoice_id@),
            ),
    {
        app.store_invoice(invoice);
        Ok(())
    }

    /// An invoice by id.
    pub fn get_invoice(&self, app: &App, invoice_id: &str) -> (r: Result<Invoice, PaymentError>)
        requires
            app.wf(),
        ensures
            app.invoices().contains_key(invoice_id@) ==> r == Ok::<Invoice, PaymentError>(
                app.invoices()[invoice_id@],
            ),
            !app.invoices().contains_key(invoice_id@) ==> (r matches Err(PaymentError::InvoiceError(m))
                && m@ == "Invoice not found: "@ + invoice_id@),
    {
        match app.find_invoice(invoice_id) {
            Ok(x) => Ok(x),
            Err(e) => {
                let m = e.message();
                Err(PaymentError::InvoiceError(m))
            },
        }
    }

    /// Every cached invoice, in storage order.
    pub fn list_invoices(&self, app: &App) -> (r: Vec<Invoice>)
        ensures
            r@ == app.state.invoice_cache@,
    {
        let items = app.state.invoice_cache.items();
        let mut r: Vec<Invoice> = Vec::new();
        let mut i: usize = 0;
        while i < items.len()
            invariant
                i <= items@.len(),
                r@ == items@.subrange(0, i as int),
            decreases items@.len() - i,
        {
            r.push(items[i].clone());
            i = i + 1;
            assert(r@ =~= items@.subrange(0, i as int));
        }
        assert(r@ =~= items@);
        r
    }

    /// The cached invoices that wait for payment, in storage order.
    pub fn list_pending(&self, app: &App) -> (r: Vec<Invoice>)
        ensures
            r@ == app.state.invoice_cache@.filter(|x: Invoice| is_pending(x)),
    {
        let all = self.list_invoices(app);
        let awaiting = InvoiceStatus::AwaitingPayment.to_string();
        let confirming = InvoiceStatus::PendingConfirmation.to_string();
        let mut r: Vec<Invoice> = Vec::new();
        let mut i: usize = 0;
        while i < all.len()
            invariant
                all@ == app.state.invoice_cache@,
                awaiting@ == "AwaitingPayment"@,
                confirming@ == "PendingConfirmation"@,
                i <= all@.len(),
                r@ == all@.subrange(0, i as int).filter(|x: Invoice| is_pending(x)),
            decreases all@.len() - i,
        {
            let keep = all[i].status == awaiting || all[i].status == confirming;
            proof {
                reveal(Seq::filter);
                let next = all@.subrange(0, i + 1);
                assert(next.drop_last() =~= all@.subrange(0, i as int));
                assert(next.last() == all@[i as int]);
                assert(keep == is_pending(all@[i as int]));
            }
            if keep {
                r.push(all[i].clone());
            }
            i = i + 1;
        }
        assert(all@.subrange(0, all@.len() as int) =~= all@);
        r
    }
}

/// `after` is `before` with status `status`, all else equal.
pub open spec fn restatus(before: Invoice, after: Invoice, status: InvoiceStatus) -> bool {
    &&& after.invoice_id == before.invoice_id
    &&& after.wallet == before.wallet
    &&& after.amount == before.amount
    &&& after.currency == before.currency
    &&& after.created_at == before.created_at
    &&& after.expires_at == before.expires_at
    &&& after.signature == before.signature
    &&& after.status@ == invoice_status_text(status)
}

/// An expiry `minutes` whole minutes after `now`.
pub open spec fn expiry_after(t: Timestamp, now: Timestamp, minutes: u64) -> bool {
    t.secs == now.secs + minutes * 60 && t.nanos == now.nanos
}

/// A paid amount counts as the expected one: they differ by at most the
/// tolerance.
pub open spec fn amount_within(expected: u64, found: u64) -> bool {
    expected - found <= AMOUNT_TOLERANCE_LAMPORTS && found - expected <= AMOUNT_TOLERANCE_LAMPORTS
}

/// Some of the first five recent transactions to the wallet succeeded.
pub open spec fn recent_success(failures: Seq<bool>) -> bool {
    exists|i: int| 0 <= i < failures.len() && i < 5 && !#[trigger] failures[i]
}

/// What watching the wallet reports: a detected payment when one of the
/// first five recent transactions succeeded, else expiry once the quote's
/// time is past, else nothing known.
pub open spec fn watch_result(failures: Seq<bool>, now: Timestamp, expires_at: Timestamp) -> PaymentStatus {
    if recent_success(failures) {
        PaymentStatus::Detected
    } else if now.spec_after(expires_at) {
        PaymentStatus::Expired
    } else {
        PaymentStatus::Unknown
    }
}

/// A fetched transaction passes verification against a quote under a
/// signature: the signature parses, the status metadata is present and
/// records success, the merchant received the quoted amount within the
/// tolerance, and the quote's wallet is the merchant wallet.
pub open spec fn verification_passes(
    merchant_wallet: Seq<char>,
    quote: PaymentQuote,
    signature: Seq<char>,
    tx: FetchedTransaction,
) -> bool {
    &&& spec_signature_parses(signature)
    &&& tx.has_meta
    &&& !tx.failed
    &&& amount_within(quote.amount, amount_received(tx))
    &&& merchant_wallet == quote.wallet_address@
}

/// Verification of a fetched transaction fails on the amount: all checks
/// before the amount pass and the amount received is off by more than the
/// tolerance.
pub open spec fn amount_mismatched(quote: PaymentQuote, signature: Seq<char>, tx: FetchedTransaction) -> bool {
    &&& spec_signature_parses(signature)
    &&& tx.has_meta
    &&& !tx.failed
    &&& !amount_within(quote.amount, amount_received(tx))
}

/// Payment monitoring and verification against a merchant wallet on Solana.
/// The RPC traffic happens outside; this holds the wallet, the price list and
/// the configured invoice lifetime, and decides on what the chain reported.
pub struct SolanaPaymentProvider {
    pub merchant_wallet: String,
    pub pricing: PricingConfig,
    pub invoice_expiry_minutes: u64,
}

impl SolanaPaymentProvider {
    /// A provider for a merchant wallet address, which must parse as a
    /// Solana public key, with a price list and an invoice lifetime.
    pub fn new(merchant_wallet: &str, pricing: PricingConfig, invoice_expiry_minutes: u64) -> (r: Result<
        Self,
        PaymentError,
    >)
        ensures
            r is Ok <==> spec_pubkey_parses(merchant_wallet@),
            r matches Ok(p) ==> p.merchant_wallet@ == merchant_wallet@ && p.pricing == pricing
                && p.invoice_expiry_minutes == invoice_expiry_minutes,
            r matches Err(e) ==> (e matches PaymentError::WalletError(m) && m@ == "Invalid merchant wallet address"@),
    {
        if !pubkey_parses(merchant_wallet) {
            return Err(PaymentError::WalletError(String::from_str("Invalid merchant wallet address")));
        }
        Ok(SolanaPaymentProvider { merchant_wallet: merchant_wallet.to_owned(), pricing, invoice_expiry_minutes })
    }

    /// The receiver must be the expected wallet.
    pub fn validate_receiver(&self, expected: &str, found: &str) -> (r: Result<(), PaymentError>)
        ensures
            r is Ok <==> expected@ == found@,
            r matches Err(e) ==> (e matches PaymentError::ReceiverMismatch { expected: a, found: b } && a@
                == expected@ && b@ == found@),
    {
        if !str_eq(expected, found) {
            return Err(PaymentError::ReceiverMismatch { expected: expected.to_owned(), found: found.to_owned() });
        }
        Ok(())
    }

    /// The amount must match the expected one within the tolerance.
    pub fn validate_amount(&self, expected: u64, found: u64) -> (r: Result<(), PaymentError>)
        ensures
            r is Ok <==> amount_within(expected, found),
            r is Ok <==> (if expected >= found { expected - found } else { found - expected })
                <= AMOUNT_TOLERANCE_LAMPORTS,
            r matches Err(e) ==> e == (PaymentError::AmountMismatch { expected, found }),
    {
        let diff = if expected >= found { expected - found } else { found - expected };
        if diff > AMOUNT_TOLERANCE_LAMPORTS {
            return Err(PaymentError::AmountMismatch { expected, found });
        }
        Ok(())
    }

    /// A quote for a job at time `now`: the service's price in SOL, payable
    /// to the merchant wallet under a fresh reference, valid for the
    /// configured number of minutes.
    pub fn create_quote(&self, job_id: &str, service: ServiceType, now: Timestamp) -> (q: PaymentQuote)
        requires
            now.can_add_minutes(self.invoice_expiry_minutes),
        ensures
            q.job_id@ == job_id@,
            q.service == service,
            q.amount == price_of(self.pricing, service),
            q.currency@ == "SOL"@,
            q.wallet_address == self.merchant_wallet,
            is_v4_uuid_text(q.invoice_reference@),
            expiry_after(q.expires_at, now, self.invoice_expiry_minutes),
            q.expires_at.representable(),
    {
        let price = match service {
            ServiceType::SmartContractReview => self.pricing.smart_contract_review.price,
            ServiceType::OnChainIntelligence => self.pricing.onchain_intelligence.price,
        };
        let expires_at = now.plus_minutes(self.invoice_expiry_minutes);
        PaymentQuote {
            job_id: job_id.to_owned(),
            service,
            amount: price,
            currency: String::from_str("SOL"),
            wallet_address: self.merchant_wallet.clone(),
            invoice_reference: InvoiceGenerator::generate_reference(),
            expires_at,
        }
    }

    /// What watching reports, from the failure flags of the wallet's recent
    /// transactions (newest first), the current time and the quote's expiry.
    pub fn watch_outcome(recent_failures: &Vec<bool>, now: Timestamp, expires_at: Timestamp) -> (s: PaymentStatus)
        ensures
            s == watch_result(recent_failures@, now, expires_at),
    {
        let mut i: usize = 0;
        while i < recent_failures.len() && i < 5
            invariant
                i <= recent_failures@.len(),
                i <= 5,
                forall|j: int| 0 <= j < i ==> #[trigger] recent_failures@[j],
            decreases recent_failures@.len() - i,
        {
            if !recent_failures[i] {
                return PaymentStatus::Detected;
            }
            i = i + 1;
        }
        if now.is_after(&expires_at) {
            PaymentStatus::Expired
        } else {
            PaymentStatus::Unknown
        }
    }

    /// Watches for a payment against a quote at time `now`, given the
    /// failure flags of the wallet's recent transactions, newest first.
    pub fn watch(&self, quote: &PaymentQuote, recent_failures: &Vec<bool>, now: Timestamp) -> (s: PaymentStatus)
        ensures
            s == watch_result(recent_failures@, now, quote.expires_at),
    {
        Self::watch_outcome(recent_failures, now, quote.expires_at)
    }

    /// A transaction signature must parse before the chain is asked for it.
    pub fn check_signature(&self, signature: &str) -> (r: Result<(), PaymentError>)
        ensures
            r is Ok <==> spec_signature_parses(signature@),
            r matches Err(e) ==> (e matches PaymentError::PaymentVerificationError(m) && m@
                == "Invalid transaction signature"@),
    {
        if !signature_parses(signature) {
            return Err(PaymentError::PaymentVerificationError(String::from_str("Invalid transaction signature")));
        }
        Ok(())
    }

    /// Verifies a fetched transaction against a quote: the signature must
    /// parse, its status metadata must be present and record success, the
    /// merchant must have received the quoted amount within the tolerance and
    /// the quote's wallet must be the merchant wallet; then a receipt is
    /// issued for the amount received.
    pub fn verify(&self, quote: &PaymentQuote, signature: &str, tx: &FetchedTransaction) -> (r: Result<PaymentReceipt, PaymentError>)
        ensures
            !spec_signature_parses(signature@) ==> (r matches Err(PaymentError::PaymentVerificationError(m)) && m@
                == "Invalid transaction signature"@),
            spec_signature_parses(signature@) && !tx.has_meta ==> (r matches Err(
                PaymentError::PaymentVerificationError(m),
            ) && m@ == "Transaction metadata missing"@),
            spec_signature_parses(signature@) && tx.has_meta && tx.failed ==> (r matches Err(
                PaymentError::PaymentVerificationError(m),
            ) && m@ == "Transaction failed on-chain"@),
            amount_mismatched(*quote, signature@, *tx) ==> r == Err::<PaymentReceipt, PaymentError>(
                PaymentError::AmountMismatch { expected: quote.amount, found: amount_received(*tx) },
            ),
            spec_signature_parses(signature@) && tx.has_meta && !tx.failed && amount_within(
                quote.amount,
                amount_received(*tx),
            ) && self.merchant_wallet@ != quote.wallet_address@ ==> (r matches Err(
                PaymentError::ReceiverMismatch { expected: a, found: b },
            ) && a@ == self.merchant_wallet@ && b@ == quote.wallet_address@),
            verification_passes(self.merchant_wallet@, *quote, signature@, *tx) ==> (r matches Ok(rc)
                && is_v4_uuid_text(rc.receipt_id@) && rc.invoice_id == quote.invoice_reference && rc.signature@
                == signature@ && rc.amount == amount_received(*tx) && rc.sender@ == "Unknown_Sender"@ && rc.receiver
                == self.merchant_wallet && rc.slot == tx.slot && rc.confirmation_status@ == "Confirmed"@
                && rc.confirmed_at.representable()),
            r is Ok <==> verification_passes(self.merchant_wallet@, *quote, signature@, *tx),
            r is Ok ==> (if quote.amount >= amount_received(*tx) {
                quote.amount - amount_received(*tx)
            } else {
                amount_received(*tx) - quote.amount
            }) <= AMOUNT_TOLERANCE_LAMPORTS,
    {
        match self.check_signature(signature) {
            Ok(()) => {},
            Err(e) => return Err(e),
        }
        if !tx.has_meta {
            return Err(PaymentError::PaymentVerificationError(String::from_str("Transaction metadata missing")));
        }
        if tx.failed {
            return Err(PaymentError::PaymentVerificationError(String::from_str("Transaction failed on-chain")));
        }
        let amount_paid = tx.amount_received();
        match self.validate_amount(quote.amount, amount_paid) {
            Ok(()) => {},
            Err(e) => return Err(e),
        }
        match self.validate_receiver(self.merchant_wallet.as_str(), quote.wallet_address.as_str()) {
            Ok(()) => {},
            Err(e) => return Err(e),
        }
        Ok(PaymentReceipt {
            receipt_id: generate_uuid(),
            invoice_id: quote.invoice_reference.clone(),
            signature: signature.to_owned(),
            amount: amount_paid,
            sender: String::from_str("Unknown_Sender"),
            receiver: self.merchant_wallet.clone(),
            slot: tx.slot,
            confirmation_status: String::from_str("Confirmed"),
            confirmed_at: utc_now(),
        })
    }
}

/// A new invoice as `create_invoice` issues it at time `now`: a fresh id,
/// the merchant wallet, the service's price in SOL, status
/// `AwaitingPayment`, no signature, created at `now` and expiring the
/// configured number of minutes later.
pub open spec fn fresh_invoice(x: Invoice, provider: SolanaPaymentProvider, service: ServiceType, now: Timestamp) -> bool {
    &&& is_v4_uuid_text(x.invoice_id@)
    &&& x.wallet == provider.merchant_wallet
    &&& x.amount == price_of(provider.pricing, service)
    &&& x.currency@ == "SOL"@
    &&& x.status@ == "AwaitingPayment"@
    &&& x.signature is None
    &&& x.created_at == now
    &&& expiry_after(x.expires_at, now, provider.invoice_expiry_minutes)
}

/// The message of the event `create_invoice` emits for a job.
pub open spec fn invoice_created_message(invoice_id: Seq<char>) -> Seq<char> {
    "Invoice "@ + invoice_id + " created."@
}

/// The message of the event `confirm_payment` emits for a job.
pub open spec fn payment_confirmed_message(invoice_id: Seq<char>) -> Seq<char> {
    "Payment confirmed for invoice "@ + invoice_id
}

/// The message of the event the monitor emits for an expired invoice.
pub open spec fn invoice_expired_message(invoice_id: Seq<char>) -> Seq<char> {
    "Invoice "@ + invoice_id + " expired."@
}

/// An invoice status that needs no further checking.
pub open spec fn is_settled(status: Seq<char>) -> bool {
    status == "Confirmed"@ || status == "Expired"@ || status == "Failed"@ || status == "Cancelled"@
}

/// Where a payment check stands after looking at the invoice itself.
pub enum PaymentCheck {
    /// Nothing is left to check; this is the invoice as it now stands.
    Settled(Invoice),
    /// The chain must be watched for this invoice, under this quote.
    Watch(Invoice, PaymentQuote),
}

/// The invoice status that a watch result moves an invoice to, if any.
pub open spec fn status_after_watch(observed: Result<PaymentStatus, PaymentError>) -> Option<InvoiceStatus> {
    match observed {
        Ok(PaymentStatus::Detected) => Some(InvoiceStatus::PendingConfirmation),
        Ok(PaymentStatus::Confirmed) => Some(InvoiceStatus::Confirmed),
        Ok(PaymentStatus::Expired) => Some(InvoiceStatus::Expired),
        _ => None,
    }
}

/// An invoice with a new status, all else equal.
fn with_status(invoice: Invoice, status: InvoiceStatus) -> (r: Invoice)
    ensures
        restatus(invoice, r, status),
{
    let mut r = invoice;
    r.status = status.to_string();
    r
}

/// `after` is `before` once a payment for `invoice` under `signature` is
/// confirmed: the invoice is stored with status `Confirmed` and the
/// signature; a job of the active pool that holds the invoice, if any, is
/// moved to `PaymentDetected`; the matching events are emitted.
pub open spec fn payment_confirmed(before: App, after: App, invoice: Invoice, signature: Seq<char>) -> bool {
    &&& after.completed() == before.completed()
    &&& after.reports() == before.reports()
    &&& exists|x: Invoice| {
        &&& x.invoice_id == invoice.invoice_id && x.wallet == invoice.wallet && x.amount == invoice.amount
        &&& x.currency == invoice.currency && x.created_at == invoice.created_at
        &&& x.expires_at == invoice.expires_at
        &&& x.status@ == "Confirmed"@
        &&& (x.signature matches Some(s) && s@ == signature)
        &&& after.invoices() == before.invoices().insert(invoice.invoice_id@, x)
    }
    &&& !holds_invoice(before.active(), invoice.invoice_id@) ==> {
        &&& after.active() == before.active()
        &&& emitted(
            before.events(),
            after.events(),
            EventType::InvoiceCreated,
            None,
            invoice_stored_message(invoice.invoice_id@),
        )
    }
    &&& holds_invoice(before.active(), invoice.invoice_id@) ==> exists|k: Seq<char>| {
        &&& before.active().contains_key(k)
        &&& (#[trigger] before.active()[k]).invoice_id == Some(invoice.invoice_id@)
        &&& after.active().contains_key(k)
        &&& after.active() == before.active().insert(
            k,
            before.active()[k].with_status(JobStatus::PaymentDetected, after.active()[k].updated_at),
        )
        &&& after.events().len() == before.events().len() + 2
        &&& emitted(
            before.events(),
            after.events().drop_last(),
            EventType::InvoiceCreated,
            None,
            invoice_stored_message(invoice.invoice_id@),
        )
        &&& emitted(
            after.events().drop_last(),
            after.events(),
            EventType::PaymentDetected,
            Some(k),
            payment_confirmed_message(invoice.invoice_id@),
        )
    }
}

/// The coordinator of invoice creation, payment checks and verification.
pub struct PaymentEngine {
    pub store: InvoiceStore,
    pub provider: SolanaPaymentProvider,
}

impl PaymentEngine {
    /// An engine for a merchant wallet, price list and invoice lifetime.
    pub fn new(merchant_wallet: &str, pricing: PricingConfig, invoice_expiry_minutes: u64) -> (r: Result<
        Self,
        PaymentError,
    >)
        ensures
            r is Ok <==> spec_pubkey_parses(merchant_wallet@),
            r matches Ok(p) ==> p.provider.merchant_wallet@ == merchant_wallet@ && p.provider.pricing == pricing
                && p.provider.invoice_expiry_minutes == invoice_expiry_minutes,
            r matches Err(e) ==> (e matches PaymentError::WalletError(m) && m@ == "Invalid merchant wallet address"@),
    {
        match SolanaPaymentProvider::new(merchant_wallet, pricing, invoice_expiry_minutes) {
            Ok(provider) => Ok(PaymentEngine { store: InvoiceStore, provider }),
            Err(e) => Err(e),
        }
    }

    /// Issues an invoice for a job at time `now`: quotes the service, stores
    /// the invoice as `AwaitingPayment`, links it to the job, moves the job
    /// through `Quoted` to `AwaitingPayment` and emits an event. The invoice
    /// is stored even when the job is not active; the error then names the
    /// missing job.
    pub fn create_invoice(&self, app: &mut App, job_id: &str, service: ServiceType, now: Timestamp) -> (r: Result<
        Invoice,
        PaymentError,
    >)
        requires
            old(app).wf(),
            now.can_add_minutes(self.provider.invoice_expiry_minutes),
        ensures
            final(app).wf(),
            final(app).completed() == old(app).completed(),
            final(app).reports() == old(app).reports(),
            exists|x: Invoice| {
                &&& fresh_invoice(x, self.provider, service, now)
                &&& final(app).invoices() == old(app).invoices().insert(x.invoice_id@, x)
                &&& r is Ok ==> r == Ok::<Invoice, PaymentError>(x)
            },
            r is Ok <==> old(app).active().contains_key(job_id@),
            r matches Err(e) ==> (e matches PaymentError::InvoiceError(m) && m@ == "Job not found: "@ + job_id@),
            r is Err ==> final(app).active() == old(app).active() && final(app).events().len() == old(
                app,
            ).events().len() + 1,
            r matches Ok(x) ==> {
                &&& final(app).active().contains_key(job_id@)
                &&& final(app).active() == old(app).active().insert(
                    job_id@,
                    old(app).active()[job_id@].with_invoice(x.invoice_id@, final(app).active()[job_id@].updated_at)
                        .with_status(JobStatus::AwaitingPayment, final(app).active()[job_id@].updated_at),
                )
                &&& final(app).active()[job_id@].updated_at.representable()
                &&& final(app).events().len() == old(app).events().len() + 2
                &&& emitted(
                    old(app).events(),
                    final(app).events().drop_last(),
                    EventType::InvoiceCreated,
                    None,
                    invoice_stored_message(x.invoice_id@),
                )
                &&& emitted(
                    final(app).events().drop_last(),
                    final(app).events(),
                    EventType::InvoiceCreated,
                    Some(job_id@),
                    invoice_created_message(x.invoice_id@),
                )
            },
    {
        let quote = self.provider.create_quote(job_id, service, now);
        let invoice = Invoice {
            invoice_id: quote.invoice_reference.clone(),
            wallet: quote.wallet_address.clone(),
            amount: quote.amount,
            currency: quote.currency.clone(),
            status: InvoiceStatus::AwaitingPayment.to_string(),
            created_at: now,
            expires_at: quote.expires_at,
            signature: None,
        };
        let ghost x = invoice;
        assert(fresh_invoice(x, self.provider, service, now));
        let _ = self.store.store_invoice(app, invoice.clone());
        let ghost after_store = *app;
        assert(after_store.invoices() == old(app).invoices().insert(x.invoice_id@, x));
        match app.set_job_invoice(job_id, invoice.invoice_id.as_str()) {
            Ok(()) => {},
            Err(e) => {
                let m = e.message();
                assert(app.invoices() == old(app).invoices().insert(x.invoice_id@, x));
                return Err(PaymentError::InvoiceError(m));
            },
        }
        let ghost after_link = *app;
        match app.update_job_status(job_id, JobStatus::Quoted) {
            Ok(()) => {},
            Err(e) => {
                let m = e.message();
                return Err(PaymentError::InvoiceError(m));
            },
        }
        let ghost after_quote = *app;
        match app.update_job_status(job_id, JobStatus::AwaitingPayment) {
            Ok(()) => {},
            Err(e) => {
                let m = e.message();
                return Err(PaymentError::InvoiceError(m));
            },
        }
        let mut message = prefixed("Invoice ", invoice.invoice_id.as_str());
        message.append(" created.");
        app.emit_event(EventType::InvoiceCreated, Some(job_id.to_owned()), message);
        proof {
            assert(final(app).events().drop_last() =~= after_store.events());
            assert(after_link.active()[job_id@] == old(app).active()[job_id@].with_invoice(
                x.invoice_id@,
                after_link.active()[job_id@].updated_at,
            ));
            assert(after_quote.active()[job_id@] == after_link.active()[job_id@].with_status(
                JobStatus::Quoted,
                after_quote.active()[job_id@].updated_at,
            ));
            assert(app.invoices() == old(app).invoices().insert(x.invoice_id@, x));
        }
        Ok(invoice)
    }

    /// Marks an invoice paid under a signature, stores it, and moves the
    /// first active job that holds it to `PaymentDetected` with an event.
    pub fn confirm_payment(&self, app: &mut App, invoice: Invoice, signature: &str) -> (r: Result<(), PaymentError>)
        requires
            old(app).wf(),
        ensures
            r is Ok,
            final(app).wf(),
            payment_confirmed(*old(app), *final(app), invoice, signature@),
    {
        let mut confirmed = with_status(invoice, InvoiceStatus::Confirmed);
        confirmed.signature = Some(signature.to_owned());
        let invoice_id = confirmed.invoice_id.clone();
        let ghost x = confirmed;
        let _ = self.store.store_invoice(app, confirmed);
        let ghost after_store = *app;
        match App::first_job_with_invoice(&app.state.active_jobs, invoice_id.as_str()) {
            Some(job) => {
                let job_id = job.id;
                match app.update_job_status(job_id.as_str(), JobStatus::PaymentDetected) {
                    Ok(()) => {},
                    Err(e) => {
                        let m = e.message();
                        return Err(PaymentError::InvoiceError(m));
                    },
                }
                let message = prefixed("Payment confirmed for invoice ", invoice_id.as_str());
                app.emit_event(EventType::PaymentDetected, Some(job_id), message);
                proof {
                    assert(final(app).events().drop_last() =~= after_store.events());
                }
            },
            None => {},
        }
        Ok(())
    }

    /// Looks up an invoice and prepares its verification: the quote that
    /// stands for it, once the signature parses.
    pub fn verify_payment_begin(&self, app: &App, invoice_id: &str, signature: &str) -> (r: Result<(Invoice, PaymentQuote), PaymentError>)
        requires
            app.wf(),
        ensures
            !app.invoices().contains_key(invoice_id@) ==> (r matches Err(PaymentError::InvoiceError(m)) && m@
                == "Invoice not found: "@ + invoice_id@),
            app.invoices().contains_key(invoice_id@) && !spec_signature_parses(signature@) ==> (r matches Err(
                PaymentError::PaymentVerificationError(m),
            ) && m@ == "Invalid transaction signature"@),
            app.invoices().contains_key(invoice_id@) && spec_signature_parses(signature@) ==> (r matches Ok(p)
                && p.0 == app.invoices()[invoice_id@] && quote_of_invoice(p.1, p.0)),
    {
        let invoice = match self.store.get_invoice(app, invoice_id) {
            Ok(x) => x,
            Err(e) => return Err(e),
        };
        let quote = PaymentQuote::for_invoice(&invoice);
        match self.provider.check_signature(signature) {
            Ok(()) => {},
            Err(e) => return Err(e),
        }
        Ok((invoice, quote))
    }

    /// Finishes a verification once the chain has been asked for the
    /// transaction: a failed lookup is passed on, else the transaction is
    /// verified; when it holds, the payment is confirmed, and when the amount
    /// received is off, the invoice is marked `Failed` and stored.
    pub fn verify_payment_complete(
        &self,
        app: &mut App,
        invoice: Invoice,
        quote: &PaymentQuote,
        signature: &str,
        fetched: Result<FetchedTransaction, PaymentError>,
    ) -> (r: Result<PaymentReceipt, PaymentError>)
        requires
            old(app).wf(),
        ensures
            final(app).wf(),
            fetched matches Err(e) ==> (r matches Err(e2) && e2 == e),
            fetched is Err ==> *final(app) == *old(app),
            fetched matches Ok(tx) ==> {
                &&& r is Ok <==> verification_passes(self.provider.merchant_wallet@, *quote, signature@, tx)
                &&& amount_mismatched(*quote, signature@, tx) ==> {
                    &&& r == Err::<PaymentReceipt, PaymentError>(
                        PaymentError::AmountMismatch { expected: quote.amount, found: amount_received(tx) },
                    )
                    &&& invoice_marked(*old(app), *final(app), invoice, InvoiceStatus::Failed)
                }
                &&& r is Err && !amount_mismatched(*quote, signature@, tx) ==> *final(app) == *old(app)
                &&& r matches Ok(rc) ==> rc.invoice_id == quote.invoice_reference && rc.signature@ == signature@
                    && rc.amount == amount_received(tx) && rc.slot == tx.slot
                &&& r is Ok ==> payment_confirmed(*old(app), *final(app), invoice, signature@)
            },
    {
        let tx = match fetched {
            Ok(t) => t,
            Err(e) => return Err(e),
        };
        let receipt = match self.provider.verify(quote, signature, &tx) {
            Ok(rc) => rc,
            Err(e) => {
                let mismatch = matches!(e, PaymentError::AmountMismatch { .. });
                if mismatch {
                    let failed = with_status(invoice, InvoiceStatus::Failed);
                    let _ = self.store.store_invoice(app, failed);
                }
                return Err(e);
            },
        };
        let _ = self.confirm_payment(app, invoice, signature);
        Ok(receipt)
    }

    /// Looks at an invoice at time `now`, before the chain is watched: a
    /// settled invoice is returned as it is; an invoice whose expiry `now` is
    /// past is marked `Expired` and stored; any other needs watching under the
    /// quote that stands for it.
    pub fn check_payment_begin(&self, app: &mut App, invoice_id: &str, now: Timestamp) -> (r: Result<
        PaymentCheck,
        PaymentError,
    >)
        requires
            old(app).wf(),
        ensures
            final(app).wf(),
            final(app).active() == old(app).active(),
            final(app).completed() == old(app).completed(),
            final(app).reports() == old(app).reports(),
            !old(app).invoices().contains_key(invoice_id@) ==> (r matches Err(PaymentError::InvoiceError(m))
                && m@ == "Invoice not found: "@ + invoice_id@) && *final(app) == *old(app),
            old(app).invoices().contains_key(invoice_id@) && ({
                let st = old(app).invoices()[invoice_id@].status@;
                st == "Confirmed"@ || st == "Expired"@ || st == "Failed"@ || st == "Cancelled"@
            }) ==> (r matches Ok(PaymentCheck::Settled(y)) && y == old(app).invoices()[invoice_id@]
                && *final(app) == *old(app)),
            old(app).invoices().contains_key(invoice_id@) ==> {
                let x = old(app).invoices()[invoice_id@];
                &&& is_settled(x.status@) ==> (r matches Ok(PaymentCheck::Settled(y)) && y == x && *final(app)
                    == *old(app))
                &&& !is_settled(x.status@) && now.spec_after(x.expires_at) ==> (r matches Ok(
                    PaymentCheck::Settled(y),
                ) && {
                    &&& restatus(x, y, InvoiceStatus::Expired)
                    &&& final(app).invoices() == old(app).invoices().insert(invoice_id@, y)
                    &&& emitted(
                        old(app).events(),
                        final(app).events(),
                        EventType::InvoiceCreated,
                        None,
                        invoice_stored_message(invoice_id@),
                    )
                })
                &&& !is_settled(x.status@) && !now.spec_after(x.expires_at) ==> (r matches Ok(
                    PaymentCheck::Watch(y, q),
                ) && y == x && quote_of_invoice(q, x) && *final(app) == *old(app))
            },
    {
        let invoice = match self.store.get_invoice(app, invoice_id) {
            Ok(x) => x,
            Err(e) => return Err(e),
        };
        let confirmed = InvoiceStatus::Confirmed.to_string();
        let expired = InvoiceStatus::Expired.to_string();
        let failed = InvoiceStatus::Failed.to_string();
        let cancelled = InvoiceStatus::Cancelled.to_string();
        if invoice.status == confirmed || invoice.status == expired || invoice.status == failed
            || invoice.status == cancelled {
            return Ok(PaymentCheck::Settled(invoice));
        }
        if now.is_after(&invoice.expires_at) {
            let updated = with_status(invoice, InvoiceStatus::Expired);
            let _ = self.store.store_invoice(app, updated.clone());
            return Ok(PaymentCheck::Settled(updated));
        }
        let quote = PaymentQuote::for_invoice(&invoice);
        Ok(PaymentCheck::Watch(invoice, quote))
    }

    /// Applies what watching the chain reported to an invoice: a detected
    /// payment moves it to `PendingConfirmation`, a confirmed one to
    /// `Confirmed`, expiry to `Expired` (each stored); anything else,
    /// failures of the watch included, leaves it as it is.
    pub fn check_payment_complete(
        &self,
        app: &mut App,
        invoice: Invoice,
        observed: Result<PaymentStatus, PaymentError>,
    ) -> (r: Invoice)
        requires
            old(app).wf(),
        ensures
            final(app).wf(),
            final(app).active() == old(app).active(),
            final(app).completed() == old(app).completed(),
            final(app).reports() == old(app).reports(),
            match status_after_watch(observed) {
                Some(st) => {
                    &&& restatus(invoice, r, st)
                    &&& final(app).invoices() == old(app).invoices().insert(invoice.invoice_id@, r)
                    &&& emitted(
                        old(app).events(),
                        final(app).events(),
                        EventType::InvoiceCreated,
                        None,
                        invoice_stored_message(invoice.invoice_id@),
                    )
                },
                None => r == invoice && *final(app) == *old(app),
            },
    {
        let next = match observed {
            Ok(PaymentStatus::Detected) => Some(InvoiceStatus::PendingConfirmation),
            Ok(PaymentStatus::Confirmed) => Some(InvoiceStatus::Confirmed),
            Ok(PaymentStatus::Expired) => Some(InvoiceStatus::Expired),
            _ => None,
        };
        match next {
            Some(st) => {
                let updated = with_status(invoice, st);
                let _ = self.store.store_invoice(app, updated.clone());
                updated
            },
            None => invoice,
        }
    }

    /// Marks an invoice `Cancelled` and stores it.
    pub fn cancel_invoice(&self, app: &mut App, invoice_id: &str) -> (r: Result<(), PaymentError>)
        requires
            old(app).wf(),
        ensures
            final(app).wf(),
            r is Ok <==> old(app).invoices().contains_key(invoice_id@),
            r matches Err(e) ==> (e matches PaymentError::InvoiceError(m) && m@ == "Invoice not found: "@ + invoice_id@),
            r is Err ==> *final(app) == *old(app),
            r is Ok ==> invoice_restatused(*old(app), *final(app), invoice_id@, InvoiceStatus::Cancelled),
    {
        self.set_invoice_status(app, invoice_id, InvoiceStatus::Cancelled)
    }

    /// Marks an invoice `Failed` and stores it.
    pub fn mark_failed(&self, app: &mut App, invoice_id: &str) -> (r: Result<(), PaymentError>)
        requires
            old(app).wf(),
        ensures
            final(app).wf(),
            r is Ok <==> old(app).invoices().contains_key(invoice_id@),
            r matches Err(e) ==> (e matches PaymentError::InvoiceError(m) && m@ == "Invoice not found: "@ + invoice_id@),
            r is Err ==> *final(app) == *old(app),
            r is Ok ==> invoice_restatused(*old(app), *final(app), invoice_id@, InvoiceStatus::Failed),
    {
        self.set_invoice_status(app, invoice_id, InvoiceStatus::Failed)
    }

    fn set_invoice_status(&self, app: &mut App, invoice_id: &str, status: InvoiceStatus) -> (r: Result<(), PaymentError>)
        requires
            old(app).wf(),
        ensures
            final(app).wf(),
            r is Ok <==> old(app).invoices().contains_key(invoice_id@),
            r matches Err(e) ==> (e matches PaymentError::InvoiceError(m) && m@ == "Invoice not found: "@ + invoice_id@),
            r is Err ==> *final(app) == *old(app),
            r is Ok ==> invoice_restatused(*old(app), *final(app), invoice_id@, status),
    {
        let invoice = match self.store.get_invoice(app, invoice_id) {
            Ok(x) => x,
            Err(e) => return Err(e),
        };
        let updated = with_status(invoice, status);
        let _ = self.store.store_invoice(app, updated);
        Ok(())
    }
}

/// `after` is `before` with the stored invoice `invoice_id` given status
/// `status` and stored again (emitting the store event).
pub open spec fn invoice_restatused(before: App, after: App, invoice_id: Seq<char>, status: InvoiceStatus) -> bool {
    &&& before.invoices().contains_key(invoice_id)
    &&& after.active() == before.active()
    &&& after.completed() == before.completed()
    &&& after.reports() == before.reports()
    &&& after.invoices().contains_key(invoice_id)
    &&& restatus(before.invoices()[invoice_id], after.invoices()[invoice_id], status)
    &&& after.invoices() == before.invoices().insert(invoice_id, after.invoices()[invoice_id])
    &&& emitted(
        before.events(),
        after.events(),
        EventType::InvoiceCreated,
        None,
        invoice_stored_message(invoice_id),
    )
}

/// `after` is `before` with `invoice` given status `status` and stored
/// (replacing the stored invoice with its id, emitting the store event).
pub open spec fn invoice_marked(before: App, after: App, invoice: Invoice, status: InvoiceStatus) -> bool {
    &&& after.active() == before.active()
    &&& after.completed() == before.completed()
    &&& after.reports() == before.reports()
    &&& after.invoices().contains_key(invoice.invoice_id@)
    &&& restatus(invoice, after.invoices()[invoice.invoice_id@], status)
    &&& after.invoices() == before.invoices().insert(invoice.invoice_id@, after.invoices()[invoice.invoice_id@])
    &&& emitted(
        before.events(),
        after.events(),
        EventType::InvoiceCreated,
        None,
        invoice_stored_message(invoice.invoice_id@),
    )
}

/// The background check of pending invoices, one invoice at a time: the
/// caller lists the pending invoices, asks this monitor what to do with each,
/// watches the chain when told to, and hands back what it saw.
pub struct PaymentMonitor;

impl PaymentMonitor {
    pub fn new() -> (m: PaymentMonitor) {
        PaymentMonitor
    }

    /// The invoices the monitor looks at: those waiting for payment.
    pub fn pending_invoices(&self, app: &App) -> (r: Vec<Invoice>)
        ensures
            r@ == app.state.invoice_cache@.filter(|x: Invoice| is_pending(x)),
    {
        InvoiceStore.list_pending(app)
    }

    /// First step for one pending invoice at time `now`: past its expiry it is marked
    /// `Expired`, stored, and an event announces it (no watching then);
    /// otherwise the quote to watch under is returned.
    pub fn expire_or_quote(&self, app: &mut App, invoice: Invoice, now: Timestamp) -> (r: Option<PaymentQuote>)
        requires
            old(app).wf(),
        ensures
            final(app).wf(),
            final(app).active() == old(app).active(),
            final(app).completed() == old(app).completed(),
            final(app).reports() == old(app).reports(),
            r is None <==> now.spec_after(invoice.expires_at),
            r matches Some(q) ==> (quote_of_invoice(q, invoice) && *final(app) == *old(app)),
            r is None ==> {
                &&& exists|y: Invoice| restatus(invoice, y, InvoiceStatus::Expired) && final(app).invoices()
                    == old(app).invoices().insert(invoice.invoice_id@, y)
                &&& final(app).events().len() == old(app).events().len() + 2
                &&& emitted(
                    old(app).events(),
                    final(app).events().drop_last(),
                    EventType::InvoiceCreated,
                    None,
                    invoice_stored_message(invoice.invoice_id@),
                )
                &&& emitted(
                    final(app).events().drop_last(),
                    final(app).events(),
                    EventType::PaymentDetected,
                    None,
                    invoice_expired_message(invoice.invoice_id@),
                )
            },
    {
        if now.is_after(&invoice.expires_at) {
            let updated = with_status(invoice, InvoiceStatus::Expired);
            let mut message = prefixed("Invoice ", updated.invoice_id.as_str());
            message.append(" expired.");
            app.store_invoice(updated);
            let ghost after_store = *app;
            app.emit_event(EventType::PaymentDetected, None, message);
            assert(final(app).events().drop_last() =~= after_store.events());
            return None;
        }
        Some(PaymentQuote::for_invoice(&invoice))
    }

    /// Second step: a detected payment moves the invoice to
    /// `PendingConfirmation`, a confirmed one to `Confirmed` (each stored);
    /// anything else, failures of the watch included, changes nothing.
    pub fn apply_observation(&self, app: &mut App, invoice: Invoice, observed: Result<PaymentStatus, PaymentError>)
        requires
            old(app).wf(),
        ensures
            final(app).wf(),
            final(app).active() == old(app).active(),
            final(app).completed() == old(app).completed(),
            final(app).reports() == old(app).reports(),
            observed == Ok::<PaymentStatus, PaymentError>(PaymentStatus::Detected) || observed == Ok::<
                PaymentStatus,
                PaymentError,
            >(PaymentStatus::Confirmed) ==> exists|y: Invoice| {
                &&& restatus(
                    invoice,
                    y,
                    if observed == Ok::<PaymentStatus, PaymentError>(PaymentStatus::Detected) {
                        InvoiceStatus::PendingConfirmation
                    } else {
                        InvoiceStatus::Confirmed
                    },
                )
                &&& final(app).invoices() == old(app).invoices().insert(invoice.invoice_id@, y)
                &&& emitted(
                    old(app).events(),
                    final(app).events(),
                    EventType::InvoiceCreated,
                    None,
                    invoice_stored_message(invoice.invoice_id@),
                )
            },
            !(observed == Ok::<PaymentStatus, PaymentError>(PaymentStatus::Detected) || observed == Ok::<
                PaymentStatus,
                PaymentError,
            >(PaymentStatus::Confirmed)) ==> *final(app) == *old(app),
    {
        match observed {
            Ok(PaymentStatus::Detected) => {
                let updated = with_status(invoice, InvoiceStatus::PendingConfirmation);
                app.store_invoice(updated);
            },
            Ok(PaymentStatus::Confirmed) => {
                let updated = with_status(invoice, InvoiceStatus::Confirmed);
                app.store_invoice(updated);
            },
            _ => {},
        }
    }
}

} // verus!
