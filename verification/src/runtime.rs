//! The application runtime: job, invoice, report and event records, the
//! pools that hold them, and the lifecycle operations on those pools.

use std::collections::HashMap;
use vstd::prelude::*;
use crate::clock::{Timestamp, utc_now};
use crate::pool::{Keyed, Pool, map_of, keys_distinct, upsert_all, lemma_map_of_index, lemma_map_of_key};
use crate::text::{spec_to_lowercase, str_eq, to_lowercase};

verus! {

/// Declares `std::io::Error` to Verus as an opaque type, so that a core
/// error can carry one; nothing about its contents is assumed.
#[verifier::external_type_specification]
#[verifier::external_body]
pub struct ExIoError(std::io::Error);

/// Core errors for application operations.
#[derive(Debug)]
pub enum CoreError {
    JobNotFound(String),
    InvoiceNotFound(String),
    ReportNotFound(String),
    ConfigError(String),
    IoError(std::io::Error),
}

/// The text that `std::io::Error`'s `Display` writes (its `to_string`).
/// Nothing is stated of it: the error is opaque here.
#[verifier::external_body]
fn io_error_text(e: &std::io::Error) -> String {
    e.to_string()
}

/// The message of a core error, for the variants that carry text.
pub open spec fn core_error_text(e: CoreError) -> Seq<char> {
    match e {
        CoreError::JobNotFound(s) => "Job not found: "@ + s@,
        CoreError::InvoiceNotFound(s) => "Invoice not found: "@ + s@,
        CoreError::ReportNotFound(s) => "Report not found: "@ + s@,
        CoreError::ConfigError(s) => "Configuration error: "@ + s@,
        CoreError::IoError(_) => Seq::empty(),
    }
}

impl CoreError {
    /// The error's message, as its display text reads.
    pub fn message(&self) -> (r: String)
        ensures
            !(self is IoError) ==> r@ == core_error_text(*self),
            self is IoError ==> starts_with_io(r@),
    {
        match self {
            CoreError::JobNotFound(s) => prefixed("Job not found: ", s),
            CoreError::InvoiceNotFound(s) => prefixed("Invoice not found: ", s),
            CoreError::ReportNotFound(s) => prefixed("Report not found: ", s),
            CoreError::ConfigError(s) => prefixed("Configuration error: ", s),
            CoreError::IoError(e) => {
                let t = io_error_text(e);
                let r = prefixed("IO error: ", &t);
                assert(r@.subrange(0, ("IO error: "@).len() as int) =~= "IO error: "@);
                r
            },
        }
    }
}

/// The message of an I/O core error starts with its label.
pub open spec fn starts_with_io(s: Seq<char>) -> bool {
    crate::text::starts_with_seq(s, "IO error: "@)
}

/// `head` followed by `tail`.
pub fn prefixed(head: &str, tail: &str) -> (r: String)
    ensures
        r@ == head@ + tail@,
{
    let mut r = String::from_str(head);
    r.append(tail);
    r
}

/// The current state of a job.
#[derive(Clone, Copy, Debug, PartialEq, Eq, Structural)]
pub enum JobStatus {
    Created,
    Quoted,
    AwaitingPayment,
    PaymentDetected,
    Executing,
    GeneratingReport,
    Completed,
    Failed,
    Cancelled,
    Archived,
}

/// The available blockchain services.
#[derive(Clone, Copy, Debug, PartialEq, Eq, Hash, Structural)]
pub enum ServiceType {
    SmartContractReview,
    OnChainIntelligence,
}

/// The name of a service type as its `Debug` output writes it.
pub open spec fn service_type_name(s: ServiceType) -> Seq<char> {
    match s {
        ServiceType::SmartContractReview => "SmartContractReview"@,
        ServiceType::OnChainIntelligence => "OnChainIntelligence"@,
    }
}

impl ServiceType {
    /// The variant's name (what `{:?}` writes).
    pub fn debug_name(&self) -> (r: &'static str)
        ensures
            r@ == service_type_name(*self),
    {
        match self {
            ServiceType::SmartContractReview => "SmartContractReview",
            ServiceType::OnChainIntelligence => "OnChainIntelligence",
        }
    }
}

/// The evaluated risk level of an asset or smart contract, lowest first.
#[derive(Clone, Copy, Debug, PartialEq, Eq, Structural)]
pub enum RiskLevel {
    VeryLow,
    Low,
    Medium,
    High,
    Critical,
}

/// The name of a risk level as its `Debug` output writes it.
pub open spec fn risk_level_name(r: RiskLevel) -> Seq<char> {
    match r {
        RiskLevel::VeryLow => "VeryLow"@,
        RiskLevel::Low => "Low"@,
        RiskLevel::Medium => "Medium"@,
        RiskLevel::High => "High"@,
        RiskLevel::Critical => "Critical"@,
    }
}

/// The position of a risk level in the order from `VeryLow` to `Critical`.
pub open spec fn risk_rank(r: RiskLevel) -> int {
    match r {
        RiskLevel::VeryLow => 0,
        RiskLevel::Low => 1,
        RiskLevel::Medium => 2,
        RiskLevel::High => 3,
        RiskLevel::Critical => 4,
    }
}

impl RiskLevel {
    /// The variant's name (what `{:?}` writes).
    pub fn debug_name(&self) -> (r: &'static str)
        ensures
            r@ == risk_level_name(*self),
    {
        match self {
            RiskLevel::VeryLow => "VeryLow",
            RiskLevel::Low => "Low",
            RiskLevel::Medium => "Medium",
            RiskLevel::High => "High",
            RiskLevel::Critical => "Critical",
        }
    }
}

/// Events emitted within the application.
#[derive(Clone, Copy, Debug, PartialEq, Eq, Structural)]
pub enum EventType {
    JobCreated,
    InvoiceCreated,
    PaymentDetected,
    JobStarted,
    JobCompleted,
    ReportGenerated,
    ApplicationStarted,
    ApplicationStopped,
}

#[derive(Clone, Debug)]
pub struct ApplicationConfig {
    pub name: String,
    pub version: String,
    pub environment: String,
    pub debug: bool,
    pub host: String,
    pub port: u16,
    pub timezone: String,
}

#[derive(Clone, Debug)]
pub struct RuntimeConfig {
    pub shutdown_timeout_seconds: u64,
    pub worker_threads: usize,
    pub max_concurrent_jobs: usize,
    pub enable_graceful_shutdown: bool,
}

#[derive(Clone, Debug)]
pub struct LoggingConfig {
    pub level: String,
    pub log_file: String,
    pub payment_log: String,
    pub enable_console: bool,
    pub enable_file: bool,
    pub rotation: String,
    pub max_log_files: usize,
}

#[derive(Clone, Debug)]
pub struct SolanaConfig {
    pub network: String,
    pub rpc_url: String,
    pub commitment: String,
    pub request_timeout_seconds: u64,
    pub max_retries: usize,
    pub retry_delay_seconds: u64,
}

#[derive(Clone, Debug)]
pub struct WalletConfig {
    pub merchant_wallet: String,
    pub currency: String,
}

#[derive(Clone, Debug)]
pub struct PaymentConfig {
    pub enabled: bool,
    pub poll_interval_seconds: u64,
    pub confirmation_count: usize,
    pub payment_timeout_seconds: u64,
    pub invoice_expiry_minutes: u64,
    pub allow_partial_payment: bool,
    pub allow_overpayment: bool,
    pub auto_start_job: bool,
}

#[derive(Clone, Debug)]
pub struct ReportConfig {
    pub enabled: bool,
    pub output_directory: String,
    pub template_directory: String,
    pub generate_markdown: bool,
    pub generate_pdf: bool,
    pub keep_history: bool,
    pub compress_reports: bool,
}

#[derive(Clone, Debug)]
pub struct UploadConfig {
    pub directory: String,
    pub max_file_size_mb: u64,
    pub allowed_extensions: Vec<String>,
}

#[derive(Clone, Debug)]
pub struct StorageConfig {
    pub invoice_directory: String,
    pub history_directory: String,
    pub report_directory: String,
    pub upload_directory: String,
}

#[derive(Clone, Debug)]
pub struct SecurityConfig {
    pub enable_rate_limiting: bool,
    pub requests_per_minute: u32,
    pub enable_cors: bool,
    pub allowed_origins: Vec<String>,
}

#[derive(Clone, Debug)]
pub struct TerminalConfig {
    pub show_timestamp: bool,
    pub show_banner: bool,
    pub animated_cursor: bool,
    pub typing_speed: u64,
    pub enable_colors: bool,
}

#[derive(Clone, Debug)]
pub struct FeatureFlags {
    pub smart_contract_review: bool,
    pub onchain_intelligence: bool,
    pub pdf_reports: bool,
    pub markdown_reports: bool,
    pub payment_monitor: bool,
    pub job_history: bool,
}

/// The verbosity a logging configuration asks for.
#[derive(Clone, Copy, Debug, PartialEq, Eq, Structural)]
pub enum LogLevel {
    Trace,
    Debug,
    Info,
    Warn,
    Error,
}

/// The verbosity a configured level name selects: `debug`, `warn`, `error`
/// or `trace` in any letter case, and `Info` for any other name.
pub open spec fn log_level_named(name: Seq<char>) -> LogLevel {
    let n = spec_to_lowercase(name);
    if n == "debug"@ {
        LogLevel::Debug
    } else if n == "warn"@ {
        LogLevel::Warn
    } else if n == "error"@ {
        LogLevel::Error
    } else if n == "trace"@ {
        LogLevel::Trace
    } else {
        LogLevel::Info
    }
}

/// The verbosity a logging configuration selects.
pub fn log_level(config: &LoggingConfig) -> (l: LogLevel)
    ensures
        l == log_level_named(config.level@),
{
    let n = to_lowercase(config.level.as_str());
    if str_eq(n.as_str(), "debug") {
        LogLevel::Debug
    } else if str_eq(n.as_str(), "warn") {
        LogLevel::Warn
    } else if str_eq(n.as_str(), "error") {
        LogLevel::Error
    } else if str_eq(n.as_str(), "trace") {
        LogLevel::Trace
    } else {
        LogLevel::Info
    }
}

/// The view of an optional string.
pub open spec fn opt_view(o: Option<String>) -> Option<Seq<char>> {
    match o {
        Some(s) => Some(s@),
        None => None,
    }
}

/// A copy of an optional string.
pub fn clone_opt(o: &Option<String>) -> (r: Option<String>)
    ensures
        r == *o,
{
    match o {
        Some(s) => Some(s.clone()),
        None => None,
    }
}

/// An automated AI job.
#[derive(Debug)]
pub struct Job {
    pub id: String,
    pub status: JobStatus,
    pub service: ServiceType,
    pub created_at: Timestamp,
    pub updated_at: Timestamp,
    pub input_source: String,
    pub invoice_id: Option<String>,
    pub report_id: Option<String>,
    pub metadata: HashMap<String, String>,
}

/// What a job holds, as mathematical values.
pub struct JobView {
    pub id: Seq<char>,
    pub status: JobStatus,
    pub service: ServiceType,
    pub created_at: Timestamp,
    pub updated_at: Timestamp,
    pub input_source: Seq<char>,
    pub invoice_id: Option<Seq<char>>,
    pub report_id: Option<Seq<char>>,
    pub metadata: Map<String, String>,
}

impl View for Job {
    type V = JobView;

    open spec fn view(&self) -> JobView {
        JobView {
            id: self.id@,
            status: self.status,
            service: self.service,
            created_at: self.created_at,
            updated_at: self.updated_at,
            input_source: self.input_source@,
            invoice_id: opt_view(self.invoice_id),
            report_id: opt_view(self.report_id),
            metadata: self.metadata@,
        }
    }
}

impl JobView {
    /// The job with a new status, touched at `t`.
    pub open spec fn with_status(self, status: JobStatus, t: Timestamp) -> JobView {
        JobView { status: status, updated_at: t, ..self }
    }

    /// The job linked to invoice `invoice_id`, touched at `t`.
    pub open spec fn with_invoice(self, invoice_id: Seq<char>, t: Timestamp) -> JobView {
        JobView { invoice_id: Some(invoice_id), updated_at: t, ..self }
    }

    /// The job linked to report `report_id`, touched at `t`.
    pub open spec fn with_report(self, report_id: Seq<char>, t: Timestamp) -> JobView {
        JobView { report_id: Some(report_id), updated_at: t, ..self }
    }
}

impl Clone for Job {
    fn clone(&self) -> (r: Self)
        ensures
            r@ == self@,
    {
        Job {
            id: self.id.clone(),
            status: self.status,
            service: self.service,
            created_at: self.created_at,
            updated_at: self.updated_at,
            input_source: self.input_source.clone(),
            invoice_id: clone_opt(&self.invoice_id),
            report_id: clone_opt(&self.report_id),
            metadata: self.metadata.clone(),
        }
    }
}

impl Keyed for Job {
    open spec fn key_view(&self) -> Seq<char> {
        self.id@
    }

    fn key(&self) -> (k: &str) {
        self.id.as_str()
    }
}

/// A customer invoice waiting for blockchain payment. `amount` is in
/// lamports (10^-9 SOL).
#[derive(Debug)]
pub struct Invoice {
    pub invoice_id: String,
    pub wallet: String,
    pub amount: u64,
    pub currency: String,
    pub status: String,
    pub created_at: Timestamp,
    pub expires_at: Timestamp,
    pub signature: Option<String>,
}

impl Clone for Invoice {
    fn clone(&self) -> (r: Self)
        ensures
            r == *self,
    {
        Invoice {
            invoice_id: self.invoice_id.clone(),
            wallet: self.wallet.clone(),
            amount: self.amount,
            currency: self.currency.clone(),
            status: self.status.clone(),
            created_at: self.created_at,
            expires_at: self.expires_at,
            signature: clone_opt(&self.signature),
        }
    }
}

impl Keyed for Invoice {
    open spec fn key_view(&self) -> Seq<char> {
        self.invoice_id@
    }

    fn key(&self) -> (k: &str) {
        self.invoice_id.as_str()
    }
}

/// Metadata about a generated report.
#[derive(Debug)]
pub struct ReportMetadata {
    pub report_id: String,
    pub job_id: String,
    pub filename: String,
    pub generated_at: Timestamp,
    pub service: ServiceType,
}

impl Clone for ReportMetadata {
    fn clone(&self) -> (r: Self)
        ensures
            r == *self,
    {
        ReportMetadata {
            report_id: self.report_id.clone(),
            job_id: self.job_id.clone(),
            filename: self.filename.clone(),
            generated_at: self.generated_at,
            service: self.service,
        }
    }
}

impl Keyed for ReportMetadata {
    open spec fn key_view(&self) -> Seq<char> {
        self.report_id@
    }

    fn key(&self) -> (k: &str) {
        self.report_id.as_str()
    }
}

/// An application event, kept for lifecycle tracking.
#[derive(Debug)]
pub struct ApplicationEvent {
    pub event_type: EventType,
    pub job_id: Option<String>,
    pub timestamp: Timestamp,
    pub message: String,
}

impl Clone for ApplicationEvent {
    fn clone(&self) -> (r: Self)
        ensures
            r == *self,
    {
        ApplicationEvent {
            event_type: self.event_type,
            job_id: clone_opt(&self.job_id),
            timestamp: self.timestamp,
            message: self.message.clone(),
        }
    }
}

/// A fresh random identifier: a version-4 UUID in hyphenated lower-case text
/// (`uuid::Uuid::new_v4` written with `to_string`). `new_v4` masks random
/// bits so that the version digit is 4 and the variant digit is one of 8, 9,
/// a and b; every outcome has that shape. Which identifier comes out is not
/// stated.
#[verifier::external_body]
pub fn generate_uuid() -> (s: String)
    ensures
        is_v4_uuid_text(s@),
{
    uuid::Uuid::new_v4().to_string()
}

/// The hyphenated text of a version-4 UUID of the RFC variant: a '4' at
/// position 14 and one of 8, 9, a, b at position 19.
pub open spec fn is_v4_uuid_text(s: Seq<char>) -> bool {
    &&& is_uuid_text(s)
    &&& s[14] == '4'
    &&& (s[19] == '8' || s[19] == '9' || s[19] == 'a' || s[19] == 'b')
}

/// A lower-case hexadecimal digit.
pub open spec fn is_lower_hex(c: char) -> bool {
    ('0' <= c && c <= '9') || ('a' <= c && c <= 'f')
}

/// The hyphenated text of a UUID: 36 characters, hyphens at positions
/// 8, 13, 18 and 23, lower-case hexadecimal digits elsewhere.
pub open spec fn is_uuid_text(s: Seq<char>) -> bool {
    &&& s.len() == 36
    &&& forall|i: int|
        0 <= i < 36 ==> if i == 8 || i == 13 || i == 18 || i == 23 {
            s[i] == '-'
        } else {
            is_lower_hex(#[trigger] s[i])
        }
}

/// The job map that a pool of jobs stands for, each job taken by its view.
pub open spec fn job_map(s: Seq<Job>) -> Map<Seq<char>, JobView> {
    map_of(s).map_values(|j: Job| j@)
}

/// Inserting a job into a map of jobs inserts its view into the map of views.
pub proof fn lemma_job_views_insert(m: Map<Seq<char>, Job>, k: Seq<char>, x: Job)
    ensures
        m.insert(k, x).map_values(|j: Job| j@) == m.map_values(|j: Job| j@).insert(k, x@),
{
    assert(m.insert(k, x).map_values(|j: Job| j@) =~= m.map_values(|j: Job| j@).insert(k, x@));
}

/// Removing a key from a map of jobs removes it from the map of views.
pub proof fn lemma_job_views_remove(m: Map<Seq<char>, Job>, k: Seq<char>)
    ensures
        m.remove(k).map_values(|j: Job| j@) == m.map_values(|j: Job| j@).remove(k),
{
    assert(m.remove(k).map_values(|j: Job| j@) =~= m.map_values(|j: Job| j@).remove(k));
}

/// The views of a sequence of jobs.
pub open spec fn job_views(s: Seq<Job>) -> Seq<JobView> {
    s.map_values(|j: Job| j@)
}

/// The event log grew by exactly one event with these contents, stamped with
/// a representable time.
pub open spec fn emitted(
    before: Seq<ApplicationEvent>,
    after: Seq<ApplicationEvent>,
    event_type: EventType,
    job_id: Option<Seq<char>>,
    message: Seq<char>,
) -> bool {
    &&& after.len() == before.len() + 1
    &&& after.subrange(0, before.len() as int) == before
    &&& after.last().event_type == event_type
    &&& opt_view(after.last().job_id) == job_id
    &&& after.last().message@ == message
    &&& after.last().timestamp.representable()
}

/// A job holding invoice `invoice_id` is in `m`.
pub open spec fn holds_invoice(m: Map<Seq<char>, JobView>, invoice_id: Seq<char>) -> bool {
    exists|k: Seq<char>| m.contains_key(k) && (#[trigger] m[k]).invoice_id == Some(invoice_id)
}

/// A job's view, if there is a job.
pub open spec fn opt_job_view(o: Option<Job>) -> Option<JobView> {
    match o {
        Some(j) => Some(j@),
        None => None,
    }
}

/// The first job of `s`, in storage order, that holds invoice `invoice_id`.
pub open spec fn first_holder(s: Seq<Job>, invoice_id: Seq<char>) -> Option<Job>
    decreases s.len(),
{
    if s.len() == 0 {
        None
    } else if opt_view(s[0].invoice_id) == Some(invoice_id) {
        Some(s[0])
    } else {
        first_holder(s.drop_first(), invoice_id)
    }
}

/// The message of a job-creation event.
pub open spec fn job_created_message(service: ServiceType) -> Seq<char> {
    "Job created for service "@ + service_type_name(service)
}

/// The message of an invoice-stored event.
pub open spec fn invoice_stored_message(invoice_id: Seq<char>) -> Seq<char> {
    "Invoice "@ + invoice_id + " stored"@
}

/// Thread-free shared state of the application: the job pools, the invoice
/// and report caches, and the event history.
pub struct AppState {
    pub active_jobs: Pool<Job>,
    pub completed_jobs: Pool<Job>,
    pub invoice_cache: Pool<Invoice>,
    pub report_cache: Pool<ReportMetadata>,
    pub event_history: Vec<ApplicationEvent>,
}

impl AppState {
    /// Every pool keeps its keys distinct.
    pub open spec fn wf(&self) -> bool {
        &&& self.active_jobs.wf()
        &&& self.completed_jobs.wf()
        &&& self.invoice_cache.wf()
        &&& self.report_cache.wf()
    }
}

/// The application: its state and the lifecycle operations on it.
pub struct App {
    pub state: AppState,
}

impl App {
    pub open spec fn wf(&self) -> bool {
        self.state.wf()
    }

    /// Active jobs by id.
    pub open spec fn active(&self) -> Map<Seq<char>, JobView> {
        job_map(self.state.active_jobs@)
    }

    /// Completed and archived jobs by id.
    pub open spec fn completed(&self) -> Map<Seq<char>, JobView> {
        job_map(self.state.completed_jobs@)
    }

    /// Invoices by id.
    pub open spec fn invoices(&self) -> Map<Seq<char>, Invoice> {
        self.state.invoice_cache.entries()
    }

    /// Report metadata by id.
    pub open spec fn reports(&self) -> Map<Seq<char>, ReportMetadata> {
        self.state.report_cache.entries()
    }

    /// The job that invoice `invoice_id` was issued for: the first active
    /// job holding it, else the first completed one.
    pub open spec fn job_for_invoice(&self, invoice_id: Seq<char>) -> Option<JobView> {
        match first_holder(self.state.active_jobs@, invoice_id) {
            Some(j) => Some(j@),
            None => opt_job_view(first_holder(self.state.completed_jobs@, invoice_id)),
        }
    }

    /// The events emitted so far, oldest first.
    pub open spec fn events(&self) -> Seq<ApplicationEvent> {
        self.state.event_history@
    }

    /// Jobs, invoices and reports are the same in `self` and `other`.
    pub open spec fn same_records(&self, other: &App) -> bool {
        &&& self.active() == other.active()
        &&& self.completed() == other.completed()
        &&& self.invoices() == other.invoices()
        &&& self.reports() == other.reports()
    }

    /// A runtime restored from saved job pools and invoices (a later record
    /// replaces an earlier one with the same id), with empty report cache,
    /// and an `ApplicationStarted` event.
    pub fn new(active_jobs: Vec<Job>, completed_jobs: Vec<Job>, invoices: Vec<Invoice>) -> (app: App)
        ensures
            app.wf(),
            app.state.active_jobs@ == upsert_all(Seq::<Job>::empty(), active_jobs@),
            app.state.completed_jobs@ == upsert_all(Seq::<Job>::empty(), completed_jobs@),
            app.state.invoice_cache@ == upsert_all(Seq::<Invoice>::empty(), invoices@),
            app.reports() == Map::<Seq<char>, ReportMetadata>::empty(),
            emitted(
                Seq::empty(),
                app.events(),
                EventType::ApplicationStarted,
                None,
                "ClawHire Core Runtime Initialized"@,
            ),
    {
        let state = AppState {
            active_jobs: Pool::from_records(active_jobs),
            completed_jobs: Pool::from_records(completed_jobs),
            invoice_cache: Pool::from_records(invoices),
            report_cache: Pool::new(),
            event_history: Vec::new(),
        };
        let mut app = App { state };
        assert(app.reports() =~= Map::<Seq<char>, ReportMetadata>::empty());
        app.emit_event(
            EventType::ApplicationStarted,
            None,
            String::from_str("ClawHire Core Runtime Initialized"),
        );
        app
    }

    /// Records an `ApplicationStopped` event.
    pub fn shutdown(&mut self)
        requires
            old(self).wf(),
        ensures
            final(self).wf(),
            final(self).same_records(old(self)),
            emitted(
                old(self).events(),
                final(self).events(),
                EventType::ApplicationStopped,
                None,
                "Application shutting down"@,
            ),
    {
        self.emit_event(EventType::ApplicationStopped, None, String::from_str("Application shutting down"));
    }

    /// Appends an event, stamped with the current time, to the event history.
    pub fn emit_event(&mut self, event_type: EventType, job_id: Option<String>, message: String)
        ensures
            final(self).state.active_jobs == old(self).state.active_jobs,
            final(self).state.completed_jobs == old(self).state.completed_jobs,
            final(self).state.invoice_cache == old(self).state.invoice_cache,
            final(self).state.report_cache == old(self).state.report_cache,
            emitted(old(self).events(), final(self).events(), event_type, opt_view(job_id), message@),
    {
        let event = ApplicationEvent { event_type, job_id, timestamp: utc_now(), message };
        self.state.event_history.push(event);
        assert(self.events().subrange(0, old(self).events().len() as int) =~= old(self).events());
    }

    /// Creates a job in state `Created` and stores it in the active pool.
    pub fn create_job(
        &mut self,
        service: ServiceType,
        input_source: String,
        metadata: HashMap<String, String>,
    ) -> (job: Job)
        requires
            old(self).wf(),
        ensures
            final(self).wf(),
            is_v4_uuid_text(job.id@),
            job.status == JobStatus::Created,
            job.service == service,
            job.input_source == input_source,
            job.invoice_id is None,
            job.report_id is None,
            job.metadata@ == metadata@,
            job.created_at.representable(),
            job.updated_at.representable(),
            final(self).active() == old(self).active().insert(job.id@, job@),
            final(self).completed() == old(self).completed(),
            final(self).invoices() == old(self).invoices(),
            final(self).reports() == old(self).reports(),
            emitted(
                old(self).events(),
                final(self).events(),
                EventType::JobCreated,
                Some(job.id@),
                job_created_message(service),
            ),
    {
        let id = generate_uuid();
        let created_at = utc_now();
        let updated_at = utc_now();
        let job = Job {
            id,
            status: JobStatus::Created,
            service,
            created_at,
            updated_at,
            input_source,
            invoice_id: None,
            report_id: None,
            metadata,
        };
        let stored = job.clone();
        proof {
            crate::pool::lemma_map_of_upsert(self.state.active_jobs@, stored);
            lemma_job_views_insert(map_of(self.state.active_jobs@), stored.id@, stored);
        }
        self.state.active_jobs.upsert(stored);
        let message = prefixed("Job created for service ", service.debug_name());
        let job_id = job.id.clone();
        self.emit_event(EventType::JobCreated, Some(job_id), message);
        job
    }

    /// Sets the status of an active job and stamps it with the current time;
    /// entering `Executing` or `Completed` also emits the matching event.
    pub fn update_job_status(&mut self, job_id: &str, new_status: JobStatus) -> (r: Result<(), CoreError>)
        requires
            old(self).wf(),
        ensures
            final(self).wf(),
            r is Ok <==> old(self).active().contains_key(job_id@),
            r matches Err(e) ==> e matches CoreError::JobNotFound(s) && s@ == job_id@,
            r is Err ==> final(self).same_records(old(self)) && final(self).events() == old(self).events(),
            r is Ok ==> {
                &&& final(self).active().contains_key(job_id@)
                &&& final(self).active()[job_id@].updated_at.representable()
                &&& final(self).active() == old(self).active().insert(
                    job_id@,
                    old(self).active()[job_id@].with_status(new_status, final(self).active()[job_id@].updated_at),
                )
                &&& final(self).completed() == old(self).completed()
                &&& final(self).invoices() == old(self).invoices()
                &&& final(self).reports() == old(self).reports()
                &&& new_status == JobStatus::Executing ==> emitted(
                    old(self).events(),
                    final(self).events(),
                    EventType::JobStarted,
                    Some(job_id@),
                    "Job execution started"@,
                )
                &&& new_status == JobStatus::Completed ==> emitted(
                    old(self).events(),
                    final(self).events(),
                    EventType::JobCompleted,
                    Some(job_id@),
                    "Job execution completed"@,
                )
                &&& (new_status != JobStatus::Executing && new_status != JobStatus::Completed)
                    ==> final(self).events() == old(self).events()
            },
    {
        let ghost old_active = self.state.active_jobs@;
        proof {
            crate::pool::lemma_map_of_without(old_active, job_id@);
            lemma_job_views_remove(map_of(old_active), job_id@);
        }
        match self.state.active_jobs.remove(job_id) {
            None => {
                assert(self.active() =~= old(self).active());
                Err(CoreError::JobNotFound(job_id.to_owned()))
            },
            Some(job) => {
                let mut job = job;
                job.status = new_status;
                job.updated_at = utc_now();
                proof {
                    assert(job.id@ == job_id@);
                    crate::pool::lemma_map_of_upsert(self.state.active_jobs@, job);
                    lemma_job_views_insert(map_of(self.state.active_jobs@), job_id@, job);
                    assert(map_of(old_active).remove(job_id@).insert(job_id@, job)
                        =~= map_of(old_active).insert(job_id@, job));
                    lemma_job_views_insert(map_of(old_active), job_id@, job);
                }
                self.state.active_jobs.upsert(job);
                if new_status == JobStatus::Executing {
                    self.emit_event(
                        EventType::JobStarted,
                        Some(job_id.to_owned()),
                        String::from_str("Job execution started"),
                    );
                } else if new_status == JobStatus::Completed {
                    self.emit_event(
                        EventType::JobCompleted,
                        Some(job_id.to_owned()),
                        String::from_str("Job execution completed"),
                    );
                }
                Ok(())
            },
        }
    }

    /// Links an active job to the invoice issued for it, stamped with the
    /// current time.
    pub fn set_job_invoice(&mut self, job_id: &str, invoice_id: &str) -> (r: Result<(), CoreError>)
        requires
            old(self).wf(),
        ensures
            final(self).wf(),
            final(self).events() == old(self).events(),
            r is Ok <==> old(self).active().contains_key(job_id@),
            r matches Err(e) ==> e matches CoreError::JobNotFound(s) && s@ == job_id@,
            r is Err ==> final(self).same_records(old(self)),
            r is Ok ==> {
                &&& final(self).active().contains_key(job_id@)
                &&& final(self).active()[job_id@].updated_at.representable()
                &&& final(self).active() == old(self).active().insert(
                    job_id@,
                    old(self).active()[job_id@].with_invoice(invoice_id@, final(self).active()[job_id@].updated_at),
                )
                &&& final(self).completed() == old(self).completed()
                &&& final(self).invoices() == old(self).invoices()
                &&& final(self).reports() == old(self).reports()
            },
    {
        let ghost old_active = self.state.active_jobs@;
        proof {
            crate::pool::lemma_map_of_without(old_active, job_id@);
            lemma_job_views_remove(map_of(old_active), job_id@);
        }
        match self.state.active_jobs.remove(job_id) {
            None => {
                assert(self.active() =~= old(self).active());
                Err(CoreError::JobNotFound(job_id.to_owned()))
            },
            Some(job) => {
                let mut job = job;
                job.invoice_id = Some(invoice_id.to_owned());
                job.updated_at = utc_now();
                proof {
                    crate::pool::lemma_map_of_upsert(self.state.active_jobs@, job);
                    lemma_job_views_insert(map_of(self.state.active_jobs@), job_id@, job);
                    assert(map_of(old_active).remove(job_id@).insert(job_id@, job)
                        =~= map_of(old_active).insert(job_id@, job));
                    lemma_job_views_insert(map_of(old_active), job_id@, job);
                }
                self.state.active_jobs.upsert(job);
                Ok(())
            },
        }
    }

    /// Links an active job to the report generated for it, stamped with the
    /// current time.
    pub fn set_job_report(&mut self, job_id: &str, report_id: &str) -> (r: Result<(), CoreError>)
        requires
            old(self).wf(),
        ensures
            final(self).wf(),
            final(self).events() == old(self).events(),
            r is Ok <==> old(self).active().contains_key(job_id@),
            r matches Err(e) ==> e matches CoreError::JobNotFound(s) && s@ == job_id@,
            r is Err ==> final(self).same_records(old(self)),
            r is Ok ==> {
                &&& final(self).active().contains_key(job_id@)
                &&& final(self).active()[job_id@].updated_at.representable()
                &&& final(self).active() == old(self).active().insert(
                    job_id@,
                    old(self).active()[job_id@].with_report(report_id@, final(self).active()[job_id@].updated_at),
                )
                &&& final(self).completed() == old(self).completed()
                &&& final(self).invoices() == old(self).invoices()
                &&& final(self).reports() == old(self).reports()
            },
    {
        let ghost old_active = self.state.active_jobs@;
        proof {
            crate::pool::lemma_map_of_without(old_active, job_id@);
            lemma_job_views_remove(map_of(old_active), job_id@);
        }
        match self.state.active_jobs.remove(job_id) {
            None => {
                assert(self.active() =~= old(self).active());
                Err(CoreError::JobNotFound(job_id.to_owned()))
            },
            Some(job) => {
                let mut job = job;
                job.report_id = Some(report_id.to_owned());
                job.updated_at = utc_now();
                proof {
                    crate::pool::lemma_map_of_upsert(self.state.active_jobs@, job);
                    lemma_job_views_insert(map_of(self.state.active_jobs@), job_id@, job);
                    assert(map_of(old_active).remove(job_id@).insert(job_id@, job)
                        =~= map_of(old_active).insert(job_id@, job));
                    lemma_job_views_insert(map_of(old_active), job_id@, job);
                }
                self.state.active_jobs.upsert(job);
                Ok(())
            },
        }
    }

    /// A job of `pool` that holds `invoice_id`, the first one in storage order.
    pub fn first_job_with_invoice(pool: &Pool<Job>, invoice_id: &str) -> (r: Option<Job>)
        requires
            pool.wf(),
        ensures
            r is Some <==> holds_invoice(job_map(pool@), invoice_id@),
            r matches Some(j) ==> job_map(pool@).contains_key(j@.id) && job_map(pool@)[j@.id] == j@
                && j@.invoice_id == Some(invoice_id@),
            opt_job_view(r) == opt_job_view(first_holder(pool@, invoice_id@)),
    {
        let items = pool.items();
        let mut i: usize = 0;
        assert(items@.subrange(0, items@.len() as int) =~= items@);
        while i < items.len()
            invariant
                items@ == pool@,
                keys_distinct(pool@),
                i <= items@.len(),
                forall|j: int| 0 <= j < i ==> opt_view(#[trigger] items@[j].invoice_id) != Some(invoice_id@),
                first_holder(pool@, invoice_id@) == first_holder(items@.subrange(i as int, items@.len() as int), invoice_id@),
            decreases items@.len() - i,
        {
            proof {
                let sub = items@.subrange(i as int, items@.len() as int);
                assert(sub[0] == items@[i as int]);
                assert(sub.drop_first() =~= items@.subrange(i + 1, items@.len() as int));
            }
            let hit = match &items[i].invoice_id {
                Some(s) => str_eq(s.as_str(), invoice_id),
                None => false,
            };
            if hit {
                proof {
                    lemma_map_of_index(pool@, i as int);
                    let k = items@[i as int].id@;
                    assert(job_map(pool@).contains_key(k));
                    assert(job_map(pool@)[k] == items@[i as int]@);
                    assert(job_map(pool@)[k].invoice_id == Some(invoice_id@));
                }
                let j = items[i].clone();
                return Some(j);
            }
            i = i + 1;
        }
        proof {
            if holds_invoice(job_map(pool@), invoice_id@) {
                let k = choose|k: Seq<char>| job_map(pool@).contains_key(k) && (#[trigger] job_map(pool@)[k]).invoice_id == Some(invoice_id@);
                lemma_map_of_key(pool@, k);
                let q = crate::pool::index_of_key(pool@, k);
                assert(opt_view(items@[q].invoice_id) == Some(invoice_id@));
            }
            assert(items@.subrange(i as int, items@.len() as int) =~= Seq::<Job>::empty());
        }
        None
    }

    /// The job that a given invoice was issued for: one from the active pool
    /// if any holds the invoice, else one from the completed pool.
    pub fn find_job_by_invoice(&self, invoice_id: &str) -> (r: Option<Job>)
        requires
            self.wf(),
        ensures
            holds_invoice(self.active(), invoice_id@) ==> (r matches Some(j) && self.active().contains_key(j@.id)
                && self.active()[j@.id] == j@ && j@.invoice_id == Some(invoice_id@)),
            !holds_invoice(self.active(), invoice_id@) && holds_invoice(self.completed(), invoice_id@)
                ==> (r matches Some(j) && self.completed().contains_key(j@.id) && self.completed()[j@.id] == j@
                && j@.invoice_id == Some(invoice_id@)),
            !holds_invoice(self.active(), invoice_id@) && !holds_invoice(self.completed(), invoice_id@)
                ==> r is None,
            opt_job_view(r) == self.job_for_invoice(invoice_id@),
    {
        match Self::first_job_with_invoice(&self.state.active_jobs, invoice_id) {
            Some(j) => Some(j),
            None => Self::first_job_with_invoice(&self.state.completed_jobs, invoice_id),
        }
    }

    /// Every job, the active pool first, then the completed pool.
    pub fn list_jobs(&self) -> (r: Vec<Job>)
        ensures
            job_views(r@) == job_views(self.state.active_jobs@ + self.state.completed_jobs@),
    {
        let mut r: Vec<Job> = Vec::new();
        let a = self.state.active_jobs.items();
        let c = self.state.completed_jobs.items();
        let mut i: usize = 0;
        while i < a.len()
            invariant
                a@ == self.state.active_jobs@,
                i <= a@.len(),
                r@.len() == i,
                forall|k: int| 0 <= k < i ==> (#[trigger] r@[k])@ == a@[k]@,
            decreases a@.len() - i,
        {
            r.push(a[i].clone());
            i = i + 1;
        }
        let mut j: usize = 0;
        while j < c.len()
            invariant
                a@ == self.state.active_jobs@,
                c@ == self.state.completed_jobs@,
                j <= c@.len(),
                r@.len() == a@.len() + j,
                forall|k: int| 0 <= k < a@.len() ==> (#[trigger] r@[k])@ == a@[k]@,
                forall|k: int| 0 <= k < j ==> (#[trigger] r@[a@.len() + k])@ == c@[k]@,
            decreases c@.len() - j,
        {
            r.push(c[j].clone());
            j = j + 1;
        }
        let ghost lhs = job_views(r@);
        let ghost rhs = job_views(a@ + c@);
        assert forall|k: int| 0 <= k < r@.len() implies #[trigger] lhs[k] == rhs[k] by {
            if k >= a@.len() {
                assert(r@[a@.len() + (k - a@.len())]@ == c@[k - a@.len()]@);
            }
        }
        assert(lhs =~= rhs);
        r
    }

    /// Stores an invoice (replacing one with the same id) and emits an
    /// `InvoiceCreated` event.
    pub fn store_invoice(&mut self, invoice: Invoice)
        requires
            old(self).wf(),
        ensures
            final(self).wf(),
            final(self).invoices() == old(self).invoices().insert(invoice.invoice_id@, invoice),
            final(self).active() == old(self).active(),
            final(self).completed() == old(self).completed(),
            final(self).reports() == old(self).reports(),
            emitted(
                old(self).events(),
                final(self).events(),
                EventType::InvoiceCreated,
                None,
                invoice_stored_message(invoice.invoice_id@),
            ),
    {
        let mut message = prefixed("Invoice ", invoice.invoice_id.as_str());
        message.append(" stored");
        self.state.invoice_cache.upsert(invoice);
        self.emit_event(EventType::InvoiceCreated, None, message);
    }

    /// Stores report metadata (replacing one with the same id) and emits a
    /// `ReportGenerated` event for its job.
    pub fn store_report(&mut self, report: ReportMetadata)
        requires
            old(self).wf(),
        ensures
            final(self).wf(),
            final(self).reports() == old(self).reports().insert(report.report_id@, report),
            final(self).active() == old(self).active(),
            final(self).completed() == old(self).completed(),
            final(self).invoices() == old(self).invoices(),
            emitted(
                old(self).events(),
                final(self).events(),
                EventType::ReportGenerated,
                Some(report.job_id@),
                "Report successfully stored"@,
            ),
    {
        let job_id = report.job_id.clone();
        self.state.report_cache.upsert(report);
        self.emit_event(EventType::ReportGenerated, Some(job_id), String::from_str("Report successfully stored"));
    }

    /// A job by id, from the active pool first, then the completed pool.
    pub fn find_job(&self, job_id: &str) -> (r: Result<Job, CoreError>)
        requires
            self.wf(),
        ensures
            self.active().contains_key(job_id@) ==> (r matches Ok(j) && j@ == self.active()[job_id@]),
            !self.active().contains_key(job_id@) && self.completed().contains_key(job_id@)
                ==> (r matches Ok(j) && j@ == self.completed()[job_id@]),
            !self.active().contains_key(job_id@) && !self.completed().contains_key(job_id@)
                ==> (r matches Err(e) && e matches CoreError::JobNotFound(s) && s@ == job_id@),
    {
        match self.state.active_jobs.get(job_id) {
            Some(j) => return Ok(j.clone()),
            None => {},
        }
        match self.state.completed_jobs.get(job_id) {
            Some(j) => Ok(j.clone()),
            None => Err(CoreError::JobNotFound(job_id.to_owned())),
        }
    }

    /// An invoice by id.
    pub fn find_invoice(&self, invoice_id: &str) -> (r: Result<Invoice, CoreError>)
        requires
            self.wf(),
        ensures
            self.invoices().contains_key(invoice_id@) ==> r == Ok::<Invoice, CoreError>(self.invoices()[invoice_id@]),
            !self.invoices().contains_key(invoice_id@) ==> (r matches Err(e) && e matches CoreError::InvoiceNotFound(s)
                && s@ == invoice_id@),
    {
        match self.state.invoice_cache.get(invoice_id) {
            Some(x) => Ok(x.clone()),
            None => Err(CoreError::InvoiceNotFound(invoice_id.to_owned())),
        }
    }

    /// Report metadata by id.
    pub fn find_report(&self, report_id: &str) -> (r: Result<ReportMetadata, CoreError>)
        requires
            self.wf(),
        ensures
            self.reports().contains_key(report_id@) ==> r == Ok::<ReportMetadata, CoreError>(self.reports()[report_id@]),
            !self.reports().contains_key(report_id@) ==> (r matches Err(e) && e matches CoreError::ReportNotFound(s)
                && s@ == report_id@),
    {
        match self.state.report_cache.get(report_id) {
            Some(x) => Ok(x.clone()),
            None => Err(CoreError::ReportNotFound(report_id.to_owned())),
        }
    }

    /// Moves a job from the active pool to the completed pool, in state
    /// `Archived` and stamped with the current time.
    pub fn archive_job(&mut self, job_id: &str) -> (r: Result<(), CoreError>)
        requires
            old(self).wf(),
        ensures
            final(self).wf(),
            final(self).events() == old(self).events(),
            r is Ok <==> old(self).active().contains_key(job_id@),
            r matches Err(e) ==> e matches CoreError::JobNotFound(s) && s@ == job_id@,
            r is Err ==> final(self).same_records(old(self)),
            r is Ok ==> {
                &&& final(self).completed().contains_key(job_id@)
                &&& final(self).completed()[job_id@].updated_at.representable()
                &&& final(self).active() == old(self).active().remove(job_id@)
                &&& final(self).completed() == old(self).completed().insert(
                    job_id@,
                    old(self).active()[job_id@].with_status(
                        JobStatus::Archived,
                        final(self).completed()[job_id@].updated_at,
                    ),
                )
                &&& final(self).invoices() == old(self).invoices()
                &&& final(self).reports() == old(self).reports()
            },
    {
        let ghost old_active = self.state.active_jobs@;
        proof {
            crate::pool::lemma_map_of_without(old_active, job_id@);
            lemma_job_views_remove(map_of(old_active), job_id@);
        }
        match self.state.active_jobs.remove(job_id) {
            None => {
                assert(self.active() =~= old(self).active());
                Err(CoreError::JobNotFound(job_id.to_owned()))
            },
            Some(job) => {
                let mut job = job;
                job.status = JobStatus::Archived;
                job.updated_at = utc_now();
                proof {
                    crate::pool::lemma_map_of_upsert(self.state.completed_jobs@, job);
                    lemma_job_views_insert(map_of(self.state.completed_jobs@), job_id@, job);
                }
                self.state.completed_jobs.upsert(job);
                Ok(())
            },
        }
    }
}

} // verus!
