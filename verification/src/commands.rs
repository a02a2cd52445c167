//! The decisions of the command-line front end: parsing and naming service
//! types and job states, counting active jobs, reading a payment check, the
//! reports of a job, and the job pipeline that runs once payment is seen.

use vstd::prelude::*;
use crate::clock::Timestamp;
use crate::payments::PricingConfig;
use crate::reports::{Report, ReportType};
use crate::runtime::{App, CoreError, EventType, Job, JobStatus, JobView, ServiceType, emitted, opt_job_view, prefixed};
use crate::text::{spec_to_lowercase, str_eq, to_lowercase};

verus! {

/// The service type a name stands for.
pub open spec fn service_type_named(value: Seq<char>) -> Option<ServiceType> {
    if value == "SmartContractReview"@ {
        Some(ServiceType::SmartContractReview)
    } else if value == "OnChainIntelligence"@ {
        Some(ServiceType::OnChainIntelligence)
    } else {
        None
    }
}

/// The service type named by its exact name.
pub fn parse_service_type(value: &str) -> (r: Result<ServiceType, String>)
    ensures
        service_type_named(value@) matches Some(t) ==> r == Ok::<ServiceType, String>(t),
        service_type_named(value@) is None ==> (r matches Err(m) && m@ == "Unknown service type: "@ + value@),
{
    if str_eq(value, "SmartContractReview") {
        Ok(ServiceType::SmartContractReview)
    } else if str_eq(value, "OnChainIntelligence") {
        Ok(ServiceType::OnChainIntelligence)
    } else {
        Err(prefixed("Unknown service type: ", value))
    }
}

/// The name of a service type.
pub open spec fn service_type_text(t: ServiceType) -> Seq<char> {
    match t {
        ServiceType::SmartContractReview => "SmartContractReview"@,
        ServiceType::OnChainIntelligence => "OnChainIntelligence"@,
    }
}

/// The name of a service type.
pub fn service_type_str(t: &ServiceType) -> (r: &'static str)
    ensures
        r@ == service_type_text(*t),
{
    match t {
        ServiceType::SmartContractReview => "SmartContractReview",
        ServiceType::OnChainIntelligence => "OnChainIntelligence",
    }
}

/// The name the front end shows for a job state; an archived job shows as
/// completed.
pub open spec fn job_status_text(s: JobStatus) -> Seq<char> {
    match s {
        JobStatus::Created => "Created"@,
        JobStatus::Quoted => "Quoted"@,
        JobStatus::AwaitingPayment => "AwaitingPayment"@,
        JobStatus::PaymentDetected => "PaymentDetected"@,
        JobStatus::Executing => "Executing"@,
        JobStatus::GeneratingReport => "GeneratingReport"@,
        JobStatus::Completed => "Completed"@,
        JobStatus::Failed => "Failed"@,
        JobStatus::Cancelled => "Cancelled"@,
        JobStatus::Archived => "Completed"@,
    }
}

/// The name the front end shows for a job state.
pub fn job_status_str(s: &JobStatus) -> (r: &'static str)
    ensures
        r@ == job_status_text(*s),
{
    match s {
        JobStatus::Created => "Created",
        JobStatus::Quoted => "Quoted",
        JobStatus::AwaitingPayment => "AwaitingPayment",
        JobStatus::PaymentDetected => "PaymentDetected",
        JobStatus::Executing => "Executing",
        JobStatus::GeneratingReport => "GeneratingReport",
        JobStatus::Completed => "Completed",
        JobStatus::Failed => "Failed",
        JobStatus::Cancelled => "Cancelled",
        JobStatus::Archived => "Completed",
    }
}

/// A job still in progress: not completed, archived, failed or cancelled.
pub open spec fn is_active_status(s: JobStatus) -> bool {
    !(s == JobStatus::Completed || s == JobStatus::Archived || s == JobStatus::Failed || s == JobStatus::Cancelled)
}

/// How many jobs of `jobs` are in progress.
pub open spec fn active_count(jobs: Seq<Job>) -> nat
    decreases jobs.len(),
{
    if jobs.len() == 0 {
        0
    } else {
        active_count(jobs.drop_last()) + if is_active_status(jobs.last().status) { 1nat } else { 0nat }
    }
}

/// The number of jobs in progress, for the status command.
pub fn count_active_jobs(jobs: &Vec<Job>) -> (n: usize)
    ensures
        n == active_count(jobs@),
{
    let mut n: usize = 0;
    let mut i: usize = 0;
    while i < jobs.len()
        invariant
            i <= jobs@.len(),
            n == active_count(jobs@.subrange(0, i as int)),
            n <= i,
        decreases jobs@.len() - i,
    {
        let s = jobs[i].status;
        let active = !(s == JobStatus::Completed || s == JobStatus::Archived || s == JobStatus::Failed
            || s == JobStatus::Cancelled);
        proof {
            let next = jobs@.subrange(0, i + 1);
            assert(next.drop_last() =~= jobs@.subrange(0, i as int));
            assert(next.last() == jobs@[i as int]);
        }
        if active {
            n = n + 1;
        }
        i = i + 1;
    }
    assert(jobs@.subrange(0, jobs@.len() as int) =~= jobs@);
    n
}

/// An invoice status that counts as paid: payment detected or confirmed.
pub open spec fn is_paid_status(status: Seq<char>) -> bool {
    status == "PendingConfirmation"@ || status == "Confirmed"@
}

/// Whether an invoice status counts as paid.
pub fn invoice_is_paid(status: &str) -> (b: bool)
    ensures
        b == is_paid_status(status@),
{
    str_eq(status, "PendingConfirmation") || str_eq(status, "Confirmed")
}

/// What a payment check reports for an invoice status.
pub open spec fn payment_wait_text(status: Seq<char>) -> Seq<char> {
    if status == "PendingConfirmation"@ {
        "detected"@
    } else if status == "Confirmed"@ {
        "confirmed"@
    } else if status == "Expired"@ {
        "expired"@
    } else {
        "pending"@
    }
}

/// What a payment check reports for an invoice status.
pub fn payment_wait_status(status: &str) -> (r: &'static str)
    ensures
        r@ == payment_wait_text(status@),
{
    if str_eq(status, "PendingConfirmation") {
        "detected"
    } else if str_eq(status, "Confirmed") {
        "confirmed"
    } else if str_eq(status, "Expired") {
        "expired"
    } else {
        "pending"
    }
}

/// Whether a payment check should start the job's pipeline: the invoice
/// counts as paid and the job still waits for payment (`Quoted` or
/// `AwaitingPayment`).
pub fn should_execute_job(invoice_status: &str, job_status: JobStatus) -> (b: bool)
    ensures
        b == (is_paid_status(invoice_status@) && (job_status == JobStatus::Quoted || job_status
            == JobStatus::AwaitingPayment)),
{
    invoice_is_paid(invoice_status) && (job_status == JobStatus::Quoted || job_status == JobStatus::AwaitingPayment)
}

/// There is a job and it still waits for payment (`Quoted` or
/// `AwaitingPayment`).
pub open spec fn waits_for_payment(job: Option<JobView>) -> bool {
    match job {
        Some(v) => v.status == JobStatus::Quoted || v.status == JobStatus::AwaitingPayment,
        None => false,
    }
}

/// The job a payment check starts: the job the invoice was issued for
/// (as `find_job_by_invoice` finds it), when the invoice counts as paid and
/// that job still waits for payment. No job is started otherwise: work
/// begins only after payment.
pub fn job_to_execute(app: &App, invoice_id: &str, invoice_status: &str) -> (r: Option<Job>)
    requires
        app.wf(),
    ensures
        r is Some <==> (is_paid_status(invoice_status@) && waits_for_payment(app.job_for_invoice(invoice_id@))),
        r is Some ==> opt_job_view(r) == app.job_for_invoice(invoice_id@),
{
    if !invoice_is_paid(invoice_status) {
        return None;
    }
    match app.find_job_by_invoice(invoice_id) {
        Some(job) => {
            if should_execute_job(invoice_status, job.status) {
                Some(job)
            } else {
                None
            }
        },
        None => None,
    }
}

/// The reports of a job, in the order given.
pub fn reports_for_job(reports: &Vec<Report>, job_id: &str) -> (r: Vec<Report>)
    ensures
        r@ == reports@.filter(|x: Report| x.job_id@ == job_id@),
{
    let mut r: Vec<Report> = Vec::new();
    let mut i: usize = 0;
    while i < reports.len()
        invariant
            i <= reports@.len(),
            r@ == reports@.subrange(0, i as int).filter(|x: Report| x.job_id@ == job_id@),
        decreases reports@.len() - i,
    {
        let keep = str_eq(reports[i].job_id.as_str(), job_id);
        proof {
            reveal(Seq::filter);
            let next = reports@.subrange(0, i + 1);
            assert(next.drop_last() =~= reports@.subrange(0, i as int));
            assert(next.last() == reports@[i as int]);
        }
        if keep {
            r.push(reports[i].clone());
        }
        i = i + 1;
    }
    assert(reports@.subrange(0, reports@.len() as int) =~= reports@);
    r
}

/// The title shown for a report type.
pub open spec fn report_title_text(t: ReportType) -> Seq<char> {
    match t {
        ReportType::SmartContractReview => "Smart Contract Security Audit Report"@,
        ReportType::OnChainIntelligence => "On-Chain Intelligence & Wallet Analysis Report"@,
    }
}

/// The title shown for a report type.
pub fn report_title(t: &ReportType) -> (r: &'static str)
    ensures
        r@ == report_title_text(*t),
{
    match t {
        ReportType::SmartContractReview => "Smart Contract Security Audit Report",
        ReportType::OnChainIntelligence => "On-Chain Intelligence & Wallet Analysis Report",
    }
}

/// The path a download of a report reads: its PDF when the requested format
/// is `pdf` in any letter case, its Markdown otherwise.
pub fn download_path<'a>(report: &'a Report, format_type: &str) -> (r: &'a String)
    ensures
        spec_to_lowercase(format_type@) == "pdf"@ ==> r == &report.pdf_path,
        spec_to_lowercase(format_type@) != "pdf"@ ==> r == &report.markdown_path,
{
    let lowered = to_lowercase(format_type);
    if str_eq(lowered.as_str(), "pdf") {
        &report.pdf_path
    } else {
        &report.markdown_path
    }
}

/// The services listed for sale: those enabled in the price list, the review
/// first.
pub fn enabled_services(pricing: &PricingConfig) -> (r: Vec<ServiceType>)
    ensures
        r@ == (if pricing.smart_contract_review.enabled { seq![ServiceType::SmartContractReview] } else { seq![] })
            + (if pricing.onchain_intelligence.enabled { seq![ServiceType::OnChainIntelligence] } else { seq![] }),
{
    let mut r: Vec<ServiceType> = Vec::new();
    if pricing.smart_contract_review.enabled {
        r.push(ServiceType::SmartContractReview);
    }
    if pricing.onchain_intelligence.enabled {
        r.push(ServiceType::OnChainIntelligence);
    }
    assert(r@ =~= (if pricing.smart_contract_review.enabled { seq![ServiceType::SmartContractReview] } else { seq![] })
        + (if pricing.onchain_intelligence.enabled { seq![ServiceType::OnChainIntelligence] } else { seq![] }));
    r
}

/// What happened outside since the last step of a job's pipeline.
pub enum PipelineEvent {
    /// Payment was seen; the pipeline starts.
    Begin,
    /// The service ran and answered.
    ServiceSucceeded,
    /// The service failed.
    ServiceFailed,
    /// The report was written under this id.
    ReportGenerated(String),
    /// Writing the report failed.
    ReportFailed,
}

/// Where a job's pipeline stands after a step, and so what comes next:
/// run the service, write the report, or nothing more.
#[derive(Clone, Copy, Debug, PartialEq, Eq, Structural)]
pub enum PipelineStage {
    Executing,
    GeneratingReport,
    Completed,
    Failed,
}

/// The job's state after a pipeline event, from its state before (when the
/// job is active); `t` is the time stamp the update records.
pub open spec fn pipeline_job_after(job: JobView, event: PipelineEvent, t: Timestamp) -> JobView {
    match event {
        PipelineEvent::Begin => job.with_status(JobStatus::Executing, t),
        PipelineEvent::ServiceSucceeded => job.with_status(JobStatus::GeneratingReport, t),
        PipelineEvent::ServiceFailed => job.with_status(JobStatus::Failed, t),
        PipelineEvent::ReportGenerated(id) => job.with_report(id@, t).with_status(JobStatus::Completed, t),
        PipelineEvent::ReportFailed => job.with_status(JobStatus::Failed, t),
    }
}

/// The stage a pipeline event leads to.
pub open spec fn pipeline_stage_after(event: PipelineEvent) -> PipelineStage {
    match event {
        PipelineEvent::Begin => PipelineStage::Executing,
        PipelineEvent::ServiceSucceeded => PipelineStage::GeneratingReport,
        PipelineEvent::ServiceFailed => PipelineStage::Failed,
        PipelineEvent::ReportGenerated(_) => PipelineStage::Completed,
        PipelineEvent::ReportFailed => PipelineStage::Failed,
    }
}

/// The events a pipeline step emits, by event: starting and completing are
/// announced.
pub open spec fn pipeline_emits(before: Seq<crate::runtime::ApplicationEvent>, after: Seq<crate::runtime::ApplicationEvent>, job_id: Seq<char>, event: PipelineEvent) -> bool {
    match event {
        PipelineEvent::Begin => emitted(before, after, EventType::JobStarted, Some(job_id), "Job execution started"@),
        PipelineEvent::ReportGenerated(_) => emitted(
            before,
            after,
            EventType::JobCompleted,
            Some(job_id),
            "Job execution completed"@,
        ),
        _ => after == before,
    }
}

/// The job pipeline that runs once payment has been seen: the job moves to
/// `PaymentDetected` and `Executing`, the service runs, the job moves to
/// `GeneratingReport`, the report is written, the job records it and ends
/// `Completed`; a failed service or report ends it `Failed`.
pub struct JobPipeline;

impl JobPipeline {
    /// Applies one event to the job's state and says what comes next.
    /// Failures end the pipeline whether or not the job can still be
    /// updated; the other events need the job in the active pool.
    pub fn step(app: &mut App, job_id: &str, event: PipelineEvent) -> (r: Result<PipelineStage, CoreError>)
        requires
            old(app).wf(),
        ensures
            final(app).wf(),
            final(app).completed() == old(app).completed(),
            final(app).invoices() == old(app).invoices(),
            final(app).reports() == old(app).reports(),
            old(app).active().contains_key(job_id@) ==> {
                &&& r == Ok::<PipelineStage, CoreError>(pipeline_stage_after(event))
                &&& final(app).active().contains_key(job_id@)
                &&& final(app).active() == old(app).active().insert(
                    job_id@,
                    pipeline_job_after(old(app).active()[job_id@], event, final(app).active()[job_id@].updated_at),
                )
                &&& final(app).active()[job_id@].updated_at.representable()
                &&& pipeline_emits(old(app).events(), final(app).events(), job_id@, event)
            },
            !old(app).active().contains_key(job_id@) ==> {
                &&& final(app).active() == old(app).active()
                &&& final(app).events() == old(app).events()
                &&& (event is ServiceFailed || event is ReportFailed) ==> r == Ok::<PipelineStage, CoreError>(
                    PipelineStage::Failed,
                )
                &&& !(event is ServiceFailed || event is ReportFailed) ==> (r matches Err(CoreError::JobNotFound(s))
                    && s@ == job_id@)
            },
    {
        match event {
            PipelineEvent::Begin => {
                match app.update_job_status(job_id, JobStatus::PaymentDetected) {
                    Ok(()) => {},
                    Err(e) => return Err(e),
                }
                match app.update_job_status(job_id, JobStatus::Executing) {
                    Ok(()) => {},
                    Err(e) => return Err(e),
                }
                Ok(PipelineStage::Executing)
            },
            PipelineEvent::ServiceSucceeded => {
                match app.update_job_status(job_id, JobStatus::GeneratingReport) {
                    Ok(()) => {},
                    Err(e) => return Err(e),
                }
                Ok(PipelineStage::GeneratingReport)
            },
            PipelineEvent::ServiceFailed => {
                let _ = app.update_job_status(job_id, JobStatus::Failed);
                Ok(PipelineStage::Failed)
            },
            PipelineEvent::ReportGenerated(report_id) => {
                match app.set_job_report(job_id, report_id.as_str()) {
                    Ok(()) => {},
                    Err(e) => return Err(e),
                }
                match app.update_job_status(job_id, JobStatus::Completed) {
                    Ok(()) => {},
                    Err(e) => return Err(e),
                }
                Ok(PipelineStage::Completed)
            },
            PipelineEvent::ReportFailed => {
                let _ = app.update_job_status(job_id, JobStatus::Failed);
                Ok(PipelineStage::Failed)
            },
        }
    }
}

} // verus!
