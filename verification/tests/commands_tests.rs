use std::collections::HashMap;

use clawhire::clock::Timestamp;
use clawhire::commands::{
    count_active_jobs, download_path, enabled_services, invoice_is_paid, job_status_str, job_to_execute, parse_service_type,
    payment_wait_status, report_title, reports_for_job, service_type_str, should_execute_job, JobPipeline,
    PipelineEvent, PipelineStage,
};
use clawhire::payments::{PaymentEngine, PaymentStatus, PricingConfig, ServicePricing};
use clawhire::reports::{Report, ReportType};
use clawhire::runtime::{App, CoreError, EventType, Job, JobStatus, ServiceType};

fn job(id: &str, status: JobStatus) -> Job {
    Job {
        id: id.to_string(),
        status,
        service: ServiceType::SmartContractReview,
        created_at: Timestamp { secs: 1_700_000_000, nanos: 0 },
        updated_at: Timestamp { secs: 1_700_000_000, nanos: 0 },
        input_source: "src".to_string(),
        invoice_id: Some("inv".to_string()),
        report_id: None,
        metadata: HashMap::new(),
    }
}

fn report(id: &str, job_id: &str) -> Report {
    Report {
        report_id: id.to_string(),
        job_id: job_id.to_string(),
        report_type: ReportType::OnChainIntelligence,
        service: ServiceType::OnChainIntelligence,
        status: "Completed".to_string(),
        filename: format!("{}.md", id),
        markdown_path: format!("out/{}.md", id),
        pdf_path: format!("out/{}.pdf", id),
        created_at: Timestamp { secs: 1_700_000_000, nanos: 0 },
        generated_at: None,
        summary: String::new(),
    }
}

#[test]
fn service_types_parse_by_exact_name() {
    assert_eq!(parse_service_type("SmartContractReview"), Ok(ServiceType::SmartContractReview));
    assert_eq!(parse_service_type("OnChainIntelligence"), Ok(ServiceType::OnChainIntelligence));
    assert_eq!(parse_service_type("smartcontractreview"), Err("Unknown service type: smartcontractreview".to_string()));
    assert_eq!(parse_service_type(""), Err("Unknown service type: ".to_string()));
    for t in [ServiceType::SmartContractReview, ServiceType::OnChainIntelligence] {
        assert_eq!(parse_service_type(service_type_str(&t)), Ok(t));
    }
}

#[test]
fn job_states_show_by_name_archived_as_completed() {
    let all = [
        (JobStatus::Created, "Created"),
        (JobStatus::Quoted, "Quoted"),
        (JobStatus::AwaitingPayment, "AwaitingPayment"),
        (JobStatus::PaymentDetected, "PaymentDetected"),
        (JobStatus::Executing, "Executing"),
        (JobStatus::GeneratingReport, "GeneratingReport"),
        (JobStatus::Completed, "Completed"),
        (JobStatus::Failed, "Failed"),
        (JobStatus::Cancelled, "Cancelled"),
        (JobStatus::Archived, "Completed"),
    ];
    for (s, t) in all {
        assert_eq!(job_status_str(&s), t);
    }
}

#[test]
fn active_jobs_are_those_still_in_progress() {
    let jobs = vec![
        job("a", JobStatus::Created),
        job("b", JobStatus::Completed),
        job("c", JobStatus::Executing),
        job("d", JobStatus::Archived),
        job("e", JobStatus::Failed),
        job("f", JobStatus::Cancelled),
        job("g", JobStatus::Quoted),
    ];
    assert_eq!(count_active_jobs(&jobs), 3);
    assert_eq!(count_active_jobs(&vec![]), 0);
}

#[test]
fn payment_checks_read_the_invoice_status() {
    assert!(invoice_is_paid("PendingConfirmation"));
    assert!(invoice_is_paid("Confirmed"));
    assert!(!invoice_is_paid("AwaitingPayment"));
    assert_eq!(payment_wait_status("PendingConfirmation"), "detected");
    assert_eq!(payment_wait_status("Confirmed"), "confirmed");
    assert_eq!(payment_wait_status("Expired"), "expired");
    assert_eq!(payment_wait_status("Created"), "pending");
    assert!(should_execute_job("Confirmed", JobStatus::Quoted));
    assert!(should_execute_job("PendingConfirmation", JobStatus::AwaitingPayment));
    assert!(!should_execute_job("Confirmed", JobStatus::Executing));
    assert!(!should_execute_job("Expired", JobStatus::Quoted));
}

#[test]
fn reports_of_a_job_and_their_downloads() {
    let all = vec![report("r1", "a"), report("r2", "b"), report("r3", "a")];
    let ids: Vec<String> = reports_for_job(&all, "a").into_iter().map(|r| r.report_id).collect();
    assert_eq!(ids, vec!["r1", "r3"]);
    assert!(reports_for_job(&all, "z").is_empty());
    assert_eq!(download_path(&all[0], "pdf"), "out/r1.pdf");
    assert_eq!(download_path(&all[0], "PDF"), "out/r1.pdf");
    assert_eq!(download_path(&all[0], "md"), "out/r1.md");
    assert_eq!(download_path(&all[0], "docx"), "out/r1.md");
    assert_eq!(report_title(&ReportType::SmartContractReview), "Smart Contract Security Audit Report");
    assert_eq!(report_title(&ReportType::OnChainIntelligence), "On-Chain Intelligence & Wallet Analysis Report");
}

#[test]
fn only_enabled_services_are_listed() {
    let mut p = PricingConfig {
        smart_contract_review: ServicePricing { enabled: true, price: 1, currency: "SOL".to_string() },
        onchain_intelligence: ServicePricing { enabled: true, price: 2, currency: "SOL".to_string() },
    };
    assert_eq!(enabled_services(&p), vec![ServiceType::SmartContractReview, ServiceType::OnChainIntelligence]);
    p.smart_contract_review.enabled = false;
    assert_eq!(enabled_services(&p), vec![ServiceType::OnChainIntelligence]);
    p.onchain_intelligence.enabled = false;
    assert!(enabled_services(&p).is_empty());
}

#[test]
fn a_successful_pipeline_completes_the_job() {
    let mut app = App::new(vec![job("j", JobStatus::Quoted)], vec![], vec![]);
    let events = app.state.event_history.len();
    assert_eq!(JobPipeline::step(&mut app, "j", PipelineEvent::Begin).unwrap(), PipelineStage::Executing);
    assert_eq!(app.find_job("j").unwrap().status, JobStatus::Executing);
    assert_eq!(app.state.event_history.last().unwrap().event_type, EventType::JobStarted);
    assert_eq!(JobPipeline::step(&mut app, "j", PipelineEvent::ServiceSucceeded).unwrap(), PipelineStage::GeneratingReport);
    assert_eq!(app.find_job("j").unwrap().status, JobStatus::GeneratingReport);
    let done = JobPipeline::step(&mut app, "j", PipelineEvent::ReportGenerated("rep-9".to_string())).unwrap();
    assert_eq!(done, PipelineStage::Completed);
    let j = app.find_job("j").unwrap();
    assert_eq!(j.status, JobStatus::Completed);
    assert_eq!(j.report_id.as_deref(), Some("rep-9"));
    assert_eq!(j.invoice_id.as_deref(), Some("inv"));
    assert_eq!(app.state.event_history.len(), events + 2);
    assert_eq!(app.state.event_history.last().unwrap().event_type, EventType::JobCompleted);
}

#[test]
fn a_failing_pipeline_marks_the_job_failed() {
    let mut app = App::new(vec![job("j", JobStatus::Quoted), job("k", JobStatus::Quoted)], vec![], vec![]);
    JobPipeline::step(&mut app, "j", PipelineEvent::Begin).unwrap();
    assert_eq!(JobPipeline::step(&mut app, "j", PipelineEvent::ServiceFailed).unwrap(), PipelineStage::Failed);
    assert_eq!(app.find_job("j").unwrap().status, JobStatus::Failed);
    assert_eq!(app.find_job("j").unwrap().report_id, None);
    JobPipeline::step(&mut app, "k", PipelineEvent::Begin).unwrap();
    JobPipeline::step(&mut app, "k", PipelineEvent::ServiceSucceeded).unwrap();
    assert_eq!(JobPipeline::step(&mut app, "k", PipelineEvent::ReportFailed).unwrap(), PipelineStage::Failed);
    assert_eq!(app.find_job("k").unwrap().status, JobStatus::Failed);
}

#[test]
fn a_pipeline_for_an_unknown_job() {
    let mut app = App::new(vec![], vec![], vec![]);
    let events = app.state.event_history.len();
    match JobPipeline::step(&mut app, "ghost", PipelineEvent::Begin) {
        Err(CoreError::JobNotFound(id)) => assert_eq!(id, "ghost"),
        _ => panic!("expected job not found"),
    }
    assert_eq!(JobPipeline::step(&mut app, "ghost", PipelineEvent::ServiceFailed).unwrap(), PipelineStage::Failed);
    assert!(matches!(
        JobPipeline::step(&mut app, "ghost", PipelineEvent::ReportGenerated("r".to_string())),
        Err(CoreError::JobNotFound(_))
    ));
    assert_eq!(app.state.event_history.len(), events);
}

#[test]
fn work_starts_only_for_a_paid_invoice_and_a_waiting_job() {
    let mut waiting = job("w", JobStatus::AwaitingPayment);
    waiting.invoice_id = Some("i-w".to_string());
    let mut running = job("r", JobStatus::Executing);
    running.invoice_id = Some("i-r".to_string());
    let mut quoted = job("q", JobStatus::Quoted);
    quoted.invoice_id = Some("i-q".to_string());
    let app = App::new(vec![waiting, running, quoted], vec![], vec![]);
    assert_eq!(job_to_execute(&app, "i-w", "Confirmed").unwrap().id, "w");
    assert_eq!(job_to_execute(&app, "i-q", "PendingConfirmation").unwrap().id, "q");
    assert!(job_to_execute(&app, "i-w", "AwaitingPayment").is_none());
    assert!(job_to_execute(&app, "i-w", "Expired").is_none());
    assert!(job_to_execute(&app, "i-r", "Confirmed").is_none());
    assert!(job_to_execute(&app, "unknown", "Confirmed").is_none());
}

#[test]
fn restored_pools_keep_the_saved_order() {
    let app = App::new(vec![job("a", JobStatus::Created), job("b", JobStatus::Quoted)], vec![], vec![]);
    let saved: Vec<Job> = app.state.active_jobs.items().clone();
    let restored = App::new(saved, vec![], vec![]);
    let ids: Vec<String> = restored.state.active_jobs.items().iter().map(|j| j.id.clone()).collect();
    assert_eq!(ids, vec!["a", "b"]);
}

#[test]
fn the_whole_service_lifecycle() {
    let pricing = PricingConfig {
        smart_contract_review: ServicePricing { enabled: true, price: 200_000_000, currency: "SOL".to_string() },
        onchain_intelligence: ServicePricing { enabled: true, price: 100_000_000, currency: "SOL".to_string() },
    };
    let engine = PaymentEngine::new("11111111111111111111111111111111", pricing, 15).unwrap();
    let mut app = App::new(vec![], vec![], vec![]);
    let job = app.create_job(ServiceType::SmartContractReview, "fn main() {}".to_string(), HashMap::new());
    assert_eq!(job.status, JobStatus::Created);
    let invoice = engine.create_invoice(&mut app, &job.id, job.service, clawhire::clock::utc_now()).unwrap();
    assert_eq!(invoice.status, "AwaitingPayment");
    assert_eq!(app.find_job(&job.id).unwrap().status, JobStatus::AwaitingPayment);
    assert!(job_to_execute(&app, &invoice.invoice_id, &invoice.status).is_none());
    let paid = engine.check_payment_complete(&mut app, invoice.clone(), Ok(PaymentStatus::Detected));
    assert_eq!(paid.status, "PendingConfirmation");
    assert_eq!(app.find_invoice(&invoice.invoice_id).unwrap().status, "PendingConfirmation");
    assert_eq!(app.find_job(&job.id).unwrap().status, JobStatus::AwaitingPayment);
    let runnable = job_to_execute(&app, &invoice.invoice_id, &paid.status).unwrap();
    assert_eq!(runnable.id, job.id);
    JobPipeline::step(&mut app, &job.id, PipelineEvent::Begin).unwrap();
    JobPipeline::step(&mut app, &job.id, PipelineEvent::ServiceSucceeded).unwrap();
    JobPipeline::step(&mut app, &job.id, PipelineEvent::ReportGenerated("rep".to_string())).unwrap();
    assert_eq!(app.find_job(&job.id).unwrap().status, JobStatus::Completed);
    assert!(job_to_execute(&app, &invoice.invoice_id, &paid.status).is_none());
    app.archive_job(&job.id).unwrap();
    let archived = app.find_job(&job.id).unwrap();
    assert_eq!(archived.status, JobStatus::Archived);
    assert_eq!(archived.invoice_id.as_deref(), Some(invoice.invoice_id.as_str()));
    assert_eq!(archived.report_id.as_deref(), Some("rep"));
    assert_eq!(job_status_str(&archived.status), "Completed");
}
