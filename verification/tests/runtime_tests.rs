use std::collections::HashMap;

use clawhire::clock::{utc_now, Elapsed, Timestamp, MAX_TIMESTAMP_SECS};
use clawhire::runtime::{
    generate_uuid, log_level, prefixed, App, LogLevel, LoggingConfig, CoreError, EventType, Invoice, Job, JobStatus, ReportMetadata, RiskLevel,
    ServiceType,
};

fn is_uuid(s: &str) -> bool {
    s.len() == 36
        && s.chars().enumerate().all(|(i, c)| {
            if i == 8 || i == 13 || i == 18 || i == 23 {
                c == '-'
            } else {
                c.is_ascii_digit() || ('a'..='f').contains(&c)
            }
        })
        && s.as_bytes()[14] == b'4'
        && matches!(s.as_bytes()[19], b'8' | b'9' | b'a' | b'b')
}

fn invoice(id: &str, status: &str) -> Invoice {
    Invoice {
        invoice_id: id.to_string(),
        wallet: "11111111111111111111111111111111".to_string(),
        amount: 100_000_000,
        currency: "SOL".to_string(),
        status: status.to_string(),
        created_at: Timestamp { secs: 1_700_000_000, nanos: 0 },
        expires_at: Timestamp { secs: 1_700_000_900, nanos: 0 },
        signature: None,
    }
}

fn job(id: &str, status: JobStatus, invoice_id: Option<&str>) -> Job {
    Job {
        id: id.to_string(),
        status,
        service: ServiceType::SmartContractReview,
        created_at: Timestamp { secs: 1_700_000_000, nanos: 0 },
        updated_at: Timestamp { secs: 1_700_000_000, nanos: 0 },
        input_source: "fn main() {}".to_string(),
        invoice_id: invoice_id.map(|s| s.to_string()),
        report_id: None,
        metadata: HashMap::new(),
    }
}

fn report_meta(id: &str, job_id: &str) -> ReportMetadata {
    ReportMetadata {
        report_id: id.to_string(),
        job_id: job_id.to_string(),
        filename: "CHR-REPORT-x.md".to_string(),
        generated_at: Timestamp { secs: 1_700_000_000, nanos: 0 },
        service: ServiceType::OnChainIntelligence,
    }
}

#[test]
fn generated_ids_are_fresh_uuid_texts() {
    let a = generate_uuid();
    let b = generate_uuid();
    assert!(is_uuid(&a), "{}", a);
    assert!(is_uuid(&b), "{}", b);
    assert_ne!(a, b);
    assert_eq!(a.chars().nth(14), Some('4'));
}

#[test]
fn the_clock_reports_a_representable_time() {
    let t = utc_now();
    assert!(t.secs > 1_600_000_000 && t.secs <= MAX_TIMESTAMP_SECS);
    assert!(t.nanos < 1_000_000_000);
}

#[test]
fn timestamps_compare_and_shift() {
    let a = Timestamp { secs: 10, nanos: 5 };
    let b = Timestamp { secs: 10, nanos: 4 };
    let c = Timestamp { secs: 9, nanos: 999 };
    assert!(a.is_after(&b));
    assert!(!b.is_after(&a));
    assert!(b.is_after(&c));
    assert!(!a.is_after(&a));
    let d = a.plus_minutes(15);
    assert_eq!(d, Timestamp { secs: 910, nanos: 5 });
}

#[test]
fn elapsed_counts_whole_milliseconds() {
    assert_eq!(Elapsed { secs: 2, nanos: 345_678_901 }.as_millis(), 2345);
    assert_eq!(Elapsed { secs: 0, nanos: 999_999 }.as_millis(), 0);
}

#[test]
fn core_error_messages() {
    assert_eq!(CoreError::JobNotFound("j1".to_string()).message(), "Job not found: j1");
    assert_eq!(CoreError::InvoiceNotFound("i1".to_string()).message(), "Invoice not found: i1");
    assert_eq!(CoreError::ReportNotFound("r1".to_string()).message(), "Report not found: r1");
    assert_eq!(CoreError::ConfigError("bad".to_string()).message(), "Configuration error: bad");
    let io = std::io::Error::new(std::io::ErrorKind::Other, "disk full");
    assert_eq!(CoreError::IoError(io).message(), "IO error: disk full");
    assert_eq!(prefixed("a", "b"), "ab");
}

#[test]
fn enum_names_are_their_debug_names() {
    assert_eq!(ServiceType::SmartContractReview.debug_name(), format!("{:?}", ServiceType::SmartContractReview));
    assert_eq!(ServiceType::OnChainIntelligence.debug_name(), "OnChainIntelligence");
    for r in [RiskLevel::VeryLow, RiskLevel::Low, RiskLevel::Medium, RiskLevel::High, RiskLevel::Critical] {
        assert_eq!(r.debug_name(), format!("{:?}", r));
    }
}

#[test]
fn a_new_runtime_restores_records_and_announces_itself() {
    let app = App::new(
        vec![job("a", JobStatus::Created, None), job("b", JobStatus::Quoted, None), job("a", JobStatus::Failed, None)],
        vec![job("c", JobStatus::Completed, None)],
        vec![invoice("i1", "Created")],
    );
    let active = app.state.active_jobs.items();
    assert_eq!(active.len(), 2);
    assert_eq!(active[0].id, "a");
    assert_eq!(active[0].status, JobStatus::Failed);
    assert_eq!(active[1].id, "b");
    assert_eq!(app.state.completed_jobs.len(), 1);
    assert_eq!(app.state.invoice_cache.len(), 1);
    assert_eq!(app.state.report_cache.len(), 0);
    assert_eq!(app.state.event_history.len(), 1);
    assert_eq!(app.state.event_history[0].event_type, EventType::ApplicationStarted);
    assert_eq!(app.state.event_history[0].message, "ClawHire Core Runtime Initialized");
    assert_eq!(app.state.event_history[0].job_id, None);
}

#[test]
fn a_created_job_is_found_again() {
    let mut app = App::new(vec![], vec![], vec![]);
    let mut meta = HashMap::new();
    meta.insert("k".to_string(), "v".to_string());
    let j = app.create_job(ServiceType::OnChainIntelligence, "wallet".to_string(), meta.clone());
    assert!(is_uuid(&j.id));
    assert_eq!(j.status, JobStatus::Created);
    assert_eq!(j.invoice_id, None);
    assert_eq!(j.metadata, meta);
    let found = app.find_job(&j.id).unwrap();
    assert_eq!(found.id, j.id);
    assert_eq!(found.input_source, "wallet");
    let last = app.state.event_history.last().unwrap();
    assert_eq!(last.event_type, EventType::JobCreated);
    assert_eq!(last.job_id.as_deref(), Some(j.id.as_str()));
    assert_eq!(last.message, "Job created for service OnChainIntelligence");
}

#[test]
fn status_updates_touch_one_job_and_announce_start_and_end() {
    let mut app = App::new(vec![job("a", JobStatus::Created, None), job("b", JobStatus::Created, None)], vec![], vec![]);
    let events = app.state.event_history.len();
    app.update_job_status("a", JobStatus::Quoted).unwrap();
    assert_eq!(app.state.event_history.len(), events);
    assert_eq!(app.find_job("a").unwrap().status, JobStatus::Quoted);
    assert_eq!(app.find_job("b").unwrap().status, JobStatus::Created);
    app.update_job_status("a", JobStatus::Executing).unwrap();
    assert_eq!(app.state.event_history.last().unwrap().event_type, EventType::JobStarted);
    assert_eq!(app.state.event_history.last().unwrap().message, "Job execution started");
    app.update_job_status("a", JobStatus::Completed).unwrap();
    assert_eq!(app.state.event_history.last().unwrap().event_type, EventType::JobCompleted);
    assert_eq!(app.state.event_history.last().unwrap().message, "Job execution completed");
    assert_eq!(app.state.event_history.len(), events + 2);
}

#[test]
fn updating_a_missing_job_fails_and_changes_nothing() {
    let mut app = App::new(vec![job("a", JobStatus::Created, None)], vec![], vec![]);
    let events = app.state.event_history.len();
    match app.update_job_status("zzz", JobStatus::Executing) {
        Err(CoreError::JobNotFound(id)) => assert_eq!(id, "zzz"),
        other => panic!("unexpected {:?}", other),
    }
    assert!(matches!(app.set_job_invoice("zzz", "i"), Err(CoreError::JobNotFound(_))));
    assert!(matches!(app.set_job_report("zzz", "r"), Err(CoreError::JobNotFound(_))));
    assert!(matches!(app.archive_job("zzz"), Err(CoreError::JobNotFound(_))));
    assert_eq!(app.state.event_history.len(), events);
    assert_eq!(app.find_job("a").unwrap().status, JobStatus::Created);
}

#[test]
fn links_to_invoices_and_reports_are_recorded() {
    let mut app = App::new(vec![job("a", JobStatus::Created, None)], vec![], vec![]);
    app.set_job_invoice("a", "inv-1").unwrap();
    app.set_job_report("a", "rep-1").unwrap();
    let j = app.find_job("a").unwrap();
    assert_eq!(j.invoice_id.as_deref(), Some("inv-1"));
    assert_eq!(j.report_id.as_deref(), Some("rep-1"));
    assert_eq!(j.status, JobStatus::Created);
}

#[test]
fn archived_jobs_move_to_the_completed_pool() {
    let mut app = App::new(vec![job("a", JobStatus::Completed, Some("i1"))], vec![], vec![]);
    app.archive_job("a").unwrap();
    assert_eq!(app.state.active_jobs.len(), 0);
    let j = app.find_job("a").unwrap();
    assert_eq!(j.status, JobStatus::Archived);
    assert_eq!(j.invoice_id.as_deref(), Some("i1"));
    assert!(matches!(app.archive_job("a"), Err(CoreError::JobNotFound(_))));
}

#[test]
fn jobs_are_found_by_invoice_active_pool_first() {
    let app = App::new(
        vec![job("a", JobStatus::Quoted, Some("i1")), job("b", JobStatus::Quoted, Some("i2"))],
        vec![job("c", JobStatus::Archived, Some("i2")), job("d", JobStatus::Archived, Some("i3"))],
        vec![],
    );
    assert_eq!(app.find_job_by_invoice("i2").unwrap().id, "b");
    assert_eq!(app.find_job_by_invoice("i3").unwrap().id, "d");
    assert!(app.find_job_by_invoice("nope").is_none());
    let first = App::first_job_with_invoice(&app.state.active_jobs, "i1").unwrap();
    assert_eq!(first.id, "a");
}

#[test]
fn jobs_are_listed_active_first() {
    let app = App::new(
        vec![job("a", JobStatus::Created, None), job("b", JobStatus::Created, None)],
        vec![job("c", JobStatus::Completed, None)],
        vec![],
    );
    let ids: Vec<String> = app.list_jobs().into_iter().map(|j| j.id).collect();
    assert_eq!(ids, vec!["a", "b", "c"]);
}

#[test]
fn what_is_stored_is_read_back() {
    let mut app = App::new(vec![], vec![], vec![]);
    app.store_invoice(invoice("i1", "Created"));
    assert_eq!(app.state.event_history.last().unwrap().message, "Invoice i1 stored");
    assert_eq!(app.state.event_history.last().unwrap().event_type, EventType::InvoiceCreated);
    app.store_invoice(invoice("i1", "Confirmed"));
    assert_eq!(app.find_invoice("i1").unwrap().status, "Confirmed");
    assert_eq!(app.state.invoice_cache.len(), 1);
    match app.find_invoice("i9") {
        Err(CoreError::InvoiceNotFound(id)) => assert_eq!(id, "i9"),
        other => panic!("unexpected {:?}", other),
    }
    app.store_report(report_meta("r1", "a"));
    assert_eq!(app.find_report("r1").unwrap().job_id, "a");
    let last = app.state.event_history.last().unwrap();
    assert_eq!(last.event_type, EventType::ReportGenerated);
    assert_eq!(last.job_id.as_deref(), Some("a"));
    assert_eq!(last.message, "Report successfully stored");
    assert!(matches!(app.find_report("r2"), Err(CoreError::ReportNotFound(_))));
}

#[test]
fn events_only_accumulate() {
    let mut app = App::new(vec![], vec![], vec![]);
    app.emit_event(EventType::JobStarted, Some("x".to_string()), "m".to_string());
    app.shutdown();
    let types: Vec<EventType> = app.state.event_history.iter().map(|e| e.event_type).collect();
    assert_eq!(types, vec![EventType::ApplicationStarted, EventType::JobStarted, EventType::ApplicationStopped]);
    assert_eq!(app.state.event_history[2].message, "Application shutting down");
    assert!(app.state.event_history.iter().all(|e| e.timestamp.nanos < 1_000_000_000));
}

#[test]
fn log_levels_are_chosen_by_name() {
    let cfg = |level: &str| LoggingConfig {
        level: level.to_string(),
        log_file: "logs/clawhire.log".to_string(),
        payment_log: "logs/payments.log".to_string(),
        enable_console: true,
        enable_file: false,
        rotation: "daily".to_string(),
        max_log_files: 7,
    };
    assert_eq!(log_level(&cfg("debug")), LogLevel::Debug);
    assert_eq!(log_level(&cfg("WARN")), LogLevel::Warn);
    assert_eq!(log_level(&cfg("Error")), LogLevel::Error);
    assert_eq!(log_level(&cfg("trace")), LogLevel::Trace);
    assert_eq!(log_level(&cfg("info")), LogLevel::Info);
    assert_eq!(log_level(&cfg("verbose")), LogLevel::Info);
}
