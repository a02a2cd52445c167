//! Properties that span several operations of the library, stated over the
//! same spec functions and views as the operations' contracts.

use vstd::prelude::*;
use crate::commands::{active_count, PipelineEvent, pipeline_job_after, service_type_named, service_type_text};
use crate::payments::{AMOUNT_TOLERANCE_LAMPORTS, InvoiceStatus, amount_within, invoice_number_text, invoice_status_text, is_settled, upper_hex};
use crate::pool::{Keyed, has_key, keys_distinct, map_of, upsert, upsert_all};
use crate::clock::Timestamp;
use crate::reports::{finding_block, findings_text, ReportSection, is_traversal, layout_lines, lemma_layout_height, markdown_text, section_block, sections_text};
use crate::reports::{Report, ReportIndex};
use crate::runtime::{
    job_map, App, ApplicationEvent, EventType, Invoice, Job, JobStatus, JobView, ReportMetadata, RiskLevel, ServiceType, emitted,
    is_lower_hex, is_uuid_text, risk_rank,
};
use crate::services::{ServiceFinding, highest_severity, max_risk};
use crate::text::{contains_seq, path_join, starts_with_seq, trim_start_char, trim_ws};

verus! {

/// What a read gives back of a write: once `store_invoice(x)` has taken
/// `before` to `after`, `find_invoice` on `x`'s id finds `x`.
pub proof fn law_invoice_read_after_write(before: App, after: App, x: Invoice)
    requires
        after.invoices() == before.invoices().insert(x.invoice_id@, x),
    ensures
        after.invoices().contains_key(x.invoice_id@),
        after.invoices()[x.invoice_id@] == x,
        forall|k: Seq<char>| k != x.invoice_id@ ==> #[trigger] after.invoices().contains_key(k) == before.invoices().contains_key(k),
{
}

/// What a read gives back of a write: once `store_report(x)` has taken
/// `before` to `after`, `find_report` on `x`'s id finds `x`.
pub proof fn law_report_read_after_write(before: App, after: App, x: ReportMetadata)
    requires
        after.reports() == before.reports().insert(x.report_id@, x),
    ensures
        after.reports().contains_key(x.report_id@),
        after.reports()[x.report_id@] == x,
{
}

/// A created job is found again: once `create_job` has returned `job` and
/// taken `before` to `after`, the active pool holds `job` under its id (so
/// `find_job` returns it).
pub proof fn law_created_job_is_found(before: App, after: App, job: JobView)
    requires
        after.active() == before.active().insert(job.id, job),
    ensures
        after.active().contains_key(job.id),
        after.active()[job.id] == job,
{
}

/// A status update touches only its job: once `update_job_status(id, s)`
/// has succeeded, every other active job is as it was.
pub proof fn law_status_update_is_local(before: App, after: App, id: Seq<char>, s: JobStatus, t: Timestamp)
    requires
        before.active().contains_key(id),
        after.active() == before.active().insert(id, before.active()[id].with_status(s, t)),
    ensures
        after.active()[id].status == s,
        forall|k: Seq<char>| k != id && before.active().contains_key(k) ==> #[trigger] after.active()[k]
            == before.active()[k],
        after.active().dom() == before.active().dom(),
{
    assert(after.active().dom() =~= before.active().dom());
}

/// An archived job leaves the active pool and is found in the completed
/// pool in state `Archived`, with everything else it held unchanged.
pub proof fn law_archived_job(before: App, after: App, id: Seq<char>, t: Timestamp)
    requires
        before.active().contains_key(id),
        after.active() == before.active().remove(id),
        after.completed() == before.completed().insert(id, before.active()[id].with_status(JobStatus::Archived, t)),
    ensures
        !after.active().contains_key(id),
        after.completed().contains_key(id),
        after.completed()[id].status == JobStatus::Archived,
        after.completed()[id].invoice_id == before.active()[id].invoice_id,
        after.completed()[id].report_id == before.active()[id].report_id,
{
}

/// The event history only grows: an emitted event keeps every earlier one.
pub proof fn law_events_append_only(
    before: Seq<ApplicationEvent>,
    after: Seq<ApplicationEvent>,
    event_type: EventType,
    job_id: Option<Seq<char>>,
    message: Seq<char>,
)
    requires
        emitted(before, after, event_type, job_id, message),
    ensures
        forall|i: int| 0 <= i < before.len() ==> #[trigger] after[i] == before[i],
        after.len() == before.len() + 1,
{
    assert forall|i: int| 0 <= i < before.len() implies #[trigger] after[i] == before[i] by {
        assert(after.subrange(0, before.len() as int)[i] == after[i]);
    }
}

/// A job whose service and report both succeed ends `Completed`, linked to
/// its report, with its identity, service, input and invoice unchanged.
pub proof fn law_pipeline_success(job: JobView, report_id: String, t1: Timestamp, t2: Timestamp, t3: Timestamp)
    ensures
        ({
            let done = pipeline_job_after(
                pipeline_job_after(pipeline_job_after(job, PipelineEvent::Begin, t1), PipelineEvent::ServiceSucceeded, t2),
                PipelineEvent::ReportGenerated(report_id),
                t3,
            );
            &&& done.status == JobStatus::Completed
            &&& done.report_id == Some(report_id@)
            &&& done.id == job.id
            &&& done.service == job.service
            &&& done.input_source == job.input_source
            &&& done.invoice_id == job.invoice_id
            &&& done.created_at == job.created_at
        }),
{
}

/// A job whose service or report fails ends `Failed` and links no new report.
pub proof fn law_pipeline_failure(job: JobView, t1: Timestamp, t2: Timestamp, t3: Timestamp)
    ensures
        pipeline_job_after(pipeline_job_after(job, PipelineEvent::Begin, t1), PipelineEvent::ServiceFailed, t2).status
            == JobStatus::Failed,
        pipeline_job_after(pipeline_job_after(job, PipelineEvent::Begin, t1), PipelineEvent::ServiceFailed, t2).report_id
            == job.report_id,
        pipeline_job_after(
            pipeline_job_after(pipeline_job_after(job, PipelineEvent::Begin, t1), PipelineEvent::ServiceSucceeded, t2),
            PipelineEvent::ReportFailed,
            t3,
        ).status == JobStatus::Failed,
        pipeline_job_after(
            pipeline_job_after(pipeline_job_after(job, PipelineEvent::Begin, t1), PipelineEvent::ServiceSucceeded, t2),
            PipelineEvent::ReportFailed,
            t3,
        ).report_id == job.report_id,
{
}

/// A checked report file name keeps its file inside the report directory:
/// the path is the directory, a separator when needed, and a name that holds
/// no separator.
pub proof fn law_report_path_confined(base: Seq<char>, name: Seq<char>)
    requires
        !is_traversal(name),
    ensures
        starts_with_seq(path_join(base, name), base),
        !contains_seq(name, "/"@),
        path_join(base, name) == base + name || path_join(base, name) == base + "/"@ + name,
{
    let p = path_join(base, name);
    if name.len() > 0 && name[0] == '/' {
        assert(name.subrange(0, 1) =~= seq!['/']);
        reveal_strlit("/");
        assert("/"@ =~= seq!['/']);
        assert(contains_seq(name, "/"@));
    }
    if base.len() == 0 || base.last() == '/' {
        assert(p.subrange(0, base.len() as int) =~= base);
    } else {
        assert(p.subrange(0, base.len() as int) =~= base);
    }
}

/// The overall risk of a review is the highest severity among its
/// findings: no finding is more severe, and with findings present it is the
/// severity of one of them.
pub proof fn law_highest_severity(findings: Seq<ServiceFinding>)
    ensures
        forall|i: int| 0 <= i < findings.len() ==> risk_rank(#[trigger] findings[i].severity) <= risk_rank(
            highest_severity(findings),
        ),
        findings.len() > 0 ==> exists|i: int| 0 <= i < findings.len() && #[trigger] findings[i].severity
            == highest_severity(findings),
        findings.len() == 0 ==> highest_severity(findings) == RiskLevel::VeryLow,
    decreases findings.len(),
{
    if findings.len() > 0 {
        let init = findings.drop_last();
        law_highest_severity(init);
        assert forall|i: int| 0 <= i < findings.len() implies risk_rank(#[trigger] findings[i].severity) <= risk_rank(
            highest_severity(findings),
        ) by {
            if i < findings.len() - 1 {
                assert(findings[i] == init[i]);
            }
        }
        let h = highest_severity(init);
        if risk_rank(h) >= risk_rank(findings.last().severity) && init.len() > 0 {
            let j = choose|j: int| 0 <= j < init.len() && #[trigger] init[j].severity == h;
            assert(findings[j] == init[j]);
        } else if risk_rank(h) >= risk_rank(findings.last().severity) {
            assert(h == RiskLevel::VeryLow);
            assert(findings.last().severity == RiskLevel::VeryLow);
            assert(findings[findings.len() - 1].severity == highest_severity(findings));
        } else {
            assert(findings[findings.len() - 1].severity == highest_severity(findings));
        }
    }
}

/// The PDF layout stays on its page: every placed line lies between 40 pt
/// and 800 pt from the bottom, the title first at the top.
pub proof fn law_layout_on_page(lines: Seq<Seq<char>>)
    ensures
        layout_lines(lines).0.len() >= 1,
        layout_lines(lines).0[0].1 == 800,
        forall|k: int| 0 <= k < layout_lines(lines).0.len() ==> 40 <= #[trigger] layout_lines(lines).0[k].1 <= 800,
    decreases lines.len(),
{
    if lines.len() > 0 {
        law_layout_on_page(lines.drop_last());
        lemma_layout_height(lines.drop_last());
    }
}

/// A service type's name parses back to the same service type.
pub proof fn law_service_type_round_trip(t: ServiceType)
    ensures
        service_type_named(service_type_text(t)) == Some(t),
{
    reveal_strlit("SmartContractReview");
    reveal_strlit("OnChainIntelligence");
    if t == ServiceType::OnChainIntelligence {
        assert(service_type_text(t)[0] != "SmartContractReview"@[0]);
    }
}

/// An invoice number reads `CHR-`, the date, `-`, and six characters that
/// are decimal digits or upper-case hexadecimal letters.
pub proof fn law_invoice_number_shape(date: Seq<char>, uuid: Seq<char>)
    requires
        is_uuid_text(uuid),
    ensures
        ({
            let n = invoice_number_text(date, uuid);
            &&& n.len() == date.len() + 11
            &&& starts_with_seq(n, "CHR-"@)
            &&& n.subrange(4, date.len() + 4int) == date
            &&& n[date.len() + 4int] == '-'
            &&& forall|i: int|
                date.len() + 5 <= i < n.len() ==> ('0' <= #[trigger] n[i] <= '9' || 'A' <= n[i] <= 'F')
        }),
{
    reveal_strlit("CHR-");
    reveal_strlit("-");
    let n = invoice_number_text(date, uuid);
    let tail = uuid.subrange(0, 6).map_values(|c: char| upper_hex(c));
    assert(n == "CHR-"@ + date + "-"@ + tail);
    assert(n.subrange(0, 4) =~= "CHR-"@);
    assert(n.subrange(4, date.len() + 4int) =~= date);
    assert forall|i: int| date.len() + 5 <= i < n.len() implies ('0' <= #[trigger] n[i] <= '9' || 'A' <= n[i] <= 'F') by {
        let k = i - (date.len() + 5);
        assert(n[i] == tail[k]);
        assert(tail[k] == upper_hex(uuid[k]));
        assert(is_lower_hex(uuid[k]));
    }
}


/// What is saved is restored: records saved in storage order, with their
/// keys distinct as every pool keeps them, are restored (each stored in turn,
/// as `App::new` and `ReportIndex::load` do) to exactly the same sequence.
pub proof fn law_restore_after_save<T: Keyed>(saved: Seq<T>)
    requires
        keys_distinct(saved),
    ensures
        upsert_all(Seq::<T>::empty(), saved) == saved,
    decreases saved.len(),
{
    if saved.len() > 0 {
        let init = saved.drop_last();
        let x = saved.last();
        assert(keys_distinct(init)) by {
            assert forall|i: int, j: int|
                0 <= i < init.len() && 0 <= j < init.len() && i != j implies #[trigger] init[i].key_view()
                != #[trigger] init[j].key_view() by {
                assert(init[i] == saved[i] && init[j] == saved[j]);
            }
        }
        law_restore_after_save(init);
        if has_key(init, x.key_view()) {
            let i = choose|i: int| 0 <= i < init.len() && #[trigger] init[i].key_view() == x.key_view();
            assert(saved[i] == init[i]);
            assert(saved[saved.len() - 1] == x);
        }
        assert(upsert(init, x) =~= saved);
    }
}


/// The service lifecycle: a job that is quoted and left awaiting payment
/// (`create_invoice`), paid
/// (`confirm_payment`), run and reported (the pipeline) and archived
/// (`archive_job`) ends `Archived`, linked to its invoice and its report,
/// with its identity, service and input unchanged.
pub proof fn law_service_lifecycle(
    job: JobView,
    invoice_id: Seq<char>,
    report_id: String,
    quoted_at: Timestamp,
    paid_at: Timestamp,
    started_at: Timestamp,
    reporting_at: Timestamp,
    done_at: Timestamp,
    archived_at: Timestamp,
)
    ensures
        ({
            let quoted = job.with_invoice(invoice_id, quoted_at).with_status(JobStatus::Quoted, quoted_at);
            let awaiting = quoted.with_status(JobStatus::AwaitingPayment, quoted_at);
            let paid = awaiting.with_status(JobStatus::PaymentDetected, paid_at);
            let running = pipeline_job_after(paid, PipelineEvent::Begin, started_at);
            let reporting = pipeline_job_after(running, PipelineEvent::ServiceSucceeded, reporting_at);
            let done = pipeline_job_after(reporting, PipelineEvent::ReportGenerated(report_id), done_at);
            let archived = done.with_status(JobStatus::Archived, archived_at);
            &&& quoted.status == JobStatus::Quoted
            &&& awaiting.status == JobStatus::AwaitingPayment
            &&& paid.status == JobStatus::PaymentDetected
            &&& running.status == JobStatus::Executing
            &&& reporting.status == JobStatus::GeneratingReport
            &&& done.status == JobStatus::Completed
            &&& archived.status == JobStatus::Archived
            &&& archived.invoice_id == Some(invoice_id)
            &&& archived.report_id == Some(report_id@)
            &&& archived.id == job.id
            &&& archived.service == job.service
            &&& archived.input_source == job.input_source
            &&& archived.created_at == job.created_at
        }),
{
}

/// An occurrence of `p` in `a` is also one in `a + b` and in `c + a`.
proof fn lemma_contains_extend(a: Seq<char>, b: Seq<char>, c: Seq<char>, p: Seq<char>)
    requires
        contains_seq(a, p),
    ensures
        contains_seq(a + b, p),
        contains_seq(c + a, p),
{
    let i = choose|i: int| 0 <= i && i + p.len() <= a.len() && #[trigger] a.subrange(i, i + p.len()) == p;
    assert((a + b).subrange(i, i + p.len()) =~= a.subrange(i, i + p.len()));
    let j = i + c.len();
    assert((c + a).subrange(j, j + p.len()) =~= a.subrange(i, i + p.len()));
}

/// Every section of a report appears in its Markdown text, as its heading
/// and content block.
pub proof fn law_markdown_holds_every_section(title: Seq<char>, sections: Seq<ReportSection>, generated_at: Seq<char>)
    ensures
        forall|i: int| 0 <= i < sections.len() ==> contains_seq(
            markdown_text(title, sections, generated_at),
            #[trigger] section_block(sections[i]),
        ),
{
    lemma_sections_text_holds(sections);
    let head = "# "@ + title + "\n\n"@ + "*Generated at: "@ + generated_at + "*\n\n---\n\n"@;
    assert forall|i: int| 0 <= i < sections.len() implies contains_seq(
        markdown_text(title, sections, generated_at),
        #[trigger] section_block(sections[i]),
    ) by {
        lemma_contains_extend(sections_text(sections), Seq::empty(), head, section_block(sections[i]));
        assert(markdown_text(title, sections, generated_at) =~= head + sections_text(sections));
    }
}

proof fn lemma_sections_text_holds(sections: Seq<ReportSection>)
    ensures
        forall|i: int| 0 <= i < sections.len() ==> contains_seq(sections_text(sections), #[trigger] section_block(sections[i])),
    decreases sections.len(),
{
    if sections.len() > 0 {
        let init = sections.drop_last();
        lemma_sections_text_holds(init);
        let last = section_block(sections.last());
        assert forall|i: int| 0 <= i < sections.len() implies contains_seq(
            sections_text(sections),
            #[trigger] section_block(sections[i]),
        ) by {
            if i < sections.len() - 1 {
                assert(sections[i] == init[i]);
                lemma_contains_extend(sections_text(init), last, Seq::empty(), section_block(sections[i]));
            } else {
                let whole = sections_text(init) + last;
                let k = sections_text(init).len() as int;
                assert(whole.subrange(k, k + last.len()) =~= last);
            }
        }
    }
}


/// A runtime restored from saved records holds exactly what was saved: once
/// `App::new` has been given the saved active jobs, completed jobs and
/// invoices (each list with distinct ids, as every pool keeps them), its
/// pools are those lists and its maps the maps they stand for.
pub proof fn law_app_restores_saved_state(active: Seq<Job>, completed: Seq<Job>, invoices: Seq<Invoice>, app: App)
    requires
        keys_distinct(active),
        keys_distinct(completed),
        keys_distinct(invoices),
        app.state.active_jobs@ == upsert_all(Seq::<Job>::empty(), active),
        app.state.completed_jobs@ == upsert_all(Seq::<Job>::empty(), completed),
        app.state.invoice_cache@ == upsert_all(Seq::<Invoice>::empty(), invoices),
    ensures
        app.state.active_jobs@ == active,
        app.state.completed_jobs@ == completed,
        app.state.invoice_cache@ == invoices,
        app.active() == job_map(active),
        app.completed() == job_map(completed),
        app.invoices() == map_of(invoices),
{
    law_restore_after_save(active);
    law_restore_after_save(completed);
    law_restore_after_save(invoices);
}

/// A report index restored from saved reports holds exactly what was saved:
/// once `ReportIndex::load` has been given the saved reports (with distinct
/// ids), its pool is that list and every saved report is found by its id.
pub proof fn law_report_index_restores_saved_reports(saved: Seq<Report>, index: ReportIndex)
    requires
        keys_distinct(saved),
        index.index@ == upsert_all(Seq::<Report>::empty(), saved),
    ensures
        index.index@ == saved,
        index.index.entries() == map_of(saved),
{
    law_restore_after_save(saved);
}

/// The invoices that a payment check returns at once, unwatched and
/// unchanged, are exactly those that are confirmed, expired, failed or
/// cancelled.
pub proof fn law_settled_invoice_statuses(s: InvoiceStatus)
    ensures
        is_settled(invoice_status_text(s)) <==> (s == InvoiceStatus::Confirmed || s == InvoiceStatus::Expired || s
            == InvoiceStatus::Failed || s == InvoiceStatus::Cancelled),
{
    reveal_strlit("Created");
    reveal_strlit("AwaitingPayment");
    reveal_strlit("PendingConfirmation");
    reveal_strlit("Confirmed");
    reveal_strlit("Expired");
    reveal_strlit("Failed");
    reveal_strlit("Cancelled");
    match s {
        InvoiceStatus::Created => {
            assert("Created"@.len() != "Confirmed"@.len());
            assert("Created"@[0] != "Expired"@[0]);
            assert("Created"@.len() != "Failed"@.len());
            assert("Created"@.len() != "Cancelled"@.len());
        },
        InvoiceStatus::AwaitingPayment => {
            assert("AwaitingPayment"@.len() != "Confirmed"@.len());
            assert("AwaitingPayment"@.len() != "Expired"@.len());
            assert("AwaitingPayment"@.len() != "Failed"@.len());
            assert("AwaitingPayment"@.len() != "Cancelled"@.len());
        },
        InvoiceStatus::PendingConfirmation => {
            assert("PendingConfirmation"@.len() != "Confirmed"@.len());
            assert("PendingConfirmation"@.len() != "Expired"@.len());
            assert("PendingConfirmation"@.len() != "Failed"@.len());
            assert("PendingConfirmation"@.len() != "Cancelled"@.len());
        },
        _ => {},
    }
}

/// A paid amount is accepted exactly when it lies within the tolerance of
/// the expected amount, above or below it.
pub proof fn law_amount_tolerance(expected: u64, found: u64)
    ensures
        amount_within(expected, found) <==> (if expected >= found { expected - found } else { found - expected })
            <= AMOUNT_TOLERANCE_LAMPORTS,
{
}

/// The findings' Markdown is the block of each finding, every one of them,
/// concatenated in the order of the findings.
pub proof fn law_findings_text_in_order(findings: Seq<ServiceFinding>)
    ensures
        findings_text(findings) == findings.map_values(|f: ServiceFinding| finding_block(f)).flatten(),
    decreases findings.len(),
{
    let blocks = findings.map_values(|f: ServiceFinding| finding_block(f));
    if findings.len() == 0 {
        assert(blocks =~= Seq::<Seq<char>>::empty());
    } else {
        let front = findings.drop_last();
        law_findings_text_in_order(front);
        let front_blocks = front.map_values(|f: ServiceFinding| finding_block(f));
        assert(blocks =~= front_blocks.push(finding_block(findings.last())));
        front_blocks.lemma_flatten_push(finding_block(findings.last()));
    }
}

/// Once the page is full it stays full: a full page has its next line
/// below 50 pt.
proof fn lemma_layout_full_is_low(lines: Seq<Seq<char>>)
    ensures
        layout_lines(lines).2 ==> layout_lines(lines).1 < 50,
    decreases lines.len(),
{
    if lines.len() > 0 {
        lemma_layout_full_is_low(lines.drop_last());
    }
}

/// The lines placed for the first `j` lines of a text stay, in order, at
/// the front of the lines placed for the whole text.
proof fn lemma_layout_prefix(lines: Seq<Seq<char>>, j: int)
    requires
        0 <= j <= lines.len(),
    ensures
        layout_lines(lines.take(j)).0.len() <= layout_lines(lines).0.len(),
        forall|k: int| 0 <= k < layout_lines(lines.take(j)).0.len() ==> layout_lines(lines).0[k]
            == #[trigger] layout_lines(lines.take(j)).0[k],
    decreases lines.len(),
{
    if j == lines.len() {
        assert(lines.take(j) =~= lines);
    } else {
        let front = lines.drop_last();
        assert(front.take(j) =~= lines.take(j));
        lemma_layout_prefix(front, j);
    }
}

/// While the page has room, every non-empty line of the text that does not
/// start with `#` is drawn in 10 pt type, at the height the page has
/// reached, with its text unchanged, after everything drawn before it.
pub proof fn law_plain_line_drawn(lines: Seq<Seq<char>>, i: int)
    requires
        0 <= i < lines.len(),
        lines[i].len() > 0,
        lines[i][0] != '#',
        layout_lines(lines.take(i)).1 >= 50,
    ensures
        ({
            let before = layout_lines(lines.take(i));
            &&& before.0.len() < layout_lines(lines).0.len()
            &&& layout_lines(lines).0[before.0.len() as int] == (10u32, before.1, lines[i])
        }),
{
    lemma_layout_full_is_low(lines.take(i));
    let next = lines.take(i + 1);
    assert(next.drop_last() =~= lines.take(i));
    assert(next.last() == lines[i]);
    let before = layout_lines(lines.take(i));
    assert(layout_lines(next).0 == before.0.push((10u32, before.1, lines[i])));
    lemma_layout_prefix(lines, i + 1);
    assert(layout_lines(next).0[before.0.len() as int] == (10u32, before.1, lines[i]));
}

/// While the page has room, every line of the text that starts with `#` is
/// drawn as a heading in 14 pt type, 10 pt below the height the page has
/// reached, without its `#` marks and surrounding whitespace, after
/// everything drawn before it.
pub proof fn law_heading_line_drawn(lines: Seq<Seq<char>>, i: int)
    requires
        0 <= i < lines.len(),
        lines[i].len() > 0,
        lines[i][0] == '#',
        layout_lines(lines.take(i)).1 >= 50,
    ensures
        ({
            let before = layout_lines(lines.take(i));
            &&& before.0.len() < layout_lines(lines).0.len()
            &&& layout_lines(lines).0[before.0.len() as int] == (14u32, before.1 - 10, trim_ws(
                trim_start_char(lines[i], '#'),
            ))
        }),
{
    lemma_layout_full_is_low(lines.take(i));
    let next = lines.take(i + 1);
    assert(next.drop_last() =~= lines.take(i));
    assert(next.last() == lines[i]);
    let before = layout_lines(lines.take(i));
    let heading = (14u32, before.1 - 10, trim_ws(trim_start_char(lines[i], '#')));
    assert(layout_lines(next).0 == before.0.push(heading));
    lemma_layout_prefix(lines, i + 1);
    assert(layout_lines(next).0[before.0.len() as int] == heading);
}

/// Adding a job to a list adds one to the count of jobs in progress when
/// the job is created, quoted, awaiting payment, with payment detected,
/// executing or generating its report, and nothing when it is completed,
/// archived, failed or cancelled.
pub proof fn law_active_count_push(jobs: Seq<Job>, job: Job)
    ensures
        active_count(jobs.push(job)) == active_count(jobs) + match job.status {
            JobStatus::Created | JobStatus::Quoted | JobStatus::AwaitingPayment | JobStatus::PaymentDetected
            | JobStatus::Executing | JobStatus::GeneratingReport => 1int,
            JobStatus::Completed | JobStatus::Archived | JobStatus::Failed | JobStatus::Cancelled => 0int,
        },
{
    assert(jobs.push(job).drop_last() =~= jobs);
    assert(jobs.push(job).last() == job);
}


} // verus!
