//! Report generation: builders that turn a service response into a title,
//! sections and statistics; the Markdown text; the layout of the PDF page;
//! file names and paths; and the index of generated reports. Writing files
//! and drawing the PDF happen outside, on what is computed here.

use vstd::prelude::*;
use crate::clock::{Timestamp, format_utc, is_stamp_char, rfc3339, spec_format_utc, spec_rfc3339, utc_now};
use crate::pool::{Keyed, Pool, upsert_all};
use crate::runtime::{App, EventType, RiskLevel, ServiceType, clone_opt, emitted, generate_uuid, is_lower_hex, is_uuid_text, is_v4_uuid_text, prefixed, risk_level_name};
use crate::services::{ServiceFinding, ServiceResponse};
use crate::text::{
    contains_seq, count_words, join_path, path_join, split_lines, str_contains, text_lines, trim,
    trim_start_char, trim_start_matches_char, trim_ws, word_count,
};

verus! {

/// Errors of report generation and storage.
#[derive(Debug)]
pub enum ReportError {
    ReportGenerationError(String),
    MarkdownError(String),
    PDFError(String),
    StorageError(String),
    ConfigurationError(String),
    TemplateError(String),
    SerializationError(String),
    FileSystemError(String),
}

/// The message of a report error, as its display text reads.
pub open spec fn report_error_text(e: ReportError) -> Seq<char> {
    match e {
        ReportError::ReportGenerationError(s) => "Report generation error: "@ + s@,
        ReportError::MarkdownError(s) => "Markdown rendering error: "@ + s@,
        ReportError::PDFError(s) => "PDF rendering error: "@ + s@,
        ReportError::StorageError(s) => "Storage error: "@ + s@,
        ReportError::ConfigurationError(s) => "Configuration error: "@ + s@,
        ReportError::TemplateError(s) => "Template error: "@ + s@,
        ReportError::SerializationError(s) => "Serialization error: "@ + s@,
        ReportError::FileSystemError(s) => "Filesystem error: "@ + s@,
    }
}

impl ReportError {
    /// The error's message.
    pub fn message(&self) -> (r: String)
        ensures
            r@ == report_error_text(*self),
    {
        match self {
            ReportError::ReportGenerationError(s) => prefixed("Report generation error: ", s),
            ReportError::MarkdownError(s) => prefixed("Markdown rendering error: ", s),
            ReportError::PDFError(s) => prefixed("PDF rendering error: ", s),
            ReportError::StorageError(s) => prefixed("Storage error: ", s),
            ReportError::ConfigurationError(s) => prefixed("Configuration error: ", s),
            ReportError::TemplateError(s) => prefixed("Template error: ", s),
            ReportError::SerializationError(s) => prefixed("Serialization error: ", s),
            ReportError::FileSystemError(s) => prefixed("Filesystem error: ", s),
        }
    }
}

/// The kinds of report.
#[derive(Clone, Copy, Debug, PartialEq, Eq, Hash, Structural)]
pub enum ReportType {
    SmartContractReview,
    OnChainIntelligence,
}

/// The text of a report type.
pub open spec fn report_type_text(t: ReportType) -> Seq<char> {
    match t {
        ReportType::SmartContractReview => "SmartContractReview"@,
        ReportType::OnChainIntelligence => "OnChainIntelligence"@,
    }
}

impl ReportType {
    pub fn to_string(&self) -> (r: String)
        ensures
            r@ == report_type_text(*self),
    {
        match self {
            ReportType::SmartContractReview => String::from_str("SmartContractReview"),
            ReportType::OnChainIntelligence => String::from_str("OnChainIntelligence"),
        }
    }
}

/// The lifecycle status of a report.
#[derive(Clone, Copy, Debug, PartialEq, Eq, Structural)]
pub enum ReportStatus {
    Pending,
    Generating,
    Completed,
    Failed,
    Archived,
}

/// The text of a report status.
pub open spec fn report_status_text(s: ReportStatus) -> Seq<char> {
    match s {
        ReportStatus::Pending => "Pending"@,
        ReportStatus::Generating => "Generating"@,
        ReportStatus::Completed => "Completed"@,
        ReportStatus::Failed => "Failed"@,
        ReportStatus::Archived => "Archived"@,
    }
}

impl ReportStatus {
    pub fn to_string(&self) -> (r: String)
        ensures
            r@ == report_status_text(*self),
    {
        let t = match self {
            ReportStatus::Pending => "Pending",
            ReportStatus::Generating => "Generating",
            ReportStatus::Completed => "Completed",
            ReportStatus::Failed => "Failed",
            ReportStatus::Archived => "Archived",
        };
        String::from_str(t)
    }
}

/// A generated report and its metadata.
#[derive(Debug)]
pub struct Report {
    pub report_id: String,
    pub job_id: String,
    pub report_type: ReportType,
    pub service: ServiceType,
    pub status: String,
    pub filename: String,
    pub markdown_path: String,
    pub pdf_path: String,
    pub created_at: Timestamp,
    pub generated_at: Option<Timestamp>,
    pub summary: String,
}

impl Clone for Report {
    fn clone(&self) -> (r: Self)
        ensures
            r == *self,
    {
        Report {
            report_id: self.report_id.clone(),
            job_id: self.job_id.clone(),
            report_type: self.report_type,
            service: self.service,
            status: self.status.clone(),
            filename: self.filename.clone(),
            markdown_path: self.markdown_path.clone(),
            pdf_path: self.pdf_path.clone(),
            created_at: self.created_at,
            generated_at: self.generated_at,
            summary: self.summary.clone(),
        }
    }
}

impl Keyed for Report {
    open spec fn key_view(&self) -> Seq<char> {
        self.report_id@
    }

    fn key(&self) -> (k: &str) {
        self.report_id.as_str()
    }
}

/// A section of a report.
#[derive(Debug)]
pub struct ReportSection {
    pub title: String,
    pub content: String,
    pub order: usize,
}

impl Clone for ReportSection {
    fn clone(&self) -> (r: Self)
        ensures
            r == *self,
    {
        ReportSection { title: self.title.clone(), content: self.content.clone(), order: self.order }
    }
}

/// Statistics of a generated report.
#[derive(Clone, Copy, Debug)]
pub struct ReportStatistics {
    pub generation_time_ms: u128,
    pub section_count: usize,
    pub finding_count: usize,
    pub word_count: usize,
    pub page_count: usize,
}

/// Where and how reports are written.
#[derive(Clone, Debug)]
pub struct ReportConfig {
    pub output_dir: String,
    pub template_dir: String,
    pub generate_pdf: bool,
    pub generate_markdown: bool,
    pub compression: bool,
    pub history_retention: usize,
}

/// The report configuration from the values found in the configuration
/// file, each absent one replaced by its default (`storage/reports`,
/// `templates`, PDF and Markdown on, no compression, 100 reports kept; the
/// retention count is converted with `as usize`).
pub fn load_report_configuration(
    output_dir: Option<String>,
    template_dir: Option<String>,
    generate_pdf: Option<bool>,
    generate_markdown: Option<bool>,
    compression: Option<bool>,
    history_retention: Option<i64>,
) -> (c: ReportConfig)
    ensures
        c.output_dir@ == (match output_dir { Some(s) => s@, None => "storage/reports"@ }),
        c.template_dir@ == (match template_dir { Some(s) => s@, None => "templates"@ }),
        c.generate_pdf == (match generate_pdf { Some(b) => b, None => true }),
        c.generate_markdown == (match generate_markdown { Some(b) => b, None => true }),
        c.compression == (match compression { Some(b) => b, None => false }),
        c.history_retention == (match history_retention { Some(n) => n as usize, None => 100usize }),
{
    ReportConfig {
        output_dir: match output_dir { Some(s) => s, None => String::from_str("storage/reports") },
        template_dir: match template_dir { Some(s) => s, None => String::from_str("templates") },
        generate_pdf: match generate_pdf { Some(b) => b, None => true },
        generate_markdown: match generate_markdown { Some(b) => b, None => true },
        compression: match compression { Some(b) => b, None => false },
        history_retention: match history_retention { Some(n) => n as usize, None => 100 },
    }
}

/// A file name that could escape the report directory: it holds `..`, `/`
/// or `\`.
pub open spec fn is_traversal(filename: Seq<char>) -> bool {
    contains_seq(filename, ".."@) || contains_seq(filename, "/"@) || contains_seq(filename, "\\"@)
}

/// A report file name: `CHR-REPORT-`, the timestamp, `-`, the identifier,
/// `.` and the extension.
pub open spec fn report_filename_text(timestamp: Seq<char>, uuid: Seq<char>, extension: Seq<char>) -> Seq<char> {
    "CHR-REPORT-"@ + timestamp + "-"@ + uuid + "."@ + extension
}

/// A file extension holding no `.`, `/` or `\\`.
pub open spec fn plain_extension(e: Seq<char>) -> bool {
    forall|i: int| 0 <= i < e.len() ==> (#[trigger] e[i]) != '.' && e[i] != '/' && e[i] != '\\'
}

/// A report file name built from a written moment, a UUID text and a plain
/// extension cannot escape its directory: its only `.` is the one before the
/// extension, and it holds no `/` or `\\`.
pub proof fn lemma_report_name_safe(stamp: Seq<char>, uuid: Seq<char>, extension: Seq<char>)
    requires
        forall|i: int| 0 <= i < stamp.len() ==> is_stamp_char(#[trigger] stamp[i]),
        is_uuid_text(uuid),
        plain_extension(extension),
    ensures
        !is_traversal(report_filename_text(stamp, uuid, extension)),
{
    reveal_strlit("CHR-REPORT-");
    reveal_strlit("-");
    reveal_strlit(".");
    reveal_strlit("/");
    reveal_strlit("\\");
    reveal_strlit("..");
    let head = "CHR-REPORT-"@;
    let n = report_filename_text(stamp, uuid, extension);
    let p1 = head.len() + stamp.len();
    let p2 = p1 + 1;
    let p3 = p2 + uuid.len();
    let p4 = p3 + 1;
    assert(n.len() == p4 + extension.len());
    assert forall|k: int| 0 <= k < n.len() implies (#[trigger] n[k]) != '/' && n[k] != '\\' && (n[k] == '.'
        ==> k == p3) by {
        if k < head.len() {
            assert(n[k] == head[k]);
        } else if k < p1 {
            assert(n[k] == stamp[k - head.len()]);
        } else if k < p2 {
            assert(n[k] == '-');
        } else if k < p3 {
            assert(n[k] == uuid[k - p2]);
            let j = k - p2;
            if !(j == 8 || j == 13 || j == 18 || j == 23) {
                assert(is_lower_hex(uuid[j]));
            }
        } else if k < p4 {
            assert(n[k] == '.');
        } else {
            assert(n[k] == extension[k - p4]);
        }
    }
    if contains_seq(n, "/"@) {
        let i = choose|i: int| 0 <= i && i + ("/"@).len() <= n.len() && #[trigger] n.subrange(i, i + ("/"@).len()) == "/"@;
        assert(n.subrange(i, i + 1)[0] == n[i]);
    }
    if contains_seq(n, "\\"@) {
        let i = choose|i: int| 0 <= i && i + ("\\"@).len() <= n.len() && #[trigger] n.subrange(i, i + ("\\"@).len()) == "\\"@;
        assert(n.subrange(i, i + 1)[0] == n[i]);
    }
    if contains_seq(n, ".."@) {
        let i = choose|i: int| 0 <= i && i + (".."@).len() <= n.len() && #[trigger] n.subrange(i, i + (".."@).len()) == ".."@;
        assert(n.subrange(i, i + 2)[0] == n[i]);
        assert(n.subrange(i, i + 2)[1] == n[i + 1]);
    }
}

/// Names report files and checks names against path traversal.
pub struct FilenameGenerator;

impl FilenameGenerator {
    /// A unique report file name with the current time and a fresh identifier.
    pub fn generate(extension: &str) -> (r: String)
        ensures
            exists|t: Timestamp, u: Seq<char>|
                t.representable() && is_v4_uuid_text(u) && r@ == report_filename_text(
                    spec_format_utc(t.secs, t.nanos, "%Y%m%d-%H%M%S"@),
                    u,
                    extension@,
                ),
            plain_extension(extension@) ==> !is_traversal(r@),
    {
        let now = utc_now();
        let timestamp = format_utc(now, "%Y%m%d-%H%M%S");
        let id = generate_uuid();
        let r = Self::compose(&timestamp, &id, extension);
        proof {
            if plain_extension(extension@) {
                lemma_report_name_safe(timestamp@, id@, extension@);
            }
        }
        r
    }

    /// The report file name for a timestamp text, an identifier and an extension.
    pub fn compose(timestamp: &str, uuid: &str, extension: &str) -> (r: String)
        ensures
            r@ == report_filename_text(timestamp@, uuid@, extension@),
    {
        let mut r = prefixed("CHR-REPORT-", timestamp);
        r.append("-");
        r.append(uuid);
        r.append(".");
        r.append(extension);
        r
    }

    /// Rejects a name that could escape the report directory.
    pub fn validate_filename(filename: &str) -> (r: Result<(), ReportError>)
        ensures
            r is Ok <==> !is_traversal(filename@),
            r matches Err(e) ==> (e matches ReportError::StorageError(m) && m@
                == "Invalid filename containing traversal sequences"@),
    {
        if str_contains(filename, "..") || str_contains(filename, "/") || str_contains(filename, "\\") {
            return Err(ReportError::StorageError(String::from_str("Invalid filename containing traversal sequences")));
        }
        Ok(())
    }
}

/// The Markdown block of one section.
pub open spec fn section_block(s: ReportSection) -> Seq<char> {
    "## "@ + s.title@ + "\n\n"@ + s.content@ + "\n\n"@
}

/// The Markdown blocks of the sections, in order.
pub open spec fn sections_text(sections: Seq<ReportSection>) -> Seq<char>
    decreases sections.len(),
{
    if sections.len() == 0 {
        Seq::empty()
    } else {
        sections_text(sections.drop_last()) + section_block(sections.last())
    }
}

/// A Markdown report: the title, the generation time, a rule, the sections.
pub open spec fn markdown_text(title: Seq<char>, sections: Seq<ReportSection>, generated_at: Seq<char>) -> Seq<char> {
    "# "@ + title + "\n\n"@ + "*Generated at: "@ + generated_at + "*\n\n---\n\n"@ + sections_text(sections)
}

/// Renders reports as Markdown.
pub struct MarkdownRenderer;

impl MarkdownRenderer {
    /// The Markdown report, stamped with the current time in RFC 3339.
    pub fn render(title: &str, sections: &[ReportSection]) -> (r: String)
        ensures
            exists|t: Timestamp| t.representable() && r@ == markdown_text(title@, sections@, spec_rfc3339(t.secs, t.nanos)),
    {
        let now = utc_now();
        let stamp = rfc3339(now);
        Self::render_at(title, sections, &stamp)
    }

    /// The Markdown report with a given generation time text.
    pub fn render_at(title: &str, sections: &[ReportSection], generated_at: &str) -> (r: String)
        ensures
            r@ == markdown_text(title@, sections@, generated_at@),
    {
        let mut md = prefixed("# ", title);
        md.append("\n\n");
        md.append("*Generated at: ");
        md.append(generated_at);
        md.append("*\n\n---\n\n");
        let ghost head = md@;
        let mut i: usize = 0;
        while i < sections.len()
            invariant
                i <= sections@.len(),
                md@ == head + sections_text(sections@.subrange(0, i as int)),
            decreases sections@.len() - i,
        {
            let s = &sections[i];
            md.append("## ");
            md.append(s.title.as_str());
            md.append("\n\n");
            md.append(s.content.as_str());
            md.append("\n\n");
            proof {
                let next = sections@.subrange(0, i + 1);
                assert(next.drop_last() =~= sections@.subrange(0, i as int));
                assert(next.last() == sections@[i as int]);
            }
            i = i + 1;
        }
        assert(sections@.subrange(0, sections@.len() as int) =~= sections@);
        md
    }
}

/// One line of text placed on the PDF page: font size in points, baseline
/// height in points from the bottom, and the text.
#[derive(Debug)]
pub struct PdfTextLine {
    pub font_size: u32,
    pub y: i64,
    pub text: String,
}

/// The title drawn at the top of every PDF report.
pub open spec fn pdf_title() -> Seq<char> {
    "ClawHire Intelligence & Audit Report"@
}

/// The page layout after the first lines of a Markdown text: the lines placed
/// so far, the height of the next line, and whether the page is full.
/// The title sits at 800 pt in 24 pt type; a plain line takes 10 pt type and
/// 20 pt of height; a heading (`#...`) drops 10 pt, is drawn in 14 pt type
/// without its `#` marks and surrounding whitespace, and takes 25 pt more;
/// empty lines are skipped; once the next line would start below 50 pt,
/// nothing more is placed.
pub open spec fn layout_lines(lines: Seq<Seq<char>>) -> (Seq<(u32, int, Seq<char>)>, int, bool)
    decreases lines.len(),
{
    if lines.len() == 0 {
        (seq![(24u32, 800int, pdf_title())], 760, false)
    } else {
        let (items, y, stopped) = layout_lines(lines.drop_last());
        let line = lines.last();
        if stopped || y < 50 {
            (items, y, true)
        } else if line.len() > 0 && line[0] != '#' {
            (items.push((10u32, y, line)), y - 20, false)
        } else if line.len() > 0 {
            (items.push((14u32, y - 10, trim_ws(trim_start_char(line, '#')))), y - 35, false)
        } else {
            (items, y, false)
        }
    }
}

/// The height of the next line stays between 15 pt and 760 pt.
pub proof fn lemma_layout_height(lines: Seq<Seq<char>>)
    ensures
        15 <= layout_lines(lines).1 <= 760,
    decreases lines.len(),
{
    if lines.len() > 0 {
        lemma_layout_height(lines.drop_last());
    }
}

/// Lays out Markdown text on a single PDF page.
pub struct PDFRenderer;

impl PDFRenderer {
    /// The lines of the page for a Markdown text (see `layout_lines`).
    pub fn layout(markdown_content: &str) -> (r: Vec<PdfTextLine>)
        ensures
            r@.len() == layout_lines(text_lines(markdown_content@)).0.len(),
            forall|k: int| 0 <= k < r@.len() ==> {
                let it = layout_lines(text_lines(markdown_content@)).0[k];
                &&& (#[trigger] r@[k]).font_size == it.0
                &&& r@[k].y == it.1
                &&& r@[k].text@ == it.2
            },
    {
        let lines = split_lines(markdown_content);
        let ghost all = text_lines(markdown_content@);
        let mut out: Vec<PdfTextLine> = Vec::new();
        out.push(PdfTextLine { font_size: 24, y: 800, text: String::from_str("ClawHire Intelligence & Audit Report") });
        let mut y: i64 = 760;
        let mut stopped = false;
        let mut i: usize = 0;
        proof {
            assert(all.subrange(0, 0) =~= Seq::<Seq<char>>::empty());
        }
        while i < lines.len()
            invariant
                lines@.len() == all.len(),
                forall|k: int| 0 <= k < lines@.len() ==> (#[trigger] lines@[k])@ == all[k],
                i <= lines@.len(),
                layout_lines(all.subrange(0, i as int)).1 == y,
                layout_lines(all.subrange(0, i as int)).2 == stopped,
                out@.len() == layout_lines(all.subrange(0, i as int)).0.len(),
                forall|k: int| 0 <= k < out@.len() ==> {
                    let it = layout_lines(all.subrange(0, i as int)).0[k];
                    &&& (#[trigger] out@[k]).font_size == it.0
                    &&& out@[k].y == it.1
                    &&& out@[k].text@ == it.2
                },
            decreases lines@.len() - i,
        {
            let ghost prev = all.subrange(0, i as int);
            proof {
                let next = all.subrange(0, i + 1);
                assert(next.drop_last() =~= prev);
                assert(next.last() == all[i as int]);
                lemma_layout_height(prev);
            }
            let line = lines[i].as_str();
            let n = line.unicode_len();
            if stopped || y < 50 {
                stopped = true;
            } else if n > 0 && line.get_char(0) != '#' {
                out.push(PdfTextLine { font_size: 10, y, text: line.to_owned() });
                y = y - 20;
            } else if n > 0 {
                y = y - 10;
                let stripped = trim_start_matches_char(line, '#');
                let heading = trim(stripped.as_str());
                out.push(PdfTextLine { font_size: 14, y, text: heading });
                y = y - 25;
            }
            i = i + 1;
        }
        assert(all.subrange(0, all.len() as int) =~= all);
        out
    }
}

/// The index of generated reports, by id.
pub struct ReportIndex {
    pub index: Pool<Report>,
}

impl ReportIndex {
    /// An index holding previously saved reports (a later report replaces an
    /// earlier one with the same id).
    pub fn load(existing: Vec<Report>) -> (r: ReportIndex)
        ensures
            r.index.wf(),
            r.index@ == upsert_all(Seq::<Report>::empty(), existing@),
    {
        ReportIndex { index: Pool::from_records(existing) }
    }

    /// Stores a report, replacing the one with the same id.
    pub fn insert(&mut self, report: Report) -> (r: Result<(), ReportError>)
        requires
            old(self).index.wf(),
        ensures
            r is Ok,
            final(self).index.wf(),
            final(self).index.entries() == old(self).index.entries().insert(report.report_id@, report),
    {
        self.index.upsert(report);
        Ok(())
    }

    /// A report by id.
    pub fn get(&self, report_id: &str) -> (r: Option<Report>)
        requires
            self.index.wf(),
        ensures
            self.index.entries().contains_key(report_id@) ==> r == Some(self.index.entries()[report_id@]),
            !self.index.entries().contains_key(report_id@) ==> r is None,
    {
        match self.index.get(report_id) {
            Some(x) => Some(x.clone()),
            None => None,
        }
    }

    /// Every report, in storage order.
    pub fn list(&self) -> (r: Vec<Report>)
        ensures
            r@ == self.index@,
    {
        let items = self.index.items();
        let mut r: Vec<Report> = Vec::new();
        let mut i: usize = 0;
        while i < items.len()
            invariant
                i <= items@.len(),
                r@ == items@.subrange(0, i as int),
            decreases items@.len() - i,
        {
            r.push(items[i].clone());
            i = i + 1;
            assert(r@ =~= items@.subrange(0, i as int));
        }
        assert(r@ =~= items@);
        r
    }
}

/// The directory that report files are written to.
pub struct ReportStorage {
    pub base_dir: String,
}

impl ReportStorage {
    pub fn new(base_dir: String) -> (s: ReportStorage)
        ensures
            s.base_dir == base_dir,
    {
        ReportStorage { base_dir }
    }

    /// The path a report file is written to or removed from, once its name
    /// is checked against path traversal.
    pub fn file_path(&self, filename: &str) -> (r: Result<String, ReportError>)
        ensures
            r is Ok <==> !is_traversal(filename@),
            r matches Ok(p) ==> p@ == path_join(self.base_dir@, filename@),
            r matches Err(e) ==> (e matches ReportError::StorageError(m) && m@
                == "Invalid filename containing traversal sequences"@),
    {
        match FilenameGenerator::validate_filename(filename) {
            Ok(()) => Ok(join_path(self.base_dir.as_str(), filename)),
            Err(e) => Err(e),
        }
    }
}

/// The Markdown block of one finding.
pub open spec fn finding_block(f: ServiceFinding) -> Seq<char> {
    "### "@ + f.title@ + "\n- **Severity**: "@ + risk_level_name(f.severity) + "\n- **Description**: "@
        + f.description@ + "\n- **Recommendation**: "@ + f.recommendation@ + "\n\n"@
}

/// The Markdown blocks of the findings, in order.
pub open spec fn findings_text(findings: Seq<ServiceFinding>) -> Seq<char>
    decreases findings.len(),
{
    if findings.len() == 0 {
        Seq::empty()
    } else {
        findings_text(findings.drop_last()) + finding_block(findings.last())
    }
}

/// The total of the sections' word counts, summed with wrap-around as the
/// release build's `usize` sum does.
pub open spec fn total_words(sections: Seq<ReportSection>) -> usize
    decreases sections.len(),
{
    if sections.len() == 0 {
        0
    } else {
        total_words(sections.drop_last()).wrapping_add(word_count(sections.last().content@) as usize)
    }
}

/// The statistics of a report: the execution time in whole milliseconds,
/// the number of sections, the given finding count, the words of all
/// sections, one page.
pub open spec fn statistics_of(response: ServiceResponse, sections: Seq<ReportSection>, finding_count: usize, st: ReportStatistics) -> bool {
    &&& st.generation_time_ms == response.execution_time.spec_millis()
    &&& st.section_count == sections.len()
    &&& st.finding_count == finding_count
    &&& st.word_count == total_words(sections)
    &&& st.page_count == 1
}

fn statistics(response: &ServiceResponse, sections: &[ReportSection], finding_count: usize) -> (st: ReportStatistics)
    ensures
        statistics_of(*response, sections@, finding_count, st),
{
    let mut words: usize = 0;
    let mut i: usize = 0;
    while i < sections.len()
        invariant
            i <= sections@.len(),
            words == total_words(sections@.subrange(0, i as int)),
        decreases sections@.len() - i,
    {
        let w = count_words(sections[i].content.as_str());
        proof {
            let next = sections@.subrange(0, i + 1);
            assert(next.drop_last() =~= sections@.subrange(0, i as int));
            assert(next.last() == sections@[i as int]);
        }
        words = words.wrapping_add(w);
        i = i + 1;
    }
    assert(sections@.subrange(0, sections@.len() as int) =~= sections@);
    ReportStatistics {
        generation_time_ms: response.execution_time.as_millis(),
        section_count: sections.len(),
        finding_count,
        word_count: words,
        page_count: 1,
    }
}

fn section(title: &str, content: String, order: usize) -> (r: ReportSection)
    ensures
        r.title@ == title@,
        r.content == content,
        r.order == order,
{
    ReportSection { title: title.to_owned(), content, order }
}

/// Builds the title, sections and statistics of a report from a service
/// response.
pub trait ReportBuilder {
    fn build(&self, response: &ServiceResponse) -> Result<(String, Vec<ReportSection>, ReportStatistics), ReportError>;

    fn build_summary(&self, response: &ServiceResponse) -> String;

    fn build_sections(&self, response: &ServiceResponse) -> Vec<ReportSection>;

    fn build_statistics(&self, response: &ServiceResponse, sections: &[ReportSection]) -> ReportStatistics;
}

/// The sections of a security audit report.
pub open spec fn audit_sections(response: ServiceResponse, sections: Seq<ReportSection>) -> bool {
    &&& sections.len() == 2
    &&& sections[0].title@ == "Executive Summary"@
    &&& sections[0].content == response.summary
    &&& sections[0].order == 1
    &&& sections[1].title@ == "Detailed Findings"@
    &&& sections[1].content@ == (if findings_text(response.findings@).len() == 0 {
        "No vulnerabilities discovered."@
    } else {
        findings_text(response.findings@)
    })
    &&& sections[1].order == 2
}

/// Builds security audit reports.
pub struct SmartContractReportBuilder;

impl ReportBuilder for SmartContractReportBuilder {
    fn build(&self, response: &ServiceResponse) -> (r: Result<(String, Vec<ReportSection>, ReportStatistics), ReportError>)
        ensures
            r matches Ok(t) && t.0@ == "Smart Contract Security Audit Report"@ && audit_sections(*response, t.1@)
                && statistics_of(*response, t.1@, response.findings@.len() as usize, t.2),
    {
        let title = String::from_str("Smart Contract Security Audit Report");
        let sections = self.build_sections(response);
        let stats = self.build_statistics(response, sections.as_slice());
        Ok((title, sections, stats))
    }

    fn build_summary(&self, response: &ServiceResponse) -> (r: String)
        ensures
            r@ == "Audit completed with risk level "@ + risk_level_name(response.risk_level) + ". Summary: "@
                + response.summary@,
    {
        let mut s = prefixed("Audit completed with risk level ", response.risk_level.debug_name());
        s.append(". Summary: ");
        s.append(response.summary.as_str());
        s
    }

    fn build_sections(&self, response: &ServiceResponse) -> (r: Vec<ReportSection>)
        ensures
            audit_sections(*response, r@),
    {
        let mut sections: Vec<ReportSection> = Vec::new();
        sections.push(section("Executive Summary", response.summary.clone(), 1));
        let mut findings_content = String::new();
        let mut i: usize = 0;
        while i < response.findings.len()
            invariant
                i <= response.findings@.len(),
                findings_content@ == findings_text(response.findings@.subrange(0, i as int)),
            decreases response.findings@.len() - i,
        {
            let f = &response.findings[i];
            findings_content.append("### ");
            findings_content.append(f.title.as_str());
            findings_content.append("\n- **Severity**: ");
            findings_content.append(f.severity.debug_name());
            findings_content.append("\n- **Description**: ");
            findings_content.append(f.description.as_str());
            findings_content.append("\n- **Recommendation**: ");
            findings_content.append(f.recommendation.as_str());
            findings_content.append("\n\n");
            proof {
                let next = response.findings@.subrange(0, i + 1);
                assert(next.drop_last() =~= response.findings@.subrange(0, i as int));
                assert(next.last() == response.findings@[i as int]);
            }
            i = i + 1;
        }
        assert(response.findings@.subrange(0, response.findings@.len() as int) =~= response.findings@);
        let content = if findings_content.as_str().is_empty() {
            String::from_str("No vulnerabilities discovered.")
        } else {
            findings_content
        };
        sections.push(section("Detailed Findings", content, 2));
        sections
    }

    fn build_statistics(&self, response: &ServiceResponse, sections: &[ReportSection]) -> (r: ReportStatistics)
        ensures
            statistics_of(*response, sections@, response.findings@.len() as usize, r),
    {
        statistics(response, sections, response.findings.len())
    }
}

/// The sections of an on-chain intelligence report.
pub open spec fn intelligence_sections(response: ServiceResponse, sections: Seq<ReportSection>) -> bool {
    &&& sections.len() == 2
    &&& sections[0].title@ == "Executive Summary"@
    &&& sections[0].content == response.summary
    &&& sections[0].order == 1
    &&& sections[1].title@ == "Activity Summary"@
    &&& sections[1].content@ == "Detailed wallet transaction and program interactions analyzed successfully."@
    &&& sections[1].order == 2
}

/// Builds on-chain intelligence reports.
pub struct OnChainReportBuilder;

impl ReportBuilder for OnChainReportBuilder {
    fn build(&self, response: &ServiceResponse) -> (r: Result<(String, Vec<ReportSection>, ReportStatistics), ReportError>)
        ensures
            r matches Ok(t) && t.0@ == "On-Chain Intelligence & Wallet Analysis Report"@ && intelligence_sections(
                *response,
                t.1@,
            ) && statistics_of(*response, t.1@, 0, t.2),
    {
        let title = String::from_str("On-Chain Intelligence & Wallet Analysis Report");
        let sections = self.build_sections(response);
        let stats = self.build_statistics(response, sections.as_slice());
        Ok((title, sections, stats))
    }

    fn build_summary(&self, response: &ServiceResponse) -> (r: String)
        ensures
            r@ == "On-chain intelligence analysis generated. Risk level: "@ + risk_level_name(response.risk_level),
    {
        prefixed("On-chain intelligence analysis generated. Risk level: ", response.risk_level.debug_name())
    }

    fn build_sections(&self, response: &ServiceResponse) -> (r: Vec<ReportSection>)
        ensures
            intelligence_sections(*response, r@),
    {
        let mut sections: Vec<ReportSection> = Vec::new();
        sections.push(section("Executive Summary", response.summary.clone(), 1));
        sections.push(section(
            "Activity Summary",
            String::from_str("Detailed wallet transaction and program interactions analyzed successfully."),
            2,
        ));
        sections
    }

    fn build_statistics(&self, response: &ServiceResponse, sections: &[ReportSection]) -> (r: ReportStatistics)
        ensures
            statistics_of(*response, sections@, 0, r),
    {
        statistics(response, sections, 0)
    }
}

/// The report type for a service.
pub open spec fn report_type_of(service: ServiceType) -> ReportType {
    match service {
        ServiceType::SmartContractReview => ReportType::SmartContractReview,
        ServiceType::OnChainIntelligence => ReportType::OnChainIntelligence,
    }
}

/// A report's content, computed before its files are written: title,
/// sections, statistics, summary, Markdown text, file names and paths.
#[derive(Debug)]
pub struct ReportDraft {
    pub report_type: ReportType,
    pub title: String,
    pub sections: Vec<ReportSection>,
    pub statistics: ReportStatistics,
    pub summary: String,
    pub markdown: String,
    pub markdown_filename: String,
    pub pdf_filename: String,
    pub markdown_path: String,
    pub pdf_path: String,
}

/// The content the builder of the response's service gives: title,
/// sections, statistics and summary.
pub open spec fn built_content(response: ServiceResponse, d: ReportDraft) -> bool {
    &&& d.report_type == report_type_of(response.service)
    &&& match d.report_type {
        ReportType::SmartContractReview => {
            &&& d.title@ == "Smart Contract Security Audit Report"@
            &&& audit_sections(response, d.sections@)
            &&& statistics_of(response, d.sections@, response.findings@.len() as usize, d.statistics)
            &&& d.summary@ == "Audit completed with risk level "@ + risk_level_name(response.risk_level)
                + ". Summary: "@ + response.summary@
        },
        ReportType::OnChainIntelligence => {
            &&& d.title@ == "On-Chain Intelligence & Wallet Analysis Report"@
            &&& intelligence_sections(response, d.sections@)
            &&& statistics_of(response, d.sections@, 0, d.statistics)
            &&& d.summary@ == "On-chain intelligence analysis generated. Risk level: "@ + risk_level_name(
                response.risk_level,
            )
        },
    }
}

/// A generated report file name with the given extension.
pub open spec fn generated_filename(name: Seq<char>, extension: Seq<char>) -> bool {
    exists|t: Timestamp, u: Seq<char>|
        t.representable() && is_v4_uuid_text(u) && name == report_filename_text(
            spec_format_utc(t.secs, t.nanos, "%Y%m%d-%H%M%S"@),
            u,
            extension,
        )
}

/// The message of the event announcing a generated report.
pub open spec fn report_generated_message(report_id: Seq<char>) -> Seq<char> {
    "Report "@ + report_id + " generated successfully."@
}

/// Generates, indexes and retrieves reports.
pub struct ReportGenerator {
    pub config: ReportConfig,
    pub storage: ReportStorage,
    pub index: ReportIndex,
}

impl ReportGenerator {
    /// The generator is well formed: it writes to the configured directory
    /// and its index keeps ids distinct.
    pub open spec fn wf(&self) -> bool {
        &&& self.index.index.wf()
        &&& self.storage.base_dir@ == self.config.output_dir@
    }

    /// A generator writing to the configured directory, indexing the
    /// previously saved reports.
    pub fn new(config: ReportConfig, existing: Vec<Report>) -> (g: ReportGenerator)
        ensures
            g.wf(),
            g.config.output_dir == config.output_dir,
            g.index.index@ == upsert_all(Seq::<Report>::empty(), existing@),
    {
        let storage = ReportStorage::new(config.output_dir.clone());
        let index = ReportIndex::load(existing);
        ReportGenerator { config, storage, index }
    }

    /// Computes a report for a service response: the builder of its service
    /// gives title, sections, statistics and summary; the sections are
    /// rendered as Markdown; fresh Markdown and PDF file names are chosen and
    /// placed in the output directory (the Markdown name checked against path
    /// traversal first, a check that a generated name always passes).
    pub fn generate_begin(&self, response: &ServiceResponse) -> (r: Result<ReportDraft, ReportError>)
        requires
            self.wf(),
        ensures
            r matches Ok(d) ==> {
                &&& built_content(*response, d)
                &&& exists|t: Timestamp| t.representable() && d.markdown@ == markdown_text(
                    d.title@,
                    d.sections@,
                    spec_rfc3339(t.secs, t.nanos),
                )
                &&& generated_filename(d.markdown_filename@, "md"@)
                &&& generated_filename(d.pdf_filename@, "pdf"@)
                &&& !is_traversal(d.markdown_filename@)
                &&& d.markdown_path@ == path_join(self.config.output_dir@, d.markdown_filename@)
                &&& d.pdf_path@ == path_join(self.config.output_dir@, d.pdf_filename@)
            },
            r is Ok,
    {
        let (report_type, title, sections, statistics, summary) = match response.service {
            ServiceType::SmartContractReview => {
                let b = SmartContractReportBuilder;
                let (title, sections, stats) = match b.build(response) {
                    Ok(t) => t,
                    Err(e) => return Err(e),
                };
                let summary = b.build_summary(response);
                (ReportType::SmartContractReview, title, sections, stats, summary)
            },
            ServiceType::OnChainIntelligence => {
                let b = OnChainReportBuilder;
                let (title, sections, stats) = match b.build(response) {
                    Ok(t) => t,
                    Err(e) => return Err(e),
                };
                let summary = b.build_summary(response);
                (ReportType::OnChainIntelligence, title, sections, stats, summary)
            },
        };
        let markdown = MarkdownRenderer::render(title.as_str(), sections.as_slice());
        proof {
            reveal_strlit("md");
        }
        let markdown_filename = FilenameGenerator::generate("md");
        let pdf_filename = FilenameGenerator::generate("pdf");
        let markdown_path = match self.storage.file_path(markdown_filename.as_str()) {
            Ok(p) => p,
            Err(e) => return Err(e),
        };
        let pdf_path = join_path(self.config.output_dir.as_str(), pdf_filename.as_str());
        Ok(ReportDraft {
            report_type,
            title,
            sections,
            statistics,
            summary,
            markdown,
            markdown_filename,
            pdf_filename,
            markdown_path,
            pdf_path,
        })
    }

    /// Records a report once its files are written: a fresh id, status
    /// `Completed`, the draft's file names and summary, the current time;
    /// indexes it and emits a `ReportGenerated` event for its job.
    pub fn generate_complete(&mut self, app: &mut App, response: &ServiceResponse, draft: ReportDraft) -> (r: Result<Report, ReportError>)
        requires
            old(self).wf(),
            old(app).wf(),
        ensures
            final(self).wf(),
            final(app).wf(),
            final(self).config == old(self).config,
            final(app).same_records(old(app)),
            r matches Ok(rep) && {
                &&& is_v4_uuid_text(rep.report_id@)
                &&& rep.job_id == response.job_id
                &&& rep.report_type == draft.report_type
                &&& rep.service == response.service
                &&& rep.status@ == "Completed"@
                &&& rep.filename == draft.markdown_filename
                &&& rep.markdown_path == draft.markdown_path
                &&& rep.pdf_path == draft.pdf_path
                &&& rep.created_at.representable()
                &&& (rep.generated_at matches Some(t) && t.representable())
                &&& rep.summary == draft.summary
                &&& final(self).index.index.entries() == old(self).index.index.entries().insert(rep.report_id@, rep)
                &&& emitted(
                    old(app).events(),
                    final(app).events(),
                    EventType::ReportGenerated,
                    Some(response.job_id@),
                    report_generated_message(rep.report_id@),
                )
            },
    {
        let report_id = generate_uuid();
        let report = Report {
            report_id: report_id.clone(),
            job_id: response.job_id.clone(),
            report_type: draft.report_type,
            service: response.service,
            status: ReportStatus::Completed.to_string(),
            filename: draft.markdown_filename,
            markdown_path: draft.markdown_path,
            pdf_path: draft.pdf_path,
            created_at: utc_now(),
            generated_at: Some(utc_now()),
            summary: draft.summary,
        };
        let _ = self.index.insert(report.clone());
        let mut message = prefixed("Report ", report_id.as_str());
        message.append(" generated successfully.");
        app.emit_event(EventType::ReportGenerated, Some(response.job_id.clone()), message);
        Ok(report)
    }

    /// A report by id.
    pub fn find_report(&self, report_id: &str) -> (r: Option<Report>)
        requires
            self.wf(),
        ensures
            self.index.index.entries().contains_key(report_id@) ==> r == Some(self.index.index.entries()[report_id@]),
            !self.index.index.entries().contains_key(report_id@) ==> r is None,
    {
        self.index.get(report_id)
    }

    /// Every indexed report, in storage order.
    pub fn list_reports(&self) -> (r: Vec<Report>)
        ensures
            r@ == self.index.index@,
    {
        self.index.list()
    }

    /// Marks an indexed report `Archived`; an unknown id changes nothing.
    pub fn archive(&mut self, report_id: &str) -> (r: Result<(), ReportError>)
        requires
            old(self).wf(),
        ensures
            r is Ok,
            final(self).wf(),
            final(self).config == old(self).config,
            !old(self).index.index.entries().contains_key(report_id@) ==> final(self).index.index.entries()
                == old(self).index.index.entries(),
            old(self).index.index.entries().contains_key(report_id@) ==> {
                let before = old(self).index.index.entries()[report_id@];
                let after = final(self).index.index.entries()[report_id@];
                &&& final(self).index.index.entries().contains_key(report_id@)
                &&& final(self).index.index.entries() == old(self).index.index.entries().insert(report_id@, after)
                &&& after == Report { status: after.status, ..before }
                &&& after.status@ == "Archived"@
            },
    {
        match self.index.get(report_id) {
            Some(rep) => {
                let mut rep = rep;
                rep.status = ReportStatus::Archived.to_string();
                let _ = self.index.insert(rep);
            },
            None => {},
        }
        Ok(())
    }

    /// The path of an indexed report's Markdown file, to be removed; `None`
    /// for an unknown id. The stored file name is checked against path
    /// traversal first.
    pub fn delete(&self, report_id: &str) -> (r: Result<Option<String>, ReportError>)
        requires
            self.wf(),
        ensures
            !self.index.index.entries().contains_key(report_id@) ==> r matches Ok(None),
            self.index.index.entries().contains_key(report_id@) ==> {
                let name = self.index.index.entries()[report_id@].filename@;
                &&& is_traversal(name) ==> (r matches Err(ReportError::StorageError(m)) && m@
                    == "Invalid filename containing traversal sequences"@)
                &&& !is_traversal(name) ==> (r matches Ok(Some(p)) && p@ == path_join(
                    self.config.output_dir@,
                    name,
                ))
            },
    {
        match self.index.get(report_id) {
            Some(rep) => match self.storage.file_path(rep.filename.as_str()) {
                Ok(p) => Ok(Some(p)),
                Err(e) => Err(e),
            },
            None => Ok(None),
        }
    }
}

} // verus!
