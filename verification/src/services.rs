//! The blockchain services: input validation, pricing, the decisions and
//! texts of the smart-contract review and on-chain intelligence pipelines,
//! and the execution log lines. Fetching sources, calling the AI provider and
//! querying the chain happen outside; the results are handed in here.

use std::collections::HashMap;
use vstd::prelude::*;
use crate::clock::{Elapsed, Timestamp, duration_debug, spec_duration_debug};
use crate::runtime::{RiskLevel, ServiceType, prefixed, risk_level_name, risk_rank, service_type_name};
use crate::solana::{pubkey_parses, signature_parses, spec_pubkey_parses, spec_signature_parses};
use crate::text::{
    bool_text, bool_to_text, decimal, join_path, path_join, prefix_chars, spec_to_lowercase, starts_with_seq,
    str_eq, str_starts_with, take_chars, to_lowercase, u64_to_decimal, usize_to_decimal,
};

verus! {

/// Errors of service execution.
#[derive(Debug)]
pub enum ServiceError {
    InvalidInput(String),
    RepositoryError(String),
    ArchiveError(String),
    PromptError(String),
    AIError(String),
    RPCError(String),
    ExecutionError(String),
    ValidationError(String),
    TimeoutError(String),
}

/// The message of a service error, as its display text reads.
pub open spec fn service_error_text(e: ServiceError) -> Seq<char> {
    match e {
        ServiceError::InvalidInput(s) => "Invalid input provided: "@ + s@,
        ServiceError::RepositoryError(s) => "Repository error: "@ + s@,
        ServiceError::ArchiveError(s) => "Archive error: "@ + s@,
        ServiceError::PromptError(s) => "Prompt error: "@ + s@,
        ServiceError::AIError(s) => "AI execution error: "@ + s@,
        ServiceError::RPCError(s) => "Blockchain RPC error: "@ + s@,
        ServiceError::ExecutionError(s) => "Service execution error: "@ + s@,
        ServiceError::ValidationError(s) => "Validation error: "@ + s@,
        ServiceError::TimeoutError(s) => "Timeout error: "@ + s@,
    }
}

impl ServiceError {
    /// The error's message.
    pub fn message(&self) -> (r: String)
        ensures
            r@ == service_error_text(*self),
    {
        match self {
            ServiceError::InvalidInput(s) => prefixed("Invalid input provided: ", s),
            ServiceError::RepositoryError(s) => prefixed("Repository error: ", s),
            ServiceError::ArchiveError(s) => prefixed("Archive error: ", s),
            ServiceError::PromptError(s) => prefixed("Prompt error: ", s),
            ServiceError::AIError(s) => prefixed("AI execution error: ", s),
            ServiceError::RPCError(s) => prefixed("Blockchain RPC error: ", s),
            ServiceError::ExecutionError(s) => prefixed("Service execution error: ", s),
            ServiceError::ValidationError(s) => prefixed("Validation error: ", s),
            ServiceError::TimeoutError(s) => prefixed("Timeout error: ", s),
        }
    }
}

/// The execution status of a service.
#[derive(Clone, Copy, Debug, PartialEq, Eq, Structural)]
pub enum ServiceStatus {
    Pending,
    Validating,
    Running,
    Completed,
    Failed,
}

/// A request to execute a service.
#[derive(Debug)]
pub struct ServiceRequest {
    pub job_id: String,
    pub service_type: ServiceType,
    pub input: String,
    pub metadata: HashMap<String, String>,
    pub created_at: Timestamp,
}

/// A structured finding of an analysis.
#[derive(Debug)]
pub struct ServiceFinding {
    pub title: String,
    pub severity: RiskLevel,
    pub description: String,
    pub recommendation: String,
}

impl Clone for ServiceFinding {
    fn clone(&self) -> (r: Self)
        ensures
            r == *self,
    {
        ServiceFinding {
            title: self.title.clone(),
            severity: self.severity,
            description: self.description.clone(),
            recommendation: self.recommendation.clone(),
        }
    }
}

/// The result of a completed service execution.
#[derive(Debug)]
pub struct ServiceResponse {
    pub job_id: String,
    pub success: bool,
    pub service: ServiceType,
    pub summary: String,
    pub findings: Vec<ServiceFinding>,
    pub risk_level: RiskLevel,
    pub execution_time: Elapsed,
    pub report_metadata: HashMap<String, String>,
}

/// Metadata describing an available service; `price` is in lamports.
#[derive(Clone, Debug)]
pub struct ServiceMetadata {
    pub id: String,
    pub name: String,
    pub description: String,
    pub price: u64,
    pub currency: String,
    pub estimated_duration: u64,
    pub accepted_inputs: Vec<String>,
}

impl ServiceMetadata {
    /// The metadata the registry lists for a service: its type's name as id,
    /// its name and description, a price of 0.1 SOL, five minutes' estimated
    /// duration, and text input.
    pub fn for_service(service_type: ServiceType, name: &str, description: &str) -> (m: ServiceMetadata)
        ensures
            m.id@ == service_type_name(service_type),
            m.name@ == name@,
            m.description@ == description@,
            m.price == 100_000_000,
            m.currency@ == "SOL"@,
            m.estimated_duration == 300,
            m.accepted_inputs@.len() == 1,
            m.accepted_inputs@[0]@ == "string"@,
    {
        let mut accepted_inputs: Vec<String> = Vec::new();
        accepted_inputs.push(String::from_str("string"));
        ServiceMetadata {
            id: String::from_str(service_type.debug_name()),
            name: name.to_owned(),
            description: description.to_owned(),
            price: 100_000_000,
            currency: String::from_str("SOL"),
            estimated_duration: 300,
            accepted_inputs,
        }
    }
}

/// Whether the text is a valid Solana wallet address.
pub fn is_valid_solana_address(address: &str) -> (b: bool)
    ensures
        b == spec_pubkey_parses(address@),
{
    pubkey_parses(address)
}

/// Whether the text is a valid Solana transaction signature.
pub fn is_valid_solana_signature(signature: &str) -> (b: bool)
    ensures
        b == spec_signature_parses(signature@),
{
    signature_parses(signature)
}

/// The text an AI provider sends as its user message: the instructions, a
/// blank line, and the context under a `Context:` heading.
pub open spec fn full_prompt(prompt: Seq<char>, context: Seq<char>) -> Seq<char> {
    prompt + "\n\nContext:\n"@ + context
}

/// The user message for an AI provider (see `full_prompt`).
pub fn compose_prompt(prompt: &str, context: &str) -> (r: String)
    ensures
        r@ == full_prompt(prompt@, context@),
{
    let mut r = prefixed(prompt, "\n\nContext:\n");
    r.append(context);
    r
}

/// The AI backends a deployment can be configured with.
#[derive(Clone, Copy, Debug, PartialEq, Eq, Structural)]
pub enum AIProviderKind {
    OpenAI,
    Anthropic,
    OpenRouter,
}

/// The backend a configured provider name selects: `openai` or `anthropic`
/// in any letter case, and OpenRouter for any other name.
pub open spec fn provider_kind_named(name: Seq<char>) -> AIProviderKind {
    if spec_to_lowercase(name) == "openai"@ {
        AIProviderKind::OpenAI
    } else if spec_to_lowercase(name) == "anthropic"@ {
        AIProviderKind::Anthropic
    } else {
        AIProviderKind::OpenRouter
    }
}

/// The backend a configured provider name selects.
pub fn ai_provider_kind(name: &str) -> (k: AIProviderKind)
    ensures
        k == provider_kind_named(name@),
{
    let lowered = to_lowercase(name);
    if str_eq(lowered.as_str(), "openai") {
        AIProviderKind::OpenAI
    } else if str_eq(lowered.as_str(), "anthropic") {
        AIProviderKind::Anthropic
    } else {
        AIProviderKind::OpenRouter
    }
}

/// Where the answer text sits in a backend's JSON reply (a JSON pointer):
/// the first choice's message content for OpenAI and OpenRouter, the first
/// content block's text for Anthropic.
pub open spec fn answer_pointer_of(kind: AIProviderKind) -> Seq<char> {
    match kind {
        AIProviderKind::Anthropic => "/content/0/text"@,
        _ => "/choices/0/message/content"@,
    }
}

/// Where the answer text sits in a backend's JSON reply.
pub fn answer_pointer(kind: AIProviderKind) -> (r: &'static str)
    ensures
        r@ == answer_pointer_of(kind),
{
    match kind {
        AIProviderKind::Anthropic => "/content/0/text",
        _ => "/choices/0/message/content",
    }
}

/// What `serde_json` reads at a JSON pointer of a reply body: `None` when the
/// body is not JSON, `Some(None)` when nothing is at the pointer or it is not
/// a string, `Some(Some(text))` otherwise.
pub uninterp spec fn spec_json_text_at(body: Seq<u8>, pointer: Seq<char>) -> Option<Option<Seq<char>>>;

/// The view of an optional optional text.
pub open spec fn opt_opt_view(r: Option<Option<String>>) -> Option<Option<Seq<char>>> {
    match r {
        Some(Some(s)) => Some(Some(s@)),
        Some(None) => Some(None),
        None => None,
    }
}

/// Parses a reply body with `serde_json::from_slice` into a `Value`, then
/// takes `Value::pointer` and `Value::as_str`. The contract names the
/// outcome (a function of the bytes and the pointer) without describing it.
#[verifier::external_body]
fn json_text_at(body: &[u8], pointer: &str) -> (r: Option<Option<String>>)
    ensures
        opt_opt_view(r) == spec_json_text_at(body@, pointer@),
{
    match serde_json::from_slice::<serde_json::Value>(body) {
        Ok(value) => match value.pointer(pointer) {
            Some(found) => match found.as_str() {
                Some(text) => Some(Some(text.to_string())),
                None => Some(None),
            },
            None => Some(None),
        },
        Err(_) => None,
    }
}

/// The AI's answer from a successful reply body: the text at `pointer`; a
/// reply without text there is an invalid response format, and a body that
/// is not JSON cannot be decoded.
pub fn ai_answer(body: &[u8], pointer: &str) -> (r: Result<String, ServiceError>)
    ensures
        spec_json_text_at(body@, pointer@) matches Some(Some(t)) ==> (r matches Ok(s) && s@ == t),
        spec_json_text_at(body@, pointer@) matches Some(None) ==> (r matches Err(ServiceError::AIError(m)) && m@
            == "Invalid response format"@),
        spec_json_text_at(body@, pointer@) is None ==> (r matches Err(ServiceError::AIError(m)) && m@
            == "error decoding response body"@),
{
    match json_text_at(body, pointer) {
        Some(Some(text)) => Ok(text),
        Some(None) => Err(ServiceError::AIError(String::from_str("Invalid response format"))),
        None => Err(ServiceError::AIError(String::from_str("error decoding response body"))),
    }
}

/// Where a prompt file is read from: under the `prompts` directory.
pub fn prompt_path(filename: &str) -> (r: String)
    ensures
        r@ == path_join("prompts"@, filename@),
{
    join_path("prompts", filename)
}

/// Whether a service may run after validating its request: a refusal
/// becomes a validation error, and an error of the validation is passed on.
pub fn validation_outcome(validated: Result<bool, ServiceError>) -> (r: Result<(), ServiceError>)
    ensures
        validated matches Ok(true) ==> r is Ok,
        validated matches Ok(false) ==> (r matches Err(ServiceError::ValidationError(m)) && m@
            == "Request failed validation"@),
        validated matches Err(e) ==> (r matches Err(e2) && e2 == e),
{
    match validated {
        Ok(true) => Ok(()),
        Ok(false) => Err(ServiceError::ValidationError(String::from_str("Request failed validation"))),
        Err(e) => Err(e),
    }
}

/// A file found under a checked-out repository: its path and its final
/// component.
#[derive(Debug)]
pub struct WalkedFile {
    pub path: String,
    pub file_name: String,
}

impl Clone for WalkedFile {
    fn clone(&self) -> (r: Self)
        ensures
            r == *self,
    {
        WalkedFile { path: self.path.clone(), file_name: self.file_name.clone() }
    }
}

/// A file name whose extension is `rs`: it ends in `.rs` and something
/// precedes that dot (so `.rs` alone has no extension, as `Path::extension`
/// has it).
pub open spec fn has_rs_extension(name: Seq<char>) -> bool {
    name.len() > 3 && name.subrange(name.len() - 3, name.len() as int) == ".rs"@
}

/// Whether a file name has the extension `rs`.
pub fn is_rust_source(name: &str) -> (b: bool)
    ensures
        b == has_rs_extension(name@),
{
    let n = name.unicode_len();
    if n <= 3 {
        return false;
    }
    let tail = name.substring_char(n - 3, n);
    str_eq(tail, ".rs")
}

/// A source file's text as it goes to the AI: a header naming the file,
/// then its contents.
pub open spec fn source_block(label: Seq<char>, contents: Seq<char>) -> Seq<char> {
    "\n--- File: "@ + label + " ---\n"@ + contents
}

/// A file's contents and the label its header shows (the file name as
/// `{:?}` writes it).
#[derive(Debug)]
pub struct SourceText {
    pub label: String,
    pub contents: String,
}

/// The blocks of the source files, in order.
pub open spec fn combined_sources(files: Seq<SourceText>) -> Seq<char>
    decreases files.len(),
{
    if files.len() == 0 {
        Seq::empty()
    } else {
        combined_sources(files.drop_last()) + source_block(files.last().label@, files.last().contents@)
    }
}

/// The higher of two risk levels.
pub open spec fn max_risk(a: RiskLevel, b: RiskLevel) -> RiskLevel {
    if risk_rank(a) >= risk_rank(b) { a } else { b }
}

/// The highest severity among the findings, `VeryLow` when there are none.
pub open spec fn highest_severity(findings: Seq<ServiceFinding>) -> RiskLevel
    decreases findings.len(),
{
    if findings.len() == 0 {
        RiskLevel::VeryLow
    } else {
        max_risk(highest_severity(findings.drop_last()), findings.last().severity)
    }
}

/// The description a single assessment finding carries: the first 500
/// characters of the AI's answer followed by `...`.
pub open spec fn assessment_description(response: Seq<char>) -> Seq<char> {
    take_chars(response, 500) + "..."@
}

/// The summary of a review.
pub open spec fn review_summary(finding_count: nat, risk: RiskLevel) -> Seq<char> {
    "Completed review with "@ + decimal(finding_count) + " findings. Overall risk: "@ + risk_level_name(risk)
}

/// Security review of Solana smart contracts.
pub struct SmartContractReviewService {
    pub work_dir: String,
}

impl SmartContractReviewService {
    /// A review service that checks out repositories under `work_dir`.
    pub fn new(work_dir: String) -> (s: Self)
        ensures
            s.work_dir == work_dir,
    {
        SmartContractReviewService { work_dir }
    }

    pub fn name(&self) -> (r: &'static str)
        ensures
            r@ == "Smart Contract Security Review"@,
    {
        "Smart Contract Security Review"
    }

    pub fn description(&self) -> (r: &'static str)
        ensures
            r@ == "Professional AI-powered security audit for Solana smart contracts."@,
    {
        "Professional AI-powered security audit for Solana smart contracts."
    }

    /// The input must not be empty.
    pub fn validate(&self, request: &ServiceRequest) -> (r: Result<bool, ServiceError>)
        ensures
            request.input@.len() == 0 ==> (r matches Err(ServiceError::InvalidInput(m)) && m@
                == "Input cannot be empty"@),
            request.input@.len() != 0 ==> r matches Ok(true),
    {
        if request.input.as_str().is_empty() {
            return Err(ServiceError::InvalidInput(String::from_str("Input cannot be empty")));
        }
        Ok(true)
    }

    /// The price of a review: 0.2 SOL, in lamports.
    pub fn quote(&self, request: &ServiceRequest) -> (r: Result<u64, ServiceError>)
        ensures
            r matches Ok(200_000_000u64),
    {
        Ok(200_000_000)
    }

    /// The directory a job's repository is checked out to: the job id
    /// under the work directory.
    pub fn checkout_dir(&self, job_id: &str) -> (r: String)
        ensures
            r@ == path_join(self.work_dir@, job_id@),
    {
        join_path(self.work_dir.as_str(), job_id)
    }

    /// The two manifests whose presence in `dir` marks a Cargo or Anchor
    /// workspace: `Cargo.toml` and `Anchor.toml` under it.
    pub fn workspace_manifests(&self, dir: &str) -> (r: (String, String))
        ensures
            r.0@ == path_join(dir@, "Cargo.toml"@),
            r.1@ == path_join(dir@, "Anchor.toml"@),
    {
        (join_path(dir, "Cargo.toml"), join_path(dir, "Anchor.toml"))
    }

    /// A directory is a workspace when either manifest exists in it.
    pub fn discover_workspace(&self, cargo_manifest_exists: bool, anchor_manifest_exists: bool) -> (b: bool)
        ensures
            b == (cargo_manifest_exists || anchor_manifest_exists),
    {
        cargo_manifest_exists || anchor_manifest_exists
    }

    /// The Rust source files among the files found, in the order found.
    pub fn collect_source_files(&self, entries: &Vec<WalkedFile>) -> (r: Vec<WalkedFile>)
        ensures
            r@ == entries@.filter(|e: WalkedFile| has_rs_extension(e.file_name@)),
    {
        let mut r: Vec<WalkedFile> = Vec::new();
        let mut i: usize = 0;
        while i < entries.len()
            invariant
                i <= entries@.len(),
                r@ == entries@.subrange(0, i as int).filter(|e: WalkedFile| has_rs_extension(e.file_name@)),
            decreases entries@.len() - i,
        {
            let keep = is_rust_source(entries[i].file_name.as_str());
            proof {
                reveal(Seq::filter);
                let next = entries@.subrange(0, i + 1);
                assert(next.drop_last() =~= entries@.subrange(0, i as int));
                assert(next.last() == entries@[i as int]);
            }
            if keep {
                r.push(entries[i].clone());
            }
            i = i + 1;
        }
        assert(entries@.subrange(0, entries@.len() as int) =~= entries@);
        r
    }

    /// The source code handed to the AI: every file's block, in order.
    pub fn combine_sources(&self, files: &Vec<SourceText>) -> (r: String)
        ensures
            r@ == combined_sources(files@),
    {
        let mut combined = String::new();
        let mut i: usize = 0;
        while i < files.len()
            invariant
                i <= files@.len(),
                combined@ == combined_sources(files@.subrange(0, i as int)),
            decreases files@.len() - i,
        {
            combined.append("\n--- File: ");
            combined.append(files[i].label.as_str());
            combined.append(" ---\n");
            combined.append(files[i].contents.as_str());
            proof {
                let next = files@.subrange(0, i + 1);
                assert(next.drop_last() =~= files@.subrange(0, i as int));
                assert(next.last() == files@[i as int]);
            }
            i = i + 1;
        }
        assert(files@.subrange(0, files@.len() as int) =~= files@);
        combined
    }

    /// The prompt file of a review.
    pub fn prompt_file(&self) -> (r: &'static str)
        ensures
            r@ == "smart_contract_review.md"@,
    {
        "smart_contract_review.md"
    }

    /// Whether the input names a repository to check out (it starts with
    /// `http`) rather than pasted source code.
    pub fn fetches_repository(&self, input: &str) -> (b: bool)
        ensures
            b == starts_with_seq(input@, "http"@),
    {
        str_starts_with(input, "http")
    }

    /// The AI's answer as findings: a single general assessment of medium
    /// severity that quotes the start of the answer.
    pub fn parse_ai_response(&self, response: &str) -> (r: Result<Vec<ServiceFinding>, ServiceError>)
        ensures
            r matches Ok(v) && v@.len() == 1 && v@[0].title@ == "General Security Assessment"@
                && v@[0].severity == RiskLevel::Medium && v@[0].description@ == assessment_description(response@)
                && v@[0].recommendation@ == "Review the full AI generated markdown report."@,
    {
        let mut description = prefix_chars(response, 500);
        description.append("...");
        let finding = ServiceFinding {
            title: String::from_str("General Security Assessment"),
            severity: RiskLevel::Medium,
            description,
            recommendation: String::from_str("Review the full AI generated markdown report."),
        };
        let mut v: Vec<ServiceFinding> = Vec::new();
        v.push(finding);
        Ok(v)
    }

    /// The overall risk: the highest severity among the findings.
    pub fn calculate_security_score(&self, findings: &Vec<ServiceFinding>) -> (r: RiskLevel)
        ensures
            r == highest_severity(findings@),
    {
        let mut highest = RiskLevel::VeryLow;
        let mut i: usize = 0;
        while i < findings.len()
            invariant
                i <= findings@.len(),
                highest == highest_severity(findings@.subrange(0, i as int)),
            decreases findings@.len() - i,
        {
            let f = findings[i].severity;
            highest = match (highest, f) {
                (RiskLevel::Critical, _) | (_, RiskLevel::Critical) => RiskLevel::Critical,
                (RiskLevel::High, _) | (_, RiskLevel::High) => RiskLevel::High,
                (RiskLevel::Medium, _) | (_, RiskLevel::Medium) => RiskLevel::Medium,
                (RiskLevel::Low, _) | (_, RiskLevel::Low) => RiskLevel::Low,
                _ => RiskLevel::VeryLow,
            };
            proof {
                let next = findings@.subrange(0, i + 1);
                assert(next.drop_last() =~= findings@.subrange(0, i as int));
            }
            i = i + 1;
        }
        assert(findings@.subrange(0, findings@.len() as int) =~= findings@);
        highest
    }

    /// The summary of a review: the number of findings and the overall risk.
    pub fn generate_summary(&self, response: &ServiceResponse) -> (r: Result<String, ServiceError>)
        ensures
            r matches Ok(s) && s@ == review_summary(response.findings@.len(), response.risk_level),
    {
        let count = usize_to_decimal(response.findings.len());
        let mut s = prefixed("Completed review with ", count.as_str());
        s.append(" findings. Overall risk: ");
        s.append(response.risk_level.debug_name());
        Ok(s)
    }

    /// The response of a review once the AI has answered: the findings
    /// parsed from the answer, their highest severity and a summary.
    pub fn finish_execution(&self, request: &ServiceRequest, ai_result: &str, elapsed: Elapsed) -> (r: Result<ServiceResponse, ServiceError>)
        ensures
            r matches Ok(resp) && resp.job_id == request.job_id && resp.success && resp.service
                == ServiceType::SmartContractReview && resp.findings@.len() == 1 && resp.findings@[0].title@
                == "General Security Assessment"@ && resp.findings@[0].severity == RiskLevel::Medium
                && resp.findings@[0].description@ == assessment_description(ai_result@)
                && resp.findings@[0].recommendation@ == "Review the full AI generated markdown report."@
                && resp.risk_level == RiskLevel::Medium && resp.risk_level == highest_severity(resp.findings@)
                && resp.summary@ == review_summary(1, RiskLevel::Medium) && resp.execution_time == elapsed
                && resp.report_metadata@ == Map::<String, String>::empty(),
    {
        let findings = match self.parse_ai_response(ai_result) {
            Ok(f) => f,
            Err(e) => return Err(e),
        };
        let risk_level = self.calculate_security_score(&findings);
        assert(risk_level == RiskLevel::Medium) by {
            assert(findings@.drop_last() =~= Seq::<ServiceFinding>::empty());
            assert(highest_severity(Seq::<ServiceFinding>::empty()) == RiskLevel::VeryLow);
            assert(findings@.last().severity == RiskLevel::Medium);
            assert(highest_severity(findings@) == max_risk(RiskLevel::VeryLow, RiskLevel::Medium));
        }
        let draft = ServiceResponse {
            job_id: request.job_id.clone(),
            success: true,
            service: ServiceType::SmartContractReview,
            summary: String::new(),
            findings,
            risk_level,
            execution_time: elapsed,
            report_metadata: HashMap::new(),
        };
        let summary = match self.generate_summary(&draft) {
            Ok(s) => s,
            Err(e) => return Err(e),
        };
        Ok(ServiceResponse { summary, ..draft })
    }
}

/// The intelligence context handed to the AI for a wallet.
pub open spec fn intelligence_context(address: Seq<char>, balance: nat, tx_count: nat) -> Seq<char> {
    "Balance: "@ + decimal(balance) + " lamports\n"@
        + "Tokens: "@ + "Tokens for "@ + address + "\n"@
        + "NFTs: "@ + "NFTs for "@ + address + "\n"@
        + "Transactions: "@ + decimal(tx_count) + " recent transactions found."@ + "\n"@
        + "Programs: "@ + "Interacted with System Program, Token Program."@ + "\n"@
}

/// Intelligence reports on Solana wallets and transactions.
pub struct OnChainIntelligenceService;

impl OnChainIntelligenceService {
    pub fn new() -> (s: Self) {
        OnChainIntelligenceService
    }

    pub fn name(&self) -> (r: &'static str)
        ensures
            r@ == "On-chain Intelligence Report"@,
    {
        "On-chain Intelligence Report"
    }

    pub fn description(&self) -> (r: &'static str)
        ensures
            r@ == "Professional AI-powered wallet and transaction intelligence report."@,
    {
        "Professional AI-powered wallet and transaction intelligence report."
    }

    /// The input must be a Solana address or transaction signature.
    pub fn validate(&self, request: &ServiceRequest) -> (r: Result<bool, ServiceError>)
        ensures
            spec_pubkey_parses(request.input@) || spec_signature_parses(request.input@) ==> r matches Ok(true),
            !(spec_pubkey_parses(request.input@) || spec_signature_parses(request.input@)) ==> (r matches Err(
                ServiceError::InvalidInput(m),
            ) && m@ == "Input must be a valid Solana address or signature"@),
    {
        if is_valid_solana_address(request.input.as_str()) || is_valid_solana_signature(request.input.as_str()) {
            Ok(true)
        } else {
            Err(ServiceError::InvalidInput(String::from_str("Input must be a valid Solana address or signature")))
        }
    }

    /// The prompt file of an intelligence report.
    pub fn prompt_file(&self) -> (r: &'static str)
        ensures
            r@ == "onchain_intelligence.md"@,
    {
        "onchain_intelligence.md"
    }

    /// The price of a report: 0.1 SOL, in lamports.
    pub fn quote(&self, request: &ServiceRequest) -> (r: Result<u64, ServiceError>)
        ensures
            r matches Ok(100_000_000u64),
    {
        Ok(100_000_000)
    }

    /// The input must be a wallet address.
    pub fn validate_wallet(&self, input: &str) -> (r: Result<(), ServiceError>)
        ensures
            r is Ok <==> spec_pubkey_parses(input@),
            r matches Err(e) ==> (e matches ServiceError::InvalidInput(m) && m@ == "Invalid wallet address"@),
    {
        if !pubkey_parses(input) {
            return Err(ServiceError::InvalidInput(String::from_str("Invalid wallet address")));
        }
        Ok(())
    }

    /// The input must be a transaction signature.
    pub fn validate_signature(&self, input: &str) -> (r: Result<(), ServiceError>)
        ensures
            r is Ok <==> spec_signature_parses(input@),
            r matches Err(e) ==> (e matches ServiceError::InvalidInput(m) && m@ == "Invalid transaction signature"@),
    {
        if !signature_parses(input) {
            return Err(ServiceError::InvalidInput(String::from_str("Invalid transaction signature")));
        }
        Ok(())
    }

    /// The token holdings line for a wallet (written with the address text).
    pub fn fetch_tokens(&self, address: &str) -> (r: Result<String, ServiceError>)
        ensures
            r matches Ok(s) && s@ == "Tokens for "@ + address@,
    {
        Ok(prefixed("Tokens for ", address))
    }

    /// The NFT holdings line for a wallet (written with the address text).
    pub fn fetch_nfts(&self, address: &str) -> (r: Result<String, ServiceError>)
        ensures
            r matches Ok(s) && s@ == "NFTs for "@ + address@,
    {
        Ok(prefixed("NFTs for ", address))
    }

    /// The transaction history line, given how many recent signatures the
    /// chain returned for the wallet.
    pub fn fetch_transactions(&self, signature_count: usize) -> (r: Result<String, ServiceError>)
        ensures
            r matches Ok(s) && s@ == decimal(signature_count as nat) + " recent transactions found."@,
    {
        let mut s = usize_to_decimal(signature_count);
        s.append(" recent transactions found.");
        Ok(s)
    }

    /// The program interaction line.
    pub fn fetch_programs(&self, address: &str) -> (r: Result<String, ServiceError>)
        ensures
            r matches Ok(s) && s@ == "Interacted with System Program, Token Program."@,
    {
        Ok(String::from_str("Interacted with System Program, Token Program."))
    }

    /// The wallet's preliminary risk level.
    pub fn calculate_wallet_risk(&self, balance: u64, tx_count: usize) -> (r: RiskLevel)
        ensures
            r == RiskLevel::Low,
    {
        RiskLevel::Low
    }

    /// The context for the AI: balance, tokens, NFTs, transactions, programs.
    pub fn build_context(&self, address: &str, balance: u64, signature_count: usize) -> (r: Result<String, ServiceError>)
        ensures
            r matches Ok(s) && s@ == intelligence_context(address@, balance as nat, signature_count as nat),
    {
        let mut context = String::new();
        let b = u64_to_decimal(balance);
        context.append("Balance: ");
        context.append(b.as_str());
        context.append(" lamports\n");
        let tokens = match self.fetch_tokens(address) {
            Ok(t) => t,
            Err(e) => return Err(e),
        };
        context.append("Tokens: ");
        context.append(tokens.as_str());
        context.append("\n");
        let nfts = match self.fetch_nfts(address) {
            Ok(t) => t,
            Err(e) => return Err(e),
        };
        context.append("NFTs: ");
        context.append(nfts.as_str());
        context.append("\n");
        let txs = match self.fetch_transactions(signature_count) {
            Ok(t) => t,
            Err(e) => return Err(e),
        };
        context.append("Transactions: ");
        context.append(txs.as_str());
        context.append("\n");
        let programs = match self.fetch_programs(address) {
            Ok(t) => t,
            Err(e) => return Err(e),
        };
        context.append("Programs: ");
        context.append(programs.as_str());
        context.append("\n");
        assert(context@ =~= intelligence_context(address@, balance as nat, signature_count as nat));
        Ok(context)
    }

    /// The response of an intelligence run once the AI has answered.
    pub fn finish_execution(&self, request: &ServiceRequest, balance: u64, elapsed: Elapsed) -> (r: Result<ServiceResponse, ServiceError>)
        ensures
            r matches Ok(resp) && resp.job_id == request.job_id && resp.success && resp.service
                == ServiceType::OnChainIntelligence && resp.findings@.len() == 0 && resp.risk_level == RiskLevel::Low
                && resp.summary@ == "Intelligence report generated successfully."@ && resp.execution_time == elapsed
                && resp.report_metadata@ == Map::<String, String>::empty(),
    {
        let risk_level = self.calculate_wallet_risk(balance, 10);
        Ok(ServiceResponse {
            job_id: request.job_id.clone(),
            success: true,
            service: ServiceType::OnChainIntelligence,
            summary: String::from_str("Intelligence report generated successfully."),
            findings: Vec::new(),
            risk_level,
            execution_time: elapsed,
            report_metadata: HashMap::new(),
        })
    }

    /// The summary of an intelligence run.
    pub fn generate_summary(&self, response: &ServiceResponse) -> (r: Result<String, ServiceError>)
        ensures
            r matches Ok(s) && s@ == "Intelligence review completed with risk level: "@ + risk_level_name(
                response.risk_level,
            ),
    {
        Ok(prefixed("Intelligence review completed with risk level: ", response.risk_level.debug_name()))
    }
}

/// The log lines of one execution, prefixed with its job id in brackets.
pub struct ExecutionLogger {
    pub job_id: String,
}

/// A log line for a job: `[job] ` then the text.
pub open spec fn log_line(job_id: Seq<char>, text: Seq<char>) -> Seq<char> {
    "["@ + job_id + "] "@ + text
}

impl ExecutionLogger {
    pub fn new(job_id: String) -> (l: Self)
        ensures
            l.job_id == job_id,
    {
        ExecutionLogger { job_id }
    }

    fn line(&self, label: &str, text: &str) -> (r: String)
        ensures
            r@ == log_line(self.job_id@, label@ + text@),
    {
        let mut r = prefixed("[", self.job_id.as_str());
        r.append("] ");
        r.append(label);
        r.append(text);
        assert(r@ =~= log_line(self.job_id@, label@ + text@));
        r
    }

    /// The line that announces the start of a service.
    pub fn log_start(&self, service_name: &str) -> (r: String)
        ensures
            r@ == log_line(self.job_id@, "Starting execution of service: "@ + service_name@),
    {
        self.line("Starting execution of service: ", service_name)
    }

    /// The line that reports progress.
    pub fn log_progress(&self, message: &str) -> (r: String)
        ensures
            r@ == log_line(self.job_id@, "Progress: "@ + message@),
    {
        self.line("Progress: ", message)
    }

    /// The line that reports a warning.
    pub fn log_warning(&self, message: &str) -> (r: String)
        ensures
            r@ == log_line(self.job_id@, "Warning: "@ + message@),
    {
        self.line("Warning: ", message)
    }

    /// The line that reports an error.
    pub fn log_error(&self, message: &str) -> (r: String)
        ensures
            r@ == log_line(self.job_id@, "Error: "@ + message@),
    {
        self.line("Error: ", message)
    }

    /// The line that reports the end of an execution.
    pub fn log_finish(&self, success: bool, duration: Elapsed) -> (r: String)
        requires
            duration.wf(),
        ensures
            r@ == log_line(
                self.job_id@,
                "Execution finished. Success: "@ + bool_text(success) + ", Duration: "@ + spec_duration_debug(
                    duration.secs,
                    duration.nanos,
                ),
            ),
    {
        let d = duration_debug(duration);
        let mut text = prefixed("Execution finished. Success: ", bool_to_text(success));
        text.append(", Duration: ");
        text.append(d.as_str());
        let r = self.line("", text.as_str());
        proof {
            reveal_strlit("");
        }
        assert(""@ + text@ =~= text@);
        r
    }
}

} // verus!
