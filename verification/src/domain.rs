//! Values shared by several stages: token usage, agent backends and the
//! error record a failed stage step leaves behind.

use vstd::prelude::*;

use crate::review::domain::ReviewConfig;
use crate::specification::domain::SpecConfig;

verus! {

/// Tokens one or more agent turns consumed.
#[derive(Debug, Clone, Copy, Default, PartialEq, Eq, Structural)]
pub struct StageUsage {
    pub input_tokens: u64,
    pub output_tokens: u64,
    pub total_tokens: u64,
}

/// `a + b` saturating at `u64::MAX`.
pub open spec fn sat_add(a: u64, b: u64) -> u64 {
    if a + b > u64::MAX {
        u64::MAX
    } else {
        (a + b) as u64
    }
}

pub fn saturating_add_u64(a: u64, b: u64) -> (res: u64)
    ensures
        res == sat_add(a, b),
{
    if a > u64::MAX - b {
        u64::MAX
    } else {
        a + b
    }
}

/// Field-wise saturating sum of two usages.
pub open spec fn usage_sum(a: StageUsage, b: StageUsage) -> StageUsage {
    StageUsage {
        input_tokens: sat_add(a.input_tokens, b.input_tokens),
        output_tokens: sat_add(a.output_tokens, b.output_tokens),
        total_tokens: sat_add(a.total_tokens, b.total_tokens),
    }
}

/// No tokens at all.
pub open spec fn usage_zero() -> StageUsage {
    StageUsage { input_tokens: 0, output_tokens: 0, total_tokens: 0 }
}

impl StageUsage {
    pub fn zero() -> (res: Self)
        ensures
            res == usage_zero(),
    {
        StageUsage { input_tokens: 0, output_tokens: 0, total_tokens: 0 }
    }

    /// Field-wise saturating sum.
    pub fn plus(self, other: StageUsage) -> (res: Self)
        ensures
            res == usage_sum(self, other),
    {
        StageUsage {
            input_tokens: saturating_add_u64(self.input_tokens, other.input_tokens),
            output_tokens: saturating_add_u64(self.output_tokens, other.output_tokens),
            total_tokens: saturating_add_u64(self.total_tokens, other.total_tokens),
        }
    }
}

/// The agent runtime a service is configured with.
#[derive(Debug, Clone, Copy, PartialEq, Eq, Structural)]
pub enum AgentBackend {
    Codex,
    KataCli,
}

/// The isolated-turn harness of a stage worker.
#[derive(Debug, Clone, Copy, PartialEq, Eq, Structural)]
pub enum TriageHarness {
    Pi,
    Codex,
}


/// A clone of a list of strings.
pub fn clone_strings(v: &Vec<String>) -> (res: Vec<String>)
    ensures
        res@ == v@,
{
    let mut out: Vec<String> = Vec::new();
    let mut i: usize = 0;
    while i < v.len()
        invariant
            i <= v@.len(),
            out@ == v@.subrange(0, i as int),
        decreases v@.len() - i,
    {
        out.push(v[i].clone());
        proof {
            assert(v@.subrange(0, i + 1) =~= v@.subrange(0, i as int).push(v@[i as int]));
        }
        i = i + 1;
    }
    proof {
        assert(v@.subrange(0, v@.len() as int) =~= v@);
    }
    out
}

/// A clone of an optional string.
pub fn clone_opt(o: &Option<String>) -> (res: Option<String>)
    ensures
        res == *o,
{
    match o {
        Some(s) => Some(s.clone()),
        None => None,
    }
}

/// Pi agent settings.
#[derive(Debug, Clone, PartialEq, Eq)]
pub struct PiAgentConfig {
    pub command: Vec<String>,
    pub model: Option<String>,
    /// `(normalized state, model)` overrides.
    pub model_by_state: Vec<(String, String)>,
    /// `(normalized label, model)` overrides.
    pub model_by_label: Vec<(String, String)>,
    pub no_session: bool,
    pub append_system_prompt: Option<String>,
    pub stall_timeout_ms: u64,
}

/// The override for `key` in a `(key, value)` table: the first entry whose
/// key is exactly `key`.
pub open spec fn table_lookup(table: Seq<(String, String)>, key: Seq<char>) -> Option<String>
    decreases table.len(),
{
    if table.len() == 0 {
        None
    } else if table[0].0@ == key {
        Some(table[0].1)
    } else {
        table_lookup(table.drop_first(), key)
    }
}

/// Look `key` up in a `(key, value)` table.
pub fn lookup_table(table: &Vec<(String, String)>, key: &str) -> (res: Option<String>)
    ensures
        res == table_lookup(table@, key@),
{
    let mut i: usize = 0;
    assert(table@.subrange(0, table@.len() as int) =~= table@);
    while i < table.len()
        invariant
            i <= table@.len(),
            table_lookup(table@, key@) == table_lookup(table@.subrange(i as int, table@.len() as int), key@),
        decreases table@.len() - i,
    {
        proof {
            let sub = table@.subrange(i as int, table@.len() as int);
            assert(sub[0] == table@[i as int]);
            assert(sub.drop_first() =~= table@.subrange(i + 1, table@.len() as int));
        }
        if crate::text::str_eq(table[i].0.as_str(), key) {
            return Some(table[i].1.clone());
        }
        i = i + 1;
    }
    None
}

/// A state as the tracker compares it: trimmed and ASCII-lowercased.
pub open spec fn normalize_state(s: Seq<char>) -> Seq<char> {
    crate::text::lower_seq(crate::text::trim_seq(s))
}

/// `state_name.trim().to_ascii_lowercase()`.
pub fn normalize_issue_state(state_name: &str) -> (res: String)
    ensures
        res@ == normalize_state(state_name@),
{
    let t = crate::text::trim(state_name);
    crate::text::to_ascii_lowercase(t.as_str())
}

/// The model a Pi turn uses for an issue state: the state's override,
/// else the configured default.
pub open spec fn model_for_state_spec(c: PiAgentConfig, state: Seq<char>) -> Option<String> {
    match table_lookup(c.model_by_state@, normalize_state(state)) {
        Some(m) => Some(m),
        None => c.model,
    }
}

impl PiAgentConfig {
    pub fn model_for_state(&self, state: &str) -> (res: Option<String>)
        ensures
            res == model_for_state_spec(*self, state@),
    {
        let normalized = normalize_issue_state(state);
        match lookup_table(&self.model_by_state, normalized.as_str()) {
            Some(m) => Some(m),
            None => clone_opt(&self.model),
        }
    }
}

impl Default for PiAgentConfig {
    fn default() -> (res: Self)
        ensures
            res.command@.len() == 0,
            res.model is None,
            res.model_by_state@.len() == 0,
            res.model_by_label@.len() == 0,
            !res.no_session,
            res.append_system_prompt is None,
            res.stall_timeout_ms == 300_000,
    {
        PiAgentConfig {
            command: Vec::new(),
            model: None,
            model_by_state: Vec::new(),
            model_by_label: Vec::new(),
            no_session: false,
            append_system_prompt: None,
            stall_timeout_ms: 300_000,
        }
    }
}

/// Codex app-server settings.
#[derive(Debug, Clone, PartialEq, Eq)]
pub struct CodexConfig {
    pub command: Vec<String>,
    pub stall_timeout_ms: u64,
}

impl Default for CodexConfig {
    fn default() -> (res: Self)
        ensures
            res.command@.len() == 0,
            res.stall_timeout_ms == 300_000,
    {
        CodexConfig { command: Vec::new(), stall_timeout_ms: 300_000 }
    }
}

/// Workspace locations; paths are kept as the configured text.
#[derive(Debug, Clone, PartialEq, Eq)]
pub struct WorkspaceConfig {
    pub root: String,
    pub repo: Option<String>,
}

/// The triage stage settings the other stages consult.
#[derive(Debug, Clone, PartialEq, Eq)]
pub struct TriageConfig {
    pub enabled: bool,
    pub intake_label: String,
    /// Every label the triage routes apply or remove.
    pub route_labels: Vec<String>,
}

/// The parts of the service configuration that the stage rules read.
#[derive(Debug, Clone, PartialEq, Eq)]
pub struct ServiceConfig {
    pub agent_backend: AgentBackend,
    pub pi_agent: PiAgentConfig,
    pub codex: CodexConfig,
    pub review: ReviewConfig,
    pub spec: SpecConfig,
    pub triage: TriageConfig,
    pub workspace: WorkspaceConfig,
}

impl Default for ServiceConfig {
    fn default() -> (res: Self)
        ensures
            res.agent_backend == AgentBackend::KataCli,
            res.pi_agent.command@.len() == 0,
            res.pi_agent.model is None,
            res.codex.command@.len() == 0,
            res.review.model is None,
            !res.review.enabled,
            !res.spec.enabled,
            !res.triage.enabled,
            res.workspace.repo is None,
    {
        ServiceConfig {
            agent_backend: AgentBackend::KataCli,
            pi_agent: PiAgentConfig::default(),
            codex: CodexConfig::default(),
            review: ReviewConfig::default(),
            spec: SpecConfig::default(),
            triage: TriageConfig {
                enabled: false,
                intake_label: "needs-triage".to_owned(),
                route_labels: Vec::new(),
            },
            workspace: WorkspaceConfig { root: String::new(), repo: None },
        }
    }
}

/// An error of the library's own rules.
#[derive(Debug, Clone, PartialEq, Eq)]
pub enum SymphonyError {
    InvalidWorkflowConfig(String),
    TriageError(String),
    StorageError(String),
}

/// The durable error record a failed stage step leaves behind.
#[derive(Debug, Clone, PartialEq, Eq)]
pub struct FactoryError {
    pub code: String,
    pub component: String,
    pub message: String,
    pub retryable: bool,
}

/// Where a durable publication intent stands.
#[derive(Debug, Clone, Copy, PartialEq, Eq, Structural)]
pub enum PublicationStatus {
    Pending,
    Applied,
    Conflict,
    Blocked,
}

/// A lowercase hexadecimal digit.
pub open spec fn is_lower_hex(c: char) -> bool {
    ('0' <= c && c <= '9') || ('a' <= c && c <= 'f')
}

/// `uuid::Uuid::now_v7` in its hyphenated text form (`Display`, which
/// writes 8-4-4-4-12 lowercase hex digits). The value depends on the clock
/// and on random bits, so the contract claims only that form and the
/// version digit `7`.
#[verifier::external_body]
pub(crate) fn new_v7_uuid_string() -> (res: String)
    ensures
        res@.len() == 36,
        forall|i: int|
            0 <= i < 36 ==> if i == 8 || i == 13 || i == 18 || i == 23 {
                res@[i] == '-'
            } else {
                is_lower_hex(#[trigger] res@[i])
            },
        res@[14] == '7',
{
    uuid::Uuid::now_v7().to_string()
}

} // verus!
