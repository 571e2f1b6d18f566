//! `Rule`, `Severity`, `RuleScope`: base types for the AMF rule pack.
//!
//! Every rule carries an `id`, a `severity`, a scope, a one-line
//! rationale, an optional reference to a row in the default-deltas table
//! and the channels and VCDS groups it needs.

use vstd::prelude::*;

use crate::ingest::vcds::quoted_items;
use crate::text::append_str;
use crate::text::views;

verus! {

/// Severity ordering: `info < warn < critical`.
#[derive(Debug, Clone, Copy, PartialEq, Eq, Structural, PartialOrd, Ord, Hash)]
pub enum Severity {
    /// Informational; no action required.
    Info,
    /// Something is off; investigate before tuning further.
    Warn,
    /// A longevity envelope is breached; do not raise.
    Critical,
}

/// Rank of a severity: `info` 0, `warn` 1, `critical` 2.
pub open spec fn rank_of(s: Severity) -> nat {
    match s {
        Severity::Info => 0,
        Severity::Warn => 1,
        Severity::Critical => 2,
    }
}

/// Lower-case display string of a severity.
pub open spec fn severity_str(s: Severity) -> &'static str {
    match s {
        Severity::Info => "info",
        Severity::Warn => "warn",
        Severity::Critical => "critical",
    }
}

impl Severity {
    /// Lower-case display string used in reports.
    pub fn as_str(self) -> (r: &'static str)
        ensures
            r == severity_str(self),
    {
        match self {
            Severity::Info => "info",
            Severity::Warn => "warn",
            Severity::Critical => "critical",
        }
    }
}

/// Numeric rank used to order findings: higher is more severe.
pub fn severity_rank(s: Severity) -> (r: u8)
    ensures
        r == rank_of(s),
{
    match s {
        Severity::Critical => 2,
        Severity::Warn => 1,
        Severity::Info => 0,
    }
}

/// The rank tells severities apart and orders them `info < warn < critical`.
pub proof fn lemma_rank_orders_severities(a: Severity, b: Severity)
    ensures
        rank_of(a) == rank_of(b) <==> a == b,
        rank_of(Severity::Info) < rank_of(Severity::Warn),
        rank_of(Severity::Warn) < rank_of(Severity::Critical),
{
}

/// Distinct severities print differently.
pub proof fn lemma_severity_str_injective(a: Severity, b: Severity)
    ensures
        severity_str(a)@ == severity_str(b)@ <==> a == b,
{
    reveal_strlit("info");
    reveal_strlit("warn");
    reveal_strlit("critical");
    if a != b {
        assert(severity_str(a)@ != severity_str(b)@) by {
            match a {
                Severity::Info => {
                    assert(severity_str(a)@[0] == 'i');
                },
                Severity::Warn => {
                    assert(severity_str(a)@[0] == 'w');
                },
                Severity::Critical => {
                    assert(severity_str(a)@[0] == 'c');
                },
            }
        }
    }
}

/// Where in the analysis a rule fires.
///
/// `PerPull` rules are evaluated once per detected WOT pull. `Global`
/// rules are evaluated exactly once over the whole log (R16 EGR observed,
/// R19 DTC scan, R21 idle stability); their findings carry pull id 0.
#[derive(Debug, Clone, Copy, PartialEq, Eq, Structural)]
pub enum RuleScope {
    /// Evaluate once per detected WOT pull.
    PerPull,
    /// Evaluate exactly once over the whole log.
    Global,
}

/// Declarative rule descriptor.
#[derive(Debug, Clone, Copy)]
pub struct Rule {
    /// Rule id.
    pub id: &'static str,
    /// Default severity.
    pub severity: Severity,
    /// Where this rule evaluates (per-pull or global).
    pub scope: RuleScope,
    /// One-line rationale.
    pub rationale_one_liner: &'static str,
    /// Default-deltas key, if any.
    pub recommended_delta_ref: Option<&'static str>,
    /// Channels the rule needs to evaluate.
    pub requires_channels: &'static [&'static str],
    /// VCDS groups the rule needs to evaluate.
    pub requires_groups: &'static [&'static str],
}

/// `SKIPPED — <reason>`: the rationale of a placeholder finding.
pub open spec fn skipped_text(reason: Seq<char>) -> Seq<char> {
    "SKIPPED — "@ + reason
}

/// The rationale of a placeholder finding for a rule that could not
/// evaluate.
pub fn skipped_rationale(reason: &str) -> (r: String)
    ensures
        r@ == skipped_text(reason@),
{
    let mut s = String::from_str("SKIPPED — ");
    append_str(&mut s, reason);
    s
}

/// `required VCDS group(s) ["011"] not present`.
pub open spec fn missing_groups_reason(missing: Seq<Seq<char>>) -> Seq<char> {
    "required VCDS group(s) ["@ + quoted_items(missing) + "] not present"@
}

/// The skip reason for a rule whose VCDS groups are missing.
pub fn missing_groups_text(missing: &Vec<String>) -> (r: String)
    ensures
        r@ == missing_groups_reason(views(missing@)),
{
    let mut s = String::from_str("required VCDS group(s) [");
    crate::ingest::vcds::push_quoted_items(&mut s, missing);
    append_str(&mut s, "] not present");
    s
}

} // verus!
