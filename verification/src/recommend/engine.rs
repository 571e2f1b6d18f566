//! Recommendation engine: which rules fire, whether a default-delta row is
//! gated off, and the text of the rows that need no number.
//!
//! A recommendation is one of three states:
//!
//! - `APPLY`: the delta is sane and falls inside the envelope.
//! - `SKIP`: no rule fired that would justify this delta.
//! - `BLOCKED — envelope cap`: a rule fired and the proposed delta would
//!   leave the envelope; the cap that fired is named.

use vstd::prelude::*;

use crate::ingest::canonicalize::bufviews;
use crate::ingest::canonicalize::insert_sorted;
use crate::ingest::canonicalize::strictly_sorted;
use crate::rules::base::Severity;
use crate::platform::amf_edc15p::default_deltas::DefaultDelta;
use crate::platform::amf_edc15p::default_deltas::DeltaKind;
use crate::text::append_str;
use crate::text::chars_of;
use crate::text::join_sep;
use crate::text::push_joined;
use crate::text::str_eq;
use crate::text::str_views;
use crate::text::strings_of;
use crate::text::views;

verus! {

/// Outcome state of one recommendation row.
#[derive(Debug, Clone, Copy, PartialEq, Eq, Structural)]
pub enum Status {
    /// Delta should be applied; falls inside the envelope.
    Apply,
    /// No triggering rule fired; leave the map at stock.
    Skip,
    /// A rule fired but the envelope clamped the proposed value.
    Blocked,
}

/// Display string of a status.
pub open spec fn status_str(s: Status) -> &'static str {
    match s {
        Status::Apply => "APPLY",
        Status::Skip => "SKIP",
        Status::Blocked => "BLOCKED — envelope cap",
    }
}

impl Status {
    /// Display string used in the Markdown report.
    pub fn as_str(self) -> (r: &'static str)
        ensures
            r == status_str(self),
    {
        match self {
            Status::Apply => "APPLY",
            Status::Skip => "SKIP",
            Status::Blocked => "BLOCKED — envelope cap",
        }
    }
}

/// One row in the final action table.
#[derive(Debug, Clone)]
pub struct Recommendation {
    /// Symbolic map this recommendation targets.
    pub map_name: String,
    /// Free-text cell selector.
    pub cell_selector: String,
    /// Outcome state.
    pub status: Status,
    /// Display string for the proposed value (or `"—"` / `"leave stock"`).
    pub proposed_value_text: String,
    /// One-paragraph rationale (may include a `CAP:` suffix when blocked).
    pub rationale: String,
    /// Rule ids that gate this recommendation.
    pub rule_refs: Vec<String>,
    /// Name of the cap that blocked this recommendation, if any.
    pub blocked_cap: Option<String>,
}

/// What the engine reads of a finding.
#[derive(Debug, Clone)]
pub struct FindingKey {
    /// Rule id (e.g. `"R02"`).
    pub rule_id: String,
    /// Severity at which the finding fired.
    pub severity: Severity,
    /// Pull id (0 for global-scope findings).
    pub pull_id: u32,
    /// Whether the rule could not evaluate.
    pub skipped: bool,
}

/// A finding that counts as its rule firing: evaluated, above `info`.
pub open spec fn fires(f: FindingKey) -> bool {
    !f.skipped && f.severity != Severity::Info
}

/// The ids of the rules that fire among `fs`.
pub open spec fn firing_set(fs: Seq<FindingKey>) -> Set<Seq<char>> {
    Set::new(|id: Seq<char>| exists|i: int| 0 <= i < fs.len() && fires(#[trigger] fs[i]) && fs[i].rule_id@ == id)
}

/// The rule ids that fire, ascending and without repetition.
pub fn firing_rules(findings: &[FindingKey]) -> (r: Vec<String>)
    ensures
        strictly_sorted(views(r@)),
        views(r@).to_set() == firing_set(findings@),
{
    let n = findings.len();
    let mut keys: Vec<Vec<char>> = Vec::new();
    let mut i: usize = 0;
    assert(bufviews(keys@).to_set() =~= firing_set(findings@.take(0)));
    while i < n
        invariant
            n == findings@.len(),
            i <= n,
            strictly_sorted(bufviews(keys@)),
            bufviews(keys@).to_set() == firing_set(findings@.take(i as int)),
        decreases n - i,
    {
        let f = &findings[i];
        let ghost pre = findings@.take(i as int);
        let ghost cur = findings@.take(i + 1);
        assert(cur =~= pre.push(findings@[i as int]));
        if !f.skipped && f.severity != Severity::Info {
            let id = chars_of(f.rule_id.as_str());
            insert_sorted(&mut keys, id);
            assert(firing_set(cur) =~= firing_set(pre).insert(findings@[i as int].rule_id@)) by {
                assert forall|x: Seq<char>| firing_set(cur).contains(x) implies firing_set(pre).insert(
                    findings@[i as int].rule_id@,
                ).contains(x) by {
                    let k = choose|k: int| 0 <= k < cur.len() && fires(#[trigger] cur[k]) && cur[k].rule_id@ == x;
                    if k < i {
                        assert(pre[k] == cur[k]);
                    }
                }
                assert forall|x: Seq<char>| firing_set(pre).insert(findings@[i as int].rule_id@).contains(x)
                    implies firing_set(cur).contains(x) by {
                    if x == findings@[i as int].rule_id@ {
                        assert(fires(cur[i as int]));
                    } else {
                        let k = choose|k: int| 0 <= k < pre.len() && fires(#[trigger] pre[k]) && pre[k].rule_id@ == x;
                        assert(cur[k] == pre[k]);
                    }
                }
            }
        } else {
            assert(firing_set(cur) =~= firing_set(pre)) by {
                assert forall|x: Seq<char>| firing_set(cur).contains(x) implies firing_set(pre).contains(x) by {
                    let k = choose|k: int| 0 <= k < cur.len() && fires(#[trigger] cur[k]) && cur[k].rule_id@ == x;
                    if k < i {
                        assert(pre[k] == cur[k]);
                    }
                }
                assert forall|x: Seq<char>| firing_set(pre).contains(x) implies firing_set(cur).contains(x) by {
                    let k = choose|k: int| 0 <= k < pre.len() && fires(#[trigger] pre[k]) && pre[k].rule_id@ == x;
                    assert(cur[k] == pre[k]);
                }
            }
        }
        i = i + 1;
    }
    assert(findings@.take(n as int) =~= findings@);
    let out = strings_of(&keys);
    assert(views(out@) =~= bufviews(keys@));
    out
}

/// `note`, followed on a new line by `  CAP: extra` when `extra` is not
/// empty.
pub open spec fn with_cap(note: Seq<char>, extra: Seq<char>) -> Seq<char> {
    if extra.len() == 0 {
        note
    } else {
        note + "\n  CAP: "@ + extra
    }
}

/// The rationale of a row, with the cap explanation appended when the
/// envelope blocked it.
pub fn rationale_with_cap(note: &str, extra: &str) -> (r: String)
    ensures
        r@ == with_cap(note@, extra@),
{
    let e = chars_of(extra);
    if e.len() == 0 {
        String::from_str(note)
    } else {
        let mut s = String::from_str(note);
        append_str(&mut s, "\n  CAP: ");
        append_str(&mut s, extra);
        s
    }
}

/// Some rule of `refs` fires.
pub open spec fn any_ref_fires(refs: Seq<Seq<char>>, firing: Seq<Seq<char>>) -> bool {
    exists|i: int| 0 <= i < refs.len() && firing.contains(#[trigger] refs[i])
}

/// Whether a default-delta row with these rule refs goes on to be
/// evaluated: unconditional rows always do, conditional rows only when
/// one of their rules fires.
pub fn row_is_live(rule_refs: &[&str], firing: &[String]) -> (r: bool)
    ensures
        r == (rule_refs@.len() == 0 || any_ref_fires(str_views(rule_refs@), views(firing@))),
{
    let n = rule_refs.len();
    if n == 0 {
        return true;
    }
    let mut i: usize = 0;
    while i < n
        invariant
            n == rule_refs@.len(),
            i <= n,
            forall|k: int| 0 <= k < i ==> !views(firing@).contains(#[trigger] str_views(rule_refs@)[k]),
        decreases n - i,
    {
        let m = firing.len();
        let mut j: usize = 0;
        while j < m
            invariant
                m == firing@.len(),
                i < n,
                n == rule_refs@.len(),
                j <= m,
                forall|t: int| 0 <= t < j ==> #[trigger] views(firing@)[t] != rule_refs@[i as int]@,
            decreases m - j,
        {
            if str_eq(firing[j].as_str(), rule_refs[i]) {
                assert(views(firing@)[j as int] == str_views(rule_refs@)[i as int]);
                return true;
            }
            j = j + 1;
        }
        assert(!views(firing@).contains(str_views(rule_refs@)[i as int]));
        i = i + 1;
    }
    false
}

/// `No triggering rule fired (R02, R03); leave stock.`
pub open spec fn not_fired_text(refs: Seq<Seq<char>>) -> Seq<char> {
    "No triggering rule fired ("@ + join_sep(refs, ", "@) + "); leave stock."@
}

fn owned_refs(rule_refs: &[&str]) -> (r: Vec<String>)
    ensures
        views(r@) == str_views(rule_refs@),
{
    let n = rule_refs.len();
    let mut out: Vec<String> = Vec::new();
    let mut i: usize = 0;
    while i < n
        invariant
            n == rule_refs@.len(),
            i <= n,
            views(out@) == str_views(rule_refs@).take(i as int),
        decreases n - i,
    {
        let ghost o0 = views(out@);
        out.push(String::from_str(rule_refs[i]));
        assert(views(out@) =~= o0.push(rule_refs@[i as int]@));
        assert(str_views(rule_refs@).take(i + 1) =~= str_views(rule_refs@).take(i as int).push(
            rule_refs@[i as int]@,
        ));
        i = i + 1;
    }
    assert(str_views(rule_refs@).take(n as int) =~= str_views(rule_refs@));
    out
}

/// The `SKIP` row of a conditional default delta none of whose rules
/// fired.
pub fn not_fired_recommendation(map_name: &str, cell_selector: &str, rule_refs: &[&str]) -> (r:
    Recommendation)
    ensures
        r.map_name@ == map_name@,
        r.cell_selector@ == cell_selector@,
        r.status == Status::Skip,
        r.proposed_value_text@ == "—"@,
        r.rationale@ == not_fired_text(str_views(rule_refs@)),
        views(r.rule_refs@) == str_views(rule_refs@),
        r.blocked_cap is None,
{
    let mut rationale = String::from_str("No triggering rule fired (");
    push_joined(&mut rationale, rule_refs, ", ");
    append_str(&mut rationale, "); leave stock.");
    Recommendation {
        map_name: String::from_str(map_name),
        cell_selector: String::from_str(cell_selector),
        status: Status::Skip,
        proposed_value_text: String::from_str("—"),
        rationale,
        rule_refs: owned_refs(rule_refs),
        blocked_cap: None,
    }
}

/// The `SKIP` / `leave stock` row of a default delta that leaves its map
/// at stock.
pub fn leave_stock_recommendation(
    map_name: &str,
    cell_selector: &str,
    note: &str,
    rule_refs: &[&str],
) -> (r: Recommendation)
    ensures
        r.map_name@ == map_name@,
        r.cell_selector@ == cell_selector@,
        r.status == Status::Skip,
        r.proposed_value_text@ == "leave stock"@,
        r.rationale@ == note@,
        views(r.rule_refs@) == str_views(rule_refs@),
        r.blocked_cap is None,
{
    Recommendation {
        map_name: String::from_str(map_name),
        cell_selector: String::from_str(cell_selector),
        status: Status::Skip,
        proposed_value_text: String::from_str("leave stock"),
        rationale: String::from_str(note),
        rule_refs: owned_refs(rule_refs),
        blocked_cap: None,
    }
}

// ---------------------------------------------------------------------------
// What to do with one default-delta row
// ---------------------------------------------------------------------------

/// `pat` occurs in `s` as a contiguous piece.
pub open spec fn contains_piece(s: Seq<char>, pat: Seq<char>) -> bool {
    exists|i: int| 0 <= i && i + pat.len() <= s.len() && #[trigger] s.subrange(i, i + pat.len()) == pat
}

fn contains_piece_chars(s: &Vec<char>, pat: &Vec<char>) -> (r: bool)
    ensures
        r == contains_piece(s@, pat@),
{
    let n = s.len();
    let m = pat.len();
    if m > n {
        assert(!contains_piece(s@, pat@));
        return false;
    }
    if m == 0 {
        assert(s@.subrange(0, 0 + pat@.len() as int) =~= pat@);
        return true;
    }
    let mut i: usize = 0;
    while i <= n - m
        invariant
            n == s@.len(),
            m == pat@.len(),
            1 <= m <= n,
            i <= n - m + 1,
            forall|k: int| 0 <= k < i ==> #[trigger] s@.subrange(k, k + m) != pat@,
        decreases n - m + 1 - i,
    {
        let piece = crate::text::sub_chars(s, i, i + m);
        if crate::text::chars_eq(&piece, pat) {
            assert(s@.subrange(i as int, i + m) == pat@);
            return true;
        }
        i = i + 1;
    }
    assert forall|k: int| 0 <= k && k + m <= n implies #[trigger] s@.subrange(k, k + m) != pat@ by {}
    false
}

/// How the engine evaluates one default-delta row.
#[derive(Debug, Clone, Copy, PartialEq, Eq, Structural)]
pub enum RowPlan {
    /// The SVBL row: always left at stock, its note checked against the
    /// SVBL clamp.
    SvblStock,
    /// A conditional row none of whose rules fired: `SKIP`.
    NotFired,
    /// Leave the map at stock: `SKIP`.
    LeaveStock,
    /// Add the value to the stock boost target at this engine speed and
    /// clamp the sum.
    BoostDelta {
        /// Engine speed the boost clamp is evaluated at.
        rpm_for_clamp: u32,
    },
    /// Set an injection quantity and clamp it.
    SetIq,
    /// Advance SOI by the value from the stock 21° BTDC and clamp it at
    /// this probe IQ.
    SoiDelta {
        /// IQ (mg/stroke) the SOI clamp is probed at.
        probe_iq_mg: u32,
    },
    /// Add an injection quantity and clamp it.
    IqDelta,
    /// Clamp the peak of the torque limiter to the value.
    TorqueCap,
    /// Enforce the lambda floor on a smoke-limiter surface.
    LambdaFloor,
    /// Extend an axis end to the value and clamp it.
    ExtendAxis,
    /// Zero the EGR duty map.
    ZeroEgr,
    /// Fill the spec-MAF map (the value, or the envelope fill).
    FillSpecMaf,
    /// Suppress or widen the EGR DTCs.
    SuppressDtc,
    /// Flatten the low-pedal slope (the value, or the envelope cap).
    Flatten,
    /// Set the fan stage thresholds.
    FanThresholds,
    /// Extend the fan run-on (the value, or 60 s).
    FanRunOn,
    /// A kind that needs a value but the row has none.
    Unsupported,
}

/// The plan for a row named `map`, with selector `cell`, kind `kind` and
/// rule refs `refs`, whether it carries a value, given the firing rules.
pub open spec fn row_plan_of(
    map: Seq<char>,
    cell: Seq<char>,
    kind: DeltaKind,
    refs: Seq<Seq<char>>,
    has_value: bool,
    firing: Seq<Seq<char>>,
) -> RowPlan {
    if map == "SVBL"@ {
        RowPlan::SvblStock
    } else if refs.len() > 0 && !any_ref_fires(refs, firing) {
        RowPlan::NotFired
    } else {
        match kind {
            DeltaKind::LeaveStock => RowPlan::LeaveStock,
            DeltaKind::DeltaMbar => if has_value {
                RowPlan::BoostDelta {
                    rpm_for_clamp: if contains_piece(cell, "2000-3500"@) {
                        3500
                    } else {
                        4000
                    },
                }
            } else {
                RowPlan::Unsupported
            },
            DeltaKind::SetTo => if has_value {
                RowPlan::SetIq
            } else {
                RowPlan::Unsupported
            },
            DeltaKind::DeltaDeg => if has_value {
                RowPlan::SoiDelta {
                    probe_iq_mg: if map == "SOI_warm_cruise"@ {
                        10
                    } else {
                        45
                    },
                }
            } else {
                RowPlan::Unsupported
            },
            DeltaKind::DeltaMg => if has_value {
                RowPlan::IqDelta
            } else {
                RowPlan::Unsupported
            },
            DeltaKind::ClampPeak => if has_value && map == "Torque_Limiter"@ {
                RowPlan::TorqueCap
            } else {
                RowPlan::LambdaFloor
            },
            DeltaKind::ExtendAxis => if has_value {
                RowPlan::ExtendAxis
            } else {
                RowPlan::Unsupported
            },
            DeltaKind::ZeroEgr => RowPlan::ZeroEgr,
            DeltaKind::FillSpecMaf => RowPlan::FillSpecMaf,
            DeltaKind::SuppressDtc => RowPlan::SuppressDtc,
            DeltaKind::Flatten => RowPlan::Flatten,
            DeltaKind::FanThresholds => RowPlan::FanThresholds,
            DeltaKind::FanRunOn => RowPlan::FanRunOn,
        }
    }
}

/// Decide how a default-delta row is evaluated: the SVBL row first, then
/// the rule gate, then the row's kind (and, for a boost or SOI row, the
/// operating point its clamp is probed at).
pub fn plan_row(row: &DefaultDelta, has_value: bool, firing: &[String]) -> (r: RowPlan)
    ensures
        r == row_plan_of(
            row.map_name@,
            row.cell_selector@,
            row.kind,
            str_views(row.rule_refs@),
            has_value,
            views(firing@),
        ),
{
    if str_eq(row.map_name, "SVBL") {
        return RowPlan::SvblStock;
    }
    if !row_is_live(row.rule_refs, firing) {
        return RowPlan::NotFired;
    }
    match row.kind {
        DeltaKind::LeaveStock => RowPlan::LeaveStock,
        DeltaKind::DeltaMbar => if has_value {
            let cell = chars_of(row.cell_selector);
            let pat = chars_of("2000-3500");
            RowPlan::BoostDelta {
                rpm_for_clamp: if contains_piece_chars(&cell, &pat) {
                    3500
                } else {
                    4000
                },
            }
        } else {
            RowPlan::Unsupported
        },
        DeltaKind::SetTo => if has_value {
            RowPlan::SetIq
        } else {
            RowPlan::Unsupported
        },
        DeltaKind::DeltaDeg => if has_value {
            RowPlan::SoiDelta {
                probe_iq_mg: if str_eq(row.map_name, "SOI_warm_cruise") {
                    10
                } else {
                    45
                },
            }
        } else {
            RowPlan::Unsupported
        },
        DeltaKind::DeltaMg => if has_value {
            RowPlan::IqDelta
        } else {
            RowPlan::Unsupported
        },
        DeltaKind::ClampPeak => if has_value && str_eq(row.map_name, "Torque_Limiter") {
            RowPlan::TorqueCap
        } else {
            RowPlan::LambdaFloor
        },
        DeltaKind::ExtendAxis => if has_value {
            RowPlan::ExtendAxis
        } else {
            RowPlan::Unsupported
        },
        DeltaKind::ZeroEgr => RowPlan::ZeroEgr,
        DeltaKind::FillSpecMaf => RowPlan::FillSpecMaf,
        DeltaKind::SuppressDtc => RowPlan::SuppressDtc,
        DeltaKind::Flatten => RowPlan::Flatten,
        DeltaKind::FanThresholds => RowPlan::FanThresholds,
        DeltaKind::FanRunOn => RowPlan::FanRunOn,
    }
}

/// A conditional row whose rules did not fire is never applied: its plan
/// is `NotFired` (the SVBL row aside, which always stays at stock).
pub proof fn lemma_unfired_rows_skip(
    map: Seq<char>,
    cell: Seq<char>,
    kind: DeltaKind,
    refs: Seq<Seq<char>>,
    has_value: bool,
    firing: Seq<Seq<char>>,
)
    requires
        map != "SVBL"@,
        refs.len() > 0,
        forall|i: int| 0 <= i < refs.len() ==> !firing.contains(#[trigger] refs[i]),
    ensures
        row_plan_of(map, cell, kind, refs, has_value, firing) == RowPlan::NotFired,
{
}


/// A finding puts its rule among the firing rules exactly when it was
/// evaluated (not skipped) at `warn` or `critical`; `info` and skipped
/// findings never do.
pub proof fn lemma_firing_set_members(fs: Seq<FindingKey>, id: Seq<char>)
    ensures
        firing_set(fs).contains(id) <==> exists|i: int|
            0 <= i < fs.len() && (#[trigger] fs[i]).rule_id@ == id && !fs[i].skipped && (fs[i].severity
                == Severity::Warn || fs[i].severity == Severity::Critical),
{
    if firing_set(fs).contains(id) {
        let i = choose|i: int| 0 <= i < fs.len() && fires(#[trigger] fs[i]) && fs[i].rule_id@ == id;
        assert(fs[i].severity == Severity::Warn || fs[i].severity == Severity::Critical);
    }
    if exists|i: int|
        0 <= i < fs.len() && (#[trigger] fs[i]).rule_id@ == id && !fs[i].skipped && (fs[i].severity
            == Severity::Warn || fs[i].severity == Severity::Critical) {
        let i = choose|i: int|
            0 <= i < fs.len() && (#[trigger] fs[i]).rule_id@ == id && !fs[i].skipped && (fs[i].severity
                == Severity::Warn || fs[i].severity == Severity::Critical);
        assert(fires(fs[i]));
    }
}

/// The plan of a row follows its kind. The SVBL row always stays at stock;
/// a conditional row none of whose rules fired is skipped; every other row
/// is evaluated as its kind says: the whole-map kinds (zero the EGR duty,
/// fill the spec-MAF map, suppress the DTCs, flatten, the two fan kinds)
/// and leave-stock always, the value kinds as their own plan when the row
/// carries a value and as unsupported when it does not, and a clamped
/// peak either as the torque cap or as the lambda floor.
pub proof fn lemma_plan_follows_kind(
    map: Seq<char>,
    cell: Seq<char>,
    kind: DeltaKind,
    refs: Seq<Seq<char>>,
    has_value: bool,
    firing: Seq<Seq<char>>,
)
    ensures
        ({
            let plan = row_plan_of(map, cell, kind, refs, has_value, firing);
            let gate = refs.len() == 0 || exists|i: int| 0 <= i < refs.len() && firing.contains(#[trigger] refs[i]);
            &&& (plan is SvblStock <==> map == "SVBL"@)
            &&& (plan is NotFired <==> map != "SVBL"@ && !gate)
            &&& (map != "SVBL"@ && gate) ==> {
                &&& kind is ZeroEgr ==> plan is ZeroEgr
                &&& kind is FillSpecMaf ==> plan is FillSpecMaf
                &&& kind is SuppressDtc ==> plan is SuppressDtc
                &&& kind is Flatten ==> plan is Flatten
                &&& kind is FanThresholds ==> plan is FanThresholds
                &&& kind is FanRunOn ==> plan is FanRunOn
                &&& kind is LeaveStock ==> plan is LeaveStock
                &&& kind is DeltaMbar ==> (if has_value { plan is BoostDelta } else { plan is Unsupported })
                &&& kind is SetTo ==> (if has_value { plan is SetIq } else { plan is Unsupported })
                &&& kind is DeltaDeg ==> (if has_value { plan is SoiDelta } else { plan is Unsupported })
                &&& kind is DeltaMg ==> (if has_value { plan is IqDelta } else { plan is Unsupported })
                &&& kind is ExtendAxis ==> (if has_value { plan is ExtendAxis } else { plan is Unsupported })
                &&& kind is ClampPeak ==> (if has_value && map == "Torque_Limiter"@ {
                    plan is TorqueCap
                } else {
                    plan is LambdaFloor
                })
            }
        }),
{
}

} // verus!
