//! The Markdown analysis report page: which sections appear, in which
//! order, and every line of them. Numbers that the log holds as floating
//! point, and the timestamp, arrive already formatted as text.

use vstd::prelude::*;

use crate::disclaimer::DISCLAIMER;
use crate::ingest::vcds::ParseWarning;
use crate::platform::amf_edc15p::egr::egr_delete_delta_of;
use crate::platform::amf_edc15p::egr::map_delta_view;
use crate::platform::amf_edc15p::egr::recommend_egr_delete_deltas;
use crate::platform::amf_edc15p::egr::N_EGR_DELETE_DELTAS;
use crate::platform::amf_edc15p::PLATFORM_DISPLAY;
use crate::recommend::engine::FindingKey;
use crate::recommend::engine::Recommendation;
use crate::recommend::report::findings_order;
use crate::recommend::report::findings_order_of;
use crate::recommend::report::findings_perm;
use crate::recommend::report::lemma_findings_order_unique;
use crate::recommend::report::pull_label;
use crate::recommend::report::pull_label_text;
use crate::recommend::report::push_replacing_newlines;
use crate::recommend::report::recommendation_row;
use crate::recommend::report::recommendation_row_text;
use crate::recommend::report::replace_newlines;
use crate::rules::base::severity_str;
use crate::rules::base::Severity;
use crate::text::append_str;
use crate::text::decimal;
use crate::text::join_sep;
use crate::text::push_decimal;
use crate::text::push_joined_strings;
use crate::text::views;
use crate::validate::egr_delete::checklist_markdown;
use crate::validate::egr_delete::ValidationReport;

verus! {

/// The report header facts, with the floating-point ones already formatted.
pub struct ReportMeta {
    /// File name of the analysed log, or `(unknown)`.
    pub source: String,
    /// When the report was generated.
    pub generated: String,
    /// VCDS groups present in the log, in order.
    pub groups: Vec<String>,
    /// Median sample interval, formatted in whole milliseconds.
    pub median_interval_ms: String,
    /// Whether the log is sampled too slowly for timing rules.
    pub low_rate: bool,
    /// DTC codes read from the sidecar.
    pub dtcs: Vec<String>,
    /// Parser warnings.
    pub warnings: Vec<ParseWarning>,
    /// The hard-envelope sentence under the EGR strategy table.
    pub envelope_line: String,
    /// The advice printed when no WOT pull was found.
    pub no_pull_line: String,
}

/// One finding as the report shows it.
pub struct FindingRow {
    /// What the ordering and filtering read of the finding.
    pub key: FindingKey,
    /// Observed extreme, formatted.
    pub observed: String,
    /// Threshold, formatted.
    pub threshold: String,
    /// Rationale (newlines are flattened when rendered).
    pub rationale: String,
}

/// One detected pull as the report shows it.
pub struct PullSummary {
    /// The pull's id.
    pub pull_id: u32,
    /// Its `### Pull ...` heading, formatted.
    pub heading: String,
}

/// The empty line.
pub open spec fn blank() -> Seq<char> {
    Seq::empty()
}

/// A comma-separated list, or `empty` when there is nothing.
pub open spec fn list_or(v: Seq<Seq<char>>, empty: Seq<char>) -> Seq<char> {
    if v.len() == 0 {
        empty
    } else {
        join_sep(v, ", "@)
    }
}

/// The header block: title, disclaimer and the facts of the log.
pub open spec fn header_lines(meta: ReportMeta, n_pulls: nat) -> Seq<Seq<char>> {
    seq![
        "# ecu-shenanigans — Analysis report"@,
        blank(),
        "> "@ + DISCLAIMER@,
        blank(),
        "- Platform: `"@ + PLATFORM_DISPLAY@ + "`"@,
        "- Source: `"@ + meta.source@ + "`"@,
        "- Generated: `"@ + meta.generated@ + "`"@,
        "- Groups present: `"@ + list_or(views(meta.groups@), "(none)"@) + "`"@,
        "- Median sample interval: `"@ + meta.median_interval_ms@ + " ms`"@ + (if meta.low_rate {
            " — **LOW_RATE**"@
        } else {
            Seq::empty()
        }),
        "- Pulls detected: `"@ + decimal(n_pulls) + "`"@,
        "- DTCs from sidecar: `"@ + list_or(views(meta.dtcs@), "(none / no sidecar)"@) + "`"@,
        blank(),
    ]
}

/// One parser-warning line.
pub open spec fn warning_line(w: ParseWarning) -> Seq<char> {
    "- **"@ + w.code@ + "**: "@ + w.message@
}

/// The parser-warnings section, absent when there are none.
pub open spec fn warnings_section(ws: Seq<ParseWarning>) -> Seq<Seq<char>> {
    if ws.len() == 0 {
        Seq::empty()
    } else {
        seq!["## Parser warnings"@] + ws.map_values(|w: ParseWarning| warning_line(w)) + seq![blank()]
    }
}

/// The paragraph that opens the EGR strategy section.
pub const EGR_STRATEGY_PARAGRAPH: &'static str = "Software-only EGR delete is mandatory. Hardware (EGR valve, cooler, \
     vacuum lines, ASV) stays installed; the vacuum-actuated valve is \
     held closed by its return spring with 0 % duty in both banks of \
     the AGR map. The MAF/MAP smoke switch is **explicitly unchanged** — \
     MAF stays the closed-loop smoke-limiter input.";

/// One row of the EGR strategy table.
pub open spec fn egr_row_line(d: (Seq<char>, Seq<char>, Seq<char>, Option<i32>, Seq<char>)) -> Seq<char> {
    "| `"@ + d.0 + "` | "@ + d.1 + " | "@ + d.2 + " | "@ + replace_newlines(d.4, " "@) + " |"@
}

/// The EGR strategy section: paragraph, delete table, hard envelope.
pub open spec fn egr_section(meta: ReportMeta) -> Seq<Seq<char>> {
    seq![
        "## EGR Delete Strategy"@,
        blank(),
        EGR_STRATEGY_PARAGRAPH@,
        blank(),
        "| Map | Cells | Action | Rationale |"@,
        "|---|---|---|---|"@,
    ] + Seq::new(N_EGR_DELETE_DELTAS as nat, |i: int| egr_row_line(egr_delete_delta_of(i))) + seq![
        blank(),
        meta.envelope_line@,
        blank(),
    ]
}

/// The no-pull notice, present only when no pull was detected.
pub open spec fn no_pull_section(meta: ReportMeta, n_pulls: nat) -> Seq<Seq<char>> {
    if n_pulls == 0 {
        seq!["## No WOT pulls detected"@, meta.no_pull_line@, blank()]
    } else {
        Seq::empty()
    }
}

/// What the ordering reads of each finding.
pub open spec fn keys_of(fs: Seq<FindingRow>) -> Seq<FindingKey> {
    fs.map_values(|f: FindingRow| f.key)
}

/// `—` for a skipped finding, else the formatted number.
pub open spec fn number_cell(f: FindingRow, text: Seq<char>) -> Seq<char> {
    if f.key.skipped {
        "—"@
    } else {
        text
    }
}

/// One row of the findings table.
pub open spec fn finding_table_line(f: FindingRow) -> Seq<char> {
    "| "@ + pull_label_text(f.key.pull_id) + " | `"@ + f.key.rule_id@ + "` | "@ + severity_str(
        f.key.severity,
    )@ + " | "@ + number_cell(f, f.observed@) + " | "@ + number_cell(f, f.threshold@) + " | "@
        + replace_newlines(f.rationale@, " "@) + " |"@
}

/// The note under the findings table.
pub const GLOBAL_PULL_NOTE: &'static str = "_Pull `G` denotes a finding from a global-scope rule (R16, R19, R21) \
     evaluated once over the entire log rather than per-pull._";

/// The findings table, in findings-table order; absent when there are none.
pub open spec fn findings_section(fs: Seq<FindingRow>) -> Seq<Seq<char>> {
    if fs.len() == 0 {
        Seq::empty()
    } else {
        let perm = findings_perm(keys_of(fs));
        seq![
            "## Findings"@,
            blank(),
            "| Pull | Rule | Severity | Observed | Threshold | Why |"@,
            "|---|---|---|---|---|---|"@,
        ] + Seq::new(fs.len(), |q: int| finding_table_line(fs[perm[q] as int])) + seq![
            blank(),
            GLOBAL_PULL_NOTE@,
            blank(),
        ]
    }
}

/// Upper-case display string of a severity.
pub open spec fn severity_upper(s: Severity) -> Seq<char> {
    match s {
        Severity::Info => "INFO"@,
        Severity::Warn => "WARN"@,
        Severity::Critical => "CRITICAL"@,
    }
}

/// One finding line of a pull's summary.
pub open spec fn pull_finding_line(f: FindingRow) -> Seq<char> {
    "- **["@ + severity_upper(f.key.severity) + "] "@ + f.key.rule_id@ + "** — "@ + replace_newlines(
        f.rationale@,
        " "@,
    ) + " (observed "@ + f.observed@ + ", threshold "@ + f.threshold@ + ")"@
}

/// The evaluated (not skipped) findings of pull `id`, in input order.
pub open spec fn pull_finding_lines(fs: Seq<FindingRow>, id: u32) -> Seq<Seq<char>>
    decreases fs.len(),
{
    if fs.len() == 0 {
        Seq::empty()
    } else {
        let f = fs.last();
        pull_finding_lines(fs.drop_last(), id) + if f.key.pull_id == id && !f.key.skipped {
            seq![pull_finding_line(f)]
        } else {
            Seq::empty()
        }
    }
}

/// The line shown for a pull without evaluated findings.
pub const NO_FINDINGS_LINE: &'static str = "- No findings; pull is within envelope.";

/// One pull's block of the per-pull summary.
pub open spec fn pull_block(fs: Seq<FindingRow>, p: PullSummary) -> Seq<Seq<char>> {
    let ls = pull_finding_lines(fs, p.pull_id);
    seq![p.heading@] + (if ls.len() == 0 {
        seq![NO_FINDINGS_LINE@]
    } else {
        ls
    }) + seq![blank()]
}

/// The blocks of all pulls, in order.
pub open spec fn pull_blocks(fs: Seq<FindingRow>, ps: Seq<PullSummary>) -> Seq<Seq<char>>
    decreases ps.len(),
{
    if ps.len() == 0 {
        Seq::empty()
    } else {
        pull_blocks(fs, ps.drop_last()) + pull_block(fs, ps.last())
    }
}

/// The per-pull summary, absent when no pull was detected.
pub open spec fn pulls_section(fs: Seq<FindingRow>, ps: Seq<PullSummary>) -> Seq<Seq<char>> {
    if ps.len() == 0 {
        Seq::empty()
    } else {
        seq!["## Per-pull summary"@, blank()] + pull_blocks(fs, ps)
    }
}

/// The recommendation table.
pub open spec fn recs_section(recs: Seq<Recommendation>) -> Seq<Seq<char>> {
    seq![
        "## Recommendation table"@,
        blank(),
        "| Map | Cell selector | Status | Proposed | Rule refs | Rationale |"@,
        "|---|---|---|---|---|---|"@,
    ] + recs.map_values(|r: Recommendation| recommendation_row_text(r)) + seq![blank()]
}

/// One line of the skipped-rules list.
pub open spec fn skipped_rule_line(rid: Seq<char>) -> Seq<char> {
    "- `"@ + rid + "`"@
}

/// The list of rules skipped for missing groups, absent when empty.
pub open spec fn skipped_section(rids: Seq<Seq<char>>) -> Seq<Seq<char>> {
    if rids.len() == 0 {
        Seq::empty()
    } else {
        seq!["## Rules SKIPPED (group missing)"@] + rids.map_values(|r: Seq<char>| skipped_rule_line(r))
            + seq![blank()]
    }
}

/// The validation checklist, when one was run.
pub open spec fn validation_section(v: Option<ValidationReport>) -> Seq<Seq<char>> {
    match v {
        Some(r) => seq![checklist_markdown(r.items@), blank()],
        None => Seq::empty(),
    }
}

/// Every line of the report, section by section.
pub open spec fn report_lines(
    meta: ReportMeta,
    fs: Seq<FindingRow>,
    ps: Seq<PullSummary>,
    recs: Seq<Recommendation>,
    skipped: Seq<Seq<char>>,
    validation: Option<ValidationReport>,
) -> Seq<Seq<char>> {
    header_lines(meta, ps.len()) + warnings_section(meta.warnings@) + egr_section(meta)
        + no_pull_section(meta, ps.len()) + findings_section(fs) + pulls_section(fs, ps)
        + recs_section(recs) + skipped_section(skipped) + validation_section(validation)
}

/// The report: its lines joined by newlines.
pub open spec fn report_markdown(
    meta: ReportMeta,
    fs: Seq<FindingRow>,
    ps: Seq<PullSummary>,
    recs: Seq<Recommendation>,
    skipped: Seq<Seq<char>>,
    validation: Option<ValidationReport>,
) -> Seq<char> {
    join_sep(report_lines(meta, fs, ps, recs, skipped, validation), "\n"@)
}

// ---------------------------------------------------------------------------
// Rendering
// ---------------------------------------------------------------------------

fn push_line(lines: &mut Vec<String>, s: String)
    ensures
        views(final(lines)@) == views(old(lines)@).push(s@),
{
    let ghost l0 = lines@;
    lines.push(s);
    assert(views(lines@) =~= views(l0).push(s@));
}

fn push_text(lines: &mut Vec<String>, t: &str)
    ensures
        views(final(lines)@) == views(old(lines)@).push(t@),
{
    push_line(lines, String::from_str(t));
}

fn push_blank(lines: &mut Vec<String>)
    ensures
        views(final(lines)@) == views(old(lines)@).push(blank()),
{
    push_line(lines, String::new());
}

fn list_text(s: &mut String, v: &Vec<String>, empty: &str)
    ensures
        final(s)@ == old(s)@ + list_or(views(v@), empty@),
{
    if v.len() == 0 {
        append_str(s, empty);
    } else {
        push_joined_strings(s, v, ", ");
    }
}

fn push_header(lines: &mut Vec<String>, meta: &ReportMeta, n_pulls: usize)
    ensures
        views(final(lines)@) == views(old(lines)@) + header_lines(*meta, n_pulls as nat),
{
    let ghost l0 = views(lines@);
    push_text(lines, "# ecu-shenanigans — Analysis report");
    push_blank(lines);
    let mut s = String::from_str("> ");
    append_str(&mut s, DISCLAIMER);
    push_line(lines, s);
    push_blank(lines);
    let mut s = String::from_str("- Platform: `");
    append_str(&mut s, PLATFORM_DISPLAY);
    append_str(&mut s, "`");
    push_line(lines, s);
    let mut s = String::from_str("- Source: `");
    append_str(&mut s, meta.source.as_str());
    append_str(&mut s, "`");
    push_line(lines, s);
    let mut s = String::from_str("- Generated: `");
    append_str(&mut s, meta.generated.as_str());
    append_str(&mut s, "`");
    push_line(lines, s);
    let mut s = String::from_str("- Groups present: `");
    list_text(&mut s, &meta.groups, "(none)");
    append_str(&mut s, "`");
    push_line(lines, s);
    let mut s = String::from_str("- Median sample interval: `");
    append_str(&mut s, meta.median_interval_ms.as_str());
    append_str(&mut s, " ms`");
    if meta.low_rate {
        append_str(&mut s, " — **LOW_RATE**");
    } else {
        assert(s@ + Seq::<char>::empty() =~= s@);
    }
    push_line(lines, s);
    let mut s = String::from_str("- Pulls detected: `");
    push_decimal(&mut s, n_pulls);
    append_str(&mut s, "`");
    push_line(lines, s);
    let mut s = String::from_str("- DTCs from sidecar: `");
    list_text(&mut s, &meta.dtcs, "(none / no sidecar)");
    append_str(&mut s, "`");
    push_line(lines, s);
    push_blank(lines);
    assert(views(lines@) =~= l0 + header_lines(*meta, n_pulls as nat));
}

fn warning_text(w: &ParseWarning) -> (s: String)
    ensures
        s@ == warning_line(*w),
{
    let mut s = String::from_str("- **");
    append_str(&mut s, w.code.as_str());
    append_str(&mut s, "**: ");
    append_str(&mut s, w.message.as_str());
    s
}

fn push_warnings(lines: &mut Vec<String>, ws: &Vec<ParseWarning>)
    ensures
        views(final(lines)@) == views(old(lines)@) + warnings_section(ws@),
{
    let ghost l0 = views(lines@);
    if ws.len() == 0 {
        assert(views(lines@) =~= l0 + warnings_section(ws@));
        return;
    }
    push_text(lines, "## Parser warnings");
    let ghost l1 = views(lines@);
    let n = ws.len();
    let mut i: usize = 0;
    while i < n
        invariant
            n == ws@.len(),
            i <= n,
            views(lines@) == l1 + ws@.take(i as int).map_values(|w: ParseWarning| warning_line(w)),
        decreases n - i,
    {
        let t = warning_text(&ws[i]);
        push_line(lines, t);
        assert(ws@.take(i + 1).map_values(|w: ParseWarning| warning_line(w)) =~= ws@.take(i as int).map_values(
            |w: ParseWarning| warning_line(w),
        ).push(warning_line(ws@[i as int])));
        i = i + 1;
    }
    assert(ws@.take(n as int) =~= ws@);
    push_blank(lines);
    assert(views(lines@) =~= l0 + warnings_section(ws@));
}

fn egr_row_text(d: &crate::platform::amf_edc15p::egr::MapDelta) -> (s: String)
    ensures
        s@ == egr_row_line(map_delta_view(*d)),
{
    let mut s = String::from_str("| `");
    append_str(&mut s, d.map_name.as_str());
    append_str(&mut s, "` | ");
    append_str(&mut s, d.cell_selector.as_str());
    append_str(&mut s, " | ");
    append_str(&mut s, d.action.as_str());
    append_str(&mut s, " | ");
    push_replacing_newlines(&mut s, d.rationale.as_str(), " ");
    append_str(&mut s, " |");
    s
}

fn push_egr(lines: &mut Vec<String>, meta: &ReportMeta)
    ensures
        views(final(lines)@) == views(old(lines)@) + egr_section(*meta),
{
    let ghost l0 = views(lines@);
    push_text(lines, "## EGR Delete Strategy");
    push_blank(lines);
    push_text(lines, EGR_STRATEGY_PARAGRAPH);
    push_blank(lines);
    push_text(lines, "| Map | Cells | Action | Rationale |");
    push_text(lines, "|---|---|---|---|");
    let ghost l1 = views(lines@);
    let ghost rows = Seq::new(N_EGR_DELETE_DELTAS as nat, |i: int| egr_row_line(egr_delete_delta_of(i)));
    let deltas = recommend_egr_delete_deltas();
    let mut i: usize = 0;
    while i < N_EGR_DELETE_DELTAS
        invariant
            deltas@.len() == N_EGR_DELETE_DELTAS,
            forall|k: int| 0 <= k < N_EGR_DELETE_DELTAS ==> #[trigger] map_delta_view(deltas@[k]) == egr_delete_delta_of(k),
            i <= N_EGR_DELETE_DELTAS,
            rows == Seq::new(N_EGR_DELETE_DELTAS as nat, |i: int| egr_row_line(egr_delete_delta_of(i))),
            views(lines@) == l1 + rows.take(i as int),
        decreases N_EGR_DELETE_DELTAS - i,
    {
        let t = egr_row_text(&deltas[i]);
        assert(map_delta_view(deltas@[i as int]) == egr_delete_delta_of(i as int));
        push_line(lines, t);
        assert(rows.take(i + 1) =~= rows.take(i as int).push(rows[i as int]));
        i = i + 1;
    }
    assert(rows.take(N_EGR_DELETE_DELTAS as int) =~= rows);
    push_blank(lines);
    push_text(lines, meta.envelope_line.as_str());
    push_blank(lines);
    assert(views(lines@) =~= l0 + egr_section(*meta));
}

fn push_no_pull(lines: &mut Vec<String>, meta: &ReportMeta, n_pulls: usize)
    ensures
        views(final(lines)@) == views(old(lines)@) + no_pull_section(*meta, n_pulls as nat),
{
    let ghost l0 = views(lines@);
    if n_pulls == 0 {
        push_text(lines, "## No WOT pulls detected");
        push_text(lines, meta.no_pull_line.as_str());
        push_blank(lines);
    }
    assert(views(lines@) =~= l0 + no_pull_section(*meta, n_pulls as nat));
}

fn copy_key(k: &FindingKey) -> (r: FindingKey)
    ensures
        r.rule_id@ == k.rule_id@,
        r.severity == k.severity,
        r.pull_id == k.pull_id,
        r.skipped == k.skipped,
{
    FindingKey {
        rule_id: String::from_str(k.rule_id.as_str()),
        severity: k.severity,
        pull_id: k.pull_id,
        skipped: k.skipped,
    }
}

/// Keys that agree on what the ordering reads order alike.
proof fn lemma_order_same_keys(a: Seq<FindingKey>, b: Seq<FindingKey>, p: Seq<usize>)
    requires
        a.len() == b.len(),
        forall|i: int|
            0 <= i < a.len() ==> (#[trigger] a[i]).rule_id@ == b[i].rule_id@ && a[i].severity == b[i].severity
                && a[i].pull_id == b[i].pull_id,
        findings_order_of(b, p),
    ensures
        findings_order_of(a, p),
{
}

fn number_text(f: &FindingRow, text: &String) -> (s: String)
    ensures
        s@ == number_cell(*f, text@),
{
    if f.key.skipped {
        String::from_str("—")
    } else {
        String::from_str(text.as_str())
    }
}

fn finding_table_text(f: &FindingRow) -> (s: String)
    ensures
        s@ == finding_table_line(*f),
{
    let mut s = String::from_str("| ");
    let label = pull_label(f.key.pull_id);
    append_str(&mut s, label.as_str());
    append_str(&mut s, " | `");
    append_str(&mut s, f.key.rule_id.as_str());
    append_str(&mut s, "` | ");
    append_str(&mut s, f.key.severity.as_str());
    append_str(&mut s, " | ");
    let o = number_text(f, &f.observed);
    append_str(&mut s, o.as_str());
    append_str(&mut s, " | ");
    let t = number_text(f, &f.threshold);
    append_str(&mut s, t.as_str());
    append_str(&mut s, " | ");
    push_replacing_newlines(&mut s, f.rationale.as_str(), " ");
    append_str(&mut s, " |");
    s
}

fn push_findings(lines: &mut Vec<String>, fs: &Vec<FindingRow>)
    ensures
        views(final(lines)@) == views(old(lines)@) + findings_section(fs@),
{
    let ghost l0 = views(lines@);
    let n = fs.len();
    if n == 0 {
        assert(views(lines@) =~= l0 + findings_section(fs@));
        return;
    }
    push_text(lines, "## Findings");
    push_blank(lines);
    push_text(lines, "| Pull | Rule | Severity | Observed | Threshold | Why |");
    push_text(lines, "|---|---|---|---|---|---|");
    let ghost l1 = views(lines@);
    let mut keys: Vec<FindingKey> = Vec::new();
    let mut j: usize = 0;
    while j < n
        invariant
            n == fs@.len(),
            j <= n,
            keys@.len() == j,
            forall|i: int|
                0 <= i < j ==> (#[trigger] keys@[i]).rule_id@ == fs@[i].key.rule_id@ && keys@[i].severity
                    == fs@[i].key.severity && keys@[i].pull_id == fs@[i].key.pull_id,
        decreases n - j,
    {
        keys.push(copy_key(&fs[j].key));
        j = j + 1;
    }
    let perm = findings_order(&keys);
    let ghost kf = keys_of(fs@);
    proof {
        assert forall|i: int| 0 <= i < kf.len() implies (#[trigger] kf[i]).rule_id@ == keys@[i].rule_id@
            && kf[i].severity == keys@[i].severity && kf[i].pull_id == keys@[i].pull_id by {}
        lemma_order_same_keys(kf, keys@, perm@);
        lemma_findings_order_unique(kf, findings_perm(kf), perm@);
    }
    let ghost rows = Seq::new(fs@.len(), |q: int| finding_table_line(fs@[perm@[q] as int]));
    let mut q: usize = 0;
    while q < n
        invariant
            n == fs@.len(),
            perm@.len() == n,
            forall|r: int| 0 <= r < n ==> #[trigger] perm@[r] < n,
            q <= n,
            rows == Seq::new(fs@.len(), |q: int| finding_table_line(fs@[perm@[q] as int])),
            views(lines@) == l1 + rows.take(q as int),
        decreases n - q,
    {
        assert(perm@[q as int] < n);
        let t = finding_table_text(&fs[perm[q]]);
        push_line(lines, t);
        assert(rows.take(q + 1) =~= rows.take(q as int).push(rows[q as int]));
        q = q + 1;
    }
    assert(rows.take(n as int) =~= rows);
    push_blank(lines);
    push_text(lines, GLOBAL_PULL_NOTE);
    push_blank(lines);
    assert(views(lines@) =~= l0 + findings_section(fs@));
}

fn severity_upper_text(s: Severity) -> (r: &'static str)
    ensures
        r@ == severity_upper(s),
{
    match s {
        Severity::Info => "INFO",
        Severity::Warn => "WARN",
        Severity::Critical => "CRITICAL",
    }
}

fn pull_finding_text(f: &FindingRow) -> (s: String)
    ensures
        s@ == pull_finding_line(*f),
{
    let mut s = String::from_str("- **[");
    append_str(&mut s, severity_upper_text(f.key.severity));
    append_str(&mut s, "] ");
    append_str(&mut s, f.key.rule_id.as_str());
    append_str(&mut s, "** — ");
    push_replacing_newlines(&mut s, f.rationale.as_str(), " ");
    append_str(&mut s, " (observed ");
    append_str(&mut s, f.observed.as_str());
    append_str(&mut s, ", threshold ");
    append_str(&mut s, f.threshold.as_str());
    append_str(&mut s, ")");
    s
}

fn push_pull_block(lines: &mut Vec<String>, fs: &Vec<FindingRow>, p: &PullSummary)
    ensures
        views(final(lines)@) == views(old(lines)@) + pull_block(fs@, *p),
{
    let ghost l0 = views(lines@);
    push_text(lines, p.heading.as_str());
    let ghost l1 = views(lines@);
    let n = fs.len();
    let mut i: usize = 0;
    let mut found = false;
    while i < n
        invariant
            n == fs@.len(),
            i <= n,
            views(lines@) == l1 + pull_finding_lines(fs@.take(i as int), p.pull_id),
            found == (pull_finding_lines(fs@.take(i as int), p.pull_id).len() > 0),
        decreases n - i,
    {
        let ghost pre = fs@.take(i as int);
        assert(fs@.take(i + 1).drop_last() =~= pre);
        assert(fs@.take(i + 1).last() == fs@[i as int]);
        let f = &fs[i];
        if f.key.pull_id == p.pull_id && !f.key.skipped {
            let t = pull_finding_text(f);
            push_line(lines, t);
            found = true;
        } else {
            assert(pull_finding_lines(fs@.take(i + 1), p.pull_id) =~= pull_finding_lines(pre, p.pull_id));
        }
        i = i + 1;
    }
    assert(fs@.take(n as int) =~= fs@);
    let ghost ls = pull_finding_lines(fs@, p.pull_id);
    if !found {
        assert(ls.len() == 0);
        push_text(lines, NO_FINDINGS_LINE);
    }
    push_blank(lines);
    assert(views(lines@) =~= l0 + pull_block(fs@, *p));
}

fn push_pulls(lines: &mut Vec<String>, fs: &Vec<FindingRow>, ps: &Vec<PullSummary>)
    ensures
        views(final(lines)@) == views(old(lines)@) + pulls_section(fs@, ps@),
{
    let ghost l0 = views(lines@);
    let n = ps.len();
    if n == 0 {
        assert(views(lines@) =~= l0 + pulls_section(fs@, ps@));
        return;
    }
    push_text(lines, "## Per-pull summary");
    push_blank(lines);
    let ghost l1 = views(lines@);
    let mut i: usize = 0;
    while i < n
        invariant
            n == ps@.len(),
            i <= n,
            views(lines@) == l1 + pull_blocks(fs@, ps@.take(i as int)),
        decreases n - i,
    {
        assert(ps@.take(i + 1).drop_last() =~= ps@.take(i as int));
        assert(ps@.take(i + 1).last() == ps@[i as int]);
        push_pull_block(lines, fs, &ps[i]);
        i = i + 1;
    }
    assert(ps@.take(n as int) =~= ps@);
    assert(views(lines@) =~= l0 + pulls_section(fs@, ps@));
}

fn push_recs(lines: &mut Vec<String>, recs: &[Recommendation])
    ensures
        views(final(lines)@) == views(old(lines)@) + recs_section(recs@),
{
    let ghost l0 = views(lines@);
    push_text(lines, "## Recommendation table");
    push_blank(lines);
    push_text(lines, "| Map | Cell selector | Status | Proposed | Rule refs | Rationale |");
    push_text(lines, "|---|---|---|---|---|---|");
    let ghost l1 = views(lines@);
    let n = recs.len();
    let mut i: usize = 0;
    while i < n
        invariant
            n == recs@.len(),
            i <= n,
            views(lines@) == l1 + recs@.take(i as int).map_values(|r: Recommendation| recommendation_row_text(r)),
        decreases n - i,
    {
        let t = recommendation_row(&recs[i]);
        push_line(lines, t);
        assert(recs@.take(i + 1).map_values(|r: Recommendation| recommendation_row_text(r)) =~= recs@.take(
            i as int,
        ).map_values(|r: Recommendation| recommendation_row_text(r)).push(recommendation_row_text(recs@[i as int])));
        i = i + 1;
    }
    assert(recs@.take(n as int) =~= recs@);
    push_blank(lines);
    assert(views(lines@) =~= l0 + recs_section(recs@));
}

fn push_skipped(lines: &mut Vec<String>, rids: &[String])
    ensures
        views(final(lines)@) == views(old(lines)@) + skipped_section(views(rids@)),
{
    let ghost l0 = views(lines@);
    let ghost rv = views(rids@);
    let n = rids.len();
    if n == 0 {
        assert(views(lines@) =~= l0 + skipped_section(rv));
        return;
    }
    push_text(lines, "## Rules SKIPPED (group missing)");
    let ghost l1 = views(lines@);
    let mut i: usize = 0;
    while i < n
        invariant
            n == rids@.len(),
            rv == views(rids@),
            i <= n,
            views(lines@) == l1 + rv.take(i as int).map_values(|r: Seq<char>| skipped_rule_line(r)),
        decreases n - i,
    {
        let mut s = String::from_str("- `");
        append_str(&mut s, rids[i].as_str());
        append_str(&mut s, "`");
        push_line(lines, s);
        assert(rv.take(i + 1).map_values(|r: Seq<char>| skipped_rule_line(r)) =~= rv.take(i as int).map_values(
            |r: Seq<char>| skipped_rule_line(r),
        ).push(skipped_rule_line(rv[i as int])));
        i = i + 1;
    }
    assert(rv.take(n as int) =~= rv);
    push_blank(lines);
    assert(views(lines@) =~= l0 + skipped_section(rv));
}

fn push_validation(lines: &mut Vec<String>, validation: Option<&ValidationReport>)
    ensures
        views(final(lines)@) == views(old(lines)@) + validation_section(
            match validation {
                Some(r) => Some(*r),
                None => None,
            },
        ),
{
    let ghost l0 = views(lines@);
    match validation {
        Some(r) => {
            let md = r.to_markdown();
            push_line(lines, md);
            push_blank(lines);
        },
        None => {},
    }
    assert(views(lines@) =~= l0 + validation_section(
        match validation {
            Some(r) => Some(*r),
            None => None,
        },
    ));
}

/// Render the analysis report: header, parser warnings, EGR strategy,
/// no-pull notice, findings table, per-pull summary, recommendation table,
/// skipped rules and, when given, the validation checklist.
pub fn render_report(
    meta: &ReportMeta,
    findings: &Vec<FindingRow>,
    pulls: &Vec<PullSummary>,
    recs: &[Recommendation],
    skipped_rules: &[String],
    validation: Option<&ValidationReport>,
) -> (md: String)
    ensures
        md@ == report_markdown(
            *meta,
            findings@,
            pulls@,
            recs@,
            views(skipped_rules@),
            match validation {
                Some(r) => Some(*r),
                None => None,
            },
        ),
{
    let mut lines: Vec<String> = Vec::new();
    assert(views(lines@) =~= Seq::<Seq<char>>::empty());
    push_header(&mut lines, meta, pulls.len());
    push_warnings(&mut lines, &meta.warnings);
    push_egr(&mut lines, meta);
    push_no_pull(&mut lines, meta, pulls.len());
    push_findings(&mut lines, findings);
    push_pulls(&mut lines, findings, pulls);
    push_recs(&mut lines, recs);
    push_skipped(&mut lines, skipped_rules);
    push_validation(&mut lines, validation);
    let ghost v = match validation {
        Some(r) => Some(*r),
        None => None,
    };
    assert(views(lines@) =~= report_lines(*meta, findings@, pulls@, recs@, views(skipped_rules@), v));
    let mut md = String::new();
    push_joined_strings(&mut md, &lines, "\n");
    assert(md@ =~= report_markdown(*meta, findings@, pulls@, recs@, views(skipped_rules@), v));
    md
}


/// The median-interval line of the report (its ninth line) shows the
/// interval in milliseconds, and ends with the `LOW_RATE` mark exactly
/// when the log is sampled too slowly.
pub proof fn lemma_low_rate_marked(
    meta: ReportMeta,
    fs: Seq<FindingRow>,
    ps: Seq<PullSummary>,
    recs: Seq<Recommendation>,
    skipped: Seq<Seq<char>>,
    validation: Option<ValidationReport>,
)
    ensures
        ({
            let line = report_lines(meta, fs, ps, recs, skipped, validation)[8];
            let base = "- Median sample interval: `"@ + meta.median_interval_ms@ + " ms`"@;
            &&& meta.low_rate ==> line == base + " — **LOW_RATE**"@
            &&& !meta.low_rate ==> line == base
        }),
{
    let h = header_lines(meta, ps.len());
    assert(h.len() == 12);
    let rest = warnings_section(meta.warnings@) + egr_section(meta) + no_pull_section(meta, ps.len())
        + findings_section(fs) + pulls_section(fs, ps) + recs_section(recs) + skipped_section(skipped)
        + validation_section(validation);
    assert(report_lines(meta, fs, ps, recs, skipped, validation) =~= h + rest);
    assert((h + rest)[8] == h[8]);
    if !meta.low_rate {
        let base = "- Median sample interval: `"@ + meta.median_interval_ms@ + " ms`"@;
        assert(base + Seq::<char>::empty() =~= base);
    }
}

} // verus!
