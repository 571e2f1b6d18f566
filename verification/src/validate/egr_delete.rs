//! EGR-delete post-flash validation checklist.
//!
//! Fifteen yes/no checks against a post-flash log. Each emits a
//! [`CheckOutcome`] with a status (`Pass` / `Fail` / `Skipped`), observed
//! evidence and a remediation pointer. The aggregate [`ValidationReport`]
//! passes only when no item failed.
//!
//! The DTC checks (6 to 8) read the sidecar DTC scan; the subjective NVH
//! check (10) is always skipped and the smoke-switch reminder (15) always
//! passes. The remaining checks read logged channels.

use vstd::prelude::*;

use crate::rules::pack::code_reported;
use crate::text::append_str;
use crate::text::decimal;
use crate::text::join_sep;
use crate::text::push_decimal;
use crate::text::push_joined;
use crate::text::str_views;
use crate::text::views;

verus! {

/// One check's outcome.
#[derive(Debug, Clone, Copy, PartialEq, Eq, Structural)]
pub enum CheckStatus {
    /// Check evaluated and passed.
    Pass,
    /// Check evaluated and failed.
    Fail,
    /// Check could not be evaluated (channel or scan missing).
    Skipped,
}

/// Display string of a check status.
pub open spec fn check_status_str(s: CheckStatus) -> &'static str {
    match s {
        CheckStatus::Pass => "PASS",
        CheckStatus::Fail => "FAIL",
        CheckStatus::Skipped => "SKIPPED",
    }
}

/// Markdown glyph of a check status.
pub open spec fn check_glyph(s: CheckStatus) -> &'static str {
    match s {
        CheckStatus::Pass => "[x]",
        CheckStatus::Fail => "[ ]",
        CheckStatus::Skipped => "[-]",
    }
}

impl CheckStatus {
    /// Display string used in the markdown checklist.
    pub fn as_str(self) -> (r: &'static str)
        ensures
            r == check_status_str(self),
    {
        match self {
            CheckStatus::Pass => "PASS",
            CheckStatus::Fail => "FAIL",
            CheckStatus::Skipped => "SKIPPED",
        }
    }

    /// Markdown glyph used in the checklist.
    pub fn glyph(self) -> (r: &'static str)
        ensures
            r == check_glyph(self),
    {
        match self {
            CheckStatus::Pass => "[x]",
            CheckStatus::Fail => "[ ]",
            CheckStatus::Skipped => "[-]",
        }
    }
}

/// One row in the validation checklist.
#[derive(Debug, Clone)]
pub struct CheckOutcome {
    /// Position in the checklist (1-based).
    pub id: u8,
    /// Short label.
    pub title: String,
    /// Outcome status.
    pub status: CheckStatus,
    /// Observed value or summary string.
    pub observed: String,
    /// Pointer to the remediation action.
    pub remediation: String,
}

/// Aggregate validation result.
#[derive(Debug, Clone)]
pub struct ValidationReport {
    /// All checklist outcomes, in order.
    pub items: Vec<CheckOutcome>,
}

/// Number of items with status `s`.
pub open spec fn count_status(items: Seq<CheckOutcome>, s: CheckStatus) -> nat
    decreases items.len(),
{
    if items.len() == 0 {
        0
    } else {
        count_status(items.drop_last(), s) + if items.last().status == s {
            1nat
        } else {
            0nat
        }
    }
}

/// No item failed.
pub open spec fn none_failed(items: Seq<CheckOutcome>) -> bool {
    forall|i: int| 0 <= i < items.len() ==> #[trigger] items[i].status != CheckStatus::Fail
}

fn count_of(items: &Vec<CheckOutcome>, s: CheckStatus) -> (r: usize)
    ensures
        r == count_status(items@, s),
{
    let n = items.len();
    let mut c: usize = 0;
    let mut i: usize = 0;
    while i < n
        invariant
            n == items@.len(),
            i <= n,
            c <= i,
            c == count_status(items@.take(i as int), s),
        decreases n - i,
    {
        assert(items@.take(i + 1).drop_last() =~= items@.take(i as int));
        if items[i].status == s {
            c = c + 1;
        }
        i = i + 1;
    }
    assert(items@.take(n as int) =~= items@);
    c
}

impl ValidationReport {
    /// Whether every item passed (skipped items are tolerated).
    pub fn pass(&self) -> (r: bool)
        ensures
            r == none_failed(self.items@),
    {
        let n = self.items.len();
        let mut i: usize = 0;
        while i < n
            invariant
                n == self.items@.len(),
                i <= n,
                forall|k: int| 0 <= k < i ==> #[trigger] self.items@[k].status != CheckStatus::Fail,
            decreases n - i,
        {
            if self.items[i].status == CheckStatus::Fail {
                return false;
            }
            i = i + 1;
        }
        true
    }

    /// Number of failed items.
    pub fn failed(&self) -> (r: usize)
        ensures
            r == count_status(self.items@, CheckStatus::Fail),
    {
        count_of(&self.items, CheckStatus::Fail)
    }

    /// Number of skipped items.
    pub fn skipped(&self) -> (r: usize)
        ensures
            r == count_status(self.items@, CheckStatus::Skipped),
    {
        count_of(&self.items, CheckStatus::Skipped)
    }

    /// Render the checklist as Markdown.
    #[verifier::spinoff_prover]
    #[verifier::rlimit(40)]
    pub fn to_markdown(&self) -> (r: String)
        ensures
            r@ == checklist_markdown(self.items@),
    {
        let mut s = String::from_str("## EGR Delete Validation Checklist\n\n");
        let n = self.items.len();
        let mut i: usize = 0;
        let ghost s0 = s@;
        assert(item_lines(self.items@.take(0)) =~= Seq::<char>::empty());
        while i < n
            invariant
                n == self.items@.len(),
                i <= n,
                s@ == s0 + item_lines(self.items@.take(i as int)),
            decreases n - i,
        {
            assert(self.items@.take(i + 1).drop_last() =~= self.items@.take(i as int));
            let it = &self.items[i];
            let ghost pre = s@;
            append_str(&mut s, "- ");
            append_str(&mut s, it.status.glyph());
            append_str(&mut s, " **");
            push_decimal(&mut s, it.id as usize);
            append_str(&mut s, ".** ");
            append_str(&mut s, it.title.as_str());
            append_str(&mut s, " — `");
            append_str(&mut s, it.status.as_str());
            append_str(&mut s, "` — observed: ");
            append_str(&mut s, it.observed.as_str());
            append_str(&mut s, "\n");
            if it.status == CheckStatus::Fail {
                append_str(&mut s, "    - Remediation: ");
                append_str(&mut s, it.remediation.as_str());
                append_str(&mut s, "\n");
            }
            assert(s@ =~= pre + item_text(*it));
            i = i + 1;
        }
        assert(self.items@.take(n as int) =~= self.items@);
        append_str(&mut s, "\n");
        let failed = self.failed();
        let skipped = self.skipped();
        if self.pass() {
            append_str(&mut s, "**Result: PASS** (");
            push_decimal(&mut s, skipped);
            append_str(&mut s, " skipped)");
        } else {
            append_str(&mut s, "**Result: FAIL** (");
            push_decimal(&mut s, failed);
            append_str(&mut s, " failed, ");
            push_decimal(&mut s, skipped);
            append_str(&mut s, " skipped)");
        }
        s
    }
}

/// The Markdown of one checklist item: its line, and a remediation line
/// under a failed item.
pub open spec fn item_text(it: CheckOutcome) -> Seq<char> {
    let line = "- "@ + check_glyph(it.status)@ + " **"@ + decimal(it.id as nat) + ".** "@ + it.title@
        + " — `"@ + check_status_str(it.status)@ + "` — observed: "@ + it.observed@ + "\n"@;
    if it.status == CheckStatus::Fail {
        line + "    - Remediation: "@ + it.remediation@ + "\n"@
    } else {
        line
    }
}

/// The Markdown of all items, in order.
pub open spec fn item_lines(items: Seq<CheckOutcome>) -> Seq<char>
    decreases items.len(),
{
    if items.len() == 0 {
        Seq::empty()
    } else {
        item_lines(items.drop_last()) + item_text(items.last())
    }
}

/// The summary line of the checklist.
pub open spec fn summary_line(items: Seq<CheckOutcome>) -> Seq<char> {
    if none_failed(items) {
        "**Result: PASS** ("@ + decimal(count_status(items, CheckStatus::Skipped)) + " skipped)"@
    } else {
        "**Result: FAIL** ("@ + decimal(count_status(items, CheckStatus::Fail)) + " failed, "@
            + decimal(count_status(items, CheckStatus::Skipped)) + " skipped)"@
    }
}

/// The whole checklist: heading, a blank line, the items, a blank line and
/// the summary.
pub open spec fn checklist_markdown(items: Seq<CheckOutcome>) -> Seq<char> {
    "## EGR Delete Validation Checklist\n\n"@ + item_lines(items) + "\n"@ + summary_line(items)
}

/// A report passes exactly when none of its items failed.
pub proof fn lemma_pass_iff_no_failures(items: Seq<CheckOutcome>)
    ensures
        none_failed(items) <==> count_status(items, CheckStatus::Fail) == 0,
    decreases items.len(),
{
    if items.len() > 0 {
        let pre = items.drop_last();
        lemma_pass_iff_no_failures(pre);
        if none_failed(items) {
            assert forall|i: int| 0 <= i < pre.len() implies #[trigger] pre[i].status != CheckStatus::Fail by {
                assert(pre[i] == items[i]);
            }
            assert(items[items.len() - 1].status != CheckStatus::Fail);
        }
        if count_status(items, CheckStatus::Fail) == 0 {
            assert forall|i: int| 0 <= i < items.len() implies #[trigger] items[i].status != CheckStatus::Fail by {
                if i < pre.len() {
                    assert(pre[i] == items[i]);
                }
            }
        }
    }
}

/// Failed and skipped items together never outnumber the items.
pub proof fn lemma_counts_bounded(items: Seq<CheckOutcome>)
    ensures
        count_status(items, CheckStatus::Fail) + count_status(items, CheckStatus::Skipped)
            + count_status(items, CheckStatus::Pass) == items.len(),
    decreases items.len(),
{
    if items.len() > 0 {
        lemma_counts_bounded(items.drop_last());
    }
}

// ---------------------------------------------------------------------------
// Outcome constructors
// ---------------------------------------------------------------------------

/// A passed item.
pub fn pass(id: u8, title: &str, observed: String) -> (r: CheckOutcome)
    ensures
        r.id == id,
        r.title@ == title@,
        r.status == CheckStatus::Pass,
        r.observed == observed,
        r.remediation@ == Seq::<char>::empty(),
{
    CheckOutcome {
        id,
        title: String::from_str(title),
        status: CheckStatus::Pass,
        observed,
        remediation: String::new(),
    }
}

/// A failed item with its remediation.
pub fn fail(id: u8, title: &str, observed: String, remediation: &str) -> (r: CheckOutcome)
    ensures
        r.id == id,
        r.title@ == title@,
        r.status == CheckStatus::Fail,
        r.observed == observed,
        r.remediation@ == remediation@,
{
    CheckOutcome {
        id,
        title: String::from_str(title),
        status: CheckStatus::Fail,
        observed,
        remediation: String::from_str(remediation),
    }
}

/// A skipped item; the reason is reported as the observation.
pub fn skipped(id: u8, title: &str, reason: &str) -> (r: CheckOutcome)
    ensures
        r.id == id,
        r.title@ == title@,
        r.status == CheckStatus::Skipped,
        r.observed@ == reason@,
        r.remediation@ == Seq::<char>::empty(),
{
    CheckOutcome {
        id,
        title: String::from_str(title),
        status: CheckStatus::Skipped,
        observed: String::from_str(reason),
        remediation: String::new(),
    }
}

// ---------------------------------------------------------------------------
// Checks that read no channel
// ---------------------------------------------------------------------------

/// Observation of a DTC check when no scan was provided.
pub const NO_DTC_SCAN: &'static str = "no DTC scan provided (sidecar missing or empty)";

/// The codes of `codes` that the scan reports, in order.
pub open spec fn present_codes(codes: Seq<&'static str>, dtcs: Seq<Seq<char>>) -> Seq<&'static str> {
    crate::rules::pack::reported_among(codes, dtcs)
}

fn present_among(codes: &[&'static str], dtcs: &[String]) -> (r: Vec<&'static str>)
    ensures
        r@ == present_codes(codes@, views(dtcs@)),
{
    let n = codes.len();
    let mut out: Vec<&'static str> = Vec::new();
    let mut i: usize = 0;
    while i < n
        invariant
            n == codes@.len(),
            i <= n,
            out@ == present_codes(codes@.take(i as int), views(dtcs@)),
        decreases n - i,
    {
        assert(codes@.take(i + 1).drop_last() =~= codes@.take(i as int));
        assert(codes@.take(i + 1).last() == codes@[i as int]);
        if crate::rules::pack::reported(dtcs, codes[i]) {
            out.push(codes[i]);
        }
        i = i + 1;
    }
    assert(codes@.take(n as int) =~= codes@);
    out
}

/// A DTC check over the codes `codes`: skipped without a scan, passed when
/// none of the codes is reported, failed listing the reported ones.
pub open spec fn dtc_check_ok(
    r: CheckOutcome,
    id: u8,
    title: Seq<char>,
    codes: Seq<&'static str>,
    clean: Seq<char>,
    remediation: Seq<char>,
    dtcs: Seq<Seq<char>>,
) -> bool {
    let hits = present_codes(codes, dtcs);
    &&& r.id == id
    &&& r.title@ == title
    &&& if dtcs.len() == 0 {
        r.status == CheckStatus::Skipped && r.observed@ == NO_DTC_SCAN@ && r.remediation@.len() == 0
    } else if hits.len() == 0 {
        r.status == CheckStatus::Pass && r.observed@ == clean && r.remediation@.len() == 0
    } else {
        &&& r.status == CheckStatus::Fail
        &&& r.observed@ == "present: "@ + join_sep(str_views(hits), ", "@)
        &&& r.remediation@ == remediation
    }
}

fn dtc_check(
    id: u8,
    title: &str,
    codes: &[&'static str],
    clean: &str,
    remediation: &str,
    dtcs: &[String],
) -> (r: CheckOutcome)
    ensures
        dtc_check_ok(r, id, title@, codes@, clean@, remediation@, views(dtcs@)),
{
    if dtcs.len() == 0 {
        return skipped(id, title, NO_DTC_SCAN);
    }
    let hits = present_among(codes, dtcs);
    if hits.len() == 0 {
        pass(id, title, String::from_str(clean))
    } else {
        let mut observed = String::from_str("present: ");
        push_joined(&mut observed, hits.as_slice(), ", ");
        fail(id, title, observed, remediation)
    }
}

/// Codes of check 6.
pub const CHECK6_CODES: [&'static str; 2] = ["P0401", "P0402"];

/// Codes of check 7.
pub const CHECK7_CODES: [&'static str; 1] = ["P0403"];

/// Codes of check 8.
pub const CHECK8_CODES: [&'static str; 3] = ["P0404", "P0405", "P0406"];

/// Check 6: no P0401 / P0402 in the DTC scan.
pub fn check6_no_p0401_p0402(dtcs: &[String]) -> (r: CheckOutcome)
    ensures
        dtc_check_ok(
            r,
            6,
            "No P0401 / P0402 in DTC scan"@,
            CHECK6_CODES@,
            "no P0401/P0402 in scan"@,
            "Widen DTC threshold or zero the DTC enable flag."@,
            views(dtcs@),
        ),
{
    dtc_check(
        6,
        "No P0401 / P0402 in DTC scan",
        &CHECK6_CODES,
        "no P0401/P0402 in scan",
        "Widen DTC threshold or zero the DTC enable flag.",
        dtcs,
    )
}

/// Check 7: no P0403 (solenoid wiring) in the DTC scan.
pub fn check7_no_p0403(dtcs: &[String]) -> (r: CheckOutcome)
    ensures
        dtc_check_ok(
            r,
            7,
            "No P0403 (solenoid wiring) in DTC scan"@,
            CHECK7_CODES@,
            "no P0403 in scan"@,
            "Real wiring fault on the still-installed EGR solenoid — investigate, do NOT just suppress."@,
            views(dtcs@),
        ),
{
    dtc_check(
        7,
        "No P0403 (solenoid wiring) in DTC scan",
        &CHECK7_CODES,
        "no P0403 in scan",
        "Real wiring fault on the still-installed EGR solenoid — investigate, do NOT just suppress.",
        dtcs,
    )
}

/// Check 8: no P0404 / P0405 / P0406 in the DTC scan.
pub fn check8_no_p0404_to_p0406(dtcs: &[String]) -> (r: CheckOutcome)
    ensures
        dtc_check_ok(
            r,
            8,
            "No P0404 / P0405 / P0406 in DTC scan"@,
            CHECK8_CODES@,
            "no P0404/P0405/P0406 in scan"@,
            "Unusual on AMF (no EGR position sensor) — investigate before suppressing."@,
            views(dtcs@),
        ),
{
    dtc_check(
        8,
        "No P0404 / P0405 / P0406 in DTC scan",
        &CHECK8_CODES,
        "no P0404/P0405/P0406 in scan",
        "Unusual on AMF (no EGR position sensor) — investigate before suppressing.",
        dtcs,
    )
}

/// Observation of check 10.
pub const CHECK10_OBSERVED: &'static str = "Subjective: log marker / driver note required. \
     If complaint, apply −1.0° SOI retard cruise band (R18 / SOI_warm_cruise).";

/// Remediation of check 10.
pub const CHECK10_REMEDIATION: &'static str =
    "Driver-marker required: add a log marker or driver note on cruise feel; \
     if there is a complaint, apply the −1.0° SOI retard in the cruise band (R18 / SOI_warm_cruise).";

/// Check 10: the cruise NVH proxy is subjective and can never pass from a
/// log alone; it is always skipped and asks for a driver marker.
pub fn check10_cruise_nvh_proxy() -> (r: CheckOutcome)
    ensures
        r.id == 10,
        r.title@ == "Cruise NVH proxy (subjective)"@,
        r.status == CheckStatus::Skipped,
        r.observed@ == CHECK10_OBSERVED@,
        r.remediation@ == CHECK10_REMEDIATION@,
{
    let mut r = skipped(10, "Cruise NVH proxy (subjective)", CHECK10_OBSERVED);
    r.remediation = String::from_str(CHECK10_REMEDIATION);
    r
}

/// Observation of check 15.
pub const CHECK15_OBSERVED: &'static str = "Mandate: 0x51C30 / 0x71C30 stays at 0x00 (MAF-based). \
         Verify by reading the bin if available.";

/// Check 15: the MAP/MAF smoke-limiter switch cannot be read from a log;
/// it always passes as a reminder.
pub fn check15_smoke_switch_unchanged() -> (r: CheckOutcome)
    ensures
        r.id == 15,
        r.title@ == "MAP/MAF smoke-limiter switch unchanged"@,
        r.status == CheckStatus::Pass,
        r.observed@ == CHECK15_OBSERVED@,
        r.remediation@.len() == 0,
{
    pass(15, "MAP/MAF smoke-limiter switch unchanged", String::from_str(CHECK15_OBSERVED))
}

} // verus!
