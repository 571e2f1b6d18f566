use ecu_shenanigans::validate::egr_delete::{
    check10_cruise_nvh_proxy, check15_smoke_switch_unchanged, check6_no_p0401_p0402,
    check7_no_p0403, check8_no_p0404_to_p0406, fail, pass, skipped, CheckStatus, ValidationReport,
};

fn strings(v: &[&str]) -> Vec<String> {
    v.iter().map(|s| s.to_string()).collect()
}

#[test]
fn status_strings_and_glyphs() {
    assert_eq!(CheckStatus::Pass.as_str(), "PASS");
    assert_eq!(CheckStatus::Fail.glyph(), "[ ]");
    assert_eq!(CheckStatus::Skipped.glyph(), "[-]");
    assert_eq!(CheckStatus::Pass.glyph(), "[x]");
}

#[test]
fn a14_validation_item_10_always_skipped() {
    let item10 = check10_cruise_nvh_proxy();
    assert_eq!(item10.id, 10);
    assert_eq!(item10.status, CheckStatus::Skipped,
        "item 10 (cruise NVH subjective) is always Skipped");
    assert!(item10.remediation.contains("Driver-marker required"),
        "item 10 must surface the 'Driver-marker required' note");
}

#[test]
fn smoke_switch_reminder_always_passes() {
    let item = check15_smoke_switch_unchanged();
    assert_eq!(item.id, 15);
    assert_eq!(item.status, CheckStatus::Pass);
}

#[test]
fn p0403_fails_check7() {
    let item7 = check7_no_p0403(&strings(&["P0401", "p0403"]));
    assert_eq!(item7.status, CheckStatus::Fail);
    assert!(item7.remediation.contains("wiring fault"));
    assert_eq!(item7.observed, "present: P0403");
}

#[test]
fn dtc_checks_pass_on_a_clean_scan_and_skip_without_one() {
    let clean = strings(&["P0300"]);
    assert_eq!(check6_no_p0401_p0402(&clean).status, CheckStatus::Pass);
    assert_eq!(check6_no_p0401_p0402(&clean).observed, "no P0401/P0402 in scan");
    assert_eq!(check8_no_p0404_to_p0406(&clean).status, CheckStatus::Pass);
    let none = check6_no_p0401_p0402(&[]);
    assert_eq!(none.status, CheckStatus::Skipped);
    assert_eq!(none.observed, "no DTC scan provided (sidecar missing or empty)");
}

#[test]
fn dtc_checks_list_the_codes_present() {
    let dtcs = strings(&["P0406", "P0402", "P0404", "P0401"]);
    let c6 = check6_no_p0401_p0402(&dtcs);
    assert_eq!(c6.status, CheckStatus::Fail);
    assert_eq!(c6.observed, "present: P0401, P0402");
    let c8 = check8_no_p0404_to_p0406(&dtcs);
    assert_eq!(c8.observed, "present: P0404, P0406");
    assert_eq!(check7_no_p0403(&dtcs).status, CheckStatus::Pass);
}

fn sample_report() -> ValidationReport {
    ValidationReport {
        items: vec![
            pass(1, "EGR duty zero at warm idle", "max EGR duty at idle = 0.5% (60 samples)".to_string()),
            skipped(2, "EGR duty zero at cruise", "rpm channel missing"),
            fail(3, "EGR duty zero at WOT", "max EGR duty at WOT = 12.0%".to_string(), "Raise spec-MAF further."),
        ],
    }
}

#[test]
fn report_counts_and_pass_flag() {
    let r = sample_report();
    assert!(!r.pass());
    assert_eq!(r.failed(), 1);
    assert_eq!(r.skipped(), 1);
    let ok = ValidationReport { items: vec![check15_smoke_switch_unchanged(), check10_cruise_nvh_proxy()] };
    assert!(ok.pass());
    assert_eq!(ok.failed(), 0);
    let empty = ValidationReport { items: Vec::new() };
    assert!(empty.pass());
}

#[test]
fn report_markdown_renders_glyphs() {
    let md = sample_report().to_markdown();
    assert_eq!(md, "## EGR Delete Validation Checklist\n\n\
        - [x] **1.** EGR duty zero at warm idle — `PASS` — observed: max EGR duty at idle = 0.5% (60 samples)\n\
        - [-] **2.** EGR duty zero at cruise — `SKIPPED` — observed: rpm channel missing\n\
        - [ ] **3.** EGR duty zero at WOT — `FAIL` — observed: max EGR duty at WOT = 12.0%\n    \
        - Remediation: Raise spec-MAF further.\n\
        \n\
        **Result: FAIL** (1 failed, 1 skipped)");
    let ok = ValidationReport { items: vec![check10_cruise_nvh_proxy()] }.to_markdown();
    assert!(ok.contains("[-]"), "skipped items render with [-]");
    assert!(ok.ends_with("**Result: PASS** (1 skipped)"));
    assert!(ok.contains("**Result:"), "summary line present");
}
