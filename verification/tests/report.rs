use ecu_shenanigans::platform::amf_edc15p::default_deltas::default_delta;
use ecu_shenanigans::recommend::engine::{plan_row, RowPlan};
use ecu_shenanigans::recommend::engine::{
    firing_rules, leave_stock_recommendation, not_fired_recommendation, rationale_with_cap,
    row_is_live, FindingKey, Recommendation, Status,
};
use ecu_shenanigans::recommend::report::{findings_order, pull_label, recommendation_row};
use ecu_shenanigans::ingest::vcds::ParseWarning;
use ecu_shenanigans::platform::amf_edc15p::egr::{recommend_egr_delete_deltas, N_EGR_DELETE_DELTAS};
use ecu_shenanigans::recommend::page::{render_report, FindingRow, PullSummary, ReportMeta};
use ecu_shenanigans::rules::base::Severity;
use ecu_shenanigans::validate::egr_delete::{check10_cruise_nvh_proxy, ValidationReport};

fn key(rule_id: &str, severity: Severity, pull_id: u32, skipped: bool) -> FindingKey {
    FindingKey { rule_id: rule_id.to_string(), severity, pull_id, skipped }
}

#[test]
fn status_strings() {
    assert_eq!(Status::Apply.as_str(), "APPLY");
    assert_eq!(Status::Skip.as_str(), "SKIP");
    assert_eq!(Status::Blocked.as_str(), "BLOCKED — envelope cap");
}

#[test]
fn firing_rules_ignore_info_and_skipped() {
    let fs = vec![
        key("R07", Severity::Critical, 1, false),
        key("R02", Severity::Warn, 2, false),
        key("R11", Severity::Info, 1, false),
        key("R09", Severity::Critical, 1, true),
        key("R02", Severity::Critical, 1, false),
    ];
    assert_eq!(firing_rules(&fs), vec!["R02", "R07"]);
    assert!(firing_rules(&[]).is_empty());
}

#[test]
fn rationale_cap_suffix() {
    assert_eq!(rationale_with_cap("note", ""), "note");
    assert_eq!(rationale_with_cap("note", "boost cap"), "note\n  CAP: boost cap");
}

#[test]
fn rows_gate_on_their_rules() {
    let firing = vec!["R02".to_string(), "R07".to_string()];
    assert!(row_is_live(&[], &firing));
    assert!(row_is_live(&["R03", "R02"], &firing));
    assert!(!row_is_live(&["R04"], &firing));
    assert!(!row_is_live(&["R04"], &[]));
}

#[test]
fn not_fired_row_text() {
    let r = not_fired_recommendation("LDRXN", "rpm 2000-3500", &["R02", "R03"]);
    assert_eq!(r.status, Status::Skip);
    assert_eq!(r.proposed_value_text, "—");
    assert_eq!(r.rationale, "No triggering rule fired (R02, R03); leave stock.");
    assert_eq!(r.rule_refs, vec!["R02", "R03"]);
    assert!(r.blocked_cap.is_none());
}

#[test]
fn leave_stock_row_text() {
    let r = leave_stock_recommendation("SVBL", "scalar", "Last line of defence — never touch.", &[]);
    assert_eq!(r.status, Status::Skip);
    assert_eq!(r.proposed_value_text, "leave stock");
    assert_eq!(r.rationale, "Last line of defence — never touch.");
    assert!(r.rule_refs.is_empty());
}

#[test]
fn findings_sorted_by_severity_then_id_then_pull() {
    let keys = vec![
        key("R11", Severity::Info, 1, false),
        key("R07", Severity::Critical, 2, false),
        key("R02", Severity::Critical, 3, false),
        key("R07", Severity::Critical, 1, false),
        key("R01", Severity::Warn, 1, false),
        key("R07", Severity::Critical, 1, true),
    ];
    assert_eq!(findings_order(&keys), vec![2, 3, 5, 1, 4, 0]);
    assert!(findings_order(&[]).is_empty());
}

#[test]
fn pull_labels() {
    assert_eq!(pull_label(0), "G");
    assert_eq!(pull_label(7), "7");
    assert_eq!(pull_label(12), "12");
}

#[test]
fn recommendation_row_markdown() {
    let r = Recommendation {
        map_name: "Torque_Limiter".to_string(),
        cell_selector: "full surface".to_string(),
        status: Status::Blocked,
        proposed_value_text: "BLOCKED — clamped to 240".to_string(),
        rationale: "line one\n  CAP: torque".to_string(),
        rule_refs: vec!["R08".to_string(), "R07".to_string()],
        blocked_cap: Some("modelled_flywheel_torque_nm".to_string()),
    };
    assert_eq!(
        recommendation_row(&r),
        "| `Torque_Limiter` | full surface | **BLOCKED — envelope cap** | BLOCKED — clamped to 240 | R08, R07 | line one<br>  CAP: torque |"
    );
    let s = Recommendation { rule_refs: Vec::new(), rationale: "plain".to_string(), ..r };
    assert!(recommendation_row(&s).contains("| — | plain |"));
}

#[test]
fn rows_are_planned_by_kind_and_gate() {
    let none: Vec<String> = Vec::new();
    let all: Vec<String> = ["R01", "R02", "R04", "R06", "R07", "R08", "R09", "R18", "R21", "R22"]
        .iter().map(|s| s.to_string()).collect();
    assert_eq!(plan_row(&default_delta(0), true, &none), RowPlan::NotFired);
    assert_eq!(plan_row(&default_delta(0), true, &all), RowPlan::BoostDelta { rpm_for_clamp: 3500 });
    assert_eq!(plan_row(&default_delta(1), true, &all), RowPlan::BoostDelta { rpm_for_clamp: 4000 });
    assert_eq!(plan_row(&default_delta(6), true, &all), RowPlan::TorqueCap);
    assert_eq!(plan_row(&default_delta(4), false, &all), RowPlan::LambdaFloor);
    assert_eq!(plan_row(&default_delta(7), true, &all), RowPlan::SoiDelta { probe_iq_mg: 45 });
    assert_eq!(plan_row(&default_delta(21), true, &all), RowPlan::SoiDelta { probe_iq_mg: 10 });
    assert_eq!(plan_row(&default_delta(9), false, &none), RowPlan::SvblStock);
    assert_eq!(plan_row(&default_delta(15), true, &none), RowPlan::ZeroEgr);
    assert_eq!(plan_row(&default_delta(19), false, &none), RowPlan::LeaveStock);
    assert_eq!(plan_row(&default_delta(3), false, &all), RowPlan::Unsupported);
    assert_eq!(plan_row(&default_delta(24), false, &none), RowPlan::FanRunOn);
}

#[test]
fn egr_delete_set_has_the_six_rows() {
    let d = recommend_egr_delete_deltas();
    assert_eq!(d.len(), N_EGR_DELETE_DELTAS);
    let names: Vec<&str> = d.iter().map(|m| m.map_name.as_str()).collect();
    assert_eq!(
        names,
        vec!["AGR_arwMEAB0KL", "arwMLGRDKF", "DTC_thresholds", "MAF_MAP_smoke_switch", "Idle_fuel", "SOI_warm_cruise"]
    );
    assert_eq!(d[0].action, "set to 0% (valve-closed-fill, polarity per loaded file)");
    assert_eq!(d[0].value_tenths, Some(0));
    assert_eq!(d[1].action, "fill 850 mg/stroke (Strategy B — saturated)");
    assert_eq!(d[1].value_tenths, Some(8500));
    assert_eq!(d[2].cell_selector, "P0401, P0402, P0403, P0404, P0405, P0406 entries");
    assert_eq!(d[2].value_tenths, None);
    assert_eq!(d[3].action, "LEAVE STOCK at 0x00 (MAF-based smoke limiting)");
    assert_eq!(d[4].cell_selector, "warm idle (T_coolant ≥ 80°C, IQ ≤ 8 mg)");
    assert!(d[4].action.contains("R21 idle-stability"));
    assert_eq!(d[4].value_tenths, Some(-15));
    assert_eq!(d[5].cell_selector, "1500-2500 rpm × 5-15 mg, warm SOI maps 0..3");
    assert_eq!(d[5].action, "−1° BTDC (NVH mitigation)");
    assert_eq!(d[5].value_tenths, Some(-10));
}

fn meta(warnings: Vec<ParseWarning>) -> ReportMeta {
    ReportMeta {
        source: "log.csv".to_string(),
        generated: "2024-01-01T00:00:00Z".to_string(),
        groups: vec!["003".to_string(), "011".to_string()],
        median_interval_ms: "250".to_string(),
        low_rate: false,
        dtcs: vec![],
        warnings,
        envelope_line: "ENVELOPE".to_string(),
        no_pull_line: "NO PULLS".to_string(),
    }
}

fn row(rule: &str, sev: Severity, pull: u32, skipped: bool, why: &str) -> FindingRow {
    FindingRow {
        key: key(rule, sev, pull, skipped),
        observed: "10".to_string(),
        threshold: "5".to_string(),
        rationale: why.to_string(),
    }
}

#[test]
fn report_sections_without_pulls() {
    let md = render_report(&meta(vec![]), &vec![], &vec![], &[], &[], None);
    assert!(md.starts_with("# ecu-shenanigans — Analysis report\n\n> **`ecu-shenanigans`"));
    assert!(md.contains("- Source: `log.csv`\n"));
    assert!(md.contains("- Groups present: `003, 011`\n"));
    assert!(md.contains("- Median sample interval: `250 ms`\n"));
    assert!(md.contains("- Pulls detected: `0`\n"));
    assert!(md.contains("- DTCs from sidecar: `(none / no sidecar)`\n"));
    assert!(!md.contains("## Parser warnings"));
    assert!(md.contains("## EGR Delete Strategy"));
    assert!(md.contains("| `AGR_arwMEAB0KL` | all cells, both banks |"));
    assert!(md.contains("| `arwMLGRDKF` | all cells, both banks | fill 850 mg/stroke"));
    assert!(md.contains("\nENVELOPE\n"));
    assert!(md.contains("## No WOT pulls detected\nNO PULLS\n"));
    assert!(!md.contains("## Findings"));
    assert!(!md.contains("## Per-pull summary"));
    assert!(md.contains("## Recommendation table"));
    assert!(!md.contains("## Rules SKIPPED"));
    assert!(md.ends_with("|---|---|---|---|---|---|\n"));
}

#[test]
fn report_findings_pulls_skipped_and_checklist() {
    let w = vec![ParseWarning { code: "LOW_RATE".to_string(), message: "slow".to_string() }];
    let findings = vec![
        row("R11", Severity::Info, 1, false, "cold"),
        row("R02", Severity::Critical, 1, false, "spike\nhigh"),
        row("R05", Severity::Warn, 2, true, "skipped one"),
        row("R19", Severity::Critical, 0, false, "dtc"),
    ];
    let pulls = vec![
        PullSummary { pull_id: 1, heading: "### Pull 1".to_string() },
        PullSummary { pull_id: 2, heading: "### Pull 2".to_string() },
    ];
    let report = ValidationReport { items: vec![check10_cruise_nvh_proxy()] };
    let md = render_report(&meta(w), &findings, &pulls, &[], &["R12".to_string()], Some(&report));
    assert!(md.contains("## Parser warnings\n- **LOW_RATE**: slow\n\n"));
    assert!(!md.contains("## No WOT pulls detected"));
    assert!(md.contains("- Pulls detected: `2`\n"));
    let table = "| 1 | `R02` | critical | 10 | 5 | spike high |\n\
                 | G | `R19` | critical | 10 | 5 | dtc |\n\
                 | 2 | `R05` | warn | — | — | skipped one |\n\
                 | 1 | `R11` | info | 10 | 5 | cold |\n";
    assert!(md.contains(table));
    assert!(md.contains(
        "### Pull 1\n- **[INFO] R11** — cold (observed 10, threshold 5)\n\
         - **[CRITICAL] R02** — spike high (observed 10, threshold 5)\n\n"
    ));
    assert!(md.contains("### Pull 2\n- No findings; pull is within envelope.\n\n"));
    assert!(md.contains("## Rules SKIPPED (group missing)\n- `R12`\n\n"));
    assert!(md.contains("## EGR Delete Validation Checklist"));
    assert!(md.ends_with("\n"));
}
