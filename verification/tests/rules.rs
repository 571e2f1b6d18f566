use ecu_shenanigans::rules::base::{severity_rank, skipped_rationale, RuleScope, Severity};
use ecu_shenanigans::rules::pack::{
    all_rules, plan_rule, r19_verdict, DtcVerdict, RuleId, RulePlan, ALL_RULE_IDS, R19_ACTION_GROUP_B,
    R19_ACTION_WIDEN, R19_ACTION_WIRING,
};
use ecu_shenanigans::util::runs::{and_masks, has_run_at_least, true_runs};

fn strings(v: &[&str]) -> Vec<String> {
    v.iter().map(|s| s.to_string()).collect()
}

#[test]
fn a1_rule_count_is_23() {
    assert_eq!(all_rules().len(), 23, "rule pack must dispatch exactly 23 rules");
    assert_eq!(ALL_RULE_IDS.len(), 23, "RuleId enum iteration must cover 23 ids");
}

#[test]
fn a1_each_rule_has_unique_id_and_canonical_severity() {
    let mut seen: std::collections::BTreeSet<&'static str> = std::collections::BTreeSet::new();
    for rule in all_rules() {
        assert!(seen.insert(rule.id), "duplicate rule id {}", rule.id);
        let _ = rule.severity;
    }
}

#[test]
fn a6_r17_reads_pedal_pct_not_tps_pct() {
    let r17 = all_rules().into_iter().find(|r| r.id == "R17").expect("R17 must exist");
    assert!(r17.requires_channels.contains(&"pedal_pct"),
        "R17 must declare pedal_pct in required channels");
    assert!(!r17.requires_channels.contains(&"tps_pct"),
        "R17 must NOT use tps_pct (anti-shudder valve, not driver pedal)");
}

#[test]
fn a7_r10_baseline_severity_is_warn() {
    let r10 = all_rules().into_iter().find(|r| r.id == "R10").expect("R10 must exist");
    assert_eq!(r10.severity, Severity::Warn, "R10 baseline must be Warn — no LOW_RATE downgrade");
}

#[test]
fn a7_r09_baseline_severity_is_critical() {
    let r09 = all_rules().into_iter().find(|r| r.id == "R09").expect("R09 must exist");
    assert_eq!(r09.severity, Severity::Critical,
        "R09 baseline must be Critical (downgrade to Warn under LOW_RATE handled in dispatch)");
}

#[test]
fn rule_scope_is_explicit_for_global_rules() {
    let global_ids: Vec<&'static str> = all_rules().iter()
        .filter(|r| r.scope == RuleScope::Global)
        .map(|r| r.id)
        .collect();
    for id in ["R16", "R19", "R21"] {
        assert!(global_ids.contains(&id), "{id} must be RuleScope::Global, got: {global_ids:?}");
    }
    assert_eq!(global_ids.len(), 3);
}

#[test]
fn all_rule_ids_have_distinct_string_ids() {
    let mut seen: std::collections::HashSet<&'static str> = std::collections::HashSet::new();
    for &id in ALL_RULE_IDS.iter() {
        assert!(seen.insert(id.as_str()),
            "RuleId::{} produces duplicate string id {}", id.as_str(), id.as_str());
    }
    assert_eq!(seen.len(), 23, "rule pack has 23 rules");
}

#[test]
fn rule_id_iteration_order_matches_canonical() {
    let names: Vec<&str> = ALL_RULE_IDS.iter().map(|id| id.as_str()).collect();
    assert_eq!(names, vec![
        "R01", "R02", "R03", "R04", "R05", "R06", "R07",
        "R08", "R09", "R10", "R11", "R12", "R13", "R14", "R15",
        "R16", "R17", "R18", "R19", "R20", "R21", "R22", "R23",
    ]);
}

#[test]
fn descriptor_carries_its_id() {
    for &id in ALL_RULE_IDS.iter() {
        assert_eq!(id.rule().id, id.as_str());
    }
    let r19 = RuleId::R19.rule();
    assert!(r19.requires_groups.is_empty());
    assert_eq!(r19.recommended_delta_ref, Some("DTC_thresholds"));
    assert_eq!(RuleId::R06.rule().requires_groups, &["003", "008"]);
}

#[test]
fn severity_rank_and_strings() {
    assert!(severity_rank(Severity::Info) < severity_rank(Severity::Warn));
    assert!(severity_rank(Severity::Warn) < severity_rank(Severity::Critical));
    assert_eq!(Severity::Critical.as_str(), "critical");
    assert_eq!(Severity::Info.as_str(), "info");
    assert!(Severity::Info < Severity::Critical);
}

#[test]
fn skipped_rationale_prefix() {
    assert_eq!(skipped_rationale("channels missing"), "SKIPPED — channels missing");
}

#[test]
fn r19_fires_on_egr_dtcs() {
    match r19_verdict(&strings(&["P0401", "p0403"])) {
        DtcVerdict::Fires { suspect, action, rationale } => {
            assert_eq!(suspect, vec!["P0401", "P0403"]);
            assert_eq!(action, R19_ACTION_WIRING);
            assert!(action.contains("P0403"));
            assert!(rationale.ends_with(" (observed: P0401, P0403)"));
            assert_eq!(RuleId::R19.rule().severity, Severity::Warn);
        }
        other => panic!("R19 must fire, got {other:?}"),
    }
}

#[test]
fn r19_quiet_when_no_egr_dtcs_present() {
    assert!(matches!(r19_verdict(&strings(&["P0300"])), DtcVerdict::Quiet));
}

#[test]
fn r19_skipped_without_a_scan() {
    assert!(matches!(r19_verdict(&[]), DtcVerdict::Skipped));
}

#[test]
fn r19_actions_follow_the_codes() {
    match r19_verdict(&strings(&["P0405", "P0404"])) {
        DtcVerdict::Fires { suspect, action, .. } => {
            assert_eq!(suspect, vec!["P0404", "P0405"]);
            assert_eq!(action, R19_ACTION_GROUP_B);
        }
        other => panic!("R19 must fire, got {other:?}"),
    }
    match r19_verdict(&strings(&["P0402", "P0406"])) {
        DtcVerdict::Fires { action, .. } => assert_eq!(action, R19_ACTION_WIDEN),
        other => panic!("R19 must fire, got {other:?}"),
    }
}

#[test]
fn plan_skips_rules_with_missing_groups() {
    let groups = strings(&["001", "003"]);
    match plan_rule(&RuleId::R09.rule(), &groups, 2) {
        RulePlan::Skip { reason, per_pull } => {
            assert_eq!(reason, "required VCDS group(s) [\"020\", \"008\"] not present");
            assert!(per_pull);
        }
        other => panic!("R09 must be skipped, got {other:?}"),
    }
    match plan_rule(&RuleId::R09.rule(), &groups, 0) {
        RulePlan::Skip { per_pull, .. } => assert!(!per_pull),
        other => panic!("R09 must be skipped, got {other:?}"),
    }
    assert!(matches!(plan_rule(&RuleId::R05.rule(), &groups, 2), RulePlan::EachPull));
    assert!(matches!(plan_rule(&RuleId::R16.rule(), &groups, 2), RulePlan::WholeLog));
    assert!(matches!(plan_rule(&RuleId::R19.rule(), &[], 0), RulePlan::WholeLog));
    match plan_rule(&RuleId::R21.rule(), &[], 3) {
        RulePlan::Skip { reason, per_pull } => {
            assert_eq!(reason, "required VCDS group(s) [\"001\"] not present");
            assert!(!per_pull);
        }
        other => panic!("R21 must be skipped, got {other:?}"),
    }
}

#[test]
fn runs_are_maximal_and_ordered() {
    let mask = vec![true, true, false, false, true, false, true, true, true];
    assert_eq!(true_runs(&mask), vec![(0, 2), (4, 5), (6, 9)]);
    assert!(true_runs(&vec![false, false]).is_empty());
    assert!(true_runs(&Vec::new()).is_empty());
    assert_eq!(true_runs(&vec![true]), vec![(0, 1)]);
}

#[test]
fn long_run_detection() {
    let mask = vec![true, true, false, true, true, true, false];
    assert!(has_run_at_least(&mask, 3));
    assert!(!has_run_at_least(&mask, 4));
    assert!(has_run_at_least(&mask, 1));
    assert!(!has_run_at_least(&vec![false; 5], 1));
    let runs = true_runs(&mask);
    assert!(runs.iter().any(|(s, e)| e - s >= 3));
    assert!(!runs.iter().any(|(s, e)| e - s >= 4));
}

#[test]
fn masks_combine_samplewise() {
    assert_eq!(and_masks(&vec![true, true, false], &vec![true, false, false]), vec![true, false, false]);
}
