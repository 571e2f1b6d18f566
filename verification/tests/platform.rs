use ecu_shenanigans::disclaimer::DISCLAIMER;
use ecu_shenanigans::platform::amf_edc15p::channels::{channel, CHANNELS, MIN_REQUIRED_GROUPS, NOT_LOGGED};
use ecu_shenanigans::platform::amf_edc15p::default_deltas::{default_delta, default_deltas, DeltaKind, N_DEFAULT_DELTAS};
use ecu_shenanigans::platform::amf_edc15p::egr::{
    DTC_GROUP_B, DTC_LIST_TO_SUPPRESS, DTC_WIRING_FAULTS, EGR_DUTY_MAP_NAME, SPEC_MAF_MAP_NAME,
};
use ecu_shenanigans::platform::amf_edc15p::envelope::{
    clamp_fan_on_c, clamp_fan_run_on_s, fan_run_on_text, fan_thresholds_text, FAN_ON_MAX_C, FAN_ON_MIN_C,
    FAN_RUN_ON_TOTAL_MAX_S,
};
use ecu_shenanigans::platform::amf_edc15p::maps::{get_map, MAPS};
use ecu_shenanigans::platform::amf_edc15p::stock_refs::{boost_ref_point, STOCK_BOOST_RAMP, N_BOOST_ANCHORS};
use ecu_shenanigans::platform::amf_edc15p::{PLATFORM_DISPLAY, PLATFORM_ID};
use ecu_shenanigans::rules::pack::ALL_RULE_IDS;

#[test]
fn rpm_is_registered() {
    let c = channel("rpm").expect("rpm channel must exist");
    assert_eq!(c.unit, "rpm");
}

#[test]
fn unknown_channel_returns_none() {
    assert!(channel("definitely_not_a_channel").is_none());
}

#[test]
fn min_groups_are_unique() {
    let mut groups: Vec<_> = MIN_REQUIRED_GROUPS.to_vec();
    groups.sort_unstable();
    groups.dedup();
    assert_eq!(groups.len(), MIN_REQUIRED_GROUPS.len());
}

#[test]
fn channel_names_are_unique() {
    let mut seen: Vec<&str> = CHANNELS.iter().map(|c| c.0).collect();
    seen.sort_unstable();
    let original = seen.len();
    seen.dedup();
    assert_eq!(original, seen.len(), "duplicate channel name in registry");
}

#[test]
fn vehicle_speed_sourced_from_group_005() {
    let vss = channel("vehicle_speed").expect("vehicle_speed must exist");
    assert!(vss.source.starts_with("005-"),
        "vehicle_speed source must be group 005, got: {}", vss.source);
}

#[test]
fn pedal_pct_lives_at_group_010_field_4() {
    let p = channel("pedal_pct").expect("pedal_pct must be registered");
    assert_eq!(p.source, "010-4");
    assert!(!p.source.contains("002"),
        "pedal_pct must not reference group 002 (idle-speed group, not pedal %)");
}

#[test]
fn no_tps_pct_channel_exists() {
    assert!(channel("tps_pct").is_none(),
        "tps_pct must not be registered — TDI has no TPS");
    let m = channel("map_abs_010").expect("map_abs_010 must replace the old tps_pct entry");
    assert_eq!(m.source, "010-3");
    assert!(m.description.contains("anti-shudder"));
    assert!(m.description.contains("NOT throttle"));
}

#[test]
fn dtc_codes_channel_is_removed() {
    assert!(channel("dtc_codes").is_none());
}

#[test]
fn a16_pedal_pct_source() {
    let p = channel("pedal_pct").expect("pedal_pct must be registered");
    assert_eq!(p.source, "010-4",
        "pedal_pct must come from group 010 field 4 (G79), not group 002");
    assert!(!p.source.contains("002"),
        "pedal_pct source must not reference group 002 (that's idle-speed, not pedal %)");
    assert_eq!(ecu_shenanigans::ingest::canonical_name("010-4"), Some("pedal_pct"));
}

#[test]
fn a17_tps_pct_semantics() {
    assert!(channel("tps_pct").is_none(),
        "tps_pct must be removed — TDI has no TPS, this channel was mis-mapped");
    let m = channel("map_abs_010").expect("map_abs_010 must replace tps_pct on group 010 field 3");
    assert_eq!(m.source, "010-3");
    assert!(m.description.contains("anti-shudder"));
    assert!(m.description.contains("NOT throttle"));
    assert_eq!(ecu_shenanigans::ingest::canonical_name("010-3"), Some("map_abs_010"));
}

#[test]
fn vehicle_speed_channel_lists_group_005() {
    let v = channel("vehicle_speed").expect("vehicle_speed channel must exist");
    assert!(v.source.starts_with("005-"),
        "vehicle_speed source must be group 005, got: {}", v.source);
}

#[test]
fn pedal_pct_lives_at_g79_position() {
    let pedal = channel("pedal_pct").expect("pedal_pct missing");
    assert_eq!(pedal.source, "010-4");
    assert!(channel("tps_pct").is_none(),
        "tps_pct must not be registered — TDI has no throttle position sensor");
    let map_alt = channel("map_abs_010")
        .expect("map_abs_010 must replace tps_pct on group 010 field 3");
    assert!(map_alt.description.to_ascii_lowercase().contains("anti-shudder"));
}

#[test]
fn dtc_codes_float_channel_is_gone() {
    assert!(channel("dtc_codes").is_none());
}

#[test]
fn not_logged_channels_are_not_registered() {
    for name in NOT_LOGGED {
        assert!(channel(name).is_none(), "{name} is not logged");
    }
}

#[test]
fn every_default_has_a_known_map() {
    for d in default_deltas() {
        assert!(get_map(d.map_name).is_some(),
            "default delta references unknown map: {}", d.map_name);
    }
}

#[test]
fn a2_default_delta_count_and_rule_crosslinks() {
    let deltas = default_deltas();
    assert_eq!(deltas.len(), 25, "default-deltas table must have 25 rows");
    assert_eq!(N_DEFAULT_DELTAS, 25);
    let known: Vec<&str> = ALL_RULE_IDS.iter().map(|id| id.as_str()).collect();
    for d in &deltas {
        for rid in d.rule_refs {
            assert!(known.contains(rid), "delta row {} references unknown rule id {rid}", d.map_name);
        }
    }
}

#[test]
fn smoke_rows_name_the_lambda_floor() {
    let rows: Vec<_> = default_deltas().into_iter().filter(|d| d.map_name.starts_with("Smoke_IQ")).collect();
    assert_eq!(rows.len(), 2);
    for row in &rows {
        assert!(row.note.contains("1.05"), "smoke row {} must mention λ ≥ 1.05", row.map_name);
        assert_eq!(row.kind, DeltaKind::ClampPeak);
    }
}

#[test]
fn default_delta_rows_match_the_table() {
    let d = default_delta(0);
    assert_eq!(d.map_name, "LDRXN");
    assert_eq!(d.rule_refs, &["R02", "R03"]);
    assert_eq!(d.kind, DeltaKind::DeltaMbar);
    let svbl = default_delta(9);
    assert_eq!(svbl.map_name, "SVBL");
    assert_eq!(svbl.kind, DeltaKind::LeaveStock);
    assert!(svbl.rule_refs.is_empty());
    let banks: Vec<&str> = default_deltas().iter().map(|d| d.map_name).filter(|n| n.starts_with("AGR_arwMEAB")).collect();
    assert_eq!(banks, vec!["AGR_arwMEAB0KL", "AGR_arwMEAB1KL"]);
}

#[test]
fn dtc_list_starts_with_p0401() {
    assert_eq!(DTC_LIST_TO_SUPPRESS[0], "P0401");
}

#[test]
fn p0403_flagged_as_wiring_fault() {
    assert!(DTC_WIRING_FAULTS.contains(&"P0403"));
}

#[test]
fn group_b_codes_are_the_tail_of_the_list() {
    assert_eq!(DTC_GROUP_B, ["P0404", "P0405", "P0406"]);
    assert_eq!(&DTC_LIST_TO_SUPPRESS[3..], &DTC_GROUP_B[..]);
    assert_eq!(EGR_DUTY_MAP_NAME, "AGR_arwMEAB0KL");
    assert_eq!(SPEC_MAF_MAP_NAME, "arwMLGRDKF");
}

#[test]
fn registry_has_25_maps() {
    assert_eq!(MAPS.len(), 25);
}

#[test]
fn egr_maps_are_present_both_banks() {
    for name in [
        "AGR_arwMEAB0KL",
        "AGR_arwMEAB1KL",
        "arwMLGRDKF",
        "DTC_thresholds",
        "MAF_MAP_smoke_switch",
        "Idle_fuel",
        "SOI_warm_cruise",
    ] {
        assert!(get_map(name).is_some(), "EGR map {name} must be in registry");
    }
}

#[test]
fn driveability_and_thermal_maps_are_present() {
    for name in [
        "Driver_Wish_low_pedal",
        "Fan_thresholds",
        "Fan_run_on",
    ] {
        assert!(get_map(name).is_some(),
            "driveability/thermal map {name} must be in registry");
    }
}

#[test]
fn map_ids_are_unique() {
    let mut ids: Vec<&str> = MAPS.iter().map(|m| m.0).collect();
    ids.sort_unstable();
    let original_len = ids.len();
    ids.dedup();
    assert_eq!(original_len, ids.len(), "duplicate map id in registry");
}

#[test]
fn known_maps_are_findable() {
    assert!(get_map("LDRXN").is_some());
    assert!(get_map("SVBL").is_some());
}

#[test]
fn unknown_map_is_none() {
    assert!(get_map("NOT_A_MAP").is_none());
}

#[test]
fn a13_maps_registry_consistency() {
    assert_eq!(MAPS.len(), 25, "maps registry must have 25 entries");
    let mut ids: Vec<&str> = MAPS.iter().map(|m| m.0).collect();
    ids.sort_unstable();
    let original = ids.len();
    ids.dedup();
    assert_eq!(original, ids.len(), "duplicate map id in registry");
    for d in default_deltas() {
        assert!(get_map(d.map_name).is_some(), "delta references unknown map id {}", d.map_name);
    }
}

#[test]
fn map_lookup_returns_the_registry_entry() {
    let m = get_map("Torque_Limiter").expect("registered");
    assert_eq!(m.name, "Torque_Limiter");
    let row = MAPS.iter().find(|e| e.0 == "Torque_Limiter").unwrap();
    assert_eq!(m.german_alias, row.1);
    assert_eq!(m.description, row.6);
}

#[test]
fn stock_ramp_anchors_ascend() {
    assert_eq!(STOCK_BOOST_RAMP.len(), N_BOOST_ANCHORS);
    for i in 1..N_BOOST_ANCHORS {
        assert!(boost_ref_point(i - 1).rpm < boost_ref_point(i).rpm);
    }
    assert_eq!(boost_ref_point(0).boost_mbar_abs, 1100);
    assert_eq!(boost_ref_point(6).rpm, 4500);
}

#[test]
fn a10_disclaimer_is_a_single_const_referenced_everywhere() {
    assert!(!DISCLAIMER.is_empty(), "disclaimer text must be present");
    assert!(DISCLAIMER.contains("liability") || DISCLAIMER.contains("responsibility"),
        "disclaimer must surface operator responsibility");
}

#[test]
fn cargo_version_pinned() {
    assert_eq!(ecu_shenanigans::VERSION, "6.0.0");
}

#[test]
fn platform_labels() {
    assert_eq!(PLATFORM_ID, "amf_edc15p");
    assert!(PLATFORM_DISPLAY.contains("AMF"));
}

#[test]
fn fan_on_clamp_pulls_into_band() {
    assert_eq!(clamp_fan_on_c(0), FAN_ON_MIN_C);
    assert_eq!(clamp_fan_on_c(87), 88);
    assert_eq!(clamp_fan_on_c(88), 88);
    assert_eq!(clamp_fan_on_c(93), 93);
    assert_eq!(clamp_fan_on_c(98), 98);
    assert_eq!(clamp_fan_on_c(105), FAN_ON_MAX_C);
    assert_eq!(clamp_fan_on_c(255), 98);
}

#[test]
fn fan_run_on_clamp_caps_total() {
    assert_eq!(clamp_fan_run_on_s(0), 0);
    assert_eq!(clamp_fan_run_on_s(120), 120);
    assert_eq!(clamp_fan_run_on_s(240), 240);
    assert_eq!(clamp_fan_run_on_s(241), FAN_RUN_ON_TOTAL_MAX_S);
    assert_eq!(clamp_fan_run_on_s(u16::MAX), 240);
}

#[test]
fn fan_thresholds_row_text() {
    assert_eq!(
        fan_thresholds_text(),
        "stage-1 on/off = 93 / 88 °C; stage-2 on/off = 98 / 95 °C \
         (hysteresis ≥ 3 °C, stage gap ≥ 3 °C, all clamped to [88-98] °C)"
    );
}

#[test]
fn fan_run_on_row_text() {
    assert_eq!(fan_run_on_text(60), "+60 s post-key-off run-on (clamped total ≤ 240 s)");
    assert_eq!(fan_run_on_text(0), "+0 s post-key-off run-on (clamped total ≤ 240 s)");
    assert_eq!(fan_run_on_text(500), "+180 s post-key-off run-on (clamped total ≤ 240 s)");
    assert_eq!(fan_run_on_text(u16::MAX), "+180 s post-key-off run-on (clamped total ≤ 240 s)");
}
