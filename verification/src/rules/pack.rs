//! AMF rule pack: the rule-id enumeration, the rule descriptors, the
//! DTC-scan rule and the evaluation plan of each rule.

use vstd::prelude::*;

use crate::rules::base::Rule;
use crate::rules::base::RuleScope;
use crate::rules::base::Severity;
use crate::rules::base::missing_groups_reason;
use crate::rules::base::missing_groups_text;
use crate::ingest::vcds::contains_string;
use crate::ingest::vcds::missing_from;
use crate::platform::amf_edc15p::egr::DTC_GROUP_B;
use crate::platform::amf_edc15p::egr::DTC_LIST_TO_SUPPRESS;
use crate::platform::amf_edc15p::egr::DTC_WIRING_FAULTS;
use crate::text::append_str;
use crate::text::chars_eq;
use crate::text::chars_of;
use crate::text::join_sep;
use crate::text::push_joined;
use crate::text::str_eq;
use crate::text::str_views;
use crate::text::upper_chars;
use crate::text::upper_seq;
use crate::text::views;

verus! {

/// All rule ids in canonical order.
#[derive(Debug, Clone, Copy, PartialEq, Eq, Structural, Hash)]
pub enum RuleId {
    /// R01 — Underboost.
    R01,
    /// R02 — Overboost spike.
    R02,
    /// R03 — Boost target excessive.
    R03,
    /// R04 — High-RPM boost not tapering.
    R04,
    /// R05 — MAF below spec.
    R05,
    /// R06 — Lambda floor breach.
    R06,
    /// R07 — Peak IQ above sane envelope.
    R07,
    /// R08 — Modelled torque above clutch ceiling.
    R08,
    /// R09 — SOI excess.
    R09,
    /// R10 — EOI late.
    R10,
    /// R11 — Coolant too low for pull.
    R11,
    /// R12 — Atmospheric correction missing.
    R12,
    /// R13 — Fuel temp high.
    R13,
    /// R14 — Smooth-running deviation.
    R14,
    /// R15 — Limp / N75 clamped.
    R15,
    /// R16 — EGR duty observed (delete not applied).
    R16,
    /// R17 — MAF deviation post-delete (cruise, warm).
    R17,
    /// R18 — Cruise-band SOI NVH check.
    R18,
    /// R19 — DTC scan check.
    R19,
    /// R20 — Cruise spec-MAF excess.
    R20,
    /// R21 — Idle stability.
    R21,
    /// R22 — Low-pedal IQ slope (driveability).
    R22,
    /// R23 — Sustained-pull coolant trend (thermal).
    R23,
}

/// Iteration order for the rule pack.
pub const ALL_RULE_IDS: [RuleId; 23] = [
    RuleId::R01,
    RuleId::R02,
    RuleId::R03,
    RuleId::R04,
    RuleId::R05,
    RuleId::R06,
    RuleId::R07,
    RuleId::R08,
    RuleId::R09,
    RuleId::R10,
    RuleId::R11,
    RuleId::R12,
    RuleId::R13,
    RuleId::R14,
    RuleId::R15,
    RuleId::R16,
    RuleId::R17,
    RuleId::R18,
    RuleId::R19,
    RuleId::R20,
    RuleId::R21,
    RuleId::R22,
    RuleId::R23,
];

/// Rationale of R01.
pub const R01_WHY: &'static str = "Persistent underboost: leak, dirty MAF, sticky wastegate, or LDRXN ramp too steep.";

/// Channels R01 needs.
pub const R01_CHANNELS: [&'static str; 3] = ["rpm", "boost_actual", "boost_spec"];

/// VCDS groups R01 needs.
pub const R01_GROUPS: [&'static str; 1] = ["011"];

/// Rationale of R02.
pub const R02_WHY: &'static str = "Garrett GT1544S sustained over 2150 mbar pushes shaft past the right edge of the compressor map → overspeed.";

/// Channels R02 needs.
pub const R02_CHANNELS: [&'static str; 2] = ["boost_actual", "boost_spec"];

/// VCDS groups R02 needs.
pub const R02_GROUPS: [&'static str; 1] = ["011"];

/// Rationale of R03.
pub const R03_WHY: &'static str = "Hard envelope ceiling for Garrett GT1544S longevity.";

/// Channels R03 needs.
pub const R03_CHANNELS: [&'static str; 2] = ["rpm", "boost_spec"];

/// VCDS groups R03 needs.
pub const R03_GROUPS: [&'static str; 1] = ["011"];

/// Rationale of R04.
pub const R04_WHY: &'static str = "Garrett GT1544S is choke-flow-limited above 4000 rpm; back off to keep it in the efficiency island.";

/// Channels R04 needs.
pub const R04_CHANNELS: [&'static str; 2] = ["rpm", "boost_spec"];

/// VCDS groups R04 needs.
pub const R04_GROUPS: [&'static str; 1] = ["011"];

/// Rationale of R05.
pub const R05_WHY: &'static str = "MAF drift, dirty intake, boost leak, or MAF aging — fueling decisions become wrong.";

/// Channels R05 needs.
pub const R05_CHANNELS: [&'static str; 2] = ["maf_actual", "maf_spec"];

/// VCDS groups R05 needs.
pub const R05_GROUPS: [&'static str; 1] = ["003"];

/// Rationale of R06.
pub const R06_WHY: &'static str = "Below λ = 1.05 = past stoich → incomplete combustion → EGT spike → ring-land cracks.";

/// Channels R06 needs.
pub const R06_CHANNELS: [&'static str; 2] = ["maf_actual", "iq_requested"];

/// VCDS groups R06 needs.
pub const R06_GROUPS: [&'static str; 2] = ["003", "008"];

/// Rationale of R07.
pub const R07_WHY: &'static str = "Above 54 mg/stroke the PD75 nozzle duration headroom and LUK clutch torque ceiling run out.";

/// Channels R07 needs.
pub const R07_CHANNELS: [&'static str; 1] = ["iq_requested"];

/// VCDS groups R07 needs.
pub const R07_GROUPS: [&'static str; 1] = ["008"];

/// Rationale of R08.
pub const R08_WHY: &'static str = "LUK SMF engineering ceiling 240 Nm (LUK does not publish a rating). Above this the clutch slips within weeks.";

/// Channels R08 needs.
pub const R08_CHANNELS: [&'static str; 1] = ["iq_requested"];

/// VCDS groups R08 needs.
pub const R08_GROUPS: [&'static str; 1] = ["008"];

/// Rationale of R09.
pub const R09_WHY: &'static str = "Beyond 26° BTDC at IQ ≥ 30 mg, peak cylinder pressure migrates ahead of TDC → piston crown stress.";

/// Channels R09 needs.
pub const R09_CHANNELS: [&'static str; 2] = ["soi_actual", "iq_requested"];

/// VCDS groups R09 needs.
pub const R09_GROUPS: [&'static str; 2] = ["020", "008"];

/// Rationale of R10.
pub const R10_WHY: &'static str = "Combustion past 10° ATDC dumps unburned heat into the turbine → high EGT, poor BSFC. Duration is a screening heuristic.";

/// Channels R10 needs.
pub const R10_CHANNELS: [&'static str; 3] = ["soi_actual", "iq_requested", "rpm"];

/// VCDS groups R10 needs.
pub const R10_GROUPS: [&'static str; 2] = ["020", "008"];

/// Rationale of R11.
pub const R11_WHY: &'static str = "EDC15P+ uses cold SOI map below 80 °C — pull data is not representative of warm calibration.";

/// Channels R11 needs.
pub const R11_CHANNELS: [&'static str; 1] = ["coolant_c"];

/// VCDS groups R11 needs.
pub const R11_GROUPS: [&'static str; 1] = ["001"];

/// Rationale of R12.
pub const R12_WHY: &'static str = "Without ambient pressure capture (group 010 key-on/engine-off), altitude derate cannot be assessed.";

/// Channels R12 needs.
pub const R12_CHANNELS: [&'static str; 1] = ["atm_pressure"];

/// VCDS groups R12 needs.
pub const R12_GROUPS: [&'static str; 1] = ["010"];

/// Rationale of R13.
pub const R13_WHY: &'static str = "High fuel temp = lower density = lower delivered IQ for same duration → boost overshoots fuelling.";

/// Channels R13 needs.
pub const R13_CHANNELS: [&'static str; 1] = ["fuel_temp_c"];

/// VCDS groups R13 needs.
pub const R13_GROUPS: [&'static str; 1] = ["013"];

/// Rationale of R14.
pub const R14_WHY: &'static str = "Worn injector cam lobe (PD weak point) or failing injector. Tuning a sick engine kills it faster.";

/// Channels R14 needs.
pub const R14_CHANNELS: [&'static str; 3] = ["srcv_cyl1", "srcv_cyl2", "srcv_cyl3"];

/// VCDS groups R14 needs.
pub const R14_GROUPS: [&'static str; 1] = ["013"];

/// Rationale of R15.
pub const R15_WHY: &'static str = "ECU is in limp mode — log is not valid for tuning.";

/// Channels R15 needs.
pub const R15_CHANNELS: [&'static str; 1] = ["n75_duty"];

/// VCDS groups R15 needs.
pub const R15_GROUPS: [&'static str; 1] = ["011"];

/// Rationale of R16.
pub const R16_WHY: &'static str = "The tune mandates a software EGR delete. Any EGR duty > 2 % anywhere in the log means the delete \
         was not flashed, was applied to only one bank, or was overridden by spec-MAF polarity.";

/// Channels R16 needs.
pub const R16_CHANNELS: [&'static str; 1] = ["egr_duty"];

/// VCDS groups R16 needs.
pub const R16_GROUPS: [&'static str; 1] = ["003"];

/// Rationale of R17.
pub const R17_WHY: &'static str = "Cruise MAF should track spec-MAF closely (Strategy A) or sit above it (Strategy B). >15 % deviation \
         sustained for >2 s indicates the spec-MAF map was not rescaled correctly. Reads `pedal_pct` (driver wish).";

/// Channels R17 needs.
pub const R17_CHANNELS: [&'static str; 3] = ["maf_actual", "maf_spec", "pedal_pct"];

/// VCDS groups R17 needs.
pub const R17_GROUPS: [&'static str; 1] = ["003"];

/// Rationale of R18.
pub const R18_WHY: &'static str = "Cruise-band SOI is at stock with EGR off. Premixed phase is faster without inert charge → NVH bump. \
         Apply −1.0° SOI retard to warm SOI maps 0..3 in the cruise band only if subjective NVH is objectionable.";

/// Channels R18 needs.
pub const R18_CHANNELS: [&'static str; 4] = ["soi_actual", "egr_duty", "rpm", "iq_requested"];

/// VCDS groups R18 needs.
pub const R18_GROUPS: [&'static str; 3] = ["020", "003", "008"];

/// Rationale of R19.
pub const R19_WHY: &'static str = "P0401/P0402/P0403 (Group A, real on AMF) post-flash mean the DTC was not suppressed (P0401/P0402) \
         or the EGR solenoid has a real wiring fault (P0403 — investigate, do NOT just suppress). \
         P0404/P0405/P0406 (Group B) should not appear on AMF and indicate code-list error or non-AMF ECU.";

/// Channels R19 needs.
pub const R19_CHANNELS: [&'static str; 0] = [];

/// VCDS groups R19 needs.
pub const R19_GROUPS: [&'static str; 0] = [];

/// Rationale of R20.
pub const R20_WHY: &'static str = "Post-delete with Strategy-B saturation, MAF actual exceeding spec by ≥50 mg with EGR=0 confirms the \
         delete is functional and the saturation is harmless.";

/// Channels R20 needs.
pub const R20_CHANNELS: [&'static str; 3] = ["maf_actual", "maf_spec", "egr_duty"];

/// VCDS groups R20 needs.
pub const R20_GROUPS: [&'static str; 1] = ["003"];

/// Rationale of R21.
pub const R21_WHY: &'static str = "RPM σ > 25 over a 30-s warm-idle window catches injector / mech imbalance survival. \
         Severity downgrades to Info if the window is < 30 s (insufficient evidence).";

/// Channels R21 needs.
pub const R21_CHANNELS: [&'static str; 2] = ["rpm", "coolant_c"];

/// VCDS groups R21 needs.
pub const R21_GROUPS: [&'static str; 1] = ["001"];

/// Rationale of R22.
pub const R22_WHY: &'static str = "Low-pedal Driver_Wish slope ramps IQ too aggressively (off-idle lunge). \
         Linear regression of iq_mg against pedal_pct in the 5..25 % band; fires \
         Warn if the slope exceeds the cap, or if it is markedly steeper than the \
         25..80 % mid-band.";

/// Channels R22 needs.
pub const R22_CHANNELS: [&'static str; 3] = ["pedal_pct", "iq_requested", "rpm"];

/// VCDS groups R22 needs.
pub const R22_GROUPS: [&'static str; 1] = ["008"];

/// Rationale of R23.
pub const R23_WHY: &'static str = "Coolant rose substantially during a sustained pull and approached or \
         exceeded the warn-level peak. Verifies that the cooling-fan threshold \
         and run-on tune is doing useful work.";

/// Channels R23 needs.
pub const R23_CHANNELS: [&'static str; 2] = ["coolant_c", "rpm"];

/// VCDS groups R23 needs.
pub const R23_GROUPS: [&'static str; 2] = ["001", "011"];

/// The short string id of a rule.
pub open spec fn rule_id_str(id: RuleId) -> &'static str {
    match id {
        RuleId::R01 => "R01",
        RuleId::R02 => "R02",
        RuleId::R03 => "R03",
        RuleId::R04 => "R04",
        RuleId::R05 => "R05",
        RuleId::R06 => "R06",
        RuleId::R07 => "R07",
        RuleId::R08 => "R08",
        RuleId::R09 => "R09",
        RuleId::R10 => "R10",
        RuleId::R11 => "R11",
        RuleId::R12 => "R12",
        RuleId::R13 => "R13",
        RuleId::R14 => "R14",
        RuleId::R15 => "R15",
        RuleId::R16 => "R16",
        RuleId::R17 => "R17",
        RuleId::R18 => "R18",
        RuleId::R19 => "R19",
        RuleId::R20 => "R20",
        RuleId::R21 => "R21",
        RuleId::R22 => "R22",
        RuleId::R23 => "R23",
    }
}

/// The number of a rule id (`R07` is 7).
pub open spec fn id_number(id: RuleId) -> nat {
    match id {
        RuleId::R01 => 1,
        RuleId::R02 => 2,
        RuleId::R03 => 3,
        RuleId::R04 => 4,
        RuleId::R05 => 5,
        RuleId::R06 => 6,
        RuleId::R07 => 7,
        RuleId::R08 => 8,
        RuleId::R09 => 9,
        RuleId::R10 => 10,
        RuleId::R11 => 11,
        RuleId::R12 => 12,
        RuleId::R13 => 13,
        RuleId::R14 => 14,
        RuleId::R15 => 15,
        RuleId::R16 => 16,
        RuleId::R17 => 17,
        RuleId::R18 => 18,
        RuleId::R19 => 19,
        RuleId::R20 => 20,
        RuleId::R21 => 21,
        RuleId::R22 => 22,
        RuleId::R23 => 23,
    }
}

/// The rule id with a given number, `R01` outside `1..=23`.
pub open spec fn id_of_number(n: nat) -> RuleId {
    if n == 1 {
        RuleId::R01
    } else if n == 2 {
        RuleId::R02
    } else if n == 3 {
        RuleId::R03
    } else if n == 4 {
        RuleId::R04
    } else if n == 5 {
        RuleId::R05
    } else if n == 6 {
        RuleId::R06
    } else if n == 7 {
        RuleId::R07
    } else if n == 8 {
        RuleId::R08
    } else if n == 9 {
        RuleId::R09
    } else if n == 10 {
        RuleId::R10
    } else if n == 11 {
        RuleId::R11
    } else if n == 12 {
        RuleId::R12
    } else if n == 13 {
        RuleId::R13
    } else if n == 14 {
        RuleId::R14
    } else if n == 15 {
        RuleId::R15
    } else if n == 16 {
        RuleId::R16
    } else if n == 17 {
        RuleId::R17
    } else if n == 18 {
        RuleId::R18
    } else if n == 19 {
        RuleId::R19
    } else if n == 20 {
        RuleId::R20
    } else if n == 21 {
        RuleId::R21
    } else if n == 22 {
        RuleId::R22
    } else if n == 23 {
        RuleId::R23
    } else {
        RuleId::R01
    }
}

/// The descriptor of a rule.
pub open spec fn rule_of(id: RuleId) -> Rule {
    match id {
        RuleId::R01 => Rule {
            id: "R01",
            severity: Severity::Warn,
            scope: RuleScope::PerPull,
            rationale_one_liner: R01_WHY,
            recommended_delta_ref: Some("LDRXN/N75_duty"),
            requires_channels: &R01_CHANNELS,
            requires_groups: &R01_GROUPS,
        },
        RuleId::R02 => Rule {
            id: "R02",
            severity: Severity::Critical,
            scope: RuleScope::PerPull,
            rationale_one_liner: R02_WHY,
            recommended_delta_ref: Some("LDRXN: lower target"),
            requires_channels: &R02_CHANNELS,
            requires_groups: &R02_GROUPS,
        },
        RuleId::R03 => Rule {
            id: "R03",
            severity: Severity::Critical,
            scope: RuleScope::PerPull,
            rationale_one_liner: R03_WHY,
            recommended_delta_ref: Some("LDRXN: rpm 2000-3500"),
            requires_channels: &R03_CHANNELS,
            requires_groups: &R03_GROUPS,
        },
        RuleId::R04 => Rule {
            id: "R04",
            severity: Severity::Warn,
            scope: RuleScope::PerPull,
            rationale_one_liner: R04_WHY,
            recommended_delta_ref: Some("LDRXN taper rpm 4000-4500"),
            requires_channels: &R04_CHANNELS,
            requires_groups: &R04_GROUPS,
        },
        RuleId::R05 => Rule {
            id: "R05",
            severity: Severity::Warn,
            scope: RuleScope::PerPull,
            rationale_one_liner: R05_WHY,
            recommended_delta_ref: Some("MLHFM (only if MAF replaced)"),
            requires_channels: &R05_CHANNELS,
            requires_groups: &R05_GROUPS,
        },
        RuleId::R06 => Rule {
            id: "R06",
            severity: Severity::Critical,
            scope: RuleScope::PerPull,
            rationale_one_liner: R06_WHY,
            recommended_delta_ref: Some("Smoke_IQ_by_MAF + Smoke_IQ_by_MAP: enforce λ ≥ 1.05"),
            requires_channels: &R06_CHANNELS,
            requires_groups: &R06_GROUPS,
        },
        RuleId::R07 => Rule {
            id: "R07",
            severity: Severity::Critical,
            scope: RuleScope::PerPull,
            rationale_one_liner: R07_WHY,
            recommended_delta_ref: Some("Driver_Wish + Duration"),
            requires_channels: &R07_CHANNELS,
            requires_groups: &R07_GROUPS,
        },
        RuleId::R08 => Rule {
            id: "R08",
            severity: Severity::Critical,
            scope: RuleScope::PerPull,
            rationale_one_liner: R08_WHY,
            recommended_delta_ref: Some("Torque_Limiter: clamp peak ≤ 240 Nm"),
            requires_channels: &R08_CHANNELS,
            requires_groups: &R08_GROUPS,
        },
        RuleId::R09 => Rule {
            id: "R09",
            severity: Severity::Critical,
            scope: RuleScope::PerPull,
            rationale_one_liner: R09_WHY,
            recommended_delta_ref: Some("SOI: cap at 26° BTDC absolute"),
            requires_channels: &R09_CHANNELS,
            requires_groups: &R09_GROUPS,
        },
        RuleId::R10 => Rule {
            id: "R10",
            severity: Severity::Warn,
            scope: RuleScope::PerPull,
            rationale_one_liner: R10_WHY,
            recommended_delta_ref: Some("SOI/Duration: re-balance"),
            requires_channels: &R10_CHANNELS,
            requires_groups: &R10_GROUPS,
        },
        RuleId::R11 => Rule {
            id: "R11",
            severity: Severity::Info,
            scope: RuleScope::PerPull,
            rationale_one_liner: R11_WHY,
            recommended_delta_ref: None,
            requires_channels: &R11_CHANNELS,
            requires_groups: &R11_GROUPS,
        },
        RuleId::R12 => Rule {
            id: "R12",
            severity: Severity::Info,
            scope: RuleScope::PerPull,
            rationale_one_liner: R12_WHY,
            recommended_delta_ref: None,
            requires_channels: &R12_CHANNELS,
            requires_groups: &R12_GROUPS,
        },
        RuleId::R13 => Rule {
            id: "R13",
            severity: Severity::Warn,
            scope: RuleScope::PerPull,
            rationale_one_liner: R13_WHY,
            recommended_delta_ref: None,
            requires_channels: &R13_CHANNELS,
            requires_groups: &R13_GROUPS,
        },
        RuleId::R14 => Rule {
            id: "R14",
            severity: Severity::Warn,
            scope: RuleScope::PerPull,
            rationale_one_liner: R14_WHY,
            recommended_delta_ref: None,
            requires_channels: &R14_CHANNELS,
            requires_groups: &R14_GROUPS,
        },
        RuleId::R15 => Rule {
            id: "R15",
            severity: Severity::Warn,
            scope: RuleScope::PerPull,
            rationale_one_liner: R15_WHY,
            recommended_delta_ref: None,
            requires_channels: &R15_CHANNELS,
            requires_groups: &R15_GROUPS,
        },
        RuleId::R16 => Rule {
            id: "R16",
            severity: Severity::Critical,
            scope: RuleScope::Global,
            rationale_one_liner: R16_WHY,
            recommended_delta_ref: Some("AGR_arwMEAB0KL + AGR_arwMEAB1KL + arwMLGRDKF"),
            requires_channels: &R16_CHANNELS,
            requires_groups: &R16_GROUPS,
        },
        RuleId::R17 => Rule {
            id: "R17",
            severity: Severity::Warn,
            scope: RuleScope::PerPull,
            rationale_one_liner: R17_WHY,
            recommended_delta_ref: Some("arwMLGRDKF: re-flatten ≥850 mg/stroke"),
            requires_channels: &R17_CHANNELS,
            requires_groups: &R17_GROUPS,
        },
        RuleId::R18 => Rule {
            id: "R18",
            severity: Severity::Info,
            scope: RuleScope::PerPull,
            rationale_one_liner: R18_WHY,
            recommended_delta_ref: Some("SOI_warm_cruise"),
            requires_channels: &R18_CHANNELS,
            requires_groups: &R18_GROUPS,
        },
        RuleId::R19 => Rule {
            id: "R19",
            severity: Severity::Warn,
            scope: RuleScope::Global,
            rationale_one_liner: R19_WHY,
            recommended_delta_ref: Some("DTC_thresholds"),
            requires_channels: &R19_CHANNELS,
            requires_groups: &R19_GROUPS,
        },
        RuleId::R20 => Rule {
            id: "R20",
            severity: Severity::Info,
            scope: RuleScope::PerPull,
            rationale_one_liner: R20_WHY,
            recommended_delta_ref: None,
            requires_channels: &R20_CHANNELS,
            requires_groups: &R20_GROUPS,
        },
        RuleId::R21 => Rule {
            id: "R21",
            severity: Severity::Warn,
            scope: RuleScope::Global,
            rationale_one_liner: R21_WHY,
            recommended_delta_ref: Some("Idle_fuel"),
            requires_channels: &R21_CHANNELS,
            requires_groups: &R21_GROUPS,
        },
        RuleId::R22 => Rule {
            id: "R22",
            severity: Severity::Warn,
            scope: RuleScope::PerPull,
            rationale_one_liner: R22_WHY,
            recommended_delta_ref: Some("Driver_Wish_low_pedal"),
            requires_channels: &R22_CHANNELS,
            requires_groups: &R22_GROUPS,
        },
        RuleId::R23 => Rule {
            id: "R23",
            severity: Severity::Info,
            scope: RuleScope::PerPull,
            rationale_one_liner: R23_WHY,
            recommended_delta_ref: Some("Fan_thresholds"),
            requires_channels: &R23_CHANNELS,
            requires_groups: &R23_GROUPS,
        },
    }
}

impl RuleId {
    /// Short string id used everywhere outside the dispatcher.
    pub fn as_str(self) -> (r: &'static str)
        ensures
            r == rule_id_str(self),
    {
        match self {
            RuleId::R01 => "R01",
            RuleId::R02 => "R02",
            RuleId::R03 => "R03",
            RuleId::R04 => "R04",
            RuleId::R05 => "R05",
            RuleId::R06 => "R06",
            RuleId::R07 => "R07",
            RuleId::R08 => "R08",
            RuleId::R09 => "R09",
            RuleId::R10 => "R10",
            RuleId::R11 => "R11",
            RuleId::R12 => "R12",
            RuleId::R13 => "R13",
            RuleId::R14 => "R14",
            RuleId::R15 => "R15",
            RuleId::R16 => "R16",
            RuleId::R17 => "R17",
            RuleId::R18 => "R18",
            RuleId::R19 => "R19",
            RuleId::R20 => "R20",
            RuleId::R21 => "R21",
            RuleId::R22 => "R22",
            RuleId::R23 => "R23",
        }
    }

    /// The rule descriptor.
    pub fn rule(self) -> (r: Rule)
        ensures
            r == rule_of(self),
    {
        match self {
            RuleId::R01 => Rule {
                id: "R01",
                severity: Severity::Warn,
                scope: RuleScope::PerPull,
                rationale_one_liner: R01_WHY,
                recommended_delta_ref: Some("LDRXN/N75_duty"),
                requires_channels: &R01_CHANNELS,
                requires_groups: &R01_GROUPS,
            },
            RuleId::R02 => Rule {
                id: "R02",
                severity: Severity::Critical,
                scope: RuleScope::PerPull,
                rationale_one_liner: R02_WHY,
                recommended_delta_ref: Some("LDRXN: lower target"),
                requires_channels: &R02_CHANNELS,
                requires_groups: &R02_GROUPS,
            },
            RuleId::R03 => Rule {
                id: "R03",
                severity: Severity::Critical,
                scope: RuleScope::PerPull,
                rationale_one_liner: R03_WHY,
                recommended_delta_ref: Some("LDRXN: rpm 2000-3500"),
                requires_channels: &R03_CHANNELS,
                requires_groups: &R03_GROUPS,
            },
            RuleId::R04 => Rule {
                id: "R04",
                severity: Severity::Warn,
                scope: RuleScope::PerPull,
                rationale_one_liner: R04_WHY,
                recommended_delta_ref: Some("LDRXN taper rpm 4000-4500"),
                requires_channels: &R04_CHANNELS,
                requires_groups: &R04_GROUPS,
            },
            RuleId::R05 => Rule {
                id: "R05",
                severity: Severity::Warn,
                scope: RuleScope::PerPull,
                rationale_one_liner: R05_WHY,
                recommended_delta_ref: Some("MLHFM (only if MAF replaced)"),
                requires_channels: &R05_CHANNELS,
                requires_groups: &R05_GROUPS,
            },
            RuleId::R06 => Rule {
                id: "R06",
                severity: Severity::Critical,
                scope: RuleScope::PerPull,
                rationale_one_liner: R06_WHY,
                recommended_delta_ref: Some("Smoke_IQ_by_MAF + Smoke_IQ_by_MAP: enforce λ ≥ 1.05"),
                requires_channels: &R06_CHANNELS,
                requires_groups: &R06_GROUPS,
            },
            RuleId::R07 => Rule {
                id: "R07",
                severity: Severity::Critical,
                scope: RuleScope::PerPull,
                rationale_one_liner: R07_WHY,
                recommended_delta_ref: Some("Driver_Wish + Duration"),
                requires_channels: &R07_CHANNELS,
                requires_groups: &R07_GROUPS,
            },
            RuleId::R08 => Rule {
                id: "R08",
                severity: Severity::Critical,
                scope: RuleScope::PerPull,
                rationale_one_liner: R08_WHY,
                recommended_delta_ref: Some("Torque_Limiter: clamp peak ≤ 240 Nm"),
                requires_channels: &R08_CHANNELS,
                requires_groups: &R08_GROUPS,
            },
            RuleId::R09 => Rule {
                id: "R09",
                severity: Severity::Critical,
                scope: RuleScope::PerPull,
                rationale_one_liner: R09_WHY,
                recommended_delta_ref: Some("SOI: cap at 26° BTDC absolute"),
                requires_channels: &R09_CHANNELS,
                requires_groups: &R09_GROUPS,
            },
            RuleId::R10 => Rule {
                id: "R10",
                severity: Severity::Warn,
                scope: RuleScope::PerPull,
                rationale_one_liner: R10_WHY,
                recommended_delta_ref: Some("SOI/Duration: re-balance"),
                requires_channels: &R10_CHANNELS,
                requires_groups: &R10_GROUPS,
            },
            RuleId::R11 => Rule {
                id: "R11",
                severity: Severity::Info,
                scope: RuleScope::PerPull,
                rationale_one_liner: R11_WHY,
                recommended_delta_ref: None,
                requires_channels: &R11_CHANNELS,
                requires_groups: &R11_GROUPS,
            },
            RuleId::R12 => Rule {
                id: "R12",
                severity: Severity::Info,
                scope: RuleScope::PerPull,
                rationale_one_liner: R12_WHY,
                recommended_delta_ref: None,
                requires_channels: &R12_CHANNELS,
                requires_groups: &R12_GROUPS,
            },
            RuleId::R13 => Rule {
                id: "R13",
                severity: Severity::Warn,
                scope: RuleScope::PerPull,
                rationale_one_liner: R13_WHY,
                recommended_delta_ref: None,
                requires_channels: &R13_CHANNELS,
                requires_groups: &R13_GROUPS,
            },
            RuleId::R14 => Rule {
                id: "R14",
                severity: Severity::Warn,
                scope: RuleScope::PerPull,
                rationale_one_liner: R14_WHY,
                recommended_delta_ref: None,
                requires_channels: &R14_CHANNELS,
                requires_groups: &R14_GROUPS,
            },
            RuleId::R15 => Rule {
                id: "R15",
                severity: Severity::Warn,
                scope: RuleScope::PerPull,
                rationale_one_liner: R15_WHY,
                recommended_delta_ref: None,
                requires_channels: &R15_CHANNELS,
                requires_groups: &R15_GROUPS,
            },
            RuleId::R16 => Rule {
                id: "R16",
                severity: Severity::Critical,
                scope: RuleScope::Global,
                rationale_one_liner: R16_WHY,
                recommended_delta_ref: Some("AGR_arwMEAB0KL + AGR_arwMEAB1KL + arwMLGRDKF"),
                requires_channels: &R16_CHANNELS,
                requires_groups: &R16_GROUPS,
            },
            RuleId::R17 => Rule {
                id: "R17",
                severity: Severity::Warn,
                scope: RuleScope::PerPull,
                rationale_one_liner: R17_WHY,
                recommended_delta_ref: Some("arwMLGRDKF: re-flatten ≥850 mg/stroke"),
                requires_channels: &R17_CHANNELS,
                requires_groups: &R17_GROUPS,
            },
            RuleId::R18 => Rule {
                id: "R18",
                severity: Severity::Info,
                scope: RuleScope::PerPull,
                rationale_one_liner: R18_WHY,
                recommended_delta_ref: Some("SOI_warm_cruise"),
                requires_channels: &R18_CHANNELS,
                requires_groups: &R18_GROUPS,
            },
            RuleId::R19 => Rule {
                id: "R19",
                severity: Severity::Warn,
                scope: RuleScope::Global,
                rationale_one_liner: R19_WHY,
                recommended_delta_ref: Some("DTC_thresholds"),
                requires_channels: &R19_CHANNELS,
                requires_groups: &R19_GROUPS,
            },
            RuleId::R20 => Rule {
                id: "R20",
                severity: Severity::Info,
                scope: RuleScope::PerPull,
                rationale_one_liner: R20_WHY,
                recommended_delta_ref: None,
                requires_channels: &R20_CHANNELS,
                requires_groups: &R20_GROUPS,
            },
            RuleId::R21 => Rule {
                id: "R21",
                severity: Severity::Warn,
                scope: RuleScope::Global,
                rationale_one_liner: R21_WHY,
                recommended_delta_ref: Some("Idle_fuel"),
                requires_channels: &R21_CHANNELS,
                requires_groups: &R21_GROUPS,
            },
            RuleId::R22 => Rule {
                id: "R22",
                severity: Severity::Warn,
                scope: RuleScope::PerPull,
                rationale_one_liner: R22_WHY,
                recommended_delta_ref: Some("Driver_Wish_low_pedal"),
                requires_channels: &R22_CHANNELS,
                requires_groups: &R22_GROUPS,
            },
            RuleId::R23 => Rule {
                id: "R23",
                severity: Severity::Info,
                scope: RuleScope::PerPull,
                rationale_one_liner: R23_WHY,
                recommended_delta_ref: Some("Fan_thresholds"),
                requires_channels: &R23_CHANNELS,
                requires_groups: &R23_GROUPS,
            },
        }
    }
}

/// Every descriptor, in canonical order.
pub fn all_rules() -> (r: Vec<Rule>)
    ensures
        r@.len() == 23,
        forall|i: int| 0 <= i < 23 ==> #[trigger] r@[i] == rule_of(ALL_RULE_IDS[i]),
{
    let mut out: Vec<Rule> = Vec::new();
    let mut i: usize = 0;
    while i < 23
        invariant
            i <= 23,
            out@.len() == i,
            forall|k: int| 0 <= k < i ==> #[trigger] out@[k] == rule_of(ALL_RULE_IDS[k]),
        decreases 23 - i,
    {
        out.push(ALL_RULE_IDS[i].rule());
        i = i + 1;
    }
    out
}

/// Every descriptor carries the string id of its rule.
pub proof fn lemma_rule_carries_id(id: RuleId)
    ensures
        rule_of(id).id == rule_id_str(id),
{
}

/// Exactly R16, R19 and R21 are evaluated once over the whole log; every
/// other rule is evaluated per pull.
pub proof fn lemma_global_rules(id: RuleId)
    ensures
        rule_of(id).scope == RuleScope::Global <==> (id == RuleId::R16 || id == RuleId::R19 || id
            == RuleId::R21),
{
}

proof fn lemma_id_str_digits(id: RuleId)
    ensures
        1 <= id_number(id) <= 23,
        id_of_number(id_number(id)) == id,
        rule_id_str(id)@ == seq![
            'R',
            crate::text::digit_char(id_number(id) / 10),
            crate::text::digit_char(id_number(id) % 10),
        ],
{
    match id {
        RuleId::R01 => {
            reveal_strlit("R01");
        },
        RuleId::R02 => {
            reveal_strlit("R02");
        },
        RuleId::R03 => {
            reveal_strlit("R03");
        },
        RuleId::R04 => {
            reveal_strlit("R04");
        },
        RuleId::R05 => {
            reveal_strlit("R05");
        },
        RuleId::R06 => {
            reveal_strlit("R06");
        },
        RuleId::R07 => {
            reveal_strlit("R07");
        },
        RuleId::R08 => {
            reveal_strlit("R08");
        },
        RuleId::R09 => {
            reveal_strlit("R09");
        },
        RuleId::R10 => {
            reveal_strlit("R10");
        },
        RuleId::R11 => {
            reveal_strlit("R11");
        },
        RuleId::R12 => {
            reveal_strlit("R12");
        },
        RuleId::R13 => {
            reveal_strlit("R13");
        },
        RuleId::R14 => {
            reveal_strlit("R14");
        },
        RuleId::R15 => {
            reveal_strlit("R15");
        },
        RuleId::R16 => {
            reveal_strlit("R16");
        },
        RuleId::R17 => {
            reveal_strlit("R17");
        },
        RuleId::R18 => {
            reveal_strlit("R18");
        },
        RuleId::R19 => {
            reveal_strlit("R19");
        },
        RuleId::R20 => {
            reveal_strlit("R20");
        },
        RuleId::R21 => {
            reveal_strlit("R21");
        },
        RuleId::R22 => {
            reveal_strlit("R22");
        },
        RuleId::R23 => {
            reveal_strlit("R23");
        },
    }
    assert(rule_id_str(id)@ =~= seq![
        'R',
        crate::text::digit_char(id_number(id) / 10),
        crate::text::digit_char(id_number(id) % 10),
    ]);
}

/// Distinct rules have distinct string ids.
pub proof fn lemma_rule_ids_distinct(a: RuleId, b: RuleId)
    ensures
        rule_id_str(a)@ == rule_id_str(b)@ <==> a == b,
{
    lemma_id_str_digits(a);
    lemma_id_str_digits(b);
    if rule_id_str(a)@ == rule_id_str(b)@ {
        let na = id_number(a);
        let nb = id_number(b);
        assert(rule_id_str(a)@[1] == rule_id_str(b)@[1]);
        assert(rule_id_str(a)@[2] == rule_id_str(b)@[2]);
        assert(na / 10 == nb / 10);
        assert(na % 10 == nb % 10);
        assert(na == nb);
    }
}

/// The canonical order lists every rule exactly once, by number.
pub proof fn lemma_all_rule_ids_enumerate()
    ensures
        forall|i: int| 0 <= i < 23 ==> id_number(#[trigger] ALL_RULE_IDS[i]) == i + 1,
        forall|i: int, j: int| 0 <= i < j < 23 ==> ALL_RULE_IDS[i] != ALL_RULE_IDS[j],
        forall|id: RuleId| #[trigger] ALL_RULE_IDS[id_number(id) - 1] == id,
{
    assert forall|id: RuleId| #[trigger] ALL_RULE_IDS[id_number(id) - 1] == id by {
        match id {
            RuleId::R01 => {},
            RuleId::R02 => {},
            RuleId::R03 => {},
            RuleId::R04 => {},
            RuleId::R05 => {},
            RuleId::R06 => {},
            RuleId::R07 => {},
            RuleId::R08 => {},
            RuleId::R09 => {},
            RuleId::R10 => {},
            RuleId::R11 => {},
            RuleId::R12 => {},
            RuleId::R13 => {},
            RuleId::R14 => {},
            RuleId::R15 => {},
            RuleId::R16 => {},
            RuleId::R17 => {},
            RuleId::R18 => {},
            RuleId::R19 => {},
            RuleId::R20 => {},
            RuleId::R21 => {},
            RuleId::R22 => {},
            RuleId::R23 => {},
        }
    }
}

// ---------------------------------------------------------------------------
// R19: the DTC scan
// ---------------------------------------------------------------------------

/// R19 action when a real solenoid wiring fault is reported.
pub const R19_ACTION_WIRING: &'static str =
    "P0403 → real EGR solenoid wiring fault, investigate before suppressing.";

/// R19 action when only group B codes are reported.
pub const R19_ACTION_GROUP_B: &'static str =
    "P0404/P0405/P0406 should not appear on AMF — verify DAMOS code-list and ECU file.";

/// R19 action otherwise.
pub const R19_ACTION_WIDEN: &'static str =
    "DTC_thresholds: widen P0401/P0402 plausibility windows (or zero enable flags).";

/// R19 skip reason when no DTC scan was captured.
pub const R19_NO_SCAN: &'static str = "no DTC scan provided (sidecar missing or empty)";

/// Two codes are the same up to ASCII case.
pub open spec fn same_code(a: Seq<char>, b: Seq<char>) -> bool {
    upper_seq(a) == upper_seq(b)
}

/// Whether the scan reports `code` (ASCII case-insensitively).
pub open spec fn code_reported(dtcs: Seq<Seq<char>>, code: Seq<char>) -> bool {
    exists|i: int| 0 <= i < dtcs.len() && same_code(#[trigger] dtcs[i], code)
}

/// The codes of `codes` that the scan reports, in the order of `codes`.
pub open spec fn reported_among(codes: Seq<&'static str>, dtcs: Seq<Seq<char>>) -> Seq<&'static str>
    decreases codes.len(),
{
    if codes.len() == 0 {
        Seq::empty()
    } else {
        let p = reported_among(codes.drop_last(), dtcs);
        if code_reported(dtcs, codes.last()@) {
            p.push(codes.last())
        } else {
            p
        }
    }
}

/// The EGR codes the scan reports, in list order.
pub open spec fn suspect_codes(dtcs: Seq<Seq<char>>) -> Seq<&'static str> {
    reported_among(DTC_LIST_TO_SUPPRESS@, dtcs)
}

/// Some suspect is a wiring-fault code.
pub open spec fn has_wiring_fault(s: Seq<&'static str>) -> bool {
    exists|k: int, j: int| 0 <= k < s.len() && 0 <= j < 1 && #[trigger] s[k]@ == #[trigger] DTC_WIRING_FAULTS[j]@
}

/// Every suspect is a group B code.
pub open spec fn group_b_only(s: Seq<&'static str>) -> bool {
    forall|k: int| 0 <= k < s.len() ==> exists|j: int| 0 <= j < 3 && #[trigger] s[k]@ == #[trigger] DTC_GROUP_B[j]@
}

/// The action R19 recommends for a set of suspects.
pub open spec fn r19_action(s: Seq<&'static str>) -> &'static str {
    if has_wiring_fault(s) {
        R19_ACTION_WIRING
    } else if group_b_only(s) {
        R19_ACTION_GROUP_B
    } else {
        R19_ACTION_WIDEN
    }
}

/// The rationale of a firing R19: its one-liner and the observed codes.
pub open spec fn r19_rationale(s: Seq<&'static str>) -> Seq<char> {
    R19_WHY@ + " (observed: "@ + join_sep(str_views(s), ", "@) + ")"@
}

proof fn lemma_reported_among_contains(codes: Seq<&'static str>, dtcs: Seq<Seq<char>>, i: int)
    requires
        0 <= i < codes.len(),
        code_reported(dtcs, codes[i]@),
    ensures
        exists|k: int| 0 <= k < reported_among(codes, dtcs).len() && #[trigger] reported_among(codes, dtcs)[k]
            == codes[i],
    decreases codes.len(),
{
    let r = reported_among(codes, dtcs);
    if i == codes.len() - 1 {
        assert(r[r.len() - 1] == codes[i]);
    } else {
        let pre = codes.drop_last();
        assert(pre[i] == codes[i]);
        lemma_reported_among_contains(pre, dtcs, i);
        let p = reported_among(pre, dtcs);
        let k = choose|k: int| 0 <= k < p.len() && #[trigger] p[k] == pre[i];
        assert(r[k] == p[k]);
    }
}

/// A scan that reports P0403 always gets the wiring-fault action: a real
/// solenoid fault is never waved through as a delete to suppress.
pub proof fn lemma_r19_p0403_is_wiring(dtcs: Seq<Seq<char>>)
    requires
        code_reported(dtcs, "P0403"@),
    ensures
        r19_action(suspect_codes(dtcs)) == R19_ACTION_WIRING,
{
    let codes = DTC_LIST_TO_SUPPRESS@;
    assert(codes[2] == "P0403");
    lemma_reported_among_contains(codes, dtcs, 2);
    let s = suspect_codes(dtcs);
    let k = choose|k: int| 0 <= k < s.len() && #[trigger] s[k] == codes[2];
    assert(DTC_WIRING_FAULTS[0] == "P0403");
    assert(s[k]@ == DTC_WIRING_FAULTS[0]@);
    assert(has_wiring_fault(s));
}

/// What the DTC scan rule concludes.
#[derive(Debug, Clone)]
pub enum DtcVerdict {
    /// No DTC scan was provided: the rule is skipped.
    Skipped,
    /// The scan shows none of the EGR codes.
    Quiet,
    /// The scan shows EGR codes.
    Fires {
        /// The EGR codes seen, in list order.
        suspect: Vec<&'static str>,
        /// Recommended action.
        action: &'static str,
        /// Rationale naming the observed codes.
        rationale: String,
    },
}

fn same_code_chars(a: &Vec<char>, b: &Vec<char>) -> (r: bool)
    ensures
        r == same_code(a@, b@),
{
    let ua = upper_chars(a);
    let ub = upper_chars(b);
    chars_eq(&ua, &ub)
}

pub fn reported(dtcs: &[String], code: &str) -> (r: bool)
    ensures
        r == code_reported(views(dtcs@), code@),
{
    let c = chars_of(code);
    let n = dtcs.len();
    let mut i: usize = 0;
    while i < n
        invariant
            n == dtcs@.len(),
            c@ == code@,
            i <= n,
            forall|k: int| 0 <= k < i ==> !same_code(#[trigger] views(dtcs@)[k], code@),
        decreases n - i,
    {
        let d = chars_of(dtcs[i].as_str());
        if same_code_chars(&d, &c) {
            assert(same_code(views(dtcs@)[i as int], code@));
            return true;
        }
        i = i + 1;
    }
    false
}

/// R19 over a DTC scan: skipped when the scan is empty, quiet when no EGR
/// code is reported, otherwise firing with the reported EGR codes, the
/// recommended action and the rationale.
pub fn r19_verdict(dtcs: &[String]) -> (r: DtcVerdict)
    ensures
        match r {
            DtcVerdict::Skipped => dtcs@.len() == 0,
            DtcVerdict::Quiet => dtcs@.len() > 0 && suspect_codes(views(dtcs@)).len() == 0,
            DtcVerdict::Fires { suspect, action, rationale } => {
                &&& dtcs@.len() > 0
                &&& suspect@ == suspect_codes(views(dtcs@))
                &&& suspect@.len() > 0
                &&& action == r19_action(suspect@)
                &&& rationale@ == r19_rationale(suspect@)
            },
        },
{
    if dtcs.len() == 0 {
        return DtcVerdict::Skipped;
    }
    let ghost all = DTC_LIST_TO_SUPPRESS@;
    let mut suspect: Vec<&'static str> = Vec::new();
    let mut i: usize = 0;
    while i < 6
        invariant
            all == DTC_LIST_TO_SUPPRESS@,
            i <= 6,
            suspect@ == reported_among(all.take(i as int), views(dtcs@)),
        decreases 6 - i,
    {
        assert(all.take(i + 1).drop_last() =~= all.take(i as int));
        assert(all.take(i + 1).last() == DTC_LIST_TO_SUPPRESS[i as int]);
        let code = DTC_LIST_TO_SUPPRESS[i];
        if reported(dtcs, code) {
            suspect.push(code);
        }
        i = i + 1;
    }
    assert(all.take(6) =~= all);
    if suspect.len() == 0 {
        return DtcVerdict::Quiet;
    }
    let mut wiring = false;
    let mut group_b = true;
    let m = suspect.len();
    let mut k: usize = 0;
    while k < m
        invariant
            m == suspect@.len(),
            k <= m,
            wiring == exists|a: int, j: int|
                0 <= a < k && 0 <= j < 1 && #[trigger] suspect@[a]@ == #[trigger] DTC_WIRING_FAULTS[j]@,
            group_b == forall|a: int|
                0 <= a < k ==> exists|j: int| 0 <= j < 3 && #[trigger] suspect@[a]@ == #[trigger] DTC_GROUP_B[j]@,
        decreases m - k,
    {
        let c = suspect[k];
        let is_wiring = str_eq(c, DTC_WIRING_FAULTS[0]);
        if is_wiring {
            wiring = true;
            assert(suspect@[k as int]@ == DTC_WIRING_FAULTS[0]@);
        }
        let in_b = str_eq(c, DTC_GROUP_B[0]) || str_eq(c, DTC_GROUP_B[1]) || str_eq(c, DTC_GROUP_B[2]);
        if !in_b {
            group_b = false;
            assert(!(exists|j: int| 0 <= j < 3 && #[trigger] suspect@[k as int]@ == #[trigger] DTC_GROUP_B[j]@));
        } else {
            assert(exists|j: int| 0 <= j < 3 && #[trigger] suspect@[k as int]@ == #[trigger] DTC_GROUP_B[j]@);
        }
        k = k + 1;
    }
    let action = if wiring {
        R19_ACTION_WIRING
    } else if group_b {
        R19_ACTION_GROUP_B
    } else {
        R19_ACTION_WIDEN
    };
    let mut rationale = String::from_str(R19_WHY);
    append_str(&mut rationale, " (observed: ");
    push_joined(&mut rationale, suspect.as_slice(), ", ");
    append_str(&mut rationale, ")");
    DtcVerdict::Fires { suspect, action, rationale }
}

// ---------------------------------------------------------------------------
// Evaluation plan
// ---------------------------------------------------------------------------

/// How the runner treats one rule on one log.
#[derive(Debug, Clone)]
pub enum RulePlan {
    /// A required VCDS group is missing: emit skipped placeholders with
    /// this reason, one per pull when `per_pull`, otherwise one spanning
    /// the whole log.
    Skip {
        /// Skip reason naming the missing groups.
        reason: String,
        /// Whether there is one placeholder per detected pull.
        per_pull: bool,
    },
    /// Evaluate once per detected pull.
    EachPull,
    /// Evaluate once over the whole log.
    WholeLog,
}

/// Decide how a rule is run on a log with the given groups and number of
/// detected pulls.
pub fn plan_rule(rule: &Rule, groups: &[String], n_pulls: usize) -> (r: RulePlan)
    ensures
        ({
            let miss = missing_from(str_views(rule.requires_groups@), views(groups@));
            match r {
                RulePlan::Skip { reason, per_pull } => {
                    &&& miss.len() > 0
                    &&& reason@ == missing_groups_reason(miss)
                    &&& per_pull == (rule.scope == RuleScope::PerPull && n_pulls > 0)
                },
                RulePlan::EachPull => miss.len() == 0 && rule.scope == RuleScope::PerPull,
                RulePlan::WholeLog => miss.len() == 0 && rule.scope == RuleScope::Global,
            }
        }),
{
    let req = rule.requires_groups;
    let ghost rv = str_views(req@);
    let n = req.len();
    let mut missing: Vec<String> = Vec::new();
    let mut i: usize = 0;
    while i < n
        invariant
            n == req@.len(),
            rv == str_views(req@),
            i <= n,
            views(missing@) == missing_from(rv.take(i as int), views(groups@)),
        decreases n - i,
    {
        assert(rv.take(i + 1).drop_last() =~= rv.take(i as int));
        assert(rv.take(i + 1).last() == req@[i as int]@);
        let g = req[i];
        if !contains_string(groups, g) {
            let ghost m0 = views(missing@);
            missing.push(String::from_str(g));
            assert(views(missing@) =~= m0.push(g@));
        }
        i = i + 1;
    }
    assert(rv.take(n as int) =~= rv);
    if missing.len() > 0 {
        let reason = missing_groups_text(&missing);
        let per_pull = match rule.scope {
            RuleScope::PerPull => n_pulls > 0,
            RuleScope::Global => false,
        };
        return RulePlan::Skip { reason, per_pull };
    }
    match rule.scope {
        RuleScope::PerPull => RulePlan::EachPull,
        RuleScope::Global => RulePlan::WholeLog,
    }
}

} // verus!
