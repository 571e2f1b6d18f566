//! Default sane Stage 1 deltas: one row per map recommendation.
//!
//! The recommendation engine reads each row, decides whether its rules
//! fire, and runs every emitted value through the envelope clamps. The
//! numeric value of each row is kept beside the table by the caller.

use vstd::prelude::*;

use crate::platform::amf_edc15p::maps::is_map_name;
use crate::platform::amf_edc15p::maps::MAPS;
use crate::rules::pack::rule_id_str;
use crate::rules::pack::RuleId;

verus! {

/// Kind of action a default delta represents.
#[derive(Debug, Clone, Copy, PartialEq, Eq, Structural)]
pub enum DeltaKind {
    /// Add a delta in mbar to the current value.
    DeltaMbar,
    /// Add a delta in mg/stroke.
    DeltaMg,
    /// Add a delta in degrees.
    DeltaDeg,
    /// Set the value to a fixed target.
    SetTo,
    /// Leave the map at stock.
    LeaveStock,
    /// Extend the axis end to a new endpoint.
    ExtendAxis,
    /// Clamp the peak of the surface to a fixed value (or via lambda model).
    ClampPeak,
    /// Drive the EGR duty map to 0 % in every cell.
    ZeroEgr,
    /// Fill the spec-MAF map with a saturating value.
    FillSpecMaf,
    /// Suppress or widen the EGR DTCs.
    SuppressDtc,
    /// Flatten the low-pedal Driver_Wish slope.
    Flatten,
    /// Set the cooling-fan stage thresholds.
    FanThresholds,
    /// Extend the fan run-on after key-off.
    FanRunOn,
}

/// One row in the default sane-deltas table.
#[derive(Debug, Clone, Copy)]
pub struct DefaultDelta {
    /// Symbolic map this delta targets.
    pub map_name: &'static str,
    /// Free-text cell selector (e.g. `"rpm 2000-3500 × IQ 40-50 mg"`).
    pub cell_selector: &'static str,
    /// Action kind.
    pub kind: DeltaKind,
    /// Rule ids of which one must fire to apply this delta; empty for an
    /// unconditional row.
    pub rule_refs: &'static [&'static str],
    /// Note printed verbatim in the report rationale.
    pub note: &'static str,
}

/// Number of rows in the default-deltas table.
pub const N_DEFAULT_DELTAS: usize = 25;

/// Rule refs of default-delta row 0.
pub const DD0_REFS: [&'static str; 2] = ["R02", "R03"];

/// Rule refs of default-delta row 1.
pub const DD1_REFS: [&'static str; 1] = ["R04"];

/// Rule refs of default-delta row 2.
pub const DD2_REFS: [&'static str; 0] = [];

/// Rule refs of default-delta row 3.
pub const DD3_REFS: [&'static str; 1] = ["R07"];

/// Rule refs of default-delta row 4.
pub const DD4_REFS: [&'static str; 1] = ["R06"];

/// Rule refs of default-delta row 5.
pub const DD5_REFS: [&'static str; 1] = ["R06"];

/// Rule refs of default-delta row 6.
pub const DD6_REFS: [&'static str; 1] = ["R08"];

/// Rule refs of default-delta row 7.
pub const DD7_REFS: [&'static str; 1] = ["R09"];

/// Rule refs of default-delta row 8.
pub const DD8_REFS: [&'static str; 1] = ["R07"];

/// Rule refs of default-delta row 9.
pub const DD9_REFS: [&'static str; 0] = [];

/// Rule refs of default-delta row 10.
pub const DD10_REFS: [&'static str; 1] = ["R01"];

/// Rule refs of default-delta row 11.
pub const DD11_REFS: [&'static str; 0] = [];

/// Rule refs of default-delta row 12.
pub const DD12_REFS: [&'static str; 1] = ["R05"];

/// Rule refs of default-delta row 13.
pub const DD13_REFS: [&'static str; 0] = [];

/// Rule refs of default-delta row 14.
pub const DD14_REFS: [&'static str; 0] = [];

/// Rule refs of default-delta row 15.
pub const DD15_REFS: [&'static str; 0] = [];

/// Rule refs of default-delta row 16.
pub const DD16_REFS: [&'static str; 0] = [];

/// Rule refs of default-delta row 17.
pub const DD17_REFS: [&'static str; 0] = [];

/// Rule refs of default-delta row 18.
pub const DD18_REFS: [&'static str; 0] = [];

/// Rule refs of default-delta row 19.
pub const DD19_REFS: [&'static str; 0] = [];

/// Rule refs of default-delta row 20.
pub const DD20_REFS: [&'static str; 1] = ["R21"];

/// Rule refs of default-delta row 21.
pub const DD21_REFS: [&'static str; 1] = ["R18"];

/// Rule refs of default-delta row 22.
pub const DD22_REFS: [&'static str; 1] = ["R22"];

/// Rule refs of default-delta row 23.
pub const DD23_REFS: [&'static str; 0] = [];

/// Rule refs of default-delta row 24.
pub const DD24_REFS: [&'static str; 0] = [];

/// Row `i` of the default-deltas table.
pub open spec fn default_delta_of(i: int) -> DefaultDelta {
    if i == 0 {
        DefaultDelta {
            map_name: "LDRXN",
            cell_selector: "rpm 2000-3500 × IQ 40-50 mg",
            kind: DeltaKind::DeltaMbar,
            rule_refs: &DD0_REFS,
            note: "Bounded to absolute ≤ 2150 mbar by clamp_boost_target.",
        }
    } else if i == 1 {
        DefaultDelta {
            map_name: "LDRXN",
            cell_selector: "rpm 4000-4500 (taper)",
            kind: DeltaKind::DeltaMbar,
            rule_refs: &DD1_REFS,
            note: "Hold at stock − 50 mbar to keep the GT1544S in its efficiency island.",
        }
    } else if i == 2 {
        DefaultDelta {
            map_name: "LDOLLR",
            cell_selector: "rpm × atm-pressure",
            kind: DeltaKind::LeaveStock,
            rule_refs: &DD2_REFS,
            note: "Cap at 2150 mbar at sea level; preserve altitude derate.",
        }
    } else if i == 3 {
        DefaultDelta {
            map_name: "Driver_Wish",
            cell_selector: "pedal 100% × rpm 1800-3500",
            kind: DeltaKind::SetTo,
            rule_refs: &DD3_REFS,
            note: "Raise to 50 mg/stroke; bounded by clamp_iq.",
        }
    } else if i == 4 {
        DefaultDelta {
            map_name: "Smoke_IQ_by_MAP",
            cell_selector: "boost 2000-2150 mbar × rpm 2000-3500",
            kind: DeltaKind::ClampPeak,
            rule_refs: &DD4_REFS,
            note: "Enforce λ ≥ 1.05 by computed IQ cap from MAF model.",
        }
    } else if i == 5 {
        DefaultDelta {
            map_name: "Smoke_IQ_by_MAF",
            cell_selector: "MAF 600-750 mg/str × rpm 2000-3500",
            kind: DeltaKind::ClampPeak,
            rule_refs: &DD5_REFS,
            note: "Same λ ≥ 1.05 floor, in MAF space.",
        }
    } else if i == 6 {
        DefaultDelta {
            map_name: "Torque_Limiter",
            cell_selector: "full surface",
            kind: DeltaKind::ClampPeak,
            rule_refs: &DD6_REFS,
            note: "Clamp peak modelled torque to 240 Nm — LUK SMF ceiling.",
        }
    } else if i == 7 {
        DefaultDelta {
            map_name: "SOI",
            cell_selector: "rpm 3500-4500 × IQ 40-50 mg (warm map only)",
            kind: DeltaKind::DeltaDeg,
            rule_refs: &DD7_REFS,
            note: "+1.5° BTDC, capped at 26° absolute by clamp_soi.",
        }
    } else if i == 8 {
        DefaultDelta {
            map_name: "Duration",
            cell_selector: "X-axis end",
            kind: DeltaKind::ExtendAxis,
            rule_refs: &DD8_REFS,
            note: "Extend axis 50 → 52 mg, proportional only.",
        }
    } else if i == 9 {
        DefaultDelta {
            map_name: "SVBL",
            cell_selector: "scalar",
            kind: DeltaKind::LeaveStock,
            rule_refs: &DD9_REFS,
            note: "Last line of defence — never touch.",
        }
    } else if i == 10 {
        DefaultDelta {
            map_name: "N75_duty",
            cell_selector: "full surface",
            kind: DeltaKind::LeaveStock,
            rule_refs: &DD10_REFS,
            note: "Leave stock unless R01 fires repeatedly.",
        }
    } else if i == 11 {
        DefaultDelta {
            map_name: "Pilot",
            cell_selector: "full surface",
            kind: DeltaKind::LeaveStock,
            rule_refs: &DD11_REFS,
            note: "Pilot is NVH, not power. Leave alone.",
        }
    } else if i == 12 {
        DefaultDelta {
            map_name: "MLHFM",
            cell_selector: "full surface",
            kind: DeltaKind::LeaveStock,
            rule_refs: &DD12_REFS,
            note: "Leave stock unless MAF replaced or drift > 10 %.",
        }
    } else if i == 13 {
        DefaultDelta {
            map_name: "Atmospheric_correction",
            cell_selector: "atm scalar",
            kind: DeltaKind::LeaveStock,
            rule_refs: &DD13_REFS,
            note: "Altitude correction stays stock.",
        }
    } else if i == 14 {
        DefaultDelta {
            map_name: "EGT_model",
            cell_selector: "model coefficients",
            kind: DeltaKind::LeaveStock,
            rule_refs: &DD14_REFS,
            note: "The EGT model is read, never raised.",
        }
    } else if i == 15 {
        DefaultDelta {
            map_name: "AGR_arwMEAB0KL",
            cell_selector: "all cells, bank 0",
            kind: DeltaKind::ZeroEgr,
            rule_refs: &DD15_REFS,
            note: "Mandatory software EGR delete: 0 % duty keeps the spring-return valve closed.",
        }
    } else if i == 16 {
        DefaultDelta {
            map_name: "AGR_arwMEAB1KL",
            cell_selector: "all cells, bank 1",
            kind: DeltaKind::ZeroEgr,
            rule_refs: &DD16_REFS,
            note: "Mandatory software EGR delete: the second bank mirrors the first.",
        }
    } else if i == 17 {
        DefaultDelta {
            map_name: "arwMLGRDKF",
            cell_selector: "all cells, both banks",
            kind: DeltaKind::FillSpecMaf,
            rule_refs: &DD17_REFS,
            note: "Strategy B: spec-MAF saturated so the EGR PID never asks for EGR.",
        }
    } else if i == 18 {
        DefaultDelta {
            map_name: "DTC_thresholds",
            cell_selector: "P0401, P0402, P0403, P0404, P0405, P0406 entries",
            kind: DeltaKind::SuppressDtc,
            rule_refs: &DD18_REFS,
            note: "Widen plausibility windows so a deleted EGR cannot trip them; P0403 still detects a real wiring fault.",
        }
    } else if i == 19 {
        DefaultDelta {
            map_name: "MAF_MAP_smoke_switch",
            cell_selector: "0x51C30 / 0x71C30",
            kind: DeltaKind::LeaveStock,
            rule_refs: &DD19_REFS,
            note: "MAF stays the closed-loop smoke-limiter input: leave at 0x00.",
        }
    } else if i == 20 {
        DefaultDelta {
            map_name: "Idle_fuel",
            cell_selector: "warm idle (T_coolant ≥ 80°C, IQ ≤ 8 mg)",
            kind: DeltaKind::DeltaMg,
            rule_refs: &DD20_REFS,
            note: "−1.5 mg/stroke at warm idle, only when R21 idle stability fires.",
        }
    } else if i == 21 {
        DefaultDelta {
            map_name: "SOI_warm_cruise",
            cell_selector: "1500-2500 rpm × 5-15 mg, warm SOI maps 0..3",
            kind: DeltaKind::DeltaDeg,
            rule_refs: &DD21_REFS,
            note: "−1.0° SOI retard in the cruise band for NVH, only if the cruise NVH note fires.",
        }
    } else if i == 22 {
        DefaultDelta {
            map_name: "Driver_Wish_low_pedal",
            cell_selector: "pedal 5-25 % × all rpm",
            kind: DeltaKind::Flatten,
            rule_refs: &DD22_REFS,
            note: "Flatten the off-idle IQ slope to tame the low-pedal lunge.",
        }
    } else if i == 23 {
        DefaultDelta {
            map_name: "Fan_thresholds",
            cell_selector: "stage-1 on/off, stage-2 on/off",
            kind: DeltaKind::FanThresholds,
            rule_refs: &DD23_REFS,
            note: "Earlier fan stages keep sustained-pull coolant in check.",
        }
    } else {
        DefaultDelta {
            map_name: "Fan_run_on",
            cell_selector: "post key-off",
            kind: DeltaKind::FanRunOn,
            rule_refs: &DD24_REFS,
            note: "Longer fan run-on after key-off, within the battery-protective ceiling.",
        }
    }
}

/// Row `i` of the default-deltas table.
pub fn default_delta(i: usize) -> (r: DefaultDelta)
    requires
        i < N_DEFAULT_DELTAS,
    ensures
        r == default_delta_of(i as int),
{
    if i == 0 {
        DefaultDelta {
            map_name: "LDRXN",
            cell_selector: "rpm 2000-3500 × IQ 40-50 mg",
            kind: DeltaKind::DeltaMbar,
            rule_refs: &DD0_REFS,
            note: "Bounded to absolute ≤ 2150 mbar by clamp_boost_target.",
        }
    } else if i == 1 {
        DefaultDelta {
            map_name: "LDRXN",
            cell_selector: "rpm 4000-4500 (taper)",
            kind: DeltaKind::DeltaMbar,
            rule_refs: &DD1_REFS,
            note: "Hold at stock − 50 mbar to keep the GT1544S in its efficiency island.",
        }
    } else if i == 2 {
        DefaultDelta {
            map_name: "LDOLLR",
            cell_selector: "rpm × atm-pressure",
            kind: DeltaKind::LeaveStock,
            rule_refs: &DD2_REFS,
            note: "Cap at 2150 mbar at sea level; preserve altitude derate.",
        }
    } else if i == 3 {
        DefaultDelta {
            map_name: "Driver_Wish",
            cell_selector: "pedal 100% × rpm 1800-3500",
            kind: DeltaKind::SetTo,
            rule_refs: &DD3_REFS,
            note: "Raise to 50 mg/stroke; bounded by clamp_iq.",
        }
    } else if i == 4 {
        DefaultDelta {
            map_name: "Smoke_IQ_by_MAP",
            cell_selector: "boost 2000-2150 mbar × rpm 2000-3500",
            kind: DeltaKind::ClampPeak,
            rule_refs: &DD4_REFS,
            note: "Enforce λ ≥ 1.05 by computed IQ cap from MAF model.",
        }
    } else if i == 5 {
        DefaultDelta {
            map_name: "Smoke_IQ_by_MAF",
            cell_selector: "MAF 600-750 mg/str × rpm 2000-3500",
            kind: DeltaKind::ClampPeak,
            rule_refs: &DD5_REFS,
            note: "Same λ ≥ 1.05 floor, in MAF space.",
        }
    } else if i == 6 {
        DefaultDelta {
            map_name: "Torque_Limiter",
            cell_selector: "full surface",
            kind: DeltaKind::ClampPeak,
            rule_refs: &DD6_REFS,
            note: "Clamp peak modelled torque to 240 Nm — LUK SMF ceiling.",
        }
    } else if i == 7 {
        DefaultDelta {
            map_name: "SOI",
            cell_selector: "rpm 3500-4500 × IQ 40-50 mg (warm map only)",
            kind: DeltaKind::DeltaDeg,
            rule_refs: &DD7_REFS,
            note: "+1.5° BTDC, capped at 26° absolute by clamp_soi.",
        }
    } else if i == 8 {
        DefaultDelta {
            map_name: "Duration",
            cell_selector: "X-axis end",
            kind: DeltaKind::ExtendAxis,
            rule_refs: &DD8_REFS,
            note: "Extend axis 50 → 52 mg, proportional only.",
        }
    } else if i == 9 {
        DefaultDelta {
            map_name: "SVBL",
            cell_selector: "scalar",
            kind: DeltaKind::LeaveStock,
            rule_refs: &DD9_REFS,
            note: "Last line of defence — never touch.",
        }
    } else if i == 10 {
        DefaultDelta {
            map_name: "N75_duty",
            cell_selector: "full surface",
            kind: DeltaKind::LeaveStock,
            rule_refs: &DD10_REFS,
            note: "Leave stock unless R01 fires repeatedly.",
        }
    } else if i == 11 {
        DefaultDelta {
            map_name: "Pilot",
            cell_selector: "full surface",
            kind: DeltaKind::LeaveStock,
            rule_refs: &DD11_REFS,
            note: "Pilot is NVH, not power. Leave alone.",
        }
    } else if i == 12 {
        DefaultDelta {
            map_name: "MLHFM",
            cell_selector: "full surface",
            kind: DeltaKind::LeaveStock,
            rule_refs: &DD12_REFS,
            note: "Leave stock unless MAF replaced or drift > 10 %.",
        }
    } else if i == 13 {
        DefaultDelta {
            map_name: "Atmospheric_correction",
            cell_selector: "atm scalar",
            kind: DeltaKind::LeaveStock,
            rule_refs: &DD13_REFS,
            note: "Altitude correction stays stock.",
        }
    } else if i == 14 {
        DefaultDelta {
            map_name: "EGT_model",
            cell_selector: "model coefficients",
            kind: DeltaKind::LeaveStock,
            rule_refs: &DD14_REFS,
            note: "The EGT model is read, never raised.",
        }
    } else if i == 15 {
        DefaultDelta {
            map_name: "AGR_arwMEAB0KL",
            cell_selector: "all cells, bank 0",
            kind: DeltaKind::ZeroEgr,
            rule_refs: &DD15_REFS,
            note: "Mandatory software EGR delete: 0 % duty keeps the spring-return valve closed.",
        }
    } else if i == 16 {
        DefaultDelta {
            map_name: "AGR_arwMEAB1KL",
            cell_selector: "all cells, bank 1",
            kind: DeltaKind::ZeroEgr,
            rule_refs: &DD16_REFS,
            note: "Mandatory software EGR delete: the second bank mirrors the first.",
        }
    } else if i == 17 {
        DefaultDelta {
            map_name: "arwMLGRDKF",
            cell_selector: "all cells, both banks",
            kind: DeltaKind::FillSpecMaf,
            rule_refs: &DD17_REFS,
            note: "Strategy B: spec-MAF saturated so the EGR PID never asks for EGR.",
        }
    } else if i == 18 {
        DefaultDelta {
            map_name: "DTC_thresholds",
            cell_selector: "P0401, P0402, P0403, P0404, P0405, P0406 entries",
            kind: DeltaKind::SuppressDtc,
            rule_refs: &DD18_REFS,
            note: "Widen plausibility windows so a deleted EGR cannot trip them; P0403 still detects a real wiring fault.",
        }
    } else if i == 19 {
        DefaultDelta {
            map_name: "MAF_MAP_smoke_switch",
            cell_selector: "0x51C30 / 0x71C30",
            kind: DeltaKind::LeaveStock,
            rule_refs: &DD19_REFS,
            note: "MAF stays the closed-loop smoke-limiter input: leave at 0x00.",
        }
    } else if i == 20 {
        DefaultDelta {
            map_name: "Idle_fuel",
            cell_selector: "warm idle (T_coolant ≥ 80°C, IQ ≤ 8 mg)",
            kind: DeltaKind::DeltaMg,
            rule_refs: &DD20_REFS,
            note: "−1.5 mg/stroke at warm idle, only when R21 idle stability fires.",
        }
    } else if i == 21 {
        DefaultDelta {
            map_name: "SOI_warm_cruise",
            cell_selector: "1500-2500 rpm × 5-15 mg, warm SOI maps 0..3",
            kind: DeltaKind::DeltaDeg,
            rule_refs: &DD21_REFS,
            note: "−1.0° SOI retard in the cruise band for NVH, only if the cruise NVH note fires.",
        }
    } else if i == 22 {
        DefaultDelta {
            map_name: "Driver_Wish_low_pedal",
            cell_selector: "pedal 5-25 % × all rpm",
            kind: DeltaKind::Flatten,
            rule_refs: &DD22_REFS,
            note: "Flatten the off-idle IQ slope to tame the low-pedal lunge.",
        }
    } else if i == 23 {
        DefaultDelta {
            map_name: "Fan_thresholds",
            cell_selector: "stage-1 on/off, stage-2 on/off",
            kind: DeltaKind::FanThresholds,
            rule_refs: &DD23_REFS,
            note: "Earlier fan stages keep sustained-pull coolant in check.",
        }
    } else {
        DefaultDelta {
            map_name: "Fan_run_on",
            cell_selector: "post key-off",
            kind: DeltaKind::FanRunOn,
            rule_refs: &DD24_REFS,
            note: "Longer fan run-on after key-off, within the battery-protective ceiling.",
        }
    }
}

/// The whole default-deltas table, in order.
pub fn default_deltas() -> (r: Vec<DefaultDelta>)
    ensures
        r@.len() == N_DEFAULT_DELTAS,
        forall|i: int| 0 <= i < N_DEFAULT_DELTAS ==> #[trigger] r@[i] == default_delta_of(i),
{
    let mut out: Vec<DefaultDelta> = Vec::new();
    let mut i: usize = 0;
    while i < N_DEFAULT_DELTAS
        invariant
            i <= N_DEFAULT_DELTAS,
            out@.len() == i,
            forall|k: int| 0 <= k < i ==> #[trigger] out@[k] == default_delta_of(k),
        decreases N_DEFAULT_DELTAS - i,
    {
        out.push(default_delta(i));
        i = i + 1;
    }
    out
}

/// Every row of the default-deltas table targets a registered map.
pub proof fn lemma_default_maps_registered()
    ensures
        forall|i: int| 0 <= i < N_DEFAULT_DELTAS ==> is_map_name(#[trigger] default_delta_of(i).map_name@),
{
    assert forall|i: int| 0 <= i < N_DEFAULT_DELTAS implies is_map_name(#[trigger] default_delta_of(i).map_name@) by {
        if i == 0 {
            assert(MAPS[0].0@ == default_delta_of(i).map_name@);
        }
        if i == 1 {
            assert(MAPS[0].0@ == default_delta_of(i).map_name@);
        }
        if i == 2 {
            assert(MAPS[1].0@ == default_delta_of(i).map_name@);
        }
        if i == 3 {
            assert(MAPS[3].0@ == default_delta_of(i).map_name@);
        }
        if i == 4 {
            assert(MAPS[5].0@ == default_delta_of(i).map_name@);
        }
        if i == 5 {
            assert(MAPS[4].0@ == default_delta_of(i).map_name@);
        }
        if i == 6 {
            assert(MAPS[6].0@ == default_delta_of(i).map_name@);
        }
        if i == 7 {
            assert(MAPS[8].0@ == default_delta_of(i).map_name@);
        }
        if i == 8 {
            assert(MAPS[9].0@ == default_delta_of(i).map_name@);
        }
        if i == 9 {
            assert(MAPS[2].0@ == default_delta_of(i).map_name@);
        }
        if i == 10 {
            assert(MAPS[11].0@ == default_delta_of(i).map_name@);
        }
        if i == 11 {
            assert(MAPS[10].0@ == default_delta_of(i).map_name@);
        }
        if i == 12 {
            assert(MAPS[7].0@ == default_delta_of(i).map_name@);
        }
        if i == 13 {
            assert(MAPS[13].0@ == default_delta_of(i).map_name@);
        }
        if i == 14 {
            assert(MAPS[14].0@ == default_delta_of(i).map_name@);
        }
        if i == 15 {
            assert(MAPS[15].0@ == default_delta_of(i).map_name@);
        }
        if i == 16 {
            assert(MAPS[16].0@ == default_delta_of(i).map_name@);
        }
        if i == 17 {
            assert(MAPS[17].0@ == default_delta_of(i).map_name@);
        }
        if i == 18 {
            assert(MAPS[18].0@ == default_delta_of(i).map_name@);
        }
        if i == 19 {
            assert(MAPS[19].0@ == default_delta_of(i).map_name@);
        }
        if i == 20 {
            assert(MAPS[20].0@ == default_delta_of(i).map_name@);
        }
        if i == 21 {
            assert(MAPS[21].0@ == default_delta_of(i).map_name@);
        }
        if i == 22 {
            assert(MAPS[22].0@ == default_delta_of(i).map_name@);
        }
        if i == 23 {
            assert(MAPS[23].0@ == default_delta_of(i).map_name@);
        }
        if i == 24 {
            assert(MAPS[24].0@ == default_delta_of(i).map_name@);
        }
    }
}

/// `s` is the string id of a rule of the pack.
pub open spec fn is_rule_ref(s: Seq<char>) -> bool {
    exists|id: RuleId| #[trigger] rule_id_str(id)@ == s
}

/// Every rule a default-delta row refers to is a rule of the pack.
pub proof fn lemma_default_refs_are_rules()
    ensures
        forall|i: int, t: int|
            0 <= i < N_DEFAULT_DELTAS && 0 <= t < default_delta_of(i).rule_refs@.len() ==> is_rule_ref(
                #[trigger] default_delta_of(i).rule_refs@[t]@,
            ),
{
    assert forall|i: int, t: int|
        0 <= i < N_DEFAULT_DELTAS && 0 <= t < default_delta_of(i).rule_refs@.len() implies is_rule_ref(
            #[trigger] default_delta_of(i).rule_refs@[t]@,
        ) by {
        if i == 0 && t == 0 {
            assert(rule_id_str(RuleId::R02)@ == default_delta_of(i).rule_refs@[t]@);
        }
        if i == 0 && t == 1 {
            assert(rule_id_str(RuleId::R03)@ == default_delta_of(i).rule_refs@[t]@);
        }
        if i == 1 && t == 0 {
            assert(rule_id_str(RuleId::R04)@ == default_delta_of(i).rule_refs@[t]@);
        }
        if i == 3 && t == 0 {
            assert(rule_id_str(RuleId::R07)@ == default_delta_of(i).rule_refs@[t]@);
        }
        if i == 4 && t == 0 {
            assert(rule_id_str(RuleId::R06)@ == default_delta_of(i).rule_refs@[t]@);
        }
        if i == 5 && t == 0 {
            assert(rule_id_str(RuleId::R06)@ == default_delta_of(i).rule_refs@[t]@);
        }
        if i == 6 && t == 0 {
            assert(rule_id_str(RuleId::R08)@ == default_delta_of(i).rule_refs@[t]@);
        }
        if i == 7 && t == 0 {
            assert(rule_id_str(RuleId::R09)@ == default_delta_of(i).rule_refs@[t]@);
        }
        if i == 8 && t == 0 {
            assert(rule_id_str(RuleId::R07)@ == default_delta_of(i).rule_refs@[t]@);
        }
        if i == 10 && t == 0 {
            assert(rule_id_str(RuleId::R01)@ == default_delta_of(i).rule_refs@[t]@);
        }
        if i == 12 && t == 0 {
            assert(rule_id_str(RuleId::R05)@ == default_delta_of(i).rule_refs@[t]@);
        }
        if i == 20 && t == 0 {
            assert(rule_id_str(RuleId::R21)@ == default_delta_of(i).rule_refs@[t]@);
        }
        if i == 21 && t == 0 {
            assert(rule_id_str(RuleId::R18)@ == default_delta_of(i).rule_refs@[t]@);
        }
        if i == 22 && t == 0 {
            assert(rule_id_str(RuleId::R22)@ == default_delta_of(i).rule_refs@[t]@);
        }
    }
}

} // verus!
