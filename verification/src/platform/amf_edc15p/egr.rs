//! Software EGR delete for AMF / EDC15P+: the symbolic targets.
//!
//! 1. EGR duty driven to 0 % across the whole operating domain by zeroing
//!    the EGR-duty map AND raising the spec-MAF map to at least MAF actual
//!    at every cell, a redundant pair so the PID never asks for EGR.
//! 2. P0401–P0406 enable flags suppressed, or thresholds widened so they
//!    cannot trigger.
//! 3. MAF stays the closed-loop input: the MAF/MAP smoke-limiter switch is
//!    left at `0x00` (MAF-based).
//!
//! Hardware stays in place; the tool emits symbolic targets only and the
//! user resolves byte addresses in their tuning tool.

use vstd::prelude::*;

use crate::text::append_str;
use crate::text::decimal;
use crate::text::join_sep;
use crate::text::push_decimal;
use crate::text::push_joined;
use crate::text::str_views;

verus! {

/// Symbolic name of the EGR-duty map (`arwMEAB0KL` / `arwMEAB1KL`).
pub const EGR_DUTY_MAP_NAME: &'static str = "AGR_arwMEAB0KL";

/// Symbolic name of the spec-MAF (expected air mass) map.
pub const SPEC_MAF_MAP_NAME: &'static str = "arwMLGRDKF";

/// Diagnostic Trouble Codes suppressed or widened after the delete:
/// insufficient flow, excessive flow, solenoid circuit, range /
/// performance, position sensor low, position sensor high.
pub const DTC_LIST_TO_SUPPRESS: [&'static str; 6] = [
    "P0401",
    "P0402",
    "P0403",
    "P0404",
    "P0405",
    "P0406",
];

/// DTCs that indicate a real wiring fault rather than a delete that needs
/// suppressing.
pub const DTC_WIRING_FAULTS: [&'static str; 1] = ["P0403"];

/// Group B codes: should not appear on AMF at all.
pub const DTC_GROUP_B: [&'static str; 3] = ["P0404", "P0405", "P0406"];

/// Spec-MAF fill of the saturated strategy (mg/stroke).
pub const SPEC_MAF_FILL_MG_STROKE: u32 = 850;

/// Warm-engine coolant minimum (°C).
pub const WARM_COOLANT_MIN_C: u32 = 80;

/// Largest IQ (mg/stroke) still counted as idle.
pub const IDLE_IQ_MAX_MG: u32 = 8;

/// Cruise band: lowest engine speed (rpm).
pub const CRUISE_RPM_LO: u32 = 1500;

/// Cruise band: highest engine speed (rpm).
pub const CRUISE_RPM_HI: u32 = 2500;

/// Cruise band: lowest IQ (mg/stroke).
pub const CRUISE_IQ_LO_MG: u32 = 5;

/// Cruise band: highest IQ (mg/stroke).
pub const CRUISE_IQ_HI_MG: u32 = 15;

/// Default cruise-band SOI retard (degrees).
pub const CRUISE_SOI_RETARD_DEG: u32 = 1;

/// Number of rows of the EGR-delete recommendation set.
pub const N_EGR_DELETE_DELTAS: usize = 6;

/// Cell selector of the two whole-map rows.
pub const ALL_CELLS_BOTH_BANKS: &'static str = "all cells, both banks";

/// Action of the EGR-duty row.
pub const EGR_DUTY_ACTION: &'static str = "set to 0% (valve-closed-fill, polarity per loaded file)";

/// Rationale of the EGR-duty row.
pub const EGR_DUTY_RATIONALE: &'static str = "Primary actuator path. Zeroing the EGR-duty map drives the EGR vacuum solenoid \
     to 0% so the spring-return valve stays mechanically closed. \
     Hardware stays installed; only the duty map is flashed.";

/// Rationale of the spec-MAF row.
pub const SPEC_MAF_RATIONALE: &'static str = "Belt-and-braces: makes MAF_actual − MAF_spec permanently ≤ 0 so the EGR PID \
     never asks for EGR even if the duty map is interpreted with the opposite \
     polarity convention.";

/// Map name of the DTC-threshold row.
pub const DTC_THRESHOLDS_MAP_NAME: &'static str = "DTC_thresholds";

/// Action of the DTC-threshold row.
pub const DTC_THRESHOLDS_ACTION: &'static str = "widen MAF-deviation threshold and time-debounce so they cannot trip";

/// Rationale of the DTC-threshold row.
pub const DTC_THRESHOLDS_RATIONALE: &'static str = "Threshold widening (preferred for safety): the DTC code path still runs but \
     cannot trip on a deleted EGR. P0403 will still detect a real solenoid wiring \
     fault.";

/// Map name of the MAF/MAP smoke-limiter switch.
pub const SMOKE_SWITCH_MAP_NAME: &'static str = "MAF_MAP_smoke_switch";

/// Cells of the MAF/MAP smoke-limiter switch.
pub const SMOKE_SWITCH_CELLS: &'static str = "0x51C30 / 0x71C30";

/// Action of the MAF/MAP smoke-limiter switch row.
pub const SMOKE_SWITCH_ACTION: &'static str = "LEAVE STOCK at 0x00 (MAF-based smoke limiting)";

/// Rationale of the MAF/MAP smoke-limiter switch row.
pub const SMOKE_SWITCH_RATIONALE: &'static str = "MAF stays closed-loop. HFM5 is in-spec, post-delete MAF is well within sensor \
     linear range, and the IQ-by-MAF map is real and well-shaped on AMF — flipping \
     to MAP would expose the engine to a flat / unused IQ-by-MAP map.";

/// Map name of the idle-fuel row.
pub const IDLE_FUEL_MAP_NAME: &'static str = "Idle_fuel";

/// Action of the idle-fuel row (R21 is the idle-stability rule).
pub const IDLE_FUEL_ACTION: &'static str = "−1.5 mg/stroke (CONDITIONAL — only if R21 idle-stability fires)";

/// Rationale of the idle-fuel row.
pub const IDLE_FUEL_RATIONALE: &'static str = "Post-delete idle leans out (more O₂, less inert charge). Some EA188 PD engines \
     show a marginal NVH bump. Apply only when the log shows RPM σ > 25 over a 30 s \
     warm-idle window.";

/// Map name of the cruise SOI row.
pub const SOI_CRUISE_MAP_NAME: &'static str = "SOI_warm_cruise";

/// Rationale of the cruise SOI row.
pub const SOI_CRUISE_RATIONALE: &'static str = "EGR-off cruise has a faster premixed phase. Retarding SOI 1° in the cruise \
     band brings combustion noise back to the stock subjective baseline. Cold-start \
     SOI maps (4..9) untouched — cold-start integrity matters more than cruise NVH.";

/// One change recommended on a symbolic map; banks always parallel.
#[derive(Debug, Clone, PartialEq, Eq)]
pub struct MapDelta {
    /// Symbolic map name.
    pub map_name: String,
    /// Cells / region the delta applies to.
    pub cell_selector: String,
    /// Action description.
    pub action: String,
    /// Numeric value of the action in tenths of its unit, if it has one.
    pub value_tenths: Option<i32>,
    /// One-paragraph rationale shown in the report.
    pub rationale: String,
}

/// `(map name, cells, action, value in tenths, rationale)` of a delta.
pub open spec fn map_delta_view(d: MapDelta) -> (Seq<char>, Seq<char>, Seq<char>, Option<i32>, Seq<char>) {
    (d.map_name@, d.cell_selector@, d.action@, d.value_tenths, d.rationale@)
}

/// Cells of the DTC-threshold row: the suppressed codes, comma-separated.
pub open spec fn dtc_thresholds_cells() -> Seq<char> {
    join_sep(str_views(DTC_LIST_TO_SUPPRESS@), ", "@) + " entries"@
}

/// Cells of the idle-fuel row.
pub open spec fn idle_fuel_cells() -> Seq<char> {
    "warm idle (T_coolant ≥ "@ + decimal(WARM_COOLANT_MIN_C as nat) + "°C, IQ ≤ "@ + decimal(
        IDLE_IQ_MAX_MG as nat,
    ) + " mg)"@
}

/// Cells of the cruise SOI row.
pub open spec fn soi_cruise_cells() -> Seq<char> {
    decimal(CRUISE_RPM_LO as nat) + "-"@ + decimal(CRUISE_RPM_HI as nat) + " rpm × "@ + decimal(
        CRUISE_IQ_LO_MG as nat,
    ) + "-"@ + decimal(CRUISE_IQ_HI_MG as nat) + " mg, warm SOI maps 0..3"@
}

/// Action of the spec-MAF row.
pub open spec fn spec_maf_action() -> Seq<char> {
    "fill "@ + decimal(SPEC_MAF_FILL_MG_STROKE as nat) + " mg/stroke (Strategy B — saturated)"@
}

/// Action of the cruise SOI row.
pub open spec fn soi_cruise_action() -> Seq<char> {
    "−"@ + decimal(CRUISE_SOI_RETARD_DEG as nat) + "° BTDC (NVH mitigation)"@
}

/// Row `i` of the software EGR-delete recommendation set.
pub open spec fn egr_delete_delta_of(i: int) -> (Seq<char>, Seq<char>, Seq<char>, Option<i32>, Seq<char>) {
    if i == 0 {
        (EGR_DUTY_MAP_NAME@, ALL_CELLS_BOTH_BANKS@, EGR_DUTY_ACTION@, Some(0i32), EGR_DUTY_RATIONALE@)
    } else if i == 1 {
        (
            SPEC_MAF_MAP_NAME@,
            ALL_CELLS_BOTH_BANKS@,
            spec_maf_action(),
            Some((SPEC_MAF_FILL_MG_STROKE * 10) as i32),
            SPEC_MAF_RATIONALE@,
        )
    } else if i == 2 {
        (DTC_THRESHOLDS_MAP_NAME@, dtc_thresholds_cells(), DTC_THRESHOLDS_ACTION@, None, DTC_THRESHOLDS_RATIONALE@)
    } else if i == 3 {
        (SMOKE_SWITCH_MAP_NAME@, SMOKE_SWITCH_CELLS@, SMOKE_SWITCH_ACTION@, None, SMOKE_SWITCH_RATIONALE@)
    } else if i == 4 {
        (IDLE_FUEL_MAP_NAME@, idle_fuel_cells(), IDLE_FUEL_ACTION@, Some(-15i32), IDLE_FUEL_RATIONALE@)
    } else {
        (
            SOI_CRUISE_MAP_NAME@,
            soi_cruise_cells(),
            soi_cruise_action(),
            Some((-(CRUISE_SOI_RETARD_DEG * 10)) as i32),
            SOI_CRUISE_RATIONALE@,
        )
    }
}

fn delta(map_name: String, cell_selector: String, action: String, value_tenths: Option<i32>, rationale: &str) -> (r: MapDelta)
    ensures
        map_delta_view(r) == (map_name@, cell_selector@, action@, value_tenths, rationale@),
{
    MapDelta { map_name, cell_selector, action, value_tenths, rationale: String::from_str(rationale) }
}

/// The unconditional software EGR-delete recommendation set: duty map
/// zeroed, spec-MAF filled, DTC thresholds widened, MAF/MAP switch left at
/// stock, conditional idle fuel, cruise SOI retard.
pub fn recommend_egr_delete_deltas() -> (r: Vec<MapDelta>)
    ensures
        r@.len() == N_EGR_DELETE_DELTAS,
        forall|i: int| 0 <= i < N_EGR_DELETE_DELTAS ==> #[trigger] map_delta_view(r@[i]) == egr_delete_delta_of(i),
{
    let mut out: Vec<MapDelta> = Vec::new();
    out.push(delta(
        String::from_str(EGR_DUTY_MAP_NAME),
        String::from_str(ALL_CELLS_BOTH_BANKS),
        String::from_str(EGR_DUTY_ACTION),
        Some(0),
        EGR_DUTY_RATIONALE,
    ));
    let mut fill = String::from_str("fill ");
    push_decimal(&mut fill, SPEC_MAF_FILL_MG_STROKE as usize);
    append_str(&mut fill, " mg/stroke (Strategy B — saturated)");
    out.push(delta(
        String::from_str(SPEC_MAF_MAP_NAME),
        String::from_str(ALL_CELLS_BOTH_BANKS),
        fill,
        Some((SPEC_MAF_FILL_MG_STROKE * 10) as i32),
        SPEC_MAF_RATIONALE,
    ));
    let mut dtc_cells = String::new();
    push_joined(&mut dtc_cells, &DTC_LIST_TO_SUPPRESS, ", ");
    append_str(&mut dtc_cells, " entries");
    out.push(delta(
        String::from_str(DTC_THRESHOLDS_MAP_NAME),
        dtc_cells,
        String::from_str(DTC_THRESHOLDS_ACTION),
        None,
        DTC_THRESHOLDS_RATIONALE,
    ));
    out.push(delta(
        String::from_str(SMOKE_SWITCH_MAP_NAME),
        String::from_str(SMOKE_SWITCH_CELLS),
        String::from_str(SMOKE_SWITCH_ACTION),
        None,
        SMOKE_SWITCH_RATIONALE,
    ));
    let mut idle = String::from_str("warm idle (T_coolant ≥ ");
    push_decimal(&mut idle, WARM_COOLANT_MIN_C as usize);
    append_str(&mut idle, "°C, IQ ≤ ");
    push_decimal(&mut idle, IDLE_IQ_MAX_MG as usize);
    append_str(&mut idle, " mg)");
    out.push(delta(
        String::from_str(IDLE_FUEL_MAP_NAME),
        idle,
        String::from_str(IDLE_FUEL_ACTION),
        Some(-15),
        IDLE_FUEL_RATIONALE,
    ));
    let mut band = String::new();
    push_decimal(&mut band, CRUISE_RPM_LO as usize);
    append_str(&mut band, "-");
    push_decimal(&mut band, CRUISE_RPM_HI as usize);
    append_str(&mut band, " rpm × ");
    push_decimal(&mut band, CRUISE_IQ_LO_MG as usize);
    append_str(&mut band, "-");
    push_decimal(&mut band, CRUISE_IQ_HI_MG as usize);
    append_str(&mut band, " mg, warm SOI maps 0..3");
    let mut retard = String::from_str("−");
    push_decimal(&mut retard, CRUISE_SOI_RETARD_DEG as usize);
    append_str(&mut retard, "° BTDC (NVH mitigation)");
    out.push(delta(
        String::from_str(SOI_CRUISE_MAP_NAME),
        band,
        retard,
        Some(-((CRUISE_SOI_RETARD_DEG * 10) as i32)),
        SOI_CRUISE_RATIONALE,
    ));
    out
}

} // verus!
