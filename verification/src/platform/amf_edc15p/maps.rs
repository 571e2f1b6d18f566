//! EDC15P+ map registry — symbolic only; the tool never reads or writes the
//! `.bin`.
//!
//! Names follow the public EDC15P+ damos / WinOLS / VAGEDCSuite tradition
//! so a user can paste delta suggestions directly into a tuning tool.

use vstd::prelude::*;

use crate::text::chars_eq_str;
use crate::text::chars_of;

verus! {

/// One symbolic map definition.
#[derive(Debug, Clone, Copy)]
pub struct MapDef {
    /// Canonical short id used in recommendations.
    pub name: &'static str,
    /// Common German alias from the EDC15P+ damos tradition.
    pub german_alias: &'static str,
    /// X axis identifier (e.g. `"rpm"`).
    pub x_axis: &'static str,
    /// Y axis identifier (e.g. `"iq_mg"`).
    pub y_axis: &'static str,
    /// Cell unit string for display only.
    pub cell_unit: &'static str,
    /// Typical map dimensions (e.g. `"16x10"`).
    pub typical_dim: &'static str,
    /// One-line note about the map and its sane Stage 1 delta.
    pub description: &'static str,
}

/// Number of registered maps.
pub const N_MAPS: usize = 25;

/// Complete EDC15P+ map registry:
/// `(name, german_alias, x_axis, y_axis, cell_unit, typical_dim, description)`.
pub const MAPS: [(
    &'static str,
    &'static str,
    &'static str,
    &'static str,
    &'static str,
    &'static str,
    &'static str,
); 25] = [
    (
        "LDRXN",
        "Ladedruck-Sollwert",
        "rpm",
        "iq_mg",
        "mbar abs",
        "16x10",
        "Boost target. Sane Stage 1 Δ: +100..+200 mbar in 2000-3500 rpm band, taper to stock by 4000 rpm.",
    ),
    (
        "LDOLLR",
        "LDR-Sollwertbegrenzung (LDRPMX)",
        "rpm",
        "atm_mbar",
        "mbar abs",
        "16x10",
        "Boost limiter (max permitted absolute boost). Cap at 2150 mbar at sea level; preserve altitude derate.",
    ),
    (
        "SVBL",
        "Ladedruck-Begrenzung absolut",
        "scalar",
        "scalar",
        "mbar abs",
        "1x1",
        "Overboost cut (Single Value Boost Limit). LEAVE STOCK — last line of defence.",
    ),
    (
        "Driver_Wish",
        "Fahrerwunsch",
        "pedal_pct",
        "rpm",
        "mg/stroke",
        "8x16",
        "Pedal-to-IQ request. Raise WOT column by +6..+8 mg in 1800-3500 rpm band.",
    ),
    (
        "Smoke_IQ_by_MAF",
        "Begrenzungsmenge (MAF)",
        "maf_mg",
        "rpm",
        "mg/stroke",
        "13x16",
        "Smoke limiter, MAF axis. Re-scale axis & enforce λ ≥ 1.05 everywhere.",
    ),
    (
        "Smoke_IQ_by_MAP",
        "Begrenzungsmenge (MAP)",
        "boost_mbar",
        "rpm",
        "mg/stroke",
        "11x16",
        "Smoke limiter, MAP axis (parallel slice, switch byte selects). Same λ ≥ 1.05 discipline.",
    ),
    (
        "Torque_Limiter",
        "Drehmomentbegrenzer",
        "rpm",
        "atm_mbar",
        "Nm",
        "20x3",
        "Modelled-torque cap. Clamp peak to 240 Nm equivalent — clutch-protective.",
    ),
    (
        "MLHFM",
        "Luftmassenmesser-Kennlinie",
        "sensor_v_or_raw",
        "_",
        "kg/h",
        "256pts",
        "MAF linearisation. LEAVE STOCK unless MAF is replaced; flag if log-derived MAF deviates >10 % from spec.",
    ),
    (
        "SOI",
        "Spritzbeginn (10 maps by coolant temp)",
        "rpm",
        "iq_mg",
        "deg BTDC",
        "10x10 (cold) / 10x16 (hot)",
        "Start-of-injection. Sane Δ: +1.5..+2.5° at 4000 rpm column only; NEVER exceed 26° BTDC.",
    ),
    (
        "Duration",
        "Einspritzdauer (6 maps by SOI band)",
        "rpm",
        "iq_mg",
        "deg crank",
        "10x10 / 16x15",
        "Injection duration. Extend X-axis from 50 to 52 mg if extending IQ.",
    ),
    (
        "Pilot",
        "Voreinspritzmenge / -zeit",
        "rpm",
        "iq_mg",
        "mg/stroke or deg",
        "10x10",
        "Pilot injection quantity & timing. LEAVE STOCK for sane Stage 1.",
    ),
    (
        "N75_duty",
        "Ladedruckregler-Tastverhältnis",
        "rpm",
        "spec_actual_diff_or_iq",
        "% DC",
        "10x16",
        "N75 base duty / PID. LEAVE STOCK unless steady-state error > 150 mbar.",
    ),
    (
        "Lambda_limiter",
        "Lambdawunsch / Rauchbegrenzung",
        "maf_mg",
        "rpm",
        "lambda",
        "13x16",
        "Floor cells at λ = 1.05.",
    ),
    (
        "Atmospheric_correction",
        "Höhenkorrektur LDR",
        "atm_mbar",
        "_",
        "mbar Δ",
        "10x1",
        "Altitude derate for boost. LEAVE STOCK.",
    ),
    (
        "EGT_model",
        "Abgastemperatur-Modell",
        "rpm_iq_maf",
        "_",
        "C",
        "varies",
        "EGT model / fuel cut on temp (where present). DO NOT RAISE — used as backstop.",
    ),
    (
        "AGR_arwMEAB0KL",
        "Abgasrückführung Tastverhältnis (Bank A)",
        "rpm",
        "iq_mg",
        "% duty",
        "13x16",
        "EGR-duty map bank A. Mandate: zero all cells.",
    ),
    (
        "AGR_arwMEAB1KL",
        "Abgasrückführung Tastverhältnis (Bank B)",
        "rpm",
        "iq_mg",
        "% duty",
        "13x16",
        "EGR-duty map bank B (paired in DAMOS even on single-actuator PD ECUs). \
                      Mandate: zero all cells — symmetry with bank A.",
    ),
    (
        "arwMLGRDKF",
        "Sollluftmasse / EGR target air mass",
        "rpm",
        "iq_mg",
        "mg/stroke",
        "16x10",
        "Spec-MAF / expected air mass. Mandate: fill ≥850 mg/stroke (Strategy B).",
    ),
    (
        "DTC_thresholds",
        "DTC-Grenzwerte",
        "dtc_id",
        "_",
        "mg/s · ms",
        "varies",
        "DTC plausibility thresholds and time-debounce for P0401..P0406.",
    ),
    (
        "MAF_MAP_smoke_switch",
        "Rauchbegrenzung-Quelle (MAF/MAP)",
        "scalar",
        "scalar",
        "byte",
        "1x1",
        "Smoke-limiter source switch. 0x00 = MAF-based (LEAVE STOCK).",
    ),
    (
        "Idle_fuel",
        "Leerlauf-Mengenkennfeld (Slice)",
        "rpm",
        "iq_mg",
        "mg/stroke",
        "varies",
        "Idle fuelling slice. CONDITIONAL: trim only if R21 idle-stability fires.",
    ),
    (
        "SOI_warm_cruise",
        "Spritzbeginn warm (Cruise-Band)",
        "rpm",
        "iq_mg",
        "deg BTDC",
        "10x16",
        "Warm-cruise SOI band (1500-2500 rpm × 5-15 mg). −1.0° NVH retard.",
    ),
    (
        "Driver_Wish_low_pedal",
        "Fahrerwunsch (Pedal 1..25 %)",
        "pedal_pct",
        "rpm",
        "mg/stroke",
        "13x16 with 5 parallel banks (per cowFUN_DSV)",
        "View of the Driver_Wish (Fahrerwunsch / mrwFVH_KF) restricted \
                      to the 1..25 % pedal column band. Edits here flatten the off-idle \
                      slope; mid- and high-pedal cells are not modified. EDC15P+ carries \
                      5 parallel banks (banks 2/3/5 manual, 1/4 automatic per cowFUN_DSV \
                      codeblock detail); apply the flatten identically to all 5 banks to \
                      remain coding-state-invariant.",
    ),
    (
        "Fan_thresholds",
        "Lüfter Schwellenwerte (firmware-dependent)",
        "stage",
        "_",
        "°C",
        "stage-1 on/off, stage-2 on/off",
        "Cooling-fan stage on/off thresholds. Symbolic only — actual DAMOS \
                      naming is firmware-dependent on EDC15P+; locate against the AMF binary.",
    ),
    (
        "Fan_run_on",
        "Lüfter-Nachlauf (firmware-dependent)",
        "scalar",
        "_",
        "s",
        "scalar (or short LUT indexed by T_coolant at key-off)",
        "Fan run-on time after key-off. Capped at the battery-protective ceiling.",
    ),
];

/// The registry entry at position `i`.
pub open spec fn map_entry(i: int) -> MapDef {
    MapDef {
        name: MAPS[i].0,
        german_alias: MAPS[i].1,
        x_axis: MAPS[i].2,
        y_axis: MAPS[i].3,
        cell_unit: MAPS[i].4,
        typical_dim: MAPS[i].5,
        description: MAPS[i].6,
    }
}

/// Whether some registry entry is named `name`.
pub open spec fn is_map_name(name: Seq<char>) -> bool {
    exists|i: int| 0 <= i < N_MAPS && #[trigger] MAPS[i].0@ == name
}

/// Look up a map by its canonical short id.
pub fn get_map(name: &str) -> (r: Option<MapDef>)
    ensures
        r matches Some(m) ==> exists|i: int|
            0 <= i < N_MAPS && m == map_entry(i) && #[trigger] MAPS[i].0@ == name@ && forall|j: int|
                0 <= j < i ==> #[trigger] MAPS[j].0@ != name@,
        r is None <==> !is_map_name(name@),
{
    let key = chars_of(name);
    for i in 0..N_MAPS
        invariant
            key@ == name@,
            forall|j: int| 0 <= j < i ==> #[trigger] MAPS[j].0@ != name@,
    {
        let e = MAPS[i];
        if chars_eq_str(&key, e.0) {
            return Some(
                MapDef {
                    name: e.0,
                    german_alias: e.1,
                    x_axis: e.2,
                    y_axis: e.3,
                    cell_unit: e.4,
                    typical_dim: e.5,
                    description: e.6,
                },
            );
        }
    }
    None
}

} // verus!
