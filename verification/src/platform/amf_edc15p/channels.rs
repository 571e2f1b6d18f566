//! Canonical channel registry for AMF / EDC15P+ via VCDS.
//!
//! Every downstream module refers to channels by the snake_case names
//! below. The VCDS canonicalizer maps `NNN-K` headers into these
//! names; channels not in this registry are not implemented.
//!
//! DTCs are not a channel: they come from a separate VCDS DTC scan
//! (sidecar file, `<base>.dtc.txt`) and are parsed by
//! [`crate::ingest::dtc`].

use vstd::prelude::*;

use crate::text::chars_eq_str;
use crate::text::chars_of;

verus! {

/// One canonical channel definition.
#[derive(Debug, Clone, Copy)]
pub struct Channel {
    /// Canonical snake_case identifier used in code.
    pub name: &'static str,
    /// `NNN-K` group-field source(s), pipe-separated when ambiguous.
    pub source: &'static str,
    /// Engineering unit string for display only.
    pub unit: &'static str,
    /// One-line note about the channel.
    pub description: &'static str,
}

/// Number of registered channels.
pub const N_CHANNELS: usize = 27;

/// Complete channel registry: `(name, source, unit, description)`.
pub const CHANNELS: [(&'static str, &'static str, &'static str, &'static str); 27] = [
    ("rpm", "001-1|003-1|008-1|011-1|020-1", "rpm", "engine speed (any group)"),
    ("iq_actual", "001-2", "mg/stroke", "idle/cruise IQ — NOT WOT IQ"),
    ("iq_requested", "008-2", "mg/stroke", "WOT IQ request — the number that matters"),
    ("iq_limit_rpm", "008-3", "mg/stroke", "RPM-based fuel limit"),
    ("iq_limit_maf", "008-4", "mg/stroke", "smoke-limiter cap"),
    ("coolant_c", "001-4|004-3", "C", "coolant temp"),
    ("battery_v", "004-2", "V", "battery voltage"),
    ("maf_actual", "003-3", "mg/stroke", "measured airflow — fueling input"),
    ("maf_spec", "003-2", "mg/stroke", "EGR closed-loop target"),
    ("egr_duty", "003-4", "%", "EGR valve duty"),
    ("boost_spec", "011-2", "mbar abs", "LDRXN output"),
    ("boost_actual", "011-3", "mbar abs", "PID-controlled actual"),
    ("n75_duty", "011-4", "%", "boost actuator drive"),
    ("atm_pressure", "010-2", "mbar abs", "ambient — capture key-on/engine-off"),
    ("pedal_pct", "010-4", "%", "driver-wish accelerator pedal % (G79). Group 010 field 4 is the canonical EDC15P+ TDI position. Used for WOT detection (≥ pedal_wot_pct) and the R17 cruise filter."),
    ("map_abs_010", "010-3", "mbar abs", "MAP actual on group 010 field 3 (PD-TDI label convention). NOT throttle — TDI has no TPS. The anti-shudder valve diagnostic lives in basic-settings, not in measuring blocks."),
    ("soi_actual", "020-2", "deg BTDC", "logged start-of-injection"),
    ("map_abs", "020-3", "mbar abs", "MAP cross-check vs 011-3"),
    ("load_pct", "020-4", "%", "engine load"),
    ("torque_request", "015-2", "Nm", "from driver wish via TL"),
    ("torque_actual", "015-3", "Nm", "modelled actual"),
    ("srcv_cyl1", "013-1", "mg/stroke", "smooth-running cyl 1"),
    ("srcv_cyl2", "013-2", "mg/stroke", "smooth-running cyl 2"),
    ("srcv_cyl3", "013-3", "mg/stroke", "smooth-running cyl 3 (AMF is 3-cyl)"),
    ("fuel_temp_c", "013-4|015-?", "C", "fuel temp on firmwares that expose it"),
    ("vehicle_speed", "005-3", "km/h", "VSS for cruise / idle distinction (group 005, field 3 — corrected from misnumbered 004)"),
    ("coolant_demand_c", "007-?", "C", "coolant temperature setpoint (where exposed)"),
];

/// Channels explicitly not logged (no factory sensor / not on KW1281).
pub const NOT_LOGGED: [&'static str; 4] = [
    "rail_pressure",
    "wideband_lambda",
    "egt_actual",
    "injector_duty",
];

/// Required minimum VCDS groups for any pull analysis to run.
pub const MIN_REQUIRED_GROUPS: [&'static str; 3] = ["003", "008", "011"];

/// The registry entry at position `i`.
pub open spec fn channel_entry(i: int) -> Channel {
    Channel {
        name: CHANNELS[i].0,
        source: CHANNELS[i].1,
        unit: CHANNELS[i].2,
        description: CHANNELS[i].3,
    }
}

/// Whether some registry entry is named `name`.
pub open spec fn is_channel_name(name: Seq<char>) -> bool {
    exists|i: int| 0 <= i < N_CHANNELS && #[trigger] CHANNELS[i].0@ == name
}

/// Look up a channel definition by its canonical name.
pub fn channel(name: &str) -> (r: Option<Channel>)
    ensures
        r matches Some(c) ==> exists|i: int|
            0 <= i < N_CHANNELS && c == channel_entry(i) && #[trigger] CHANNELS[i].0@ == name@ && forall|j: int|
                0 <= j < i ==> #[trigger] CHANNELS[j].0@ != name@,
        r is None <==> !is_channel_name(name@),
{
    let key = chars_of(name);
    for i in 0..N_CHANNELS
        invariant
            key@ == name@,
            forall|j: int| 0 <= j < i ==> #[trigger] CHANNELS[j].0@ != name@,
    {
        let e = CHANNELS[i];
        if chars_eq_str(&key, e.0) {
            return Some(Channel { name: e.0, source: e.1, unit: e.2, description: e.3 });
        }
    }
    None
}

} // verus!
