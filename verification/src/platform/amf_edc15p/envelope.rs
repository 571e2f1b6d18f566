//! Integer guardrails of the AMF envelope: the cooling-fan switch band and
//! the post-key-off run-on ceiling, and the recommendation texts built from
//! them. The floating-point caps (boost, IQ, SOI, lambda, torque) live with
//! the command-line program.

use vstd::prelude::*;

use crate::text::{append_str, decimal, push_decimal};

verus! {

/// Lowest fan switch temperature (°C).
pub const FAN_ON_MIN_C: u8 = 88;

/// Highest fan switch temperature (°C). Logs that disagree update the
/// thresholds row, never this ceiling.
pub const FAN_ON_MAX_C: u8 = 98;

/// Minimum on/off hysteresis of a fan stage (°C).
pub const FAN_HYSTERESIS_MIN_C: u8 = 3;

/// Minimum gap between fan stages (°C).
pub const FAN_STAGE_GAP_MIN_C: u8 = 3;

/// Ceiling of the total post-key-off fan run-on (s).
pub const FAN_RUN_ON_TOTAL_MAX_S: u16 = 240;

/// Stock post-key-off fan run-on that the run-on delta is added to (s).
pub const FAN_RUN_ON_BASELINE_S: u16 = 60;

/// Proposed stage-1 switch-off temperature (°C).
pub const FAN_STAGE1_OFF_C: u8 = 88;

/// Proposed stage-1 switch-on temperature (°C).
pub const FAN_STAGE1_ON_C: u8 = 93;

/// Proposed stage-2 switch-off temperature (°C).
pub const FAN_STAGE2_OFF_C: u8 = 95;

/// Proposed stage-2 switch-on temperature (°C).
pub const FAN_STAGE2_ON_C: u8 = 98;

/// A fan switch temperature pulled into `[FAN_ON_MIN_C, FAN_ON_MAX_C]`.
pub open spec fn fan_on_clamped(c: int) -> int {
    if c < FAN_ON_MIN_C {
        FAN_ON_MIN_C as int
    } else if c > FAN_ON_MAX_C {
        FAN_ON_MAX_C as int
    } else {
        c
    }
}

/// Clamp a fan switch temperature into the allowed band.
pub fn clamp_fan_on_c(proposed_c: u8) -> (r: u8)
    ensures
        r == fan_on_clamped(proposed_c as int),
        FAN_ON_MIN_C <= r <= FAN_ON_MAX_C,
{
    if proposed_c < FAN_ON_MIN_C {
        FAN_ON_MIN_C
    } else if proposed_c > FAN_ON_MAX_C {
        FAN_ON_MAX_C
    } else {
        proposed_c
    }
}

/// Clamp a total fan run-on time to its ceiling.
pub fn clamp_fan_run_on_s(proposed_s: u16) -> (r: u16)
    ensures
        r == (if proposed_s <= FAN_RUN_ON_TOTAL_MAX_S { proposed_s } else { FAN_RUN_ON_TOTAL_MAX_S }),
{
    if proposed_s <= FAN_RUN_ON_TOTAL_MAX_S {
        proposed_s
    } else {
        FAN_RUN_ON_TOTAL_MAX_S
    }
}

/// The run-on actually added on top of the stock baseline when `delta_s`
/// seconds are requested: the total is capped at the ceiling.
pub open spec fn fan_run_on_added(delta_s: int) -> int {
    let total = FAN_RUN_ON_BASELINE_S + delta_s;
    let capped = if total <= FAN_RUN_ON_TOTAL_MAX_S { total } else { FAN_RUN_ON_TOTAL_MAX_S as int };
    capped - FAN_RUN_ON_BASELINE_S
}

/// Decimal rendering of a `u8`.
pub open spec fn dec8(n: u8) -> Seq<char> {
    decimal(n as nat)
}

/// The text of the fan-thresholds recommendation: both stages' clamped
/// on/off temperatures, then the hysteresis, stage gap and band they obey.
pub open spec fn fan_thresholds_spec() -> Seq<char> {
    "stage-1 on/off = "@ + decimal(fan_on_clamped(FAN_STAGE1_ON_C as int) as nat) + " / "@
        + decimal(fan_on_clamped(FAN_STAGE1_OFF_C as int) as nat) + " °C; stage-2 on/off = "@
        + decimal(fan_on_clamped(FAN_STAGE2_ON_C as int) as nat) + " / "@
        + decimal(fan_on_clamped(FAN_STAGE2_OFF_C as int) as nat)
        + " °C (hysteresis ≥ "@ + dec8(FAN_HYSTERESIS_MIN_C) + " °C, stage gap ≥ "@
        + dec8(FAN_STAGE_GAP_MIN_C) + " °C, all clamped to ["@ + dec8(FAN_ON_MIN_C) + "-"@
        + dec8(FAN_ON_MAX_C) + "] °C)"@
}

/// The text of the fan run-on recommendation for a requested `delta_s`.
pub open spec fn fan_run_on_spec(delta_s: int) -> Seq<char> {
    "+"@ + decimal(fan_run_on_added(delta_s) as nat)
        + " s post-key-off run-on (clamped total ≤ "@
        + decimal(FAN_RUN_ON_TOTAL_MAX_S as nat) + " s)"@
}

/// Render the fan-thresholds recommendation, each proposed temperature
/// passed through `clamp_fan_on_c`.
pub fn fan_thresholds_text() -> (r: String)
    ensures
        r@ == fan_thresholds_spec(),
{
    let s1_off = clamp_fan_on_c(FAN_STAGE1_OFF_C);
    let s1_on = clamp_fan_on_c(FAN_STAGE1_ON_C);
    let s2_off = clamp_fan_on_c(FAN_STAGE2_OFF_C);
    let s2_on = clamp_fan_on_c(FAN_STAGE2_ON_C);
    let mut s = String::new();
    append_str(&mut s, "stage-1 on/off = ");
    push_decimal(&mut s, s1_on as usize);
    append_str(&mut s, " / ");
    push_decimal(&mut s, s1_off as usize);
    append_str(&mut s, " °C; stage-2 on/off = ");
    push_decimal(&mut s, s2_on as usize);
    append_str(&mut s, " / ");
    push_decimal(&mut s, s2_off as usize);
    append_str(&mut s, " °C (hysteresis ≥ ");
    push_decimal(&mut s, FAN_HYSTERESIS_MIN_C as usize);
    append_str(&mut s, " °C, stage gap ≥ ");
    push_decimal(&mut s, FAN_STAGE_GAP_MIN_C as usize);
    append_str(&mut s, " °C, all clamped to [");
    push_decimal(&mut s, FAN_ON_MIN_C as usize);
    append_str(&mut s, "-");
    push_decimal(&mut s, FAN_ON_MAX_C as usize);
    append_str(&mut s, "] °C)");
    s
}

/// Render the fan run-on recommendation for a requested extra run-on of
/// `delta_s` seconds: the stock baseline plus the request is clamped to the
/// ceiling, and the part above the baseline is reported.
pub fn fan_run_on_text(delta_s: u16) -> (r: String)
    ensures
        r@ == fan_run_on_spec(delta_s as int),
{
    let total: u16 = if delta_s <= u16::MAX - FAN_RUN_ON_BASELINE_S {
        FAN_RUN_ON_BASELINE_S + delta_s
    } else {
        u16::MAX
    };
    let capped = clamp_fan_run_on_s(total);
    let added: u16 = capped - FAN_RUN_ON_BASELINE_S;
    assert(added == fan_run_on_added(delta_s as int));
    let mut s = String::new();
    append_str(&mut s, "+");
    push_decimal(&mut s, added as usize);
    append_str(&mut s, " s post-key-off run-on (clamped total ≤ ");
    push_decimal(&mut s, FAN_RUN_ON_TOTAL_MAX_S as usize);
    append_str(&mut s, " s)");
    s
}

} // verus!
