//! Unit conversions from raw field codes to engineering quantities.
//!
//! Every formula here is an exact rational with a denominator dividing 1000,
//! so scaled quantities are carried as fixed-point integers in thousandths
//! of the engineering unit (a "milli" value): a returned `r` stands for the
//! quantity `r / 1000`. Each conversion applies to a field only after the
//! sentinel policy has reported it available; suppression is the caller's
//! duty.

use vstd::prelude::*;

verus! {

/// `raw` reinterpreted as a signed 32-bit quantity (two's complement).
pub open spec fn signed32(raw: u32) -> int {
    if raw >= 0x8000_0000 {
        raw - 0x1_0000_0000
    } else {
        raw as int
    }
}

/// Engine torque in thousandths of a Nm: `raw / 4 - 500` Nm.
/// Applies identically to the minimum, maximum and static torque fields.
pub fn torque_nm_milli(raw: u16) -> (r: i64)
    ensures
        r == raw * 250 - 500000,
{
    raw as i64 * 250 - 500000
}

/// Gear ratio in thousandths (dimensionless): `raw / 100`.
pub fn gear_ratio_milli(raw: u16) -> (r: i64)
    ensures
        r == raw * 10,
{
    raw as i64 * 10
}

/// Battery voltage in thousandths of a volt: `raw / 1000` V, so the raw
/// code already is the milli value.
pub fn battery_volts_milli(raw: u16) -> (r: i64)
    ensures
        r == raw as int,
{
    raw as i64
}

/// ATF temperature in thousandths of a degree Celsius: the raw 32-bit
/// field reinterpreted as signed, in whole degrees.
pub fn atf_temp_c_milli(raw: u32) -> (r: i64)
    ensures
        r == signed32(raw) * 1000,
{
    let v: i64 = if raw >= 0x8000_0000 {
        raw as i64 - 0x1_0000_0000
    } else {
        raw as i64
    };
    v * 1000
}

/// Wheel or shaft speed in thousandths of an RPM: `raw / 2`.
pub fn wheel_rpm_milli(raw: u16) -> (r: i64)
    ensures
        r == raw * 500,
{
    raw as i64 * 500
}

/// Accelerator pedal position in thousandths of a percent:
/// `raw / 250 * 100`.
pub fn pedal_percent_milli(raw: u8) -> (r: i64)
    ensures
        r == raw * 400,
{
    raw as i64 * 400
}

/// Processor core usage in thousandths of a percent: `raw / 10`.
pub fn core_usage_percent_milli(raw: u16) -> (r: i64)
    ensures
        r == raw * 100,
{
    raw as i64 * 100
}

/// Solenoid PWM trim in thousandths of a percent: `raw / 10 - 100`.
pub fn solenoid_trim_percent_milli(raw: u16) -> (r: i64)
    ensures
        r == raw * 100 - 100000,
{
    raw as i64 * 100 - 100000
}

} // verus!
