use rli_decoder::sentinel::is_unavailable;
use rli_decoder::units::atf_temp_c_milli;
use rli_decoder::units::battery_volts_milli;
use rli_decoder::units::core_usage_percent_milli;
use rli_decoder::units::gear_ratio_milli;
use rli_decoder::units::pedal_percent_milli;
use rli_decoder::units::solenoid_trim_percent_milli;
use rli_decoder::units::torque_nm_milli;
use rli_decoder::units::wheel_rpm_milli;

/// A fixed-point milli value as the engineering quantity it stands for.
fn as_unit(milli: i64) -> f64 {
    milli as f64 / 1000.0
}

#[test]
fn sentinel_all_ones_is_unavailable_for_every_used_width() {
    assert!(is_unavailable(0xFF, 8));
    assert!(is_unavailable(0xFFFF, 16));
    assert!(is_unavailable(0xFFFF_FFFF, 32));
}

#[test]
fn sentinel_other_values_are_available() {
    assert!(!is_unavailable(0x00, 8));
    assert!(!is_unavailable(0xFE, 8));
    // all ones of a narrower width is not the wider width's sentinel
    assert!(!is_unavailable(0xFF, 16));
    assert!(!is_unavailable(0xFFFF, 32));
    assert!(!is_unavailable(0x7FFF_FFFF, 32));
}

#[test]
fn torque_conversion_boundaries() {
    // raw / 4 - 500 Nm
    assert_eq!(torque_nm_milli(2000), 0);
    assert_eq!(as_unit(torque_nm_milli(2000)), 0.0);
    assert_eq!(torque_nm_milli(0), -500_000);
    assert_eq!(as_unit(torque_nm_milli(0)), -500.0);
    assert_eq!(as_unit(torque_nm_milli(2001)), 0.25);
    assert_eq!(as_unit(torque_nm_milli(0xFFFF)), 15883.75);
}

#[test]
fn voltage_conversion() {
    // raw / 1000 V
    assert_eq!(battery_volts_milli(12000), 12000);
    assert_eq!(as_unit(battery_volts_milli(12000)), 12.0);
    assert_eq!(as_unit(battery_volts_milli(0)), 0.0);
}

#[test]
fn gear_ratio_conversion() {
    // raw / 100, two-decimal precision
    assert_eq!(gear_ratio_milli(250), 2500);
    assert_eq!(as_unit(gear_ratio_milli(250)), 2.50);
    assert_eq!(as_unit(gear_ratio_milli(0)), 0.0);
}

#[test]
fn atf_temperature_is_signed() {
    // raw reinterpreted as a signed 32-bit quantity, whole degrees
    assert_eq!(atf_temp_c_milli(25), 25_000);
    assert_eq!(atf_temp_c_milli(0xFFFF_FFFF), -1_000);
    assert_eq!(atf_temp_c_milli(0x8000_0000), -2_147_483_648_000);
    assert_eq!(as_unit(atf_temp_c_milli(0xFFFF_FFFF)), -1.0);
}

#[test]
fn wheel_speed_conversion() {
    // raw / 2 RPM
    assert_eq!(wheel_rpm_milli(3000), 1_500_000);
    assert_eq!(as_unit(wheel_rpm_milli(3000)), 1500.0);
    assert_eq!(as_unit(wheel_rpm_milli(1)), 0.5);
}

#[test]
fn pedal_position_conversion() {
    // raw / 250 * 100 percent
    assert_eq!(pedal_percent_milli(250), 100_000);
    assert_eq!(as_unit(pedal_percent_milli(250)), 100.0);
    assert_eq!(as_unit(pedal_percent_milli(125)), 50.0);
    assert_eq!(as_unit(pedal_percent_milli(0)), 0.0);
}

#[test]
fn core_usage_conversion() {
    // raw / 10 percent
    assert_eq!(core_usage_percent_milli(123), 12_300);
    assert_eq!(as_unit(core_usage_percent_milli(123)), 12.3);
}

#[test]
fn solenoid_trim_conversion() {
    // raw / 10 - 100 percent
    assert_eq!(solenoid_trim_percent_milli(1000), 0);
    assert_eq!(as_unit(solenoid_trim_percent_milli(0)), -100.0);
    assert_eq!(as_unit(solenoid_trim_percent_milli(1024)), 2.4);
}
