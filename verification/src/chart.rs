//! Chart-data projection: a pure transform from a decoded record to the
//! chart groups a rendering layer plots.
//!
//! Scaled values are fixed-point integers in thousandths of the unit, as in
//! the `units` module; axis bounds use the same fixed point. Unavailable
//! (sentinel) fields pass through as their raw numeric value — the one
//! documented substitution is the torque group, where an unavailable torque
//! field is plotted as 0.

use vstd::prelude::*;

use crate::records::DataCanDump;
use crate::records::DataGearboxSensors;
use crate::records::DataPressures;
use crate::records::DataSolenoids;
use crate::records::DataSysUsage;
use crate::registry::LocalRecordData;
use crate::units::core_usage_percent_milli;
use crate::units::torque_nm_milli;

verus! {

/// One chart group: a name, an optional fixed (min, max) axis range, and
/// labeled scaled values, each with an optional unit label. Values and
/// bounds are in thousandths of the unit.
#[derive(Debug, Clone, PartialEq, PartialOrd)]
pub struct ChartData {
    /// Fixed (min, max) axis range, in thousandths.
    pub bounds: Option<(i64, i64)>,
    pub group_name: String,
    /// Field name, field value in thousandths, field unit.
    pub data: Vec<(String, i64, Option<String>)>,
}

impl ChartData {
    /// Plain constructor.
    pub fn new(group_name: String, data: Vec<(String, i64, Option<String>)>, bounds: Option<
        (i64, i64),
    >) -> (r: ChartData)
        ensures
            r.group_name == group_name,
            r.data == data,
            r.bounds == bounds,
    {
        ChartData { bounds, group_name, data }
    }
}

/// One chart entry carries the given label, value and unit label.
pub open spec fn datum_ok(
    t: (String, i64, Option<String>),
    label: Seq<char>,
    value: int,
    unit: Option<Seq<char>>,
) -> bool {
    &&& t.0@ == label
    &&& t.1 == value
    &&& match unit {
        Some(u) => t.2 matches Some(s) && s@ == u,
        None => t.2 is None,
    }
}

/// The chart projection of a pressure record: one group of the three
/// pressures, raw values passed through (sentinels included), fixed zero
/// axis bounds.
pub open spec fn pressures_chart_ok(d: DataPressures, r: Seq<ChartData>) -> bool {
    &&& r.len() == 1
    &&& r[0].group_name@ == "Requested pressures"@
    &&& r[0].bounds == Some((0i64, 0i64))
    &&& r[0].data@.len() == 3
    &&& datum_ok(r[0].data@[0], "SPC pressure"@, d.spc_pressure * 1000, None)
    &&& datum_ok(r[0].data@[1], "MPC pressure"@, d.mpc_pressure * 1000, None)
    &&& datum_ok(r[0].data@[2], "TCC pressure"@, d.tcc_pressure * 1000, None)
}

/// The chart projection of a gearbox sensor record: one group of the raw
/// RPM counters and the calculated input RPM, fixed zero axis bounds.
pub open spec fn gearbox_chart_ok(d: DataGearboxSensors, r: Seq<ChartData>) -> bool {
    &&& r.len() == 1
    &&& r[0].group_name@ == "RPM sensors"@
    &&& r[0].bounds == Some((0i64, 0i64))
    &&& r[0].data@.len() == 3
    &&& datum_ok(r[0].data@[0], "N2 raw"@, d.n2_rpm * 1000, None)
    &&& datum_ok(r[0].data@[1], "N3 raw"@, d.n3_rpm * 1000, None)
    &&& datum_ok(r[0].data@[2], "Calculated RPM"@, d.calculated_rpm * 1000, None)
}

/// The chart projection of a solenoid status record: the six PWM duty
/// codes (axis fixed to the 0–4096 duty range) and the six measured
/// currents in mA (axis fixed to 0–6600 mA).
pub open spec fn solenoids_chart_ok(d: DataSolenoids, r: Seq<ChartData>) -> bool {
    &&& r.len() == 2
    &&& r[0].group_name@ == "Solenoid PWM"@
    &&& r[0].bounds == Some((0i64, 4096000i64))
    &&& r[0].data@.len() == 6
    &&& datum_ok(r[0].data@[0], "MPC Solenoid"@, d.mpc_pwm * 1000, None)
    &&& datum_ok(r[0].data@[1], "SPC Solenoid"@, d.spc_pwm * 1000, None)
    &&& datum_ok(r[0].data@[2], "TCC Solenoid"@, d.tcc_pwm * 1000, None)
    &&& datum_ok(r[0].data@[3], "Y3 Solenoid"@, d.y3_pwm * 1000, None)
    &&& datum_ok(r[0].data@[4], "Y4 Solenoid"@, d.y4_pwm * 1000, None)
    &&& datum_ok(r[0].data@[5], "Y5 Solenoid"@, d.y5_pwm * 1000, None)
    &&& r[1].group_name@ == "Solenoid Current"@
    &&& r[1].bounds == Some((0i64, 6600000i64))
    &&& r[1].data@.len() == 6
    &&& datum_ok(r[1].data@[0], "MPC Solenoid"@, d.mpc_current * 1000, Some("mA"@))
    &&& datum_ok(r[1].data@[1], "SPC Solenoid"@, d.spc_current * 1000, Some("mA"@))
    &&& datum_ok(r[1].data@[2], "TCC Solenoid"@, d.tcc_current * 1000, Some("mA"@))
    &&& datum_ok(r[1].data@[3], "Y3 Solenoid"@, d.y3_current * 1000, Some("mA"@))
    &&& datum_ok(r[1].data@[4], "Y4 Solenoid"@, d.y4_current * 1000, Some("mA"@))
    &&& datum_ok(r[1].data@[5], "Y5 Solenoid"@, d.y5_current * 1000, Some("mA"@))
}

/// The plotted torque value in thousandths of a Nm: an unavailable torque
/// field is substituted by 0, an available one converted from its raw code.
pub open spec fn torque_chart_value(raw: u16) -> int {
    if raw == 0xFFFF {
        0
    } else {
        raw * 250 - 500000
    }
}

/// The chart projection of a CAN data dump record: one torque group with
/// no fixed axis bounds and the documented substitution of 0 for
/// unavailable torque fields.
pub open spec fn can_dump_chart_ok(d: DataCanDump, r: Seq<ChartData>) -> bool {
    &&& r.len() == 1
    &&& r[0].group_name@ == "Engine torque"@
    &&& r[0].bounds is None
    &&& r[0].data@.len() == 3
    &&& datum_ok(r[0].data@[0], "Max"@, torque_chart_value(d.max_torque_ms), None)
    &&& datum_ok(r[0].data@[1], "Min"@, torque_chart_value(d.min_torque_ms), None)
    &&& datum_ok(r[0].data@[2], "Static"@, torque_chart_value(d.static_torque), None)
}

/// The chart projection of a system usage record: both core usage figures
/// as percentages, axis fixed to 0–100 %.
pub open spec fn sys_usage_chart_ok(d: DataSysUsage, r: Seq<ChartData>) -> bool {
    &&& r.len() == 1
    &&& r[0].group_name@ == "CPU Usage"@
    &&& r[0].bounds == Some((0i64, 100000i64))
    &&& r[0].data@.len() == 2
    &&& datum_ok(r[0].data@[0], "Core 1"@, d.core1_usage * 100, None)
    &&& datum_ok(r[0].data@[1], "Core 2"@, d.core2_usage * 100, None)
}

impl DataPressures {
    /// Projects the record into its chart groups.
    pub fn to_chart_data(&self) -> (r: Vec<ChartData>)
        ensures
            pressures_chart_ok(*self, r@),
    {
        let mut data: Vec<(String, i64, Option<String>)> = Vec::new();
        data.push(("SPC pressure".to_owned(), self.spc_pressure as i64 * 1000, None));
        data.push(("MPC pressure".to_owned(), self.mpc_pressure as i64 * 1000, None));
        data.push(("TCC pressure".to_owned(), self.tcc_pressure as i64 * 1000, None));
        let group = ChartData::new("Requested pressures".to_owned(), data, Some((0, 0)));
        let mut r: Vec<ChartData> = Vec::new();
        r.push(group);
        r
    }
}

impl DataGearboxSensors {
    /// Projects the record into its chart groups.
    pub fn to_chart_data(&self) -> (r: Vec<ChartData>)
        ensures
            gearbox_chart_ok(*self, r@),
    {
        let mut data: Vec<(String, i64, Option<String>)> = Vec::new();
        data.push(("N2 raw".to_owned(), self.n2_rpm as i64 * 1000, None));
        data.push(("N3 raw".to_owned(), self.n3_rpm as i64 * 1000, None));
        data.push(("Calculated RPM".to_owned(), self.calculated_rpm as i64 * 1000, None));
        let group = ChartData::new("RPM sensors".to_owned(), data, Some((0, 0)));
        let mut r: Vec<ChartData> = Vec::new();
        r.push(group);
        r
    }
}

impl DataSolenoids {
    /// Projects the record into its chart groups.
    pub fn to_chart_data(&self) -> (r: Vec<ChartData>)
        ensures
            solenoids_chart_ok(*self, r@),
    {
        let mut pwm: Vec<(String, i64, Option<String>)> = Vec::new();
        pwm.push(("MPC Solenoid".to_owned(), self.mpc_pwm as i64 * 1000, None));
        pwm.push(("SPC Solenoid".to_owned(), self.spc_pwm as i64 * 1000, None));
        pwm.push(("TCC Solenoid".to_owned(), self.tcc_pwm as i64 * 1000, None));
        pwm.push(("Y3 Solenoid".to_owned(), self.y3_pwm as i64 * 1000, None));
        pwm.push(("Y4 Solenoid".to_owned(), self.y4_pwm as i64 * 1000, None));
        pwm.push(("Y5 Solenoid".to_owned(), self.y5_pwm as i64 * 1000, None));
        let mut current: Vec<(String, i64, Option<String>)> = Vec::new();
        current.push(("MPC Solenoid".to_owned(), self.mpc_current as i64 * 1000, Some("mA".to_owned())));
        current.push(("SPC Solenoid".to_owned(), self.spc_current as i64 * 1000, Some("mA".to_owned())));
        current.push(("TCC Solenoid".to_owned(), self.tcc_current as i64 * 1000, Some("mA".to_owned())));
        current.push(("Y3 Solenoid".to_owned(), self.y3_current as i64 * 1000, Some("mA".to_owned())));
        current.push(("Y4 Solenoid".to_owned(), self.y4_current as i64 * 1000, Some("mA".to_owned())));
        current.push(("Y5 Solenoid".to_owned(), self.y5_current as i64 * 1000, Some("mA".to_owned())));
        let pwm_group = ChartData::new("Solenoid PWM".to_owned(), pwm, Some((0, 4096000)));
        let current_group = ChartData::new("Solenoid Current".to_owned(), current, Some((0, 6600000)));
        let mut r: Vec<ChartData> = Vec::new();
        r.push(pwm_group);
        r.push(current_group);
        r
    }
}

impl DataCanDump {
    /// Projects the record into its chart groups, substituting 0 for a
    /// torque field whose raw value is the 16-bit sentinel.
    pub fn to_chart_data(&self) -> (r: Vec<ChartData>)
        ensures
            can_dump_chart_ok(*self, r@),
    {
        let max: i64 = if self.max_torque_ms == 0xFFFF {
            0
        } else {
            torque_nm_milli(self.max_torque_ms)
        };
        let min: i64 = if self.min_torque_ms == 0xFFFF {
            0
        } else {
            torque_nm_milli(self.min_torque_ms)
        };
        let sta: i64 = if self.static_torque == 0xFFFF {
            0
        } else {
            torque_nm_milli(self.static_torque)
        };
        let mut data: Vec<(String, i64, Option<String>)> = Vec::new();
        data.push(("Max".to_owned(), max, None));
        data.push(("Min".to_owned(), min, None));
        data.push(("Static".to_owned(), sta, None));
        let group = ChartData::new("Engine torque".to_owned(), data, None);
        let mut r: Vec<ChartData> = Vec::new();
        r.push(group);
        r
    }
}

impl DataSysUsage {
    /// Projects the record into its chart groups.
    pub fn to_chart_data(&self) -> (r: Vec<ChartData>)
        ensures
            sys_usage_chart_ok(*self, r@),
    {
        let mut data: Vec<(String, i64, Option<String>)> = Vec::new();
        data.push(("Core 1".to_owned(), core_usage_percent_milli(self.core1_usage), None));
        data.push(("Core 2".to_owned(), core_usage_percent_milli(self.core2_usage), None));
        let group = ChartData::new("CPU Usage".to_owned(), data, Some((0, 100000)));
        let mut r: Vec<ChartData> = Vec::new();
        r.push(group);
        r
    }
}

impl LocalRecordData {
    /// Projects any decoded record into its chart groups; the DMA dump has
    /// none.
    pub fn get_chart_data(&self) -> (r: Vec<ChartData>)
        ensures
            match *self {
                LocalRecordData::Sensors(d) => gearbox_chart_ok(d, r@),
                LocalRecordData::Solenoids(d) => solenoids_chart_ok(d, r@),
                LocalRecordData::Canbus(d) => can_dump_chart_ok(d, r@),
                LocalRecordData::SysUsage(d) => sys_usage_chart_ok(d, r@),
                LocalRecordData::Pressures(d) => pressures_chart_ok(d, r@),
                LocalRecordData::Dma(_) => r@.len() == 0,
            },
    {
        match self {
            LocalRecordData::Sensors(s) => s.to_chart_data(),
            LocalRecordData::Solenoids(s) => s.to_chart_data(),
            LocalRecordData::Canbus(s) => s.to_chart_data(),
            LocalRecordData::SysUsage(s) => s.to_chart_data(),
            LocalRecordData::Pressures(s) => s.to_chart_data(),
            LocalRecordData::Dma(_) => Vec::new(),
        }
    }
}

} // verus!
