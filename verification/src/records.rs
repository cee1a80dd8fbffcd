//! Record layout catalog and bitfield codec.
//!
//! Each local identifier names one record type whose fields are packed
//! contiguously, least-significant-bit first, starting at byte 0 of the
//! response buffer; multi-byte fields are little-endian. For every record
//! the layout is given twice: a `..._of` spec function (the decode model:
//! each field read at its fixed byte offset) and a `..._bytes` spec function
//! (the encode model: the buffer a given record packs to). The executable
//! `from_bytes` codecs are proved against the decode model, and the
//! round-trip lemmas show that packing a record and decoding the buffer
//! recovers every sub-field exactly.

use vstd::prelude::*;

use crate::bytes::byte0_of;
use crate::bytes::byte1_of;
use crate::bytes::byte2_of;
use crate::bytes::byte3_of;
use crate::bytes::le16;
use crate::bytes::le32;
use crate::bytes::lemma_le16_reassemble;
use crate::bytes::lemma_le32_reassemble;
use crate::bytes::read_u16_le;
use crate::bytes::read_u32_le;
use crate::bytes::read_u8;

verus! {

/// Gear selector position, an 8-bit closed enumeration. Codes 0 through 12
/// name the positions in order, `0xFF` is the "signal not available"
/// sentinel, and any other code is kept verbatim as `Unknown` so that an
/// undefined wire value stays observable instead of being folded into a
/// named state.
#[derive(Debug, Copy, Clone, Ord, PartialOrd, Eq, PartialEq, Structural)]
pub enum ShifterPosition {
    Park,
    ParkReverse,
    Reverse,
    ReverseNeutral,
    Neutral,
    NeutralDrive,
    Drive,
    Plus,
    Minus,
    Four,
    Three,
    Two,
    One,
    SNV,
    Unknown(u8),
}

/// Paddle-shifter position, an 8-bit closed enumeration. Codes 0 through 3
/// name the positions, `0xFF` is the "signal not available" sentinel, and
/// any other code is kept verbatim as `Unknown`.
#[derive(Debug, Copy, Clone, Ord, PartialOrd, Eq, PartialEq, Structural)]
pub enum PaddlePosition {
    NotPressed,
    Plus,
    Minus,
    PlusAndMinus,
    SNV,
    Unknown(u8),
}

/// The selector position a wire byte denotes.
pub open spec fn shifter_of_byte(b: u8) -> ShifterPosition {
    if b == 0 {
        ShifterPosition::Park
    } else if b == 1 {
        ShifterPosition::ParkReverse
    } else if b == 2 {
        ShifterPosition::Reverse
    } else if b == 3 {
        ShifterPosition::ReverseNeutral
    } else if b == 4 {
        ShifterPosition::Neutral
    } else if b == 5 {
        ShifterPosition::NeutralDrive
    } else if b == 6 {
        ShifterPosition::Drive
    } else if b == 7 {
        ShifterPosition::Plus
    } else if b == 8 {
        ShifterPosition::Minus
    } else if b == 9 {
        ShifterPosition::Four
    } else if b == 10 {
        ShifterPosition::Three
    } else if b == 11 {
        ShifterPosition::Two
    } else if b == 12 {
        ShifterPosition::One
    } else if b == 0xFF {
        ShifterPosition::SNV
    } else {
        ShifterPosition::Unknown(b)
    }
}

/// The wire byte a selector position packs to.
pub open spec fn shifter_code(p: ShifterPosition) -> u8 {
    match p {
        ShifterPosition::Park => 0,
        ShifterPosition::ParkReverse => 1,
        ShifterPosition::Reverse => 2,
        ShifterPosition::ReverseNeutral => 3,
        ShifterPosition::Neutral => 4,
        ShifterPosition::NeutralDrive => 5,
        ShifterPosition::Drive => 6,
        ShifterPosition::Plus => 7,
        ShifterPosition::Minus => 8,
        ShifterPosition::Four => 9,
        ShifterPosition::Three => 10,
        ShifterPosition::Two => 11,
        ShifterPosition::One => 12,
        ShifterPosition::SNV => 0xFF,
        ShifterPosition::Unknown(c) => c,
    }
}

/// A selector value is well formed when `Unknown` carries only a code that
/// no named state or the sentinel already owns.
pub open spec fn shifter_wf(p: ShifterPosition) -> bool {
    match p {
        ShifterPosition::Unknown(c) => c > 12 && c != 0xFF,
        _ => true,
    }
}

/// The paddle position a wire byte denotes.
pub open spec fn paddle_of_byte(b: u8) -> PaddlePosition {
    if b == 0 {
        PaddlePosition::NotPressed
    } else if b == 1 {
        PaddlePosition::Plus
    } else if b == 2 {
        PaddlePosition::Minus
    } else if b == 3 {
        PaddlePosition::PlusAndMinus
    } else if b == 0xFF {
        PaddlePosition::SNV
    } else {
        PaddlePosition::Unknown(b)
    }
}

/// The wire byte a paddle position packs to.
pub open spec fn paddle_code(p: PaddlePosition) -> u8 {
    match p {
        PaddlePosition::NotPressed => 0,
        PaddlePosition::Plus => 1,
        PaddlePosition::Minus => 2,
        PaddlePosition::PlusAndMinus => 3,
        PaddlePosition::SNV => 0xFF,
        PaddlePosition::Unknown(c) => c,
    }
}

/// A paddle value is well formed when `Unknown` carries only a code that
/// no named state or the sentinel already owns.
pub open spec fn paddle_wf(p: PaddlePosition) -> bool {
    match p {
        PaddlePosition::Unknown(c) => c > 3 && c != 0xFF,
        _ => true,
    }
}

/// Maps a wire byte to the selector position it denotes.
pub fn shifter_from_byte(b: u8) -> (r: ShifterPosition)
    ensures
        r == shifter_of_byte(b),
{
    match b {
        0 => ShifterPosition::Park,
        1 => ShifterPosition::ParkReverse,
        2 => ShifterPosition::Reverse,
        3 => ShifterPosition::ReverseNeutral,
        4 => ShifterPosition::Neutral,
        5 => ShifterPosition::NeutralDrive,
        6 => ShifterPosition::Drive,
        7 => ShifterPosition::Plus,
        8 => ShifterPosition::Minus,
        9 => ShifterPosition::Four,
        10 => ShifterPosition::Three,
        11 => ShifterPosition::Two,
        12 => ShifterPosition::One,
        0xFF => ShifterPosition::SNV,
        _ => ShifterPosition::Unknown(b),
    }
}

/// Maps a wire byte to the paddle position it denotes.
pub fn paddle_from_byte(b: u8) -> (r: PaddlePosition)
    ensures
        r == paddle_of_byte(b),
{
    match b {
        0 => PaddlePosition::NotPressed,
        1 => PaddlePosition::Plus,
        2 => PaddlePosition::Minus,
        3 => PaddlePosition::PlusAndMinus,
        0xFF => PaddlePosition::SNV,
        _ => PaddlePosition::Unknown(b),
    }
}

/// Packing a well-formed selector position and mapping the byte back
/// recovers the position.
pub proof fn lemma_shifter_round_trip(p: ShifterPosition)
    requires
        shifter_wf(p),
    ensures
        shifter_of_byte(shifter_code(p)) == p,
{
}

/// Packing a well-formed paddle position and mapping the byte back
/// recovers the position.
pub proof fn lemma_paddle_round_trip(p: PaddlePosition)
    requires
        paddle_wf(p),
    ensures
        paddle_of_byte(paddle_code(p)) == p,
{
}

/// Solenoid pressure record: three PWM duty codes (0–4096) and three
/// pressures in mBar. Layout: six 16-bit fields, 12 bytes.
#[derive(Debug, Copy, Clone, Ord, PartialOrd, Eq, PartialEq, Structural)]
pub struct DataPressures {
    pub spc_pwm: u16,
    pub mpc_pwm: u16,
    pub tcc_pwm: u16,
    pub spc_pressure: u16,
    pub mpc_pressure: u16,
    pub tcc_pressure: u16,
}

/// Gearbox sensor record. Layout: five 16-bit fields, one 32-bit field,
/// one 8-bit field, 15 bytes.
#[derive(Debug, Copy, Clone, Ord, PartialOrd, Eq, PartialEq, Structural)]
pub struct DataGearboxSensors {
    pub n2_rpm: u16,
    pub n3_rpm: u16,
    pub calculated_rpm: u16,
    pub calc_ratio: u16,
    pub v_batt: u16,
    pub atf_temp_c: u32,
    pub parking_lock: u8,
}

/// Solenoid status record: PWM duty, measured and target currents and
/// trim adjustments. Layout: sixteen 16-bit fields, 32 bytes.
#[derive(Debug, Default, Copy, Clone, Ord, PartialOrd, Eq, PartialEq, Structural)]
pub struct DataSolenoids {
    pub spc_pwm: u16,
    pub mpc_pwm: u16,
    pub tcc_pwm: u16,
    pub y3_pwm: u16,
    pub y4_pwm: u16,
    pub y5_pwm: u16,
    pub spc_current: u16,
    pub mpc_current: u16,
    pub tcc_current: u16,
    pub targ_spc_current: u16,
    pub targ_mpc_current: u16,
    pub adjustment_spc: u16,
    pub adjustment_mpc: u16,
    pub y3_current: u16,
    pub y4_current: u16,
    pub y5_current: u16,
}

/// CAN data dump record. Layout: one 8-bit field, five 16-bit fields,
/// three 8-bit fields (the last two enumeration-typed), 14 bytes.
#[derive(Debug, Copy, Clone, Ord, PartialOrd, Eq, PartialEq, Structural)]
pub struct DataCanDump {
    pub pedal_position: u8,
    pub min_torque_ms: u16,
    pub max_torque_ms: u16,
    pub static_torque: u16,
    pub left_rear_rpm: u16,
    pub right_rear_rpm: u16,
    pub shift_profile_pressed: u8,
    pub selector_position: ShifterPosition,
    pub paddle_position: PaddlePosition,
}

/// System usage record. Layout: two 16-bit fields, five 32-bit fields,
/// 24 bytes.
#[derive(Debug, Copy, Clone, Ord, PartialOrd, Eq, PartialEq, Structural)]
pub struct DataSysUsage {
    pub core1_usage: u16,
    pub core2_usage: u16,
    pub free_ram: u32,
    pub total_ram: u32,
    pub free_psram: u32,
    pub total_psram: u32,
    pub num_tasks: u32,
}

/// DMA dump record, the irregular layout: a 16-bit ADC detect word, then
/// as many whole 16-bit little-endian words as the buffer still holds,
/// each masked to its low 12 bits; a trailing odd byte is ignored.
#[derive(Debug, Clone, Ord, PartialOrd, Eq, PartialEq)]
pub struct DataDmaDump {
    pub adc_detect: u16,
    pub dma_buffer: Vec<u16>,
}

/// Decode model of the pressure record.
pub open spec fn pressures_of(s: Seq<u8>) -> DataPressures
    recommends
        s.len() == 12,
{
    DataPressures {
        spc_pwm: le16(s, 0) as u16,
        mpc_pwm: le16(s, 2) as u16,
        tcc_pwm: le16(s, 4) as u16,
        spc_pressure: le16(s, 6) as u16,
        mpc_pressure: le16(s, 8) as u16,
        tcc_pressure: le16(s, 10) as u16,
    }
}

/// Encode model of the pressure record.
pub open spec fn pressures_bytes(d: DataPressures) -> Seq<u8> {
    seq![
        byte0_of(d.spc_pwm as int),
        byte1_of(d.spc_pwm as int),
        byte0_of(d.mpc_pwm as int),
        byte1_of(d.mpc_pwm as int),
        byte0_of(d.tcc_pwm as int),
        byte1_of(d.tcc_pwm as int),
        byte0_of(d.spc_pressure as int),
        byte1_of(d.spc_pressure as int),
        byte0_of(d.mpc_pressure as int),
        byte1_of(d.mpc_pressure as int),
        byte0_of(d.tcc_pressure as int),
        byte1_of(d.tcc_pressure as int),
    ]
}

/// Decode model of the gearbox sensor record.
pub open spec fn gearbox_sensors_of(s: Seq<u8>) -> DataGearboxSensors
    recommends
        s.len() == 15,
{
    DataGearboxSensors {
        n2_rpm: le16(s, 0) as u16,
        n3_rpm: le16(s, 2) as u16,
        calculated_rpm: le16(s, 4) as u16,
        calc_ratio: le16(s, 6) as u16,
        v_batt: le16(s, 8) as u16,
        atf_temp_c: le32(s, 10) as u32,
        parking_lock: s[14],
    }
}

/// Encode model of the gearbox sensor record.
pub open spec fn gearbox_sensors_bytes(d: DataGearboxSensors) -> Seq<u8> {
    seq![
        byte0_of(d.n2_rpm as int),
        byte1_of(d.n2_rpm as int),
        byte0_of(d.n3_rpm as int),
        byte1_of(d.n3_rpm as int),
        byte0_of(d.calculated_rpm as int),
        byte1_of(d.calculated_rpm as int),
        byte0_of(d.calc_ratio as int),
        byte1_of(d.calc_ratio as int),
        byte0_of(d.v_batt as int),
        byte1_of(d.v_batt as int),
        byte0_of(d.atf_temp_c as int),
        byte1_of(d.atf_temp_c as int),
        byte2_of(d.atf_temp_c as int),
        byte3_of(d.atf_temp_c as int),
        d.parking_lock,
    ]
}

/// Decode model of the solenoid status record.
pub open spec fn solenoids_of(s: Seq<u8>) -> DataSolenoids
    recommends
        s.len() == 32,
{
    DataSolenoids {
        spc_pwm: le16(s, 0) as u16,
        mpc_pwm: le16(s, 2) as u16,
        tcc_pwm: le16(s, 4) as u16,
        y3_pwm: le16(s, 6) as u16,
        y4_pwm: le16(s, 8) as u16,
        y5_pwm: le16(s, 10) as u16,
        spc_current: le16(s, 12) as u16,
        mpc_current: le16(s, 14) as u16,
        tcc_current: le16(s, 16) as u16,
        targ_spc_current: le16(s, 18) as u16,
        targ_mpc_current: le16(s, 20) as u16,
        adjustment_spc: le16(s, 22) as u16,
        adjustment_mpc: le16(s, 24) as u16,
        y3_current: le16(s, 26) as u16,
        y4_current: le16(s, 28) as u16,
        y5_current: le16(s, 30) as u16,
    }
}

/// Encode model of the solenoid status record.
pub open spec fn solenoids_bytes(d: DataSolenoids) -> Seq<u8> {
    seq![
        byte0_of(d.spc_pwm as int),
        byte1_of(d.spc_pwm as int),
        byte0_of(d.mpc_pwm as int),
        byte1_of(d.mpc_pwm as int),
        byte0_of(d.tcc_pwm as int),
        byte1_of(d.tcc_pwm as int),
        byte0_of(d.y3_pwm as int),
        byte1_of(d.y3_pwm as int),
        byte0_of(d.y4_pwm as int),
        byte1_of(d.y4_pwm as int),
        byte0_of(d.y5_pwm as int),
        byte1_of(d.y5_pwm as int),
        byte0_of(d.spc_current as int),
        byte1_of(d.spc_current as int),
        byte0_of(d.mpc_current as int),
        byte1_of(d.mpc_current as int),
        byte0_of(d.tcc_current as int),
        byte1_of(d.tcc_current as int),
        byte0_of(d.targ_spc_current as int),
        byte1_of(d.targ_spc_current as int),
        byte0_of(d.targ_mpc_current as int),
        byte1_of(d.targ_mpc_current as int),
        byte0_of(d.adjustment_spc as int),
        byte1_of(d.adjustment_spc as int),
        byte0_of(d.adjustment_mpc as int),
        byte1_of(d.adjustment_mpc as int),
        byte0_of(d.y3_current as int),
        byte1_of(d.y3_current as int),
        byte0_of(d.y4_current as int),
        byte1_of(d.y4_current as int),
        byte0_of(d.y5_current as int),
        byte1_of(d.y5_current as int),
    ]
}

/// Decode model of the CAN data dump record.
pub open spec fn can_dump_of(s: Seq<u8>) -> DataCanDump
    recommends
        s.len() == 14,
{
    DataCanDump {
        pedal_position: s[0],
        min_torque_ms: le16(s, 1) as u16,
        max_torque_ms: le16(s, 3) as u16,
        static_torque: le16(s, 5) as u16,
        left_rear_rpm: le16(s, 7) as u16,
        right_rear_rpm: le16(s, 9) as u16,
        shift_profile_pressed: s[11],
        selector_position: shifter_of_byte(s[12]),
        paddle_position: paddle_of_byte(s[13]),
    }
}

/// Encode model of the CAN data dump record.
pub open spec fn can_dump_bytes(d: DataCanDump) -> Seq<u8> {
    seq![
        d.pedal_position,
        byte0_of(d.min_torque_ms as int),
        byte1_of(d.min_torque_ms as int),
        byte0_of(d.max_torque_ms as int),
        byte1_of(d.max_torque_ms as int),
        byte0_of(d.static_torque as int),
        byte1_of(d.static_torque as int),
        byte0_of(d.left_rear_rpm as int),
        byte1_of(d.left_rear_rpm as int),
        byte0_of(d.right_rear_rpm as int),
        byte1_of(d.right_rear_rpm as int),
        d.shift_profile_pressed,
        shifter_code(d.selector_position),
        paddle_code(d.paddle_position),
    ]
}

/// A CAN data dump record is well formed when both enumeration fields are.
pub open spec fn can_dump_wf(d: DataCanDump) -> bool {
    shifter_wf(d.selector_position) && paddle_wf(d.paddle_position)
}

/// Decode model of the system usage record.
pub open spec fn sys_usage_of(s: Seq<u8>) -> DataSysUsage
    recommends
        s.len() == 24,
{
    DataSysUsage {
        core1_usage: le16(s, 0) as u16,
        core2_usage: le16(s, 2) as u16,
        free_ram: le32(s, 4) as u32,
        total_ram: le32(s, 8) as u32,
        free_psram: le32(s, 12) as u32,
        total_psram: le32(s, 16) as u32,
        num_tasks: le32(s, 20) as u32,
    }
}

/// Encode model of the system usage record.
pub open spec fn sys_usage_bytes(d: DataSysUsage) -> Seq<u8> {
    seq![
        byte0_of(d.core1_usage as int),
        byte1_of(d.core1_usage as int),
        byte0_of(d.core2_usage as int),
        byte1_of(d.core2_usage as int),
        byte0_of(d.free_ram as int),
        byte1_of(d.free_ram as int),
        byte2_of(d.free_ram as int),
        byte3_of(d.free_ram as int),
        byte0_of(d.total_ram as int),
        byte1_of(d.total_ram as int),
        byte2_of(d.total_ram as int),
        byte3_of(d.total_ram as int),
        byte0_of(d.free_psram as int),
        byte1_of(d.free_psram as int),
        byte2_of(d.free_psram as int),
        byte3_of(d.free_psram as int),
        byte0_of(d.total_psram as int),
        byte1_of(d.total_psram as int),
        byte2_of(d.total_psram as int),
        byte3_of(d.total_psram as int),
        byte0_of(d.num_tasks as int),
        byte1_of(d.num_tasks as int),
        byte2_of(d.num_tasks as int),
        byte3_of(d.num_tasks as int),
    ]
}

/// The masked 12-bit words after the ADC detect word of a DMA dump buffer.
pub open spec fn dma_words_of(s: Seq<u8>) -> Seq<u16>
    recommends
        s.len() >= 2,
{
    Seq::new(((s.len() - 2) / 2) as nat, |k: int| (le16(s, 2 + 2 * k) % 0x1000) as u16)
}

/// The byte encoding of a sequence of 16-bit words, little-endian each.
pub open spec fn dma_words_bytes(words: Seq<u16>) -> Seq<u8> {
    Seq::new(
        2 * words.len(),
        |j: int|
            if j % 2 == 0 {
                byte0_of(words[j / 2] as int)
            } else {
                byte1_of(words[j / 2] as int)
            },
    )
}

/// Encode model of the DMA dump record: the ADC detect word, then the
/// buffer words.
pub open spec fn dma_bytes(adc_detect: u16, words: Seq<u16>) -> Seq<u8> {
    seq![byte0_of(adc_detect as int), byte1_of(adc_detect as int)] + dma_words_bytes(words)
}

impl DataPressures {
    /// Unpacks the pressure record from its 12-byte buffer.
    pub fn from_bytes(b: &Vec<u8>) -> (r: DataPressures)
        requires
            b@.len() == 12,
        ensures
            r == pressures_of(b@),
    {
        DataPressures {
            spc_pwm: read_u16_le(b, 0),
            mpc_pwm: read_u16_le(b, 2),
            tcc_pwm: read_u16_le(b, 4),
            spc_pressure: read_u16_le(b, 6),
            mpc_pressure: read_u16_le(b, 8),
            tcc_pressure: read_u16_le(b, 10),
        }
    }
}

impl DataGearboxSensors {
    /// Unpacks the gearbox sensor record from its 15-byte buffer.
    pub fn from_bytes(b: &Vec<u8>) -> (r: DataGearboxSensors)
        requires
            b@.len() == 15,
        ensures
            r == gearbox_sensors_of(b@),
    {
        DataGearboxSensors {
            n2_rpm: read_u16_le(b, 0),
            n3_rpm: read_u16_le(b, 2),
            calculated_rpm: read_u16_le(b, 4),
            calc_ratio: read_u16_le(b, 6),
            v_batt: read_u16_le(b, 8),
            atf_temp_c: read_u32_le(b, 10),
            parking_lock: read_u8(b, 14),
        }
    }
}

impl DataSolenoids {
    /// Unpacks the solenoid status record from its 32-byte buffer.
    pub fn from_bytes(b: &Vec<u8>) -> (r: DataSolenoids)
        requires
            b@.len() == 32,
        ensures
            r == solenoids_of(b@),
    {
        DataSolenoids {
            spc_pwm: read_u16_le(b, 0),
            mpc_pwm: read_u16_le(b, 2),
            tcc_pwm: read_u16_le(b, 4),
            y3_pwm: read_u16_le(b, 6),
            y4_pwm: read_u16_le(b, 8),
            y5_pwm: read_u16_le(b, 10),
            spc_current: read_u16_le(b, 12),
            mpc_current: read_u16_le(b, 14),
            tcc_current: read_u16_le(b, 16),
            targ_spc_current: read_u16_le(b, 18),
            targ_mpc_current: read_u16_le(b, 20),
            adjustment_spc: read_u16_le(b, 22),
            adjustment_mpc: read_u16_le(b, 24),
            y3_current: read_u16_le(b, 26),
            y4_current: read_u16_le(b, 28),
            y5_current: read_u16_le(b, 30),
        }
    }

    /// Sum of the six measured solenoid currents, in mA.
    pub fn total_current_ma(&self) -> (r: u32)
        ensures
            r == self.y5_current + self.y4_current + self.y3_current + self.mpc_current
                + self.spc_current + self.tcc_current,
    {
        self.y5_current as u32 + self.y4_current as u32 + self.y3_current as u32
            + self.mpc_current as u32 + self.spc_current as u32 + self.tcc_current as u32
    }
}

impl DataCanDump {
    /// Unpacks the CAN data dump record from its 14-byte buffer.
    pub fn from_bytes(b: &Vec<u8>) -> (r: DataCanDump)
        requires
            b@.len() == 14,
        ensures
            r == can_dump_of(b@),
    {
        DataCanDump {
            pedal_position: read_u8(b, 0),
            min_torque_ms: read_u16_le(b, 1),
            max_torque_ms: read_u16_le(b, 3),
            static_torque: read_u16_le(b, 5),
            left_rear_rpm: read_u16_le(b, 7),
            right_rear_rpm: read_u16_le(b, 9),
            shift_profile_pressed: read_u8(b, 11),
            selector_position: shifter_from_byte(read_u8(b, 12)),
            paddle_position: paddle_from_byte(read_u8(b, 13)),
        }
    }
}

impl DataSysUsage {
    /// Unpacks the system usage record from its 24-byte buffer.
    pub fn from_bytes(b: &Vec<u8>) -> (r: DataSysUsage)
        requires
            b@.len() == 24,
        ensures
            r == sys_usage_of(b@),
    {
        DataSysUsage {
            core1_usage: read_u16_le(b, 0),
            core2_usage: read_u16_le(b, 2),
            free_ram: read_u32_le(b, 4),
            total_ram: read_u32_le(b, 8),
            free_psram: read_u32_le(b, 12),
            total_psram: read_u32_le(b, 16),
            num_tasks: read_u32_le(b, 20),
        }
    }
}

impl DataDmaDump {
    /// Unpacks the DMA dump record: a plain little-endian read of the ADC
    /// detect word, then repeated little-endian reads each masked with
    /// `0x0FFF`, until fewer than two bytes remain.
    pub fn from_bytes(b: &Vec<u8>) -> (r: DataDmaDump)
        requires
            b@.len() >= 2,
        ensures
            r.adc_detect as int == le16(b@, 0),
            r.dma_buffer@ == dma_words_of(b@),
    {
        let n: usize = b.len();
        let adc_detect: u16 = read_u16_le(b, 0);
        let mut dma_buffer: Vec<u16> = Vec::new();
        let mut i: usize = 2;
        while i < n - 1
            invariant
                n == b@.len(),
                2 <= i <= n,
                i % 2 == 0,
                2 * dma_buffer@.len() == i - 2,
                forall|k: int|
                    0 <= k < dma_buffer@.len() ==> dma_buffer@[k] == (le16(b@, 2 + 2 * k)
                        % 0x1000) as u16,
            decreases n - i,
        {
            let w: u16 = read_u16_le(b, i);
            let m: u16 = w & 0x0FFF;
            assert(m == w % 0x1000) by (bit_vector)
                requires
                    m == (w & 0x0FFF),
            ;
            dma_buffer.push(m);
            i += 2;
        }
        proof {
            assert(dma_buffer@ =~= dma_words_of(b@));
        }
        DataDmaDump { adc_detect, dma_buffer }
    }
}

/// Packing a pressure record and decoding the buffer recovers the record.
pub proof fn lemma_pressures_round_trip(d: DataPressures)
    ensures
        pressures_bytes(d).len() == 12,
        pressures_of(pressures_bytes(d)) == d,
{
    let s = pressures_bytes(d);
    lemma_le16_reassemble(d.spc_pwm as int, s, 0);
    lemma_le16_reassemble(d.mpc_pwm as int, s, 2);
    lemma_le16_reassemble(d.tcc_pwm as int, s, 4);
    lemma_le16_reassemble(d.spc_pressure as int, s, 6);
    lemma_le16_reassemble(d.mpc_pressure as int, s, 8);
    lemma_le16_reassemble(d.tcc_pressure as int, s, 10);
}

/// Packing a gearbox sensor record and decoding the buffer recovers the
/// record.
pub proof fn lemma_gearbox_sensors_round_trip(d: DataGearboxSensors)
    ensures
        gearbox_sensors_bytes(d).len() == 15,
        gearbox_sensors_of(gearbox_sensors_bytes(d)) == d,
{
    let s = gearbox_sensors_bytes(d);
    lemma_le16_reassemble(d.n2_rpm as int, s, 0);
    lemma_le16_reassemble(d.n3_rpm as int, s, 2);
    lemma_le16_reassemble(d.calculated_rpm as int, s, 4);
    lemma_le16_reassemble(d.calc_ratio as int, s, 6);
    lemma_le16_reassemble(d.v_batt as int, s, 8);
    lemma_le32_reassemble(d.atf_temp_c as int, s, 10);
}

/// Packing a solenoid status record and decoding the buffer recovers the
/// record.
pub proof fn lemma_solenoids_round_trip(d: DataSolenoids)
    ensures
        solenoids_bytes(d).len() == 32,
        solenoids_of(solenoids_bytes(d)) == d,
{
    let s = solenoids_bytes(d);
    lemma_le16_reassemble(d.spc_pwm as int, s, 0);
    lemma_le16_reassemble(d.mpc_pwm as int, s, 2);
    lemma_le16_reassemble(d.tcc_pwm as int, s, 4);
    lemma_le16_reassemble(d.y3_pwm as int, s, 6);
    lemma_le16_reassemble(d.y4_pwm as int, s, 8);
    lemma_le16_reassemble(d.y5_pwm as int, s, 10);
    lemma_le16_reassemble(d.spc_current as int, s, 12);
    lemma_le16_reassemble(d.mpc_current as int, s, 14);
    lemma_le16_reassemble(d.tcc_current as int, s, 16);
    lemma_le16_reassemble(d.targ_spc_current as int, s, 18);
    lemma_le16_reassemble(d.targ_mpc_current as int, s, 20);
    lemma_le16_reassemble(d.adjustment_spc as int, s, 22);
    lemma_le16_reassemble(d.adjustment_mpc as int, s, 24);
    lemma_le16_reassemble(d.y3_current as int, s, 26);
    lemma_le16_reassemble(d.y4_current as int, s, 28);
    lemma_le16_reassemble(d.y5_current as int, s, 30);
}

/// Packing a well-formed CAN data dump record and decoding the buffer
/// recovers the record. Well-formedness only rules out an `Unknown`
/// enumeration value that carries a named code.
pub proof fn lemma_can_dump_round_trip(d: DataCanDump)
    requires
        can_dump_wf(d),
    ensures
        can_dump_bytes(d).len() == 14,
        can_dump_of(can_dump_bytes(d)) == d,
{
    let s = can_dump_bytes(d);
    lemma_le16_reassemble(d.min_torque_ms as int, s, 1);
    lemma_le16_reassemble(d.max_torque_ms as int, s, 3);
    lemma_le16_reassemble(d.static_torque as int, s, 5);
    lemma_le16_reassemble(d.left_rear_rpm as int, s, 7);
    lemma_le16_reassemble(d.right_rear_rpm as int, s, 9);
    lemma_shifter_round_trip(d.selector_position);
    lemma_paddle_round_trip(d.paddle_position);
}

/// Packing a system usage record and decoding the buffer recovers the
/// record.
pub proof fn lemma_sys_usage_round_trip(d: DataSysUsage)
    ensures
        sys_usage_bytes(d).len() == 24,
        sys_usage_of(sys_usage_bytes(d)) == d,
{
    let s = sys_usage_bytes(d);
    lemma_le16_reassemble(d.core1_usage as int, s, 0);
    lemma_le16_reassemble(d.core2_usage as int, s, 2);
    lemma_le32_reassemble(d.free_ram as int, s, 4);
    lemma_le32_reassemble(d.total_ram as int, s, 8);
    lemma_le32_reassemble(d.free_psram as int, s, 12);
    lemma_le32_reassemble(d.total_psram as int, s, 16);
    lemma_le32_reassemble(d.num_tasks as int, s, 20);
}

/// Packing a DMA dump record and decoding the buffer recovers the ADC
/// detect word and every buffer word. The words must already fit their
/// 12-bit width: decoding masks each word with `0x0FFF`, so a wider word
/// could not come back unchanged.
pub proof fn lemma_dma_round_trip(adc_detect: u16, words: Seq<u16>)
    requires
        forall|k: int| 0 <= k < words.len() ==> words[k] < 0x1000,
    ensures
        dma_bytes(adc_detect, words).len() == 2 + 2 * words.len(),
        le16(dma_bytes(adc_detect, words), 0) == adc_detect,
        dma_words_of(dma_bytes(adc_detect, words)) == words,
{
    let s = dma_bytes(adc_detect, words);
    lemma_le16_reassemble(adc_detect as int, s, 0);
    assert forall|k: int| 0 <= k < words.len() implies dma_words_of(s)[k] == words[k] by {
        assert((2 * k) % 2 == 0 && (2 * k) / 2 == k);
        assert((2 * k + 1) % 2 == 1 && (2 * k + 1) / 2 == k);
        assert(s[2 + 2 * k] == dma_words_bytes(words)[2 * k]);
        assert(s[2 + 2 * k + 1] == dma_words_bytes(words)[2 * k + 1]);
        lemma_le16_reassemble(words[k] as int, s, 2 + 2 * k);
        assert(le16(s, 2 + 2 * k) % 0x1000 == words[k]);
    }
    assert(dma_words_of(s) =~= words);
}

} // verus!
