//! Record identifier registry: the catalog of known identifiers and the
//! single decoding entry point.
//!
//! `decode` checks the buffer length against the identifier's layout and
//! dispatches to that record's codec. Length is the only thing ever
//! rejected; field content, sentinel values included, is returned as it
//! came off the wire.

use vstd::prelude::*;

use crate::bytes::le16;
use crate::records::can_dump_of;
use crate::records::dma_words_of;
use crate::records::gearbox_sensors_of;
use crate::records::pressures_of;
use crate::records::solenoids_of;
use crate::records::sys_usage_of;
use crate::records::DataCanDump;
use crate::records::DataDmaDump;
use crate::records::DataGearboxSensors;
use crate::records::DataPressures;
use crate::records::DataSolenoids;
use crate::records::DataSysUsage;

verus! {

/// The closed set of known local identifiers.
#[derive(Copy, Clone, Ord, PartialOrd, Eq, PartialEq, Debug, Structural)]
pub enum RecordIdents {
    GearboxSensors,
    SolenoidStatus,
    CanDataDump,
    SysUsage,
    PressureStatus,
    DmaDump,
}

/// A decoded record, one variant per identifier.
#[derive(Debug, Clone, Ord, PartialOrd, Eq, PartialEq)]
pub enum LocalRecordData {
    Sensors(DataGearboxSensors),
    Solenoids(DataSolenoids),
    Canbus(DataCanDump),
    SysUsage(DataSysUsage),
    Pressures(DataPressures),
    Dma(DataDmaDump),
}

/// The one failure decoding can report: the buffer's length does not match
/// the identifier's layout (for the DMA dump, is below the 2-byte minimum).
/// `expected` is the identifier's fixed byte length, or that minimum.
#[derive(Debug, Copy, Clone, Eq, PartialEq, Structural)]
pub enum DecodeError {
    InvalidResponseLength { identifier: RecordIdents, expected: usize, actual: usize },
}

/// The one-byte wire code of each identifier.
pub open spec fn record_code(id: RecordIdents) -> u8 {
    match id {
        RecordIdents::GearboxSensors => 0x20,
        RecordIdents::SolenoidStatus => 0x21,
        RecordIdents::CanDataDump => 0x22,
        RecordIdents::SysUsage => 0x23,
        RecordIdents::PressureStatus => 0x25,
        RecordIdents::DmaDump => 0x26,
    }
}

/// The expected response length of each identifier in bytes: the sum of
/// its layout's field widths. For the variable-length DMA dump this is the
/// 2-byte minimum.
pub open spec fn expected_len_spec(id: RecordIdents) -> usize {
    match id {
        RecordIdents::GearboxSensors => 15,
        RecordIdents::SolenoidStatus => 32,
        RecordIdents::CanDataDump => 14,
        RecordIdents::SysUsage => 24,
        RecordIdents::PressureStatus => 12,
        RecordIdents::DmaDump => 2,
    }
}

/// Whether a buffer of `n` bytes is acceptable for `id`: exactly the fixed
/// length, or at least the minimum for the DMA dump.
pub open spec fn len_ok(id: RecordIdents, n: nat) -> bool {
    match id {
        RecordIdents::DmaDump => n >= 2,
        _ => n == expected_len_spec(id),
    }
}

/// Whether `rec` is exactly what the layout catalog decodes out of `s` for
/// identifier `id`.
pub open spec fn decoded_record_ok(id: RecordIdents, s: Seq<u8>, rec: LocalRecordData) -> bool {
    match id {
        RecordIdents::GearboxSensors => rec == LocalRecordData::Sensors(gearbox_sensors_of(s)),
        RecordIdents::SolenoidStatus => rec == LocalRecordData::Solenoids(solenoids_of(s)),
        RecordIdents::CanDataDump => rec == LocalRecordData::Canbus(can_dump_of(s)),
        RecordIdents::SysUsage => rec == LocalRecordData::SysUsage(sys_usage_of(s)),
        RecordIdents::PressureStatus => rec == LocalRecordData::Pressures(pressures_of(s)),
        RecordIdents::DmaDump => rec matches LocalRecordData::Dma(d) && d.adc_detect as int
            == le16(s, 0) && d.dma_buffer@ == dma_words_of(s),
    }
}

impl RecordIdents {
    /// The identifier's one-byte wire code.
    pub fn code(&self) -> (c: u8)
        ensures
            c == record_code(*self),
    {
        match self {
            RecordIdents::GearboxSensors => 0x20,
            RecordIdents::SolenoidStatus => 0x21,
            RecordIdents::CanDataDump => 0x22,
            RecordIdents::SysUsage => 0x23,
            RecordIdents::PressureStatus => 0x25,
            RecordIdents::DmaDump => 0x26,
        }
    }

    /// Looks a wire code up in the catalog; codes outside the closed set
    /// are out of scope and yield nothing.
    pub fn from_code(c: u8) -> (r: Option<RecordIdents>)
        ensures
            match r {
                Some(id) => record_code(id) == c,
                None => forall|id: RecordIdents| record_code(id) != c,
            },
    {
        match c {
            0x20 => Some(RecordIdents::GearboxSensors),
            0x21 => Some(RecordIdents::SolenoidStatus),
            0x22 => Some(RecordIdents::CanDataDump),
            0x23 => Some(RecordIdents::SysUsage),
            0x25 => Some(RecordIdents::PressureStatus),
            0x26 => Some(RecordIdents::DmaDump),
            _ => None,
        }
    }

    /// The identifier's expected response length in bytes (the minimum,
    /// for the DMA dump).
    pub fn expected_len(&self) -> (r: usize)
        ensures
            r == expected_len_spec(*self),
    {
        match self {
            RecordIdents::GearboxSensors => 15,
            RecordIdents::SolenoidStatus => 32,
            RecordIdents::CanDataDump => 14,
            RecordIdents::SysUsage => 24,
            RecordIdents::PressureStatus => 12,
            RecordIdents::DmaDump => 2,
        }
    }

    /// Decodes a raw response buffer into this identifier's record.
    ///
    /// Succeeds exactly when the buffer length fits the identifier's
    /// layout, and then returns the record the layout catalog prescribes;
    /// otherwise reports the length mismatch. Content is never rejected.
    pub fn decode(&self, buffer: &Vec<u8>) -> (result: Result<LocalRecordData, DecodeError>)
        ensures
            result is Ok <==> len_ok(*self, buffer@.len()),
            result matches Ok(rec) ==> decoded_record_ok(*self, buffer@, rec),
            result matches Err(e) ==> e == (DecodeError::InvalidResponseLength {
                identifier: *self,
                expected: expected_len_spec(*self),
                actual: buffer@.len() as usize,
            }),
    {
        let n: usize = buffer.len();
        let ok: bool = match self {
            RecordIdents::DmaDump => n >= 2,
            _ => n == self.expected_len(),
        };
        if !ok {
            return Err(DecodeError::InvalidResponseLength {
                identifier: *self,
                expected: self.expected_len(),
                actual: n,
            });
        }
        match self {
            RecordIdents::GearboxSensors => Ok(
                LocalRecordData::Sensors(DataGearboxSensors::from_bytes(buffer)),
            ),
            RecordIdents::SolenoidStatus => Ok(
                LocalRecordData::Solenoids(DataSolenoids::from_bytes(buffer)),
            ),
            RecordIdents::CanDataDump => Ok(
                LocalRecordData::Canbus(DataCanDump::from_bytes(buffer)),
            ),
            RecordIdents::SysUsage => Ok(LocalRecordData::SysUsage(DataSysUsage::from_bytes(buffer))),
            RecordIdents::PressureStatus => Ok(
                LocalRecordData::Pressures(DataPressures::from_bytes(buffer)),
            ),
            RecordIdents::DmaDump => Ok(LocalRecordData::Dma(DataDmaDump::from_bytes(buffer))),
        }
    }
}

} // verus!
