//! The sample kinds the sensor records, the library's error type, and the
//! decoders for the fixed binary records the device sends.

use vstd::prelude::*;

verus! {

/// The four kinds of samples the sensor records.
///
/// Each kind carries immutable metadata: a display label, an exact display
/// multiplier (a rational, kept as numerator and denominator so the library
/// needs no floating point), a display precision, the width in bytes of one
/// sample on the wire, and the wire type code used both to request a history
/// and to validate the response frames.
#[derive(Clone, Copy, Debug, PartialEq, Eq, Structural)]
pub enum DataType {
    Temperature,
    Humidity,
    Pressure,
    CO2,
}

impl DataType {
    /// The single byte identifying this kind in commands and frame headers.
    pub open spec fn spec_wire_code(self) -> u8 {
        match self {
            DataType::Temperature => 1,
            DataType::Humidity => 2,
            DataType::Pressure => 3,
            DataType::CO2 => 4,
        }
    }

    pub fn wire_code(self) -> (code: u8)
        ensures
            code == self.spec_wire_code(),
    {
        match self {
            DataType::Temperature => 1,
            DataType::Humidity => 2,
            DataType::Pressure => 3,
            DataType::CO2 => 4,
        }
    }

    /// Width in bytes of one sample of this kind on the wire.
    pub open spec fn spec_elem_width(self) -> usize {
        match self {
            DataType::Humidity => 1,
            _ => 2,
        }
    }

    pub fn elem_width(self) -> (width: usize)
        ensures
            width == self.spec_elem_width(),
    {
        match self {
            DataType::Humidity => 1,
            _ => 2,
        }
    }

    /// Number of decimal places shown for this kind.
    pub open spec fn spec_display_precision(self) -> u32 {
        match self {
            DataType::Temperature => 2,
            DataType::Humidity => 0,
            DataType::Pressure => 1,
            DataType::CO2 => 0,
        }
    }

    pub fn display_precision(self) -> (precision: u32)
        ensures
            precision == self.spec_display_precision(),
    {
        match self {
            DataType::Temperature => 2,
            DataType::Humidity => 0,
            DataType::Pressure => 1,
            DataType::CO2 => 0,
        }
    }

    /// Numerator of the display multiplier (Temperature shows raw / 20 °C,
    /// Pressure raw / 10 mbar, Humidity and CO2 the raw value itself).
    pub open spec fn spec_multiplier_numer(self) -> u32 {
        1
    }

    /// Denominator of the display multiplier.
    pub open spec fn spec_multiplier_denom(self) -> u32 {
        match self {
            DataType::Temperature => 20,
            DataType::Humidity => 1,
            DataType::Pressure => 10,
            DataType::CO2 => 1,
        }
    }

    pub fn multiplier_numer(self) -> (numer: u32)
        ensures
            numer == self.spec_multiplier_numer(),
    {
        1
    }

    pub fn multiplier_denom(self) -> (denom: u32)
        ensures
            denom == self.spec_multiplier_denom(),
    {
        match self {
            DataType::Temperature => 20,
            DataType::Humidity => 1,
            DataType::Pressure => 10,
            DataType::CO2 => 1,
        }
    }

    /// The display label for this kind.
    pub open spec fn spec_label(self) -> Seq<char> {
        match self {
            DataType::Temperature => "Temperature (°C)"@,
            DataType::Humidity => "Humidity (%)"@,
            DataType::Pressure => "Pressure (mbar)"@,
            DataType::CO2 => "CO₂ (ppm)"@,
        }
    }

    pub fn label(self) -> (label: &'static str)
        ensures
            label@ == self.spec_label(),
    {
        match self {
            DataType::Temperature => "Temperature (°C)",
            DataType::Humidity => "Humidity (%)",
            DataType::Pressure => "Pressure (mbar)",
            DataType::CO2 => "CO₂ (ppm)",
        }
    }
}

/// Everything that can go wrong while talking to the sensor.
///
/// The three classes are kept distinguishable so a caller can decide policy:
/// transport failures may be retried, protocol mismatches should not be
/// retried without resetting the device, and a missing characteristic is
/// fatal for the device's fetch.
#[derive(Debug, Clone, PartialEq, Eq)]
pub enum Aranet4Error {
    /// A Bluetooth transport failure (connect, read, write, subscribe),
    /// carried as the adapter's error message.  Only the unverified
    /// transport layer constructs this variant.
    Btleplug(String),
    /// The device returned a response that did not match the protocol.
    InvalidResponse(String),
    /// A required GATT characteristic is not exposed by the peripheral.
    CharacteristicNotFound,
}

/// Builds an `InvalidResponse` error carrying `reason`.
pub fn invalid_response(reason: &str) -> (e: Aranet4Error)
    ensures
        e matches Aranet4Error::InvalidResponse(m) && m@ == reason@,
{
    Aranet4Error::InvalidResponse(reason.to_owned())
}

/// An ordered run of raw history samples of one kind.
///
/// Samples are `u8` on the wire for Humidity and little-endian `u16` for the
/// other kinds; both are held here as `u16`.  A complete history fetch
/// returns one of these whose length equals the total-sample count the
/// device reported.
#[derive(Debug, Clone, PartialEq, Eq)]
pub struct SensorData {
    pub data_type: DataType,
    pub values: Vec<u16>,
}

/// True when `bytes` is a well-formed history payload for `data_type`:
/// 1-byte kinds accept any length, 2-byte kinds need an even number of bytes.
pub open spec fn spec_payload_ok(data_type: DataType, bytes: Seq<u8>) -> bool {
    data_type.spec_elem_width() == 1 || bytes.len() % 2 == 0
}

/// The samples held in a well-formed history payload: each byte for 1-byte
/// kinds, non-overlapping little-endian pairs for 2-byte kinds.
pub open spec fn spec_decoded_values(data_type: DataType, bytes: Seq<u8>) -> Seq<u16> {
    if data_type.spec_elem_width() == 1 {
        Seq::new(bytes.len(), |i: int| bytes[i] as u16)
    } else {
        Seq::new(bytes.len() / 2, |i: int| (bytes[2 * i] + 256 * bytes[2 * i + 1]) as u16)
    }
}

impl SensorData {
    /// Every sample of a 1-byte kind fits in a byte.
    pub open spec fn wf(self) -> bool {
        self.data_type.spec_elem_width() == 1 ==> forall|i: int|
            0 <= i < self.values.len() ==> self.values[i] < 256
    }

    /// Decodes a fully reassembled history payload into samples.
    ///
    /// Fails exactly when a 2-byte kind is handed an odd number of bytes.
    pub fn decode(data_type: DataType, bytes: &[u8]) -> (r: Result<SensorData, Aranet4Error>)
        ensures
            match r {
                Ok(sd) => {
                    &&& spec_payload_ok(data_type, bytes@)
                    &&& sd.data_type == data_type
                    &&& sd.values@ == spec_decoded_values(data_type, bytes@)
                    &&& sd.wf()
                },
                Err(e) => {
                    &&& !spec_payload_ok(data_type, bytes@)
                    &&& e matches Aranet4Error::InvalidResponse(m) && m@ == "odd byte count"@
                },
            },
    {
        let width = data_type.elem_width();
        let mut values: Vec<u16> = Vec::new();
        if width == 1 {
            let mut i: usize = 0;
            while i < bytes.len()
                invariant
                    i <= bytes.len(),
                    values@ =~= spec_decoded_values(data_type, bytes@).subrange(0, i as int),
                    data_type.spec_elem_width() == 1,
                    forall|j: int| 0 <= j < values.len() ==> values[j] < 256,
                decreases bytes.len() - i,
            {
                values.push(bytes[i] as u16);
                i = i + 1;
            }
            assert(values@ =~= spec_decoded_values(data_type, bytes@));
            Ok(SensorData { data_type, values })
        } else {
            if bytes.len() % 2 != 0 {
                return Err(invalid_response("odd byte count"));
            }
            let n = bytes.len() / 2;
            let mut i: usize = 0;
            while i < n
                invariant
                    i <= n,
                    n == bytes.len() / 2,
                    bytes.len() % 2 == 0,
                    values@ =~= spec_decoded_values(data_type, bytes@).subrange(0, i as int),
                    data_type.spec_elem_width() == 2,
                decreases n - i,
            {
                let lo = bytes[2 * i];
                let hi = bytes[2 * i + 1];
                let v: u16 = lo as u16 + 256 * (hi as u16);
                values.push(v);
                i = i + 1;
            }
            assert(values@ =~= spec_decoded_values(data_type, bytes@));
            Ok(SensorData { data_type, values })
        }
    }

    /// The raw samples widened to `i32`, the form the columnar sink
    /// stores whole-unit kinds in.
    pub fn values_i32(&self) -> (v: Vec<i32>)
        ensures
            v@.len() == self.values@.len(),
            forall|i: int| 0 <= i < v@.len() ==> v@[i] == self.values@[i] as i32,
    {
        let mut v: Vec<i32> = Vec::new();
        let mut i: usize = 0;
        while i < self.values.len()
            invariant
                i <= self.values@.len(),
                v@.len() == i,
                forall|j: int| 0 <= j < i ==> v@[j] == self.values@[j] as i32,
            decreases self.values@.len() - i,
        {
            v.push(self.values[i] as i32);
            i = i + 1;
        }
        v
    }
}

/// One instantaneous measurement, decoded from the fixed 13-byte record the
/// current-readings characteristic returns.  All multi-byte fields are
/// little-endian; `co2`, `temperature`, `pressure` and `humidity` are raw
/// device values (see the `DataType` multipliers for display).
#[derive(Debug, Clone, PartialEq, Eq)]
pub struct CurrentSensorMeasurement {
    pub co2: u16,
    pub temperature: u16,
    pub pressure: u16,
    pub humidity: u8,
    pub battery: u8,
    pub status: u8,
    pub interval: u16,
    pub ago: u16,
}

/// The little-endian `u16` held at `bytes[i..i + 2]`.
pub open spec fn spec_le_u16(bytes: Seq<u8>, i: int) -> u16 {
    (bytes[i] + 256 * bytes[i + 1]) as u16
}

impl CurrentSensorMeasurement {
    /// Decodes the 13-byte instant-measurement record.
    ///
    /// Fails exactly when the record is not 13 bytes long.
    pub fn decode(bytes: &[u8]) -> (r: Result<CurrentSensorMeasurement, Aranet4Error>)
        ensures
            match r {
                Ok(m) => {
                    &&& bytes@.len() == 13
                    &&& m.co2 == spec_le_u16(bytes@, 0)
                    &&& m.temperature == spec_le_u16(bytes@, 2)
                    &&& m.pressure == spec_le_u16(bytes@, 4)
                    &&& m.humidity == bytes@[6]
                    &&& m.battery == bytes@[7]
                    &&& m.status == bytes@[8]
                    &&& m.interval == spec_le_u16(bytes@, 9)
                    &&& m.ago == spec_le_u16(bytes@, 11)
                },
                Err(e) => {
                    &&& bytes@.len() != 13
                    &&& e matches Aranet4Error::InvalidResponse(m)
                        && m@ == "unexpected current measurement length"@
                },
            },
    {
        if bytes.len() != 13 {
            return Err(invalid_response("unexpected current measurement length"));
        }
        Ok(CurrentSensorMeasurement {
            co2: bytes[0] as u16 + 256 * (bytes[1] as u16),
            temperature: bytes[2] as u16 + 256 * (bytes[3] as u16),
            pressure: bytes[4] as u16 + 256 * (bytes[5] as u16),
            humidity: bytes[6],
            battery: bytes[7],
            status: bytes[8],
            interval: bytes[9] as u16 + 256 * (bytes[10] as u16),
            ago: bytes[11] as u16 + 256 * (bytes[12] as u16),
        })
    }
}

/// The 4-byte header that opens every history notification frame.
#[derive(Debug, Clone, PartialEq, Eq)]
pub struct HistoryResponseHeader {
    /// Must equal the requested kind's wire code.
    pub type_code: u8,
    /// Device-side offset of this frame's first sample, little-endian.
    pub start_index: u16,
    /// Count of samples carried by this frame.
    pub packet_num_elem: u8,
}

impl HistoryResponseHeader {
    /// Decodes a frame header from the first 4 bytes of a notification.
    ///
    /// Fails exactly when fewer than 4 bytes are available.
    pub fn decode(bytes: &[u8]) -> (r: Result<HistoryResponseHeader, Aranet4Error>)
        ensures
            match r {
                Ok(h) => {
                    &&& bytes@.len() >= 4
                    &&& h.type_code == bytes@[0]
                    &&& h.start_index == spec_le_u16(bytes@, 1)
                    &&& h.packet_num_elem == bytes@[3]
                },
                Err(e) => {
                    &&& bytes@.len() < 4
                    &&& e matches Aranet4Error::InvalidResponse(m)
                        && m@ == "truncated frame header"@
                },
            },
    {
        if bytes.len() < 4 {
            return Err(invalid_response("truncated frame header"));
        }
        Ok(HistoryResponseHeader {
            type_code: bytes[0],
            start_index: bytes[1] as u16 + 256 * (bytes[2] as u16),
            packet_num_elem: bytes[3],
        })
    }
}

} // verus!
