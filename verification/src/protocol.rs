//! The fixed GATT identifiers of the sensor's service, the lookup of a
//! characteristic by UUID, and the wire format of the history request
//! command.
//!
//! A characteristic's UUID is carried here as its 128-bit value, so the
//! protocol logic works on plain integers; the transport layer converts to
//! and from its own UUID type at the boundary.

use vstd::prelude::*;

use crate::types::Aranet4Error;
use crate::types::DataType;

verus! {

/// UUID of the sensor's custom service (advertised during scanning).
pub const ARANET4_SERVICE_UUID: u128 = 0x0000fce0_0000_1000_8000_00805f9b34fb;

/// Characteristic holding the 13-byte instant measurement record.
pub const ARANET4_CURRENT_READINGS_UUID: u128 = 0xf0cd3001_95da_4f4b_9ac8_aa55d312af0c;

/// Characteristic that streams history frames as notifications.
pub const ARANET4_NOTIFY_HISTORY_UUID: u128 = 0xf0cd2003_95da_4f4b_9ac8_aa55d312af0c;

/// Characteristic the 8-byte history request command is written to.
pub const ARANET4_COMMAND_UUID: u128 = 0xf0cd1402_95da_4f4b_9ac8_aa55d312af0c;

/// Characteristic holding the total stored sample count, a little-endian u16.
pub const ARANET4_TOTAL_READINGS_UUID: u128 = 0xf0cd2001_95da_4f4b_9ac8_aa55d312af0c;

/// Characteristic holding the seconds since the last sample, a little-endian u16.
pub const ARANET4_TIME_SINCE_UPDATE_UUID: u128 = 0xf0cd2004_95da_4f4b_9ac8_aa55d312af0c;

/// Characteristic holding the sampling interval in seconds, a little-endian u16.
pub const ARANET4_UPDATE_INTERVAL_UUID: u128 = 0xf0cd2002_95da_4f4b_9ac8_aa55d312af0c;

/// Decodes a characteristic read that must be exactly one little-endian u16.
///
/// Fails exactly when the read did not return 2 bytes.
pub fn bytes_to_single_u16(bytes: &[u8]) -> (r: Result<u16, Aranet4Error>)
    ensures
        match r {
            Ok(v) => bytes@.len() == 2 && v == bytes@[0] + 256 * bytes@[1],
            Err(e) => {
                &&& bytes@.len() != 2
                &&& e matches Aranet4Error::InvalidResponse(m)
                    && m@ == "expected exactly 2 bytes"@
            },
        },
{
    if bytes.len() == 2 {
        Ok(bytes[0] as u16 + 256 * (bytes[1] as u16))
    } else {
        Err(crate::types::invalid_response("expected exactly 2 bytes"))
    }
}

/// Finds the position of `target` in the UUIDs of a peripheral's discovered
/// characteristics.  A pure lookup: succeeds with the first match, and fails
/// with `CharacteristicNotFound` exactly when no characteristic has that
/// UUID.
pub fn get_characteristic(uuids: &Vec<u128>, target: u128) -> (r: Result<
    usize,
    Aranet4Error,
>)
    ensures
        match r {
            Ok(i) => {
                &&& 0 <= i < uuids@.len()
                &&& uuids@[i as int] == target
                &&& forall|j: int| 0 <= j < i ==> uuids@[j] != target
            },
            Err(e) => {
                &&& forall|j: int| 0 <= j < uuids@.len() ==> uuids@[j] != target
                &&& e == Aranet4Error::CharacteristicNotFound
            },
        },
{
    let mut i: usize = 0;
    while i < uuids.len()
        invariant
            i <= uuids.len(),
            forall|j: int| 0 <= j < i ==> uuids@[j] != target,
        decreases uuids.len() - i,
    {
        if uuids[i] == target {
            return Ok(i);
        }
        i = i + 1;
    }
    Err(Aranet4Error::CharacteristicNotFound)
}

/// The 8-byte history request command for `data_type`, with the total
/// reading count split little-endian into the last two bytes.
pub open spec fn spec_history_command(data_type: DataType, total_readings: u16) -> Seq<u8> {
    seq![
        0x82u8,
        data_type.spec_wire_code(),
        0x00u8,
        0x00u8,
        0x01u8,
        0x00u8,
        (total_readings % 256) as u8,
        (total_readings / 256) as u8,
    ]
}

/// Builds the history request command written to the command characteristic.
pub fn build_history_command(data_type: DataType, total_readings: u16) -> (cmd: Vec<u8>)
    ensures
        cmd@ == spec_history_command(data_type, total_readings),
{
    let mut cmd: Vec<u8> = Vec::new();
    cmd.push(0x82);
    cmd.push(data_type.wire_code());
    cmd.push(0x00);
    cmd.push(0x00);
    cmd.push(0x01);
    cmd.push(0x00);
    cmd.push((total_readings % 256) as u8);
    cmd.push((total_readings / 256) as u8);
    assert(cmd@ =~= spec_history_command(data_type, total_readings));
    cmd
}

} // verus!
