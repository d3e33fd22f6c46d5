//! Reassembly of one history transfer from its notification frames.
//!
//! The device streams a requested history back as small frames on the
//! notify-history characteristic.  Every frame opens with a 4-byte header
//! (wire type code, start index, sample count) followed by
//! `elem_width * packet_num_elem` payload bytes.  The reassembler validates
//! each frame and accumulates the payloads into one contiguous buffer; the
//! transfer is complete once the buffer holds the expected
//! `elem_width * total_readings` bytes.

use vstd::prelude::*;

use crate::protocol::ARANET4_NOTIFY_HISTORY_UUID;
use crate::types::invalid_response;
use crate::types::spec_decoded_values;
use crate::types::spec_payload_ok;
use crate::types::Aranet4Error;
use crate::types::DataType;

verus! {

/// True when a notification frame is acceptable for a fetch of `data_type`:
/// it arrived on the notify-history characteristic, holds a full 4-byte
/// header, carries the requested kind's wire code, and is long enough for
/// the sample count its header announces.
pub open spec fn spec_frame_ok(data_type: DataType, uuid: u128, frame: Seq<u8>) -> bool {
    &&& uuid == ARANET4_NOTIFY_HISTORY_UUID
    &&& frame.len() >= 4
    &&& frame[0] == data_type.spec_wire_code()
    &&& frame.len() >= 4 + data_type.spec_elem_width() * frame[3]
}

/// The payload bytes of an acceptable frame: everything between the header
/// and the end its header announces.
pub open spec fn spec_frame_payload(data_type: DataType, frame: Seq<u8>) -> Seq<u8>
    recommends
        spec_frame_ok(data_type, ARANET4_NOTIFY_HISTORY_UUID, frame),
{
    frame.subrange(4, 4 + data_type.spec_elem_width() * frame[3])
}

/// Accumulates the notification frames of one history fetch into a single
/// byte buffer.
///
/// Frames must be fed in arrival order.  A rejected frame leaves the
/// accumulator unchanged; the whole fetch is then failed, since a
/// mismatched frame means the device and host are desynchronized in a way
/// that cannot be locally repaired.
#[derive(Debug)]
pub struct NotificationReassembler {
    /// The kind whose history was requested.
    pub data_type: DataType,
    /// The total sample count the device reported before the request.
    pub total_readings: u16,
    /// Payload bytes accumulated so far.
    pub buffer: Vec<u8>,
}

impl NotificationReassembler {
    /// Expected size of the completed buffer, in bytes.
    pub open spec fn spec_expected_len(self) -> int {
        self.data_type.spec_elem_width() * self.total_readings
    }

    pub fn new(data_type: DataType, total_readings: u16) -> (r: NotificationReassembler)
        ensures
            r.data_type == data_type,
            r.total_readings == total_readings,
            r.buffer@ == Seq::<u8>::empty(),
    {
        NotificationReassembler { data_type, total_readings, buffer: Vec::new() }
    }

    /// Expected size of the completed buffer, in bytes.
    pub fn expected_len(&self) -> (n: usize)
        ensures
            n == self.spec_expected_len(),
    {
        let width = self.data_type.elem_width();
        assert(width * self.total_readings <= 2 * 65535) by (nonlinear_arith)
            requires
                width <= 2,
                self.total_readings <= 65535,
        ;
        width * (self.total_readings as usize)
    }

    /// Consumes one notification event, given as the 128-bit UUID of the
    /// characteristic it arrived on and its byte payload.
    ///
    /// An acceptable frame's payload is appended to the accumulator and
    /// `Ok(done)` says whether the expected byte count has been reached —
    /// the normal exit of a transfer, after which no further events should
    /// be consumed.  A frame from another characteristic, a truncated
    /// header or payload, or a type code other than the requested kind's
    /// fails the fetch with `InvalidResponse` and leaves the accumulator
    /// unchanged.
    pub fn push(&mut self, uuid: u128, value: &[u8]) -> (r: Result<bool, Aranet4Error>)
        ensures
            final(self).data_type == old(self).data_type,
            final(self).total_readings == old(self).total_readings,
            match r {
                Ok(done) => {
                    &&& spec_frame_ok(old(self).data_type, uuid, value@)
                    &&& final(self).buffer@ == old(self).buffer@ + spec_frame_payload(
                        old(self).data_type,
                        value@,
                    )
                    &&& (done <==> final(self).buffer@.len() >= old(self).spec_expected_len())
                },
                Err(e) => {
                    &&& !spec_frame_ok(old(self).data_type, uuid, value@)
                    &&& final(self).buffer@ == old(self).buffer@
                    &&& e matches Aranet4Error::InvalidResponse(m)
                    &&& (uuid != ARANET4_NOTIFY_HISTORY_UUID ==> m@
                        == "unexpected notification characteristic"@)
                    &&& (uuid == ARANET4_NOTIFY_HISTORY_UUID && value@.len() < 4 ==> m@
                        == "truncated frame header"@)
                    &&& (uuid == ARANET4_NOTIFY_HISTORY_UUID && value@.len() >= 4 && value@[0]
                        != old(self).data_type.spec_wire_code() ==> m@
                        == "history type mismatch"@)
                    &&& (uuid == ARANET4_NOTIFY_HISTORY_UUID && value@.len() >= 4 && value@[0]
                        == old(self).data_type.spec_wire_code() && value@.len() < 4 + old(
                        self,
                    ).data_type.spec_elem_width() * value@[3] ==> m@
                        == "truncated frame payload"@)
                },
            },
    {
        if uuid != ARANET4_NOTIFY_HISTORY_UUID {
            return Err(invalid_response("unexpected notification characteristic"));
        }
        if value.len() < 4 {
            return Err(invalid_response("truncated frame header"));
        }
        if value[0] != self.data_type.wire_code() {
            return Err(invalid_response("history type mismatch"));
        }
        let width = self.data_type.elem_width();
        let num_elem = value[3] as usize;
        assert(width * num_elem <= 510) by (nonlinear_arith)
            requires
                width <= 2,
                num_elem <= 255,
        ;
        let payload_end = 4 + width * num_elem;
        if value.len() < payload_end {
            return Err(invalid_response("truncated frame payload"));
        }
        self.buffer.extend_from_slice(&value[4..payload_end]);
        let expected = self.expected_len();
        Ok(self.buffer.len() >= expected)
    }

    /// Closes the transfer and hands out the assembled payload.
    ///
    /// Fails exactly when the accumulated byte count differs from
    /// `elem_width * total_readings` — any shortfall (the stream ended
    /// early) or overshoot is a hard error.
    pub fn into_bytes(self) -> (r: Result<Vec<u8>, Aranet4Error>)
        ensures
            match r {
                Ok(bytes) => {
                    &&& bytes@ == self.buffer@
                    &&& self.buffer@.len() == self.spec_expected_len()
                },
                Err(e) => {
                    &&& self.buffer@.len() != self.spec_expected_len()
                    &&& e matches Aranet4Error::InvalidResponse(m)
                        && m@ == "unexpected number of bytes"@
                },
            },
    {
        let expected = self.expected_len();
        if self.buffer.len() != expected {
            return Err(invalid_response("unexpected number of bytes"));
        }
        Ok(self.buffer)
    }
}

/// The concatenation of the payloads of a run of frames, in order.
pub open spec fn spec_assembled(data_type: DataType, frames: Seq<(u128, Seq<u8>)>) -> Seq<u8>
    decreases frames.len(),
{
    if frames.len() == 0 {
        Seq::empty()
    } else {
        spec_assembled(data_type, frames.drop_last()) + spec_frame_payload(
            data_type,
            frames.last().1,
        )
    }
}

/// The sum of the per-frame sample counts announced by the frame headers.
pub open spec fn spec_elem_sum(frames: Seq<(u128, Seq<u8>)>) -> int
    decreases frames.len(),
{
    if frames.len() == 0 {
        0
    } else {
        spec_elem_sum(frames.drop_last()) + frames.last().1[3]
    }
}

/// A run of acceptable frames assembles into one payload byte per wire byte
/// of every announced sample: the buffer grows to exactly
/// `elem_width` times the sum of the headers' sample counts.
pub proof fn lemma_assembled_len(data_type: DataType, frames: Seq<(u128, Seq<u8>)>)
    requires
        forall|i: int|
            0 <= i < frames.len() ==> spec_frame_ok(data_type, frames[i].0, frames[i].1),
    ensures
        spec_assembled(data_type, frames).len() == data_type.spec_elem_width() * spec_elem_sum(
            frames,
        ),
        spec_elem_sum(frames) >= 0,
    decreases frames.len(),
{
    if frames.len() == 0 {
    } else {
        let rest = frames.drop_last();
        assert(forall|i: int|
            0 <= i < rest.len() ==> spec_frame_ok(data_type, rest[i].0, rest[i].1));
        lemma_assembled_len(data_type, rest);
        let last = frames.last();
        assert(spec_frame_ok(data_type, last.0, last.1));
        let w = data_type.spec_elem_width();
        let e = last.1[3] as int;
        let s = spec_elem_sum(rest);
        assert(spec_frame_payload(data_type, last.1).len() == w * e);
        assert(w * s + w * e == w * (s + e)) by (nonlinear_arith);
    }
}

/// Law: frames whose `packet_num_elem` values sum to `total_readings`, all
/// sharing the requested kind's wire code and arriving on the
/// notify-history characteristic, reassemble into a history payload that
/// decodes to a sample run of length exactly `total_readings`.
pub proof fn lemma_reassembly_completes(
    data_type: DataType,
    total_readings: u16,
    frames: Seq<(u128, Seq<u8>)>,
)
    requires
        forall|i: int|
            0 <= i < frames.len() ==> spec_frame_ok(data_type, frames[i].0, frames[i].1),
        spec_elem_sum(frames) == total_readings,
    ensures
        spec_assembled(data_type, frames).len() == data_type.spec_elem_width() * total_readings,
        spec_payload_ok(data_type, spec_assembled(data_type, frames)),
        spec_decoded_values(data_type, spec_assembled(data_type, frames)).len()
            == total_readings,
{
    lemma_assembled_len(data_type, frames);
    let w = data_type.spec_elem_width();
    let assembled = spec_assembled(data_type, frames);
    assert(assembled.len() == w * total_readings);
    if w == 2 {
        assert((2 * total_readings) % 2 == 0) by (nonlinear_arith);
        assert((2 * total_readings) / 2 == total_readings) by (nonlinear_arith);
    }
}

} // verus!
