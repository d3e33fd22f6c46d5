//! The state machine that runs one complete history fetch for one kind.
//!
//! The machine makes every protocol decision; the transport layer around it
//! performs the Bluetooth work each step asks for (read, unsubscribe, write,
//! subscribe, await a notification) and hands the outcome back.  One fetch
//! walks `Idle → CountRead → CommandSent → Subscribed → Collecting →
//! Complete`, dropping to `Failed` on the first protocol mismatch.
//!
//! Whatever the exit — success, protocol error, transport error or
//! cancellation — the driver must still unsubscribe from the notify
//! characteristic, so the peripheral is not left in a stuck subscribed
//! state for the next caller.
//!
//! Once the expected byte count is reached the machine accepts no further
//! events: the driver unsubscribes at once, and any frames still pending
//! are discarded with the subscription rather than drained first.

use vstd::prelude::*;

use crate::protocol::build_history_command;
use crate::protocol::bytes_to_single_u16;
use crate::protocol::spec_history_command;
use crate::protocol::ARANET4_NOTIFY_HISTORY_UUID;
use crate::reassembly::spec_frame_ok;
use crate::reassembly::spec_frame_payload;
use crate::reassembly::NotificationReassembler;
use crate::types::invalid_response;
use crate::types::spec_decoded_values;
use crate::types::Aranet4Error;
use crate::types::DataType;
use crate::types::SensorData;

verus! {

/// Where one history fetch stands.
#[derive(Clone, Copy, Debug, PartialEq, Eq, Structural)]
pub enum FetchState {
    /// Nothing done yet; the total-readings characteristic is to be read.
    Idle,
    /// The total sample count is known; the notify characteristic's
    /// capabilities are to be checked and the request command built.
    CountRead,
    /// The request command has been handed out; the driver unsubscribes
    /// (clearing any stale subscription), writes the command with
    /// acknowledgement, then subscribes.
    CommandSent,
    /// Subscribed; the first notification is awaited.
    Subscribed,
    /// At least one frame has been accepted; more are awaited.
    Collecting,
    /// The expected byte count has been reached.
    Complete,
    /// A protocol mismatch ended the fetch.
    Failed,
}

/// One complete history fetch for one kind, as a step-by-step state
/// machine over plain values.
#[derive(Debug)]
pub struct HistoryRequestProtocol {
    /// The kind whose history is being fetched.
    pub data_type: DataType,
    /// Where the fetch stands.
    pub state: FetchState,
    /// Accumulates the frames once the count is known.
    pub reassembler: NotificationReassembler,
}

impl HistoryRequestProtocol {
    /// The reassembler always works on the machine's own kind.
    pub open spec fn wf(self) -> bool {
        self.reassembler.data_type == self.data_type
    }

    pub fn new(data_type: DataType) -> (p: HistoryRequestProtocol)
        ensures
            p.wf(),
            p.data_type == data_type,
            p.state is Idle,
    {
        HistoryRequestProtocol {
            data_type,
            state: FetchState::Idle,
            reassembler: NotificationReassembler::new(data_type, 0),
        }
    }

    /// Consumes the bytes read from the total-readings characteristic.
    ///
    /// Fails exactly when the read did not return the 2 bytes of a
    /// little-endian u16.
    pub fn on_total_readings(&mut self, bytes: &[u8]) -> (r: Result<u16, Aranet4Error>)
        requires
            old(self).state is Idle,
            old(self).wf(),
        ensures
            final(self).wf(),
            final(self).data_type == old(self).data_type,
            match r {
                Ok(total) => {
                    &&& bytes@.len() == 2
                    &&& total == bytes@[0] + 256 * bytes@[1]
                    &&& final(self).state is CountRead
                    &&& final(self).reassembler.total_readings == total
                    &&& final(self).reassembler.buffer@ == Seq::<u8>::empty()
                },
                Err(e) => {
                    &&& bytes@.len() != 2
                    &&& final(self).state is Failed
                    &&& e matches Aranet4Error::InvalidResponse(m)
                        && m@ == "expected exactly 2 bytes"@
                },
            },
    {
        match bytes_to_single_u16(bytes) {
            Ok(total) => {
                self.reassembler = NotificationReassembler::new(self.data_type, total);
                self.state = FetchState::CountRead;
                Ok(total)
            },
            Err(e) => {
                self.state = FetchState::Failed;
                Err(e)
            },
        }
    }

    /// Checks that the notify characteristic advertises NOTIFY and hands
    /// out the 8-byte request command.
    ///
    /// On success the driver must unsubscribe from the notify
    /// characteristic first (clearing any stale subscription a prior
    /// failed attempt left behind), write the command with
    /// acknowledgement, subscribe, and report back with `on_subscribed`.
    /// Fails exactly when the NOTIFY capability is missing.
    pub fn request_command(&mut self, notify_has_notify_flag: bool) -> (r: Result<
        Vec<u8>,
        Aranet4Error,
    >)
        requires
            old(self).state is CountRead,
            old(self).wf(),
        ensures
            final(self).wf(),
            final(self).data_type == old(self).data_type,
            final(self).reassembler.total_readings == old(self).reassembler.total_readings,
            final(self).reassembler.buffer@ == old(self).reassembler.buffer@,
            match r {
                Ok(cmd) => {
                    &&& notify_has_notify_flag
                    &&& cmd@ == spec_history_command(
                        old(self).data_type,
                        old(self).reassembler.total_readings,
                    )
                    &&& final(self).state is CommandSent
                },
                Err(e) => {
                    &&& !notify_has_notify_flag
                    &&& final(self).state is Failed
                    &&& e matches Aranet4Error::InvalidResponse(m) && m@ == "no NOTIFY flag"@
                },
            },
    {
        if !notify_has_notify_flag {
            self.state = FetchState::Failed;
            return Err(invalid_response("no NOTIFY flag"));
        }
        let cmd = build_history_command(self.data_type, self.reassembler.total_readings);
        self.state = FetchState::CommandSent;
        Ok(cmd)
    }

    /// Records that the driver has written the command and subscribed to
    /// the notify characteristic.
    pub fn on_subscribed(&mut self)
        requires
            old(self).state is CommandSent,
            old(self).wf(),
        ensures
            final(self).wf(),
            final(self).data_type == old(self).data_type,
            final(self).reassembler == old(self).reassembler,
            final(self).state is Subscribed,
    {
        self.state = FetchState::Subscribed;
    }

    /// Consumes one notification event from the stream.
    ///
    /// An acceptable frame is appended to the accumulator; `Ok(true)`
    /// completes the fetch (the driver then unsubscribes and calls
    /// `take_history`), `Ok(false)` asks for the next event.  A mismatched
    /// frame fails the fetch; the driver must still unsubscribe before
    /// returning the error.
    pub fn on_notification(&mut self, uuid: u128, value: &[u8]) -> (r: Result<
        bool,
        Aranet4Error,
    >)
        requires
            old(self).state is Subscribed || old(self).state is Collecting,
            old(self).wf(),
        ensures
            final(self).wf(),
            final(self).data_type == old(self).data_type,
            final(self).reassembler.total_readings == old(self).reassembler.total_readings,
            match r {
                Ok(done) => {
                    &&& spec_frame_ok(old(self).data_type, uuid, value@)
                    &&& final(self).reassembler.buffer@ == old(self).reassembler.buffer@
                        + spec_frame_payload(old(self).data_type, value@)
                    &&& (done <==> final(self).reassembler.buffer@.len() >= old(
                        self,
                    ).reassembler.spec_expected_len())
                    &&& (done ==> final(self).state is Complete)
                    &&& (!done ==> final(self).state is Collecting)
                },
                Err(e) => {
                    &&& !spec_frame_ok(old(self).data_type, uuid, value@)
                    &&& final(self).reassembler.buffer@ == old(self).reassembler.buffer@
                    &&& final(self).state is Failed
                    &&& e matches Aranet4Error::InvalidResponse(m)
                    &&& (uuid != ARANET4_NOTIFY_HISTORY_UUID ==> m@
                        == "unexpected notification characteristic"@)
                    &&& (uuid == ARANET4_NOTIFY_HISTORY_UUID && value@.len() >= 4 && value@[0]
                        != old(self).data_type.spec_wire_code() ==> m@
                        == "history type mismatch"@)
                },
            },
    {
        match self.reassembler.push(uuid, value) {
            Ok(done) => {
                self.state = if done {
                    FetchState::Complete
                } else {
                    FetchState::Collecting
                };
                Ok(done)
            },
            Err(e) => {
                self.state = FetchState::Failed;
                Err(e)
            },
        }
    }

    /// Closes the fetch and decodes the assembled payload into samples.
    ///
    /// May be called in `Complete`, or after the notification stream ended
    /// early.  Succeeds exactly when the accumulated byte count equals
    /// `elem_width * total_readings`; the decoded run then holds exactly
    /// `total_readings` samples.
    pub fn take_history(self) -> (r: Result<SensorData, Aranet4Error>)
        requires
            self.state is Complete || self.state is Collecting || self.state is Subscribed,
            self.wf(),
        ensures
            match r {
                Ok(sd) => {
                    &&& self.reassembler.buffer@.len() == self.reassembler.spec_expected_len()
                    &&& sd.data_type == self.data_type
                    &&& sd.values@ == spec_decoded_values(
                        self.data_type,
                        self.reassembler.buffer@,
                    )
                    &&& sd.values@.len() == self.reassembler.total_readings
                    &&& sd.wf()
                },
                Err(e) => {
                    &&& self.reassembler.buffer@.len() != self.reassembler.spec_expected_len()
                    &&& e matches Aranet4Error::InvalidResponse(m)
                        && m@ == "unexpected number of bytes"@
                },
            },
    {
        let data_type = self.data_type;
        let ghost total = self.reassembler.total_readings;
        let ghost expected = self.reassembler.spec_expected_len();
        let bytes = match self.reassembler.into_bytes() {
            Ok(bytes) => bytes,
            Err(e) => {
                return Err(e);
            },
        };
        proof {
            let w = data_type.spec_elem_width();
            if w == 2 {
                assert((2 * total) % 2 == 0) by (nonlinear_arith);
                assert((2 * total) / 2 == total) by (nonlinear_arith);
            }
        }
        match SensorData::decode(data_type, bytes.as_slice()) {
            Ok(sd) => Ok(sd),
            Err(e) => {
                proof {
                    assert(false);
                }
                Err(e)
            },
        }
    }
}

} // verus!
