//! The multi-protocol radio driver: power sequencing, command submission,
//! the receive data queue, and the interrupt demultiplex.
//!
//! ```text
//! Off ──power_up──▶ Idle ──transmit──▶ (op outstanding) ──cmd_done──▶ Idle
//! Idle ──receive──▶ receiving ──stop / kill──▶ Idle
//! any ──power_down──▶ Off
//! ```
//!
//! The co-processor's answers (acknowledgement words and record statuses)
//! arrive as arguments; the contracts hold for every answer.

use vstd::prelude::*;

use crate::retcode::ReturnCode;
use crate::rfc::{
    spec_ack_ok, spec_status_ok, spec_status_terminal, CommandCommon, CommandFS, CommandRx,
    CommandTx, DirectCommand, RFCore, RfcCondition, RfcMode, RfcPacketConfRx, RfcPacketConfTx,
    RfcTrigger, RxConfiguration, RADIO_OP_STATUS_ACTIVE, RADIO_OP_STATUS_PENDING,
};

verus! {

/// Longest frame the transmit path accepts.
pub const MAX_TX_LENGTH: usize = 240;

/// Largest packet the receive operation is told to accept.
pub const MAX_RX_LENGTH: u16 = 255;

/// Transmit-power cap imposed by the external power amplifier.
pub const PA_RESTRICTED_TX_POWER: u16 = 0x504D;

/// Which power amplifier the board routes the radio through.
#[derive(Clone, Copy, Debug, PartialEq, Eq, Structural)]
pub enum PaType {
    /// No external amplifier.
    NoPa,
    /// The chip's internal amplifier.
    Internal,
    /// The external amplifier, which caps the transmit power.
    Skyworks,
}

/// Which self-test to run.
#[derive(Clone, Copy, Debug, PartialEq, Eq, Structural)]
pub enum TestType {
    /// Transmit a fixed ascending payload.
    Tx,
    /// Enter receive.
    Rx,
}

impl TestType {
    /// The self-test selected by a numeric request, if any.
    pub fn from_u8(test: u8) -> (r: Option<TestType>)
        ensures
            r == if test == 0 {
                Some(TestType::Tx)
            } else if test == 1 {
                Some(TestType::Rx)
            } else {
                None::<TestType>
            },
    {
        match test {
            0 => Some(TestType::Tx),
            1 => Some(TestType::Rx),
            _ => None,
        }
    }
}

/// Ownership state of one receive-queue entry.
#[derive(Clone, Copy, Debug, PartialEq, Eq, Structural)]
pub enum EntryStatus {
    /// The co-processor may fill it.
    Pending,
    /// The co-processor is filling it.
    Active,
    /// Holds a complete frame for the host to read.
    Finished,
    /// Holds a partial frame.
    Unfinished,
}

/// One entry of the receive data queue.
pub struct RxEntry {
    /// Who owns the entry and what it holds.
    pub status: EntryStatus,
    /// Length of the received frame.
    pub length: u8,
    /// The received bytes.
    pub payload: Vec<u8>,
}

/// The ring of receive entries.  The co-processor produces into entries in
/// ring order; the host consumes at the read position.  An entry the host
/// has read goes back to `Pending` before the co-processor may reuse it.
pub struct RxQueue {
    /// The ring's entries.
    pub entries: Vec<RxEntry>,
    /// The entry the host reads next.
    pub read_index: usize,
}

impl RxQueue {
    /// The read position stays inside the ring.
    pub open spec fn wf(self) -> bool {
        self.entries@.len() > 0 ==> self.read_index < self.entries@.len()
    }

    /// True when the entry at the read position holds a complete frame.
    pub open spec fn spec_front_finished(self) -> bool {
        self.entries@.len() > 0 && self.entries@[self.read_index as int].status
            is Finished
    }

    /// The bytes of the frame at the read position.
    pub open spec fn spec_front_payload(self) -> Seq<u8> {
        self.entries@[self.read_index as int].payload@
    }

    /// The recorded length of the frame at the read position.
    pub open spec fn spec_front_length(self) -> u8 {
        self.entries@[self.read_index as int].length
    }

    /// The read position after consuming one entry, wrapping around.
    pub open spec fn spec_next_index(self) -> int {
        if self.read_index + 1 < self.entries@.len() {
            self.read_index + 1
        } else {
            0
        }
    }

    /// A ring of `n` entries, all pending and empty.
    pub fn new(n: usize) -> (q: RxQueue)
        ensures
            q.entries@.len() == n,
            q.read_index == 0,
            forall|i: int| 0 <= i < n ==> q.entries@[i].status is Pending,
            q.wf(),
    {
        let mut entries: Vec<RxEntry> = Vec::new();
        let mut k: usize = 0;
        while k < n
            invariant
                k <= n,
                entries@.len() == k,
                forall|i: int| 0 <= i < k ==> entries@[i].status is Pending,
            decreases n - k,
        {
            entries.push(RxEntry { status: EntryStatus::Pending, length: 0, payload: Vec::new() });
            k = k + 1;
        }
        RxQueue { entries, read_index: 0 }
    }

    /// Consume the entry at the read position if it holds a complete
    /// frame: hand its bytes out, return the entry to `Pending`, and move
    /// the read position on.  Anything else leaves the ring untouched.
    pub fn pop_finished(&mut self) -> (r: Option<(Vec<u8>, u8)>)
        requires
            old(self).wf(),
        ensures
            final(self).wf(),
            !old(self).spec_front_finished() ==> r is None && *final(self) == *old(self),
            old(self).spec_front_finished() ==> {
                &&& (r matches Some(frame) && frame.0@ == old(self).spec_front_payload()
                    && frame.1 == old(self).spec_front_length())
                &&& final(self).entries@.len() == old(self).entries@.len()
                &&& final(self).entries@[old(self).read_index as int].status is Pending
                &&& forall|i: int|
                    0 <= i < old(self).entries@.len() && i != old(self).read_index
                        ==> final(self).entries@[i] == old(self).entries@[i]
                &&& final(self).read_index == old(self).spec_next_index()
            },
    {
        if self.entries.len() == 0 {
            return None;
        }
        let idx = self.read_index;
        let is_finished = matches!(self.entries[idx].status, EntryStatus::Finished);
        if !is_finished {
            return None;
        }
        let entry = self.entries.remove(idx);
        let length = entry.length;
        let payload = entry.payload;
        self.entries.insert(
            idx,
            RxEntry { status: EntryStatus::Pending, length: 0, payload: Vec::new() },
        );
        self.read_index = if idx + 1 < self.entries.len() {
            idx + 1
        } else {
            0
        };
        proof {
            assert forall|i: int|
                0 <= i < old(self).entries@.len() && i != old(self).read_index implies self.entries@[i]
                == old(self).entries@[i] by {}
        }
        Some((payload, length))
    }
}

/// A received frame as handed to the receive client.
pub struct RxFrame {
    /// The frame's bytes.
    pub payload: Vec<u8>,
    /// Its length in bytes.
    pub frame_len: usize,
    /// The hardware checksum matched.
    pub crc_valid: bool,
    /// Delivery status for the client.
    pub result: ReturnCode,
}

/// What one pass of the interrupt demultiplex hands to the clients.
pub enum RadioEvent {
    /// A frame for the receive client.
    Rx(RxFrame),
    /// The transmit buffer comes back to the transmit client.
    TxDone(Vec<u8>, ReturnCode),
}

/// The interrupt flags read from the co-processor's first interrupt line.
#[derive(Clone, Copy, Debug, PartialEq, Eq, Structural)]
pub struct Cpe0Interrupts {
    /// A radio operation finished.
    pub cmd_done: bool,
    /// The last operation of a chain finished.
    pub last_cmd_done: bool,
    /// A frame arrived and passed the checksum.
    pub rx_ok: bool,
    /// A frame arrived and failed the checksum.
    pub rx_nok: bool,
    /// A receive-queue entry was completed.
    pub rx_entry_done: bool,
    /// The receive queue ran out of room.
    pub rx_buf_full: bool,
}

impl Cpe0Interrupts {
    /// Some receive work is signalled.
    pub open spec fn spec_rx_any(self) -> bool {
        self.rx_ok || self.rx_nok || self.rx_entry_done || self.rx_buf_full
    }

    /// The signalled receive work vouches for the checksum: only a
    /// checksum-failure signal by itself marks the frame invalid.
    pub open spec fn spec_rx_crc_ok(self) -> bool {
        self.rx_ok || self.rx_entry_done || self.rx_buf_full
    }

    /// A transmit-side completion is signalled.
    pub open spec fn spec_tx_any(self) -> bool {
        self.cmd_done || self.last_cmd_done
    }
}

/// The answers the co-processor gives during one power-up attempt.
#[derive(Clone, Copy, Debug, PartialEq, Eq, Structural)]
pub struct PowerUpAcks {
    /// Acknowledgement of the setup operation.
    pub setup_cmdsta: u32,
    /// Terminal status of the setup operation.
    pub setup_status: u16,
    /// Acknowledgement of the synthesiser operation.
    pub fs_cmdsta: u32,
    /// Terminal status of the synthesiser operation.
    pub fs_status: u16,
}

impl PowerUpAcks {
    /// Every step of the power-up exchange succeeded.
    pub open spec fn spec_all_ok(self) -> bool {
        spec_ack_ok(self.setup_cmdsta) && spec_status_ok(self.setup_status) && spec_ack_ok(
            self.fs_cmdsta,
        ) && spec_status_ok(self.fs_status)
    }
}

/// The multi-protocol radio driver.
pub struct Radio {
    /// The co-processor interface.
    pub rfc: RFCore,
    /// The receive data queue shared with the co-processor.
    pub rx_queue: RxQueue,
    /// The image of the shared command buffer: the bytes of the last
    /// radio-operation record handed to the co-processor.
    pub command_buf: Vec<u8>,
    /// The client's buffer, borrowed while a transmission is in flight.
    pub tx_buf: Option<Vec<u8>>,
    /// Requested transmit power.
    pub tx_power: u16,
    /// Which power amplifier the board routes through.
    pub pa_type: PaType,
    /// Power the core down once the outstanding operation completes.
    pub schedule_powerdown: bool,
    /// A configuration change waits to be committed.
    pub update_config: bool,
    /// The power-up sequence completed and the core is up.
    pub on: bool,
}

impl Radio {
    /// The ring keeps its read position in range.
    pub open spec fn wf(self) -> bool {
        self.rx_queue.wf()
    }

    /// True when no transmission is in flight.
    pub open spec fn spec_idle(self) -> bool {
        self.tx_buf is None
    }

    /// A powered-down driver around a co-processor interface.
    pub fn new(rfc: RFCore) -> (r: Radio)
        ensures
            r.rfc == rfc,
            r.tx_buf is None,
            r.tx_power == 0xFFFF,
            r.pa_type == PaType::NoPa,
            !r.schedule_powerdown,
            !r.update_config,
            !r.on,
            r.rx_queue.entries@.len() == 0,
            r.command_buf@.len() == 0,
            r.wf(),
    {
        Radio {
            rfc,
            rx_queue: RxQueue { entries: Vec::new(), read_index: 0 },
            command_buf: Vec::new(),
            tx_buf: None,
            tx_power: 0xFFFF,
            pa_type: PaType::NoPa,
            schedule_powerdown: false,
            update_config: false,
            on: false,
        }
    }

    /// Give the driver its receive ring.
    pub fn set_rx_queue(&mut self, queue: RxQueue)
        requires
            queue.wf(),
        ensures
            *final(self) == (Radio { rx_queue: final(self).rx_queue, ..*old(self) }),
            final(self).rx_queue == queue,
            final(self).wf(),
    {
        self.rx_queue = queue;
    }

    /// Cap the requested transmit power to what the board's amplifier
    /// tolerates; without the external amplifier nothing changes.
    pub fn set_pa_restriction(&mut self)
        ensures
            *final(self) == (Radio { tx_power: final(self).tx_power, ..*old(self) }),
            final(self).tx_power == (if old(self).pa_type == PaType::Skyworks && old(self).tx_power > PA_RESTRICTED_TX_POWER {
                PA_RESTRICTED_TX_POWER
            } else {
                old(self).tx_power
            }),
    {
        match self.pa_type {
            PaType::Skyworks => {
                if self.tx_power > PA_RESTRICTED_TX_POWER {
                    self.tx_power = PA_RESTRICTED_TX_POWER;
                }
            },
            _ => {},
        }
    }

    /// Program the frequency synthesiser through a radio operation;
    /// succeeds exactly when the co-processor acknowledged the record and
    /// wrote a successful terminal status.  The record's exact bytes land
    /// in the command-buffer image.
    pub fn set_frequency(&mut self, frequency: u16, cmdsta: u32, op_status: u16) -> (r:
        ReturnCode)
        ensures
            final(self).command_buf@ == spec_fs_command(frequency).spec_encode(),
            r == (if spec_ack_ok(cmdsta) && spec_status_ok(op_status) {
                ReturnCode::SUCCESS
            } else {
                ReturnCode::FAIL
            }),
            *final(self) == (Radio {
                rfc: final(self).rfc,
                command_buf: final(self).command_buf,
                ..*old(self)
            }),
            final(self).rfc == (RFCore {
                status: final(self).rfc.status,
                pending_op: final(self).rfc.pending_op,
                ..old(self).rfc
            }),
            spec_ack_ok(cmdsta) ==> final(self).rfc.status == op_status as u32 && (
            spec_status_terminal(op_status) ==> final(self).rfc.pending_op is None),
            !spec_ack_ok(cmdsta) ==> final(self).rfc == old(self).rfc,
    {
        let cmd_fs = build_fs_command(frequency);
        self.command_buf = cmd_fs.encode();
        let sent = self.rfc.send_sync(0x0803, cmdsta, op_status);
        match sent {
            Ok(_) => {
                let waited = self.rfc.wait(op_status);
                match waited {
                    Ok(_) => ReturnCode::SUCCESS,
                    Err(_) => ReturnCode::FAIL,
                }
            },
            Err(_) => ReturnCode::FAIL,
        }
    }

    /// Program the synthesiser for the default channel.
    pub fn set_radio_fs(&mut self, cmdsta: u32, op_status: u16) -> (r: ReturnCode)
        ensures
            final(self).command_buf@ == spec_fs_command(0x0395).spec_encode(),
            r == (if spec_ack_ok(cmdsta) && spec_status_ok(op_status) {
                ReturnCode::SUCCESS
            } else {
                ReturnCode::FAIL
            }),
            *final(self) == (Radio {
                rfc: final(self).rfc,
                command_buf: final(self).command_buf,
                ..*old(self)
            }),
            final(self).rfc == (RFCore {
                status: final(self).rfc.status,
                pending_op: final(self).rfc.pending_op,
                ..old(self).rfc
            }),
    {
        self.set_frequency(0x0395, cmdsta, op_status)
    }

    /// Run the power-up sequence: select the mode, power the domain and
    /// boot the engine, start the radio timer, cap the transmit power,
    /// program overrides and power, and program the synthesiser.  Any
    /// failing step powers the domain back down and reports `FAIL`.  The
    /// power-state change is itself the notification: a client reads the
    /// returned code or `is_on` rather than being called back.
    pub fn power_up(&mut self, acks: PowerUpAcks) -> (r: ReturnCode)
        requires
            old(self).wf(),
        ensures
            final(self).wf(),
            r == (if acks.spec_all_ok() {
                ReturnCode::SUCCESS
            } else {
                ReturnCode::FAIL
            }),
            acks.spec_all_ok() ==> {
                &&& final(self).on
                &&& final(self).rfc.enabled
                &&& final(self).rfc.configured
                &&& final(self).rfc.rat_running
                &&& final(self).rfc.mode == Some(RfcMode::BLE)
            },
            !acks.spec_all_ok() ==> !final(self).on && !final(self).rfc.enabled,
            final(self).tx_buf == old(self).tx_buf,
            final(self).rx_queue == old(self).rx_queue,
    {
        self.rfc.set_mode(RfcMode::BLE);
        self.rfc.enable();
        self.rfc.start_rat();
        self.set_pa_restriction();
        let setup = self.rfc.setup(0, self.tx_power, acks.setup_cmdsta, acks.setup_status);
        if !setup.ok {
            self.power_down();
            return ReturnCode::FAIL;
        }
        let fs = self.set_radio_fs(acks.fs_cmdsta, acks.fs_status);
        match fs {
            ReturnCode::SUCCESS => {
                self.on = true;
                ReturnCode::SUCCESS
            },
            _ => {
                self.power_down();
                ReturnCode::FAIL
            },
        }
    }

    /// Power the co-processor domain down.
    pub fn power_down(&mut self)
        ensures
            *final(self) == (Radio { rfc: final(self).rfc, on: false, ..*old(self) }),
            final(self).rfc == (RFCore {
                enabled: false,
                rat_running: false,
                configured: false,
                pending_op: None,
                ..old(self).rfc
            }),
            !final(self).on,
    {
        self.rfc.disable();
        self.on = false;
    }

    /// Borrow the client's buffer and submit the transmit operation for
    /// its first `len` bytes.  The record's exact bytes land in the
    /// command-buffer image; the buffer stays borrowed until a completion
    /// event returns it.
    pub fn replace_and_send_tx_buffer(&mut self, buf: Vec<u8>, len: usize, cmdsta: u32,
        op_status: u16)
        requires
            len <= MAX_TX_LENGTH,
            len <= buf@.len(),
        ensures
            final(self).command_buf@ == spec_tx_command(len as u8).spec_encode(),
            (final(self).tx_buf matches Some(b) && b@ == buf@),
            *final(self) == (Radio {
                rfc: final(self).rfc,
                command_buf: final(self).command_buf,
                tx_buf: final(self).tx_buf,
                ..*old(self)
            }),
            final(self).rfc == (RFCore {
                status: final(self).rfc.status,
                pending_op: final(self).rfc.pending_op,
                ..old(self).rfc
            }),
            spec_ack_ok(cmdsta) ==> final(self).rfc.status == op_status as u32,
            !spec_ack_ok(cmdsta) ==> final(self).rfc == old(self).rfc,
    {
        let cmd = build_tx_command(len as u8);
        self.command_buf = cmd.encode();
        self.tx_buf = Some(buf);
        let sent = self.rfc.send_sync(0x3801, cmdsta, op_status);
        match sent {
            Ok(_) => {
                let _ = self.rfc.wait(op_status);
            },
            Err(_) => {},
        }
    }

    /// Accept a frame for transmission.  A frame longer than the
    /// transmit path supports is refused synchronously with `ENOSUPPORT`
    /// and nothing is submitted; a transmission already in flight refuses
    /// with `EBUSY`; otherwise the buffer is borrowed, the operation is
    /// submitted, and the caller gets it back through a completion event.
    pub fn transmit(&mut self, buf: Vec<u8>, frame_len: usize, cmdsta: u32, op_status: u16) -> (
        r: (ReturnCode, Option<Vec<u8>>))
        requires
            frame_len <= MAX_TX_LENGTH ==> frame_len <= buf@.len(),
        ensures
            frame_len > MAX_TX_LENGTH ==> {
                &&& r.0 == ReturnCode::ENOSUPPORT
                &&& (r.1 matches Some(b) && b@ == buf@)
                &&& *final(self) == *old(self)
            },
            frame_len <= MAX_TX_LENGTH && old(self).tx_buf is Some ==> {
                &&& r.0 == ReturnCode::EBUSY
                &&& (r.1 matches Some(b) && b@ == buf@)
                &&& *final(self) == *old(self)
            },
            frame_len <= MAX_TX_LENGTH && old(self).tx_buf is None ==> {
                &&& r.0 == ReturnCode::SUCCESS
                &&& r.1 is None
                &&& (final(self).tx_buf matches Some(b) && b@ == buf@)
                &&& final(self).command_buf@ == spec_tx_command(
                    frame_len as u8,
                ).spec_encode()
                &&& *final(self) == (Radio {
                    rfc: final(self).rfc,
                    command_buf: final(self).command_buf,
                    tx_buf: final(self).tx_buf,
                    ..*old(self)
                })
            },
    {
        if frame_len > MAX_TX_LENGTH {
            return (ReturnCode::ENOSUPPORT, Some(buf));
        }
        if self.tx_buf.is_none() {
            self.replace_and_send_tx_buffer(buf, frame_len, cmdsta, op_status);
            (ReturnCode::SUCCESS, None)
        } else {
            (ReturnCode::EBUSY, Some(buf))
        }
    }

    /// Submit the receive operation over the data queue.  The record's
    /// exact bytes land in the command-buffer image; frames then arrive
    /// through the interrupt demultiplex.  Success is owed only when the
    /// co-processor acknowledged the record and its status settled in the
    /// terminal success range before the poll's deadline: any other
    /// answer fails fast, though an acknowledged operation keeps running.
    pub fn receive(&mut self, cmdsta: u32, op_status: u16) -> (r: ReturnCode)
        ensures
            r == (if spec_ack_ok(cmdsta) && spec_status_ok(op_status) {
                ReturnCode::SUCCESS
            } else {
                ReturnCode::FAIL
            }),
            final(self).command_buf@ == spec_rx_command().spec_encode(),
            *final(self) == (Radio {
                rfc: final(self).rfc,
                command_buf: final(self).command_buf,
                ..*old(self)
            }),
            final(self).rfc == (RFCore {
                status: final(self).rfc.status,
                pending_op: final(self).rfc.pending_op,
                ..old(self).rfc
            }),
            spec_ack_ok(cmdsta) ==> final(self).rfc.status == op_status as u32,
            !spec_ack_ok(cmdsta) ==> final(self).rfc == old(self).rfc,
    {
        let cmd = build_rx_command();
        self.command_buf = cmd.encode();
        let sent = self.rfc.send_sync(0x3802, cmdsta, op_status);
        match sent {
            Ok(_) => {
                let waited = self.rfc.wait(op_status);
                match waited {
                    Ok(_) => ReturnCode::SUCCESS,
                    Err(_) => ReturnCode::FAIL,
                }
            },
            Err(_) => ReturnCode::FAIL,
        }
    }

    /// Deliver the frame at the queue's read position, if one is
    /// complete, vouching for its checksum; the consumed entry returns to
    /// `Pending` at once, before any later power-up of the core.
    pub fn rx_ok(&mut self) -> (r: Option<RxFrame>)
        requires
            old(self).wf(),
        ensures
            final(self).wf(),
            final(self).rx_queue.entries@.len() == old(self).rx_queue.entries@.len(),
            *final(self) == (Radio { rx_queue: final(self).rx_queue, ..*old(self) }),
            !old(self).rx_queue.spec_front_finished() ==> r is None && *final(self) == *old(self),
            old(self).rx_queue.spec_front_finished() ==> {
                &&& (r matches Some(f) && f.payload@ == old(self).rx_queue.spec_front_payload()
                    && f.frame_len == old(self).rx_queue.spec_front_length() && f.crc_valid
                    && f.result == ReturnCode::SUCCESS)
                &&& final(self).rx_queue.entries@[old(self).rx_queue.read_index as int].status
                    is Pending
                &&& final(self).rx_queue.read_index == old(self).rx_queue.spec_next_index()
                &&& final(self).rx_queue.entries@.len() == old(self).rx_queue.entries@.len()
                &&& forall|i: int|
                    0 <= i < old(self).rx_queue.entries@.len() && i != old(self).rx_queue.read_index ==> final(self).rx_queue.entries@[i] == old(self).rx_queue.entries@[i]
            },
    {
        let popped = self.rx_queue.pop_finished();
        match popped {
            Some((payload, length)) => Some(
                RxFrame {
                    payload,
                    frame_len: length as usize,
                    crc_valid: true,
                    result: ReturnCode::SUCCESS,
                },
            ),
            None => None,
        }
    }

    /// Deliver the frame at the queue's read position like `rx_ok`, but
    /// marking its checksum invalid.
    pub fn rx_nok(&mut self) -> (r: Option<RxFrame>)
        requires
            old(self).wf(),
        ensures
            final(self).wf(),
            final(self).rx_queue.entries@.len() == old(self).rx_queue.entries@.len(),
            *final(self) == (Radio { rx_queue: final(self).rx_queue, ..*old(self) }),
            !old(self).rx_queue.spec_front_finished() ==> r is None && *final(self) == *old(self),
            old(self).rx_queue.spec_front_finished() ==> {
                &&& (r matches Some(f) && f.payload@ == old(self).rx_queue.spec_front_payload()
                    && f.frame_len == old(self).rx_queue.spec_front_length() && !f.crc_valid
                    && f.result == ReturnCode::SUCCESS)
                &&& final(self).rx_queue.entries@[old(self).rx_queue.read_index as int].status
                    is Pending
                &&& final(self).rx_queue.read_index == old(self).rx_queue.spec_next_index()
            },
    {
        let popped = self.rx_queue.pop_finished();
        match popped {
            Some((payload, length)) => Some(
                RxFrame {
                    payload,
                    frame_len: length as usize,
                    crc_valid: false,
                    result: ReturnCode::SUCCESS,
                },
            ),
            None => None,
        }
    }

    /// Deliver a completed queue entry; the dispatch is the same as for a
    /// good frame.
    pub fn rx_entry_done(&mut self) -> (r: Option<RxFrame>)
        requires
            old(self).wf(),
        ensures
            final(self).wf(),
            final(self).rx_queue.entries@.len() == old(self).rx_queue.entries@.len(),
            *final(self) == (Radio { rx_queue: final(self).rx_queue, ..*old(self) }),
            !old(self).rx_queue.spec_front_finished() ==> r is None && *final(self) == *old(self),
            old(self).rx_queue.spec_front_finished() ==> (r matches Some(f) && f.payload@ == old(self).rx_queue.spec_front_payload() && f.crc_valid),
    {
        self.rx_ok()
    }

    /// Deliver what is available when the queue ran out of room; the
    /// client must drain fast enough.
    pub fn rx_buf_full(&mut self) -> (r: Option<RxFrame>)
        requires
            old(self).wf(),
        ensures
            final(self).wf(),
            final(self).rx_queue.entries@.len() == old(self).rx_queue.entries@.len(),
            *final(self) == (Radio { rx_queue: final(self).rx_queue, ..*old(self) }),
            !old(self).rx_queue.spec_front_finished() ==> r is None && *final(self) == *old(self),
            old(self).rx_queue.spec_front_finished() ==> (r matches Some(f) && f.payload@ == old(self).rx_queue.spec_front_payload() && f.crc_valid),
    {
        self.rx_ok()
    }

    /// Complete the outstanding radio operation: record its terminal
    /// status, honour a scheduled power-down, and hand the borrowed
    /// transmit buffer back to the client with success.
    pub fn command_done(&mut self, op_status: u16) -> (r: Option<(Vec<u8>, ReturnCode)>)
        ensures
            final(self).rfc.status == op_status as u32,
            spec_status_terminal(op_status) ==> final(self).rfc.pending_op is None,
            old(self).schedule_powerdown ==> !final(self).on && !final(self).rfc.enabled
                && !final(self).schedule_powerdown,
            !old(self).schedule_powerdown ==> final(self).on == old(self).on && final(self).rfc.enabled == old(self).rfc.enabled && final(self).schedule_powerdown == old(self).schedule_powerdown,
            final(self).tx_buf is None,
            match old(self).tx_buf {
                Some(b) => (r matches Some(out) && out.0@ == b@ && out.1
                    == ReturnCode::SUCCESS),
                None => r is None,
            },
            final(self).rx_queue == old(self).rx_queue,
            final(self).command_buf == old(self).command_buf,
            final(self).tx_power == old(self).tx_power,
            final(self).pa_type == old(self).pa_type,
    {
        let _ = self.rfc.wait(op_status);
        if self.schedule_powerdown {
            self.power_down();
            self.schedule_powerdown = false;
        }
        match self.tx_buf.take() {
            Some(b) => Some((b, ReturnCode::SUCCESS)),
            None => None,
        }
    }

    /// Complete a finished transmission; the dispatch is the same as for
    /// any finished operation.
    pub fn tx_done(&mut self, op_status: u16) -> (r: Option<(Vec<u8>, ReturnCode)>)
        ensures
            final(self).rfc.status == op_status as u32,
            spec_status_terminal(op_status) ==> final(self).rfc.pending_op is None,
            final(self).tx_buf is None,
            match old(self).tx_buf {
                Some(b) => (r matches Some(out) && out.0@ == b@ && out.1
                    == ReturnCode::SUCCESS),
                None => r is None,
            },
    {
        self.command_done(op_status)
    }

    /// Demultiplex the co-processor's first interrupt line.  Receive work
    /// is delivered before the transmit completion: frames are
    /// time-critical and the completion is independent of later dispatch.
    /// `op_status` is the status word the handler reads from the
    /// outstanding record when a completion is signalled.
    pub fn handle_cpe0_event(&mut self, flags: Cpe0Interrupts, op_status: u16) -> (events: Vec<
        RadioEvent,
    >)
        requires
            old(self).wf(),
        ensures
            final(self).wf(),
            final(self).rx_queue.entries@.len() == old(self).rx_queue.entries@.len(),
            ({
                let deliver = flags.spec_rx_any() && old(self).rx_queue.spec_front_finished();
                let tx_done = flags.spec_tx_any() && old(self).tx_buf is Some;
                &&& events@.len() == (if deliver {
                    1int
                } else {
                    0int
                }) + (if tx_done {
                    1int
                } else {
                    0int
                })
                &&& deliver ==> (events@[0] matches RadioEvent::Rx(f) && f.payload@ == old(self).rx_queue.spec_front_payload() && f.frame_len == old(self).rx_queue.spec_front_length() && f.crc_valid == flags.spec_rx_crc_ok()
                    && f.result == ReturnCode::SUCCESS)
                &&& deliver ==> final(self).rx_queue.entries@[old(self).rx_queue.read_index as int].status is Pending && final(self).rx_queue.read_index
                    == old(self).rx_queue.spec_next_index()
                &&& !deliver ==> final(self).rx_queue == old(self).rx_queue
                &&& tx_done ==> (events@[events@.len() - 1] matches RadioEvent::TxDone(b, rc)
                    && b@ == old(self).tx_buf.unwrap()@ && rc == ReturnCode::SUCCESS)
                &&& flags.spec_tx_any() ==> final(self).tx_buf is None && final(self).rfc.status
                    == op_status as u32 && (spec_status_terminal(op_status) ==> final(self).rfc.pending_op is None)
                &&& flags.spec_tx_any() && old(self).schedule_powerdown ==> !final(self).on
                    && !final(self).rfc.enabled
                &&& !flags.spec_tx_any() ==> final(self).tx_buf == old(self).tx_buf && final(self).rfc == old(self).rfc && final(self).on == old(self).on
            }),
    {
        let mut events: Vec<RadioEvent> = Vec::new();
        if flags.rx_ok || flags.rx_nok || flags.rx_entry_done || flags.rx_buf_full {
            let crc_vouched = flags.rx_ok || flags.rx_entry_done || flags.rx_buf_full;
            let frame = if crc_vouched {
                self.rx_ok()
            } else {
                self.rx_nok()
            };
            match frame {
                Some(f) => events.push(RadioEvent::Rx(f)),
                None => {},
            }
        }
        if flags.cmd_done || flags.last_cmd_done {
            let completed = self.command_done(op_status);
            match completed {
                Some((b, rc)) => events.push(RadioEvent::TxDone(b, rc)),
                None => {},
            }
        }
        events
    }

    /// Send the graceful-stop direct command: the co-processor winds the
    /// running operation down at a safe point and writes a terminal
    /// status into its record, which the driver reads back as
    /// `stopped_status`.  On acknowledgement the operation no longer
    /// counts as busy; the core stays powered.
    pub fn send_stop_command(&mut self, cmdsta: u32, stopped_status: u16) -> (r: ReturnCode)
        ensures
            r == (if spec_ack_ok(cmdsta) {
                ReturnCode::SUCCESS
            } else {
                ReturnCode::FAIL
            }),
            !spec_ack_ok(cmdsta) ==> *final(self) == (Radio {
                rfc: final(self).rfc,
                ..*old(self)
            }) && final(self).rfc == (RFCore {
                last_direct: final(self).rfc.last_direct,
                ..old(self).rfc
            }),
            final(self).rfc.last_direct == Some(DirectCommand { command_no: 0x0402, params: 0 }),
            spec_ack_ok(cmdsta) ==> *final(self) == (Radio {
                rfc: final(self).rfc,
                ..*old(self)
            }) && final(self).rfc == (RFCore {
                status: stopped_status as u32,
                pending_op: if spec_status_terminal(stopped_status) {
                    None
                } else {
                    old(self).rfc.pending_op
                },
                last_direct: final(self).rfc.last_direct,
                ..old(self).rfc
            }),
            final(self).on == old(self).on,
    {
        let command = DirectCommand::new(0x0402, 0);
        let sent = self.rfc.send_direct(&command, cmdsta);
        match sent {
            Ok(_) => {
                let _ = self.rfc.wait(stopped_status);
                ReturnCode::SUCCESS
            },
            Err(_) => ReturnCode::FAIL,
        }
    }

    /// Send the immediate-abort direct command; the aborted operation's
    /// terminal status comes back as `stopped_status`.
    pub fn send_kill_command(&mut self, cmdsta: u32, stopped_status: u16) -> (r: ReturnCode)
        ensures
            r == (if spec_ack_ok(cmdsta) {
                ReturnCode::SUCCESS
            } else {
                ReturnCode::FAIL
            }),
            final(self).rfc.last_direct == Some(DirectCommand { command_no: 0x0401, params: 0 }),
            spec_ack_ok(cmdsta) ==> final(self).rfc.status == stopped_status as u32,
            final(self).on == old(self).on,
            final(self).rx_queue == old(self).rx_queue,
            final(self).tx_buf == old(self).tx_buf,
    {
        let command = DirectCommand::new(0x0401, 0);
        let sent = self.rfc.send_direct(&command, cmdsta);
        match sent {
            Ok(_) => {
                let _ = self.rfc.wait(stopped_status);
                ReturnCode::SUCCESS
            },
            Err(_) => ReturnCode::FAIL,
        }
    }

    /// Stop the running operation gracefully.
    pub fn stop(&mut self, cmdsta: u32, stopped_status: u16) -> (r: ReturnCode)
        ensures
            r == (if spec_ack_ok(cmdsta) {
                ReturnCode::SUCCESS
            } else {
                ReturnCode::FAIL
            }),
            final(self).rfc.last_direct == Some(DirectCommand { command_no: 0x0402, params: 0 }),
            final(self).on == old(self).on,
            final(self).rx_queue == old(self).rx_queue,
            final(self).tx_buf == old(self).tx_buf,
    {
        self.send_stop_command(cmdsta, stopped_status)
    }

    /// True while the power-up sequence's work stands.
    pub fn is_on(&self) -> (r: bool)
        ensures
            r == self.on,
    {
        self.on
    }

    /// True while a radio operation is pending or running.
    pub fn busy(&self) -> (r: bool)
        ensures
            r == (self.rfc.status == RADIO_OP_STATUS_PENDING as u32 || self.rfc.status
                == RADIO_OP_STATUS_ACTIVE as u32),
    {
        self.rfc.status == 1 || self.rfc.status == 2
    }

    /// Set the requested transmit power, capped by the board's
    /// amplifier, and program it through a direct command.
    pub fn set_tx_power(&mut self, power: u16, cmdsta: u32) -> (r: ReturnCode)
        ensures
            final(self).tx_power == (if old(self).pa_type == PaType::Skyworks && power
                > PA_RESTRICTED_TX_POWER {
                PA_RESTRICTED_TX_POWER
            } else {
                power
            }),
            *final(self) == (Radio {
                tx_power: final(self).tx_power,
                rfc: final(self).rfc,
                ..*old(self)
            }),
            final(self).rfc == (RFCore {
                last_direct: Some(
                    DirectCommand { command_no: 0x0010, params: final(self).tx_power },
                ),
                ..old(self).rfc
            }),
            r == (if spec_ack_ok(cmdsta) {
                ReturnCode::SUCCESS
            } else {
                ReturnCode::FAIL
            }),
    {
        self.tx_power = power;
        self.set_pa_restriction();
        let command = DirectCommand::new(0x0010, self.tx_power);
        let sent = self.rfc.send_direct(&command, cmdsta);
        if sent.is_ok() {
            ReturnCode::SUCCESS
        } else {
            ReturnCode::FAIL
        }
    }

    /// The requested transmit power.
    pub fn get_tx_power(&self) -> (r: u16)
        ensures
            r == self.tx_power,
    {
        self.tx_power
    }

    /// The core's power-status word; this model keeps none.
    pub fn get_radio_status(&self) -> (r: u32)
        ensures
            r == 0,
    {
        0
    }

    /// The driver's view of the last radio-operation status: the idle and
    /// success ranges read as success, the error range as failure, and
    /// anything else as invalid.
    pub fn get_command_status(&self) -> (r: (ReturnCode, Option<u32>))
        ensures
            r.1 == Some(self.rfc.status),
            ({
                let masked = self.rfc.status & 0x0F00;
                r.0 == if masked == 0 || masked == 0x0400 {
                    ReturnCode::SUCCESS
                } else if masked == 0x0800 {
                    ReturnCode::FAIL
                } else {
                    ReturnCode::EINVAL
                }
            }),
    {
        let status = self.rfc.status;
        let masked = status & 0x0F00;
        if masked == 0 || masked == 0x0400 {
            (ReturnCode::SUCCESS, Some(status))
        } else if masked == 0x0800 {
            (ReturnCode::FAIL, Some(status))
        } else {
            (ReturnCode::EINVAL, Some(status))
        }
    }

    /// Commit a pending configuration change; nothing is held back in
    /// this model.
    pub fn config_commit(&mut self) -> (r: ReturnCode)
        ensures
            *final(self) == *old(self),
            r == ReturnCode::SUCCESS,
    {
        ReturnCode::SUCCESS
    }

    /// First power-up on behalf of a client.
    pub fn initialize(&mut self, acks: PowerUpAcks) -> (r: ReturnCode)
        requires
            old(self).wf(),
        ensures
            final(self).wf(),
            r == (if acks.spec_all_ok() {
                ReturnCode::SUCCESS
            } else {
                ReturnCode::FAIL
            }),
            acks.spec_all_ok() ==> final(self).on,
            final(self).rx_queue == old(self).rx_queue,
    {
        self.power_up(acks)
    }

    /// Power the core down and bring it back up.
    pub fn reset(&mut self, acks: PowerUpAcks) -> (r: ReturnCode)
        requires
            old(self).wf(),
        ensures
            final(self).wf(),
            r == (if acks.spec_all_ok() {
                ReturnCode::SUCCESS
            } else {
                ReturnCode::FAIL
            }),
            acks.spec_all_ok() ==> final(self).on,
            final(self).rx_queue == old(self).rx_queue,
    {
        self.power_down();
        self.power_up(acks)
    }

    /// Transmit the fixed ascending self-test payload.
    pub fn test_radio_tx(&mut self, cmdsta: u32, op_status: u16)
        ensures
            final(self).command_buf@ == spec_tx_command(0x14).spec_encode(),
            (final(self).tx_buf matches Some(b) && b@ == spec_test_payload()),
            final(self).rx_queue == old(self).rx_queue,
    {
        let mut packet: Vec<u8> = Vec::new();
        let mut seq: u8 = 0;
        while seq < 30
            invariant
                seq <= 30,
                packet@.len() == seq,
                forall|i: int| 0 <= i < seq ==> packet@[i] == i as u8,
            decreases 30 - seq,
        {
            packet.push(seq);
            seq = seq + 1;
        }
        proof {
            assert(packet@ =~= spec_test_payload());
        }
        self.replace_and_send_tx_buffer(packet, 0x14, cmdsta, op_status);
    }

    /// Enter receive for the self-test.
    pub fn test_radio_rx(&mut self, cmdsta: u32, op_status: u16)
        ensures
            final(self).command_buf@ == spec_rx_command().spec_encode(),
            final(self).rx_queue == old(self).rx_queue,
    {
        let _ = self.receive(cmdsta, op_status);
    }

    /// Bring the core up and run the selected self-test; an unknown
    /// selector runs none.
    pub fn run_tests(&mut self, test: u8, acks: PowerUpAcks, cmdsta: u32, op_status: u16)
        requires
            old(self).wf(),
        ensures
            final(self).wf(),
            test == 0 && acks.spec_all_ok() ==> final(self).command_buf@ == spec_tx_command(
                0x14,
            ).spec_encode(),
            test == 1 && acks.spec_all_ok() ==> final(self).command_buf@
                == spec_rx_command().spec_encode(),
    {
        let up = self.power_up(acks);
        match up {
            ReturnCode::SUCCESS => {},
            _ => {
                return ;
            },
        }
        match TestType::from_u8(test) {
            Some(TestType::Tx) => self.test_radio_tx(cmdsta, op_status),
            Some(TestType::Rx) => self.test_radio_rx(cmdsta, op_status),
            None => {},
        }
    }
}

/// Radio graceful stop: a record that settled to a terminal status names
/// a finished operation, so a driver whose status cell holds it no longer
/// counts as busy; the stop command touches no power state, so the core
/// stays as it was.  With the stop contract this closes the scenario: an
/// acknowledged graceful stop in mid-receive leaves the core powered and
/// the driver idle.
pub proof fn lemma_terminal_status_not_busy(status: u16)
    requires
        spec_status_terminal(status),
    ensures
        status as u32 != RADIO_OP_STATUS_PENDING as u32,
        status as u32 != RADIO_OP_STATUS_ACTIVE as u32,
{
}

/// The thirty ascending bytes of the transmit self-test.
pub open spec fn spec_test_payload() -> Seq<u8> {
    Seq::new(30, |i: int| i as u8)
}

/// The synthesiser record for a channel: the default condition rule and
/// no fractional part.
pub open spec fn spec_fs_command(frequency: u16) -> CommandFS {
    CommandFS {
        common: CommandCommon {
            command_no: 0x0803,
            status: 0,
            p_nextop: 0,
            start_time: 0,
            start_trigger: 0,
            condition: (RfcCondition { rule: 0x01, skip_no: 0 }).spec_encode(),
        },
        frequency,
        fract_freq: 0,
        synth_conf: 0,
        dummy0: 0,
        dummy1: 0,
        dummy2: 0,
        dummy3: 0,
    }
}

/// Build the synthesiser record for a channel.
pub fn build_fs_command(frequency: u16) -> (c: CommandFS)
    ensures
        c == spec_fs_command(frequency),
{
    let condition = RfcCondition { rule: 0x01, skip_no: 0 };
    CommandFS {
        common: CommandCommon {
            command_no: 0x0803,
            status: 0,
            p_nextop: 0,
            start_time: 0,
            start_trigger: 0,
            condition: condition.encode(),
        },
        frequency,
        fract_freq: 0,
        synth_conf: 0,
        dummy0: 0,
        dummy1: 0,
        dummy2: 0,
        dummy3: 0,
    }
}

/// The transmit record for `len` payload bytes: immediate past trigger,
/// the default condition, hardware checksum and a length byte on the air.
/// The model has no machine addresses, so the payload pointer encodes as
/// zero.
pub open spec fn spec_tx_command(len: u8) -> CommandTx {
    CommandTx {
        common: CommandCommon {
            command_no: 0x3801,
            status: 0,
            p_nextop: 0,
            start_time: 0,
            start_trigger: (RfcTrigger {
                trigger_type: 0,
                enable_cmd: false,
                trigger_no: 0,
                past_trigger: true,
            }).spec_encode(),
            condition: (RfcCondition { rule: 0x01, skip_no: 0 }).spec_encode(),
        },
        packet_conf: (RfcPacketConfTx { fs_off: false, use_crc: true, var_len: true }).spec_encode(),
        packet_len: len,
        sync_word: 0,
        packet_pointer: 0,
    }
}

/// Build the transmit record for `len` payload bytes.
pub fn build_tx_command(len: u8) -> (c: CommandTx)
    ensures
        c == spec_tx_command(len),
{
    let start_trigger = RfcTrigger {
        trigger_type: 0,
        enable_cmd: false,
        trigger_no: 0,
        past_trigger: true,
    };
    let condition = RfcCondition { rule: 0x01, skip_no: 0 };
    let packet_conf = RfcPacketConfTx { fs_off: false, use_crc: true, var_len: true };
    CommandTx {
        common: CommandCommon {
            command_no: 0x3801,
            status: 0,
            p_nextop: 0,
            start_time: 0,
            start_trigger: start_trigger.encode(),
            condition: condition.encode(),
        },
        packet_conf: packet_conf.encode(),
        packet_len: len,
        sync_word: 0,
        packet_pointer: 0,
    }
}

/// The receive record: checksum checked, variable length, bad and
/// filtered frames flushed, header and status kept with each frame.  The
/// model has no machine addresses, so the queue and output pointers
/// encode as zero.
pub open spec fn spec_rx_command() -> CommandRx {
    CommandRx {
        common: CommandCommon {
            command_no: 0x3802,
            status: 0,
            p_nextop: 0,
            start_time: 0,
            start_trigger: 0,
            condition: (RfcCondition { rule: 0x01, skip_no: 0 }).spec_encode(),
        },
        packet_conf: (RfcPacketConfRx {
            fs_off: false,
            brepeat_ok: false,
            brepeat_nok: false,
            use_crc: true,
            var_len: true,
            check_address: false,
            end_type: false,
            filter_op: false,
        }).spec_encode(),
        rx_config: (RxConfiguration {
            auto_flush_ignored: true,
            auto_flush_crc_error: true,
            include_header: true,
            include_crc: false,
            append_rssi: false,
            append_timestamp: false,
            append_status: true,
        }).spec_encode(),
        sync_word: 0,
        max_packet_len: 0xFF,
        address_0: 0xAA,
        address_1: 0xBB,
        end_trigger: 0x1,
        end_time: 0,
        p_queue: 0,
        p_output: 0,
    }
}

/// Build the receive record.
pub fn build_rx_command() -> (c: CommandRx)
    ensures
        c == spec_rx_command(),
{
    let condition = RfcCondition { rule: 0x01, skip_no: 0 };
    let packet_conf = RfcPacketConfRx {
        fs_off: false,
        brepeat_ok: false,
        brepeat_nok: false,
        use_crc: true,
        var_len: true,
        check_address: false,
        end_type: false,
        filter_op: false,
    };
    let rx_config = RxConfiguration {
        auto_flush_ignored: true,
        auto_flush_crc_error: true,
        include_header: true,
        include_crc: false,
        append_rssi: false,
        append_timestamp: false,
        append_status: true,
    };
    CommandRx {
        common: CommandCommon {
            command_no: 0x3802,
            status: 0,
            p_nextop: 0,
            start_time: 0,
            start_trigger: 0,
            condition: condition.encode(),
        },
        packet_conf: packet_conf.encode(),
        rx_config: rx_config.encode(),
        sync_word: 0,
        max_packet_len: 0xFF,
        address_0: 0xAA,
        address_1: 0xBB,
        end_trigger: 0x1,
        end_time: 0,
        p_queue: 0,
        p_output: 0,
    }
}

} // verus!
