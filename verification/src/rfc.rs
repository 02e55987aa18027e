//! Radio co-processor command interface.
//!
//! Two command paths exist.  A *direct* command is a 16-bit opcode with a
//! 16-bit immediate written to the command register; the co-processor
//! answers in the command-status register within a bounded number of
//! cycles.  A *radio-operation* command is a record in shared memory whose
//! pointer goes to the command register; the co-processor acknowledges it
//! the same way and later writes a terminal status word into the record.
//! The record layout is C-ABI and little-endian; `encode` produces the
//! exact bytes, so what lands in the shared command buffer is pinned down.
//!
//! The co-processor's answers (the acknowledgement word and the record
//! status) reach the model as arguments: the driver's decisions over them
//! are verified for every answer the hardware could give.

use vstd::prelude::*;

verus! {

/// Low byte of the acknowledgement word that signals a parsed command.
pub const CMDSTA_DONE: u32 = 0x01;

/// Radio-operation status below this value means the command is not over.
pub const RADIO_OP_STATUS_TERMINAL: u16 = 0x0400;

/// Radio-operation statuses at or above this value are errors.
pub const RADIO_OP_STATUS_ERROR: u16 = 0x0800;

/// Status word of a freshly submitted radio operation.
pub const RADIO_OP_STATUS_PENDING: u16 = 0x0001;

/// Status word of a running radio operation.
pub const RADIO_OP_STATUS_ACTIVE: u16 = 0x0002;

/// Air protocol the co-processor is booted for.
#[derive(Clone, Copy, Debug, PartialEq, Eq, Structural)]
pub enum RfcMode {
    /// Bluetooth-compatible mode.
    BLE,
    /// The common (proprietary) mode.
    Common,
}

/// A 16-bit opcode with a 16-bit immediate, completed synchronously.
#[derive(Clone, Copy, Debug, PartialEq, Eq, Structural)]
pub struct DirectCommand {
    /// The opcode.
    pub command_no: u16,
    /// The immediate parameter.
    pub params: u16,
}

impl DirectCommand {
    /// The register word for this command: opcode in the high half,
    /// immediate in the middle, and the low bit set to mark it direct.
    pub open spec fn spec_register_word(self) -> u32 {
        ((self.command_no as u32) << 16) | ((self.params as u32) << 2) | 1u32
    }

    /// Build a direct command.
    pub fn new(command_no: u16, params: u16) -> (c: DirectCommand)
        ensures
            c.command_no == command_no,
            c.params == params,
    {
        DirectCommand { command_no, params }
    }

    /// The word to write to the command register.
    pub fn register_word(&self) -> (w: u32)
        ensures
            w == self.spec_register_word(),
    {
        ((self.command_no as u32) << 16) | ((self.params as u32) << 2) | 1u32
    }
}

/// The two bytes of a 16-bit word, little endian.
pub open spec fn spec_le16(x: u16) -> Seq<u8> {
    seq![(x & 0xFF) as u8, ((x >> 8) & 0xFF) as u8]
}

/// The four bytes of a 32-bit word, little endian.
pub open spec fn spec_le32(x: u32) -> Seq<u8> {
    seq![
        (x & 0xFF) as u8,
        ((x >> 8) & 0xFF) as u8,
        ((x >> 16) & 0xFF) as u8,
        ((x >> 24) & 0xFF) as u8,
    ]
}

/// Append the two little-endian bytes of a 16-bit word.
fn push_le16(out: &mut Vec<u8>, x: u16)
    ensures
        final(out)@ == old(out)@ + spec_le16(x),
{
    out.push((x & 0xFF) as u8);
    out.push(((x >> 8) & 0xFF) as u8);
    proof {
        assert(final(out)@ =~= old(out)@ + spec_le16(x));
    }
}

/// Append the four little-endian bytes of a 32-bit word.
fn push_le32(out: &mut Vec<u8>, x: u32)
    ensures
        final(out)@ == old(out)@ + spec_le32(x),
{
    out.push((x & 0xFF) as u8);
    out.push(((x >> 8) & 0xFF) as u8);
    out.push(((x >> 16) & 0xFF) as u8);
    out.push(((x >> 24) & 0xFF) as u8);
    proof {
        assert(final(out)@ =~= old(out)@ + spec_le32(x));
    }
}

/// Start trigger of a radio operation.
#[derive(Clone, Copy, Debug, PartialEq, Eq, Structural)]
pub struct RfcTrigger {
    /// Trigger type, low four bits of the encoding.
    pub trigger_type: u8,
    /// Alternative trigger through a command is allowed.
    pub enable_cmd: bool,
    /// Which of the four trigger lines, two bits.
    pub trigger_no: u8,
    /// A trigger in the past fires as soon as possible.
    pub past_trigger: bool,
}

impl RfcTrigger {
    /// The packed trigger byte.
    pub open spec fn spec_encode(self) -> u8 {
        ((self.trigger_type & 0xF) | (if self.enable_cmd {
            0x10u8
        } else {
            0u8
        }) | ((self.trigger_no & 0x3) << 5) | (if self.past_trigger {
            0x80u8
        } else {
            0u8
        })) as u8
    }

    /// Pack the trigger into its byte.
    pub fn encode(&self) -> (b: u8)
        ensures
            b == self.spec_encode(),
    {
        (self.trigger_type & 0xF) | (if self.enable_cmd {
            0x10u8
        } else {
            0u8
        }) | ((self.trigger_no & 0x3) << 5) | (if self.past_trigger {
            0x80u8
        } else {
            0u8
        })
    }
}

/// Condition field of a radio operation: what to run next.
#[derive(Clone, Copy, Debug, PartialEq, Eq, Structural)]
pub struct RfcCondition {
    /// Rule selecting the next operation, low four bits.
    pub rule: u8,
    /// How many skip when the rule says skip, high four bits.
    pub skip_no: u8,
}

impl RfcCondition {
    /// The packed condition byte.
    pub open spec fn spec_encode(self) -> u8 {
        ((self.rule & 0xF) | ((self.skip_no & 0xF) << 4)) as u8
    }

    /// Pack the condition into its byte.
    pub fn encode(&self) -> (b: u8)
        ensures
            b == self.spec_encode(),
    {
        (self.rule & 0xF) | ((self.skip_no & 0xF) << 4)
    }
}

/// The six fields every radio-operation record starts with.
#[derive(Clone, Copy, Debug, PartialEq, Eq, Structural)]
pub struct CommandCommon {
    /// The operation's opcode.
    pub command_no: u16,
    /// Status word the co-processor writes; zero on submission.
    pub status: u16,
    /// Pointer to the next operation in a chain, or zero.
    pub p_nextop: u32,
    /// Start time against the radio timer.
    pub start_time: u32,
    /// Packed start trigger.
    pub start_trigger: u8,
    /// Packed condition.
    pub condition: u8,
}

impl CommandCommon {
    /// The fourteen header bytes, little endian, in field order.
    pub open spec fn spec_encode(self) -> Seq<u8> {
        spec_le16(self.command_no) + spec_le16(self.status) + spec_le32(self.p_nextop)
            + spec_le32(self.start_time) + seq![self.start_trigger, self.condition]
    }

    /// Append the header bytes to the command buffer image.
    pub fn encode_onto(&self, out: &mut Vec<u8>)
        ensures
            final(out)@ == old(out)@ + self.spec_encode(),
    {
        push_le16(out, self.command_no);
        push_le16(out, self.status);
        push_le32(out, self.p_nextop);
        push_le32(out, self.start_time);
        out.push(self.start_trigger);
        out.push(self.condition);
        proof {
            assert(final(out)@ =~= old(out)@ + self.spec_encode());
        }
    }
}

/// The proprietary-mode transmit operation record.
#[derive(Clone, Copy, Debug, PartialEq, Eq, Structural)]
pub struct CommandTx {
    /// The common header.
    pub common: CommandCommon,
    /// Packed packet configuration.
    pub packet_conf: u8,
    /// Number of payload bytes to send.
    pub packet_len: u8,
    /// Synchronisation word put on the air before the packet.
    pub sync_word: u32,
    /// Pointer to the payload bytes.
    pub packet_pointer: u32,
}

impl CommandTx {
    /// The record's bytes: header, packet configuration, length, sync
    /// word, payload pointer.
    pub open spec fn spec_encode(self) -> Seq<u8> {
        self.common.spec_encode() + seq![self.packet_conf, self.packet_len]
            + spec_le32(self.sync_word) + spec_le32(self.packet_pointer)
    }

    /// The exact image of this record in the shared command buffer.
    pub fn encode(&self) -> (out: Vec<u8>)
        ensures
            out@ == self.spec_encode(),
    {
        let mut out: Vec<u8> = Vec::new();
        self.common.encode_onto(&mut out);
        out.push(self.packet_conf);
        out.push(self.packet_len);
        push_le32(&mut out, self.sync_word);
        push_le32(&mut out, self.packet_pointer);
        proof {
            assert(out@ =~= self.spec_encode());
        }
        out
    }
}

/// The proprietary-mode receive operation record.
#[derive(Clone, Copy, Debug, PartialEq, Eq, Structural)]
pub struct CommandRx {
    /// The common header.
    pub common: CommandCommon,
    /// Packed packet configuration.
    pub packet_conf: u8,
    /// Packed receive configuration.
    pub rx_config: u8,
    /// Synchronisation word to listen for.
    pub sync_word: u32,
    /// Longest packet accepted.
    pub max_packet_len: u8,
    /// First address byte to match.
    pub address_0: u8,
    /// Second address byte to match.
    pub address_1: u8,
    /// Packed end trigger.
    pub end_trigger: u8,
    /// End time against the radio timer.
    pub end_time: u32,
    /// Pointer to the receive data queue.
    pub p_queue: u32,
    /// Pointer to the operation's statistics output.
    pub p_output: u32,
}

impl CommandRx {
    /// The record's bytes in field order, little endian.
    pub open spec fn spec_encode(self) -> Seq<u8> {
        self.common.spec_encode() + seq![
            self.packet_conf,
            self.rx_config,
        ] + spec_le32(self.sync_word) + seq![
            self.max_packet_len,
            self.address_0,
            self.address_1,
            self.end_trigger,
        ] + spec_le32(self.end_time) + spec_le32(self.p_queue) + spec_le32(self.p_output)
    }

    /// The exact image of this record in the shared command buffer.
    pub fn encode(&self) -> (out: Vec<u8>)
        ensures
            out@ == self.spec_encode(),
    {
        let mut out: Vec<u8> = Vec::new();
        self.common.encode_onto(&mut out);
        out.push(self.packet_conf);
        out.push(self.rx_config);
        push_le32(&mut out, self.sync_word);
        out.push(self.max_packet_len);
        out.push(self.address_0);
        out.push(self.address_1);
        out.push(self.end_trigger);
        push_le32(&mut out, self.end_time);
        push_le32(&mut out, self.p_queue);
        push_le32(&mut out, self.p_output);
        proof {
            assert(out@ =~= self.spec_encode());
        }
        out
    }
}

/// The frequency-synthesiser programming record.
#[derive(Clone, Copy, Debug, PartialEq, Eq, Structural)]
pub struct CommandFS {
    /// The common header.
    pub common: CommandCommon,
    /// Target frequency in whole megahertz.
    pub frequency: u16,
    /// Fractional part of the frequency.
    pub fract_freq: u16,
    /// Packed synthesiser configuration.
    pub synth_conf: u8,
    /// Reserved byte.
    pub dummy0: u8,
    /// Reserved byte.
    pub dummy1: u8,
    /// Reserved byte.
    pub dummy2: u8,
    /// Reserved half-word.
    pub dummy3: u16,
}

impl CommandFS {
    /// The record's bytes in field order, little endian.
    pub open spec fn spec_encode(self) -> Seq<u8> {
        self.common.spec_encode() + spec_le16(self.frequency) + spec_le16(self.fract_freq)
            + seq![self.synth_conf, self.dummy0, self.dummy1, self.dummy2] + spec_le16(
            self.dummy3,
        )
    }

    /// The exact image of this record in the shared command buffer.
    pub fn encode(&self) -> (out: Vec<u8>)
        ensures
            out@ == self.spec_encode(),
    {
        let mut out: Vec<u8> = Vec::new();
        self.common.encode_onto(&mut out);
        push_le16(&mut out, self.frequency);
        push_le16(&mut out, self.fract_freq);
        out.push(self.synth_conf);
        out.push(self.dummy0);
        out.push(self.dummy1);
        out.push(self.dummy2);
        push_le16(&mut out, self.dummy3);
        proof {
            assert(out@ =~= self.spec_encode());
        }
        out
    }
}

/// True when the co-processor's acknowledgement word parsed the command.
pub open spec fn spec_ack_ok(cmdsta: u32) -> bool {
    cmdsta & 0xFF == CMDSTA_DONE
}

/// True when a radio-operation status word is terminal.
pub open spec fn spec_status_terminal(status: u16) -> bool {
    status >= RADIO_OP_STATUS_TERMINAL
}

/// True when a terminal radio-operation status word reports success.
pub open spec fn spec_status_ok(status: u16) -> bool {
    RADIO_OP_STATUS_TERMINAL <= status < RADIO_OP_STATUS_ERROR
}

/// The host side of the co-processor: mode, power, the radio timer, and
/// the status of the last radio operation.  Every answer the co-processor
/// gives arrives as an argument, so the contracts hold for any answer.
pub struct RFCore {
    /// Air mode selected before power-up.
    pub mode: Option<RfcMode>,
    /// Co-processor domain powered and command engine booted.
    pub enabled: bool,
    /// The radio timer runs.
    pub rat_running: bool,
    /// Register overrides and transmit power were programmed.
    pub configured: bool,
    /// Status word of the current or last radio operation.
    pub status: u32,
    /// Opcode of the outstanding radio operation, if one is in flight.
    pub pending_op: Option<u16>,
    /// The last direct command written to the command register.
    pub last_direct: Option<DirectCommand>,
}

impl RFCore {
    /// A powered-down co-processor interface.
    pub fn new() -> (r: RFCore)
        ensures
            r.mode is None,
            !r.enabled,
            !r.rat_running,
            !r.configured,
            r.status == 0,
            r.pending_op is None,
            r.last_direct is None,
    {
        RFCore {
            mode: None,
            enabled: false,
            rat_running: false,
            configured: false,
            status: 0,
            pending_op: None,
            last_direct: None,
        }
    }

    /// Select the air mode; takes effect at the next power-up.
    pub fn set_mode(&mut self, mode: RfcMode)
        ensures
            *final(self) == (RFCore { mode: Some(mode), ..*old(self) }),
    {
        self.mode = Some(mode);
    }

    /// Power the co-processor domain and boot the command engine.
    pub fn enable(&mut self)
        ensures
            *final(self) == (RFCore { enabled: true, ..*old(self) }),
    {
        self.enabled = true;
    }

    /// Power the co-processor domain down.
    pub fn disable(&mut self)
        ensures
            *final(self) == (RFCore {
                enabled: false,
                rat_running: false,
                configured: false,
                pending_op: None,
                ..*old(self)
            }),
    {
        self.enabled = false;
        self.rat_running = false;
        self.configured = false;
        self.pending_op = None;
    }

    /// Start the radio timer.
    pub fn start_rat(&mut self)
        ensures
            *final(self) == (RFCore { rat_running: true, ..*old(self) }),
    {
        self.rat_running = true;
    }

    /// True when the co-processor is powered and booted.
    pub fn check_enabled(&self) -> (r: bool)
        ensures
            r == self.enabled,
    {
        self.enabled
    }

    /// Submit a direct command; `cmdsta` is the acknowledgement word the
    /// poll observed before its deadline.  Succeeds exactly when the word
    /// reports the command parsed.
    pub fn send_direct(&mut self, cmd: &DirectCommand, cmdsta: u32) -> (r: Result<u32, u32>)
        ensures
            *final(self) == (RFCore { last_direct: Some(*cmd), ..*old(self) }),
            r == if spec_ack_ok(cmdsta) {
                Result::<u32, u32>::Ok(cmdsta)
            } else {
                Result::<u32, u32>::Err(cmdsta)
            },
    {
        self.last_direct = Some(*cmd);
        if cmdsta & 0xFF == CMDSTA_DONE {
            Ok(cmdsta)
        } else {
            Err(cmdsta)
        }
    }

    /// Submit a radio-operation record; `cmdsta` is the acknowledgement
    /// word and `op_status` the record's status word once the
    /// acknowledgement arrived.  On acknowledgement the operation is
    /// outstanding; the record must stay live until a later `wait`
    /// observes a terminal status.
    pub fn send_sync(&mut self, command_no: u16, cmdsta: u32, op_status: u16) -> (r: Result<
        u32,
        u32,
    >)
        ensures
            r == if spec_ack_ok(cmdsta) {
                Result::<u32, u32>::Ok(cmdsta)
            } else {
                Result::<u32, u32>::Err(cmdsta)
            },
            spec_ack_ok(cmdsta) ==> *final(self) == (RFCore {
                pending_op: Some(command_no),
                status: op_status as u32,
                ..*old(self)
            }),
            !spec_ack_ok(cmdsta) ==> *final(self) == *old(self),
    {
        if cmdsta & 0xFF == CMDSTA_DONE {
            self.pending_op = Some(command_no);
            self.status = op_status as u32;
            Ok(cmdsta)
        } else {
            Err(cmdsta)
        }
    }

    /// Wait for the outstanding radio operation: `op_status` is the status
    /// word the poll read from the record.  A terminal status ends the
    /// wait and clears the outstanding operation; success is a terminal
    /// status below the error range.
    pub fn wait(&mut self, op_status: u16) -> (r: Result<u16, u16>)
        ensures
            r == if spec_status_ok(op_status) {
                Result::<u16, u16>::Ok(op_status)
            } else {
                Result::<u16, u16>::Err(op_status)
            },
            spec_status_terminal(op_status) ==> *final(self) == (RFCore {
                pending_op: None,
                status: op_status as u32,
                ..*old(self)
            }),
            !spec_status_terminal(op_status) ==> *final(self) == (RFCore {
                status: op_status as u32,
                ..*old(self)
            }),
    {
        self.status = op_status as u32;
        if op_status >= RADIO_OP_STATUS_TERMINAL {
            self.pending_op = None;
        }
        if RADIO_OP_STATUS_TERMINAL <= op_status && op_status < RADIO_OP_STATUS_ERROR {
            Ok(op_status)
        } else {
            Err(op_status)
        }
    }

    /// Program register overrides and transmit power through the setup
    /// operation; `cmdsta` and `op_status` are the co-processor's answers.
    /// The core counts as configured only on full success.
    pub fn setup(&mut self, reg_overrides: u32, tx_power: u16, cmdsta: u32, op_status: u16) -> (
        r: ReturnCodeResult)
        ensures
            r.ok <==> spec_ack_ok(cmdsta) && spec_status_ok(op_status),
            *final(self) == (RFCore {
                configured: final(self).configured,
                pending_op: final(self).pending_op,
                status: final(self).status,
                ..*old(self)
            }),
            r.ok ==> *final(self) == (RFCore {
                configured: true,
                pending_op: None,
                status: op_status as u32,
                ..*old(self)
            }),
            !r.ok ==> final(self).configured == old(self).configured,
    {
        let sent = self.send_sync(0x0802, cmdsta, op_status);
        match sent {
            Ok(_) => {
                let waited = self.wait(op_status);
                match waited {
                    Ok(_) => {
                        self.configured = true;
                        ReturnCodeResult { ok: true }
                    },
                    Err(_) => ReturnCodeResult { ok: false },
                }
            },
            Err(_) => ReturnCodeResult { ok: false },
        }
    }
}

/// Whether a multi-step co-processor exchange fully succeeded.
#[derive(Clone, Copy, Debug, PartialEq, Eq, Structural)]
pub struct ReturnCodeResult {
    /// True on full success.
    pub ok: bool,
}

/// Packet configuration of the transmit operation.
#[derive(Clone, Copy, Debug, PartialEq, Eq, Structural)]
pub struct RfcPacketConfTx {
    /// Leave the synthesiser off after the operation.
    pub fs_off: bool,
    /// Append the hardware checksum.
    pub use_crc: bool,
    /// Send a length byte before the payload.
    pub var_len: bool,
}

impl RfcPacketConfTx {
    /// The packed configuration byte: the three flags in the low bits.
    pub open spec fn spec_encode(self) -> u8 {
        ((if self.fs_off {
            1u8
        } else {
            0u8
        }) | (if self.use_crc {
            2u8
        } else {
            0u8
        }) | (if self.var_len {
            4u8
        } else {
            0u8
        })) as u8
    }

    /// Pack the configuration into its byte.
    pub fn encode(&self) -> (b: u8)
        ensures
            b == self.spec_encode(),
    {
        (if self.fs_off {
            1u8
        } else {
            0u8
        }) | (if self.use_crc {
            2u8
        } else {
            0u8
        }) | (if self.var_len {
            4u8
        } else {
            0u8
        })
    }
}

/// Packet configuration of the receive operation.
#[derive(Clone, Copy, Debug, PartialEq, Eq, Structural)]
pub struct RfcPacketConfRx {
    /// Leave the synthesiser off after the operation.
    pub fs_off: bool,
    /// Go back to receiving after a good frame.
    pub brepeat_ok: bool,
    /// Go back to receiving after a bad frame.
    pub brepeat_nok: bool,
    /// Check the hardware checksum.
    pub use_crc: bool,
    /// Frames carry a leading length byte.
    pub var_len: bool,
    /// Filter frames by address.
    pub check_address: bool,
    /// How the end trigger cuts a frame short.
    pub end_type: bool,
    /// Keep filtering during a frame.
    pub filter_op: bool,
}

impl RfcPacketConfRx {
    /// The packed configuration byte: the eight flags in bit order.
    pub open spec fn spec_encode(self) -> u8 {
        ((if self.fs_off {
            0x01u8
        } else {
            0u8
        }) | (if self.brepeat_ok {
            0x02u8
        } else {
            0u8
        }) | (if self.brepeat_nok {
            0x04u8
        } else {
            0u8
        }) | (if self.use_crc {
            0x08u8
        } else {
            0u8
        }) | (if self.var_len {
            0x10u8
        } else {
            0u8
        }) | (if self.check_address {
            0x20u8
        } else {
            0u8
        }) | (if self.end_type {
            0x40u8
        } else {
            0u8
        }) | (if self.filter_op {
            0x80u8
        } else {
            0u8
        })) as u8
    }

    /// Pack the configuration into its byte.
    pub fn encode(&self) -> (b: u8)
        ensures
            b == self.spec_encode(),
    {
        (if self.fs_off {
            0x01u8
        } else {
            0u8
        }) | (if self.brepeat_ok {
            0x02u8
        } else {
            0u8
        }) | (if self.brepeat_nok {
            0x04u8
        } else {
            0u8
        }) | (if self.use_crc {
            0x08u8
        } else {
            0u8
        }) | (if self.var_len {
            0x10u8
        } else {
            0u8
        }) | (if self.check_address {
            0x20u8
        } else {
            0u8
        }) | (if self.end_type {
            0x40u8
        } else {
            0u8
        }) | (if self.filter_op {
            0x80u8
        } else {
            0u8
        })
    }
}

/// What the receive operation appends to and flushes from the queue.
#[derive(Clone, Copy, Debug, PartialEq, Eq, Structural)]
pub struct RxConfiguration {
    /// Drop filtered frames without storing them.
    pub auto_flush_ignored: bool,
    /// Drop frames whose checksum fails.
    pub auto_flush_crc_error: bool,
    /// Store the header byte with the frame.
    pub include_header: bool,
    /// Store the checksum with the frame.
    pub include_crc: bool,
    /// Append the signal strength.
    pub append_rssi: bool,
    /// Append the arrival time.
    pub append_timestamp: bool,
    /// Append the status byte.
    pub append_status: bool,
}

impl RxConfiguration {
    /// The packed configuration byte, bit 2 reserved.
    pub open spec fn spec_encode(self) -> u8 {
        ((if self.auto_flush_ignored {
            0x01u8
        } else {
            0u8
        }) | (if self.auto_flush_crc_error {
            0x02u8
        } else {
            0u8
        }) | (if self.include_header {
            0x08u8
        } else {
            0u8
        }) | (if self.include_crc {
            0x10u8
        } else {
            0u8
        }) | (if self.append_rssi {
            0x20u8
        } else {
            0u8
        }) | (if self.append_timestamp {
            0x40u8
        } else {
            0u8
        }) | (if self.append_status {
            0x80u8
        } else {
            0u8
        })) as u8
    }

    /// Pack the configuration into its byte.
    pub fn encode(&self) -> (b: u8)
        ensures
            b == self.spec_encode(),
    {
        (if self.auto_flush_ignored {
            0x01u8
        } else {
            0u8
        }) | (if self.auto_flush_crc_error {
            0x02u8
        } else {
            0u8
        }) | (if self.include_header {
            0x08u8
        } else {
            0u8
        }) | (if self.include_crc {
            0x10u8
        } else {
            0u8
        }) | (if self.append_rssi {
            0x20u8
        } else {
            0u8
        }) | (if self.append_timestamp {
            0x40u8
        } else {
            0u8
        }) | (if self.append_status {
            0x80u8
        } else {
            0u8
        })
    }
}

} // verus!
