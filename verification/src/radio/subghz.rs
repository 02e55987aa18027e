//! The sub-gigahertz radio driver: the common-mode counterpart of the
//! multi-protocol driver, with a plain power path and a direct-command
//! surface.

use vstd::prelude::*;

use crate::retcode::ReturnCode;
use crate::rfc::{
    spec_ack_ok, spec_status_ok, DirectCommand, RFCore, RfcMode,
};

verus! {

/// The answers the co-processor gives while this radio powers up.
#[derive(Clone, Copy, Debug, PartialEq, Eq, Structural)]
pub struct SetupAcks {
    /// Acknowledgement of the setup operation.
    pub cmdsta: u32,
    /// Terminal status of the setup operation.
    pub op_status: u16,
}

/// The sub-gigahertz radio driver.
pub struct Radio {
    /// The co-processor interface.
    pub rfc: RFCore,
    /// Power the core down once the outstanding operation completes.
    pub schedule_powerdown: bool,
    /// The client's buffer, borrowed while a transmission is in flight.
    pub tx_buf: Option<Vec<u8>>,
}

impl Radio {
    /// A powered-down driver around a co-processor interface.
    pub fn new(rfc: RFCore) -> (r: Radio)
        ensures
            r.rfc == rfc,
            !r.schedule_powerdown,
            r.tx_buf is None,
    {
        Radio { rfc, schedule_powerdown: false, tx_buf: None }
    }

    /// Power-up steps without the final check, for bring-up on the bench.
    pub fn test_power_up(&mut self, acks: SetupAcks)
        ensures
            final(self).rfc.enabled,
            final(self).rfc.rat_running,
            final(self).rfc.mode == Some(RfcMode::Common),
            final(self).tx_buf == old(self).tx_buf,
    {
        self.rfc.set_mode(RfcMode::Common);
        self.rfc.enable();
        self.rfc.start_rat();
        let _ = self.rfc.setup(0, 0xFFFE, acks.cmdsta, acks.op_status);
    }

    /// Whether a power-up exchange fully succeeded.
    pub open spec fn spec_acks_ok(acks: SetupAcks) -> bool {
        spec_ack_ok(acks.cmdsta) && spec_status_ok(acks.op_status)
    }

    /// Power the core up: select the common mode, power and boot the
    /// engine, start the radio timer and program the setup operation.  A
    /// failed setup powers the domain back down and reports the failure.
    pub fn power_up(&mut self, acks: SetupAcks) -> (r: ReturnCode)
        ensures
            r == (if Radio::spec_acks_ok(acks) {
                ReturnCode::SUCCESS
            } else {
                ReturnCode::FAIL
            }),
            Radio::spec_acks_ok(acks) ==> final(self).rfc.enabled && final(self).rfc.rat_running
                && final(self).rfc.configured && final(self).rfc.mode == Some(RfcMode::Common),
            !Radio::spec_acks_ok(acks) ==> !final(self).rfc.enabled,
            final(self).tx_buf == old(self).tx_buf,
    {
        self.rfc.set_mode(RfcMode::Common);
        self.rfc.enable();
        self.rfc.start_rat();
        let setup = self.rfc.setup(0, 0xFFFE, acks.cmdsta, acks.op_status);
        if setup.ok {
            ReturnCode::SUCCESS
        } else {
            self.power_down();
            ReturnCode::FAIL
        }
    }

    /// Power the core down.
    pub fn power_down(&mut self)
        ensures
            *final(self) == (Radio { rfc: final(self).rfc, ..*old(self) }),
            !final(self).rfc.enabled,
            final(self).rfc.pending_op is None,
    {
        self.rfc.disable();
    }

    /// A finished operation with nothing to hand back.
    pub fn command_done(&self) {
    }

    /// Complete a finished transmission: honour a scheduled power-down
    /// and hand the borrowed buffer back with success.
    pub fn tx_done(&mut self) -> (r: Option<(Vec<u8>, ReturnCode)>)
        ensures
            old(self).schedule_powerdown ==> !final(self).rfc.enabled && !final(self).schedule_powerdown,
            final(self).tx_buf is None,
            match old(self).tx_buf {
                Some(b) => (r matches Some(out) && out.0@ == b@ && out.1
                    == ReturnCode::SUCCESS),
                None => r is None,
            },
    {
        if self.schedule_powerdown {
            self.power_down();
            self.schedule_powerdown = false;
        }
        match self.tx_buf.take() {
            Some(b) => Some((b, ReturnCode::SUCCESS)),
            None => None,
        }
    }

    /// A received frame with nothing to deliver in this driver.
    pub fn rx_ok(&self) {
    }

    /// This driver does not own a transmit path; the buffer comes
    /// straight back.
    pub fn transmit(&mut self, tx_buf: Vec<u8>, _frame_len: usize) -> (r: (
        ReturnCode,
        Option<Vec<u8>>,
    ))
        ensures
            *final(self) == *old(self),
            r.0 == ReturnCode::SUCCESS,
            (r.1 matches Some(b) && b@ == tx_buf@),
    {
        (ReturnCode::SUCCESS, Some(tx_buf))
    }

    /// First power-up on behalf of a client.
    pub fn initialize(&mut self, acks: SetupAcks) -> (r: ReturnCode)
        ensures
            r == (if Radio::spec_acks_ok(acks) {
                ReturnCode::SUCCESS
            } else {
                ReturnCode::FAIL
            }),
            Radio::spec_acks_ok(acks) ==> final(self).rfc.enabled,
    {
        self.power_up(acks)
    }

    /// Power the core down and bring it back up.
    pub fn reset(&mut self, acks: SetupAcks) -> (r: ReturnCode)
        ensures
            r == (if Radio::spec_acks_ok(acks) {
                ReturnCode::SUCCESS
            } else {
                ReturnCode::FAIL
            }),
            Radio::spec_acks_ok(acks) ==> final(self).rfc.enabled,
    {
        self.power_down();
        self.power_up(acks)
    }

    /// Stop the running operation gracefully.
    pub fn stop(&mut self, cmdsta: u32) -> (r: ReturnCode)
        ensures
            final(self).rfc.last_direct == Some(DirectCommand { command_no: 0x0402, params: 0 }),
            final(self).rfc.enabled == old(self).rfc.enabled,
            final(self).tx_buf == old(self).tx_buf,
            r == (if spec_ack_ok(cmdsta) {
                ReturnCode::SUCCESS
            } else {
                ReturnCode::FAIL
            }),
    {
        let cmd_stop = DirectCommand::new(0x0402, 0);
        let sent = self.rfc.send_direct(&cmd_stop, cmdsta);
        if sent.is_ok() {
            ReturnCode::SUCCESS
        } else {
            ReturnCode::FAIL
        }
    }

    /// True when the engine is powered and booted.
    pub fn is_on(&self) -> (r: bool)
        ensures
            r == self.rfc.enabled,
    {
        self.rfc.check_enabled()
    }

    /// True while a radio operation is pending or running.
    pub fn busy(&self) -> (r: bool)
        ensures
            r == (self.rfc.status == 1 || self.rfc.status == 2),
    {
        self.rfc.status == 1 || self.rfc.status == 2
    }

    /// Commit a pending configuration change; nothing is held back.
    pub fn config_commit(&self) {
    }

    /// The requested transmit power; this driver keeps none.
    pub fn get_tx_power(&self) -> (r: u32)
        ensures
            r == 0,
    {
        0
    }

    /// The core's power-status word; this model keeps none.
    pub fn get_radio_status(&self) -> (r: u32)
        ensures
            r == 0,
    {
        0
    }

    /// The driver's view of the last radio-operation status.
    pub fn get_command_status(&self) -> (r: (ReturnCode, Option<u32>))
        ensures
            r.1 == Some(self.rfc.status),
            ({
                let masked = self.rfc.status & 0x0F00;
                r.0 == if masked == 0 || masked == 0x0400 {
                    ReturnCode::SUCCESS
                } else if masked == 0x0800 {
                    ReturnCode::FAIL
                } else {
                    ReturnCode::EINVAL
                }
            }),
    {
        let status = self.rfc.status;
        let masked = status & 0x0F00;
        if masked == 0 || masked == 0x0400 {
            (ReturnCode::SUCCESS, Some(status))
        } else if masked == 0x0800 {
            (ReturnCode::FAIL, Some(status))
        } else {
            (ReturnCode::EINVAL, Some(status))
        }
    }

    /// Program the transmit power through a direct command.
    pub fn set_tx_power(&mut self, power: u16, cmdsta: u32) -> (r: ReturnCode)
        ensures
            final(self).rfc.last_direct == Some(DirectCommand { command_no: 0x0010, params: power }),
            final(self).rfc.enabled == old(self).rfc.enabled,
            final(self).tx_buf == old(self).tx_buf,
            r == (if spec_ack_ok(cmdsta) {
                ReturnCode::SUCCESS
            } else {
                ReturnCode::FAIL
            }),
    {
        let command = DirectCommand::new(0x0010, power);
        let sent = self.rfc.send_direct(&command, cmdsta);
        if sent.is_ok() {
            ReturnCode::SUCCESS
        } else {
            ReturnCode::FAIL
        }
    }

    /// Send the graceful-stop direct command.
    pub fn send_stop_command(&mut self, cmdsta: u32) -> (r: ReturnCode)
        ensures
            final(self).rfc.last_direct == Some(DirectCommand { command_no: 0x0402, params: 0 }),
            final(self).rfc.enabled == old(self).rfc.enabled,
            final(self).tx_buf == old(self).tx_buf,
            r == (if spec_ack_ok(cmdsta) {
                ReturnCode::SUCCESS
            } else {
                ReturnCode::FAIL
            }),
    {
        let command = DirectCommand::new(0x0402, 0);
        let sent = self.rfc.send_direct(&command, cmdsta);
        if sent.is_ok() {
            ReturnCode::SUCCESS
        } else {
            ReturnCode::FAIL
        }
    }

    /// Send the immediate-abort direct command.
    pub fn send_kill_command(&mut self, cmdsta: u32) -> (r: ReturnCode)
        ensures
            final(self).rfc.last_direct == Some(DirectCommand { command_no: 0x0401, params: 0 }),
            final(self).rfc.enabled == old(self).rfc.enabled,
            final(self).tx_buf == old(self).tx_buf,
            r == (if spec_ack_ok(cmdsta) {
                ReturnCode::SUCCESS
            } else {
                ReturnCode::FAIL
            }),
    {
        let command = DirectCommand::new(0x0401, 0);
        let sent = self.rfc.send_direct(&command, cmdsta);
        if sent.is_ok() {
            ReturnCode::SUCCESS
        } else {
            ReturnCode::FAIL
        }
    }
}

} // verus!
