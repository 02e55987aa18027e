//! The radio system-call driver.
//!
//! Processes queue frame transmissions, register callbacks and share
//! buffers; the driver serialises one transmission at a time across all
//! processes through a `current_app` cell, and when one completes it scans
//! the processes for the next pending transmission.  The framing layer
//! above the bare radio is a thin shim here: a frame is the device
//! identifier and a sequence byte followed by the payload.

use vstd::prelude::*;

use crate::grant::{grant_error_code, AppSlice, Callback, Grant, GrantSlot, ProcessTable, Upcall};
use crate::radio::multimode::{PowerUpAcks, Radio, MAX_TX_LENGTH};
use crate::retcode::ReturnCode;

verus! {

/// The radio driver's stable number.
pub const DRIVER_NUM: usize = 0xCC1352;

/// Power states a client may ask the radio for.
#[derive(Clone, Copy, Debug, PartialEq, Eq, Structural)]
pub enum PowerMode {
    /// Fully powered.
    Active,
    /// Light sleep.
    Sleep,
    /// Deepest sleep.
    DeepSleep,
}

/// How a queued payload is encoded into the frame.
#[derive(Clone, Copy, Debug, PartialEq, Eq, Structural)]
pub enum PayloadType {
    /// The payload goes out as it is.
    Plain,
    /// The payload is packetised.
    Packetizer,
    /// The payload is run through the cauterizing encoder.
    Cauterize,
}

impl PayloadType {
    /// The payload type a command selector names, if any.
    pub fn from_cmd(cmd: usize) -> (r: Option<PayloadType>)
        ensures
            r == (if cmd == 0 {
                Some(PayloadType::Plain)
            } else if cmd == 1 {
                Some(PayloadType::Packetizer)
            } else if cmd == 0x10 {
                Some(PayloadType::Cauterize)
            } else {
                None::<PayloadType>
            }),
    {
        if cmd == 0 {
            Some(PayloadType::Plain)
        } else if cmd == 1 {
            Some(PayloadType::Packetizer)
        } else if cmd == 0x10 {
            Some(PayloadType::Cauterize)
        } else {
            None
        }
    }
}

/// The buffer slots a process may share.
#[derive(Clone, Copy, Debug, PartialEq, Eq, Structural)]
pub enum HeliumAllow {
    /// Receives the arrived frame.
    Read,
    /// Holds the payload to transmit.
    Write,
    /// Carries configuration data too wide for call arguments.
    Config,
}

/// The callbacks a process may register.
#[derive(Clone, Copy, Debug, PartialEq, Eq, Structural)]
pub enum HeliumCallback {
    /// Runs when a frame arrives.
    RxCallback,
    /// Runs when a transmission completes.
    TxCallback,
}

/// The command selectors of the radio driver.
#[derive(Clone, Copy, Debug, PartialEq, Eq, Structural)]
pub enum HeliumCommand {
    /// Probe that the driver exists.
    DriverCheck,
    /// Power the radio up.
    Initialize,
    /// Ask whether the radio is powered.
    GetRadioStatus,
    /// Stop the running operation gracefully.
    SendStopCommand,
    /// Abort the running operation at once.
    SendKillCommand,
    /// Commit the device configuration.
    SetDeviceConfig,
    /// Queue the process's next transmission.
    SetNextTx,
    /// Set the device's long address from the config buffer.
    SetAddress,
    /// Recognised as no command at all.
    Invalid,
}

impl HeliumCommand {
    /// The command a numeric selector names, if any.
    pub fn from_usize(n: usize) -> (r: Option<HeliumCommand>)
        ensures
            (r == Some(HeliumCommand::DriverCheck)) == (n == 0),
            (r == Some(HeliumCommand::Initialize)) == (n == 1),
            (r == Some(HeliumCommand::GetRadioStatus)) == (n == 2),
            (r == Some(HeliumCommand::SendStopCommand)) == (n == 3),
            (r == Some(HeliumCommand::SendKillCommand)) == (n == 4),
            (r == Some(HeliumCommand::SetDeviceConfig)) == (n == 5),
            (r == Some(HeliumCommand::SetNextTx)) == (n == 6),
            (r == Some(HeliumCommand::SetAddress)) == (n == 7),
            (r == Some(HeliumCommand::Invalid)) == (n == 8),
            r is None <==> n > 8,
    {
        match n {
            0 => Some(HeliumCommand::DriverCheck),
            1 => Some(HeliumCommand::Initialize),
            2 => Some(HeliumCommand::GetRadioStatus),
            3 => Some(HeliumCommand::SendStopCommand),
            4 => Some(HeliumCommand::SendKillCommand),
            5 => Some(HeliumCommand::SetDeviceConfig),
            6 => Some(HeliumCommand::SetNextTx),
            7 => Some(HeliumCommand::SetAddress),
            8 => Some(HeliumCommand::Invalid),
            _ => None,
        }
    }
}

/// Per-process radio state, kept in the grant.
pub struct App {
    /// Callback for a completed transmission.
    pub tx_callback: Option<Callback>,
    /// Callback for an arrived frame.
    pub rx_callback: Option<Callback>,
    /// The shared configuration buffer.
    pub app_cfg: Option<AppSlice>,
    /// The shared payload buffer.
    pub app_write: Option<AppSlice>,
    /// The shared receive buffer.
    pub app_read: Option<AppSlice>,
    /// The queued transmission: device identifier and payload encoding.
    pub pending_tx: Option<(u8, Option<PayloadType>)>,
    /// Smallest spacing between this process's transmissions.
    pub tx_interval_ms: u32,
}

impl App {
    /// The state of a process that has set nothing up.
    pub open spec fn spec_blank() -> App {
        App {
            tx_callback: None,
            rx_callback: None,
            app_cfg: None,
            app_write: None,
            app_read: None,
            pending_tx: None,
            tx_interval_ms: 400,
        }
    }

    /// A process's state before it has set anything up; the transmission
    /// spacing starts at the regulatory maximum.
    pub fn blank() -> (a: App)
        ensures
            a == App::spec_blank(),
    {
        App {
            tx_callback: None,
            rx_callback: None,
            app_cfg: None,
            app_write: None,
            app_read: None,
            pending_tx: None,
            tx_interval_ms: 400,
        }
    }
}

impl Default for App {
    /// The state of a process that has set nothing up.
    fn default() -> (a: App)
        ensures
            a == App::spec_blank(),
    {
        App::blank()
    }
}

/// The framing shim over the bare radio: a frame is the device identifier
/// and a sequence byte followed by the payload.
pub struct Device {
    /// The underlying radio.
    pub radio: Radio,
    /// The device's long address.
    pub address_long: Vec<u8>,
}

/// A frame under construction.
pub struct Frame {
    /// The frame's bytes so far.
    pub buf: Vec<u8>,
    /// How the payload is encoded.
    pub payload_type: PayloadType,
}

impl Frame {
    /// Append the payload to the frame.  The encoding variants beyond
    /// plain framing belong to the out-of-scope framing library; here
    /// every variant frames the payload as it is.
    pub fn frame_payload(&mut self, payload: &Vec<u8>) -> (r: ReturnCode)
        ensures
            final(self).buf@ == old(self).buf@ + payload@,
            final(self).payload_type == old(self).payload_type,
            r == ReturnCode::SUCCESS,
    {
        let mut k: usize = 0;
        while k < payload.len()
            invariant
                k <= payload@.len(),
                self.buf@ == old(self).buf@ + payload@.subrange(0, k as int),
                self.payload_type == old(self).payload_type,
            decreases payload@.len() - k,
        {
            self.buf.push(payload[k]);
            proof {
                assert(self.buf@ =~= old(self).buf@ + payload@.subrange(0, k + 1));
            }
            k = k + 1;
        }
        proof {
            assert(payload@.subrange(0, payload@.len() as int) =~= payload@);
        }
        ReturnCode::SUCCESS
    }
}

impl Device {
    /// Wrap a radio.
    pub fn new(radio: Radio) -> (d: Device)
        ensures
            d.radio == radio,
            d.address_long@.len() == 0,
    {
        Device { radio, address_long: Vec::new() }
    }

    /// Start a frame in the given buffer: the device identifier and the
    /// sequence byte form the header.
    pub fn prepare_data_frame(&self, buf: Vec<u8>, seq: u8, device_id: u8,
        payload_type: PayloadType) -> (f: Frame)
        ensures
            f.buf@ == seq![device_id, seq],
            f.payload_type == payload_type,
    {
        let mut buf = buf;
        buf.clear();
        buf.push(device_id);
        buf.push(seq);
        proof {
            assert(buf@ =~= seq![device_id, seq]);
        }
        Frame { buf, payload_type }
    }

    /// Hand a finished frame to the radio.  An overlong frame comes back
    /// with `ENOSUPPORT`, a radio already transmitting answers `EBUSY`,
    /// and otherwise the buffer is borrowed until the completion event.
    pub fn transmit(&mut self, frame: Frame, cmdsta: u32, op_status: u16) -> (r: (
        ReturnCode,
        Option<Vec<u8>>,
    ))
        ensures
            final(self).address_long == old(self).address_long,
            final(self).radio.rx_queue == old(self).radio.rx_queue,
            frame.buf@.len() > MAX_TX_LENGTH ==> r.0 == ReturnCode::ENOSUPPORT && (
            r.1 matches Some(b) && b@ == frame.buf@),
            frame.buf@.len() <= MAX_TX_LENGTH && old(self).radio.tx_buf is Some ==> r.0
                == ReturnCode::EBUSY && (r.1 matches Some(b) && b@ == frame.buf@),
            frame.buf@.len() <= MAX_TX_LENGTH && old(self).radio.tx_buf is None ==> r.0
                == ReturnCode::SUCCESS && r.1 is None && (final(self).radio.tx_buf matches
                Some(b) && b@ == frame.buf@),
    {
        let len = frame.buf.len();
        self.radio.transmit(frame.buf, len, cmdsta, op_status)
    }

    /// True while the radio's power-up stands.
    pub fn is_on(&self) -> (r: bool)
        ensures
            r == self.radio.on,
    {
        self.radio.is_on()
    }

    /// Power the radio up.
    pub fn initialize(&mut self, acks: PowerUpAcks) -> (r: ReturnCode)
        requires
            old(self).radio.wf(),
        ensures
            final(self).radio.wf(),
            r == (if acks.spec_all_ok() {
                ReturnCode::SUCCESS
            } else {
                ReturnCode::FAIL
            }),
            acks.spec_all_ok() ==> final(self).radio.on,
            final(self).radio.rx_queue == old(self).radio.rx_queue,
    {
        self.radio.initialize(acks)
    }

    /// Stop the running radio operation gracefully; the stopped
    /// operation's terminal status comes back as `stopped_status`.
    pub fn send_stop_command(&mut self, cmdsta: u32, stopped_status: u16) -> (r: ReturnCode)
        ensures
            r == (if crate::rfc::spec_ack_ok(cmdsta) {
                ReturnCode::SUCCESS
            } else {
                ReturnCode::FAIL
            }),
            final(self).radio.on == old(self).radio.on,
            final(self).radio.rx_queue == old(self).radio.rx_queue,
            final(self).address_long == old(self).address_long,
    {
        self.radio.send_stop_command(cmdsta, stopped_status)
    }

    /// Abort the running radio operation at once.
    pub fn send_kill_command(&mut self, cmdsta: u32, stopped_status: u16) -> (r: ReturnCode)
        ensures
            r == (if crate::rfc::spec_ack_ok(cmdsta) {
                ReturnCode::SUCCESS
            } else {
                ReturnCode::FAIL
            }),
            final(self).radio.on == old(self).radio.on,
            final(self).radio.rx_queue == old(self).radio.rx_queue,
            final(self).address_long == old(self).address_long,
    {
        self.radio.send_kill_command(cmdsta, stopped_status)
    }

    /// Commit the device configuration.
    pub fn set_device_config(&mut self) -> (r: ReturnCode)
        ensures
            *final(self) == *old(self),
            r == ReturnCode::SUCCESS,
    {
        self.radio.config_commit()
    }

    /// Record the device's long address.
    pub fn set_address_long(&mut self, addr: Vec<u8>)
        ensures
            final(self).address_long@ == addr@,
            final(self).radio == old(self).radio,
    {
        self.address_long = addr;
    }
}

/// The radio system-call driver.
pub struct Helium {
    /// Per-process state.
    pub app: Grant<App>,
    /// The kernel's frame buffer, taken while a transmission is in
    /// flight.
    pub kernel_tx: Option<Vec<u8>>,
    /// The process whose transmission is in flight, if any.
    pub current_app: Option<usize>,
    /// The framing shim and the radio under it.
    pub device: Device,
    /// The board's 32-bit identifier; frames carry its low 8 bits.
    pub device_id: u32,
}

/// True when the grant's cell for process `i` holds a queued
/// transmission.
pub open spec fn spec_slot_has_pending(g: Grant<App>, i: int) -> bool {
    g.slot(i) matches GrantSlot::Ready(a) && a.pending_tx is Some
}

/// Every per-process callback queue only grew: what was queued stays, in
/// place, and anything new sits behind it.
pub open spec fn spec_upcalls_extended(pre: ProcessTable, post: ProcessTable) -> bool {
    &&& post.upcalls@.len() == pre.upcalls@.len()
    &&& forall|p: int|
        #![trigger post.upcalls@[p], pre.upcalls@[p]]
        0 <= p < pre.upcalls@.len() ==> pre.upcalls@[p]@.len() <= post.upcalls@[p]@.len()
            && post.upcalls@[p]@.subrange(0, pre.upcalls@[p]@.len() as int) == pre.upcalls@[p]@
}

/// The queued transmission of process `pid` can run to submission right
/// now: the entry names an encoding, the shared payload is a valid slice
/// whose framed form fits the radio, the kernel's frame buffer is home,
/// and the radio is idle.
pub open spec fn spec_tx_ready(h: Helium, procs: ProcessTable, pid: int) -> bool {
    &&& 0 <= pid < h.app.n()
    &&& (h.app.slot(pid) matches GrantSlot::Ready(a) && (a.pending_tx matches Some(entry)
        && entry.1 is Some) && (a.app_write matches Some(s) && procs.spec_slice_valid(s) && 2
        + s.len <= MAX_TX_LENGTH))
    &&& h.kernel_tx is Some
    &&& h.device.radio.tx_buf is None
}

/// An untouched table counts as extended.
proof fn lemma_upcalls_extended_refl(t: ProcessTable)
    ensures
        spec_upcalls_extended(t, t),
{
    assert forall|p: int|
        #![trigger t.upcalls@[p]]
        0 <= p < t.upcalls@.len() implies t.upcalls@[p]@.len() <= t.upcalls@[p]@.len()
        && t.upcalls@[p]@.subrange(0, t.upcalls@[p]@.len() as int) == t.upcalls@[p]@ by {
        assert(t.upcalls@[p]@.subrange(0, t.upcalls@[p]@.len() as int) =~= t.upcalls@[p]@);
    }
}

/// Untouched queues count as extended, whatever else changed.
proof fn lemma_upcalls_extended_same(pre: ProcessTable, post: ProcessTable)
    requires
        post.upcalls == pre.upcalls,
    ensures
        spec_upcalls_extended(pre, post),
{
    assert forall|p: int|
        #![trigger post.upcalls@[p], pre.upcalls@[p]]
        0 <= p < pre.upcalls@.len() implies pre.upcalls@[p]@.len() <= post.upcalls@[p]@.len()
        && post.upcalls@[p]@.subrange(0, pre.upcalls@[p]@.len() as int) == pre.upcalls@[
        p
    ]@ by {
        assert(post.upcalls@[p]@.subrange(0, pre.upcalls@[p]@.len() as int) =~= pre.upcalls@[
            p
        ]@);
    }
}

/// Appending one invocation to one queue extends the table.
proof fn lemma_upcalls_extended_push(pre: ProcessTable, post: ProcessTable, pid: int, up: Upcall)
    requires
        post.upcalls@.len() == pre.upcalls@.len(),
        0 <= pid < pre.upcalls@.len(),
        post.upcalls@[pid]@ == pre.upcalls@[pid]@.push(up),
        forall|p: int|
            0 <= p < pre.upcalls@.len() && p != pid ==> post.upcalls@[p] == pre.upcalls@[p],
    ensures
        spec_upcalls_extended(pre, post),
{
    assert forall|p: int|
        #![trigger post.upcalls@[p], pre.upcalls@[p]]
        0 <= p < pre.upcalls@.len() implies pre.upcalls@[p]@.len() <= post.upcalls@[p]@.len()
        && post.upcalls@[p]@.subrange(0, pre.upcalls@[p]@.len() as int) == pre.upcalls@[p]@ by {
        if p == pid {
            assert(post.upcalls@[p]@.subrange(0, pre.upcalls@[p]@.len() as int)
                =~= pre.upcalls@[p]@);
        } else {
            assert(post.upcalls@[p]@.subrange(0, pre.upcalls@[p]@.len() as int)
                =~= pre.upcalls@[p]@);
        }
    }
}

/// Extension composes across two steps.
proof fn lemma_upcalls_extended_trans(a: ProcessTable, b: ProcessTable, c: ProcessTable)
    requires
        spec_upcalls_extended(a, b),
        spec_upcalls_extended(b, c),
    ensures
        spec_upcalls_extended(a, c),
{
    assert forall|p: int|
        #![trigger c.upcalls@[p], a.upcalls@[p]]
        0 <= p < a.upcalls@.len() implies a.upcalls@[p]@.len() <= c.upcalls@[p]@.len()
        && c.upcalls@[p]@.subrange(0, a.upcalls@[p]@.len() as int) == a.upcalls@[p]@ by {
        let qa = a.upcalls@[p]@;
        let qb = b.upcalls@[p]@;
        let qc = c.upcalls@[p]@;
        assert(qb.subrange(0, qa.len() as int) == qa);
        assert(qc.subrange(0, qb.len() as int) == qb);
        assert forall|i: int| 0 <= i < qa.len() implies qc[i] == qa[i] by {
            assert(qa[i] == qb.subrange(0, qa.len() as int)[i]);
            assert(qb[i] == qc.subrange(0, qb.len() as int)[i]);
        }
        assert(qc.subrange(0, qa.len() as int) =~= qa);
    }
}

/// Every read share in the grant points into its own process's RAM, as
/// the system-call gate hands them out.
pub open spec fn spec_shares_self_owned(g: Grant<App>, n: int) -> bool {
    forall|j: int|
        0 <= j < n ==> match #[trigger] g.slot(j) {
            GrantSlot::Ready(a) => match a.app_read {
                Some(s) => s.pid == j,
                None => true,
            },
            _ => true,
        }
}

/// One process's share received the frame: its bytes after the first two
/// match the frame, the first two carry the data offset and length, and
/// the registered receive callback was queued once.
pub open spec fn spec_frame_delivered(
    pre: ProcessTable,
    post: ProcessTable,
    s: AppSlice,
    cb: Option<Callback>,
    i: int,
    buf: Seq<u8>,
    off: int,
    dlen: int,
) -> bool {
    &&& (forall|k: int| 2 <= k < s.len ==> post.rams@[s.pid as int]@[s.base + k] == buf[k])
    &&& (s.len > 0 ==> post.rams@[s.pid as int]@[s.base as int] == off as u8)
    &&& (s.len > 1 ==> post.rams@[s.pid as int]@[s.base + 1] == dlen as u8)
    &&& (cb matches Some(c) ==> post.upcalls@[i]@ == pre.upcalls@[i]@.push(
        Upcall { pid: i as usize, callback: c, arg0: 0, arg1: 0, arg2: 0 },
    ))
}

/// The frame such a run submits: the queued device identifier, the
/// sequence byte, then the shared payload.
pub open spec fn spec_tx_frame(h: Helium, procs: ProcessTable, pid: int) -> Seq<u8> {
    match h.app.slot(pid) {
        GrantSlot::Ready(a) => match (a.pending_tx, a.app_write) {
            (Some(entry), Some(s)) => seq![entry.0, 0u8] + procs.rams@[s.pid as int]@.subrange(
                s.base as int,
                s.base + s.len,
            ),
            _ => Seq::empty(),
        },
        _ => Seq::empty(),
    }
}

impl Helium {
    /// Build the driver around its grant, its frame buffer and the
    /// framing shim.
    pub fn new(container: Grant<App>, tx_buf: Vec<u8>, device: Device, device_id: u32) -> (h:
        Helium)
        ensures
            h.app == container,
            (h.kernel_tx matches Some(b) && b@ == tx_buf@),
            h.current_app is None,
            h.device == device,
            h.device_id == device_id,
    {
        Helium { app: container, kernel_tx: Some(tx_buf), current_app: None, device, device_id }
    }

    /// The process whose queued transmission goes next: the first one in
    /// slot order, provided the driver is idle.
    pub fn get_next_tx_if_idle(&mut self) -> (r: Option<usize>)
        ensures
            final(self).app.n() == old(self).app.n(),
            *final(self) == (Helium { app: final(self).app, ..*old(self) }),
            forall|i: int|
                0 <= i < old(self).app.n() ==> spec_slot_has_pending(final(self).app, i)
                    == spec_slot_has_pending(old(self).app, i),
            forall|i: int|
                0 <= i < old(self).app.n() && old(self).app.slot(i) is Ready ==> final(self).app.slot(i) == old(self).app.slot(i),
            old(self).current_app is Some ==> r is None && final(self).app == old(self).app,
            old(self).current_app is None ==> match r {
                Some(pid) => {
                    &&& pid < old(self).app.n()
                    &&& spec_slot_has_pending(old(self).app, pid as int)
                    &&& forall|j: int|
                        0 <= j < pid ==> !spec_slot_has_pending(old(self).app, j)
                },
                None => forall|i: int|
                    0 <= i < old(self).app.n() ==> !spec_slot_has_pending(old(self).app, i),
            },
    {
        if self.current_app.is_some() {
            return None;
        }
        let n = self.app.len();
        let mut pid: usize = 0;
        while pid < n
            invariant
                n == self.app.n(),
                n == old(self).app.n(),
                pid <= n,
                *self == (Helium { app: self.app, ..*old(self) }),
                self.current_app is None,
                forall|i: int|
                    0 <= i < n ==> spec_slot_has_pending(self.app, i) == spec_slot_has_pending(
                        old(self).app,
                        i,
                    ),
                forall|i: int|
                    0 <= i < n && old(self).app.slot(i) is Ready ==> self.app.slot(i) == old(self).app.slot(i),
                forall|j: int| 0 <= j < pid ==> !spec_slot_has_pending(old(self).app, j),
            decreases n - pid,
        {
            let ghost before = self.app;
            let entered = self.app.enter_begin(pid, App::blank());
            match entered {
                Ok(app) => {
                    let has_pending = app.pending_tx.is_some();
                    self.app.enter_end(pid, app);
                    proof {
                        assert forall|i: int|
                            0 <= i < n implies spec_slot_has_pending(self.app, i)
                            == spec_slot_has_pending(before, i) by {
                            if i == pid as int {
                                match before.slot(i) {
                                    GrantSlot::Empty => {},
                                    GrantSlot::Ready(stored) => {},
                                    GrantSlot::Borrowed => {},
                                }
                            }
                        }
                    }
                    if has_pending {
                        proof {
                            assert forall|i: int|
                                0 <= i < n implies spec_slot_has_pending(self.app, i)
                                == spec_slot_has_pending(old(self).app, i) by {}
                        }
                        return Some(pid);
                    }
                },
                Err(_) => {},
            }
            pid = pid + 1;
        }
        None
    }

    /// Read the process's shared configuration buffer for a command that
    /// needs exactly `len` bytes.  A missing, wrongly sized or invalid
    /// share answers `EINVAL`; a grant-enter failure surfaces as that
    /// error's own status code.
    pub fn do_with_cfg(&mut self, appid: usize, len: usize, procs: &ProcessTable) -> (r: Result<
        Vec<u8>,
        ReturnCode,
    >)
        ensures
            final(self).app.n() == old(self).app.n(),
            *final(self) == (Helium { app: final(self).app, ..*old(self) }),
            (r matches Ok(data) ==> data@.len() == len),
            appid >= old(self).app.n() ==> r == Result::<Vec<u8>, ReturnCode>::Err(
                ReturnCode::FAIL,
            ),
            appid < old(self).app.n() ==> match old(self).app.slot(appid as int) {
                GrantSlot::Ready(a) => match a.app_cfg {
                    Some(c) => if c.len == len && procs.spec_slice_valid(c) {
                        (r matches Ok(data) && data@ == procs.rams@[c.pid as int]@.subrange(
                            c.base as int,
                            c.base + c.len,
                        ))
                    } else {
                        r == Result::<Vec<u8>, ReturnCode>::Err(ReturnCode::EINVAL)
                    },
                    None => r == Result::<Vec<u8>, ReturnCode>::Err(ReturnCode::EINVAL),
                },
                GrantSlot::Empty => r == Result::<Vec<u8>, ReturnCode>::Err(ReturnCode::EINVAL),
                GrantSlot::Borrowed => r == Result::<Vec<u8>, ReturnCode>::Err(
                    ReturnCode::EBUSY,
                ),
            },
    {
        let entered = self.app.enter_begin(appid, App::blank());
        match entered {
            Ok(app) => {
                let r = match app.app_cfg {
                    Some(cfg) => {
                        if cfg.len != len {
                            Err(ReturnCode::EINVAL)
                        } else {
                            match procs.read_slice(cfg) {
                                Some(data) => Ok(data),
                                None => Err(ReturnCode::EINVAL),
                            }
                        }
                    },
                    None => Err(ReturnCode::EINVAL),
                };
                self.app.enter_end(appid, app);
                r
            },
            Err(e) => Err(grant_error_code(e)),
        }
    }

    /// Run the queued transmission of process `appid` and report the
    /// outcome to the caller directly.  The queued entry is consumed
    /// whatever happens; with nothing queued the call trivially succeeds.
    /// The frame is the device identifier and a sequence byte followed by
    /// the process's shared payload: a missing encoding or payload buffer
    /// answers `EINVAL`, an exhausted kernel buffer `ENOMEM`, an overlong
    /// frame `ENOSUPPORT`, a radio already transmitting `EBUSY`, and on
    /// success the driver records the process as the one in flight.
    pub fn perform_tx_sync(&mut self, appid: usize, procs: &ProcessTable, cmdsta: u32,
        op_status: u16) -> (r: ReturnCode)
        ensures
            final(self).app.n() == old(self).app.n(),
            final(self).device_id == old(self).device_id,
            final(self).device.radio.rx_queue == old(self).device.radio.rx_queue,
            r == ReturnCode::SUCCESS && (old(self).app.slot(appid as int) matches
                GrantSlot::Ready(a) && a.pending_tx is Some) ==> final(self).current_app
                == Some(appid),
            r != ReturnCode::SUCCESS ==> final(self).current_app == old(self).current_app,
            appid < old(self).app.n() && old(self).app.slot(appid as int) is Borrowed ==> r
                == ReturnCode::EBUSY,
            appid >= old(self).app.n() ==> r == ReturnCode::FAIL,
            appid < old(self).app.n() ==> match old(self).app.slot(appid as int) {
                GrantSlot::Ready(a) => final(self).app.slot(appid as int)
                    == GrantSlot::Ready(App { pending_tx: None, ..a }),
                GrantSlot::Empty => final(self).app.slot(appid as int) == GrantSlot::Ready(
                    App::spec_blank(),
                ),
                GrantSlot::Borrowed => final(self).app.slot(appid as int)
                    == GrantSlot::<App>::Borrowed,
            },
            forall|i: int|
                0 <= i < old(self).app.n() && i != appid ==> final(self).app.slot(i) == old(self).app.slot(i),
            appid < old(self).app.n() ==> match old(self).app.slot(appid as int) {
                GrantSlot::Ready(a) => match a.pending_tx {
                    Some(entry) => match a.app_write {
                        Some(s) => {
                        &&& (old(self).kernel_tx is None ==> r == ReturnCode::ENOMEM && final(self).kernel_tx is None)
                        &&& ((entry.1 is Some && old(self).kernel_tx is Some && old(self).device.radio.tx_buf is Some && procs.spec_slice_valid(s) && 2 + s.len
                            <= MAX_TX_LENGTH) ==> r == ReturnCode::EBUSY && final(self).kernel_tx is Some)
                        &&& (entry.1 is Some && old(self).kernel_tx is Some && old(self).device.radio.tx_buf is None && procs.spec_slice_valid(s) && 2 + s.len
                            <= MAX_TX_LENGTH) ==> {
                            &&& r == ReturnCode::SUCCESS
                            &&& final(self).current_app == Some(appid)
                            &&& (final(self).device.radio.tx_buf matches Some(b) && b@ == seq![
                                entry.0,
                                0u8,
                            ] + procs.rams@[s.pid as int]@.subrange(
                                s.base as int,
                                s.base + s.len,
                            ))
                            &&& final(self).kernel_tx is None
                        }
                        },
                        None => (entry.1 is Some && old(self).kernel_tx is Some) ==> r
                            == ReturnCode::EINVAL && final(self).kernel_tx is Some,
                    },
                    None => r == ReturnCode::SUCCESS && final(self).kernel_tx == old(self).kernel_tx,
                },
                GrantSlot::Empty => r == ReturnCode::SUCCESS,
                GrantSlot::Borrowed => r == ReturnCode::EBUSY,
            },
    {
        let entered = self.app.enter_begin(appid, App::blank());
        let mut app = match entered {
            Ok(a) => a,
            Err(e) => {
                return grant_error_code(e);
            },
        };
        let pending = app.pending_tx.take();
        let (device_id, payload_type) = match pending {
            Some(p) => p,
            None => {
                self.app.enter_end(appid, app);
                return ReturnCode::SUCCESS;
            },
        };
        let kbuf = match self.kernel_tx.take() {
            Some(b) => b,
            None => {
                self.app.enter_end(appid, app);
                return ReturnCode::ENOMEM;
            },
        };
        let ptype = match payload_type {
            Some(t) => t,
            None => {
                self.kernel_tx = Some(kbuf);
                self.app.enter_end(appid, app);
                return ReturnCode::EINVAL;
            },
        };
        let seq: u8 = 0;
        let mut frame = self.device.prepare_data_frame(kbuf, seq, device_id, ptype);
        let payload = match app.app_write {
            Some(s) => match procs.read_slice(s) {
                Some(d) => d,
                None => {
                    self.kernel_tx = Some(frame.buf);
                    self.app.enter_end(appid, app);
                    return ReturnCode::EINVAL;
                },
            },
            None => {
                self.kernel_tx = Some(frame.buf);
                self.app.enter_end(appid, app);
                return ReturnCode::EINVAL;
            },
        };
        let _ = frame.frame_payload(&payload);
        let (result, mbuf) = self.device.transmit(frame, cmdsta, op_status);
        match mbuf {
            Some(b) => {
                self.kernel_tx = Some(b);
            },
            None => {},
        }
        let ok = result.is_success();
        if ok {
            self.current_app = Some(appid);
        }
        self.app.enter_end(appid, app);
        result
    }

    /// Run the queued transmission of process `appid` and report a
    /// failure through the process's transmit callback instead of to the
    /// caller.
    pub fn perform_tx_async(&mut self, appid: usize, procs: &mut ProcessTable, cmdsta: u32,
        op_status: u16)
        requires
            old(procs).wf(),
        ensures
            final(procs).wf(),
            final(procs).rams == old(procs).rams,
            final(self).app.n() == old(self).app.n(),
            final(self).device.radio.rx_queue == old(self).device.radio.rx_queue,
            spec_upcalls_extended(*old(procs), *final(procs)),
            spec_tx_ready(*old(self), *old(procs), appid as int) ==> {
                &&& (final(self).device.radio.tx_buf matches Some(b) && b@ == spec_tx_frame(
                    *old(self),
                    *old(procs),
                    appid as int,
                ))
                &&& final(self).current_app == Some(appid)
                &&& final(procs).upcalls == old(procs).upcalls
            },
            (appid < old(self).app.n() && appid < old(procs).n() && old(self).kernel_tx is Some
                && old(self).device.radio.tx_buf is Some) ==> match old(self).app.slot(
                appid as int,
            ) {
                GrantSlot::Ready(a) => match (a.pending_tx, a.app_write, a.tx_callback) {
                    (Some(entry), Some(s), Some(c)) => (entry.1 is Some && old(procs).spec_slice_valid(s) && 2 + s.len <= MAX_TX_LENGTH) ==> final(procs).upcalls@[appid as int]@ == old(procs).upcalls@[appid as int]@.push(
                        Upcall {
                            pid: appid,
                            callback: c,
                            arg0: ReturnCode::EBUSY.spec_as_i32(),
                            arg1: 0,
                            arg2: 0,
                        },
                    ),
                    _ => true,
                },
                _ => true,
            },
    {
        let result = self.perform_tx_sync(appid, procs, cmdsta, op_status);
        let failed = !result.is_success();
        if failed {
            let entered = self.app.enter_begin(appid, App::blank());
            match entered {
                Ok(mut app) => {
                    let cb = app.tx_callback;
                    match cb {
                        Some(callback) => {
                            if appid < procs.rams.len() {
                                procs.schedule_upcall(
                                    Upcall {
                                        pid: appid,
                                        callback,
                                        arg0: result.as_i32(),
                                        arg1: 0,
                                        arg2: 0,
                                    },
                                );
                                proof {
                                    lemma_upcalls_extended_push(
                                        *old(procs),
                                        *procs,
                                        appid as int,
                                        Upcall {
                                            pid: appid,
                                            callback,
                                            arg0: result.spec_as_i32(),
                                            arg1: 0,
                                            arg2: 0,
                                        },
                                    );
                                }
                            } else {
                                proof {
                                    lemma_upcalls_extended_refl(*procs);
                                }
                            }
                        },
                        None => {
                            proof {
                                lemma_upcalls_extended_refl(*procs);
                            }
                        },
                    }
                    self.app.enter_end(appid, app);
                },
                Err(_) => {
                    proof {
                        lemma_upcalls_extended_refl(*procs);
                    }
                },
            }
        } else {
            proof {
                lemma_upcalls_extended_refl(*procs);
            }
        }
    }

    /// Start the next queued transmission, if any, reporting failures
    /// through callbacks.
    pub fn do_next_tx_async(&mut self, procs: &mut ProcessTable, cmdsta: u32, op_status: u16)
        requires
            old(procs).wf(),
        ensures
            final(procs).wf(),
            final(procs).rams == old(procs).rams,
            final(self).device.radio.rx_queue == old(self).device.radio.rx_queue,
            spec_upcalls_extended(*old(procs), *final(procs)),
            (old(self).current_app is Some || (forall|i: int|
                0 <= i < old(self).app.n() ==> !spec_slot_has_pending(old(self).app, i))) ==> {
                &&& final(self).kernel_tx == old(self).kernel_tx
                &&& final(self).current_app == old(self).current_app
                &&& final(self).device == old(self).device
                &&& final(procs).upcalls == old(procs).upcalls
            },
            forall|p: int|
                (old(self).current_app is None && 0 <= p && #[trigger] spec_slot_has_pending(
                    old(self).app,
                    p,
                ) && (forall|j: int| 0 <= j < p ==> !spec_slot_has_pending(old(self).app, j))
                    && spec_tx_ready(*old(self), *old(procs), p)) ==> (
                final(self).device.radio.tx_buf matches Some(b) && b@ == spec_tx_frame(
                    *old(self),
                    *old(procs),
                    p,
                )) && final(self).current_app == Some(p as usize),
    {
        let ghost pre = *self;
        let next = self.get_next_tx_if_idle();
        match next {
            Some(appid) => {
                proof {
                    assert forall|p: int|
                        (pre.current_app is None && 0 <= p && #[trigger] spec_slot_has_pending(
                            pre.app,
                            p,
                        ) && (forall|j: int| 0 <= j < p ==> !spec_slot_has_pending(pre.app, j))
                            && spec_tx_ready(pre, *old(procs), p)) implies p
                        == appid as int by {}
                }
                self.perform_tx_async(appid, procs, cmdsta, op_status)
            },
            None => {
                proof {
                    lemma_upcalls_extended_refl(*procs);
                }
            },
        }
    }

    /// Start the next queued transmission, if any.  When it belongs to
    /// the process that just queued, errors come back directly; when it
    /// belongs to another process they go through that process's
    /// callback.
    pub fn do_next_tx_sync(&mut self, new_appid: usize, procs: &mut ProcessTable, cmdsta: u32,
        op_status: u16) -> (r: ReturnCode)
        requires
            old(procs).wf(),
        ensures
            final(procs).wf(),
            final(procs).rams == old(procs).rams,
            final(self).device.radio.rx_queue == old(self).device.radio.rx_queue,
            spec_upcalls_extended(*old(procs), *final(procs)),
            (old(self).current_app is Some || (forall|i: int|
                0 <= i < old(self).app.n() ==> !spec_slot_has_pending(old(self).app, i))) ==> {
                &&& r == ReturnCode::SUCCESS
                &&& final(self).kernel_tx == old(self).kernel_tx
                &&& final(self).current_app == old(self).current_app
                &&& final(self).device == old(self).device
                &&& final(procs).upcalls == old(procs).upcalls
            },
            (old(self).current_app is None && spec_slot_has_pending(
                old(self).app,
                new_appid as int,
            ) && (forall|j: int|
                0 <= j < new_appid ==> !spec_slot_has_pending(old(self).app, j))
                && spec_tx_ready(*old(self), *old(procs), new_appid as int)) ==> {
                &&& r == ReturnCode::SUCCESS
                &&& final(self).current_app == Some(new_appid)
                &&& (final(self).device.radio.tx_buf matches Some(b) && b@ == spec_tx_frame(
                    *old(self),
                    *old(procs),
                    new_appid as int,
                ))
            },
    {
        let next = self.get_next_tx_if_idle();
        match next {
            Some(appid) => {
                if appid == new_appid {
                    let r = self.perform_tx_sync(appid, procs, cmdsta, op_status);
                    proof {
                        lemma_upcalls_extended_refl(*procs);
                    }
                    r
                } else {
                    self.perform_tx_async(appid, procs, cmdsta, op_status);
                    ReturnCode::SUCCESS
                }
            },
            None => {
                proof {
                    lemma_upcalls_extended_refl(*procs);
                }
                ReturnCode::SUCCESS
            },
        }
    }

    /// The *allow* system call: slot 0 shares the read buffer, 1 the
    /// write buffer, 2 the configuration buffer; handing in nothing
    /// revokes the earlier share.  Anything else answers `ENOSUPPORT`.
    pub fn allow(&mut self, appid: usize, allow_num: usize, slice: Option<AppSlice>) -> (r:
        ReturnCode)
        ensures
            final(self).app.n() == old(self).app.n(),
            *final(self) == (Helium { app: final(self).app, ..*old(self) }),
            allow_num > 2 ==> r == ReturnCode::ENOSUPPORT && *final(self) == *old(self),
            (allow_num <= 2 && appid < old(self).app.n() && !(old(self).app.slot(
                appid as int,
            ) is Borrowed)) ==> r == ReturnCode::SUCCESS,
            allow_num <= 2 && appid < old(self).app.n() ==> match old(self).app.slot(
                appid as int,
            ) {
                GrantSlot::Ready(app0) => final(self).app.slot(appid as int)
                    == GrantSlot::Ready(
                    if allow_num == 0 {
                        App { app_read: slice, ..app0 }
                    } else if allow_num == 1 {
                        App { app_write: slice, ..app0 }
                    } else {
                        App { app_cfg: slice, ..app0 }
                    },
                ),
                GrantSlot::Empty => final(self).app.slot(appid as int) == GrantSlot::Ready(
                    if allow_num == 0 {
                        App { app_read: slice, ..App::spec_blank() }
                    } else if allow_num == 1 {
                        App { app_write: slice, ..App::spec_blank() }
                    } else {
                        App { app_cfg: slice, ..App::spec_blank() }
                    },
                ),
                GrantSlot::Borrowed => final(self).app.slot(appid as int)
                    == GrantSlot::<App>::Borrowed,
            },
            allow_num <= 2 && r == ReturnCode::SUCCESS ==> (final(self).app.slot(
                appid as int,
            ) matches GrantSlot::Ready(app) && (if allow_num == 0 {
                app.app_read == slice
            } else if allow_num == 1 {
                app.app_write == slice
            } else {
                app.app_cfg == slice
            })),
    {
        if allow_num > 2 {
            return ReturnCode::ENOSUPPORT;
        }
        let entered = self.app.enter_begin(appid, App::blank());
        match entered {
            Ok(mut app) => {
                if allow_num == 0 {
                    app.app_read = slice;
                } else if allow_num == 1 {
                    app.app_write = slice;
                } else {
                    app.app_cfg = slice;
                }
                self.app.enter_end(appid, app);
                ReturnCode::SUCCESS
            },
            Err(e) => grant_error_code(e),
        }
    }

    /// The *subscribe* system call: slot 0 registers the receive
    /// callback, slot 1 the transmit callback.
    pub fn subscribe(&mut self, subscribe_num: usize, callback: Option<Callback>, app_id: usize)
        -> (r: ReturnCode)
        ensures
            final(self).app.n() == old(self).app.n(),
            *final(self) == (Helium { app: final(self).app, ..*old(self) }),
            subscribe_num > 1 ==> r == ReturnCode::ENOSUPPORT && *final(self) == *old(self),
            (subscribe_num <= 1 && app_id < old(self).app.n() && !(old(self).app.slot(
                app_id as int,
            ) is Borrowed)) ==> r == ReturnCode::SUCCESS,
            subscribe_num <= 1 && app_id < old(self).app.n() ==> match old(self).app.slot(
                app_id as int,
            ) {
                GrantSlot::Ready(app0) => final(self).app.slot(app_id as int)
                    == GrantSlot::Ready(
                    if subscribe_num == 0 {
                        App { rx_callback: callback, ..app0 }
                    } else {
                        App { tx_callback: callback, ..app0 }
                    },
                ),
                GrantSlot::Empty => final(self).app.slot(app_id as int) == GrantSlot::Ready(
                    if subscribe_num == 0 {
                        App { rx_callback: callback, ..App::spec_blank() }
                    } else {
                        App { tx_callback: callback, ..App::spec_blank() }
                    },
                ),
                GrantSlot::Borrowed => final(self).app.slot(app_id as int)
                    == GrantSlot::<App>::Borrowed,
            },
            subscribe_num <= 1 && r == ReturnCode::SUCCESS ==> (final(self).app.slot(
                app_id as int,
            ) matches GrantSlot::Ready(app) && (if subscribe_num == 0 {
                app.rx_callback == callback
            } else {
                app.tx_callback == callback
            })),
    {
        if subscribe_num > 1 {
            return ReturnCode::ENOSUPPORT;
        }
        let entered = self.app.enter_begin(app_id, App::blank());
        match entered {
            Ok(mut app) => {
                if subscribe_num == 0 {
                    app.rx_callback = callback;
                } else {
                    app.tx_callback = callback;
                }
                self.app.enter_end(app_id, app);
                ReturnCode::SUCCESS
            },
            Err(e) => grant_error_code(e),
        }
    }

    /// The *command* system call.  `payload_type` selects the payload
    /// encoding for a queued transmission; the co-processor's answers for
    /// any radio work arrive in `acks`, `cmdsta` and `op_status`.
    pub fn command(&mut self, command_num: usize, _addr: usize, payload_type: usize,
        appid: usize, procs: &mut ProcessTable, acks: PowerUpAcks, cmdsta: u32, op_status: u16)
        -> (r: ReturnCode)
        requires
            old(self).device.radio.wf(),
            old(procs).wf(),
        ensures
            final(procs).wf(),
            final(procs).rams == old(procs).rams,
            final(self).device.radio.wf(),
            command_num == 0 ==> r == ReturnCode::SUCCESS && *final(self) == *old(self),
            command_num == 1 ==> r == (if acks.spec_all_ok() {
                ReturnCode::SUCCESS
            } else {
                ReturnCode::FAIL
            }) && (acks.spec_all_ok() ==> final(self).device.radio.on),
            command_num == 2 ==> r == (if old(self).device.radio.on {
                ReturnCode::SUCCESS
            } else {
                ReturnCode::EOFF
            }) && *final(self) == *old(self),
            command_num == 3 || command_num == 4 ==> r == (if crate::rfc::spec_ack_ok(cmdsta) {
                ReturnCode::SUCCESS
            } else {
                ReturnCode::FAIL
            }) && final(self).device.radio.on == old(self).device.radio.on,
            command_num == 5 ==> r == ReturnCode::SUCCESS && *final(self) == *old(self),
            command_num == 6 && appid < old(self).app.n() && (old(self).app.slot(
                appid as int,
            ) matches GrantSlot::Ready(a) && a.pending_tx is Some) ==> r == ReturnCode::EBUSY,
            (command_num == 6 && appid < old(self).app.n() && old(self).current_app is None
                && (payload_type == 0 || payload_type == 1 || payload_type == 0x10) && (
            forall|j: int| 0 <= j < appid ==> !spec_slot_has_pending(old(self).app, j)))
                ==> match old(self).app.slot(appid as int) {
                GrantSlot::Ready(a) => match a.app_write {
                    Some(s) => (a.pending_tx is None && old(self).kernel_tx is Some && old(self).device.radio.tx_buf is None && old(procs).spec_slice_valid(s) && 2 + s.len
                        <= MAX_TX_LENGTH) ==> {
                        &&& r == ReturnCode::SUCCESS
                        &&& final(self).current_app == Some(appid)
                        &&& (final(self).device.radio.tx_buf matches Some(b) && b@ == seq![
                            (old(self).device_id & 0xFF) as u8,
                            0u8,
                        ] + old(procs).rams@[s.pid as int]@.subrange(
                            s.base as int,
                            s.base + s.len,
                        ))
                    },
                    None => true,
                },
                _ => true,
            },
            (command_num == 6 && appid < old(self).app.n() && !(payload_type == 0
                || payload_type == 1 || payload_type == 0x10)) ==> match old(self).app.slot(
                appid as int,
            ) {
                GrantSlot::Ready(a) => a.pending_tx is None ==> r == ReturnCode::FAIL,
                GrantSlot::Empty => r == ReturnCode::FAIL,
                GrantSlot::Borrowed => r == ReturnCode::EBUSY,
            },
            command_num == 7 && appid < old(self).app.n() ==> match old(self).app.slot(
                appid as int,
            ) {
                GrantSlot::Ready(a) => match a.app_cfg {
                    Some(c) => if c.len == 10 && old(procs).spec_slice_valid(c) {
                        &&& r == ReturnCode::SUCCESS
                        &&& final(self).device.address_long@ == old(procs).rams@[
                            c.pid as int
                        ]@.subrange(c.base as int, c.base + c.len)
                    } else {
                        r == ReturnCode::EINVAL
                    },
                    None => r == ReturnCode::EINVAL,
                },
                GrantSlot::Empty => r == ReturnCode::EINVAL,
                GrantSlot::Borrowed => r == ReturnCode::EBUSY,
            },
            command_num == 7 && appid >= old(self).app.n() ==> r == ReturnCode::FAIL,
            command_num > 8 || command_num == 8 ==> r == ReturnCode::ENOSUPPORT && *final(self)
                == *old(self),
    {
        let command = HeliumCommand::from_usize(command_num);
        match command {
            Some(HeliumCommand::DriverCheck) => ReturnCode::SUCCESS,
            Some(HeliumCommand::Initialize) => self.device.initialize(acks),
            Some(HeliumCommand::GetRadioStatus) => {
                if self.device.is_on() {
                    ReturnCode::SUCCESS
                } else {
                    ReturnCode::EOFF
                }
            },
            Some(HeliumCommand::SendStopCommand) => self.device.send_stop_command(
                cmdsta,
                op_status,
            ),
            Some(HeliumCommand::SendKillCommand) => self.device.send_kill_command(
                cmdsta,
                op_status,
            ),
            Some(HeliumCommand::SetDeviceConfig) => self.device.set_device_config(),
            Some(HeliumCommand::SetNextTx) => {
                let entered = self.app.enter_begin(appid, App::blank());
                match entered {
                    Ok(mut app) => {
                        if app.pending_tx.is_some() {
                            self.app.enter_end(appid, app);
                            return ReturnCode::EBUSY;
                        }
                        let device_id = (self.device_id & 0x000000FF) as u8;
                        let pl_type = match PayloadType::from_cmd(payload_type) {
                            Some(t) => t,
                            None => {
                                self.app.enter_end(appid, app);
                                return ReturnCode::FAIL;
                            },
                        };
                        app.pending_tx = Some((device_id, Some(pl_type)));
                        self.app.enter_end(appid, app);
                        proof {
                            match old(self).app.slot(appid as int) {
                                GrantSlot::Ready(a) => {
                                    match a.app_write {
                                        Some(s) => {
                                            if old(self).kernel_tx is Some && old(self).device.radio.tx_buf is None && procs.spec_slice_valid(
                                                s,
                                            ) && 2 + s.len <= MAX_TX_LENGTH {
                                                assert(spec_slot_has_pending(
                                                    self.app,
                                                    appid as int,
                                                ));
                                                assert(spec_tx_ready(
                                                    *self,
                                                    *procs,
                                                    appid as int,
                                                ));
                                                assert forall|j: int|
                                                    0 <= j < appid implies !spec_slot_has_pending(
                                                    self.app,
                                                    j,
                                                ) == !spec_slot_has_pending(
                                                    old(self).app,
                                                    j,
                                                ) by {
                                                    assert(self.app.slot(j) == old(self).app.slot(j));
                                                }
                                            }
                                        },
                                        None => {},
                                    }
                                },
                                _ => {},
                            }
                        }
                        self.do_next_tx_sync(appid, procs, cmdsta, op_status)
                    },
                    Err(e) => grant_error_code(e),
                }
            },
            Some(HeliumCommand::SetAddress) => {
                let cfg = self.do_with_cfg(appid, 10, procs);
                match cfg {
                    Ok(addr_long) => {
                        self.device.set_address_long(addr_long);
                        ReturnCode::SUCCESS
                    },
                    Err(code) => code,
                }
            },
            Some(HeliumCommand::Invalid) => ReturnCode::ENOSUPPORT,
            None => ReturnCode::ENOSUPPORT,
        }
    }

    /// Take the transmit buffer back from the radio, report the outcome
    /// through the owner's transmit callback, and start the next queued
    /// transmission.
    pub fn transmit_event(&mut self, buf: Vec<u8>, result: ReturnCode, procs: &mut ProcessTable,
        cmdsta: u32, op_status: u16)
        requires
            old(procs).wf(),
        ensures
            final(procs).wf(),
            final(procs).rams == old(procs).rams,
            final(self).device.radio.rx_queue == old(self).device.radio.rx_queue,
            spec_upcalls_extended(*old(procs), *final(procs)),
            (forall|i: int|
                0 <= i < old(self).app.n() ==> !spec_slot_has_pending(old(self).app, i)) ==> (
            final(self).kernel_tx matches Some(b) && b@ == buf@) && final(self).current_app
                is None,
            forall|p: int|
                (0 <= p && #[trigger] spec_slot_has_pending(old(self).app, p) && (forall|j: int|
                    0 <= j < p ==> !spec_slot_has_pending(old(self).app, j)) && spec_tx_ready(
                    (Helium { kernel_tx: Some(buf), ..*old(self) }),
                    *old(procs),
                    p,
                )) ==> (final(self).device.radio.tx_buf matches Some(b) && b@ == spec_tx_frame(
                    *old(self),
                    *old(procs),
                    p,
                )) && final(self).current_app == Some(p as usize),
            old(self).current_app matches Some(pid) ==> ((pid < old(procs).n() && pid < old(self).app.n() && pid < old(procs).upcalls@.len()) ==> match old(self).app.slot(
                pid as int,
            ) {
                GrantSlot::Ready(a) => match a.tx_callback {
                    Some(cb) => final(procs).upcalls@[pid as int]@.len() > old(procs).upcalls@[pid as int]@.len() && final(procs).upcalls@[pid as int]@[old(procs).upcalls@[pid as int]@.len() as int] == Upcall {
                        pid,
                        callback: cb,
                        arg0: result.spec_as_i32(),
                        arg1: 0,
                        arg2: 0,
                    },
                    None => true,
                },
                _ => true,
            }),
    {
        let ghost procs0 = *procs;
        self.kernel_tx = Some(buf);
        let owner = self.current_app.take();
        match owner {
            Some(appid) => {
                let entered = self.app.enter_begin(appid, App::blank());
                match entered {
                    Ok(mut app) => {
                        let cb = app.tx_callback;
                        match cb {
                            Some(callback) => {
                                if appid < procs.rams.len() {
                                    procs.schedule_upcall(
                                        Upcall {
                                            pid: appid,
                                            callback,
                                            arg0: result.as_i32(),
                                            arg1: 0,
                                            arg2: 0,
                                        },
                                    );
                                    proof {
                                        lemma_upcalls_extended_push(
                                            procs0,
                                            *procs,
                                            appid as int,
                                            Upcall {
                                                pid: appid,
                                                callback,
                                                arg0: result.spec_as_i32(),
                                                arg1: 0,
                                                arg2: 0,
                                            },
                                        );
                                    }
                                } else {
                                    proof {
                                        lemma_upcalls_extended_refl(*procs);
                                    }
                                }
                            },
                            None => {
                                proof {
                                    lemma_upcalls_extended_refl(*procs);
                                }
                            },
                        }
                        self.app.enter_end(appid, app);
                    },
                    Err(_) => {
                        proof {
                            lemma_upcalls_extended_refl(*procs);
                        }
                    },
                }
            },
            None => {
                proof {
                    lemma_upcalls_extended_refl(*procs);
                }
            },
        }
        let ghost procs1 = *procs;
        let ghost mid = *self;
        proof {
            assert forall|i: int|
                0 <= i < old(self).app.n() && old(self).app.slot(i) is Ready implies #[trigger] mid.app.slot(
                i,
            ) == old(self).app.slot(i) by {}
            assert forall|i: int|
                0 <= i < mid.app.n() implies #[trigger] spec_slot_has_pending(mid.app, i)
                == spec_slot_has_pending(old(self).app, i) by {
                match old(self).app.slot(i) {
                    GrantSlot::Ready(a0) => {},
                    GrantSlot::Empty => {},
                    GrantSlot::Borrowed => {},
                }
            }
        }
        self.do_next_tx_async(procs, cmdsta, op_status);
        proof {
            assert forall|p: int|
                (0 <= p && #[trigger] spec_slot_has_pending(old(self).app, p) && (forall|j: int|
                    0 <= j < p ==> !spec_slot_has_pending(old(self).app, j)) && spec_tx_ready(
                    (Helium { kernel_tx: Some(buf), ..*old(self) }),
                    *old(procs),
                    p,
                )) implies (self.device.radio.tx_buf matches Some(b) && b@ == spec_tx_frame(
                *old(self),
                *old(procs),
                p,
            )) && self.current_app == Some(p as usize) by {
                assert(spec_slot_has_pending(mid.app, p));
                assert(mid.app.slot(p) == old(self).app.slot(p));
                assert(spec_tx_ready(mid, procs1, p));
                assert(spec_tx_frame(mid, procs1, p) == spec_tx_frame(
                    *old(self),
                    *old(procs),
                    p,
                ));
            }
        }
        proof {
            lemma_upcalls_extended_trans(procs0, procs1, *procs);
            match old(self).current_app {
                Some(pid) => {
                    if pid < procs0.n() && pid < old(self).app.n() && pid
                        < procs0.upcalls@.len() {
                        match old(self).app.slot(pid as int) {
                            GrantSlot::Ready(a) => match a.tx_callback {
                                Some(cb2) => {
                                    let at = procs0.upcalls@[pid as int]@.len() as int;
                                    assert(procs.upcalls@[pid as int]@.subrange(
                                        0,
                                        procs1.upcalls@[pid as int]@.len() as int,
                                    ) == procs1.upcalls@[pid as int]@);
                                    assert(procs.upcalls@[pid as int]@[at]
                                        == procs1.upcalls@[pid as int]@[at]);
                                },
                                None => {},
                            },
                            _ => {},
                        }
                    }
                },
                None => {},
            }
        }
    }

    /// Deliver an arrived frame to every process that shared a receive
    /// buffer: the frame's bytes land at the front of the buffer, its
    /// first two bytes are overwritten with the data offset and length,
    /// and the process's receive callback is scheduled.  The delivery
    /// clause covers tables whose shares each point into their own
    /// process's RAM, the only kind the allow call hands out, so deliveries
    /// cannot overwrite each other.
    pub fn receive_event(&mut self, buf: &Vec<u8>, data_offset: usize, data_len: usize,
        procs: &mut ProcessTable)
        requires
            old(procs).wf(),
            data_offset + data_len <= buf@.len(),
            data_offset <= u8::MAX,
            data_len <= u8::MAX,
        ensures
            final(procs).wf(),
            final(procs).n() == old(procs).n(),
            final(self).device == old(self).device,
            final(self).kernel_tx == old(self).kernel_tx,
            final(self).current_app == old(self).current_app,
            spec_upcalls_extended(*old(procs), *final(procs)),
            (spec_shares_self_owned(old(self).app, old(self).app.n()) && old(self).app.n()
                <= old(procs).n()) ==> forall|i: int|
                0 <= i < old(self).app.n() ==> match #[trigger] old(self).app.slot(i) {
                    GrantSlot::Ready(a) => match a.app_read {
                        Some(s) => (old(procs).spec_slice_valid(s) && s.len <= data_offset
                            + data_len) ==> spec_frame_delivered(
                            *old(procs),
                            *final(procs),
                            s,
                            a.rx_callback,
                            i,
                            buf@,
                            data_offset as int,
                            data_len as int,
                        ),
                        None => true,
                    },
                    _ => true,
                },
    {
        proof {
            lemma_upcalls_extended_refl(*procs);
        }
        let n = self.app.len();
        let mut pid: usize = 0;
        while pid < n
            invariant
                procs.wf(),
                procs.n() == old(procs).n(),
                self.device == old(self).device,
                self.kernel_tx == old(self).kernel_tx,
                self.current_app == old(self).current_app,
                spec_upcalls_extended(*old(procs), *procs),
                n == old(self).app.n(),
                self.app.n() == n,
                data_offset + data_len <= buf@.len(),
                data_offset <= u8::MAX,
                data_len <= u8::MAX,
                (spec_shares_self_owned(old(self).app, old(self).app.n()) && old(self).app.n()
                    <= old(procs).n()) ==> {
                    &&& (forall|i: int|
                        0 <= i < pid ==> match #[trigger] old(self).app.slot(i) {
                            GrantSlot::Ready(a) => match a.app_read {
                                Some(s) => (old(procs).spec_slice_valid(s) && s.len
                                    <= data_offset + data_len) ==> spec_frame_delivered(
                                    *old(procs),
                                    *procs,
                                    s,
                                    a.rx_callback,
                                    i,
                                    buf@,
                                    data_offset as int,
                                    data_len as int,
                                ),
                                None => true,
                            },
                            _ => true,
                        })
                    &&& (forall|p: int|
                        pid <= p < old(procs).rams@.len() ==> procs.rams@[p] == old(
                            procs,
                        ).rams@[p])
                    &&& (forall|p: int|
                        pid <= p < old(procs).upcalls@.len() ==> procs.upcalls@[p] == old(
                            procs,
                        ).upcalls@[p])
                    &&& (forall|i: int|
                        pid <= i < n ==> #[trigger] self.app.slot(i) == old(self).app.slot(i))
                },
            decreases n - pid,
        {
            let ghost procs_before = *procs;
            let ghost app_before = self.app;
            let entered = self.app.enter_begin(pid, App::blank());
            match entered {
                Ok(mut app) => {
                    proof {
                        if spec_shares_self_owned(old(self).app, old(self).app.n()) && old(
                            self,
                        ).app.n() <= old(procs).n() {
                            match old(self).app.slot(pid as int) {
                                GrantSlot::Ready(stored) => {
                                    assert(app == stored);
                                },
                                GrantSlot::Empty => {
                                    assert(app == App::spec_blank());
                                },
                                GrantSlot::Borrowed => {
                                    assert(false);
                                },
                            }
                        }
                    }
                    let slot = app.app_read;
                    match slot {
                        Some(slice) => {
                            let total = if data_offset <= usize::MAX - data_len {
                                data_offset + data_len
                            } else {
                                usize::MAX
                            };
                            let len = if slice.len <= total {
                                slice.len
                            } else {
                                total
                            };
                            let mut data: Vec<u8> = Vec::new();
                            let mut k: usize = 0;
                            while k < len
                                invariant
                                    k <= len,
                                    len <= buf@.len(),
                                    data@.len() == k,
                                    forall|j: int| 0 <= j < k ==> data@[j] == buf@[j],
                                decreases len - k,
                            {
                                data.push(buf[k]);
                                k = k + 1;
                            }
                            let ghost filled = data@;
                            if data.len() > 0 {
                                data.set(0, data_offset as u8);
                            }
                            if data.len() > 1 {
                                data.set(1, data_len as u8);
                            }
                            proof {
                                assert forall|i: int| 2 <= i < data@.len() implies data@[i]
                                    == buf@[i] by {
                                    assert(data@[i] == filled[i]);
                                }
                            }
                            let wrote = procs.write_slice(slice, &data);
                            proof {
                                if wrote {
                                    assert forall|i: int|
                                        2 <= i < data@.len() implies procs.rams@[
                                        slice.pid as int
                                    ]@[slice.base + i] == buf@[i] by {
                                        assert(procs.rams@[slice.pid as int]@[slice.base + i]
                                            == data@[i]);
                                    }
                                    if data.len() > 0 {
                                        assert(data@[0] == data_offset as u8);
                                        assert(procs.rams@[slice.pid as int]@[slice.base + 0]
                                            == data@[0]);
                                        assert(procs.rams@[slice.pid as int]@[
                                            slice.base as int
                                        ] == data_offset as u8);
                                    }
                                    if data.len() > 1 {
                                        assert(data@[1] == data_len as u8);
                                        assert(procs.rams@[slice.pid as int]@[slice.base + 1]
                                            == data@[1]);
                                    }
                                }
                            }
                            if wrote {
                                let cb = app.rx_callback;
                                match cb {
                                    Some(callback) => {
                                        if pid < procs.rams.len() {
                                            procs.schedule_upcall(
                                                Upcall {
                                                    pid,
                                                    callback,
                                                    arg0: 0,
                                                    arg1: 0,
                                                    arg2: 0,
                                                },
                                            );
                                            proof {
                                                lemma_upcalls_extended_push(
                                                    procs_before,
                                                    *procs,
                                                    pid as int,
                                                    Upcall {
                                                        pid,
                                                        callback,
                                                        arg0: 0,
                                                        arg1: 0,
                                                        arg2: 0,
                                                    },
                                                );
                                                if procs_before.upcalls@[pid as int] == old(
                                                    procs,
                                                ).upcalls@[pid as int] && slice.pid == pid
                                                    && slice.len <= data_offset + data_len {
                                                    assert(spec_frame_delivered(
                                                        *old(procs),
                                                        *procs,
                                                        slice,
                                                        app.rx_callback,
                                                        pid as int,
                                                        buf@,
                                                        data_offset as int,
                                                        data_len as int,
                                                    ));
                                                }
                                            }
                                        }
                                    },
                                    None => {
                                        proof {
                                            if slice.pid == pid && slice.len <= data_offset
                                                + data_len {
                                                assert(spec_frame_delivered(
                                                    *old(procs),
                                                    *procs,
                                                    slice,
                                                    app.rx_callback,
                                                    pid as int,
                                                    buf@,
                                                    data_offset as int,
                                                    data_len as int,
                                                ));
                                            }
                                        }
                                    },
                                }
                            }
                        },
                        None => {},
                    }
                    proof {
                        if spec_shares_self_owned(old(self).app, old(self).app.n()) && old(
                            self,
                        ).app.n() <= old(procs).n() {
                            match old(self).app.slot(pid as int) {
                                GrantSlot::Ready(a2) => {
                                    match a2.app_read {
                                        Some(s2) => {
                                            if old(procs).spec_slice_valid(s2) && s2.len
                                                <= data_offset + data_len {
                                                assert(a2 == app);
                                                assert(spec_frame_delivered(
                                                    *old(procs),
                                                    *procs,
                                                    s2,
                                                    a2.rx_callback,
                                                    pid as int,
                                                    buf@,
                                                    data_offset as int,
                                                    data_len as int,
                                                ));
                                            }
                                        },
                                        None => {},
                                    }
                                },
                                _ => {},
                            }
                        }
                    }
                    self.app.enter_end(pid, app);
                },
                Err(_) => {
                    proof {
                        if spec_shares_self_owned(old(self).app, old(self).app.n()) && old(
                            self,
                        ).app.n() <= old(procs).n() {
                            match old(self).app.slot(pid as int) {
                                GrantSlot::Ready(stored) => {
                                    assert(false);
                                },
                                GrantSlot::Empty => {
                                    assert(false);
                                },
                                GrantSlot::Borrowed => {},
                            }
                        }
                    }
                },
            }
            proof {
                if procs.upcalls == procs_before.upcalls {
                    lemma_upcalls_extended_same(procs_before, *procs);
                }
                lemma_upcalls_extended_trans(*old(procs), procs_before, *procs);
                if spec_shares_self_owned(old(self).app, old(self).app.n()) && old(
                    self,
                ).app.n() <= old(procs).n() {
                    assert forall|i: int|
                        0 <= i < pid + 1 implies match #[trigger] old(self).app.slot(i) {
                        GrantSlot::Ready(a) => match a.app_read {
                            Some(s) => (old(procs).spec_slice_valid(s) && s.len <= data_offset
                                + data_len) ==> spec_frame_delivered(
                                *old(procs),
                                *procs,
                                s,
                                a.rx_callback,
                                i,
                                buf@,
                                data_offset as int,
                                data_len as int,
                            ),
                            None => true,
                        },
                        _ => true,
                    } by {
                        match old(self).app.slot(i) {
                            GrantSlot::Ready(a) => {
                                match a.app_read {
                                    Some(s) => {
                                        assert(s.pid == i);
                                        if i < pid {
                                            assert(procs.rams@[s.pid as int]
                                                == procs_before.rams@[s.pid as int]);
                                            assert(procs.upcalls@[i]
                                                == procs_before.upcalls@[i]);
                                        } else {
                                            assert(old(self).app.slot(pid as int)
                                                == GrantSlot::Ready(a));
                                        }
                                    },
                                    None => {},
                                }
                            },
                            _ => {},
                        }
                    }
                }
            }
            pid = pid + 1;
        }
    }
}

} // verus!
