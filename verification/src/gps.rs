//! The positioning-receiver capsule.
//!
//! The receiver speaks over the second UART.  At start-up the capsule
//! listens for one line, then sends the sentence-selection command, and
//! once that transmission completes it loads the update-rate command; the
//! four states of that bring-up are explicit.  Processes write through
//! the driver's *command* call using their shared buffer.

use vstd::prelude::*;

use crate::grant::{grant_error_code, AppSlice, Callback, Grant, GrantSlot, ProcessTable};
use crate::retcode::ReturnCode;
use crate::uart_hw::{Parameters, Parity, StopBits, UartWire, Width, UART};
use crate::uart_req::{RxRequest, TxRequest};

verus! {

/// The positioning driver's number; outside the stable set of the base
/// drivers.
pub const DRIVER_NUM: usize = 0x90004;

/// The command selectors of the positioning driver.
#[allow(non_camel_case_types)]
#[derive(Clone, Copy, Debug, PartialEq, Eq, Structural)]
pub enum COMMAND {
    /// Probe that the driver exists.
    DRIVER_CHECK,
    /// Transmit the shared buffer.
    WRITESTR,
    /// Read a line.
    READLINE,
}

impl COMMAND {
    /// The command a numeric selector names, if any.
    pub fn from_usize(n: usize) -> (r: Option<COMMAND>)
        ensures
            r == (if n == 0 {
                Some(COMMAND::DRIVER_CHECK)
            } else if n == 1 {
                Some(COMMAND::WRITESTR)
            } else if n == 2 {
                Some(COMMAND::READLINE)
            } else {
                None::<COMMAND>
            }),
    {
        match n {
            0 => Some(COMMAND::DRIVER_CHECK),
            1 => Some(COMMAND::WRITESTR),
            2 => Some(COMMAND::READLINE),
            _ => None,
        }
    }
}

/// A process's outstanding request towards the receiver.
pub struct AppRequest {
    /// The buffer the process shared.
    pub slice: Option<AppSlice>,
    /// The completion callback.
    pub callback: Option<Callback>,
    /// How many bytes of the buffer the request covers.
    pub len: usize,
}

impl AppRequest {
    /// A request with nothing set up.
    pub fn blank() -> (a: AppRequest)
        ensures
            a.slice is None,
            a.callback is None,
            a.len == 0,
    {
        AppRequest { slice: None, callback: None, len: 0 }
    }

    /// Bound the request to a length; later sends cover that many bytes.
    pub fn set_len(&mut self, len: usize)
        ensures
            *final(self) == (AppRequest { len, ..*old(self) }),
    {
        self.len = len;
    }
}

/// Per-process positioning state, kept in the grant.
pub struct App {
    /// The process's transmit request.
    pub tx: AppRequest,
}

impl App {
    /// A process's state before it has set anything up.
    pub fn blank() -> (a: App)
        ensures
            a.tx.slice is None,
            a.tx.callback is None,
            a.tx.len == 0,
    {
        App { tx: AppRequest::blank() }
    }
}

impl Default for App {
    /// The state of a process that has set nothing up.
    fn default() -> (a: App)
        ensures
            a.tx.slice is None,
            a.tx.callback is None,
            a.tx.len == 0,
    {
        App::blank()
    }
}

/// Where the receiver's bring-up stands.
#[derive(Clone, Copy, Debug, PartialEq, Eq, Structural)]
pub enum GpsState {
    /// Nothing heard yet.
    Init,
    /// One line arrived; the sentence selection goes out next.
    ReceivedOne,
    /// The sentence selection went out; its completion loads the rate.
    SentOne,
    /// Bring-up is over.
    Ready,
}

/// How far along the bring-up a state is; servicing never moves it back.
pub open spec fn spec_gps_rank(s: GpsState) -> int {
    match s {
        GpsState::Init => 0,
        GpsState::ReceivedOne => 1,
        GpsState::SentOne => 2,
        GpsState::Ready => 3,
    }
}

/// The sentence-selection command sent after the first received line.
pub open spec fn spec_pmtk_output_sentence() -> Seq<u8> {
    seq![
        36u8, 80u8, 77u8, 84u8, 75u8, 51u8, 49u8, 52u8, 44u8, 48u8, 44u8, 49u8,
        44u8, 48u8, 44u8, 49u8, 44u8, 48u8, 44u8, 48u8, 44u8, 48u8, 44u8, 48u8,
        44u8, 48u8, 44u8, 48u8, 44u8, 48u8, 44u8, 48u8, 44u8, 48u8, 44u8, 48u8,
        44u8, 48u8, 44u8, 48u8, 44u8, 48u8, 44u8, 48u8, 44u8, 48u8, 42u8, 50u8,
        56u8,
    ]
}

/// The update-rate command loaded when the selection completes.
pub open spec fn spec_pmtk_update_rate() -> Seq<u8> {
    seq![
        36u8, 80u8, 77u8, 84u8, 75u8, 50u8, 50u8, 48u8, 44u8, 49u8, 48u8, 48u8,
        48u8, 42u8, 49u8, 70u8,
    ]
}

/// Build the sentence-selection command.
pub fn pmtk_output_sentence() -> (v: Vec<u8>)
    ensures
        v@ == spec_pmtk_output_sentence(),
{
    let mut v: Vec<u8> = Vec::new();
    v.push(36);
    v.push(80);
    v.push(77);
    v.push(84);
    v.push(75);
    v.push(51);
    v.push(49);
    v.push(52);
    v.push(44);
    v.push(48);
    v.push(44);
    v.push(49);
    v.push(44);
    v.push(48);
    v.push(44);
    v.push(49);
    v.push(44);
    v.push(48);
    v.push(44);
    v.push(48);
    v.push(44);
    v.push(48);
    v.push(44);
    v.push(48);
    v.push(44);
    v.push(48);
    v.push(44);
    v.push(48);
    v.push(44);
    v.push(48);
    v.push(44);
    v.push(48);
    v.push(44);
    v.push(48);
    v.push(44);
    v.push(48);
    v.push(44);
    v.push(48);
    v.push(44);
    v.push(48);
    v.push(44);
    v.push(48);
    v.push(44);
    v.push(48);
    v.push(44);
    v.push(48);
    v.push(42);
    v.push(50);
    v.push(56);
    proof {
        assert(v@ =~= spec_pmtk_output_sentence());
    }
    v
}

/// Build the update-rate command.
pub fn pmtk_update_rate() -> (v: Vec<u8>)
    ensures
        v@ == spec_pmtk_update_rate(),
{
    let mut v: Vec<u8> = Vec::new();
    v.push(36);
    v.push(80);
    v.push(77);
    v.push(84);
    v.push(75);
    v.push(50);
    v.push(50);
    v.push(48);
    v.push(44);
    v.push(49);
    v.push(48);
    v.push(48);
    v.push(48);
    v.push(42);
    v.push(49);
    v.push(70);
    proof {
        assert(v@ =~= spec_pmtk_update_rate());
    }
    v
}

/// The line parameters the receiver speaks.
pub fn gps_params() -> (p: Parameters)
    ensures
        p.baud_rate == 9600,
        p.parity == Parity::NoParity,
        p.stop_bits == StopBits::One,
        !p.hw_flow_control,
{
    Parameters {
        baud_rate: 9600,
        width: Width::Eight,
        parity: Parity::NoParity,
        stop_bits: StopBits::One,
        hw_flow_control: false,
    }
}

/// The positioning capsule.
pub struct Gps {
    /// Where the bring-up stands.
    pub state: GpsState,
    /// The owned UART peripheral.
    pub uart: UART,
    /// The spare receive request when none is armed.
    pub rx_request: Option<RxRequest>,
    /// The spare transmit request when none is armed.
    pub tx_request: Option<TxRequest>,
    /// The process whose write is in flight, if any.
    pub tx_in_progress: Option<usize>,
    /// Per-process state.
    pub apps: Grant<App>,
}

impl Gps {
    /// Scratch space for one capsule instance: two line buffers and the
    /// two request descriptors.
    pub fn space() -> (r: (Vec<u8>, Vec<u8>, RxRequest, TxRequest))
        ensures
            r.0@.len() == 64,
            r.1@.len() == 64,
            forall|i: int| 0 <= i < 64 ==> r.0@[i] == 0u8 && r.1@[i] == 0u8,
            r.2@.buf.len() == 0,
            r.2@.index == 0,
            !r.2@.new_line_return,
            r.3.buf@.len() == 0,
            r.3.index == 0,
    {
        let mut b0: Vec<u8> = Vec::new();
        let mut b1: Vec<u8> = Vec::new();
        let mut k: usize = 0;
        while k < 64
            invariant
                k <= 64,
                b0@.len() == k,
                b1@.len() == k,
                forall|i: int| 0 <= i < k ==> b0@[i] == 0u8 && b1@[i] == 0u8,
            decreases 64 - k,
        {
            b0.push(0);
            b1.push(0);
            k = k + 1;
        }
        (b0, b1, RxRequest::new(), TxRequest::new())
    }

    /// Build the capsule around its peripheral, configured for the
    /// receiver's line parameters.
    pub fn new(uart: UART, grant: Grant<App>) -> (g: Gps)
        ensures
            g.state == GpsState::Init,
            g.rx_request is None,
            g.tx_request is None,
            g.tx_in_progress is None,
            g.uart.enabled,
            g.apps == grant,
    {
        let mut uart = uart;
        let _ = uart.configure(gps_params());
        Gps {
            state: GpsState::Init,
            uart,
            rx_request: None,
            tx_request: None,
            tx_in_progress: None,
            apps: grant,
        }
    }

    /// Give the capsule its scratch space: the receive request gets its
    /// line buffer and is armed at once; the transmit request is kept for
    /// later sends.
    pub fn set_space(&mut self, rx_buf: Vec<u8>, _tx_buf: Vec<u8>, rx_request: RxRequest,
        tx_request: TxRequest)
        ensures
            (final(self).tx_request matches Some(t) && t.buf@ == tx_request.buf@),
            old(self).uart.rx is None && !old(self).uart.receiving_word ==> (
            final(self).uart.rx matches Some(r) && r@.buf == rx_buf@ && r@.index == 0),
    {
        self.tx_request = Some(tx_request);
        let mut rx_request = rx_request;
        rx_request.set_buf(rx_buf);
        let (code, back) = self.uart.receive_buffer(rx_request);
        match back {
            Some(r) => {
                self.rx_request = Some(r);
            },
            None => {},
        }
        let _ = code;
    }

    /// Give the capsule its scratch space as one bundle.
    pub fn set_with_default_space(&mut self, space: (Vec<u8>, Vec<u8>, RxRequest, TxRequest))
        ensures
            (final(self).tx_request matches Some(t) && t.buf@ == space.3.buf@),
            old(self).uart.rx is None && !old(self).uart.receiving_word ==> (
            final(self).uart.rx matches Some(r) && r@.buf == space.0@ && r@.index == 0),
    {
        let (buf0, buf1, rx_request, tx_request) = space;
        self.set_space(buf0, buf1, rx_request, tx_request)
    }

    /// Service the peripheral and drive the bring-up.  A finished receive
    /// advances `Init` to `ReceivedOne`, or sends the sentence selection
    /// and advances `ReceivedOne` to `SentOne`; the finished line is
    /// re-armed for the next one.  A finished transmission in `SentOne`
    /// loads the update-rate command, advances to `Ready`, and sends it.
    pub fn handle_irq(&mut self, wire: &mut UartWire)
        requires
            old(wire).wf(),
        ensures
            final(wire).wf(),
            old(self).state == GpsState::Ready ==> final(self).state == GpsState::Ready,
            old(self).state == GpsState::Init ==> final(self).state == GpsState::Init || final(self).state == GpsState::ReceivedOne,
            old(self).uart.rx matches Some(req) ==> ((old(self).state == GpsState::Init
                && req@.feed(old(wire).rx_fifo@).done()) ==> final(self).state
                == GpsState::ReceivedOne),
            old(self).uart.rx matches Some(req) ==> ((old(self).state == GpsState::ReceivedOne
                && req@.feed(old(wire).rx_fifo@).done()) ==> final(self).state
                == GpsState::SentOne || final(self).state == GpsState::Ready),
            old(self).state == GpsState::SentOne && old(self).uart.rx is None ==> final(self).state == GpsState::SentOne || final(self).state == GpsState::Ready,
            spec_gps_rank(final(self).state) >= spec_gps_rank(old(self).state),
            old(self).uart.rx matches Some(req) ==> ((req@.feed(old(wire).rx_fifo@).done()
                && !old(self).uart.receiving_word) ==> (final(self).uart.rx matches Some(re)
                && re@.index == 0 && !re@.new_line_return && re@.buf == req@.feed(
                old(wire).rx_fifo@,
            ).buf)),
            old(self).uart.rx matches Some(req) ==> ((req@.feed(old(wire).rx_fifo@).done()
                && old(self).state == GpsState::ReceivedOne && old(self).tx_request is Some
                && old(self).uart.tx is None) ==> (final(self).uart.tx matches Some(t)
                && t.buf@ == spec_pmtk_output_sentence() && t.index <= 1)),
    {
        let completed = self.uart.handle_interrupt(wire);
        let (tx_complete, rx_complete) = completed;

        match rx_complete {
            Some(mut rx) => {
                match self.state {
                    GpsState::Init => {
                        self.state = GpsState::ReceivedOne;
                    },
                    GpsState::ReceivedOne => {
                        self.state = GpsState::SentOne;
                        let req = self.tx_request.take();
                        match req {
                            Some(mut tx) => {
                                tx.set(pmtk_output_sentence());
                                let (_, back) = self.uart.transmit_buffer(tx, wire);
                                match back {
                                    Some(t) => {
                                        self.tx_request = Some(t);
                                    },
                                    None => {},
                                }
                            },
                            None => {},
                        }
                    },
                    _ => {},
                }
                rx.reset();
                let (_, back) = self.uart.receive_buffer(rx);
                match back {
                    Some(r) => {
                        self.rx_request = Some(r);
                    },
                    None => {},
                }
            },
            None => {},
        }

        match tx_complete {
            Some(mut tx) => {
                match self.state {
                    GpsState::SentOne => {
                        tx.set(pmtk_update_rate());
                        self.state = GpsState::Ready;
                    },
                    _ => {},
                }
                if tx.has_some() {
                    let (_, back) = self.uart.transmit_buffer(tx, wire);
                    match back {
                        Some(t) => {
                            self.tx_request = Some(t);
                        },
                        None => {},
                    }
                } else {
                    self.tx_request = Some(tx);
                }
            },
            None => {},
        }
    }

    /// The *allow* system call: the write selector shares the process's
    /// transmit buffer; the read selector is accepted with nothing to
    /// store yet.
    pub fn allow(&mut self, appid: usize, arg2: usize, slice: Option<AppSlice>) -> (r:
        ReturnCode)
        ensures
            final(self).apps.n() == old(self).apps.n(),
            !(arg2 == 1 || arg2 == 2) ==> r == ReturnCode::ENOSUPPORT,
            ((arg2 == 1 || arg2 == 2) && appid < old(self).apps.n() && !(old(self).apps.slot(
                appid as int,
            ) is Borrowed)) ==> r == ReturnCode::SUCCESS,
            arg2 == 1 && appid < old(self).apps.n() ==> match old(self).apps.slot(
                appid as int,
            ) {
                GrantSlot::Ready(app0) => final(self).apps.slot(appid as int)
                    == GrantSlot::Ready(
                    App { tx: AppRequest { slice, ..app0.tx }, ..app0 },
                ),
                GrantSlot::Empty => true,
                GrantSlot::Borrowed => final(self).apps.slot(appid as int)
                    == GrantSlot::<App>::Borrowed,
            },
            arg2 == 1 && r == ReturnCode::SUCCESS ==> (final(self).apps.slot(
                appid as int,
            ) matches GrantSlot::Ready(app) && app.tx.slice == slice),
    {
        let cmd = COMMAND::from_usize(arg2);
        match cmd {
            Some(COMMAND::WRITESTR) => {
                let entered = self.apps.enter_begin(appid, App::blank());
                match entered {
                    Ok(mut app) => {
                        app.tx.slice = slice;
                        self.apps.enter_end(appid, app);
                        ReturnCode::SUCCESS
                    },
                    Err(e) => grant_error_code(e),
                }
            },
            Some(COMMAND::READLINE) => {
                let entered = self.apps.enter_begin(appid, App::blank());
                match entered {
                    Ok(app) => {
                        self.apps.enter_end(appid, app);
                        ReturnCode::SUCCESS
                    },
                    Err(e) => grant_error_code(e),
                }
            },
            _ => ReturnCode::ENOSUPPORT,
        }
    }

    /// The *subscribe* system call: the write selector registers the
    /// write-done callback; the read selector is accepted with nothing to
    /// register yet.
    pub fn subscribe(&mut self, arg1: usize, callback: Option<Callback>, app_id: usize) -> (r:
        ReturnCode)
        ensures
            final(self).apps.n() == old(self).apps.n(),
            !(arg1 == 1 || arg1 == 2) ==> r == ReturnCode::ENOSUPPORT,
            ((arg1 == 1 || arg1 == 2) && app_id < old(self).apps.n() && !(old(self).apps.slot(
                app_id as int,
            ) is Borrowed)) ==> r == ReturnCode::SUCCESS,
            arg1 == 1 && app_id < old(self).apps.n() ==> match old(self).apps.slot(
                app_id as int,
            ) {
                GrantSlot::Ready(app0) => final(self).apps.slot(app_id as int)
                    == GrantSlot::Ready(
                    App { tx: AppRequest { callback, ..app0.tx }, ..app0 },
                ),
                GrantSlot::Empty => true,
                GrantSlot::Borrowed => final(self).apps.slot(app_id as int)
                    == GrantSlot::<App>::Borrowed,
            },
            arg1 == 1 && r == ReturnCode::SUCCESS ==> (final(self).apps.slot(
                app_id as int,
            ) matches GrantSlot::Ready(app) && app.tx.callback == callback),
    {
        let cmd = COMMAND::from_usize(arg1);
        match cmd {
            Some(COMMAND::WRITESTR) => {
                let entered = self.apps.enter_begin(app_id, App::blank());
                match entered {
                    Ok(mut app) => {
                        app.tx.callback = callback;
                        self.apps.enter_end(app_id, app);
                        ReturnCode::SUCCESS
                    },
                    Err(e) => grant_error_code(e),
                }
            },
            Some(COMMAND::READLINE) => {
                let entered = self.apps.enter_begin(app_id, App::blank());
                match entered {
                    Ok(app) => {
                        self.apps.enter_end(app_id, app);
                        ReturnCode::SUCCESS
                    },
                    Err(e) => grant_error_code(e),
                }
            },
            _ => ReturnCode::ENOSUPPORT,
        }
    }

    /// The *command* system call: the write selector transmits the first
    /// `len` bytes of the process's shared buffer through the spare
    /// transmit request.
    pub fn command(&mut self, arg0: usize, len: usize, appid: usize, procs: &ProcessTable,
        wire: &mut UartWire) -> (r: ReturnCode)
        requires
            old(wire).wf(),
        ensures
            final(wire).wf(),
            final(self).apps.n() == old(self).apps.n(),
            arg0 == 0 ==> r == ReturnCode::SUCCESS && *final(self) == *old(self),
            arg0 == 2 ==> r == ReturnCode::SUCCESS && *final(self) == *old(self),
            arg0 > 2 ==> r == ReturnCode::ENOSUPPORT && *final(self) == *old(self),
            (arg0 == 1 && appid < old(self).apps.n() && !(old(self).apps.slot(
                appid as int,
            ) is Borrowed)) ==> r == ReturnCode::SUCCESS,
            arg0 == 1 && appid < old(self).apps.n() ==> match old(self).apps.slot(appid as int) {
                GrantSlot::Ready(a) => match a.tx.slice {
                    Some(s) => {
                        let n = if len <= s.len {
                            len as int
                        } else {
                            s.len as int
                        };
                        (procs.spec_slice_valid(AppSlice { pid: s.pid, base: s.base, len: n as usize })
                            && old(self).tx_request is Some && old(self).uart.tx is None) ==> {
                            let data = procs.rams@[s.pid as int]@.subrange(s.base as int, s.base + n);
                            &&& (final(self).uart.tx matches Some(t) && t.buf@ == data)
                            &&& final(self).tx_in_progress == Some(appid)
                        }
                    },
                    None => true,
                },
                _ => true,
            },
    {
        let cmd = COMMAND::from_usize(arg0);
        match cmd {
            Some(COMMAND::DRIVER_CHECK) => ReturnCode::SUCCESS,
            Some(COMMAND::WRITESTR) => {
                let entered = self.apps.enter_begin(appid, App::blank());
                match entered {
                    Ok(mut app) => {
                        app.tx.set_len(len);
                        let req = self.tx_request.take();
                        match req {
                            Some(mut request) => {
                                request.reset();
                                let filled = match app.tx.slice {
                                    Some(s) => {
                                        let n = if len <= s.len {
                                            len
                                        } else {
                                            s.len
                                        };
                                        procs.read_slice(
                                            AppSlice { pid: s.pid, base: s.base, len: n },
                                        )
                                    },
                                    None => None,
                                };
                                match filled {
                                    Some(data) => {
                                        request.set(data);
                                        let (_, back) = self.uart.transmit_buffer(
                                            request,
                                            wire,
                                        );
                                        match back {
                                            Some(t) => {
                                                self.tx_request = Some(t);
                                            },
                                            None => {
                                                self.tx_in_progress = Some(appid);
                                            },
                                        }
                                    },
                                    None => {
                                        self.tx_request = Some(request);
                                    },
                                }
                            },
                            None => {},
                        }
                        self.apps.enter_end(appid, app);
                        ReturnCode::SUCCESS
                    },
                    Err(_) => ReturnCode::FAIL,
                }
            },
            Some(COMMAND::READLINE) => ReturnCode::SUCCESS,
            None => ReturnCode::ENOSUPPORT,
        }
    }
}

} // verus!
