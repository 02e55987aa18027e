//! The console capsule: the system-call surface over the UART peripherals.
//!
//! Each peripheral carries per-process grant state, a write path that
//! serialises one in-flight transmission across all processes, and a read
//! path.  A process shares its buffers through *allow*, registers
//! completion callbacks through *subscribe*, and starts transfers through
//! *command*; completions schedule the callbacks with status zero.

use vstd::prelude::*;

use crate::grant::{grant_error_code, AppSlice, Callback, Grant, GrantSlot, ProcessTable, Upcall};
use crate::retcode::ReturnCode;
use crate::uart_hw::{
    spec_tx_chunk, spec_tx_sent, Parameters, Parity, StopBits, UartWire, Width, UART,
};
use crate::mux::UartMux;
use crate::uart_req::TxRequest;

verus! {

/// The console's stable driver number.
pub const DRIVER_NUM: usize = 1;

/// Per-process console state, kept in the grant.
pub struct App {
    /// Callback for a finished write.
    pub write_callback: Option<Callback>,
    /// The buffer the process shared for writing.
    pub write_buffer: Option<AppSlice>,
    /// Length of the write in progress.
    pub write_len: usize,
    /// Bytes that did not fit and still wait.
    pub write_remaining: usize,
    /// A write sits queued behind another process.
    pub pending_write: bool,
    /// Callback for a finished read.
    pub read_callback: Option<Callback>,
    /// The buffer the process shared for reading.
    pub read_buffer: Option<AppSlice>,
    /// Length of the read in progress.
    pub read_len: usize,
}

impl App {
    /// The state of a process that has set nothing up.
    pub open spec fn spec_blank() -> App {
        App {
            write_callback: None,
            write_buffer: None,
            write_len: 0,
            write_remaining: 0,
            pending_write: false,
            read_callback: None,
            read_buffer: None,
            read_len: 0,
        }
    }

    /// A process's state before it has set anything up.
    pub fn blank() -> (a: App)
        ensures
            a == App::spec_blank(),
    {
        App {
            write_callback: None,
            write_buffer: None,
            write_len: 0,
            write_remaining: 0,
            pending_write: false,
            read_callback: None,
            read_buffer: None,
            read_len: 0,
        }
    }
}

impl Default for App {
    /// The state of a process that has set nothing up.
    fn default() -> (a: App)
        ensures
            a == App::spec_blank(),
    {
        App::blank()
    }
}

/// The default line parameters of the console.
pub fn default_params() -> (p: Parameters)
    ensures
        p.baud_rate == 115200,
        p.width == Width::Eight,
        p.parity == Parity::NoParity,
        p.stop_bits == StopBits::One,
        !p.hw_flow_control,
{
    Parameters {
        baud_rate: 115200,
        width: Width::Eight,
        parity: Parity::NoParity,
        stop_bits: StopBits::One,
        hw_flow_control: false,
    }
}

/// What polling the mux of one peripheral does, stated between the
/// before and after states of that peripheral and its wire.  A busy
/// peripheral, a missing mux, or an empty round changes nothing; else the
/// first pending request in round-robin order from the cursor leaves its
/// client's queue, is armed with its first byte sent when the FIFO has
/// room, the cursor moves just past the served client, and the
/// transmission is marked as the mux's.
pub open spec fn spec_arm_post(
    pre: Uart,
    pre_wire: UartWire,
    post: Uart,
    post_wire: UartWire,
) -> bool {
    let idle = pre.hw.tx is None && pre.current_tx_client is None && pre.mux_tx_client
        is None;
    &&& (!idle ==> post == pre && post_wire == pre_wire)
    &&& (idle && pre.mux is None ==> post == pre && post_wire == pre_wire)
    &&& (pre.mux matches Some(m) ==> (idle ==> (match m.spec_scan(0) {
        None => post == pre && post_wire == pre_wire,
        Some(i) => {
            let head = m.clients@[i]@[0];
            &&& (post.mux matches Some(m2) && m2.clients@[i]@ == m.clients@[i]@.drop_first()
                && (forall|j: int| 0 <= j < m.n() && j != i ==> m2.clients@[j] == m.clients@[j])
                && m2.next_index == (if i + 1 < m.n() {
                i + 1
            } else {
                0
            }))
            &&& post.mux_tx_client == Some(i as usize)
            &&& post.current_tx_client is None
            &&& post.apps == pre.apps
            &&& (if pre_wire.tx_fifo@.len() < pre_wire.tx_capacity && head.buf@.len() > 0 {
                (post.hw.tx matches Some(t) && t.buf@ == head.buf@ && t.index == 1)
                    && post_wire.tx_fifo@ == pre_wire.tx_fifo@.push(head.buf@[0])
            } else {
                (post.hw.tx matches Some(t) && t.buf@ == head.buf@ && t.index == 0)
                    && post_wire.tx_fifo@ == pre_wire.tx_fifo@
            })
            &&& post.hw.int_tx && post.hw.int_eot
        },
    })))
}

/// What servicing one console peripheral does, stated between the
/// before and after states of the peripheral, its wire, and the process
/// table.  The receive FIFO drains into the armed request per the feed
/// model (this console drops a finished receive); remaining transmit
/// bytes move to the FIFO while it has room; a completed write clears the
/// in-flight marks, and when its owner is a process with a registered
/// write callback, that callback's invocation is queued with status zero.
/// A completed mux-armed transmission queues nothing.
pub open spec fn spec_service_post(
    pre: Uart,
    pre_wire: UartWire,
    post: Uart,
    post_wire: UartWire,
    pre_procs: ProcessTable,
    post_procs: ProcessTable,
) -> bool {
    let completes = pre.spec_tx_completes(pre_wire);
    &&& post.apps.n() == pre.apps.n()
    &&& (pre.mux_tx_client is None || !completes ==> post.mux == pre.mux)
    &&& post.current_rx_client == pre.current_rx_client
    &&& post.hw.num == pre.hw.num
    &&& post.hw.receiving_word == pre.hw.receiving_word
    &&& post.hw.enabled == pre.hw.enabled
    &&& post_wire.tx_capacity == pre_wire.tx_capacity
    &&& post_procs.wf() == pre_procs.wf()
    &&& post_procs.n() == pre_procs.n()
    &&& post_procs.rams == pre_procs.rams
    &&& (pre.hw.rx is None ==> post.hw.rx is None && post_wire.rx_fifo@ == pre_wire.rx_fifo@
        && post.hw.int_rx == pre.hw.int_rx && post.hw.int_rx_timeout == pre.hw.int_rx_timeout)
    &&& (pre.hw.rx matches Some(req) ==> {
        let fed = req@.feed(pre_wire.rx_fifo@);
        &&& post_wire.rx_fifo@ == pre_wire.rx_fifo@.skip(req@.feed_count(pre_wire.rx_fifo@))
        &&& (fed.done() ==> post.hw.rx is None && !post.hw.int_rx && !post.hw.int_rx_timeout)
        &&& (!fed.done() ==> (post.hw.rx matches Some(kept) && kept@ == fed) && post.hw.int_rx
            == pre.hw.int_rx && post.hw.int_rx_timeout == pre.hw.int_rx_timeout)
    })
    &&& (pre.hw.tx is None ==> post.hw.tx is None && post_wire.tx_fifo@ == pre_wire.tx_fifo@
        && post.current_tx_client == pre.current_tx_client && post.mux_tx_client
        == pre.mux_tx_client && post.mux == pre.mux && post.hw.int_tx == pre.hw.int_tx
        && post.hw.int_eot == pre.hw.int_eot)
    &&& (pre.hw.tx matches Some(t) ==> {
        let space = pre_wire.tx_capacity - pre_wire.tx_fifo@.len();
        let idx2 = t.index + spec_tx_sent(t, space);
        &&& post_wire.tx_fifo@ == pre_wire.tx_fifo@ + spec_tx_chunk(t, space)
        &&& (idx2 >= t.buf@.len() ==> post.hw.tx is None && !post.hw.int_tx && !post.hw.int_eot
            && post.mux_tx_client is None && (if pre.mux_tx_client is Some {
            post.current_tx_client == pre.current_tx_client
        } else {
            post.current_tx_client is None
        }))
        &&& (idx2 >= t.buf@.len() ==> match pre.mux_tx_client {
            Some(c) => match pre.mux {
                Some(m) => (post.mux matches Some(m2) && m2.clients == m.clients
                    && m2.next_index == m.next_index && m2.finished@.len()
                    == m.finished@.len()) && (c < m.finished@.len() ==> (
                post.mux matches Some(m2) && m2.finished@[c as int]@.len() == m.finished@[
                    c as int
                ]@.len() + 1 && m2.finished@[c as int]@.last().buf@ == t.buf@
                    && m2.finished@[c as int]@.last().index == idx2 && m2.finished@[
                    c as int
                ]@.subrange(0, m.finished@[c as int]@.len() as int) == m.finished@[c as int]@
                    && (forall|j: int|
                    0 <= j < m.finished@.len() && j != c ==> m2.finished@[j] == m.finished@[
                        j
                    ]))) && (c >= m.finished@.len() ==> (post.mux matches Some(m2)
                    && m2.finished == m.finished)),
                None => post.mux is None,
            },
            None => post.mux == pre.mux,
        })
        &&& (idx2 < t.buf@.len() ==> (post.hw.tx matches Some(kept) && kept.buf@ == t.buf@
            && kept.index == idx2) && post.current_tx_client == pre.current_tx_client
            && post.mux_tx_client == pre.mux_tx_client && post.hw.int_tx == pre.hw.int_tx
            && post.hw.int_eot == pre.hw.int_eot)
    })
    &&& (pre.current_tx_client matches Some(pid) ==> ((completes && pre.mux_tx_client is None
        && pid < pre_procs.n() && pid < pre.apps.n()) ==> match pre.apps.slot(pid as int) {
        GrantSlot::Ready(app) => match app.write_callback {
            Some(cb) => post_procs.upcalls@[pid as int]@ == pre_procs.upcalls@[
                pid as int
            ]@.push(Upcall { pid, callback: cb, arg0: 0, arg1: 0, arg2: 0 }),
            None => post_procs.upcalls == pre_procs.upcalls,
        },
        _ => post_procs.upcalls == pre_procs.upcalls,
    }))
    &&& (!completes ==> post_procs.upcalls == pre_procs.upcalls)
    &&& (completes && pre.mux_tx_client is Some ==> post_procs.upcalls == pre_procs.upcalls)
    &&& (completes && pre.current_tx_client is None ==> post_procs.upcalls == pre_procs.upcalls)
}

/// UART mux fairness, assembled at the console: when an idle
/// peripheral's arming step runs over two always-ready mux clients, it
/// serves the poll cursor's client and moves the cursor just past it, so
/// two consecutive armings serve the two clients alternately.
pub proof fn lemma_console_mux_alternates(
    pre1: Uart,
    w1: UartWire,
    post1: Uart,
    w1b: UartWire,
    pre2: Uart,
    w2: UartWire,
    post2: Uart,
    w2b: UartWire,
)
    requires
        spec_arm_post(pre1, w1, post1, w1b),
        spec_arm_post(pre2, w2, post2, w2b),
        pre1.hw.tx is None && pre1.current_tx_client is None && pre1.mux_tx_client is None,
        pre2.hw.tx is None && pre2.current_tx_client is None && pre2.mux_tx_client is None,
        pre1.mux is Some && pre1.mux.unwrap().wf() && pre1.mux.unwrap().n() == 2
            && pre1.mux.unwrap().ready(0) && pre1.mux.unwrap().ready(1),
        pre2.mux is Some && pre2.mux.unwrap().wf() && pre2.mux.unwrap().n() == 2
            && pre2.mux.unwrap().ready(0) && pre2.mux.unwrap().ready(1),
        pre2.mux.unwrap().next_index == (if pre1.mux.unwrap().next_index + 1 < 2 {
            pre1.mux.unwrap().next_index + 1
        } else {
            0
        }),
    ensures
        ({
            let m1 = pre1.mux.unwrap();
            let m2 = pre2.mux.unwrap();
            &&& post1.mux_tx_client == Some(m1.next_index)
            &&& post2.mux_tx_client == Some(m2.next_index)
            &&& post1.mux_tx_client != post2.mux_tx_client
        }),
{
    let m1 = pre1.mux.unwrap();
    let m2 = pre2.mux.unwrap();
    crate::mux::lemma_mux_two_ready_alternates(m1, m2);
}

/// One console peripheral with its per-process state and, where the
/// board shares it, the kernel-side clients behind the round-robin mux.
pub struct Uart {
    /// The peripheral driver.
    pub hw: UART,
    /// Per-process console state.
    pub apps: Grant<App>,
    /// The process whose write is in flight, if any.
    pub current_tx_client: Option<usize>,
    /// The process whose read is in flight, if any.
    pub current_rx_client: Option<usize>,
    /// The kernel-side clients multiplexed onto this peripheral, if any.
    pub mux: Option<UartMux>,
    /// The mux client whose transmission is in flight, if any.
    pub mux_tx_client: Option<usize>,
}

impl Uart {
    /// While neither a process's write nor a mux client's transmission
    /// is in flight, the peripheral holds no armed transmission.
    pub open spec fn wf(self) -> bool {
        self.current_tx_client is None && self.mux_tx_client is None ==> self.hw.tx is None
    }

    /// Wrap a peripheral, configure its line to the console default, and
    /// attach the per-process state and the board's mux clients, if any.
    pub fn new(hw: UART, mux: Option<UartMux>, apps: Grant<App>) -> (u: Uart)
        requires
            hw.tx is None,
        ensures
            u.wf(),
            u.mux == mux,
            u.mux_tx_client is None,
            u.hw == (crate::uart_hw::UART {
                ibrd: (crate::uart_hw::spec_baud_divisor(115200) / 64) as u32,
                fbrd: (crate::uart_hw::spec_baud_divisor(115200) % 64) as u32,
                width: Width::Eight,
                fifo_enabled: true,
                enabled: true,
                int_rx: false,
                int_tx: false,
                int_rx_timeout: false,
                int_eot: false,
                ..hw
            }),
            u.apps == apps,
            u.current_tx_client is None,
            u.current_rx_client is None,
    {
        let mut hw = hw;
        let _ = hw.configure(default_params());
        Uart {
            hw,
            apps,
            current_tx_client: None,
            current_rx_client: None,
            mux,
            mux_tx_client: None,
        }
    }

    /// Arm the peripheral with a prepared request.
    pub fn write_buffer(&mut self, tx: TxRequest, wire: &mut UartWire) -> (r: (
        ReturnCode,
        Option<TxRequest>,
    ))
        requires
            old(wire).wf(),
        ensures
            final(wire).wf(),
            final(self).apps == old(self).apps,
            final(self).mux == old(self).mux,
            final(self).mux_tx_client == old(self).mux_tx_client,
            final(self).current_tx_client == old(self).current_tx_client,
            final(self).current_rx_client == old(self).current_rx_client,
            final(self).hw.rx == old(self).hw.rx,
            final(wire).rx_fifo@ == old(wire).rx_fifo@,
            final(wire).tx_capacity == old(wire).tx_capacity,
            old(self).hw.tx is Some ==> r.0 == ReturnCode::EBUSY && *final(self) == *old(self)
                && *final(wire) == *old(wire),
            old(self).hw.tx is None ==> r.0 == ReturnCode::SUCCESS && (
            final(self).hw.tx matches Some(kept) && kept.buf@ == tx.buf@),
    {
        let r = self.hw.transmit_buffer(tx, wire);
        r
    }

    /// Start a new write for a process: the shared write buffer's first
    /// `len` bytes (at most the buffer's length) go on the wire.  A write
    /// already in flight for any process answers `EBUSY`; a missing or
    /// invalid shared buffer answers `EINVAL`.
    pub fn send_new(&mut self, app_id: usize, app: &mut App, len: usize, procs: &ProcessTable,
        wire: &mut UartWire) -> (r: ReturnCode)
        requires
            old(wire).wf(),
            old(self).wf(),
        ensures
            final(wire).wf(),
            final(self).wf(),
            *final(app) == *old(app),
            final(self).apps == old(self).apps,
            final(self).current_rx_client == old(self).current_rx_client,
            final(self).mux == old(self).mux,
            final(self).mux_tx_client == old(self).mux_tx_client,
            old(self).current_tx_client is Some || old(self).mux_tx_client is Some ==> {
                &&& r == ReturnCode::EBUSY
                &&& *final(self) == *old(self)
                &&& *final(wire) == *old(wire)
            },
            old(self).current_tx_client is None && old(self).mux_tx_client is None ==> match old(
                app,
            ).write_buffer {
                None => {
                    &&& r == ReturnCode::EINVAL
                    &&& *final(self) == *old(self)
                    &&& *final(wire) == *old(wire)
                },
                Some(s) => {
                    if !procs.spec_slice_valid(s) {
                        &&& r == ReturnCode::EINVAL
                        &&& *final(self) == *old(self)
                        &&& *final(wire) == *old(wire)
                    } else {
                        let n = if len <= s.len {
                            len as int
                        } else {
                            s.len as int
                        };
                        let data = procs.rams@[s.pid as int]@.subrange(
                            s.base as int,
                            s.base + n,
                        );
                        &&& r == ReturnCode::SUCCESS
                        &&& final(self).current_tx_client == Some(app_id)
                        &&& final(wire).rx_fifo@ == old(wire).rx_fifo@
                        &&& final(wire).tx_capacity == old(wire).tx_capacity
                        &&& final(self).hw.rx == old(self).hw.rx
                        &&& (if old(wire).tx_fifo@.len() < old(wire).tx_capacity && n > 0 {
                            (final(self).hw.tx matches Some(t) && t.buf@ == data && t.index
                                == 1) && final(wire).tx_fifo@ == old(wire).tx_fifo@.push(
                                data[0],
                            )
                        } else {
                            (final(self).hw.tx matches Some(t) && t.buf@ == data && t.index
                                == 0) && final(wire).tx_fifo@ == old(wire).tx_fifo@
                        })
                    }
                },
            },
    {
        if self.current_tx_client.is_some() || self.mux_tx_client.is_some() {
            return ReturnCode::EBUSY;
        }
        let slice = match app.write_buffer {
            Some(s) => s,
            None => {
                return ReturnCode::EINVAL;
            },
        };
        if !procs.slice_valid(slice) {
            return ReturnCode::EINVAL;
        }
        let n = if len <= slice.len {
            len
        } else {
            slice.len
        };
        let data = match procs.read_slice(AppSlice { pid: slice.pid, base: slice.base, len: n }) {
            Some(d) => d,
            None => {
                proof {
                    assert(false);
                }
                return ReturnCode::EINVAL;
            },
        };
        let mut req = TxRequest::new();
        req.set(data);
        let sent = self.hw.transmit_buffer(req, wire);
        match sent {
            (_, Some(_)) => {
                proof {
                    assert(false);
                }
                ReturnCode::FAIL
            },
            (_, None) => {
                self.current_tx_client = Some(app_id);
                ReturnCode::SUCCESS
            },
        }
    }

    /// True when servicing the peripheral now would empty the armed
    /// transmission: every remaining byte fits into the FIFO's free room.
    pub open spec fn spec_tx_completes(self, wire: UartWire) -> bool {
        self.hw.tx matches Some(t) && t.index + crate::uart_hw::spec_tx_sent(
            t,
            wire.tx_capacity - wire.tx_fifo@.len(),
        ) >= t.buf@.len()
    }

    /// Service the peripheral: drain its FIFOs, and on a finished write
    /// schedule the owner's write callback with status zero and release
    /// the write path for the next process.  A finished mux-armed
    /// transmission goes back to its owning client's hand-back queue.
    /// This console offers no buffered read, so a finished receive is
    /// dropped.
    pub fn handle_interrupt(&mut self, wire: &mut UartWire, procs: &mut ProcessTable)
        requires
            old(wire).wf(),
            old(procs).wf(),
        ensures
            final(wire).wf(),
            final(procs).wf(),
            old(self).wf() ==> final(self).wf(),
            spec_service_post(*old(self), *old(wire), *final(self), *final(wire), *old(procs), *final(procs)),
    {
        let completed = self.hw.handle_interrupt(wire);
        let (tx_done, _rx_done) = completed;
        match tx_done {
            Some(finished_req) => {
                match self.mux_tx_client.take() {
                    Some(client) => {
                        let m_opt = self.mux.take();
                        match m_opt {
                            Some(mut m) => {
                                let ghost m0 = m;
                                let ghost handed = finished_req;
                                m.hand_back(client, finished_req);
                                proof {
                                    if (client as int) < m0.finished@.len() {
                                        let q0 = m0.finished@[client as int]@;
                                        let q1 = m.finished@[client as int]@;
                                        assert(q1 == q0.push(handed));
                                        assert(q1.last() == handed);
                                        assert(q1.subrange(0, q0.len() as int) =~= q0);
                                    }
                                }
                                self.mux = Some(m);
                            },
                            None => {},
                        }
                        return ;
                    },
                    None => {},
                }
                let owner = self.current_tx_client.take();
                match owner {
                    Some(pid) => {
                        if pid < procs.rams.len() {
                            let entered = self.apps.enter_begin(pid, App::blank());
                            match entered {
                                Ok(app) => {
                                    match app.write_callback {
                                        Some(cb) => {
                                            procs.schedule_upcall(
                                                Upcall {
                                                    pid,
                                                    callback: cb,
                                                    arg0: 0,
                                                    arg1: 0,
                                                    arg2: 0,
                                                },
                                            );
                                        },
                                        None => {},
                                    }
                                    self.apps.enter_end(pid, app);
                                },
                                Err(_) => {},
                            }
                        }
                    },
                    None => {},
                }
            },
            None => {},
        }
    }
}

/// The console driver: every console peripheral of the platform.
pub struct UartDriver {
    /// The wrapped peripherals; system calls address the first.
    pub uart: Vec<Uart>,
}

impl UartDriver {
    /// Wrap the platform's console peripherals.
    pub fn new(uarts: Vec<Uart>) -> (d: UartDriver)
        ensures
            d.uart == uarts,
    {
        UartDriver { uart: uarts }
    }

    /// Service one peripheral's interrupt.
    pub fn handle_interrupt(&mut self, peripheral_index: usize, wire: &mut UartWire,
        procs: &mut ProcessTable)
        requires
            peripheral_index < old(self).uart@.len(),
            old(wire).wf(),
            old(procs).wf(),
        ensures
            final(self).uart@.len() == old(self).uart@.len(),
            final(wire).wf(),
            final(procs).wf(),
            old(self).uart@[peripheral_index as int].wf() ==> final(self).uart@[
                peripheral_index as int
            ].wf(),
            spec_service_post(
                old(self).uart@[peripheral_index as int],
                *old(wire),
                final(self).uart@[peripheral_index as int],
                *final(wire),
                *old(procs),
                *final(procs),
            ),
            forall|i: int|
                0 <= i < old(self).uart@.len() && i != peripheral_index ==> final(self).uart@[i]
                    == old(self).uart@[i],
    {
        let mut u = self.uart.remove(peripheral_index);
        u.handle_interrupt(wire, procs);
        self.uart.insert(peripheral_index, u);
        proof {
            assert forall|i: int|
                0 <= i < old(self).uart@.len() && i != peripheral_index implies self.uart@[i]
                == old(self).uart@[i] by {}
        }
    }

    /// Poll the mux clients of one idle peripheral round robin and arm
    /// the first pending request, marking it in flight; §4.5's fan-out is
    /// this step run after each completion.  A busy peripheral, a
    /// peripheral without mux clients, or an empty round leaves
    /// everything as it was.
    pub fn arm_next_from_mux(&mut self, peripheral_index: usize, wire: &mut UartWire)
        requires
            peripheral_index < old(self).uart@.len(),
            old(wire).wf(),
            old(self).uart@[peripheral_index as int].mux matches Some(m) ==> m.wf(),
        ensures
            final(self).uart@.len() == old(self).uart@.len(),
            final(wire).wf(),
            final(wire).rx_fifo@ == old(wire).rx_fifo@,
            final(wire).tx_capacity == old(wire).tx_capacity,
            final(self).uart@[peripheral_index as int].mux matches Some(m2) ==> m2.wf(),
            forall|i: int|
                0 <= i < old(self).uart@.len() && i != peripheral_index ==> final(self).uart@[i]
                    == old(self).uart@[i],
            spec_arm_post(
                old(self).uart@[peripheral_index as int],
                *old(wire),
                final(self).uart@[peripheral_index as int],
                *final(wire),
            ),
    {
        let mut u = self.uart.remove(peripheral_index);
        let idle = u.hw.tx.is_none() && u.current_tx_client.is_none() && u.mux_tx_client.is_none();
        if idle {
            let mux_opt = u.mux.take();
            match mux_opt {
                Some(mut m) => {
                    let picked = m.get_tx();
                    match picked {
                        Some((client, req)) => {
                            let mut req = req;
                            req.reset();
                            let (_, back) = u.hw.transmit_buffer(req, wire);
                            match back {
                                Some(_) => {
                                    proof {
                                        assert(false);
                                    }
                                },
                                None => {
                                    u.mux_tx_client = Some(client);
                                },
                            }
                        },
                        None => {},
                    }
                    u.mux = Some(m);
                },
                None => {},
            }
        }
        self.uart.insert(peripheral_index, u);
    }

    /// The *allow* system call: slot 1 shares the write buffer, slot 2
    /// the read buffer; handing in nothing revokes the earlier share.
    /// Anything else answers `ENOSUPPORT`.
    pub fn allow(&mut self, appid: usize, allow_num: usize, slice: Option<AppSlice>) -> (r:
        ReturnCode)
        requires
            old(self).uart@.len() > 0,
        ensures
            final(self).uart@.len() == old(self).uart@.len(),
            final(self).uart@[0].hw == old(self).uart@[0].hw,
            final(self).uart@[0].current_tx_client == old(self).uart@[0].current_tx_client,
            final(self).uart@[0].mux == old(self).uart@[0].mux,
            final(self).uart@[0].mux_tx_client == old(self).uart@[0].mux_tx_client,
            forall|i: int|
                1 <= i < old(self).uart@.len() ==> final(self).uart@[i] == old(self).uart@[i],
            !(allow_num == 1 || allow_num == 2) ==> r == ReturnCode::ENOSUPPORT && *final(self)
                == *old(self),
            ((allow_num == 1 || allow_num == 2) && appid < old(self).uart@[0].apps.n() && !(old(self).uart@[0].apps.slot(appid as int) is Borrowed)) ==> r == ReturnCode::SUCCESS,
            (allow_num == 1 || allow_num == 2) && r == ReturnCode::SUCCESS ==> (
            final(self).uart@[0].apps.slot(appid as int) matches GrantSlot::Ready(app) && (if
                allow_num == 1 {
                app.write_buffer == slice
            } else {
                app.read_buffer == slice
            })),
    {
        if allow_num != 1 && allow_num != 2 {
            return ReturnCode::ENOSUPPORT;
        }
        let mut u = self.uart.remove(0);
        let entered = u.apps.enter_begin(appid, App::blank());
        let r = match entered {
            Ok(mut app) => {
                if allow_num == 1 {
                    app.write_buffer = slice;
                } else {
                    app.read_buffer = slice;
                }
                u.apps.enter_end(appid, app);
                ReturnCode::SUCCESS
            },
            Err(e) => grant_error_code(e),
        };
        self.uart.insert(0, u);
        r
    }

    /// The *subscribe* system call: slot 1 registers the write-done
    /// callback, slot 2 the read-done callback.
    pub fn subscribe(&mut self, subscribe_num: usize, callback: Option<Callback>, app_id: usize)
        -> (r: ReturnCode)
        requires
            old(self).uart@.len() > 0,
        ensures
            final(self).uart@.len() == old(self).uart@.len(),
            final(self).uart@[0].hw == old(self).uart@[0].hw,
            final(self).uart@[0].current_tx_client == old(self).uart@[0].current_tx_client,
            final(self).uart@[0].mux == old(self).uart@[0].mux,
            final(self).uart@[0].mux_tx_client == old(self).uart@[0].mux_tx_client,
            forall|i: int|
                1 <= i < old(self).uart@.len() ==> final(self).uart@[i] == old(self).uart@[i],
            !(subscribe_num == 1 || subscribe_num == 2) ==> r == ReturnCode::ENOSUPPORT
                && *final(self) == *old(self),
            ((subscribe_num == 1 || subscribe_num == 2) && app_id < old(self).uart@[0].apps.n()
                && !(old(self).uart@[0].apps.slot(app_id as int) is Borrowed)) ==> r
                == ReturnCode::SUCCESS,
            (subscribe_num == 1 || subscribe_num == 2) && app_id < old(self).uart@[0].apps.n()
                ==> match old(self).uart@[0].apps.slot(app_id as int) {
                GrantSlot::Ready(app0) => final(self).uart@[0].apps.slot(app_id as int)
                    == GrantSlot::Ready(
                    if subscribe_num == 1 {
                        App { write_callback: callback, ..app0 }
                    } else {
                        App { read_callback: callback, ..app0 }
                    },
                ),
                GrantSlot::Empty => final(self).uart@[0].apps.slot(app_id as int)
                    == GrantSlot::Ready(
                    if subscribe_num == 1 {
                        App { write_callback: callback, ..App::spec_blank() }
                    } else {
                        App { read_callback: callback, ..App::spec_blank() }
                    },
                ),
                GrantSlot::Borrowed => final(self).uart@[0].apps.slot(app_id as int)
                    == GrantSlot::<App>::Borrowed,
            },
            (subscribe_num == 1 || subscribe_num == 2) && r == ReturnCode::SUCCESS ==> (
            final(self).uart@[0].apps.slot(app_id as int) matches GrantSlot::Ready(app) && (if
                subscribe_num == 1 {
                app.write_callback == callback
            } else {
                app.read_callback == callback
            })),
    {
        if subscribe_num != 1 && subscribe_num != 2 {
            return ReturnCode::ENOSUPPORT;
        }
        let mut u = self.uart.remove(0);
        let entered = u.apps.enter_begin(app_id, App::blank());
        let r = match entered {
            Ok(mut app) => {
                if subscribe_num == 1 {
                    app.write_callback = callback;
                } else {
                    app.read_callback = callback;
                }
                u.apps.enter_end(app_id, app);
                ReturnCode::SUCCESS
            },
            Err(e) => grant_error_code(e),
        };
        self.uart.insert(0, u);
        r
    }

    /// The *command* system call: `0` probes the driver, `1` transmits
    /// the shared write buffer up to `arg1` bytes, `2` is the read
    /// request (not offered by this console), `3` aborts a receive.
    pub fn command(&mut self, cmd_num: usize, arg1: usize, appid: usize, procs: &ProcessTable,
        wire: &mut UartWire) -> (r: ReturnCode)
        requires
            old(self).uart@.len() > 0,
            old(self).uart@[0].wf(),
            old(wire).wf(),
        ensures
            final(self).uart@.len() == old(self).uart@.len(),
            final(wire).wf(),
            final(self).uart@[0].wf(),
            final(self).uart@[0].mux == old(self).uart@[0].mux,
            forall|i: int|
                1 <= i < old(self).uart@.len() ==> final(self).uart@[i] == old(self).uart@[i],
            cmd_num == 0 ==> r == ReturnCode::SUCCESS && *final(self) == *old(self),
            cmd_num == 1 && old(self).uart@[0].current_tx_client is Some ==> r
                == ReturnCode::EBUSY || r == ReturnCode::FAIL,
            (cmd_num == 1 && old(self).uart@[0].current_tx_client is Some && appid < old(self).uart@[0].apps.n() && !(old(self).uart@[0].apps.slot(appid as int) is Borrowed))
                ==> r == ReturnCode::EBUSY,
            (cmd_num == 1 && appid < old(self).uart@[0].apps.n() && old(self).uart@[0].current_tx_client is None && old(self).uart@[0].mux_tx_client is None)
                ==> match old(self).uart@[0].apps.slot(
                appid as int,
            ) {
                GrantSlot::Ready(app) => match app.write_buffer {
                    Some(s) => procs.spec_slice_valid(s) ==> {
                        let n = if arg1 <= s.len {
                            arg1 as int
                        } else {
                            s.len as int
                        };
                        let data = procs.rams@[s.pid as int]@.subrange(s.base as int, s.base + n);
                        &&& r == ReturnCode::SUCCESS
                        &&& final(self).uart@[0].current_tx_client == Some(appid)
                        &&& final(wire).rx_fifo@ == old(wire).rx_fifo@
                        &&& final(wire).tx_capacity == old(wire).tx_capacity
                        &&& (if old(wire).tx_fifo@.len() < old(wire).tx_capacity && n > 0 {
                            (final(self).uart@[0].hw.tx matches Some(t) && t.buf@ == data
                                && t.index == 1) && final(wire).tx_fifo@ == old(wire).tx_fifo@.push(data[0])
                        } else {
                            (final(self).uart@[0].hw.tx matches Some(t) && t.buf@ == data
                                && t.index == 0) && final(wire).tx_fifo@ == old(wire).tx_fifo@
                        })
                    },
                    None => r == ReturnCode::EINVAL,
                },
                GrantSlot::Empty => r == ReturnCode::EINVAL,
                GrantSlot::Borrowed => r == ReturnCode::EBUSY,
            },
            cmd_num == 1 ==> final(self).uart@[0].apps.n() == old(self).uart@[0].apps.n()
                && (forall|i: int|
                0 <= i < old(self).uart@[0].apps.n() && i != appid ==> final(self).uart@[0].apps.slot(i) == old(self).uart@[0].apps.slot(i)),
            cmd_num == 1 && appid < old(self).uart@[0].apps.n() ==> match old(self).uart@[0].apps.slot(appid as int) {
                GrantSlot::Ready(app) => final(self).uart@[0].apps.slot(appid as int)
                    == GrantSlot::Ready(app),
                GrantSlot::Empty => final(self).uart@[0].apps.slot(appid as int)
                    == GrantSlot::Ready(App::spec_blank()),
                GrantSlot::Borrowed => final(self).uart@[0].apps.slot(appid as int)
                    == GrantSlot::<App>::Borrowed,
            },
            cmd_num == 3 ==> final(self).uart@[0].hw.rx is None && final(self).uart@[0].apps
                == old(self).uart@[0].apps,
            cmd_num == 3 ==> r == ReturnCode::SUCCESS,
            !(cmd_num == 0 || cmd_num == 1 || cmd_num == 2 || cmd_num == 3) ==> r
                == ReturnCode::ENOSUPPORT && *final(self) == *old(self),
    {
        if cmd_num == 0 {
            return ReturnCode::SUCCESS;
        }
        if cmd_num == 1 {
            let mut u = self.uart.remove(0);
            let entered = u.apps.enter_begin(appid, App::blank());
            let r = match entered {
                Ok(mut app) => {
                    let sent = u.send_new(appid, &mut app, arg1, procs, wire);
                    u.apps.enter_end(appid, app);
                    sent
                },
                Err(e) => grant_error_code(e),
            };
            self.uart.insert(0, u);
            return r;
        }
        if cmd_num == 2 {
            return ReturnCode::ENOSUPPORT;
        }
        if cmd_num == 3 {
            let mut u = self.uart.remove(0);
            let _ = u.hw.receive_abort();
            self.uart.insert(0, u);
            return ReturnCode::SUCCESS;
        }
        ReturnCode::ENOSUPPORT
    }
}

} // verus!
