//! The chip service loop and the system-call gate.
//!
//! Between process slices the kernel drains the pending-event word in
//! ascending priority order and dispatches each event to exactly one
//! peripheral's handler.  The same platform object routes the four system
//! calls to the driver the caller names.

use vstd::prelude::*;

use crate::events::{EventSet, EVENT_PRIORITY};
use crate::grant::{AppSlice, Callback, GrantSlot, ProcessTable};
use crate::helium::{spec_slot_has_pending, Helium};
use crate::radio::multimode::MAX_TX_LENGTH;
use crate::radio::multimode::{Cpe0Interrupts, PowerUpAcks, RadioEvent};
use crate::retcode::ReturnCode;
use crate::rtc::Rtc;
use crate::uart_driver::{spec_service_post, UartDriver};
use crate::uart_hw::UartWire;
use crate::{helium, uart_driver};

verus! {

/// One idle processor cycle; the host-side stand-in for the chip's
/// do-nothing instruction, used to pace register-settling waits.
pub fn nop() {
}

/// How deep the chip sleeps between slices.
#[derive(Clone, Copy, Debug, PartialEq, Eq, Structural)]
pub enum SleepMode {
    /// Deepest sleep.
    DeepSleep,
    /// Light sleep.
    Sleep,
    /// No sleep.
    Active,
}

impl SleepMode {
    /// The sleep mode a numeric request names, if any.
    pub fn from_index(n: u32) -> (r: Option<SleepMode>)
        ensures
            r == (if n == 0 {
                Some(SleepMode::DeepSleep)
            } else if n == 1 {
                Some(SleepMode::Sleep)
            } else if n == 2 {
                Some(SleepMode::Active)
            } else {
                None::<SleepMode>
            }),
    {
        match n {
            0 => Some(SleepMode::DeepSleep),
            1 => Some(SleepMode::Sleep),
            2 => Some(SleepMode::Active),
            _ => None,
        }
    }
}

/// What the caller that owns the real registers read for one pass of the
/// service loop: the UART FIFOs and the radio's interrupt state.
pub struct BoardIo {
    /// The first UART's data path.
    pub uart0_wire: UartWire,
    /// The second UART's data path.
    pub uart1_wire: UartWire,
    /// The radio's first interrupt line, as read from its status word.
    pub cpe0: Cpe0Interrupts,
    /// The status word of the radio's outstanding operation record.
    pub op_status: u16,
    /// Acknowledgement word for any radio command the pass submits.
    pub cmdsta: u32,
    /// Co-processor answers for any power-up the pass performs.
    pub acks: PowerUpAcks,
}

/// The receive-queue handoff the radio dispatch performs: the consumed
/// entry is back with the co-processor and the read position moved on.
pub open spec fn spec_rx_handoff(pre: FeatherPlatform, post: FeatherPlatform) -> bool {
    let q = pre.helium.device.radio.rx_queue;
    &&& post.helium.device.radio.rx_queue.entries@[q.read_index as int].status is Pending
    &&& post.helium.device.radio.rx_queue.read_index == q.spec_next_index()
    &&& post.helium.device.radio.rx_queue.entries@.len() == q.entries@.len()
}

/// The platform: the pending-event word, the drivers, and the process
/// table.
pub struct FeatherPlatform {
    /// The process-wide pending-event word.
    pub events: EventSet,
    /// The console driver over both UART peripherals.
    pub uart: UartDriver,
    /// The radio driver.
    pub helium: Helium,
    /// The real-time counter.
    pub rtc: Rtc,
    /// The processes.
    pub procs: ProcessTable,
}

impl FeatherPlatform {
    /// What every entry point preserves: the pending word holds only
    /// mapped bits, both consoles exist, and the process table is sound.
    pub open spec fn wf(self) -> bool {
        &&& self.events.wf()
        &&& self.uart.uart@.len() == 2
        &&& self.uart.uart@[0].wf()
        &&& (self.uart.uart@[0].mux matches Some(m) ==> m.wf())
        &&& (self.uart.uart@[1].mux matches Some(m) ==> m.wf())
        &&& self.procs.wf()
        &&& self.helium.device.radio.wf()
    }

    /// True while any event is pending.
    pub fn has_pending_events(&self) -> (r: bool)
        ensures
            r <==> self.events.spec_bits() != 0,
    {
        self.events.has_event()
    }

    /// Drain the pending-event word: take the lowest pending priority,
    /// clear it, dispatch it to its peripheral's handler, and ask again,
    /// so that newly raised events are still seen in priority order.  The
    /// word is empty when the loop returns.  A radio hardware fault is
    /// fatal and must not be pending here.
    pub fn service_pending_events(&mut self, io: &mut BoardIo)
        requires
            old(self).wf(),
            !old(self).events.contains(EVENT_PRIORITY::RF_CORE_HW),
            old(io).uart0_wire.wf(),
            old(io).uart1_wire.wf(),
        ensures
            final(self).wf(),
            final(self).events.spec_bits() == 0,
            final(io).uart0_wire.wf(),
            final(io).uart1_wire.wf(),
            (old(self).events.spec_bits() == (1u64 << 2) && old(self).uart.uart@[0].mux
                is None) ==> spec_service_post(
                old(self).uart.uart@[0],
                old(io).uart0_wire,
                final(self).uart.uart@[0],
                final(io).uart0_wire,
                old(self).procs,
                final(self).procs,
            ),
            (old(self).events.spec_bits() == (1u64 << 1) && old(self).uart.uart@[1].mux
                is None) ==> spec_service_post(
                old(self).uart.uart@[1],
                old(io).uart1_wire,
                final(self).uart.uart@[1],
                final(io).uart1_wire,
                old(self).procs,
                final(self).procs,
            ),
            (old(self).events.spec_bits() == (1u64 << 10) && old(io).cpe0.spec_rx_any() && old(
                self,
            ).helium.device.radio.rx_queue.spec_front_finished()) ==> spec_rx_handoff(
                *old(self),
                *final(self),
            ),
    {
        loop
            invariant
                self.wf(),
                !self.events.contains(EVENT_PRIORITY::RF_CORE_HW),
                io.uart0_wire.wf(),
                io.uart1_wire.wf(),
                (old(self).events.spec_bits() == (1u64 << 2) && old(self).uart.uart@[0].mux
                    is None) ==> ((self.uart == old(self).uart && self.procs == old(self).procs
                    && io.uart0_wire == old(io).uart0_wire && self.events.spec_bits() == old(
                    self,
                ).events.spec_bits()) || (self.events.spec_bits() == 0 && spec_service_post(
                    old(self).uart.uart@[0],
                    old(io).uart0_wire,
                    self.uart.uart@[0],
                    io.uart0_wire,
                    old(self).procs,
                    self.procs,
                ))),
                (old(self).events.spec_bits() == (1u64 << 1) && old(self).uart.uart@[1].mux
                    is None) ==> ((self.uart == old(self).uart && self.procs == old(self).procs
                    && io.uart1_wire == old(io).uart1_wire && self.events.spec_bits() == old(
                    self,
                ).events.spec_bits()) || (self.events.spec_bits() == 0 && spec_service_post(
                    old(self).uart.uart@[1],
                    old(io).uart1_wire,
                    self.uart.uart@[1],
                    io.uart1_wire,
                    old(self).procs,
                    self.procs,
                ))),
                (old(self).events.spec_bits() == (1u64 << 10) && old(io).cpe0.spec_rx_any()
                    && old(self).helium.device.radio.rx_queue.spec_front_finished()) ==> ((
                self.helium == old(self).helium && io.cpe0 == old(io).cpe0
                    && io.op_status == old(io).op_status && self.events.spec_bits() == old(
                    self,
                ).events.spec_bits()) || (self.events.spec_bits() == 0 && spec_rx_handoff(
                    *old(self),
                    *self,
                ))),
            ensures
                self.wf(),
                self.events.spec_bits() == 0,
                io.uart0_wire.wf(),
                io.uart1_wire.wf(),
                (old(self).events.spec_bits() == (1u64 << 2) && old(self).uart.uart@[0].mux
                    is None) ==> spec_service_post(
                    old(self).uart.uart@[0],
                    old(io).uart0_wire,
                    self.uart.uart@[0],
                    io.uart0_wire,
                    old(self).procs,
                    self.procs,
                ),
                (old(self).events.spec_bits() == (1u64 << 1) && old(self).uart.uart@[1].mux
                    is None) ==> spec_service_post(
                    old(self).uart.uart@[1],
                    old(io).uart1_wire,
                    self.uart.uart@[1],
                    io.uart1_wire,
                    old(self).procs,
                    self.procs,
                ),
                (old(self).events.spec_bits() == (1u64 << 10) && old(io).cpe0.spec_rx_any()
                    && old(self).helium.device.radio.rx_queue.spec_front_finished())
                    ==> spec_rx_handoff(*old(self), *self),
            decreases self.events.spec_bits(),
        {
            let pending = self.events.next_pending();
            let event = match pending {
                Some(p) => p,
                None => {
                    proof {
                        assert((1u64 << 2) != 0 && (1u64 << 1) != 0 && (1u64 << 10) != 0)
                            by (bit_vector);
                    }
                    break ;
                },
            };
            let ghost bits_before = self.events.spec_bits();
            self.events.clear_event_flag(event);
            proof {
                lemma_clear_contained_decreases(bits_before, event.spec_index());
                let i = event.spec_index();
                assert(0u64 & (1u64 << i) == 0) by (bit_vector)
                    requires
                        i < 64,
                ;
                if old(self).events.spec_bits() == (1u64 << 2) && old(self).uart.uart@[0].mux
                    is None {
                    assert(bits_before == (1u64 << 2));
                    assert((1u64 << 2) & (1u64 << i) != 0 ==> i == 2) by (bit_vector)
                        requires
                            i < 64,
                    ;
                    assert(event == EVENT_PRIORITY::UART0);
                    assert((1u64 << 2) & !(1u64 << 2) == 0) by (bit_vector);
                }
                if old(self).events.spec_bits() == (1u64 << 1) && old(self).uart.uart@[1].mux
                    is None {
                    assert(bits_before == (1u64 << 1));
                    assert((1u64 << 1) & (1u64 << i) != 0 ==> i == 1) by (bit_vector)
                        requires
                            i < 64,
                    ;
                    assert(event == EVENT_PRIORITY::UART1);
                    assert((1u64 << 1) & !(1u64 << 1) == 0) by (bit_vector);
                }
                if old(self).events.spec_bits() == (1u64 << 10) && old(io).cpe0.spec_rx_any()
                    && old(self).helium.device.radio.rx_queue.spec_front_finished() {
                    assert(bits_before == (1u64 << 10));
                    let i = event.spec_index();
                    assert((1u64 << 10) & (1u64 << i) != 0 ==> i == 10) by (bit_vector)
                        requires
                            i < 64,
                    ;
                    assert(event == EVENT_PRIORITY::RF_CORE_CPE0);
                    assert((1u64 << 10) & !(1u64 << 10) == 0) by (bit_vector);
                }
            }
            match event {
                EVENT_PRIORITY::GPIO => {},
                EVENT_PRIORITY::UART1 => {
                    self.uart.handle_interrupt(1, &mut io.uart1_wire, &mut self.procs);
                    self.uart.arm_next_from_mux(1, &mut io.uart1_wire);
                },
                EVENT_PRIORITY::UART0 => {
                    self.uart.handle_interrupt(0, &mut io.uart0_wire, &mut self.procs);
                    self.uart.arm_next_from_mux(0, &mut io.uart0_wire);
                },
                EVENT_PRIORITY::AON_RTC => {
                    let _ = self.rtc.handle_interrupt();
                },
                EVENT_PRIORITY::RTC => {
                    let _ = self.rtc.handle_interrupt();
                },
                EVENT_PRIORITY::I2C0 => {},
                EVENT_PRIORITY::AON_PROG => {},
                EVENT_PRIORITY::RF_CORE_HW => {
                    proof {
                        assert(false);
                    }
                },
                EVENT_PRIORITY::RF_CMD_ACK => {},
                EVENT_PRIORITY::RF_CORE_CPE0 => {
                    self.handle_cpe0(io);
                },
                EVENT_PRIORITY::RF_CORE_CPE1 => {},
                EVENT_PRIORITY::OSC => {},
                EVENT_PRIORITY::AUX_ADC => {},
            }
        }
    }

    /// Demultiplex the radio's first interrupt line and deliver what came
    /// of it: arrived frames to the processes' receive buffers, the
    /// finished transmission back to its owner's callback.
    fn handle_cpe0(&mut self, io: &mut BoardIo)
        requires
            old(self).wf(),
        ensures
            final(self).wf(),
            final(self).events == old(self).events,
            final(self).uart == old(self).uart,
            final(io).uart0_wire == old(io).uart0_wire,
            final(io).uart1_wire == old(io).uart1_wire,
            (old(io).cpe0.spec_rx_any() && old(
                self,
            ).helium.device.radio.rx_queue.spec_front_finished()) ==> spec_rx_handoff(
                *old(self),
                *final(self),
            ),
    {
        let events = self.helium.device.radio.handle_cpe0_event(io.cpe0, io.op_status);
        let ghost queue_after = self.helium.device.radio.rx_queue;
        let mut k: usize = 0;
        let n = events.len();
        let mut events = events;
        while k < n
            invariant
                self.wf(),
                self.events == old(self).events,
                self.uart == old(self).uart,
                self.helium.device.radio.rx_queue == queue_after,
                events@.len() == n - k,
                k <= n,
            decreases n - k,
        {
            let ev = events.remove(0);
            match ev {
                RadioEvent::Rx(frame) => {
                    let mut data_len = frame.payload.len();
                    if data_len > frame.frame_len {
                        data_len = frame.frame_len;
                    }
                    if data_len > 255 {
                        data_len = 255;
                    }
                    self.helium.receive_event(&frame.payload, 0, data_len, &mut self.procs);
                },
                RadioEvent::TxDone(buf, rc) => {
                    self.helium.transmit_event(buf, rc, &mut self.procs, io.cmdsta, io.op_status);
                },
            }
            k = k + 1;
        }
    }

    /// The *command* system call, routed to the driver the caller names;
    /// a number no driver answers to reports `ENODEVICE`.
    pub fn syscall_command(&mut self, driver_num: usize, sub: usize, arg0: usize, arg1: usize,
        appid: usize, io: &mut BoardIo) -> (r: i32)
        requires
            old(self).wf(),
            old(io).uart0_wire.wf(),
        ensures
            final(self).wf(),
            final(io).uart0_wire.wf(),
            final(io).uart1_wire == old(io).uart1_wire,
            driver_num != uart_driver::DRIVER_NUM && driver_num != helium::DRIVER_NUM ==> r
                == ReturnCode::ENODEVICE.spec_as_i32() && *final(self) == *old(self),
            driver_num == uart_driver::DRIVER_NUM ==> {
                let u = old(self).uart.uart@[0];
                &&& final(self).helium == old(self).helium
                &&& final(self).events == old(self).events
                &&& final(self).procs == old(self).procs
                &&& (sub == 0 ==> r == 0)
                &&& (sub == 3 ==> r == 0 && final(self).uart.uart@[0].hw.rx is None)
                &&& ((sub == 1 && u.current_tx_client is Some && appid < u.apps.n() && !(
                u.apps.slot(appid as int) is Borrowed)) ==> r
                    == ReturnCode::EBUSY.spec_as_i32())
                &&& ((sub == 1 && appid < u.apps.n() && u.current_tx_client is None
                    && u.mux_tx_client is None) ==> match u.apps.slot(appid as int) {
                    GrantSlot::Ready(app) => match app.write_buffer {
                        Some(s) => old(self).procs.spec_slice_valid(s) ==> {
                            let n = if arg0 <= s.len {
                                arg0 as int
                            } else {
                                s.len as int
                            };
                            let data = old(self).procs.rams@[s.pid as int]@.subrange(
                                s.base as int,
                                s.base + n,
                            );
                            &&& r == 0
                            &&& (final(self).uart.uart@[0].hw.tx matches Some(t) && t.buf@
                                == data)
                            &&& final(self).uart.uart@[0].current_tx_client == Some(appid)
                        },
                        None => r == ReturnCode::EINVAL.spec_as_i32(),
                    },
                    GrantSlot::Empty => r == ReturnCode::EINVAL.spec_as_i32(),
                    GrantSlot::Borrowed => r == ReturnCode::EBUSY.spec_as_i32(),
                })
            },
            driver_num == helium::DRIVER_NUM ==> {
                &&& final(self).uart == old(self).uart
                &&& final(self).events == old(self).events
                &&& final(io).uart0_wire == old(io).uart0_wire
                &&& (sub == 0 ==> r == 0)
                &&& (sub == 1 ==> r == (if old(io).acks.spec_all_ok() {
                    0
                } else {
                    ReturnCode::FAIL.spec_as_i32()
                }) && (old(io).acks.spec_all_ok() ==> final(self).helium.device.radio.on))
                &&& (sub == 2 ==> r == (if old(self).helium.device.radio.on {
                    0
                } else {
                    ReturnCode::EOFF.spec_as_i32()
                }))
                &&& (sub == 3 || sub == 4 ==> r == (if crate::rfc::spec_ack_ok(old(io).cmdsta) {
                    0
                } else {
                    ReturnCode::FAIL.spec_as_i32()
                }))
                &&& (sub == 5 ==> r == 0)
                &&& ((sub == 6 && appid < old(self).helium.app.n() && old(
                    self,
                ).helium.current_app is None && (arg1 == 0 || arg1 == 1 || arg1 == 0x10) && (
                forall|j: int|
                    0 <= j < appid ==> !spec_slot_has_pending(old(self).helium.app, j)))
                    ==> match old(self).helium.app.slot(appid as int) {
                    GrantSlot::Ready(a) => match a.app_write {
                        Some(s) => (a.pending_tx is None && old(self).helium.kernel_tx is Some
                            && old(self).helium.device.radio.tx_buf is None && old(
                            self,
                        ).procs.spec_slice_valid(s) && 2 + s.len <= MAX_TX_LENGTH) ==> {
                            &&& r == 0
                            &&& final(self).helium.current_app == Some(appid)
                            &&& (final(self).helium.device.radio.tx_buf matches Some(b) && b@
                                == seq![
                                (old(self).helium.device_id & 0xFF) as u8,
                                0u8,
                            ] + old(self).procs.rams@[s.pid as int]@.subrange(
                                s.base as int,
                                s.base + s.len,
                            ))
                        },
                        None => true,
                    },
                    _ => true,
                })
                &&& (sub == 7 && appid < old(self).helium.app.n() ==> match old(
                    self,
                ).helium.app.slot(appid as int) {
                    GrantSlot::Ready(a) => match a.app_cfg {
                        Some(cfg) => if cfg.len == 10 && old(self).procs.spec_slice_valid(
                            cfg,
                        ) {
                            &&& r == 0
                            &&& final(self).helium.device.address_long@ == old(
                                self,
                            ).procs.rams@[cfg.pid as int]@.subrange(
                                cfg.base as int,
                                cfg.base + cfg.len,
                            )
                        } else {
                            r == ReturnCode::EINVAL.spec_as_i32()
                        },
                        None => r == ReturnCode::EINVAL.spec_as_i32(),
                    },
                    GrantSlot::Empty => r == ReturnCode::EINVAL.spec_as_i32(),
                    GrantSlot::Borrowed => r == ReturnCode::EBUSY.spec_as_i32(),
                })
                &&& (sub == 8 || sub > 8 ==> r == ReturnCode::ENOSUPPORT.spec_as_i32())
            },
    {
        if driver_num == uart_driver::DRIVER_NUM {
            let rc = self.uart.command(sub, arg0, appid, &self.procs, &mut io.uart0_wire);
            rc.as_i32()
        } else if driver_num == helium::DRIVER_NUM {
            let rc = self.helium.command(
                sub,
                arg0,
                arg1,
                appid,
                &mut self.procs,
                io.acks,
                io.cmdsta,
                io.op_status,
            );
            rc.as_i32()
        } else {
            ReturnCode::ENODEVICE.as_i32()
        }
    }

    /// The *subscribe* system call, routed like `syscall_command`.
    pub fn syscall_subscribe(&mut self, driver_num: usize, sub: usize,
        callback: Option<Callback>, appid: usize) -> (r: i32)
        requires
            old(self).wf(),
        ensures
            final(self).wf(),
            driver_num != uart_driver::DRIVER_NUM && driver_num != helium::DRIVER_NUM ==> r
                == ReturnCode::ENODEVICE.spec_as_i32() && *final(self) == *old(self),
            driver_num == uart_driver::DRIVER_NUM ==> {
                let u = old(self).uart.uart@[0];
                &&& final(self).helium == old(self).helium
                &&& final(self).procs == old(self).procs
                &&& ((sub == 1 || sub == 2) && appid < u.apps.n() && !(u.apps.slot(
                    appid as int,
                ) is Borrowed) ==> r == 0)
                &&& ((sub == 1 || sub == 2) && r == 0 ==> (final(self).uart.uart@[0].apps.slot(
                    appid as int,
                ) matches GrantSlot::Ready(app) && (if sub == 1 {
                    app.write_callback == callback
                } else {
                    app.read_callback == callback
                })))
                &&& (!(sub == 1 || sub == 2) ==> r == ReturnCode::ENOSUPPORT.spec_as_i32())
            },
            driver_num == helium::DRIVER_NUM ==> {
                &&& final(self).uart == old(self).uart
                &&& final(self).procs == old(self).procs
                &&& (sub <= 1 && appid < old(self).helium.app.n() && !(old(
                self,
                ).helium.app.slot(appid as int) is Borrowed) ==> r == 0)
                &&& (sub <= 1 && r == 0 ==> (final(self).helium.app.slot(
                    appid as int,
                ) matches GrantSlot::Ready(app) && (if sub == 0 {
                    app.rx_callback == callback
                } else {
                    app.tx_callback == callback
                })))
                &&& (sub > 1 ==> r == ReturnCode::ENOSUPPORT.spec_as_i32())
            },
    {
        if driver_num == uart_driver::DRIVER_NUM {
            let rc = self.uart.subscribe(sub, callback, appid);
            rc.as_i32()
        } else if driver_num == helium::DRIVER_NUM {
            let rc = self.helium.subscribe(sub, callback, appid);
            rc.as_i32()
        } else {
            ReturnCode::ENODEVICE.as_i32()
        }
    }

    /// The *allow* system call, routed like `syscall_command`.
    pub fn syscall_allow(&mut self, driver_num: usize, allow_num: usize,
        slice: Option<AppSlice>, appid: usize) -> (r: i32)
        requires
            old(self).wf(),
        ensures
            final(self).wf(),
            driver_num != uart_driver::DRIVER_NUM && driver_num != helium::DRIVER_NUM ==> r
                == ReturnCode::ENODEVICE.spec_as_i32() && *final(self) == *old(self),
            driver_num == uart_driver::DRIVER_NUM ==> {
                let u = old(self).uart.uart@[0];
                &&& final(self).helium == old(self).helium
                &&& final(self).procs == old(self).procs
                &&& ((allow_num == 1 || allow_num == 2) && appid < u.apps.n() && !(u.apps.slot(
                    appid as int,
                ) is Borrowed) ==> r == 0)
                &&& ((allow_num == 1 || allow_num == 2) && r == 0 ==> (
                final(self).uart.uart@[0].apps.slot(appid as int) matches GrantSlot::Ready(app)
                    && (if allow_num == 1 {
                    app.write_buffer == slice
                } else {
                    app.read_buffer == slice
                })))
                &&& (!(allow_num == 1 || allow_num == 2) ==> r
                    == ReturnCode::ENOSUPPORT.spec_as_i32())
            },
            driver_num == helium::DRIVER_NUM ==> {
                &&& final(self).uart == old(self).uart
                &&& final(self).procs == old(self).procs
                &&& (allow_num <= 2 && appid < old(self).helium.app.n() && !(old(
                self,
                ).helium.app.slot(appid as int) is Borrowed) ==> r == 0)
                &&& (allow_num <= 2 && r == 0 ==> (final(self).helium.app.slot(
                    appid as int,
                ) matches GrantSlot::Ready(app) && (if allow_num == 0 {
                    app.app_read == slice
                } else if allow_num == 1 {
                    app.app_write == slice
                } else {
                    app.app_cfg == slice
                })))
                &&& (allow_num > 2 ==> r == ReturnCode::ENOSUPPORT.spec_as_i32())
            },
    {
        if driver_num == uart_driver::DRIVER_NUM {
            let rc = self.uart.allow(appid, allow_num, slice);
            rc.as_i32()
        } else if driver_num == helium::DRIVER_NUM {
            let rc = self.helium.allow(appid, allow_num, slice);
            rc.as_i32()
        } else {
            ReturnCode::ENODEVICE.as_i32()
        }
    }
}

/// Clearing a pending bit makes the word strictly smaller, so the drain
/// loop terminates.
proof fn lemma_clear_contained_decreases(b: u64, i: u64)
    by (bit_vector)
    requires
        i < 64,
        b & (1u64 << i) != 0,
    ensures
        b & !(1u64 << i) < b,
{
}

} // verus!
