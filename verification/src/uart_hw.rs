//! UART peripheral driver.
//!
//! The peripheral's data path appears as a [`UartWire`] value: the receive
//! FIFO holds bytes that arrived on the line and the transmit FIFO holds
//! bytes accepted for transmission, front first.  The caller that owns the
//! real registers reads and writes them and hands the plain values here;
//! the driver's decisions over those values are verified.

use vstd::prelude::*;

use crate::retcode::ReturnCode;
use crate::uart_req::{RxRequest, TxRequest};

verus! {

/// The system clock feeding the baud-rate generator, in hertz.
pub const MCU_CLOCK: u32 = 48_000_000;

/// Which of the two UART peripherals a driver instance owns.
#[allow(non_camel_case_types)]
#[derive(Clone, Copy, Debug, PartialEq, Eq, Structural)]
pub enum PeripheralNum {
    /// The first peripheral.
    _0,
    /// The second peripheral.
    _1,
}

impl PeripheralNum {
    /// Slot of this peripheral in the one-shot grant table.
    pub open spec fn spec_index(self) -> int {
        match self {
            PeripheralNum::_0 => 0,
            PeripheralNum::_1 => 1,
        }
    }

    /// Slot of this peripheral in the one-shot grant table.
    pub fn index(self) -> (i: usize)
        ensures
            i == self.spec_index(),
    {
        match self {
            PeripheralNum::_0 => 0,
            PeripheralNum::_1 => 1,
        }
    }
}

/// One-shot take guard: each UART peripheral is realised at most once.
pub struct UartGrants {
    granted_0: bool,
    granted_1: bool,
}

impl UartGrants {
    /// True when the given peripheral was already realised.
    pub closed spec fn spec_granted(self, num: PeripheralNum) -> bool {
        match num {
            PeripheralNum::_0 => self.granted_0,
            PeripheralNum::_1 => self.granted_1,
        }
    }

    /// A fresh guard with both peripherals still available.
    pub fn new() -> (g: UartGrants)
        ensures
            forall|n: PeripheralNum| !g.spec_granted(n),
    {
        UartGrants { granted_0: false, granted_1: false }
    }

    /// Record that the given peripheral is now realised.
    pub fn claim(&mut self, num: PeripheralNum)
        requires
            !old(self).spec_granted(num),
        ensures
            final(self).spec_granted(num),
            forall|n: PeripheralNum| n != num ==> final(self).spec_granted(n)
                == old(self).spec_granted(n),
    {
        match num {
            PeripheralNum::_0 => self.granted_0 = true,
            PeripheralNum::_1 => self.granted_1 = true,
        }
    }
}

/// The peripheral's data path as the driver sees it: arrived bytes and the
/// hardware transmit queue, front first.
pub struct UartWire {
    /// Bytes that arrived on the line and sit in the receive FIFO.
    pub rx_fifo: Vec<u8>,
    /// Bytes accepted for transmission, oldest first.
    pub tx_fifo: Vec<u8>,
    /// Depth of the hardware transmit FIFO.
    pub tx_capacity: usize,
}

impl UartWire {
    /// The transmit FIFO never holds more than its depth.
    pub open spec fn wf(self) -> bool {
        self.tx_fifo@.len() <= self.tx_capacity
    }

    /// A quiet wire with the given transmit FIFO depth.
    pub fn new(tx_capacity: usize) -> (w: UartWire)
        ensures
            w.rx_fifo@ == Seq::<u8>::empty(),
            w.tx_fifo@ == Seq::<u8>::empty(),
            w.tx_capacity == tx_capacity,
            w.wf(),
    {
        UartWire { rx_fifo: Vec::new(), tx_fifo: Vec::new(), tx_capacity }
    }
}

/// Serial word width.
#[derive(Clone, Copy, Debug, PartialEq, Eq, Structural)]
pub enum Width {
    /// Six data bits.
    Six,
    /// Seven data bits.
    Seven,
    /// Eight data bits.
    Eight,
}

/// Parity setting.
#[derive(Clone, Copy, Debug, PartialEq, Eq, Structural)]
pub enum Parity {
    /// No parity bit.
    NoParity,
    /// Odd parity.
    Odd,
    /// Even parity.
    Even,
}

/// Stop-bit count.
#[derive(Clone, Copy, Debug, PartialEq, Eq, Structural)]
pub enum StopBits {
    /// One stop bit.
    One,
    /// Two stop bits.
    Two,
}

/// Line parameters handed to `configure`.
#[derive(Clone, Copy, Debug, PartialEq, Eq, Structural)]
pub struct Parameters {
    /// Baud rate in bits per second.
    pub baud_rate: u32,
    /// Word width.
    pub width: Width,
    /// Parity setting.
    pub parity: Parity,
    /// Stop-bit count.
    pub stop_bits: StopBits,
    /// Hardware flow control requested.
    pub hw_flow_control: bool,
}

/// The fractional baud-rate divider for a baud rate: eight times the clock
/// over the rate, rounded to the nearest half.
pub open spec fn spec_baud_divisor(baud_rate: u32) -> int
    recommends
        baud_rate > 0,
{
    ((MCU_CLOCK * 8) as int / baud_rate as int + 1) / 2
}

/// Number of bytes a transmit drain hands to the hardware: all remaining
/// bytes, or as many as the FIFO has room for.
pub open spec fn spec_tx_sent(t: TxRequest, space: int) -> int {
    if t.spec_remaining() <= space {
        t.spec_remaining()
    } else {
        space
    }
}

/// The bytes a transmit drain appends to the transmit FIFO, in order.
pub open spec fn spec_tx_chunk(t: TxRequest, space: int) -> Seq<u8> {
    if t.index <= t.buf@.len() {
        t.buf@.subrange(t.index as int, t.index + spec_tx_sent(t, space))
    } else {
        Seq::empty()
    }
}

/// One UART peripheral: the armed requests, the interrupt mask, and the
/// configured line state.
pub struct UART {
    /// Which peripheral this instance owns.
    pub num: PeripheralNum,
    /// The armed transmit request, if any.
    pub tx: Option<TxRequest>,
    /// The armed receive request, if any.
    pub rx: Option<RxRequest>,
    /// A single-word receive is in progress.
    pub receiving_word: bool,
    /// Integer part of the baud-rate divisor.
    pub ibrd: u32,
    /// Fractional part of the baud-rate divisor.
    pub fbrd: u32,
    /// Configured word width.
    pub width: Width,
    /// Character FIFOs are enabled.
    pub fifo_enabled: bool,
    /// The peripheral, its transmitter and its receiver are enabled.
    pub enabled: bool,
    /// Receive interrupt unmasked.
    pub int_rx: bool,
    /// Transmit interrupt unmasked.
    pub int_tx: bool,
    /// Receive-timeout interrupt unmasked.
    pub int_rx_timeout: bool,
    /// End-of-transmission interrupt unmasked.
    pub int_eot: bool,
}

impl UART {
    /// Realise the driver for one peripheral.  The guard makes a second
    /// realisation of the same peripheral impossible.
    pub fn new(num: PeripheralNum, grants: &mut UartGrants) -> (u: UART)
        requires
            !old(grants).spec_granted(num),
        ensures
            final(grants).spec_granted(num),
            forall|n: PeripheralNum| n != num ==> final(grants).spec_granted(n)
                == old(grants).spec_granted(n),
            u.num == num,
            u.tx is None,
            u.rx is None,
            !u.receiving_word,
            !u.enabled,
            !u.int_rx && !u.int_tx && !u.int_rx_timeout && !u.int_eot,
    {
        grants.claim(num);
        UART {
            num,
            tx: None,
            rx: None,
            receiving_word: false,
            ibrd: 0,
            fbrd: 0,
            width: Width::Eight,
            fifo_enabled: false,
            enabled: false,
            int_rx: false,
            int_tx: false,
            int_rx_timeout: false,
            int_eot: false,
        }
    }

    /// Program the baud-rate divisor registers from the requested rate.
    pub fn set_baud_rate(&mut self, baud_rate: u32)
        requires
            baud_rate > 0,
        ensures
            final(self).ibrd == spec_baud_divisor(baud_rate) / 64,
            final(self).fbrd == spec_baud_divisor(baud_rate) % 64,
            *final(self) == (UART { ibrd: final(self).ibrd, fbrd: final(self).fbrd, ..*old(self) }),
    {
        let div = ((MCU_CLOCK * 8) / baud_rate + 1) / 2;
        self.ibrd = div / 64;
        self.fbrd = div % 64;
    }

    /// Configure line parameters.  Parity, a second stop bit and hardware
    /// flow control are unsupported by this peripheral and rejected with
    /// `ENOSUPPORT`, leaving the driver untouched; any supported setting is
    /// applied and enables the peripheral.
    pub fn configure(&mut self, params: Parameters) -> (r: ReturnCode)
        requires
            params.baud_rate > 0,
        ensures
            ({
                let supported = params.stop_bits == StopBits::One && params.parity
                    == Parity::NoParity && !params.hw_flow_control;
                &&& r == if supported {
                    ReturnCode::SUCCESS
                } else {
                    ReturnCode::ENOSUPPORT
                }
                &&& !supported ==> *final(self) == *old(self)
                &&& supported ==> *final(self) == (UART {
                    ibrd: (spec_baud_divisor(params.baud_rate) / 64) as u32,
                    fbrd: (spec_baud_divisor(params.baud_rate) % 64) as u32,
                    width: params.width,
                    fifo_enabled: true,
                    enabled: true,
                    int_rx: false,
                    int_tx: false,
                    int_rx_timeout: false,
                    int_eot: false,
                    ..*old(self)
                })
            }),
    {
        if !matches!(params.stop_bits, StopBits::One) {
            return ReturnCode::ENOSUPPORT;
        }
        if !matches!(params.parity, Parity::NoParity) {
            return ReturnCode::ENOSUPPORT;
        }
        if params.hw_flow_control {
            return ReturnCode::ENOSUPPORT;
        }

        // Disable the peripheral and mask its interrupts while changing
        // the line parameters.
        self.enabled = false;
        self.fifo_enabled = false;
        self.int_rx = false;
        self.int_tx = false;
        self.int_rx_timeout = false;
        self.int_eot = false;

        self.set_baud_rate(params.baud_rate);
        self.width = params.width;
        self.fifo_enabled = true;
        self.enabled = true;
        ReturnCode::SUCCESS
    }

    /// Put one byte in the hardware transmit FIFO.
    pub fn write(&self, wire: &mut UartWire, c: u8)
        requires
            old(wire).tx_fifo@.len() < old(wire).tx_capacity,
        ensures
            final(wire).tx_fifo@ == old(wire).tx_fifo@.push(c),
            final(wire).rx_fifo@ == old(wire).rx_fifo@,
            final(wire).tx_capacity == old(wire).tx_capacity,
    {
        wire.tx_fifo.push(c);
    }

    /// Pull the oldest byte out of the receive FIFO.
    pub fn read(&self, wire: &mut UartWire) -> (b: u8)
        requires
            old(wire).rx_fifo@.len() > 0,
        ensures
            b == old(wire).rx_fifo@[0],
            final(wire).rx_fifo@ == old(wire).rx_fifo@.drop_first(),
            final(wire).tx_fifo@ == old(wire).tx_fifo@,
            final(wire).tx_capacity == old(wire).tx_capacity,
    {
        let b = wire.rx_fifo.remove(0);
        proof {
            assert(final(wire).rx_fifo@ =~= old(wire).rx_fifo@.drop_first());
        }
        b
    }

    /// True when at least one received byte waits in the FIFO.
    pub fn rx_fifo_not_empty(&self, wire: &UartWire) -> (r: bool)
        ensures
            r <==> wire.rx_fifo@.len() > 0,
    {
        wire.rx_fifo.len() > 0
    }

    /// True when the transmit FIFO has room for another byte.
    pub fn tx_fifo_not_full(&self, wire: &UartWire) -> (r: bool)
        ensures
            r <==> wire.tx_fifo@.len() < wire.tx_capacity,
    {
        wire.tx_fifo.len() < wire.tx_capacity
    }

    /// Arm a buffered transmission.  Exactly one request may be armed at a
    /// time: re-arming fails with `EBUSY` and hands the request back.  On
    /// success the transmit interrupts are unmasked and the first byte goes
    /// out immediately if the FIFO has room; the rest leave from the
    /// interrupt handler.
    pub fn transmit_buffer(&mut self, tx: TxRequest, wire: &mut UartWire) -> (r: (
        ReturnCode,
        Option<TxRequest>,
    ))
        requires
            old(wire).wf(),
        ensures
            final(wire).wf(),
            final(wire).rx_fifo@ == old(wire).rx_fifo@,
            final(wire).tx_capacity == old(wire).tx_capacity,
            old(self).tx is Some ==> {
                &&& r.0 == ReturnCode::EBUSY
                &&& (r.1 matches Some(back) && back.buf@ == tx.buf@ && back.index == tx.index)
                &&& *final(self) == *old(self)
                &&& *final(wire) == *old(wire)
            },
            old(self).tx is None ==> {
                &&& r.0 == ReturnCode::SUCCESS
                &&& r.1 is None
                &&& final(self).int_tx && final(self).int_eot
                &&& *final(self) == (UART {
                    tx: final(self).tx,
                    int_tx: true,
                    int_eot: true,
                    ..*old(self)
                })
                &&& if old(wire).tx_fifo@.len() < old(wire).tx_capacity && tx.index
                    < tx.buf@.len() {
                    &&& final(wire).tx_fifo@ == old(wire).tx_fifo@.push(
                        tx.buf@[tx.index as int],
                    )
                    &&& (final(self).tx matches Some(kept) && kept.buf@ == tx.buf@
                        && kept.index == tx.index + 1)
                } else {
                    &&& final(wire).tx_fifo@ == old(wire).tx_fifo@
                    &&& (final(self).tx matches Some(kept) && kept.buf@ == tx.buf@
                        && kept.index == tx.index)
                }
            },
    {
        if self.tx.is_some() {
            return (ReturnCode::EBUSY, Some(tx));
        }
        self.int_tx = true;
        self.int_eot = true;

        let mut tx = tx;
        if wire.tx_fifo.len() < wire.tx_capacity && !tx.request_completed() {
            match tx.pop() {
                Some(b) => self.write(wire, b),
                None => {},
            }
        }
        self.tx = Some(tx);
        (ReturnCode::SUCCESS, None)
    }

    /// Put a single word on the wire, outside the request protocol, when
    /// the FIFO has room and no buffered transmission is armed.
    pub fn transmit_word(&mut self, wire: &mut UartWire, word: u8) -> (r: ReturnCode)
        requires
            old(wire).wf(),
        ensures
            final(wire).wf(),
            final(wire).rx_fifo@ == old(wire).rx_fifo@,
            final(wire).tx_capacity == old(wire).tx_capacity,
            *final(self) == *old(self),
            if old(wire).tx_fifo@.len() < old(wire).tx_capacity && old(self).tx is None {
                &&& r == ReturnCode::SUCCESS
                &&& final(wire).tx_fifo@ == old(wire).tx_fifo@.push(word)
            } else {
                &&& r == ReturnCode::FAIL
                &&& final(wire).tx_fifo@ == old(wire).tx_fifo@
            },
    {
        if wire.tx_fifo.len() < wire.tx_capacity && self.tx.is_none() {
            self.write(wire, word);
            ReturnCode::SUCCESS
        } else {
            ReturnCode::FAIL
        }
    }

    /// Cancel the armed transmission, returning it if one was armed.
    pub fn transmit_abort(&mut self) -> (r: Option<TxRequest>)
        ensures
            r == old(self).tx,
            *final(self) == (UART { tx: None, ..*old(self) }),
    {
        self.tx.take()
    }

    /// Arm a buffered receive.  At most one may be armed, and not while a
    /// single-word receive is in progress; otherwise the request is handed
    /// back with `EBUSY`.  On success the receive and receive-timeout
    /// interrupts are unmasked.
    pub fn receive_buffer(&mut self, rx: RxRequest) -> (r: (ReturnCode, Option<RxRequest>))
        ensures
            if old(self).rx is Some || old(self).receiving_word {
                &&& r.0 == ReturnCode::EBUSY
                &&& (r.1 matches Some(back) && back@ == rx@)
                &&& *final(self) == *old(self)
            } else {
                &&& r.0 == ReturnCode::SUCCESS
                &&& r.1 is None
                &&& (final(self).rx matches Some(kept) && kept@ == rx@)
                &&& *final(self) == (UART {
                    rx: final(self).rx,
                    int_rx: true,
                    int_rx_timeout: true,
                    ..*old(self)
                })
            },
    {
        if self.rx.is_some() || self.receiving_word {
            (ReturnCode::EBUSY, Some(rx))
        } else {
            self.int_rx = true;
            self.int_rx_timeout = true;
            self.rx = Some(rx);
            (ReturnCode::SUCCESS, None)
        }
    }

    /// Begin a single-word receive when no receive is in progress.
    pub fn receive_word(&mut self) -> (r: ReturnCode)
        ensures
            if old(self).rx is Some || old(self).receiving_word {
                &&& r == ReturnCode::EBUSY
                &&& *final(self) == *old(self)
            } else {
                &&& r == ReturnCode::SUCCESS
                &&& *final(self) == (UART { receiving_word: true, ..*old(self) })
            },
    {
        if self.rx.is_some() || self.receiving_word {
            ReturnCode::EBUSY
        } else {
            self.receiving_word = true;
            ReturnCode::SUCCESS
        }
    }

    /// Cancel the armed receive, returning it if one was armed.
    pub fn receive_abort(&mut self) -> (r: Option<RxRequest>)
        ensures
            r == old(self).rx,
            *final(self) == (UART { rx: None, ..*old(self) }),
    {
        self.rx.take()
    }

    /// Service the peripheral from thread context.  If a receive is armed,
    /// the receive FIFO drains into it until the arming finishes or the
    /// FIFO empties; a finished request masks the receive interrupts and
    /// comes back to the caller.  If a transmission is armed, remaining
    /// bytes move to the transmit FIFO while it has room; an emptied
    /// request masks the transmit interrupts and comes back.
    pub fn handle_interrupt(&mut self, wire: &mut UartWire) -> (r: (
        Option<TxRequest>,
        Option<RxRequest>,
    ))
        requires
            old(wire).wf(),
        ensures
            final(wire).wf(),
            final(wire).tx_capacity == old(wire).tx_capacity,
            final(self).num == old(self).num,
            final(self).receiving_word == old(self).receiving_word,
            final(self).enabled == old(self).enabled,
            old(self).rx is None ==> {
                &&& r.1 is None
                &&& final(self).rx is None
                &&& final(wire).rx_fifo@ == old(wire).rx_fifo@
                &&& final(self).int_rx == old(self).int_rx
                &&& final(self).int_rx_timeout == old(self).int_rx_timeout
            },
            old(self).rx matches Some(req) ==> {
                let fed = req@.feed(old(wire).rx_fifo@);
                &&& final(wire).rx_fifo@ == old(wire).rx_fifo@.skip(
                    req@.feed_count(old(wire).rx_fifo@),
                )
                &&& if fed.done() {
                    &&& (r.1 matches Some(out) && out@ == fed)
                    &&& final(self).rx is None
                    &&& !final(self).int_rx
                    &&& !final(self).int_rx_timeout
                } else {
                    &&& r.1 is None
                    &&& (final(self).rx matches Some(kept) && kept@ == fed)
                    &&& final(self).int_rx == old(self).int_rx
                    &&& final(self).int_rx_timeout == old(self).int_rx_timeout
                }
            },
            old(self).tx is None ==> {
                &&& r.0 is None
                &&& final(self).tx is None
                &&& final(wire).tx_fifo@ == old(wire).tx_fifo@
                &&& final(self).int_tx == old(self).int_tx
                &&& final(self).int_eot == old(self).int_eot
            },
            old(self).tx matches Some(t) ==> {
                let space = old(wire).tx_capacity - old(wire).tx_fifo@.len();
                let idx2 = t.index + spec_tx_sent(t, space);
                &&& final(wire).tx_fifo@ == old(wire).tx_fifo@ + spec_tx_chunk(t, space)
                &&& if idx2 >= t.buf@.len() {
                    &&& (r.0 matches Some(out) && out.buf@ == t.buf@ && out.index == idx2)
                    &&& final(self).tx is None
                    &&& !final(self).int_tx
                    &&& !final(self).int_eot
                } else {
                    &&& r.0 is None
                    &&& (final(self).tx matches Some(kept) && kept.buf@ == t.buf@
                        && kept.index == idx2)
                    &&& final(self).int_tx == old(self).int_tx
                    &&& final(self).int_eot == old(self).int_eot
                }
            },
    {
        let mut tx_complete: Option<TxRequest> = None;
        let mut rx_complete: Option<RxRequest> = None;

        // Receive half: drain arrived bytes into the armed request.
        match self.rx.take() {
            Some(mut req) => {
                let done = rx_drain(&mut req, wire);
                if done {
                    self.int_rx = false;
                    self.int_rx_timeout = false;
                    rx_complete = Some(req);
                } else {
                    self.rx = Some(req);
                }
            },
            None => {},
        }

        // Transmit half: move remaining bytes into the transmit FIFO.
        match self.tx.take() {
            Some(mut t) => {
                tx_drain(&mut t, wire);
                if t.request_completed() {
                    self.int_tx = false;
                    self.int_eot = false;
                    tx_complete = Some(t);
                } else {
                    self.tx = Some(t);
                }
            },
            None => {},
        }

        (tx_complete, rx_complete)
    }
}

/// Drain the receive FIFO into an armed request until the arming finishes
/// or the FIFO empties; returns whether it finished.
fn rx_drain(req: &mut RxRequest, wire: &mut UartWire) -> (done: bool)
    ensures
        final(wire).tx_fifo@ == old(wire).tx_fifo@,
        final(wire).tx_capacity == old(wire).tx_capacity,
        final(req)@ == old(req)@.feed(old(wire).rx_fifo@),
        final(wire).rx_fifo@ == old(wire).rx_fifo@.skip(
            old(req)@.feed_count(old(wire).rx_fifo@),
        ),
        done == final(req)@.done(),
{
    let ghost orig_req = req@;
    let ghost orig_fifo = wire.rx_fifo@;
    let mut done = req.request_completed() || req.new_line_return;
    while !done && wire.rx_fifo.len() > 0
        invariant
            done == req@.done(),
            orig_req.feed(orig_fifo) == req@.feed(wire.rx_fifo@),
            wire.rx_fifo@.len() <= orig_fifo.len(),
            orig_req.feed_count(orig_fifo) == (orig_fifo.len() - wire.rx_fifo@.len())
                + req@.feed_count(wire.rx_fifo@),
            wire.rx_fifo@ == orig_fifo.skip(orig_fifo.len() - wire.rx_fifo@.len()),
            wire.tx_fifo@ == old(wire).tx_fifo@,
            wire.tx_capacity == old(wire).tx_capacity,
        decreases wire.rx_fifo@.len(),
    {
        let ghost before = req@;
        let ghost fifo_before = wire.rx_fifo@;
        let b = wire.rx_fifo.remove(0);
        proof {
            assert(wire.rx_fifo@ =~= fifo_before.drop_first());
        }
        done = req.push_wire_byte(b);
        proof {
            assert(before.feed(fifo_before) == if before.push_wire_byte(b).done() {
                before.push_wire_byte(b)
            } else {
                before.push_wire_byte(b).feed(fifo_before.drop_first())
            });
            assert(wire.rx_fifo@ =~= orig_fifo.skip(orig_fifo.len() - wire.rx_fifo@.len()));
        }
    }
    done
}

/// Move remaining request bytes into the transmit FIFO while it has room.
fn tx_drain(t: &mut TxRequest, wire: &mut UartWire)
    requires
        old(wire).wf(),
    ensures
        final(wire).wf(),
        final(wire).rx_fifo@ == old(wire).rx_fifo@,
        final(wire).tx_capacity == old(wire).tx_capacity,
        final(t).buf@ == old(t).buf@,
        ({
            let space = old(wire).tx_capacity - old(wire).tx_fifo@.len();
            &&& final(t).index == old(t).index + spec_tx_sent(*old(t), space)
            &&& final(wire).tx_fifo@ == old(wire).tx_fifo@ + spec_tx_chunk(*old(t), space)
        }),
{
    let ghost orig_t = *t;
    let ghost orig_fifo = wire.tx_fifo@;
    if t.index >= t.buf.len() {
        proof {
            assert(spec_tx_sent(orig_t, old(wire).tx_capacity - orig_fifo.len()) == 0);
            assert(wire.tx_fifo@ =~= orig_fifo + spec_tx_chunk(
                orig_t,
                old(wire).tx_capacity - orig_fifo.len(),
            ));
        }
        return ;
    }
    while wire.tx_fifo.len() < wire.tx_capacity && t.index < t.buf.len()
        invariant
            wire.wf(),
            orig_t.index <= t.index <= t.buf@.len(),
            t.buf@ == orig_t.buf@,
            wire.rx_fifo@ == old(wire).rx_fifo@,
            wire.tx_capacity == old(wire).tx_capacity,
            t.index - orig_t.index == wire.tx_fifo@.len() - orig_fifo.len(),
            wire.tx_fifo@ == orig_fifo + orig_t.buf@.subrange(
                orig_t.index as int,
                t.index as int,
            ),
        decreases t.buf@.len() - t.index,
    {
        match t.pop() {
            Some(b) => {
                wire.tx_fifo.push(b);
                proof {
                    assert(wire.tx_fifo@ =~= orig_fifo + orig_t.buf@.subrange(
                        orig_t.index as int,
                        t.index as int,
                    ));
                }
            },
            None => {
                proof {
                    assert(false);
                }
            },
        }
    }
    proof {
        let space = old(wire).tx_capacity - orig_fifo.len();
        assert(t.index - orig_t.index == spec_tx_sent(orig_t, space));
        assert(wire.tx_fifo@ =~= orig_fifo + spec_tx_chunk(orig_t, space));
    }
}

} // verus!
