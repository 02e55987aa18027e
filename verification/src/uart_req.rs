//! Driver-owned UART request descriptors.
//!
//! A request moves through three states within one arming: *idle* (no
//! progress), *armed* (bytes remain), *completed* (the transmit index
//! reached the buffer length, or a newline arrived on receive).  The
//! transitions are monotonic within one arming; `reset` starts the next.

use vstd::prelude::*;

verus! {

/// The byte that terminates a line on receive.
pub const NEWLINE_BYTE: u8 = 10;

/// A buffered transmit request: the next byte to go out is `buf[index]`.
pub struct TxRequest {
    /// Bytes to transmit.
    pub buf: Vec<u8>,
    /// Number of bytes already handed to the hardware.
    pub index: usize,
}

impl TxRequest {
    /// True when every byte has been handed out.
    pub open spec fn spec_completed(self) -> bool {
        self.index >= self.buf@.len()
    }

    /// Number of bytes still to send.
    pub open spec fn spec_remaining(self) -> int {
        if self.index <= self.buf@.len() {
            self.buf@.len() - self.index
        } else {
            0
        }
    }

    /// An idle request with no bytes.
    pub fn new() -> (r: TxRequest)
        ensures
            r.buf@ == Seq::<u8>::empty(),
            r.index == 0,
    {
        TxRequest { buf: Vec::new(), index: 0 }
    }

    /// Arm the request with fresh contents, starting from the first byte.
    pub fn set(&mut self, data: Vec<u8>)
        ensures
            final(self).buf@ == data@,
            final(self).index == 0,
    {
        self.buf = data;
        self.index = 0;
    }

    /// Restart the current contents from the first byte.
    pub fn reset(&mut self)
        ensures
            final(self).buf@ == old(self).buf@,
            final(self).index == 0,
    {
        self.index = 0;
    }

    /// Hand out the next byte, if one remains.
    pub fn pop(&mut self) -> (r: Option<u8>)
        ensures
            final(self).buf@ == old(self).buf@,
            match r {
                Some(b) => {
                    &&& old(self).index < old(self).buf@.len()
                    &&& b == old(self).buf@[old(self).index as int]
                    &&& final(self).index == old(self).index + 1
                },
                None => {
                    &&& old(self).spec_completed()
                    &&& final(self).index == old(self).index
                },
            },
    {
        if self.index < self.buf.len() {
            let b = self.buf[self.index];
            self.index = self.index + 1;
            Some(b)
        } else {
            None
        }
    }

    /// True when every byte has been handed out.
    pub fn request_completed(&self) -> (r: bool)
        ensures
            r == self.spec_completed(),
    {
        self.index >= self.buf.len()
    }

    /// True while at least one byte remains.
    pub fn has_some(&self) -> (r: bool)
        ensures
            r == !self.spec_completed(),
    {
        self.index < self.buf.len()
    }
}

/// The mathematical model of a receive request.
pub ghost struct RxModel {
    /// Backing storage contents; its length is the capacity.
    pub buf: Seq<u8>,
    /// Number of bytes received so far.
    pub index: int,
    /// A newline arrived and a terminator byte was appended.
    pub new_line_return: bool,
}

impl RxModel {
    /// The request's capacity.
    pub open spec fn capacity(self) -> int {
        self.buf.len() as int
    }

    /// True when the buffer is full.
    pub open spec fn completed(self) -> bool {
        self.index >= self.buf.len()
    }

    /// True when the arming is over: the buffer filled or a newline arrived.
    pub open spec fn done(self) -> bool {
        self.completed() || self.new_line_return
    }

    /// One byte stored at the fill index; a full buffer drops it.
    pub open spec fn push(self, b: u8) -> RxModel {
        if 0 <= self.index < self.buf.len() {
            RxModel {
                buf: self.buf.update(self.index, b),
                index: self.index + 1,
                new_line_return: self.new_line_return,
            }
        } else {
            self
        }
    }

    /// One byte taken off the receive FIFO: a newline raises the
    /// line-return flag and appends a terminator byte after it.
    pub open spec fn push_wire_byte(self, b: u8) -> RxModel {
        let flagged = RxModel {
            buf: self.buf,
            index: self.index,
            new_line_return: self.new_line_return || b == NEWLINE_BYTE,
        };
        let pushed = flagged.push(b);
        if pushed.new_line_return {
            pushed.push(0)
        } else {
            pushed
        }
    }

    /// The request after draining FIFO bytes into it, stopping at the
    /// first byte that finishes the arming.
    pub open spec fn feed(self, bytes: Seq<u8>) -> RxModel
        decreases bytes.len(),
    {
        if bytes.len() == 0 || self.done() {
            self
        } else {
            let next = self.push_wire_byte(bytes[0]);
            if next.done() {
                next
            } else {
                next.feed(bytes.drop_first())
            }
        }
    }

    /// How many FIFO bytes the drain consumes.
    pub open spec fn feed_count(self, bytes: Seq<u8>) -> int
        decreases bytes.len(),
    {
        if bytes.len() == 0 || self.done() {
            0
        } else {
            let next = self.push_wire_byte(bytes[0]);
            if next.done() {
                1
            } else {
                1 + next.feed_count(bytes.drop_first())
            }
        }
    }
}

/// A buffered receive request: arrived bytes fill `buf` from the front.
pub struct RxRequest {
    /// Backing storage; its length is the request's capacity.
    pub buf: Vec<u8>,
    /// Number of bytes received so far.
    pub index: usize,
    /// A newline arrived and a terminator byte was appended.
    pub new_line_return: bool,
}

impl View for RxRequest {
    type V = RxModel;

    open spec fn view(&self) -> RxModel {
        RxModel { buf: self.buf@, index: self.index as int, new_line_return: self.new_line_return }
    }
}

impl RxRequest {
    /// An idle request with no storage.
    pub fn new() -> (r: RxRequest)
        ensures
            r@.buf == Seq::<u8>::empty(),
            r@.index == 0,
            !r@.new_line_return,
    {
        RxRequest { buf: Vec::new(), index: 0, new_line_return: false }
    }

    /// Give the request its backing storage and start a fresh arming.
    pub fn set_buf(&mut self, buf: Vec<u8>)
        ensures
            final(self)@.buf == buf@,
            final(self)@.index == 0,
            !final(self)@.new_line_return,
    {
        self.buf = buf;
        self.index = 0;
        self.new_line_return = false;
    }

    /// Start a fresh arming over the same storage.
    pub fn reset(&mut self)
        ensures
            final(self)@.buf == old(self)@.buf,
            final(self)@.index == 0,
            !final(self)@.new_line_return,
    {
        self.index = 0;
        self.new_line_return = false;
    }

    /// Store one byte at the fill index; a full buffer drops it.
    pub fn push(&mut self, b: u8)
        ensures
            final(self)@ == old(self)@.push(b),
    {
        if self.index < self.buf.len() {
            self.buf.set(self.index, b);
            self.index = self.index + 1;
        }
    }

    /// Take one byte off the receive FIFO, per the interrupt handler's
    /// algorithm; returns whether the arming is now over.
    pub fn push_wire_byte(&mut self, b: u8) -> (done: bool)
        ensures
            final(self)@ == old(self)@.push_wire_byte(b),
            done == final(self)@.done(),
    {
        if b == NEWLINE_BYTE {
            self.new_line_return = true;
        }
        self.push(b);
        if self.new_line_return {
            self.push(0);
        }
        self.request_completed() || self.new_line_return
    }

    /// True when the buffer is full.
    pub fn request_completed(&self) -> (r: bool)
        ensures
            r == self@.completed(),
    {
        self.index >= self.buf.len()
    }

    /// Number of bytes received so far.
    pub fn items_pushed(&self) -> (r: usize)
        ensures
            r == self@.index,
    {
        self.index
    }
}

/// UART request completion, the newline-free half: feeding `k` bytes with
/// no newline into a request with `k` or more free slots advances the fill
/// index by exactly `k`, stores the bytes in order, raises no line-return
/// flag, and completes the request exactly when it fills the buffer.
pub proof fn lemma_rx_feed_no_newline(req: RxModel, bytes: Seq<u8>)
    requires
        !req.new_line_return,
        0 <= req.index,
        req.index + bytes.len() <= req.capacity(),
        forall|i: int| 0 <= i < bytes.len() ==> bytes[i] != NEWLINE_BYTE,
    ensures
        ({
            let fed = req.feed(bytes);
            &&& fed.index == req.index + bytes.len()
            &&& !fed.new_line_return
            &&& fed.buf.len() == req.buf.len()
            &&& forall|i: int| 0 <= i < bytes.len() ==> fed.buf[req.index + i] == bytes[i]
            &&& forall|i: int| 0 <= i < req.index ==> fed.buf[i] == req.buf[i]
            &&& (fed.completed() <==> req.index + bytes.len() == req.capacity())
            &&& req.feed_count(bytes) == bytes.len()
        }),
    decreases bytes.len(),
{
    if bytes.len() == 0 || req.done() {
    } else {
        let next = req.push_wire_byte(bytes[0]);
        let rest = bytes.drop_first();
        let fed = req.feed(bytes);
        assert(bytes[0] != NEWLINE_BYTE);
        assert(next.index == req.index + 1);
        assert(next.buf[req.index] == bytes[0]);
        assert(forall|i: int| 0 <= i < req.index ==> next.buf[i] == req.buf[i]);
        if next.done() {
            assert(next.index == req.capacity());
            assert(bytes.len() == 1);
        } else {
            lemma_rx_feed_no_newline(next, rest);
            assert(fed == next.feed(rest));
            assert forall|i: int| 0 <= i < bytes.len() implies fed.buf[req.index + i]
                == bytes[i] by {
                if i == 0 {
                    assert(fed.buf[next.index - 1] == next.buf[next.index - 1]);
                } else {
                    assert(fed.buf[next.index + (i - 1)] == rest[i - 1]);
                    assert(rest[i - 1] == bytes[i]);
                }
            }
            assert(req.feed_count(bytes) == 1 + next.feed_count(rest));
        }
    }
}

/// UART request completion, the newline half: feeding bytes whose first
/// newline sits at position `j`, into a request with at least `j + 2` free
/// slots, stores the `j` leading bytes, the newline, and a terminator
/// byte, advances the fill index by exactly `j + 2`, raises the
/// line-return flag, and consumes exactly `j + 1` bytes off the FIFO.
pub proof fn lemma_rx_feed_newline(req: RxModel, bytes: Seq<u8>, j: int)
    requires
        !req.new_line_return,
        0 <= req.index,
        0 <= j < bytes.len(),
        bytes[j] == NEWLINE_BYTE,
        forall|i: int| 0 <= i < j ==> bytes[i] != NEWLINE_BYTE,
        req.index + j + 2 <= req.capacity(),
    ensures
        ({
            let fed = req.feed(bytes);
            &&& fed.index == req.index + j + 2
            &&& fed.new_line_return
            &&& fed.done()
            &&& fed.buf.len() == req.buf.len()
            &&& forall|i: int| 0 <= i < req.index ==> fed.buf[i] == req.buf[i]
            &&& forall|i: int| 0 <= i < j ==> fed.buf[req.index + i] == bytes[i]
            &&& fed.buf[req.index + j] == NEWLINE_BYTE
            &&& fed.buf[req.index + j + 1] == 0u8
            &&& req.feed_count(bytes) == j + 1
        }),
    decreases j,
{
    let next = req.push_wire_byte(bytes[0]);
    let fed = req.feed(bytes);
    if j == 0 {
        assert(next.new_line_return);
        assert(next.index == req.index + 2);
        assert(next.buf[req.index] == NEWLINE_BYTE);
        assert(next.buf[req.index + 1] == 0u8);
        assert(next.done());
        assert(fed == next);
    } else {
        let rest = bytes.drop_first();
        assert(bytes[0] != NEWLINE_BYTE);
        assert(next.index == req.index + 1);
        assert(next.buf[req.index] == bytes[0]);
        assert(forall|i: int| 0 <= i < req.index ==> next.buf[i] == req.buf[i]);
        assert(!next.done());
        lemma_rx_feed_newline(next, rest, j - 1);
        assert(rest[j - 1] == bytes[j]);
        assert(fed == next.feed(rest));
        assert forall|i: int| 0 <= i < j implies fed.buf[req.index + i] == bytes[i] by {
            if i == 0 {
                assert(fed.buf[next.index - 1] == next.buf[next.index - 1]);
            } else {
                assert(fed.buf[next.index + (i - 1)] == rest[i - 1]);
                assert(rest[i - 1] == bytes[i]);
            }
        }
        assert(fed.buf[next.index + (j - 1)] == NEWLINE_BYTE);
        assert(fed.buf[next.index + (j - 1) + 1] == 0u8);
        assert(req.feed_count(bytes) == 1 + next.feed_count(rest));
    }
}

} // verus!
