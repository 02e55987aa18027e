//! The event-priority dispatcher's pending-event set.
//!
//! One bit per hardware-origin priority in a process-wide 64-bit word.
//! Interrupt shims set bits; thread-mode code drains them in ascending
//! bit-index order (the lowest index is the highest priority).  Setting an
//! already-set bit is idempotent and clearing happens only in thread mode.

use vstd::prelude::*;

verus! {

/// Number of distinct priority bit positions in use (indices `0..14`,
/// with index `5` unassigned).
pub const EVENT_INDEX_LIMIT: u64 = 14;

/// Mask of the bit positions that carry a mapped priority.
pub const MAPPED_EVENT_MASK: u64 = 0x3FDF;

/// A hardware-origin event priority.  Each variant maps to exactly one bit
/// position; numerically smaller positions are drained first.
#[allow(non_camel_case_types)]
#[derive(Clone, Copy, Debug, PartialEq, Eq, Structural)]
pub enum EVENT_PRIORITY {
    /// General-purpose I/O edge, bit 0 (drained before everything else).
    GPIO,
    /// Second UART peripheral, bit 1.
    UART1,
    /// First UART peripheral, bit 2.
    UART0,
    /// Always-on domain real-time clock, bit 3.
    AON_RTC,
    /// Real-time clock alarm, bit 4.
    RTC,
    /// I2C master, bit 6.
    I2C0,
    /// Always-on domain programmable event, bit 7.
    AON_PROG,
    /// Radio core hardware fault, bit 8.
    RF_CORE_HW,
    /// Radio direct-command acknowledgement, bit 9.
    RF_CMD_ACK,
    /// Radio command-and-packet-engine interrupt line 0, bit 10.
    RF_CORE_CPE0,
    /// Radio command-and-packet-engine interrupt line 1, bit 11.
    RF_CORE_CPE1,
    /// Oscillator interrupt, bit 12.
    OSC,
    /// Auxiliary-domain analog-to-digital converter, bit 13.
    AUX_ADC,
}

/// True of the bit positions that carry a mapped priority.
pub open spec fn spec_mapped_index(i: u64) -> bool {
    i < EVENT_INDEX_LIMIT && i != 5
}

/// The mask with the low `c` bits set, for `c <= 63`.
pub open spec fn low_mask(c: u64) -> u64 {
    ((1u64 << c) - 1) as u64
}

/// True when bit `i` is set in `bits`.
pub open spec fn spec_has_bit(bits: u64, i: u64) -> bool {
    bits & (1u64 << i) != 0
}

impl EVENT_PRIORITY {
    /// The bit position this priority occupies.
    pub open spec fn spec_index(self) -> u64 {
        match self {
            EVENT_PRIORITY::GPIO => 0,
            EVENT_PRIORITY::UART1 => 1,
            EVENT_PRIORITY::UART0 => 2,
            EVENT_PRIORITY::AON_RTC => 3,
            EVENT_PRIORITY::RTC => 4,
            EVENT_PRIORITY::I2C0 => 6,
            EVENT_PRIORITY::AON_PROG => 7,
            EVENT_PRIORITY::RF_CORE_HW => 8,
            EVENT_PRIORITY::RF_CMD_ACK => 9,
            EVENT_PRIORITY::RF_CORE_CPE0 => 10,
            EVENT_PRIORITY::RF_CORE_CPE1 => 11,
            EVENT_PRIORITY::OSC => 12,
            EVENT_PRIORITY::AUX_ADC => 13,
        }
    }

    /// Bit position of this priority.
    pub fn index(self) -> (i: u64)
        ensures
            i == self.spec_index(),
            spec_mapped_index(i),
    {
        match self {
            EVENT_PRIORITY::GPIO => 0,
            EVENT_PRIORITY::UART1 => 1,
            EVENT_PRIORITY::UART0 => 2,
            EVENT_PRIORITY::AON_RTC => 3,
            EVENT_PRIORITY::RTC => 4,
            EVENT_PRIORITY::I2C0 => 6,
            EVENT_PRIORITY::AON_PROG => 7,
            EVENT_PRIORITY::RF_CORE_HW => 8,
            EVENT_PRIORITY::RF_CMD_ACK => 9,
            EVENT_PRIORITY::RF_CORE_CPE0 => 10,
            EVENT_PRIORITY::RF_CORE_CPE1 => 11,
            EVENT_PRIORITY::OSC => 12,
            EVENT_PRIORITY::AUX_ADC => 13,
        }
    }

    /// The priority mapped to bit position `i`, if any.  The priority
    /// enumeration is dense over the mapped positions, so this returns a
    /// value exactly for them.
    pub fn from_index(i: u64) -> (r: Option<EVENT_PRIORITY>)
        ensures
            r matches Some(p) ==> p.spec_index() == i,
            r is Some <==> spec_mapped_index(i),
    {
        match i {
            0 => Some(EVENT_PRIORITY::GPIO),
            1 => Some(EVENT_PRIORITY::UART1),
            2 => Some(EVENT_PRIORITY::UART0),
            3 => Some(EVENT_PRIORITY::AON_RTC),
            4 => Some(EVENT_PRIORITY::RTC),
            6 => Some(EVENT_PRIORITY::I2C0),
            7 => Some(EVENT_PRIORITY::AON_PROG),
            8 => Some(EVENT_PRIORITY::RF_CORE_HW),
            9 => Some(EVENT_PRIORITY::RF_CMD_ACK),
            10 => Some(EVENT_PRIORITY::RF_CORE_CPE0),
            11 => Some(EVENT_PRIORITY::RF_CORE_CPE1),
            12 => Some(EVENT_PRIORITY::OSC),
            13 => Some(EVENT_PRIORITY::AUX_ADC),
            _ => None,
        }
    }
}

/// The process-wide pending-event word.
pub struct EventSet {
    bits: u64,
}

impl EventSet {
    /// The raw pending word.
    pub closed spec fn spec_bits(self) -> u64 {
        self.bits
    }

    /// True when priority `p`'s bit is pending.
    pub open spec fn contains(self, p: EVENT_PRIORITY) -> bool {
        spec_has_bit(self.spec_bits(), p.spec_index())
    }

    /// Only mapped bit positions are ever set.
    pub open spec fn wf(self) -> bool {
        self.spec_bits() & MAPPED_EVENT_MASK == self.spec_bits()
    }

    /// An empty pending set.
    pub fn new() -> (s: EventSet)
        ensures
            s.spec_bits() == 0,
            s.wf(),
    {
        proof {
            assert(0u64 & 0x3FDF == 0u64) by (bit_vector);
        }
        EventSet { bits: 0 }
    }

    /// Set priority `p`'s bit.  Idempotent, and loses no bit that was
    /// already pending; in the running kernel this store happens under the
    /// interrupt-disabling critical section.
    pub fn set_event_flag(&mut self, p: EVENT_PRIORITY)
        ensures
            final(self).spec_bits() == old(self).spec_bits() | (1u64 << p.spec_index()),
            final(self).contains(p),
            forall|q: EVENT_PRIORITY| old(self).contains(q) ==> final(self).contains(q),
            forall|q: EVENT_PRIORITY|
                q.spec_index() != p.spec_index()
                    ==> final(self).contains(q) == old(self).contains(q),
            old(self).wf() ==> final(self).wf(),
    {
        let i = p.index();
        let ghost b = self.bits;
        self.bits = self.bits | (1u64 << i);
        proof {
            lemma_or_bit_effect(b, i);
            lemma_mapped_bit_in_mask(i);
            assert forall|q: EVENT_PRIORITY| #[trigger] old(self).contains(q)
                implies self.contains(q) by {
                lemma_or_bit_effect(b, i);
            }
        }
    }

    /// Clear priority `p`'s bit; thread-mode only.  No other bit changes.
    pub fn clear_event_flag(&mut self, p: EVENT_PRIORITY)
        ensures
            final(self).spec_bits() == old(self).spec_bits() & !(1u64 << p.spec_index()),
            !final(self).contains(p),
            forall|q: EVENT_PRIORITY|
                q.spec_index() != p.spec_index()
                    ==> final(self).contains(q) == old(self).contains(q),
            old(self).wf() ==> final(self).wf(),
    {
        let i = p.index();
        let ghost b = self.bits;
        self.bits = self.bits & !(1u64 << i);
        proof {
            lemma_and_not_bit_effect(b, i);
            lemma_mapped_bit_in_mask(i);
        }
    }

    /// True when any bit is pending.
    pub fn has_event(&self) -> (r: bool)
        ensures
            r <==> self.spec_bits() != 0,
    {
        self.bits != 0
    }

    /// The lowest pending bit's priority, without clearing it; `None`
    /// exactly when nothing is pending.
    pub fn next_pending(&self) -> (r: Option<EVENT_PRIORITY>)
        requires
            self.wf(),
        ensures
            match r {
                None => self.spec_bits() == 0 && spec_next_pending(self.spec_bits()) is None,
                Some(p) => {
                    &&& self.contains(p)
                    &&& forall|j: u64| j < p.spec_index() ==> !spec_has_bit(self.spec_bits(), j)
                    &&& spec_next_pending(self.spec_bits()) == Some(p.spec_index())
                },
            },
    {
        let b = self.bits;
        proof {
            assert(b & low_mask(0) == 0) by (bit_vector);
        }
        let mut count: u64 = 0;
        while count < EVENT_INDEX_LIMIT
            invariant
                b == self.spec_bits(),
                count <= EVENT_INDEX_LIMIT,
                b & MAPPED_EVENT_MASK == b,
                b & low_mask(count) == 0,
            decreases EVENT_INDEX_LIMIT - count,
        {
            if (b >> count) & 1 == 1 {
                proof {
                    lemma_shifted_bit_is_has(b, count);
                    lemma_low_bits_clear(b, count);
                    assert(count != 5) by (bit_vector)
                        requires
                            b & 0x3FDF == b,
                            (b >> count) & 1 == 1,
                    ;
                }
                let p = match EVENT_PRIORITY::from_index(count) {
                    Some(p) => p,
                    None => {
                        proof {
                            assert(false);
                        }
                        EVENT_PRIORITY::GPIO
                    },
                };
                proof {
                    lemma_minimal_is_next(b, count);
                }
                return Some(p);
            }
            proof {
                assert(b & low_mask((count + 1) as u64) == 0) by (bit_vector)
                    requires
                        count < 14,
                        b & low_mask(count) == 0,
                        (b >> count) & 1 != 1,
                ;
            }
            count = count + 1;
        }
        proof {
            assert(b == 0) by (bit_vector)
                requires
                    b & 0x3FDF == b,
                    b & low_mask(14) == 0,
            ;
            lemma_next_pending_of_empty();
        }
        None
    }
}

/// Setting bit `i` sets exactly bit `i` and keeps every other bit.
proof fn lemma_or_bit_effect(b: u64, i: u64)
    by (bit_vector)
    requires
        i < 64,
    ensures
        (b | (1u64 << i)) & (1u64 << i) != 0,
        forall|j: u64|
            j < 64 && j != i ==> ((b | (1u64 << i)) & (1u64 << j)) == (b & (1u64 << j)),
        forall|j: u64| j < 64 && b & (1u64 << j) != 0 ==> (b | (1u64 << i)) & (1u64 << j) != 0,
{
}

/// Clearing bit `i` clears exactly bit `i` and keeps every other bit.
proof fn lemma_and_not_bit_effect(b: u64, i: u64)
    by (bit_vector)
    requires
        i < 64,
    ensures
        (b & !(1u64 << i)) & (1u64 << i) == 0,
        forall|j: u64|
            j < 64 && j != i ==> ((b & !(1u64 << i)) & (1u64 << j)) == (b & (1u64 << j)),
{
}

/// A mapped bit position lies inside the mapped mask, so setting or
/// clearing it preserves well-formedness of the pending word.
proof fn lemma_mapped_bit_in_mask(i: u64)
    by (bit_vector)
    requires
        i < 14,
        i != 5,
    ensures
        (1u64 << i) & 0x3FDF == (1u64 << i),
        forall|b: u64|
            b & 0x3FDF == b ==> (b | (1u64 << i)) & 0x3FDF == (b | (1u64 << i)),
        forall|b: u64|
            b & 0x3FDF == b ==> (b & !(1u64 << i)) & 0x3FDF == (b & !(1u64 << i)),
{
}

/// The shifted-out low bit agrees with the mask test for the same position.
proof fn lemma_shifted_bit_is_has(b: u64, i: u64)
    by (bit_vector)
    requires
        i < 64,
    ensures
        ((b >> i) & 1 == 1) <==> (b & (1u64 << i) != 0),
{
}

/// If the low `c` bits of `b` are zero as a mask, each position below `c`
/// is clear individually.
proof fn lemma_low_bits_clear(b: u64, c: u64)
    by (bit_vector)
    requires
        c < 64,
        b & low_mask(c) == 0,
    ensures
        forall|j: u64| j < c ==> b & (1u64 << j) == 0,
{
}

/// Setting bit `i` leaves bit `j` set exactly when it was set before or
/// `j == i`.
proof fn lemma_or_bit_iff(b: u64, i: u64, j: u64)
    by (bit_vector)
    requires
        i < 64,
        j < 64,
    ensures
        ((b | (1u64 << i)) & (1u64 << j) != 0) <==> (b & (1u64 << j) != 0 || i == j),
{
}

/// The lowest set bit position at or above `c`, if any.
pub open spec fn spec_lowest_from(bits: u64, c: u64) -> Option<u64>
    decreases 64 - c,
{
    if c >= 64 {
        None
    } else if spec_has_bit(bits, c) {
        Some(c)
    } else {
        spec_lowest_from(bits, (c + 1) as u64)
    }
}

/// The lowest set bit position of the pending word, if any: the priority a
/// drain observes next.
pub open spec fn spec_next_pending(bits: u64) -> Option<u64> {
    spec_lowest_from(bits, 0)
}

/// `spec_lowest_from(bits, c)` returns the minimal set position at or
/// above `c`, and `None` exactly when every position at or above `c` is
/// clear.
proof fn lemma_lowest_from_characterization(bits: u64, c: u64)
    requires
        c <= 64,
    ensures
        match spec_lowest_from(bits, c) {
            Some(i) => {
                &&& c <= i < 64
                &&& spec_has_bit(bits, i)
                &&& forall|j: u64| c <= j < i ==> !spec_has_bit(bits, j)
            },
            None => forall|j: u64| c <= j < 64 ==> !spec_has_bit(bits, j),
        },
    decreases 64 - c,
{
    if c >= 64 {
    } else if spec_has_bit(bits, c) {
    } else {
        lemma_lowest_from_characterization(bits, (c + 1) as u64);
    }
}

/// A position that is set while every lower position is clear is exactly
/// what `spec_next_pending` returns.
pub proof fn lemma_minimal_is_next(bits: u64, i: u64)
    requires
        i < 64,
        spec_has_bit(bits, i),
        forall|j: u64| j < i ==> !spec_has_bit(bits, j),
    ensures
        spec_next_pending(bits) == Some(i),
{
    lemma_lowest_from_characterization(bits, 0);
    match spec_lowest_from(bits, 0) {
        Some(k) => {
            if k < i {
                assert(!spec_has_bit(bits, k));
            } else if i < k {
                assert(!spec_has_bit(bits, i));
            }
        },
        None => {
            assert(!spec_has_bit(bits, i));
        },
    }
}

/// The pending word after a sequence of `set` calls on an empty word.
pub open spec fn set_all(ps: Seq<EVENT_PRIORITY>) -> u64
    decreases ps.len(),
{
    if ps.len() == 0 {
        0
    } else {
        set_all(ps.drop_last()) | (1u64 << ps.last().spec_index())
    }
}

/// After a sequence of `set` calls on an empty word, a position is set
/// exactly when some call named a priority with that position: no call is
/// ever lost and none is invented.
pub proof fn lemma_set_all_bits(ps: Seq<EVENT_PRIORITY>)
    ensures
        forall|j: u64|
            j < 64
                ==> (spec_has_bit(set_all(ps), j) <==> exists|k: int|
                    0 <= k < ps.len() && ps[k].spec_index() == j),
    decreases ps.len(),
{
    if ps.len() == 0 {
        assert forall|j: u64| j < 64 implies !spec_has_bit(0, j) by {
            assert(0u64 & (1u64 << j) == 0) by (bit_vector)
                requires
                    j < 64,
            ;
        }
    } else {
        let prefix = ps.drop_last();
        let p = ps.last();
        lemma_priority_index_bound(p);
        lemma_set_all_bits(prefix);
        assert(set_all(ps) == set_all(prefix) | (1u64 << p.spec_index()));
        assert forall|j: u64| j < 64 implies (spec_has_bit(set_all(ps), j) <==> exists|k: int|
            0 <= k < ps.len() && ps[k].spec_index() == j) by {
            lemma_or_bit_iff(set_all(prefix), p.spec_index(), j);
            if spec_has_bit(set_all(ps), j) {
                if spec_has_bit(set_all(prefix), j) {
                    let k = choose|k: int|
                        0 <= k < prefix.len() && prefix[k].spec_index() == j;
                    assert(ps[k] == prefix[k]);
                    assert(ps[k].spec_index() == j);
                } else {
                    assert(p.spec_index() == j);
                    assert(ps[ps.len() - 1].spec_index() == j);
                }
            }
            if exists|k: int| 0 <= k < ps.len() && ps[k].spec_index() == j {
                let k = choose|k: int| 0 <= k < ps.len() && ps[k].spec_index() == j;
                if k < ps.len() - 1 {
                    assert(prefix[k] == ps[k]);
                    assert(spec_has_bit(set_all(prefix), j));
                } else {
                    assert(p.spec_index() == j);
                }
                assert(spec_has_bit(set_all(ps), j));
            }
        }
    }
}

/// Every priority's bit position is below the mapped limit.
pub proof fn lemma_priority_index_bound(p: EVENT_PRIORITY)
    ensures
        p.spec_index() < 14,
        spec_mapped_index(p.spec_index()),
{
    match p {
        EVENT_PRIORITY::GPIO => {},
        EVENT_PRIORITY::UART1 => {},
        EVENT_PRIORITY::UART0 => {},
        EVENT_PRIORITY::AON_RTC => {},
        EVENT_PRIORITY::RTC => {},
        EVENT_PRIORITY::I2C0 => {},
        EVENT_PRIORITY::AON_PROG => {},
        EVENT_PRIORITY::RF_CORE_HW => {},
        EVENT_PRIORITY::RF_CMD_ACK => {},
        EVENT_PRIORITY::RF_CORE_CPE0 => {},
        EVENT_PRIORITY::RF_CORE_CPE1 => {},
        EVENT_PRIORITY::OSC => {},
        EVENT_PRIORITY::AUX_ADC => {},
    }
}

/// Event bitset monotonicity: for every non-empty sequence of `set` calls
/// on an empty word, a single `next_pending` observes the minimum bit
/// position among the priorities that were set since the last clear.
pub proof fn lemma_next_pending_is_min_of_sets(ps: Seq<EVENT_PRIORITY>)
    requires
        ps.len() > 0,
    ensures
        ({
            let r = spec_next_pending(set_all(ps));
            &&& r matches Some(i)
            &&& (exists|k: int| 0 <= k < ps.len() && ps[k].spec_index() == r.unwrap())
            &&& (forall|k: int| 0 <= k < ps.len() ==> r.unwrap() <= ps[k].spec_index())
        }),
{
    let b = set_all(ps);
    lemma_set_all_bits(ps);
    assert(ps[0].spec_index() < 64);
    assert(spec_has_bit(b, ps[0].spec_index()));
    lemma_lowest_from_characterization(b, 0);
    match spec_lowest_from(b, 0) {
        Some(i) => {
            assert forall|k: int| 0 <= k < ps.len() implies i <= ps[k].spec_index() by {
                assert(spec_has_bit(b, ps[k].spec_index()));
            }
        },
        None => {
            assert(!spec_has_bit(b, ps[0].spec_index()));
        },
    }
}

/// Priority ordering: clearing the pending minimum and asking again yields
/// a strictly larger bit position, so a drain loop that clears each
/// priority before handling it sees strictly ascending positions until the
/// word is empty.
pub proof fn lemma_drain_strictly_ascending(bits: u64, i: u64)
    requires
        spec_next_pending(bits) == Some(i),
    ensures
        ({
            let rest = bits & !(1u64 << i);
            match spec_next_pending(rest) {
                None => true,
                Some(j) => j > i,
            }
        }),
{
    lemma_lowest_from_characterization(bits, 0);
    let rest = bits & !(1u64 << i);
    lemma_and_not_bit_effect(bits, i);
    lemma_lowest_from_characterization(rest, 0);
    match spec_lowest_from(rest, 0) {
        Some(j) => {
            if j < i {
                assert(rest & (1u64 << j) == (bits & (1u64 << j)));
                assert(!spec_has_bit(bits, j));
            } else if j == i {
                assert(!spec_has_bit(rest, i));
            }
        },
        None => {},
    }
}

/// Critical-section atomicity: two `set` calls issued from two interrupt
/// handlers reach the pending word in some serial order (each store runs
/// under the interrupt-disabling critical section), and either order
/// yields the same word, with both new bits present and no prior bit lost.
pub proof fn lemma_concurrent_sets_lose_no_bit(b: u64, p: EVENT_PRIORITY, q: EVENT_PRIORITY)
    ensures
        (b | (1u64 << p.spec_index())) | (1u64 << q.spec_index()) == (b | (1u64
            << q.spec_index())) | (1u64 << p.spec_index()),
        spec_has_bit((b | (1u64 << p.spec_index())) | (1u64 << q.spec_index()), p.spec_index()),
        spec_has_bit((b | (1u64 << p.spec_index())) | (1u64 << q.spec_index()), q.spec_index()),
        forall|j: u64|
            j < 64 && spec_has_bit(b, j)
                ==> spec_has_bit((b | (1u64 << p.spec_index())) | (1u64 << q.spec_index()), j),
{
    let i1 = p.spec_index();
    let i2 = q.spec_index();
    assert((b | (1u64 << i1)) | (1u64 << i2) == (b | (1u64 << i2)) | (1u64 << i1))
        by (bit_vector);
    assert(((b | (1u64 << i1)) | (1u64 << i2)) & (1u64 << i1) != 0) by (bit_vector)
        requires
            i1 < 64,
    ;
    assert(((b | (1u64 << i1)) | (1u64 << i2)) & (1u64 << i2) != 0) by (bit_vector)
        requires
            i2 < 64,
    ;
    assert(forall|j: u64|
        j < 64 && b & (1u64 << j) != 0 ==> ((b | (1u64 << i1)) | (1u64 << i2)) & (1u64 << j)
            != 0) by (bit_vector);
}

/// Nothing is pending in the empty word.
pub proof fn lemma_next_pending_of_empty()
    ensures
        spec_next_pending(0) is None,
{
    lemma_lowest_from_characterization(0, 0);
    match spec_lowest_from(0, 0) {
        Some(i) => {
            assert(0u64 & (1u64 << i) == 0) by (bit_vector)
                requires
                    i < 64,
            ;
        },
        None => {},
    }
}

} // verus!
