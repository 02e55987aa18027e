//! Per-process driver state, shared buffers and callbacks.
//!
//! A [`Grant`] is a per-process, per-driver cell.  At most one *enter* may
//! be active per process at a time: the cell's contents move out at
//! `enter_begin` and back in at `enter_end`, and a second `enter_begin`
//! while the contents are out fails with `AlreadyBorrowed` and changes
//! nothing.  A cell is lazily initialised with a caller-supplied fresh
//! value on its first enter.
//!
//! An [`AppSlice`] names a byte range inside a process's RAM that the
//! process exposed through the *allow* system call.  The process keeps
//! ownership; the driver's borrow is revoked the moment a new allow lands
//! on the same slot.  A driver validates the range against the process's
//! RAM on each use.

use vstd::prelude::*;

use crate::retcode::ReturnCode;

verus! {

/// Why an enter did not run.
#[derive(Clone, Copy, Debug, PartialEq, Eq, Structural)]
pub enum GrantError {
    /// An enter for this process is already active.
    AlreadyBorrowed,
    /// No process occupies this slot.
    NoSuchApp,
}

/// One process's cell in a grant.
pub enum GrantSlot<T> {
    /// Never entered; the first enter initialises it.
    Empty,
    /// Holds the process's state between enters.
    Ready(T),
    /// An enter is active; the state is out with the caller.
    Borrowed,
}

/// Per-process, per-driver state cells with a one-flag reentrancy guard.
pub struct Grant<T> {
    slots: Vec<GrantSlot<T>>,
}

impl<T> Grant<T> {
    /// Number of process slots.
    pub closed spec fn n(self) -> int {
        self.slots@.len() as int
    }

    /// The cell of process `pid`.
    pub closed spec fn slot(self, pid: int) -> GrantSlot<T> {
        self.slots@[pid]
    }

    /// A grant with one never-entered cell per process slot.
    pub fn new(n: usize) -> (g: Grant<T>)
        ensures
            g.n() == n,
            forall|i: int| 0 <= i < n ==> g.slot(i) is Empty,
    {
        let mut slots: Vec<GrantSlot<T>> = Vec::new();
        let mut k: usize = 0;
        while k < n
            invariant
                k <= n,
                slots@.len() == k,
                forall|i: int| 0 <= i < k ==> slots@[i] is Empty,
            decreases n - k,
        {
            slots.push(GrantSlot::Empty);
            k = k + 1;
        }
        Grant { slots }
    }

    /// Number of process slots.
    pub fn len(&self) -> (n: usize)
        ensures
            n == self.n(),
    {
        self.slots.len()
    }

    /// Begin an enter for process `pid`, taking its state out.  A first
    /// enter receives `fresh`; a nested enter fails with `AlreadyBorrowed`
    /// and corrupts nothing; a slot with no process fails with
    /// `NoSuchApp`.
    pub fn enter_begin(&mut self, pid: usize, fresh: T) -> (r: Result<T, GrantError>)
        ensures
            final(self).n() == old(self).n(),
            pid >= old(self).n() ==> {
                &&& r matches Err(e) && e == GrantError::NoSuchApp
                &&& forall|i: int| 0 <= i < old(self).n() ==> final(self).slot(i)
                    == old(self).slot(i)
            },
            pid < old(self).n() ==> match old(self).slot(pid as int) {
                GrantSlot::Borrowed => {
                    &&& (r matches Err(e) && e == GrantError::AlreadyBorrowed)
                    &&& forall|i: int| 0 <= i < old(self).n() ==> final(self).slot(i)
                        == old(self).slot(i)
                },
                GrantSlot::Empty => {
                    &&& (r matches Ok(t) && t == fresh)
                    &&& final(self).slot(pid as int) is Borrowed
                    &&& forall|i: int|
                        0 <= i < old(self).n() && i != pid ==> final(self).slot(i)
                            == old(self).slot(i)
                },
                GrantSlot::Ready(stored) => {
                    &&& (r matches Ok(t) && t == stored)
                    &&& final(self).slot(pid as int) is Borrowed
                    &&& forall|i: int|
                        0 <= i < old(self).n() && i != pid ==> final(self).slot(i)
                            == old(self).slot(i)
                },
            },
    {
        if pid >= self.slots.len() {
            return Err(GrantError::NoSuchApp);
        }
        let cur = self.slots.remove(pid);
        match cur {
            GrantSlot::Borrowed => {
                self.slots.insert(pid, GrantSlot::Borrowed);
                proof {
                    assert(self.slots@ =~= old(self).slots@);
                }
                Err(GrantError::AlreadyBorrowed)
            },
            GrantSlot::Empty => {
                self.slots.insert(pid, GrantSlot::Borrowed);
                Ok(fresh)
            },
            GrantSlot::Ready(stored) => {
                self.slots.insert(pid, GrantSlot::Borrowed);
                Ok(stored)
            },
        }
    }

    /// Finish the active enter for process `pid`, storing its state back.
    pub fn enter_end(&mut self, pid: usize, value: T)
        requires
            pid < old(self).n(),
            old(self).slot(pid as int) is Borrowed,
        ensures
            final(self).n() == old(self).n(),
            (final(self).slot(pid as int) matches GrantSlot::Ready(t) && t == value),
            forall|i: int|
                0 <= i < old(self).n() && i != pid ==> final(self).slot(i) == old(self).slot(i),
    {
        let _ = self.slots.remove(pid);
        self.slots.insert(pid, GrantSlot::Ready(value));
    }
}

/// A callback a process registered through the *subscribe* system call.
#[derive(Clone, Copy, Debug, PartialEq, Eq, Structural)]
pub struct Callback {
    /// The process-side identifier of the function to schedule.
    pub id: u32,
}

/// A callback invocation scheduled for a process.
#[derive(Clone, Copy, Debug, PartialEq, Eq, Structural)]
pub struct Upcall {
    /// The process it is scheduled for.
    pub pid: usize,
    /// The registered callback to run.
    pub callback: Callback,
    /// First argument: a status code.
    pub arg0: i32,
    /// Second argument.
    pub arg1: u32,
    /// Third argument.
    pub arg2: u32,
}

/// A byte range in a process's RAM exposed to a driver by *allow*.
#[derive(Clone, Copy, Debug, PartialEq, Eq, Structural)]
pub struct AppSlice {
    /// The owning process.
    pub pid: usize,
    /// Offset of the range inside the process's RAM.
    pub base: usize,
    /// Length of the range in bytes.
    pub len: usize,
}

/// The fixed table of processes: each one's RAM and its queue of
/// scheduled callbacks.
pub struct ProcessTable {
    /// Each process's RAM region.
    pub rams: Vec<Vec<u8>>,
    /// Each process's pending callback invocations, oldest first.
    pub upcalls: Vec<Vec<Upcall>>,
}

impl ProcessTable {
    /// Number of process slots.
    pub open spec fn n(self) -> int {
        self.rams@.len() as int
    }

    /// One callback queue exists per process.
    pub open spec fn wf(self) -> bool {
        self.upcalls@.len() == self.rams@.len()
    }

    /// True when the slice names a byte range inside its process's RAM.
    pub open spec fn spec_slice_valid(self, s: AppSlice) -> bool {
        s.pid < self.n() && s.base + s.len <= self.rams@[s.pid as int]@.len()
    }

    /// A table with no processes.
    pub fn new() -> (t: ProcessTable)
        ensures
            t.n() == 0,
            t.wf(),
    {
        ProcessTable { rams: Vec::new(), upcalls: Vec::new() }
    }

    /// Create one process with a zeroed RAM region; returns its slot.
    pub fn add_process(&mut self, ram_size: usize) -> (pid: usize)
        requires
            old(self).wf(),
        ensures
            final(self).wf(),
            pid == old(self).n(),
            final(self).n() == old(self).n() + 1,
            final(self).rams@[pid as int]@.len() == ram_size,
            forall|i: int| 0 <= i < ram_size ==> final(self).rams@[pid as int]@[i] == 0u8,
            final(self).upcalls@[pid as int]@.len() == 0,
            forall|i: int|
                0 <= i < old(self).n() ==> final(self).rams@[i] == old(self).rams@[i]
                    && final(self).upcalls@[i] == old(self).upcalls@[i],
    {
        let pid = self.rams.len();
        let mut ram: Vec<u8> = Vec::new();
        let mut k: usize = 0;
        while k < ram_size
            invariant
                k <= ram_size,
                ram@.len() == k,
                forall|i: int| 0 <= i < k ==> ram@[i] == 0u8,
            decreases ram_size - k,
        {
            ram.push(0);
            k = k + 1;
        }
        self.rams.push(ram);
        self.upcalls.push(Vec::new());
        pid
    }

    /// True when the slice names a byte range inside its process's RAM;
    /// drivers check this before every use.
    pub fn slice_valid(&self, s: AppSlice) -> (r: bool)
        ensures
            r == self.spec_slice_valid(s),
    {
        s.pid < self.rams.len() && s.base <= self.rams[s.pid].len() && s.len <= self.rams[s.pid].len() - s.base
    }

    /// Copy the slice's bytes out of the process's RAM; an invalid slice
    /// yields nothing.
    pub fn read_slice(&self, s: AppSlice) -> (r: Option<Vec<u8>>)
        ensures
            r is Some <==> self.spec_slice_valid(s),
            (r matches Some(data) ==> data@ == self.rams@[s.pid as int]@.subrange(
                s.base as int,
                s.base + s.len,
            )),
    {
        if !self.slice_valid(s) {
            return None;
        }
        let ram = &self.rams[s.pid];
        let ram_len = ram.len();
        assert(s.base + s.len <= ram_len);
        let mut data: Vec<u8> = Vec::new();
        let mut k: usize = 0;
        while k < s.len
            invariant
                k <= s.len,
                s.base + s.len <= usize::MAX,
                s.base + s.len <= ram@.len(),
                data@.len() == k,
                forall|i: int| 0 <= i < k ==> data@[i] == ram@[s.base + i],
            decreases s.len - k,
        {
            data.push(ram[s.base + k]);
            k = k + 1;
        }
        proof {
            assert(data@ =~= self.rams@[s.pid as int]@.subrange(s.base as int, s.base + s.len));
        }
        Some(data)
    }

    /// Copy bytes into the front of the slice's range in the process's
    /// RAM; an invalid slice or an overlong write changes nothing and
    /// reports failure.
    pub fn write_slice(&mut self, s: AppSlice, data: &Vec<u8>) -> (ok: bool)
        requires
            old(self).wf(),
        ensures
            final(self).wf(),
            final(self).n() == old(self).n(),
            final(self).upcalls == old(self).upcalls,
            ok <==> old(self).spec_slice_valid(s) && data@.len() <= s.len,
            !ok ==> final(self).rams == old(self).rams,
            ok ==> {
                &&& forall|i: int|
                    0 <= i < old(self).n() && i != s.pid ==> final(self).rams@[i]
                        == old(self).rams@[i]
                &&& final(self).rams@[s.pid as int]@.len() == old(self).rams@[s.pid as int]@.len()
                &&& forall|i: int|
                    0 <= i < data@.len() ==> final(self).rams@[s.pid as int]@[s.base + i]
                        == data@[i]
                &&& forall|i: int|
                    0 <= i < old(self).rams@[s.pid as int]@.len() && !(s.base <= i < s.base
                        + data@.len()) ==> final(self).rams@[s.pid as int]@[i] == old(
                        self,
                    ).rams@[s.pid as int]@[i]
            },
    {
        if !self.slice_valid(s) || data.len() > s.len {
            return false;
        }
        let mut ram = self.rams.remove(s.pid);
        let ram_len = ram.len();
        assert(s.base + s.len <= ram_len);
        let ghost orig_ram = ram@;
        let mut k: usize = 0;
        while k < data.len()
            invariant
                k <= data@.len(),
                data@.len() <= s.len,
                s.base + s.len <= usize::MAX,
                s.base + s.len <= ram@.len(),
                ram@.len() == orig_ram.len(),
                forall|i: int| 0 <= i < k ==> ram@[s.base + i] == data@[i],
                forall|i: int|
                    0 <= i < orig_ram.len() && !(s.base <= i < s.base + k) ==> ram@[i]
                        == orig_ram[i],
            decreases data@.len() - k,
        {
            ram.set(s.base + k, data[k]);
            k = k + 1;
        }
        self.rams.insert(s.pid, ram);
        proof {
            assert forall|i: int| 0 <= i < old(self).n() && i != s.pid implies self.rams@[i]
                == old(self).rams@[i] by {}
        }
        true
    }

    /// Queue a callback invocation for its process.
    pub fn schedule_upcall(&mut self, up: Upcall)
        requires
            old(self).wf(),
            up.pid < old(self).n(),
        ensures
            final(self).wf(),
            final(self).n() == old(self).n(),
            final(self).rams == old(self).rams,
            final(self).upcalls@[up.pid as int]@ == old(self).upcalls@[up.pid as int]@.push(up),
            forall|i: int|
                0 <= i < old(self).n() && i != up.pid ==> final(self).upcalls@[i]
                    == old(self).upcalls@[i],
    {
        let mut q = self.upcalls.remove(up.pid);
        q.push(up);
        self.upcalls.insert(up.pid, q);
        proof {
            assert(self.upcalls@[up.pid as int]@ =~= old(self).upcalls@[up.pid as int]@.push(up));
            assert forall|i: int| 0 <= i < old(self).n() && i != up.pid implies self.upcalls@[i]
                == old(self).upcalls@[i] by {}
        }
    }

    /// Drain the pending callback invocations of one process, in order.
    pub fn take_upcalls(&mut self, pid: usize) -> (r: Vec<Upcall>)
        requires
            old(self).wf(),
            pid < old(self).n(),
        ensures
            final(self).wf(),
            final(self).n() == old(self).n(),
            final(self).rams == old(self).rams,
            r == old(self).upcalls@[pid as int],
            final(self).upcalls@[pid as int]@.len() == 0,
            forall|i: int|
                0 <= i < old(self).n() && i != pid ==> final(self).upcalls@[i]
                    == old(self).upcalls@[i],
    {
        let q = self.upcalls.remove(pid);
        self.upcalls.insert(pid, Vec::new());
        proof {
            assert forall|i: int| 0 <= i < old(self).n() && i != pid implies self.upcalls@[i]
                == old(self).upcalls@[i] by {}
        }
        q
    }
}

/// The status code a grant failure reports at the system-call boundary.
pub fn grant_error_code(e: GrantError) -> (r: ReturnCode)
    ensures
        r == (match e {
            GrantError::AlreadyBorrowed => ReturnCode::EBUSY,
            GrantError::NoSuchApp => ReturnCode::FAIL,
        }),
{
    match e {
        GrantError::AlreadyBorrowed => ReturnCode::EBUSY,
        GrantError::NoSuchApp => ReturnCode::FAIL,
    }
}

} // verus!
