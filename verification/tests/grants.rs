//! Grants, shared buffers and the process table.

use cc26x2_core::grant::{AppSlice, Callback, Grant, GrantError, ProcessTable, Upcall};

#[test]
fn grant_first_enter_gets_fresh_value() {
    let mut g: Grant<u32> = Grant::new(2);
    let v = g.enter_begin(0, 7).expect("first enter initialises");
    assert_eq!(v, 7);
    g.enter_end(0, v + 1);
    let v = g.enter_begin(0, 7).expect("second enter sees the store");
    assert_eq!(v, 8);
    g.enter_end(0, v);
}

#[test]
fn grant_reentry_is_rejected_without_corruption() {
    // A nested enter while one is active answers AlreadyBorrowed and
    // changes nothing; after the outer enter ends, the state is intact.
    let mut g: Grant<u32> = Grant::new(1);
    let v = g.enter_begin(0, 41).expect("outer enter");
    let nested = g.enter_begin(0, 99);
    assert_eq!(nested, Err(GrantError::AlreadyBorrowed));
    g.enter_end(0, v + 1);
    let v = g.enter_begin(0, 0).expect("state survived the rejection");
    assert_eq!(v, 42);
    g.enter_end(0, v);
}

#[test]
fn grant_unknown_process_is_rejected() {
    let mut g: Grant<u32> = Grant::new(1);
    assert_eq!(g.enter_begin(3, 0), Err(GrantError::NoSuchApp));
}

#[test]
fn slice_validation_against_process_ram() {
    let mut t = ProcessTable::new();
    let pid = t.add_process(16);
    assert!(t.slice_valid(AppSlice { pid, base: 0, len: 16 }));
    assert!(t.slice_valid(AppSlice { pid, base: 10, len: 6 }));
    assert!(!t.slice_valid(AppSlice { pid, base: 10, len: 7 }));
    assert!(!t.slice_valid(AppSlice { pid: pid + 1, base: 0, len: 1 }));
    assert!(!t.slice_valid(AppSlice { pid, base: usize::MAX, len: 2 }));
}

#[test]
fn slice_read_and_write_round_trip() {
    let mut t = ProcessTable::new();
    let pid = t.add_process(8);
    let s = AppSlice { pid, base: 2, len: 4 };
    assert!(t.write_slice(s, &vec![9, 8, 7, 6]));
    let data = t.read_slice(s).expect("valid slice reads back");
    assert_eq!(data, vec![9, 8, 7, 6]);
    // Bytes outside the range stay zero.
    assert_eq!(t.rams[pid][0], 0);
    assert_eq!(t.rams[pid][1], 0);
    assert_eq!(t.rams[pid][6], 0);
    // An overlong write is refused and changes nothing.
    assert!(!t.write_slice(s, &vec![0; 5]));
    assert_eq!(t.read_slice(s).unwrap(), vec![9, 8, 7, 6]);
    // An invalid slice reads back nothing.
    assert!(t.read_slice(AppSlice { pid, base: 6, len: 4 }).is_none());
}

#[test]
fn upcalls_queue_in_order() {
    let mut t = ProcessTable::new();
    let pid = t.add_process(4);
    let up1 = Upcall { pid, callback: Callback { id: 1 }, arg0: 0, arg1: 0, arg2: 0 };
    let up2 = Upcall { pid, callback: Callback { id: 2 }, arg0: -1, arg1: 5, arg2: 6 };
    t.schedule_upcall(up1);
    t.schedule_upcall(up2);
    let drained = t.take_upcalls(pid);
    assert_eq!(drained, vec![up1, up2]);
    assert!(t.take_upcalls(pid).is_empty());
}
