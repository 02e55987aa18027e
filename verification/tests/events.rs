//! The pending-event word: setting, clearing and drain order.

use cc26x2_core::events::{EventSet, EVENT_PRIORITY};

#[test]
fn empty_set_has_no_event() {
    let s = EventSet::new();
    assert!(!s.has_event());
    assert!(s.next_pending().is_none());
}

#[test]
fn set_one_bit_is_pending() {
    let mut s = EventSet::new();
    s.set_event_flag(EVENT_PRIORITY::UART0);
    assert!(s.has_event());
    assert_eq!(s.next_pending(), Some(EVENT_PRIORITY::UART0));
}

#[test]
fn event_priority_drain_order() {
    // Priorities raised as UART0, I2C0, GPIO come back as GPIO, UART0,
    // I2C0: ascending bit position, not arrival order.
    let mut s = EventSet::new();
    s.set_event_flag(EVENT_PRIORITY::UART0);
    s.set_event_flag(EVENT_PRIORITY::I2C0);
    s.set_event_flag(EVENT_PRIORITY::GPIO);

    assert_eq!(s.next_pending(), Some(EVENT_PRIORITY::GPIO));
    s.clear_event_flag(EVENT_PRIORITY::GPIO);
    assert_eq!(s.next_pending(), Some(EVENT_PRIORITY::UART0));
    s.clear_event_flag(EVENT_PRIORITY::UART0);
    assert_eq!(s.next_pending(), Some(EVENT_PRIORITY::I2C0));
    s.clear_event_flag(EVENT_PRIORITY::I2C0);
    assert_eq!(s.next_pending(), None);
    assert!(!s.has_event());
}

#[test]
fn next_pending_returns_minimum_of_sets() {
    let mut s = EventSet::new();
    s.set_event_flag(EVENT_PRIORITY::OSC);
    s.set_event_flag(EVENT_PRIORITY::RTC);
    s.set_event_flag(EVENT_PRIORITY::RF_CMD_ACK);
    assert_eq!(s.next_pending(), Some(EVENT_PRIORITY::RTC));
}

#[test]
fn set_is_idempotent() {
    let mut s1 = EventSet::new();
    s1.set_event_flag(EVENT_PRIORITY::UART1);
    let mut s2 = EventSet::new();
    s2.set_event_flag(EVENT_PRIORITY::UART1);
    s2.set_event_flag(EVENT_PRIORITY::UART1);
    assert_eq!(s1.next_pending(), s2.next_pending());
    s2.clear_event_flag(EVENT_PRIORITY::UART1);
    assert!(!s2.has_event());
}

#[test]
fn interleaved_sets_lose_no_bit() {
    // Two synthetic interrupt handlers each set their own bit; whichever
    // order the stores serialise in, both bits are pending afterwards.
    let mut ab = EventSet::new();
    ab.set_event_flag(EVENT_PRIORITY::GPIO);
    ab.set_event_flag(EVENT_PRIORITY::OSC);
    let mut ba = EventSet::new();
    ba.set_event_flag(EVENT_PRIORITY::OSC);
    ba.set_event_flag(EVENT_PRIORITY::GPIO);

    assert_eq!(ab.next_pending(), Some(EVENT_PRIORITY::GPIO));
    assert_eq!(ba.next_pending(), Some(EVENT_PRIORITY::GPIO));
    ab.clear_event_flag(EVENT_PRIORITY::GPIO);
    ba.clear_event_flag(EVENT_PRIORITY::GPIO);
    assert_eq!(ab.next_pending(), Some(EVENT_PRIORITY::OSC));
    assert_eq!(ba.next_pending(), Some(EVENT_PRIORITY::OSC));
}

#[test]
fn clear_leaves_other_bits() {
    let mut s = EventSet::new();
    s.set_event_flag(EVENT_PRIORITY::AON_RTC);
    s.set_event_flag(EVENT_PRIORITY::AUX_ADC);
    s.clear_event_flag(EVENT_PRIORITY::AON_RTC);
    assert_eq!(s.next_pending(), Some(EVENT_PRIORITY::AUX_ADC));
}

#[test]
fn priority_indices_are_stable() {
    assert_eq!(EVENT_PRIORITY::GPIO.index(), 0);
    assert_eq!(EVENT_PRIORITY::UART1.index(), 1);
    assert_eq!(EVENT_PRIORITY::UART0.index(), 2);
    assert_eq!(EVENT_PRIORITY::AON_RTC.index(), 3);
    assert_eq!(EVENT_PRIORITY::RTC.index(), 4);
    assert_eq!(EVENT_PRIORITY::I2C0.index(), 6);
    assert_eq!(EVENT_PRIORITY::AON_PROG.index(), 7);
    assert_eq!(EVENT_PRIORITY::RF_CORE_HW.index(), 8);
    assert_eq!(EVENT_PRIORITY::RF_CMD_ACK.index(), 9);
    assert_eq!(EVENT_PRIORITY::RF_CORE_CPE0.index(), 10);
    assert_eq!(EVENT_PRIORITY::RF_CORE_CPE1.index(), 11);
    assert_eq!(EVENT_PRIORITY::OSC.index(), 12);
    assert_eq!(EVENT_PRIORITY::AUX_ADC.index(), 13);
}

#[test]
fn from_index_round_trips_and_rejects_unmapped() {
    assert_eq!(EVENT_PRIORITY::from_index(0), Some(EVENT_PRIORITY::GPIO));
    assert_eq!(EVENT_PRIORITY::from_index(13), Some(EVENT_PRIORITY::AUX_ADC));
    assert_eq!(EVENT_PRIORITY::from_index(5), None);
    assert_eq!(EVENT_PRIORITY::from_index(14), None);
    assert_eq!(EVENT_PRIORITY::from_index(63), None);
}
