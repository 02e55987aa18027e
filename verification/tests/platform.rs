//! End-to-end runs through the platform: the system-call gate, the
//! service loop, and the radio driver's process bookkeeping.

use cc26x2_core::chip::{BoardIo, FeatherPlatform, SleepMode};
use cc26x2_core::events::{EventSet, EVENT_PRIORITY};
use cc26x2_core::grant::{AppSlice, Callback, Grant, ProcessTable};
use cc26x2_core::helium::{Device, Helium, PayloadType};
use cc26x2_core::mux::UartMux;
use cc26x2_core::uart_req::TxRequest;
use cc26x2_core::radio::multimode::{Cpe0Interrupts, PowerUpAcks, Radio, RxQueue};
use cc26x2_core::retcode::ReturnCode;
use cc26x2_core::rfc::RFCore;
use cc26x2_core::rtc::Rtc;
use cc26x2_core::uart_driver::{Uart, UartDriver, DRIVER_NUM as CONSOLE};
use cc26x2_core::uart_hw::{PeripheralNum, UartGrants, UartWire, UART};
use cc26x2_core::helium::DRIVER_NUM as RADIO_DRIVER;

fn ok_acks() -> PowerUpAcks {
    PowerUpAcks { setup_cmdsta: 1, setup_status: 0x0400, fs_cmdsta: 1, fs_status: 0x0400 }
}

fn quiet_cpe0() -> Cpe0Interrupts {
    Cpe0Interrupts {
        cmd_done: false,
        last_cmd_done: false,
        rx_ok: false,
        rx_nok: false,
        rx_entry_done: false,
        rx_buf_full: false,
    }
}

fn fresh_io() -> BoardIo {
    BoardIo {
        uart0_wire: UartWire::new(8),
        uart1_wire: UartWire::new(8),
        cpe0: quiet_cpe0(),
        op_status: 0,
        cmdsta: 1,
        acks: ok_acks(),
    }
}

fn fresh_platform(n_procs: usize, ram: usize) -> FeatherPlatform {
    let mut grants = UartGrants::new();
    let hw0 = UART::new(PeripheralNum::_0, &mut grants);
    let hw1 = UART::new(PeripheralNum::_1, &mut grants);
    let u0 = Uart::new(hw0, None, Grant::new(n_procs));
    let u1 = Uart::new(hw1, None, Grant::new(n_procs));
    let mut procs = ProcessTable::new();
    for _ in 0..n_procs {
        let _ = procs.add_process(ram);
    }
    let mut radio = Radio::new(RFCore::new());
    radio.set_rx_queue(RxQueue::new(2));
    let helium = Helium::new(Grant::new(n_procs), vec![0u8; 240], Device::new(radio), 0xCC13_5207);
    FeatherPlatform {
        events: EventSet::new(),
        uart: UartDriver::new(vec![u0, u1]),
        helium,
        rtc: Rtc::new(),
        procs,
    }
}

fn write_ram(p: &mut FeatherPlatform, pid: usize, base: usize, bytes: &[u8]) {
    for (i, b) in bytes.iter().enumerate() {
        p.procs.rams[pid][base + i] = *b;
    }
}

#[test]
fn echo_three_bytes_reach_the_wire() {
    // A process shares "hi\n", subscribes, and asks for a three-byte
    // write: the three bytes appear on the wire in order and the
    // callback is scheduled with status zero.
    let mut p = fresh_platform(1, 32);
    let mut io = fresh_io();
    write_ram(&mut p, 0, 0, b"hi\n");

    let r = p.syscall_allow(CONSOLE, 1, Some(AppSlice { pid: 0, base: 0, len: 3 }), 0);
    assert_eq!(r, 0);
    let r = p.syscall_subscribe(CONSOLE, 1, Some(Callback { id: 7 }), 0);
    assert_eq!(r, 0);
    let r = p.syscall_command(CONSOLE, 1, 3, 0, 0, &mut io);
    assert_eq!(r, 0);

    // The transmit interrupt fires; the service loop drains the rest.
    p.events.set_event_flag(EVENT_PRIORITY::UART0);
    p.service_pending_events(&mut io);

    assert_eq!(io.uart0_wire.tx_fifo, b"hi\n".to_vec());
    let ups = p.procs.take_upcalls(0);
    assert_eq!(ups.len(), 1);
    assert_eq!(ups[0].callback.id, 7);
    assert_eq!(ups[0].arg0, 0);
}

#[test]
fn overlapped_writes_serialise_across_processes() {
    // Two processes write at once: one wins, the other is refused with
    // the busy code, and after the winner's completion the loser may
    // re-issue successfully.
    let mut p = fresh_platform(2, 32);
    let mut io = fresh_io();
    write_ram(&mut p, 0, 0, b"aaaa");
    write_ram(&mut p, 1, 0, b"bbbb");

    assert_eq!(p.syscall_allow(CONSOLE, 1, Some(AppSlice { pid: 0, base: 0, len: 4 }), 0), 0);
    assert_eq!(p.syscall_allow(CONSOLE, 1, Some(AppSlice { pid: 1, base: 0, len: 4 }), 1), 0);
    assert_eq!(p.syscall_subscribe(CONSOLE, 1, Some(Callback { id: 1 }), 0), 0);
    assert_eq!(p.syscall_subscribe(CONSOLE, 1, Some(Callback { id: 2 }), 1), 0);

    let first = p.syscall_command(CONSOLE, 1, 4, 0, 0, &mut io);
    assert_eq!(first, 0);
    let second = p.syscall_command(CONSOLE, 1, 4, 0, 1, &mut io);
    assert_eq!(second, ReturnCode::EBUSY.as_i32());

    p.events.set_event_flag(EVENT_PRIORITY::UART0);
    p.service_pending_events(&mut io);
    assert_eq!(io.uart0_wire.tx_fifo, b"aaaa".to_vec());
    let ups = p.procs.take_upcalls(0);
    assert_eq!(ups.len(), 1);
    assert_eq!(ups[0].arg0, 0);

    io.uart0_wire.tx_fifo.clear();
    let retry = p.syscall_command(CONSOLE, 1, 4, 0, 1, &mut io);
    assert_eq!(retry, 0);
    p.events.set_event_flag(EVENT_PRIORITY::UART0);
    p.service_pending_events(&mut io);
    assert_eq!(io.uart0_wire.tx_fifo, b"bbbb".to_vec());
    assert_eq!(p.procs.take_upcalls(1).len(), 1);
}

#[test]
fn write_without_shared_buffer_is_invalid() {
    let mut p = fresh_platform(1, 16);
    let mut io = fresh_io();
    let r = p.syscall_command(CONSOLE, 1, 4, 0, 0, &mut io);
    assert_eq!(r, ReturnCode::EINVAL.as_i32());
}

#[test]
fn write_with_out_of_range_slice_is_invalid() {
    let mut p = fresh_platform(1, 16);
    let mut io = fresh_io();
    assert_eq!(p.syscall_allow(CONSOLE, 1, Some(AppSlice { pid: 0, base: 12, len: 8 }), 0), 0);
    let r = p.syscall_command(CONSOLE, 1, 8, 0, 0, &mut io);
    assert_eq!(r, ReturnCode::EINVAL.as_i32());
}

#[test]
fn unknown_driver_number_reports_no_device() {
    let mut p = fresh_platform(1, 16);
    let mut io = fresh_io();
    assert_eq!(p.syscall_command(0x77, 0, 0, 0, 0, &mut io), ReturnCode::ENODEVICE.as_i32());
    assert_eq!(p.syscall_subscribe(0x77, 0, None, 0), ReturnCode::ENODEVICE.as_i32());
    assert_eq!(p.syscall_allow(0x77, 0, None, 0), ReturnCode::ENODEVICE.as_i32());
}

#[test]
fn allow_replaces_and_revokes_the_share() {
    // A second allow on the slot replaces the first share; an allow of
    // nothing revokes it, and a later write finds no buffer.
    let mut p = fresh_platform(1, 32);
    let mut io = fresh_io();
    write_ram(&mut p, 0, 0, b"old!");
    write_ram(&mut p, 0, 16, b"new!");

    assert_eq!(p.syscall_allow(CONSOLE, 1, Some(AppSlice { pid: 0, base: 0, len: 4 }), 0), 0);
    assert_eq!(p.syscall_allow(CONSOLE, 1, Some(AppSlice { pid: 0, base: 16, len: 4 }), 0), 0);
    assert_eq!(p.syscall_command(CONSOLE, 1, 4, 0, 0, &mut io), 0);
    p.events.set_event_flag(EVENT_PRIORITY::UART0);
    p.service_pending_events(&mut io);
    // The driver reached the later share, not the earlier one.
    assert_eq!(io.uart0_wire.tx_fifo, b"new!".to_vec());

    assert_eq!(p.syscall_allow(CONSOLE, 1, None, 0), 0);
    let r = p.syscall_command(CONSOLE, 1, 4, 0, 0, &mut io);
    assert_eq!(r, ReturnCode::EINVAL.as_i32());
}

#[test]
fn radio_driver_check_and_status() {
    let mut p = fresh_platform(1, 16);
    let mut io = fresh_io();
    assert_eq!(p.syscall_command(RADIO_DRIVER, 0, 0, 0, 0, &mut io), 0);
    // Not powered yet.
    assert_eq!(p.syscall_command(RADIO_DRIVER, 2, 0, 0, 0, &mut io), ReturnCode::EOFF.as_i32());
    // Power it up, then the status reads success.
    assert_eq!(p.syscall_command(RADIO_DRIVER, 1, 0, 0, 0, &mut io), 0);
    assert_eq!(p.syscall_command(RADIO_DRIVER, 2, 0, 0, 0, &mut io), 0);
}

#[test]
fn radio_queued_transmission_runs_and_calls_back() {
    let mut p = fresh_platform(1, 32);
    let mut io = fresh_io();
    io.op_status = 0x0002;
    write_ram(&mut p, 0, 0, b"ping");

    assert_eq!(p.syscall_command(RADIO_DRIVER, 1, 0, 0, 0, &mut io), 0);
    assert_eq!(p.syscall_allow(RADIO_DRIVER, 1, Some(AppSlice { pid: 0, base: 0, len: 4 }), 0), 0);
    assert_eq!(p.syscall_subscribe(RADIO_DRIVER, 1, Some(Callback { id: 9 }), 0), 0);
    // Queue the transmission with the plain payload encoding.
    assert_eq!(p.syscall_command(RADIO_DRIVER, 6, 0, 0, 0, &mut io), 0);

    // The frame went to the radio: device identifier, sequence, payload.
    let sent = p.helium.device.radio.tx_buf.as_ref().expect("frame in flight");
    assert_eq!(sent.as_slice(), [0x07, 0, b'p', b'i', b'n', b'g']);
    assert_eq!(p.helium.current_app, Some(0));

    // The completion interrupt returns the buffer and calls back.
    p.events.set_event_flag(EVENT_PRIORITY::RF_CORE_CPE0);
    io.cpe0.cmd_done = true;
    io.op_status = 0x0400;
    p.service_pending_events(&mut io);
    assert!(p.helium.device.radio.tx_buf.is_none());
    assert!(p.helium.kernel_tx.is_some());
    let ups = p.procs.take_upcalls(0);
    assert_eq!(ups.len(), 1);
    assert_eq!(ups[0].callback.id, 9);
    assert_eq!(ups[0].arg0, 0);
}

#[test]
fn radio_second_queue_request_is_busy() {
    let mut p = fresh_platform(1, 32);
    let mut io = fresh_io();
    write_ram(&mut p, 0, 0, b"x");
    assert_eq!(p.syscall_command(RADIO_DRIVER, 1, 0, 0, 0, &mut io), 0);
    assert_eq!(p.syscall_allow(RADIO_DRIVER, 1, Some(AppSlice { pid: 0, base: 0, len: 1 }), 0), 0);
    assert_eq!(p.syscall_command(RADIO_DRIVER, 6, 0, 0, 0, &mut io), 0);
    // The driver is not idle and the process has nothing further
    // queued, so a second request queues and reports success; a
    // process with a still-pending entry would be refused.
    let pending_refused = {
        // Queue for a process whose entry is still pending: first make
        // one pending while the radio is busy.
        let r1 = p.syscall_command(RADIO_DRIVER, 6, 0, 0, 0, &mut io);
        let r2 = p.syscall_command(RADIO_DRIVER, 6, 0, 0, 0, &mut io);
        (r1, r2)
    };
    assert_eq!(pending_refused.0, 0);
    assert_eq!(pending_refused.1, ReturnCode::EBUSY.as_i32());
}

#[test]
fn radio_delivers_received_frame_to_process_buffer() {
    let mut p = fresh_platform(1, 64);
    let mut io = fresh_io();
    assert_eq!(p.syscall_command(RADIO_DRIVER, 1, 0, 0, 0, &mut io), 0);
    assert_eq!(p.syscall_allow(RADIO_DRIVER, 0, Some(AppSlice { pid: 0, base: 0, len: 16 }), 0), 0);
    assert_eq!(p.syscall_subscribe(RADIO_DRIVER, 0, Some(Callback { id: 3 }), 0), 0);

    // The co-processor finished an entry; the demultiplex delivers it.
    p.helium.device.radio.rx_queue.entries[0] = cc26x2_core::radio::multimode::RxEntry {
        status: cc26x2_core::radio::multimode::EntryStatus::Finished,
        length: 4,
        payload: vec![9, 8, 7, 6],
    };
    io.cpe0.rx_ok = true;
    p.events.set_event_flag(EVENT_PRIORITY::RF_CORE_CPE0);
    p.service_pending_events(&mut io);

    // The first two bytes carry offset and length; the rest is payload.
    assert_eq!(&p.procs.rams[0][..4], &[0, 4, 7, 6]);
    let ups = p.procs.take_upcalls(0);
    assert_eq!(ups.len(), 1);
    assert_eq!(ups[0].callback.id, 3);
}

#[test]
fn radio_stop_through_the_gate() {
    let mut p = fresh_platform(1, 16);
    let mut io = fresh_io();
    assert_eq!(p.syscall_command(RADIO_DRIVER, 1, 0, 0, 0, &mut io), 0);
    io.op_status = 0x0406;
    assert_eq!(p.syscall_command(RADIO_DRIVER, 3, 0, 0, 0, &mut io), 0);
    assert!(p.helium.device.radio.is_on());
    assert!(!p.helium.device.radio.busy());
    assert_eq!(p.syscall_command(RADIO_DRIVER, 4, 0, 0, 0, &mut io), 0);
}

#[test]
fn radio_set_address_needs_exact_config_length() {
    let mut p = fresh_platform(1, 32);
    let mut io = fresh_io();
    write_ram(&mut p, 0, 0, &[1, 2, 3, 4, 5, 6, 7, 8, 9, 10]);
    // Too short a share: refused.
    assert_eq!(p.syscall_allow(RADIO_DRIVER, 2, Some(AppSlice { pid: 0, base: 0, len: 4 }), 0), 0);
    assert_eq!(
        p.syscall_command(RADIO_DRIVER, 7, 0, 0, 0, &mut io),
        ReturnCode::EINVAL.as_i32()
    );
    // A ten-byte share is taken.
    assert_eq!(p.syscall_allow(RADIO_DRIVER, 2, Some(AppSlice { pid: 0, base: 0, len: 10 }), 0), 0);
    assert_eq!(p.syscall_command(RADIO_DRIVER, 7, 0, 0, 0, &mut io), 0);
    assert_eq!(p.helium.device.address_long, vec![1, 2, 3, 4, 5, 6, 7, 8, 9, 10]);
}

#[test]
fn radio_bad_payload_encoding_fails() {
    let mut p = fresh_platform(1, 16);
    let mut io = fresh_io();
    // Selector 2 names no payload encoding.
    assert_eq!(
        p.syscall_command(RADIO_DRIVER, 6, 0, 2, 0, &mut io),
        ReturnCode::FAIL.as_i32()
    );
    assert_eq!(PayloadType::from_cmd(0x10), Some(PayloadType::Cauterize));
    assert_eq!(PayloadType::from_cmd(3), None);
}

#[test]
fn unknown_radio_command_is_unsupported() {
    let mut p = fresh_platform(1, 16);
    let mut io = fresh_io();
    assert_eq!(
        p.syscall_command(RADIO_DRIVER, 8, 0, 0, 0, &mut io),
        ReturnCode::ENOSUPPORT.as_i32()
    );
    assert_eq!(
        p.syscall_command(RADIO_DRIVER, 42, 0, 0, 0, &mut io),
        ReturnCode::ENOSUPPORT.as_i32()
    );
}

#[test]
fn service_loop_empties_the_pending_word() {
    let mut p = fresh_platform(1, 16);
    let mut io = fresh_io();
    p.events.set_event_flag(EVENT_PRIORITY::GPIO);
    p.events.set_event_flag(EVENT_PRIORITY::OSC);
    p.events.set_event_flag(EVENT_PRIORITY::AON_PROG);
    assert!(p.has_pending_events());
    p.service_pending_events(&mut io);
    assert!(!p.has_pending_events());
}

#[test]
fn sleep_mode_from_index() {
    assert_eq!(SleepMode::from_index(0), Some(SleepMode::DeepSleep));
    assert_eq!(SleepMode::from_index(1), Some(SleepMode::Sleep));
    assert_eq!(SleepMode::from_index(2), Some(SleepMode::Active));
    assert_eq!(SleepMode::from_index(3), None);
}

#[test]
fn radio_queue_without_kernel_buffer_is_out_of_memory() {
    // With the kernel's frame buffer gone, a queued transmission cannot
    // be framed and reports exhausted memory; the queued entry is still
    // consumed.
    let mut p = fresh_platform(1, 16);
    let mut io = fresh_io();
    write_ram(&mut p, 0, 0, b"z");
    assert_eq!(p.syscall_allow(RADIO_DRIVER, 1, Some(AppSlice { pid: 0, base: 0, len: 1 }), 0), 0);
    // Mark another transmission in flight so the queued entry stays
    // pending instead of running at once.
    p.helium.current_app = Some(0);
    assert_eq!(p.syscall_command(RADIO_DRIVER, 6, 0, 0, 0, &mut io), 0);

    p.helium.kernel_tx = None;
    p.helium.current_app = None;
    let r = p.helium.perform_tx_sync(0, &p.procs, 1, 0x0002);
    assert_eq!(r, ReturnCode::ENOMEM);
}

#[test]
fn mux_clients_share_the_console_round_robin() {
    // Two kernel-side clients behind the mux, both always ready: after
    // each completion the driver polls round robin and arms the next
    // request, so their bytes leave the wire alternately.
    let mut p = fresh_platform(1, 16);
    let mut io = fresh_io();
    let mut mux = UartMux::new(2);
    for _ in 0..2 {
        let mut a = TxRequest::new();
        a.set(vec![0xA0]);
        mux.queue_tx(0, a);
        let mut b = TxRequest::new();
        b.set(vec![0xB0]);
        mux.queue_tx(1, b);
    }
    p.uart.uart[0].mux = Some(mux);

    // Nothing is armed yet; the first service pass arms client 0's
    // request, and each completion pulls in the next client's.
    for _ in 0..5 {
        p.events.set_event_flag(EVENT_PRIORITY::UART0);
        p.service_pending_events(&mut io);
    }
    assert_eq!(io.uart0_wire.tx_fifo, vec![0xA0, 0xB0, 0xA0, 0xB0]);
    // Mux transmissions belong to no process: no callbacks fired.
    assert!(p.procs.take_upcalls(0).is_empty());
    // Each completed request went back to its owning client.
    let m = p.uart.uart[0].mux.as_mut().expect("mux still attached");
    let back0 = m.take_finished(0);
    assert_eq!(back0.len(), 2);
    assert_eq!(back0[0].buf, vec![0xA0]);
    let back1 = m.take_finished(1);
    assert_eq!(back1.len(), 2);
    assert_eq!(back1[0].buf, vec![0xB0]);
}

#[test]
fn app_write_waits_while_a_mux_transmission_runs() {
    let mut p = fresh_platform(1, 16);
    let mut io = fresh_io();
    write_ram(&mut p, 0, 0, b"x");
    assert_eq!(p.syscall_allow(CONSOLE, 1, Some(AppSlice { pid: 0, base: 0, len: 1 }), 0), 0);

    let mut mux = UartMux::new(1);
    let mut req = TxRequest::new();
    req.set(vec![1, 2, 3, 4, 5, 6, 7, 8, 9, 10]);
    mux.queue_tx(0, req);
    p.uart.uart[0].mux = Some(mux);
    // Arm the mux transmission; with a two-byte FIFO it stays in flight.
    io.uart0_wire.tx_capacity = 2;
    p.uart.arm_next_from_mux(0, &mut io.uart0_wire);
    assert!(p.uart.uart[0].mux_tx_client.is_some());

    let r = p.syscall_command(CONSOLE, 1, 1, 0, 0, &mut io);
    assert_eq!(r, ReturnCode::EBUSY.as_i32());
}

#[test]
fn radio_callback_survives_across_completions() {
    // One subscribe serves many transmissions: the callback and the read
    // share persist until the process replaces them.
    let mut p = fresh_platform(1, 32);
    let mut io = fresh_io();
    io.op_status = 0x0002;
    write_ram(&mut p, 0, 0, b"aa");
    assert_eq!(p.syscall_command(RADIO_DRIVER, 1, 0, 0, 0, &mut io), 0);
    assert_eq!(p.syscall_allow(RADIO_DRIVER, 1, Some(AppSlice { pid: 0, base: 0, len: 2 }), 0), 0);
    assert_eq!(p.syscall_subscribe(RADIO_DRIVER, 1, Some(Callback { id: 5 }), 0), 0);

    for _ in 0..2 {
        assert_eq!(p.syscall_command(RADIO_DRIVER, 6, 0, 0, 0, &mut io), 0);
        p.events.set_event_flag(EVENT_PRIORITY::RF_CORE_CPE0);
        io.cpe0.cmd_done = true;
        io.op_status = 0x0400;
        p.service_pending_events(&mut io);
        io.cpe0.cmd_done = false;
        io.op_status = 0x0002;
        let ups = p.procs.take_upcalls(0);
        assert_eq!(ups.len(), 1);
        assert_eq!(ups[0].callback.id, 5);
        assert_eq!(ups[0].arg0, 0);
    }
}

#[test]
fn radio_delivers_frame_to_every_reader() {
    // Two processes each shared a read buffer in their own RAM: one
    // arrived frame lands in both, and both receive callbacks fire.
    let mut p = fresh_platform(2, 32);
    let mut io = fresh_io();
    assert_eq!(p.syscall_command(RADIO_DRIVER, 1, 0, 0, 0, &mut io), 0);
    assert_eq!(p.syscall_allow(RADIO_DRIVER, 0, Some(AppSlice { pid: 0, base: 0, len: 6 }), 0), 0);
    assert_eq!(p.syscall_allow(RADIO_DRIVER, 0, Some(AppSlice { pid: 1, base: 8, len: 6 }), 1), 0);
    assert_eq!(p.syscall_subscribe(RADIO_DRIVER, 0, Some(Callback { id: 3 }), 0), 0);
    assert_eq!(p.syscall_subscribe(RADIO_DRIVER, 0, Some(Callback { id: 4 }), 1), 0);

    p.helium.device.radio.rx_queue.entries[0] = cc26x2_core::radio::multimode::RxEntry {
        status: cc26x2_core::radio::multimode::EntryStatus::Finished,
        length: 6,
        payload: vec![0, 0, 5, 6, 7, 8],
    };
    io.cpe0.rx_ok = true;
    p.events.set_event_flag(EVENT_PRIORITY::RF_CORE_CPE0);
    p.service_pending_events(&mut io);

    // Offset and length lead, then the payload tail, in both buffers.
    assert_eq!(&p.procs.rams[0][..6], &[0, 6, 5, 6, 7, 8]);
    assert_eq!(&p.procs.rams[1][8..14], &[0, 6, 5, 6, 7, 8]);
    assert_eq!(p.procs.take_upcalls(0).len(), 1);
    assert_eq!(p.procs.take_upcalls(1).len(), 1);
}
