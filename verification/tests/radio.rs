//! The radio: command records, power sequencing, the receive queue, and
//! the interrupt demultiplex.

use cc26x2_core::retcode::ReturnCode;
use cc26x2_core::rfc::{CommandFS, DirectCommand, RFCore, RfcCondition, RfcTrigger};
use cc26x2_core::radio::multimode::{
    build_fs_command, build_rx_command, build_tx_command, Cpe0Interrupts, EntryStatus, PaType,
    PowerUpAcks, Radio, RadioEvent, RxEntry, RxQueue,
};
use cc26x2_core::radio::subghz;

fn ok_acks() -> PowerUpAcks {
    PowerUpAcks { setup_cmdsta: 1, setup_status: 0x0400, fs_cmdsta: 1, fs_status: 0x0400 }
}

fn quiet_cpe0() -> Cpe0Interrupts {
    Cpe0Interrupts {
        cmd_done: false,
        last_cmd_done: false,
        rx_ok: false,
        rx_nok: false,
        rx_entry_done: false,
        rx_buf_full: false,
    }
}

fn powered_radio() -> Radio {
    let mut r = Radio::new(RFCore::new());
    r.set_rx_queue(RxQueue::new(2));
    assert_eq!(r.power_up(ok_acks()), ReturnCode::SUCCESS);
    r
}

#[test]
fn direct_command_register_word() {
    let c = DirectCommand::new(0x0402, 0);
    assert_eq!(c.register_word(), 0x0402_0001);
    let c = DirectCommand::new(0x0010, 2);
    assert_eq!(c.register_word(), 0x0010_0009);
}

#[test]
fn trigger_and_condition_pack_their_bits() {
    let trig = RfcTrigger { trigger_type: 0, enable_cmd: false, trigger_no: 0, past_trigger: true };
    assert_eq!(trig.encode(), 0x80);
    let trig = RfcTrigger { trigger_type: 2, enable_cmd: true, trigger_no: 3, past_trigger: false };
    assert_eq!(trig.encode(), 0x2 | 0x10 | 0x60);
    let cond = RfcCondition { rule: 0x01, skip_no: 0 };
    assert_eq!(cond.encode(), 0x01);
    let cond = RfcCondition { rule: 0x03, skip_no: 2 };
    assert_eq!(cond.encode(), 0x23);
}

#[test]
fn fs_command_encodes_byte_exactly() {
    let cmd = build_fs_command(0x0395);
    let bytes = cmd.encode();
    assert_eq!(
        bytes,
        vec![
            0x03, 0x08, // opcode, little endian
            0x00, 0x00, // status
            0x00, 0x00, 0x00, 0x00, // next operation
            0x00, 0x00, 0x00, 0x00, // start time
            0x00, // start trigger
            0x01, // condition: the default rule
            0x95, 0x03, // frequency in megahertz, little endian
            0x00, 0x00, // fractional frequency
            0x00, 0x00, 0x00, 0x00, // synthesiser configuration and padding
            0x00, 0x00, // trailing half-word
        ]
    );
}

#[test]
fn tx_command_encodes_byte_exactly() {
    let bytes = build_tx_command(30).encode();
    assert_eq!(bytes.len(), 24);
    assert_eq!(&bytes[..2], &[0x01, 0x38]);
    assert_eq!(bytes[12], 0x80); // start as soon as possible, even if late
    assert_eq!(bytes[13], 0x01); // condition rule
    assert_eq!(bytes[14], 0x02 | 0x04); // checksum on, variable length
    assert_eq!(bytes[15], 30); // payload length
}

#[test]
fn rx_command_encodes_byte_exactly() {
    let bytes = build_rx_command().encode();
    assert_eq!(bytes.len(), 36);
    assert_eq!(&bytes[..2], &[0x02, 0x38]);
    assert_eq!(bytes[14], 0x08 | 0x10); // checksum on, variable length
    assert_eq!(bytes[15], 0x01 | 0x02 | 0x08 | 0x80); // flush and append flags
    assert_eq!(bytes[20], 0xFF); // longest accepted packet
    assert_eq!(bytes[21], 0xAA);
    assert_eq!(bytes[22], 0xBB);
    assert_eq!(bytes[23], 0x01); // end trigger
}

#[test]
fn power_up_succeeds_with_good_answers() {
    let r = powered_radio();
    assert!(r.is_on());
    assert!(r.rfc.enabled);
    assert!(r.rfc.configured);
}

#[test]
fn power_up_failure_powers_back_down() {
    let mut r = Radio::new(RFCore::new());
    r.set_rx_queue(RxQueue::new(2));
    let bad = PowerUpAcks {
        setup_cmdsta: 1,
        setup_status: 0x0800, // the setup operation reports an error
        fs_cmdsta: 1,
        fs_status: 0x0400,
    };
    assert_eq!(r.power_up(bad), ReturnCode::FAIL);
    assert!(!r.is_on());
    assert!(!r.rfc.enabled);
}

#[test]
fn transmit_oversize_is_refused_synchronously() {
    // A frame longer than 240 bytes comes straight back with
    // ENOSUPPORT and no command is submitted.
    let mut r = powered_radio();
    let command_buf_before = r.command_buf.clone();
    let status_before = r.rfc.status;
    let buf = vec![0u8; 241];
    let (code, back) = r.transmit(buf, 241, 1, 0x0400);
    assert_eq!(code, ReturnCode::ENOSUPPORT);
    assert_eq!(back.expect("the buffer comes back").len(), 241);
    assert!(r.rfc.pending_op.is_none());
    assert_eq!(r.command_buf, command_buf_before);
    assert_eq!(r.rfc.status, status_before);
    assert!(r.tx_buf.is_none());
}

#[test]
fn transmit_borrows_buffer_and_second_is_busy() {
    let mut r = powered_radio();
    let (code, back) = r.transmit(vec![1, 2, 3], 3, 1, 0x0002);
    assert_eq!(code, ReturnCode::SUCCESS);
    assert!(back.is_none());
    assert!(r.tx_buf.is_some());
    assert_eq!(r.command_buf, build_tx_command(3).encode());

    let (code, back) = r.transmit(vec![4], 1, 1, 0x0002);
    assert_eq!(code, ReturnCode::EBUSY);
    assert_eq!(back.expect("refused buffer comes back"), vec![4]);
}

#[test]
fn command_done_returns_buffer_to_client() {
    let mut r = powered_radio();
    let _ = r.transmit(vec![9, 9], 2, 1, 0x0002);
    let done = r.command_done(0x0400).expect("a transmission was in flight");
    assert_eq!(done.0, vec![9, 9]);
    assert_eq!(done.1, ReturnCode::SUCCESS);
    assert!(r.tx_buf.is_none());
    assert!(r.command_done(0x0400).is_none());
}

#[test]
fn radio_loopback_delivers_frame() {
    // Power up, enter receive, let the co-processor finish one entry
    // with the bytes 0..30, and demultiplex: the receive client sees a
    // 30-byte frame with a good checksum and matching payload.
    let mut r = powered_radio();
    assert_eq!(r.receive(1, 0x0400), ReturnCode::SUCCESS);
    assert_eq!(r.command_buf, build_rx_command().encode());

    let payload: Vec<u8> = (0u8..30).collect();
    r.rx_queue.entries[0] = RxEntry {
        status: EntryStatus::Finished,
        length: 30,
        payload: payload.clone(),
    };
    let mut flags = quiet_cpe0();
    flags.rx_ok = true;
    let events = r.handle_cpe0_event(flags, 0x0002);
    assert_eq!(events.len(), 1);
    match &events[0] {
        RadioEvent::Rx(frame) => {
            assert_eq!(frame.frame_len, 30);
            assert!(frame.crc_valid);
            assert_eq!(frame.payload, payload);
            assert_eq!(frame.result, ReturnCode::SUCCESS);
        },
        _ => panic!("expected a received frame"),
    }
    // The consumed entry went back to the co-processor's ownership
    // before any later power-up.
    assert!(matches!(r.rx_queue.entries[0].status, EntryStatus::Pending));
    assert_eq!(r.rx_queue.read_index, 1);
}

#[test]
fn rx_nok_marks_checksum_invalid() {
    let mut r = powered_radio();
    r.rx_queue.entries[0] = RxEntry { status: EntryStatus::Finished, length: 2, payload: vec![1, 2] };
    let frame = r.rx_nok().expect("a finished entry waits");
    assert!(!frame.crc_valid);
    assert!(matches!(r.rx_queue.entries[0].status, EntryStatus::Pending));
}

#[test]
fn cpe0_delivers_receive_before_transmit_completion() {
    // With a frame and a completion signalled in the same pass, the
    // frame is handed over first: frames are time-critical.
    let mut r = powered_radio();
    let _ = r.transmit(vec![7], 1, 1, 0x0002);
    r.rx_queue.entries[0] = RxEntry { status: EntryStatus::Finished, length: 1, payload: vec![42] };
    let mut flags = quiet_cpe0();
    flags.rx_ok = true;
    flags.cmd_done = true;
    let events = r.handle_cpe0_event(flags, 0x0400);
    assert_eq!(events.len(), 2);
    assert!(matches!(events[0], RadioEvent::Rx(_)));
    assert!(matches!(events[1], RadioEvent::TxDone(_, _)));
}

#[test]
fn receive_start_fails_fast_on_bad_answers() {
    // A receive whose record never reached a terminal success before the
    // poll's deadline reports the failure; an unacknowledged one too.
    let mut r = powered_radio();
    assert_eq!(r.receive(1, 0x0002), ReturnCode::FAIL);
    assert_eq!(r.receive(0, 0x0400), ReturnCode::FAIL);
    assert_eq!(r.receive(1, 0x0400), ReturnCode::SUCCESS);
}

#[test]
fn graceful_stop_leaves_power_on_and_clears_busy() {
    // In the middle of a long receive (the start reported the deadline
    // failure but the operation keeps running): the stop command
    // succeeds, the core stays powered, and the driver no longer counts
    // as busy.
    let mut r = powered_radio();
    let _ = r.receive(1, 0x0002);
    assert!(r.busy());
    assert_eq!(r.send_stop_command(1, 0x0406), ReturnCode::SUCCESS);
    assert!(r.is_on());
    assert!(!r.busy());
    // The graceful stop, not the abort, went out.
    assert_eq!(r.rfc.last_direct, Some(DirectCommand { command_no: 0x0402, params: 0 }));
}

#[test]
fn stop_and_kill_report_the_acknowledgement() {
    let mut r = powered_radio();
    assert_eq!(r.send_stop_command(0x0000, 0x0406), ReturnCode::FAIL);
    assert_eq!(r.send_kill_command(1, 0x0406), ReturnCode::SUCCESS);
    assert_eq!(r.rfc.last_direct, Some(DirectCommand { command_no: 0x0401, params: 0 }));
    assert_eq!(r.stop(1, 0x0406), ReturnCode::SUCCESS);
    assert_eq!(r.rfc.last_direct, Some(DirectCommand { command_no: 0x0402, params: 0 }));
}

#[test]
fn tx_power_is_capped_by_the_external_amplifier() {
    let mut r = Radio::new(RFCore::new());
    r.pa_type = PaType::Skyworks;
    assert_eq!(r.set_tx_power(0x9330, 1), ReturnCode::SUCCESS);
    assert_eq!(r.get_tx_power(), 0x504D);
    // The power command carried the capped value.
    assert_eq!(r.rfc.last_direct, Some(DirectCommand { command_no: 0x0010, params: 0x504D }));
    let mut plain = Radio::new(RFCore::new());
    assert_eq!(plain.set_tx_power(0x2230, 1), ReturnCode::SUCCESS);
    assert_eq!(plain.get_tx_power(), 0x2230);
}

#[test]
fn command_status_classifies_ranges() {
    let mut r = Radio::new(RFCore::new());
    r.rfc.status = 0x0002;
    assert_eq!(r.get_command_status().0, ReturnCode::SUCCESS);
    r.rfc.status = 0x0400;
    assert_eq!(r.get_command_status().0, ReturnCode::SUCCESS);
    r.rfc.status = 0x0805;
    assert_eq!(r.get_command_status().0, ReturnCode::FAIL);
    r.rfc.status = 0x0101;
    assert_eq!(r.get_command_status().0, ReturnCode::EINVAL);
}

#[test]
fn scheduled_powerdown_happens_at_completion() {
    let mut r = powered_radio();
    let _ = r.transmit(vec![1], 1, 1, 0x0002);
    r.schedule_powerdown = true;
    let done = r.command_done(0x0400);
    assert!(done.is_some());
    assert!(!r.is_on());
    assert!(!r.rfc.enabled);
    assert!(!r.schedule_powerdown);
}

#[test]
fn self_test_builds_ascending_payload() {
    let mut r = powered_radio();
    r.run_tests(0, ok_acks(), 1, 0x0400);
    assert_eq!(r.command_buf, build_tx_command(0x14).encode());
    let payload: Vec<u8> = (0u8..30).collect();
    assert_eq!(r.tx_buf.as_ref().expect("self-test armed a payload"), &payload);
}

#[test]
fn subghz_power_path_and_stop() {
    let mut r = subghz::Radio::new(RFCore::new());
    let acks = subghz::SetupAcks { cmdsta: 1, op_status: 0x0400 };
    assert_eq!(r.power_up(acks), ReturnCode::SUCCESS);
    assert!(r.is_on());
    assert!(r.rfc.configured);
    assert_eq!(r.send_stop_command(1), ReturnCode::SUCCESS);
    assert_eq!(r.send_kill_command(0), ReturnCode::FAIL);
    r.power_down();
    assert!(!r.is_on());
}

#[test]
fn subghz_power_up_failure_powers_back_down() {
    let mut r = subghz::Radio::new(RFCore::new());
    let bad = subghz::SetupAcks { cmdsta: 1, op_status: 0x0800 };
    assert_eq!(r.power_up(bad), ReturnCode::FAIL);
    assert!(!r.is_on());
}

#[test]
fn subghz_transmit_hands_buffer_straight_back() {
    let mut r = subghz::Radio::new(RFCore::new());
    let (code, back) = r.transmit(vec![1, 2, 3], 3);
    assert_eq!(code, ReturnCode::SUCCESS);
    assert_eq!(back.expect("no transmit path here"), vec![1, 2, 3]);
}

#[test]
fn subghz_tx_done_honours_scheduled_powerdown() {
    let mut r = subghz::Radio::new(RFCore::new());
    let acks = subghz::SetupAcks { cmdsta: 1, op_status: 0x0400 };
    let _ = r.power_up(acks);
    r.tx_buf = Some(vec![5]);
    r.schedule_powerdown = true;
    let done = r.tx_done().expect("buffer comes back");
    assert_eq!(done.0, vec![5]);
    assert!(!r.rfc.enabled);
}
