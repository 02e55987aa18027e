//! The UART request protocol, the peripheral driver, and the mux.

use cc26x2_core::mux::{TestClient, UartMux};
use cc26x2_core::retcode::ReturnCode;
use cc26x2_core::uart_hw::{Parameters, Parity, PeripheralNum, StopBits, UartGrants, UartWire, Width, UART};
use cc26x2_core::uart_req::{RxRequest, TxRequest};

fn fresh_uart(num: PeripheralNum) -> UART {
    let mut grants = UartGrants::new();
    UART::new(num, &mut grants)
}

fn default_params() -> Parameters {
    Parameters {
        baud_rate: 115200,
        width: Width::Eight,
        parity: Parity::NoParity,
        stop_bits: StopBits::One,
        hw_flow_control: false,
    }
}

#[test]
fn rx_request_partial_fill_stays_armed() {
    // Feeding k bytes with no newline into capacity c > k leaves the
    // request armed with its fill index at k.
    let mut rx = RxRequest::new();
    rx.set_buf(vec![0u8; 8]);
    for b in [b'a', b'b', b'c'] {
        let done = rx.push_wire_byte(b);
        assert!(!done);
    }
    assert_eq!(rx.items_pushed(), 3);
    assert!(!rx.new_line_return);
    assert!(!rx.request_completed());
    assert_eq!(&rx.buf[..3], b"abc");
}

#[test]
fn rx_request_fills_to_capacity() {
    let mut rx = RxRequest::new();
    rx.set_buf(vec![0u8; 3]);
    assert!(!rx.push_wire_byte(b'x'));
    assert!(!rx.push_wire_byte(b'y'));
    let done = rx.push_wire_byte(b'z');
    assert!(done);
    assert!(rx.request_completed());
    assert_eq!(rx.items_pushed(), 3);
    assert!(!rx.new_line_return);
}

#[test]
fn rx_request_newline_terminates() {
    // A newline at position j with room to spare stores the newline and
    // a terminator: the index lands at j + 2 and the flag is raised.
    let mut rx = RxRequest::new();
    rx.set_buf(vec![0u8; 8]);
    assert!(!rx.push_wire_byte(b'h'));
    assert!(!rx.push_wire_byte(b'i'));
    let done = rx.push_wire_byte(b'\n');
    assert!(done);
    assert!(rx.new_line_return);
    assert_eq!(rx.items_pushed(), 4);
    assert_eq!(&rx.buf[..4], b"hi\n\0");
}

#[test]
fn rx_request_newline_in_last_slot_drops_terminator() {
    // With the newline landing in the last free slot there is no room
    // for the terminator byte; the arming still ends.
    let mut rx = RxRequest::new();
    rx.set_buf(vec![0u8; 2]);
    assert!(!rx.push_wire_byte(b'a'));
    let done = rx.push_wire_byte(b'\n');
    assert!(done);
    assert!(rx.new_line_return);
    assert_eq!(rx.items_pushed(), 2);
    assert_eq!(&rx.buf[..2], b"a\n");
}

#[test]
fn tx_request_pops_in_order() {
    let mut tx = TxRequest::new();
    tx.set(vec![10, 20, 30]);
    assert!(!tx.request_completed());
    assert_eq!(tx.pop(), Some(10));
    assert_eq!(tx.pop(), Some(20));
    assert_eq!(tx.pop(), Some(30));
    assert!(tx.request_completed());
    assert_eq!(tx.pop(), None);
    tx.reset();
    assert_eq!(tx.pop(), Some(10));
}

#[test]
fn configure_rejects_unsupported_settings() {
    let mut u = fresh_uart(PeripheralNum::_0);
    let mut p = default_params();
    p.parity = Parity::Even;
    assert_eq!(u.configure(p), ReturnCode::ENOSUPPORT);
    let mut p = default_params();
    p.stop_bits = StopBits::Two;
    assert_eq!(u.configure(p), ReturnCode::ENOSUPPORT);
    let mut p = default_params();
    p.hw_flow_control = true;
    assert_eq!(u.configure(p), ReturnCode::ENOSUPPORT);
    assert!(!u.enabled);
    assert_eq!(u.configure(default_params()), ReturnCode::SUCCESS);
    assert!(u.enabled);
}

#[test]
fn configure_programs_baud_divisor() {
    // At 115200 baud the fractional divider is 1667: integer part 26,
    // fractional part 3.
    let mut u = fresh_uart(PeripheralNum::_0);
    assert_eq!(u.configure(default_params()), ReturnCode::SUCCESS);
    assert_eq!(u.ibrd, 26);
    assert_eq!(u.fbrd, 3);
}

#[test]
fn transmit_buffer_sends_first_byte_and_rearming_is_busy() {
    let mut u = fresh_uart(PeripheralNum::_0);
    let _ = u.configure(default_params());
    let mut wire = UartWire::new(8);

    let mut req = TxRequest::new();
    req.set(vec![1, 2, 3]);
    let (code, back) = u.transmit_buffer(req, &mut wire);
    assert_eq!(code, ReturnCode::SUCCESS);
    assert!(back.is_none());
    assert_eq!(wire.tx_fifo, vec![1]);
    assert!(u.int_tx && u.int_eot);

    let mut second = TxRequest::new();
    second.set(vec![9]);
    let (code, back) = u.transmit_buffer(second, &mut wire);
    assert_eq!(code, ReturnCode::EBUSY);
    assert!(back.is_some());
}

#[test]
fn handle_interrupt_drains_transmit_to_completion() {
    let mut u = fresh_uart(PeripheralNum::_0);
    let _ = u.configure(default_params());
    let mut wire = UartWire::new(8);
    let mut req = TxRequest::new();
    req.set(vec![5, 6, 7, 8]);
    let _ = u.transmit_buffer(req, &mut wire);

    let (tx_done, rx_done) = u.handle_interrupt(&mut wire);
    assert!(rx_done.is_none());
    let done = tx_done.expect("transmission should finish in one pass");
    assert_eq!(done.index, 4);
    assert_eq!(wire.tx_fifo, vec![5, 6, 7, 8]);
    assert!(!u.int_tx && !u.int_eot);
}

#[test]
fn handle_interrupt_respects_fifo_depth() {
    let mut u = fresh_uart(PeripheralNum::_0);
    let _ = u.configure(default_params());
    let mut wire = UartWire::new(2);
    let mut req = TxRequest::new();
    req.set(vec![1, 2, 3, 4, 5]);
    let _ = u.transmit_buffer(req, &mut wire);
    // One byte went out on arming; the FIFO has room for one more.
    let (tx_done, _) = u.handle_interrupt(&mut wire);
    assert!(tx_done.is_none());
    assert_eq!(wire.tx_fifo, vec![1, 2]);

    // The hardware sends the queued bytes; two more passes finish.
    wire.tx_fifo.clear();
    let (tx_done, _) = u.handle_interrupt(&mut wire);
    assert!(tx_done.is_none());
    assert_eq!(wire.tx_fifo, vec![3, 4]);
    wire.tx_fifo.clear();
    let (tx_done, _) = u.handle_interrupt(&mut wire);
    let done = tx_done.expect("the last byte fits now");
    assert_eq!(done.index, 5);
    assert_eq!(wire.tx_fifo, vec![5]);
}

#[test]
fn handle_interrupt_receives_line() {
    let mut u = fresh_uart(PeripheralNum::_0);
    let _ = u.configure(default_params());
    let mut wire = UartWire::new(8);
    let mut rx = RxRequest::new();
    rx.set_buf(vec![0u8; 16]);
    let (code, back) = u.receive_buffer(rx);
    assert_eq!(code, ReturnCode::SUCCESS);
    assert!(back.is_none());
    assert!(u.int_rx && u.int_rx_timeout);

    wire.rx_fifo = vec![b'o', b'k', b'\n', b'Z'];
    let (_, rx_done) = u.handle_interrupt(&mut wire);
    let done = rx_done.expect("newline finishes the arming");
    assert!(done.new_line_return);
    assert_eq!(done.items_pushed(), 4);
    assert_eq!(&done.buf[..4], b"ok\n\0");
    // The byte after the newline stays in the FIFO for the next arming.
    assert_eq!(wire.rx_fifo, vec![b'Z']);
    assert!(!u.int_rx && !u.int_rx_timeout);
}

#[test]
fn receive_buffer_while_armed_is_busy() {
    let mut u = fresh_uart(PeripheralNum::_0);
    let _ = u.configure(default_params());
    let mut rx = RxRequest::new();
    rx.set_buf(vec![0u8; 4]);
    let (code, _) = u.receive_buffer(rx);
    assert_eq!(code, ReturnCode::SUCCESS);
    let mut rx2 = RxRequest::new();
    rx2.set_buf(vec![0u8; 4]);
    let (code, back) = u.receive_buffer(rx2);
    assert_eq!(code, ReturnCode::EBUSY);
    assert!(back.is_some());
}

#[test]
fn transmit_word_needs_idle_path() {
    let mut u = fresh_uart(PeripheralNum::_0);
    let _ = u.configure(default_params());
    let mut wire = UartWire::new(1);
    assert_eq!(u.transmit_word(&mut wire, 0x41), ReturnCode::SUCCESS);
    // The FIFO is now full.
    assert_eq!(u.transmit_word(&mut wire, 0x42), ReturnCode::FAIL);
    assert_eq!(wire.tx_fifo, vec![0x41]);
}

#[test]
fn aborts_hand_requests_back() {
    let mut u = fresh_uart(PeripheralNum::_1);
    let _ = u.configure(default_params());
    let mut wire = UartWire::new(8);
    let mut req = TxRequest::new();
    req.set(vec![1, 2]);
    let _ = u.transmit_buffer(req, &mut wire);
    let aborted = u.transmit_abort().expect("a transmission was armed");
    assert_eq!(aborted.buf, vec![1, 2]);
    assert!(u.transmit_abort().is_none());

    let mut rx = RxRequest::new();
    rx.set_buf(vec![0u8; 4]);
    let _ = u.receive_buffer(rx);
    assert!(u.receive_abort().is_some());
    assert!(u.receive_abort().is_none());
}

#[test]
fn uart_peripheral_is_granted_once() {
    let mut grants = UartGrants::new();
    let _first = UART::new(PeripheralNum::_0, &mut grants);
    // The other peripheral is still free.
    let _second = UART::new(PeripheralNum::_1, &mut grants);
}

#[test]
fn mux_round_robin_alternates_between_ready_clients() {
    // Two always-ready clients: successive polls serve them alternately.
    let mut mux = UartMux::new(2);
    for _ in 0..2 {
        let mut a = TxRequest::new();
        a.set(vec![0xA]);
        mux.queue_tx(0, a);
        let mut b = TxRequest::new();
        b.set(vec![0xB]);
        mux.queue_tx(1, b);
    }
    let (c1, _) = mux.get_tx().expect("client 0 pending");
    let (c2, _) = mux.get_tx().expect("client 1 pending");
    let (c3, _) = mux.get_tx().expect("client 0 pending again");
    let (c4, _) = mux.get_tx().expect("client 1 pending again");
    assert_eq!((c1, c2, c3, c4), (0, 1, 0, 1));
    assert!(mux.get_tx().is_none());
}

#[test]
fn mux_keeps_order_within_a_client() {
    let mut mux = UartMux::new(2);
    let mut first = TxRequest::new();
    first.set(vec![1]);
    let mut second = TxRequest::new();
    second.set(vec![2]);
    mux.queue_tx(0, first);
    mux.queue_tx(0, second);
    let (who, req) = mux.get_tx().expect("one pending");
    assert_eq!(who, 0);
    assert_eq!(req.buf, vec![1]);
    let (_, req) = mux.get_tx().expect("the second waits behind it");
    assert_eq!(req.buf, vec![2]);
}

#[test]
fn mux_skips_idle_clients() {
    let mut mux = UartMux::new(3);
    let mut only = TxRequest::new();
    only.set(vec![7]);
    mux.queue_tx(2, only);
    let (who, req) = mux.get_tx().expect("client 2 pending");
    assert_eq!(who, 2);
    assert_eq!(req.buf, vec![7]);
    assert!(!mux.has_tx_request(2));
}

#[test]
fn test_client_hands_out_and_requeues() {
    let client = TestClient::new(TxRequest::new());
    let mut client = client;
    assert!(client.has_tx_request());
    let req = client.get_tx_request().expect("armed at construction");
    assert_eq!(req.buf, b"Hello, World!\r\n".to_vec());
    assert!(!client.has_tx_request());
    let mut used = req;
    used.index = 5;
    client.tx_request_complete(used);
    assert!(client.has_tx_request());
    assert_eq!(client.state, 1);
}
