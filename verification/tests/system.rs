//! The positioning capsule, power bookkeeping, the counter, and the
//! stable numeric surfaces.

use cc26x2_core::board::{GpioComponent, Pinmap};
use cc26x2_core::gps::{Gps, GpsState, COMMAND};
use cc26x2_core::grant::{AppSlice, Grant};
use cc26x2_core::hil::{PowerMode, RadioOperation};
use cc26x2_core::power::{
    prepare_deep_sleep, prepare_wakeup, switch_to_rc_osc, HfClockSource, OscState, PowerDomain,
    PowerState, RegionManager,
};
use cc26x2_core::grant::ProcessTable;
use cc26x2_core::retcode::ReturnCode;
use cc26x2_core::rtc::Rtc;
use cc26x2_core::uart_hw::{PeripheralNum, UartGrants, UartWire, UART};

fn fresh_gps() -> Gps {
    let mut grants = UartGrants::new();
    let hw = UART::new(PeripheralNum::_1, &mut grants);
    Gps::new(hw, Grant::new(1))
}

#[test]
fn gps_bring_up_walks_its_states() {
    let mut gps = fresh_gps();
    assert_eq!(gps.state, GpsState::Init);
    assert!(gps.uart.enabled);
    gps.set_with_default_space(Gps::space());

    let mut wire = UartWire::new(8);
    // The first received line only moves the state on.
    wire.rx_fifo = b"$GPGGA,x\n".to_vec();
    gps.handle_irq(&mut wire);
    assert_eq!(gps.state, GpsState::ReceivedOne);
    assert!(wire.tx_fifo.is_empty());

    // The second line triggers the sentence-selection command.
    wire.rx_fifo = b"$GPRMC,y\n".to_vec();
    gps.handle_irq(&mut wire);
    assert_eq!(gps.state, GpsState::SentOne);

    // Drain the transmission; its completion loads the update-rate
    // command and finishes the bring-up.
    let mut sent: Vec<u8> = Vec::new();
    let mut passes = 0;
    while gps.state != GpsState::Ready && passes < 32 {
        sent.append(&mut wire.tx_fifo);
        gps.handle_irq(&mut wire);
        passes += 1;
    }
    sent.append(&mut wire.tx_fifo);
    assert_eq!(gps.state, GpsState::Ready);
    assert!(sent.starts_with(b"$PMTK314,0,1,0,1,0,0,0,0,0,0,0,0,0,0,0,0,0,0,0*28"));

    // The update-rate command follows once the wire drains further.
    let mut more = 0;
    while more < 32 && !sent.ends_with(b"$PMTK220,1000*1F") {
        gps.handle_irq(&mut wire);
        sent.append(&mut wire.tx_fifo);
        more += 1;
    }
    assert!(sent.ends_with(b"$PMTK220,1000*1F"));
}

#[test]
fn gps_write_command_sends_shared_bytes() {
    let mut gps = fresh_gps();
    gps.set_with_default_space(Gps::space());
    let mut wire = UartWire::new(8);
    let mut procs = ProcessTable::new();
    let pid = procs.add_process(16);
    for (i, b) in b"go\n".iter().enumerate() {
        procs.rams[pid][i] = *b;
    }
    assert_eq!(gps.allow(pid, 1, Some(AppSlice { pid, base: 0, len: 3 })), ReturnCode::SUCCESS);
    assert_eq!(gps.command(1, 3, pid, &procs, &mut wire), ReturnCode::SUCCESS);
    // The receive side holds the peripheral's attention too, so only
    // the transmit FIFO matters here.
    gps.handle_irq(&mut wire);
    assert!(wire.tx_fifo.starts_with(b"go\n"));
}

#[test]
fn gps_selectors_reject_unknown_numbers() {
    let mut gps = fresh_gps();
    let mut wire = UartWire::new(4);
    let procs = ProcessTable::new();
    assert_eq!(gps.command(0, 0, 0, &procs, &mut wire), ReturnCode::SUCCESS);
    assert_eq!(gps.command(9, 0, 0, &procs, &mut wire), ReturnCode::ENOSUPPORT);
    assert_eq!(gps.allow(0, 7, None), ReturnCode::ENOSUPPORT);
    assert_eq!(gps.subscribe(7, None, 0), ReturnCode::ENOSUPPORT);
    assert_eq!(COMMAND::from_usize(2), Some(COMMAND::READLINE));
    assert_eq!(COMMAND::from_usize(3), None);
}

#[test]
fn power_domains_switch_independently() {
    let mut p = PowerState::new();
    p.enable_domain(PowerDomain::Serial);
    p.enable_domain(PowerDomain::Peripherals);
    assert!(p.serial_on && p.peripherals_on && !p.rfc_on);
    p.disable_domain(PowerDomain::Serial);
    assert!(!p.serial_on && p.peripherals_on);

    let rm = RegionManager {};
    rm.enable_resource(&mut p, 2);
    assert!(p.rfc_on);
    rm.disable_resource(&mut p, 2);
    assert!(!p.rfc_on);
    // An unknown resource identifier changes nothing.
    let before = p;
    rm.enable_resource(&mut p, 9);
    assert_eq!(p, before);
}

#[test]
fn deep_sleep_and_wakeup_sequences() {
    let mut p = PowerState::new();
    p.enable_domain(PowerDomain::Serial);
    p.enable_domain(PowerDomain::Peripherals);
    let mut osc = OscState { hf_source: HfClockSource::Xosc, lf_source: 0, lfclk_qualifier: true };

    prepare_deep_sleep(&mut p, &mut osc);
    assert_eq!(osc.hf_source, HfClockSource::Rcosc);
    assert!(!p.cpu_on && !p.serial_on && !p.peripherals_on && !p.rfc_on && !p.vims_on);
    assert!(p.uldo && p.dcdc && p.sleepdeep && p.io_pins_locked);
    assert!(p.mcu_ram_retention && !p.aux_ram_retention);

    prepare_wakeup(&mut p);
    assert!(p.cpu_on && p.serial_on && p.peripherals_on);
    assert!(!p.uldo && !p.sleepdeep && !p.io_pins_locked);
}

#[test]
fn oscillator_switch_to_internal_source() {
    let mut osc = OscState { hf_source: HfClockSource::Xosc, lf_source: 0, lfclk_qualifier: true };
    switch_to_rc_osc(&mut osc);
    assert_eq!(osc.hf_source, HfClockSource::Rcosc);
    assert_eq!(osc.lf_source, 2);
    assert!(!osc.lfclk_qualifier);
}

#[test]
fn rtc_alarm_cycle() {
    let mut rtc = Rtc::new();
    rtc.start();
    assert!(rtc.running);
    rtc.set_client(4);
    rtc.set_alarm(1000);
    assert!(rtc.is_armed());
    assert_eq!(rtc.get_alarm(), 1000);

    // The hardware advances the counter and latches the match.
    rtc.counter = 1000;
    rtc.compare_event = true;
    assert_eq!(rtc.now(), 1000);
    let fired = rtc.handle_interrupt();
    assert_eq!(fired, Some(4));
    assert!(!rtc.is_running());
    assert!(!rtc.compare_event);

    rtc.stop();
    assert!(!rtc.running);
    assert_eq!(rtc.get_alarm(), 0);
}

#[test]
fn rtc_alarm_compare_field_is_24_bits() {
    // The compare register keeps only the low 24 bits of the set value.
    let mut rtc = Rtc::new();
    rtc.set_alarm(0x0100_0005);
    assert_eq!(rtc.get_alarm(), 5);
    assert!(rtc.is_armed());
    rtc.set_alarm(0x00FF_FFFF);
    assert_eq!(rtc.get_alarm(), 0x00FF_FFFF);
}

#[test]
fn radio_operation_indices_are_stable() {
    assert_eq!(RadioOperation::Enable.get_operation_index(), 0);
    assert_eq!(RadioOperation::Tx.get_operation_index(), 1);
    assert_eq!(RadioOperation::Rx.get_operation_index(), 2);
    assert_eq!(RadioOperation::Configure.get_operation_index(), 3);
    assert_eq!(RadioOperation::SetPower.get_operation_index(), 4);
    assert_eq!(RadioOperation::StartTimer.get_operation_index(), 5);
    assert_eq!(RadioOperation::StopTimer.get_operation_index(), 6);
    assert_eq!(RadioOperation::Disable.get_operation_index(), 7);
    assert_eq!(RadioOperation::Abort.get_operation_index(), 8);
    assert_eq!(RadioOperation::Sleep.get_operation_index(), 9);
}

#[test]
fn power_mode_indices_are_stable() {
    assert_eq!(PowerMode::Active.get_power_mode_index(), 0);
    assert_eq!(PowerMode::Sleep.get_power_mode_index(), 1);
    assert_eq!(PowerMode::DeepSleep.get_power_mode_index(), 2);
}

#[test]
fn return_codes_map_to_stable_integers() {
    assert_eq!(ReturnCode::SUCCESS.as_i32(), 0);
    assert_eq!(ReturnCode::FAIL.as_i32(), -1);
    assert_eq!(ReturnCode::EBUSY.as_i32(), -2);
    assert_eq!(ReturnCode::EALREADY.as_i32(), -3);
    assert_eq!(ReturnCode::EOFF.as_i32(), -4);
    assert_eq!(ReturnCode::ERESERVE.as_i32(), -5);
    assert_eq!(ReturnCode::EINVAL.as_i32(), -6);
    assert_eq!(ReturnCode::ESIZE.as_i32(), -7);
    assert_eq!(ReturnCode::ECANCEL.as_i32(), -8);
    assert_eq!(ReturnCode::ENOMEM.as_i32(), -9);
    assert_eq!(ReturnCode::ENOSUPPORT.as_i32(), -10);
    assert_eq!(ReturnCode::ENODEVICE.as_i32(), -11);
    assert_eq!(ReturnCode::ENOACK.as_i32(), -13);
    assert!(ReturnCode::SUCCESS.is_success());
    assert!(!ReturnCode::FAIL.is_success());
}

#[test]
fn gpio_component_collects_pins_in_order() {
    let mut c = GpioComponent::new();
    c.add_pin(31);
    c.add_pin(30);
    c.add_pin(20);
    assert_eq!(c.pins, vec![31, 30, 20]);
}

#[test]
fn pinmap_names_the_board_functions() {
    let map = Pinmap {
        uart0_rx: 2,
        uart0_tx: 3,
        uart1_rx: 19,
        uart1_tx: 18,
        i2c0_scl: 4,
        i2c0_sda: 5,
        red_led: 6,
        green_led: 7,
        button1: 13,
        button2: 14,
        gpio0: 15,
        rf_2_4: Some(28),
        rf_subg: Some(29),
        rf_high_pa: None,
    };
    assert_eq!(map.uart0_rx, 2);
    assert_eq!(map.rf_high_pa, None);
    assert_eq!(map.rf_subg, Some(29));
}
