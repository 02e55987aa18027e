//! Board wiring data: which pins carry which function.

use vstd::prelude::*;

verus! {

/// The pin assignment of one board variant.
pub struct Pinmap {
    /// Receive pin of the first UART.
    pub uart0_rx: usize,
    /// Transmit pin of the first UART.
    pub uart0_tx: usize,
    /// Receive pin of the second UART.
    pub uart1_rx: usize,
    /// Transmit pin of the second UART.
    pub uart1_tx: usize,
    /// Clock pin of the I2C master.
    pub i2c0_scl: usize,
    /// Data pin of the I2C master.
    pub i2c0_sda: usize,
    /// The red light.
    pub red_led: usize,
    /// The green light.
    pub green_led: usize,
    /// The first button.
    pub button1: usize,
    /// The second button.
    pub button2: usize,
    /// The spare general-purpose pin.
    pub gpio0: usize,
    /// The 2.4-gigahertz antenna switch, where the board has one.
    pub rf_2_4: Option<usize>,
    /// The sub-gigahertz antenna switch, where the board has one.
    pub rf_subg: Option<usize>,
    /// The high-power amplifier control, where the board has one.
    pub rf_high_pa: Option<usize>,
}

/// Builds the user-visible general-purpose pin driver for a board; the
/// hardware realisation lives with the board wiring.
pub struct GpioComponent {
    /// The header pins the component exposes, in header order.
    pub pins: Vec<usize>,
}

impl GpioComponent {
    /// A component with no pins chosen yet.
    pub fn new() -> (c: GpioComponent)
        ensures
            c.pins@.len() == 0,
    {
        GpioComponent { pins: Vec::new() }
    }

    /// Expose one more header pin; pins keep the order they were added.
    pub fn add_pin(&mut self, pin: usize)
        ensures
            final(self).pins@ == old(self).pins@.push(pin),
    {
        self.pins.push(pin);
    }
}

} // verus!
