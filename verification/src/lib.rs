//! Core runtime of a small, statically-allocated embedded kernel for a
//! Cortex-M4F class microcontroller with a radio co-processor.
//!
//! The crate models the pieces of the kernel that carry the logic: the
//! event-priority dispatcher drained from thread context, the UART driver
//! and its request protocol, the UART multiplexer, the per-process grant
//! and shared-buffer bookkeeping, and the radio command/queue state
//! machine.  Hardware registers appear as plain data handed in by the
//! caller, so every decision the kernel makes is stated in a contract and
//! proved.

pub mod board;
pub mod chip;
pub mod events;
pub mod gps;
pub mod grant;
pub mod helium;
pub mod hil;
pub mod mux;
pub mod power;
pub mod radio;
pub mod retcode;
pub mod rfc;
pub mod rtc;
pub mod uart_driver;
pub mod uart_hw;
pub mod uart_req;
