//! Real-time counter driver.
//!
//! The counter register advances on its own in hardware; here it is a
//! plain field the caller advances.  The driver's job — arming the
//! compare alarm, masking its interrupt, and telling the registered
//! client its alarm fired — is stated exactly.

use vstd::prelude::*;

verus! {

/// The real-time counter and its alarm.
pub struct Rtc {
    /// The free-running counter value, advanced by the hardware.
    pub counter: u32,
    /// The compare value the alarm fires at.
    pub compare: u32,
    /// The hardware latched a compare match.
    pub compare_event: bool,
    /// The compare interrupt is unmasked.
    pub inten_compare: bool,
    /// The counter runs.
    pub running: bool,
    /// The counter's prescaler.
    pub prescaler: u32,
    /// The registered alarm client, if any.
    pub client: Option<usize>,
}

impl Rtc {
    /// A stopped counter with no client.
    pub fn new() -> (r: Rtc)
        ensures
            r.counter == 0,
            r.compare == 0,
            !r.compare_event,
            !r.inten_compare,
            !r.running,
            r.client is None,
    {
        Rtc {
            counter: 0,
            compare: 0,
            compare_event: false,
            inten_compare: false,
            running: false,
            prescaler: 0,
            client: None,
        }
    }

    /// Start the counter at full rate.  This takes a while in hardware,
    /// so it belongs in initialisation, not in the tick path.
    pub fn start(&mut self)
        ensures
            *final(self) == (Rtc { prescaler: 0, running: true, ..*old(self) }),
    {
        self.prescaler = 0;
        self.running = true;
    }

    /// Stop the counter and clear the compare value.
    pub fn stop(&mut self)
        ensures
            *final(self) == (Rtc { compare: 0, running: false, ..*old(self) }),
    {
        self.compare = 0;
        self.running = false;
    }

    /// True while the compare interrupt is armed.
    pub fn is_running(&self) -> (r: bool)
        ensures
            r == self.inten_compare,
    {
        self.inten_compare
    }

    /// Acknowledge a compare match: clear the latched event, mask the
    /// interrupt, and name the client whose alarm fired.
    pub fn handle_interrupt(&mut self) -> (r: Option<usize>)
        ensures
            *final(self) == (Rtc { compare_event: false, inten_compare: false, ..*old(self) }),
            r == old(self).client,
    {
        self.compare_event = false;
        self.inten_compare = false;
        self.client
    }

    /// Register the client told about alarms.
    pub fn set_client(&mut self, client: usize)
        ensures
            *final(self) == (Rtc { client: Some(client), ..*old(self) }),
    {
        self.client = Some(client);
    }

    /// Mask the compare interrupt without stopping the counter.
    pub fn disable(&mut self)
        ensures
            *final(self) == (Rtc { inten_compare: false, ..*old(self) }),
    {
        self.inten_compare = false;
    }

    /// True while an alarm is armed.
    pub fn is_armed(&self) -> (r: bool)
        ensures
            r == self.inten_compare,
    {
        self.is_running()
    }

    /// The current counter value.
    pub fn now(&self) -> (r: u32)
        ensures
            r == self.counter,
    {
        self.counter
    }

    /// Arm the alarm at a counter value; the counter keeps running.  The
    /// compare register is a 24-bit field, so the high byte of the value
    /// is not stored.
    pub fn set_alarm(&mut self, tics: u32)
        ensures
            *final(self) == (Rtc {
                compare: tics & 0x00FF_FFFF,
                inten_compare: true,
                ..*old(self)
            }),
    {
        self.compare = tics & 0x00FF_FFFF;
        self.inten_compare = true;
    }

    /// The armed compare value: the set value masked to the 24-bit field.
    pub fn get_alarm(&self) -> (r: u32)
        ensures
            r == self.compare,
    {
        self.compare
    }
}

} // verus!
