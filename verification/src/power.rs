//! Power-domain and oscillator bookkeeping.
//!
//! The chip's power controller and oscillator appear as plain state; the
//! sequences that prepare deep sleep and wake the chip again are stated
//! field by field.

use vstd::prelude::*;

verus! {

/// The chip's switchable power domains.
#[derive(Clone, Copy, Debug, PartialEq, Eq, Structural)]
pub enum PowerDomain {
    /// The serial peripherals.
    Serial,
    /// The general peripherals.
    Peripherals,
    /// The radio core.
    RFC,
    /// The memory subsystem.
    VIMS,
    /// The processor itself.
    CPU,
}

/// The domain a resource identifier names, if any.
pub open spec fn spec_from_resource_id(id: u32) -> Option<PowerDomain> {
    if id == 0 {
        Some(PowerDomain::Serial)
    } else if id == 1 {
        Some(PowerDomain::Peripherals)
    } else if id == 2 {
        Some(PowerDomain::RFC)
    } else if id == 3 {
        Some(PowerDomain::VIMS)
    } else if id == 4 {
        Some(PowerDomain::CPU)
    } else {
        None
    }
}

impl PowerDomain {
    /// The domain a resource identifier names, if any.
    pub fn from_resource_id(id: u32) -> (r: Option<PowerDomain>)
        ensures
            r == spec_from_resource_id(id),
    {
        match id {
            0 => Some(PowerDomain::Serial),
            1 => Some(PowerDomain::Peripherals),
            2 => Some(PowerDomain::RFC),
            3 => Some(PowerDomain::VIMS),
            4 => Some(PowerDomain::CPU),
            _ => None,
        }
    }
}

/// The high-frequency clock's source.
#[derive(Clone, Copy, Debug, PartialEq, Eq, Structural)]
pub enum HfClockSource {
    /// The internal resistor-capacitor oscillator.
    Rcosc,
    /// The external crystal oscillator.
    Xosc,
}

/// The oscillator block's state.
#[derive(Clone, Copy, Debug, PartialEq, Eq, Structural)]
pub struct OscState {
    /// What drives the high-frequency clock.
    pub hf_source: HfClockSource,
    /// The configured low-frequency clock source selector.
    pub lf_source: u8,
    /// The low-frequency clock qualifier runs.
    pub lfclk_qualifier: bool,
}

/// The power controller's state.
#[derive(Clone, Copy, Debug, PartialEq, Eq, Structural)]
pub struct PowerState {
    /// The serial domain is powered.
    pub serial_on: bool,
    /// The peripherals domain is powered.
    pub peripherals_on: bool,
    /// The radio-core domain is powered.
    pub rfc_on: bool,
    /// The memory-subsystem domain is powered.
    pub vims_on: bool,
    /// The processor domain is powered.
    pub cpu_on: bool,
    /// The micro low-dropout regulator supplies the peripherals.
    pub uldo: bool,
    /// The switching regulator is enabled.
    pub dcdc: bool,
    /// The auxiliary domain's RAM keeps its contents in sleep.
    pub aux_ram_retention: bool,
    /// The main RAM keeps its contents in sleep.
    pub mcu_ram_retention: bool,
    /// The I/O pins are latched against changes.
    pub io_pins_locked: bool,
    /// The deep-sleep bit of the system control block.
    pub sleepdeep: bool,
}

impl PowerState {
    /// The state after reset: everything off, regulators idle.
    pub fn new() -> (p: PowerState)
        ensures
            !p.serial_on && !p.peripherals_on && !p.rfc_on && !p.vims_on,
            p.cpu_on,
            !p.uldo && !p.dcdc,
            !p.io_pins_locked && !p.sleepdeep,
    {
        PowerState {
            serial_on: false,
            peripherals_on: false,
            rfc_on: false,
            vims_on: false,
            cpu_on: true,
            uldo: false,
            dcdc: false,
            aux_ram_retention: true,
            mcu_ram_retention: true,
            io_pins_locked: false,
            sleepdeep: false,
        }
    }

    /// True when the given domain is powered.
    pub open spec fn spec_domain_on(self, d: PowerDomain) -> bool {
        match d {
            PowerDomain::Serial => self.serial_on,
            PowerDomain::Peripherals => self.peripherals_on,
            PowerDomain::RFC => self.rfc_on,
            PowerDomain::VIMS => self.vims_on,
            PowerDomain::CPU => self.cpu_on,
        }
    }

    /// Power one domain.
    pub fn enable_domain(&mut self, d: PowerDomain)
        ensures
            final(self).spec_domain_on(d),
            forall|x: PowerDomain| x != d ==> final(self).spec_domain_on(x) == old(self).spec_domain_on(x),
            final(self).uldo == old(self).uldo,
            final(self).dcdc == old(self).dcdc,
            final(self).io_pins_locked == old(self).io_pins_locked,
            final(self).sleepdeep == old(self).sleepdeep,
    {
        match d {
            PowerDomain::Serial => self.serial_on = true,
            PowerDomain::Peripherals => self.peripherals_on = true,
            PowerDomain::RFC => self.rfc_on = true,
            PowerDomain::VIMS => self.vims_on = true,
            PowerDomain::CPU => self.cpu_on = true,
        }
    }

    /// Power one domain down.
    pub fn disable_domain(&mut self, d: PowerDomain)
        ensures
            !final(self).spec_domain_on(d),
            forall|x: PowerDomain| x != d ==> final(self).spec_domain_on(x) == old(self).spec_domain_on(x),
            final(self).uldo == old(self).uldo,
            final(self).dcdc == old(self).dcdc,
            final(self).io_pins_locked == old(self).io_pins_locked,
            final(self).sleepdeep == old(self).sleepdeep,
    {
        match d {
            PowerDomain::Serial => self.serial_on = false,
            PowerDomain::Peripherals => self.peripherals_on = false,
            PowerDomain::RFC => self.rfc_on = false,
            PowerDomain::VIMS => self.vims_on = false,
            PowerDomain::CPU => self.cpu_on = false,
        }
    }
}

/// Routes numeric resource requests to the power domains.
pub struct RegionManager {
}

impl RegionManager {
    /// Power the domain a resource identifier names; an unknown
    /// identifier changes nothing.
    pub fn enable_resource(&self, power: &mut PowerState, resource_id: u32)
        ensures
            match spec_from_resource_id(resource_id) {
                Some(d) => final(power).spec_domain_on(d) && (forall|x: PowerDomain|
                    x != d ==> final(power).spec_domain_on(x) == old(power).spec_domain_on(x)),
                None => *final(power) == *old(power),
            },
    {
        match PowerDomain::from_resource_id(resource_id) {
            Some(d) => power.enable_domain(d),
            None => {},
        }
    }

    /// Power down the domain a resource identifier names; an unknown
    /// identifier changes nothing.
    pub fn disable_resource(&self, power: &mut PowerState, resource_id: u32)
        ensures
            match spec_from_resource_id(resource_id) {
                Some(d) => !final(power).spec_domain_on(d) && (forall|x: PowerDomain|
                    x != d ==> final(power).spec_domain_on(x) == old(power).spec_domain_on(x)),
                None => *final(power) == *old(power),
            },
    {
        match PowerDomain::from_resource_id(resource_id) {
            Some(d) => power.disable_domain(d),
            None => {},
        }
    }
}

/// Put the high-frequency clock on the internal oscillator, select the
/// low-frequency source, and stop the qualifier.
pub fn switch_to_rc_osc(osc: &mut OscState)
    ensures
        final(osc).hf_source == HfClockSource::Rcosc,
        final(osc).lf_source == 0x2,
        !final(osc).lfclk_qualifier,
{
    if !matches!(osc.hf_source, HfClockSource::Rcosc) {
        osc.hf_source = HfClockSource::Rcosc;
    }
    osc.lf_source = 0x2;
    osc.lfclk_qualifier = false;
}

/// Transition towards deep sleep: clock from the internal oscillator,
/// every switchable domain off, the peripherals on the low-power
/// regulator, main RAM retained, pins latched, and the deep-sleep bit
/// set.
pub fn prepare_deep_sleep(power: &mut PowerState, osc: &mut OscState)
    ensures
        final(osc).hf_source == HfClockSource::Rcosc,
        !final(power).cpu_on && !final(power).rfc_on && !final(power).serial_on && !final(power).peripherals_on && !final(power).vims_on,
        final(power).uldo,
        final(power).dcdc,
        !final(power).aux_ram_retention,
        final(power).mcu_ram_retention,
        final(power).io_pins_locked,
        final(power).sleepdeep,
{
    switch_to_rc_osc(osc);
    power.disable_domain(PowerDomain::CPU);
    power.disable_domain(PowerDomain::RFC);
    power.disable_domain(PowerDomain::Serial);
    power.disable_domain(PowerDomain::Peripherals);
    power.disable_domain(PowerDomain::VIMS);
    proof {
        assert(!power.spec_domain_on(PowerDomain::CPU));
        assert(!power.spec_domain_on(PowerDomain::RFC));
        assert(!power.spec_domain_on(PowerDomain::Serial));
        assert(!power.spec_domain_on(PowerDomain::Peripherals));
        assert(!power.spec_domain_on(PowerDomain::VIMS));
    }
    power.uldo = true;
    power.dcdc = true;
    power.aux_ram_retention = false;
    power.mcu_ram_retention = true;
    power.io_pins_locked = true;
    power.sleepdeep = true;
}

/// Transition out of deep sleep: the low-power regulator released, the
/// core domains powered again, pins unlatched, and the deep-sleep bit
/// cleared.
pub fn prepare_wakeup(power: &mut PowerState)
    ensures
        !final(power).uldo,
        final(power).cpu_on && final(power).peripherals_on && final(power).serial_on,
        !final(power).io_pins_locked,
        !final(power).sleepdeep,
        final(power).rfc_on == old(power).rfc_on,
        final(power).vims_on == old(power).vims_on,
{
    power.uldo = false;
    power.enable_domain(PowerDomain::CPU);
    power.enable_domain(PowerDomain::Peripherals);
    power.enable_domain(PowerDomain::Serial);
    proof {
        assert(power.spec_domain_on(PowerDomain::CPU));
        assert(power.spec_domain_on(PowerDomain::Peripherals));
        assert(power.spec_domain_on(PowerDomain::Serial));
        assert(power.spec_domain_on(PowerDomain::RFC) == old(power).spec_domain_on(
            PowerDomain::RFC,
        ));
        assert(power.spec_domain_on(PowerDomain::VIMS) == old(power).spec_domain_on(
            PowerDomain::VIMS,
        ));
    }
    power.io_pins_locked = false;
    power.sleepdeep = false;
}

} // verus!
