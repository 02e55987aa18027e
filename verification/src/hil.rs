//! Hardware-interface enumerations shared by radio clients.

use vstd::prelude::*;

verus! {

/// The operations a radio client may request.
#[derive(Clone, Copy, Debug, PartialEq, Eq, Structural)]
pub enum RadioOperation {
    /// Power the radio on.
    Enable,
    /// Transmit a frame.
    Tx,
    /// Enter receive.
    Rx,
    /// Change the configuration.
    Configure,
    /// Change the transmit power.
    SetPower,
    /// Start the radio timer.
    StartTimer,
    /// Stop the radio timer.
    StopTimer,
    /// Power the radio off.
    Disable,
    /// Abort the running operation.
    Abort,
    /// Enter a sleep state.
    Sleep,
}

impl RadioOperation {
    /// The operation's stable numeric index.
    pub open spec fn spec_operation_index(self) -> u32 {
        match self {
            RadioOperation::Enable => 0,
            RadioOperation::Tx => 1,
            RadioOperation::Rx => 2,
            RadioOperation::Configure => 3,
            RadioOperation::SetPower => 4,
            RadioOperation::StartTimer => 5,
            RadioOperation::StopTimer => 6,
            RadioOperation::Disable => 7,
            RadioOperation::Abort => 8,
            RadioOperation::Sleep => 9,
        }
    }

    /// The operation's stable numeric index.
    pub fn get_operation_index(&self) -> (r: u32)
        ensures
            r == self.spec_operation_index(),
    {
        match *self {
            RadioOperation::Enable => 0,
            RadioOperation::Tx => 1,
            RadioOperation::Rx => 2,
            RadioOperation::Configure => 3,
            RadioOperation::SetPower => 4,
            RadioOperation::StartTimer => 5,
            RadioOperation::StopTimer => 6,
            RadioOperation::Disable => 7,
            RadioOperation::Abort => 8,
            RadioOperation::Sleep => 9,
        }
    }
}

/// The power states a radio client may request.
#[derive(Clone, Copy, Debug, PartialEq, Eq, Structural)]
pub enum PowerMode {
    /// Fully powered.
    Active,
    /// Light sleep.
    Sleep,
    /// Deepest sleep.
    DeepSleep,
}

impl PowerMode {
    /// The power state's stable numeric index.
    pub open spec fn spec_power_mode_index(self) -> u32 {
        match self {
            PowerMode::Active => 0,
            PowerMode::Sleep => 1,
            PowerMode::DeepSleep => 2,
        }
    }

    /// The power state's stable numeric index.
    pub fn get_power_mode_index(&self) -> (r: u32)
        ensures
            r == self.spec_power_mode_index(),
    {
        match *self {
            PowerMode::Active => 0,
            PowerMode::Sleep => 1,
            PowerMode::DeepSleep => 2,
        }
    }
}

} // verus!
