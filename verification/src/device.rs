//! The device state controller: tracks whether the hardware output
//! stage is enabled, so that the enable and disable calls bracket
//! exactly the spans where real audio flows.

use vstd::prelude::*;

verus! {

/// Whether the hardware output stage is currently enabled.
#[derive(Clone, Copy, PartialEq, Eq, Structural, Debug)]
pub enum DeviceState {
    /// The output stage is powered down; no write may be issued.
    Disabled,
    /// The output stage is running and accepting data.
    Enabled,
}

/// Tracks the output stage's state. The controller is only invoked when
/// the render loop's bookkeeping has already determined a transition is
/// needed, so the underlying hardware call is made exactly once per
/// state change, never redundantly.
pub struct DeviceStateController {
    /// The tracked state. Initially `Disabled`.
    pub state: DeviceState,
}

impl DeviceStateController {
    /// A fresh controller; the device starts `Disabled` and an explicit
    /// enable always precedes the first write.
    pub fn new() -> (c: Self)
        ensures
            c.state is Disabled,
    {
        DeviceStateController { state: DeviceState::Disabled }
    }

    /// Record the transition to `Enabled`. Valid only when the device is
    /// `Disabled`; the caller issues the hardware "start output" call
    /// alongside this exactly once.
    pub fn enable(&mut self)
        requires
            old(self).state is Disabled,
        ensures
            final(self).state is Enabled,
    {
        self.state = DeviceState::Enabled;
    }

    /// Record the transition to `Disabled`. Valid only when the device is
    /// `Enabled`; the caller issues the hardware "stop output" call
    /// alongside this exactly once.
    pub fn disable(&mut self)
        requires
            old(self).state is Enabled,
        ensures
            final(self).state is Disabled,
    {
        self.state = DeviceState::Disabled;
    }
}

} // verus!
