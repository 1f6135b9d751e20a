//! System mode and health: the orchestrator-owned state pair.
//!
//! Any mode is reachable from any other (manual ground override is allowed);
//! health is an independent fault-severity axis, settable directly.

use vstd::prelude::*;

verus! {

/// Current phase of the vehicle; exactly one value is active at a time.
#[derive(Debug, Clone, Copy, PartialEq, Eq, Structural)]
pub enum Mode {
    Startup,
    Standby,
    InFlight,
    Takeoff,
    Landing,
    Shutdown,
    Failure,
}

/// Fault-severity axis, independent of the mode.
#[derive(Debug, Clone, Copy, PartialEq, Eq, Structural)]
pub enum Health {
    Nominal,
    Critical,
    Marginal,
}

/// The (mode, health) pair owned by the orchestrator. The mode changes only
/// through [`State::set_mode`]; health is settable directly.
#[derive(Debug, Clone, Copy, PartialEq, Eq, Structural)]
pub struct State {
    mode: Mode,
    pub health: Health,
}

impl State {
    /// The current mode, for use in contracts.
    pub closed spec fn spec_mode(&self) -> Mode {
        self.mode
    }

    /// The current health, for use in contracts.
    pub closed spec fn spec_health(&self) -> Health {
        self.health
    }

    /// A fresh state: mode `Startup`, health `Nominal`.
    pub fn new() -> (s: Self)
        ensures
            s.spec_mode() == Mode::Startup,
            s.spec_health() == Health::Nominal,
    {
        State { mode: Mode::Startup, health: Health::Nominal }
    }

    /// Replace the mode; any mode is settable from any other.
    pub fn set_mode(&mut self, mode: Mode)
        ensures
            final(self).spec_mode() == mode,
            final(self).spec_health() == old(self).spec_health(),
    {
        self.mode = mode;
    }

    /// Read the current mode.
    pub fn get_mode(&self) -> (m: Mode)
        ensures
            m == self.spec_mode(),
    {
        self.mode
    }

    /// Replace the health value directly; no derivation, no gating.
    pub fn set_health(&mut self, health: Health)
        ensures
            final(self).spec_health() == health,
            final(self).spec_mode() == old(self).spec_mode(),
    {
        self.health = health;
    }
}

} // verus!
