//! Drive modes for the train-protection indicator lamps, and the panel state
//! built from them.

use vstd::prelude::*;

verus! {

/// One indicator lamp's drive mode.
#[derive(Copy, Clone, Debug, PartialEq, Eq, Structural)]
pub enum LedState {
    Off,
    Static,
    Blinking,
}

impl LedState {
    /// The lamp level for this mode at the given point of the blink cycle.
    pub open spec fn spec_to_bool(self, cycle: bool) -> bool {
        match self {
            LedState::Off => false,
            LedState::Static => true,
            LedState::Blinking => cycle,
        }
    }

    pub fn to_bool(self, cycle: bool) -> (r: bool)
        ensures
            r == self.spec_to_bool(cycle),
    {
        match self {
            LedState::Off => false,
            LedState::Static => true,
            LedState::Blinking => cycle,
        }
    }
}

/// The drive mode of each lamp of the train-protection indicator panel.
#[derive(Copy, Clone, Debug, PartialEq, Eq, Structural)]
pub struct PzbLedState {
    pub b85: LedState,
    pub b70: LedState,
    pub b55: LedState,
    pub hz1000: LedState,
    pub hz500: LedState,
    pub command: LedState,
}

/// The level of each lamp pin at one point of the blink cycle: what a panel
/// state resolves to once the cycle phase is known.
#[derive(Copy, Clone, Debug, PartialEq, Eq, Structural)]
pub struct LedLevels {
    pub b85: bool,
    pub b70: bool,
    pub b55: bool,
    pub hz1000: bool,
    pub hz500: bool,
    pub command: bool,
}

impl PzbLedState {
    /// The panel with every lamp off.
    pub open spec fn spec_off() -> PzbLedState {
        PzbLedState {
            b85: LedState::Off,
            b70: LedState::Off,
            b55: LedState::Off,
            hz1000: LedState::Off,
            hz500: LedState::Off,
            command: LedState::Off,
        }
    }

    pub fn off() -> (r: Self)
        ensures
            r == Self::spec_off(),
    {
        PzbLedState {
            b85: LedState::Off,
            b70: LedState::Off,
            b55: LedState::Off,
            hz1000: LedState::Off,
            hz500: LedState::Off,
            command: LedState::Off,
        }
    }

    /// The level of each lamp pin for this panel state at the given point of
    /// the blink cycle. The hardware write itself stays outside the library.
    pub fn set_leds(self, light_cycle: bool) -> (r: LedLevels)
        ensures
            r.b85 == self.b85.spec_to_bool(light_cycle),
            r.b70 == self.b70.spec_to_bool(light_cycle),
            r.b55 == self.b55.spec_to_bool(light_cycle),
            r.hz1000 == self.hz1000.spec_to_bool(light_cycle),
            r.hz500 == self.hz500.spec_to_bool(light_cycle),
            r.command == self.command.spec_to_bool(light_cycle),
    {
        LedLevels {
            b85: self.b85.to_bool(light_cycle),
            b70: self.b70.to_bool(light_cycle),
            b55: self.b55.to_bool(light_cycle),
            hz1000: self.hz1000.to_bool(light_cycle),
            hz500: self.hz500.to_bool(light_cycle),
            command: self.command.to_bool(light_cycle),
        }
    }

    pub fn b85(self) -> (r: Self)
        ensures
            r == (PzbLedState { b85: LedState::Static, ..self }),
    {
        PzbLedState { b85: LedState::Static, ..self }
    }

    pub fn b85_blink(self) -> (r: Self)
        ensures
            r == (PzbLedState { b85: LedState::Blinking, ..self }),
    {
        PzbLedState { b85: LedState::Blinking, ..self }
    }

    pub fn b70(self) -> (r: Self)
        ensures
            r == (PzbLedState { b70: LedState::Static, ..self }),
    {
        PzbLedState { b70: LedState::Static, ..self }
    }

    pub fn b70_blink(self) -> (r: Self)
        ensures
            r == (PzbLedState { b70: LedState::Blinking, ..self }),
    {
        PzbLedState { b70: LedState::Blinking, ..self }
    }

    pub fn b55(self) -> (r: Self)
        ensures
            r == (PzbLedState { b55: LedState::Static, ..self }),
    {
        PzbLedState { b55: LedState::Static, ..self }
    }

    pub fn b55_blink(self) -> (r: Self)
        ensures
            r == (PzbLedState { b55: LedState::Blinking, ..self }),
    {
        PzbLedState { b55: LedState::Blinking, ..self }
    }

    pub fn hz1000(self) -> (r: Self)
        ensures
            r == (PzbLedState { hz1000: LedState::Static, ..self }),
    {
        PzbLedState { hz1000: LedState::Static, ..self }
    }

    pub fn hz1000_blink(self) -> (r: Self)
        ensures
            r == (PzbLedState { hz1000: LedState::Blinking, ..self }),
    {
        PzbLedState { hz1000: LedState::Blinking, ..self }
    }

    pub fn hz500(self) -> (r: Self)
        ensures
            r == (PzbLedState { hz500: LedState::Static, ..self }),
    {
        PzbLedState { hz500: LedState::Static, ..self }
    }

    pub fn hz500_blink(self) -> (r: Self)
        ensures
            r == (PzbLedState { hz500: LedState::Blinking, ..self }),
    {
        PzbLedState { hz500: LedState::Blinking, ..self }
    }

    pub fn command(self) -> (r: Self)
        ensures
            r == (PzbLedState { command: LedState::Static, ..self }),
    {
        PzbLedState { command: LedState::Static, ..self }
    }

    pub fn command_blink(self) -> (r: Self)
        ensures
            r == (PzbLedState { command: LedState::Blinking, ..self }),
    {
        PzbLedState { command: LedState::Blinking, ..self }
    }
}

} // verus!
