//! Semantic register map of the device.
//!
//! Each register is a thin wrapper around its raw byte with total,
//! invertible codecs between the byte's bitfields and semantic values.
//! Reserved bit patterns decode to a documented fallback, never to an
//! error: register access favours availability over strict validation.

pub mod generic_configuration;
pub mod pll1_configuration;

use vstd::prelude::*;

verus! {

/// Base bus offset of the generic-configuration bank (sub-offsets 0x0–0x6).
pub const GENERIC_CONFIGURATION_BASE: u8 = 0x00;

/// Base bus offset of the PLL1-configuration bank (sub-offsets 0x0–0xF).
pub const PLL1_CONFIGURATION_BASE: u8 = 0x10;

/// How an output driver behaves in one of the two selectable states.
#[derive(Debug, Clone, Copy, PartialEq, Eq, PartialOrd, Ord, Structural)]
pub enum OutputStateDefinition {
    DevicePowerDown,
    Disabled3State,
    DisabledLow,
    Enabled,
}

/// Which of the two state definitions an output currently follows.
#[derive(Debug, Clone, Copy, PartialEq, Eq, PartialOrd, Ord, Structural)]
pub enum OutputStateSelection {
    State0,
    State1,
}

impl OutputStateDefinition {
    /// The raw 2-bit code of this state definition.
    pub open spec fn spec_code(self) -> u8 {
        match self {
            OutputStateDefinition::DevicePowerDown => 0b00,
            OutputStateDefinition::Disabled3State => 0b01,
            OutputStateDefinition::DisabledLow => 0b10,
            OutputStateDefinition::Enabled => 0b11,
        }
    }

    /// Total decoding of a 2-bit pattern; every pattern is a defined state.
    pub open spec fn spec_from_bits(bits: u8) -> Self {
        if bits == 0b00 {
            OutputStateDefinition::DevicePowerDown
        } else if bits == 0b01 {
            OutputStateDefinition::Disabled3State
        } else if bits == 0b10 {
            OutputStateDefinition::DisabledLow
        } else {
            OutputStateDefinition::Enabled
        }
    }

    pub fn code(self) -> (r: u8)
        ensures
            r == self.spec_code(),
            r < 4,
    {
        match self {
            OutputStateDefinition::DevicePowerDown => 0b00,
            OutputStateDefinition::Disabled3State => 0b01,
            OutputStateDefinition::DisabledLow => 0b10,
            OutputStateDefinition::Enabled => 0b11,
        }
    }

    pub fn from_bits(bits: u8) -> (r: Self)
        requires
            bits < 4,
        ensures
            r == Self::spec_from_bits(bits),
    {
        if bits == 0b00 {
            OutputStateDefinition::DevicePowerDown
        } else if bits == 0b01 {
            OutputStateDefinition::Disabled3State
        } else if bits == 0b10 {
            OutputStateDefinition::DisabledLow
        } else {
            OutputStateDefinition::Enabled
        }
    }
}

impl OutputStateSelection {
    /// The raw single-bit code of this selection.
    pub open spec fn spec_code(self) -> u8 {
        match self {
            OutputStateSelection::State0 => 0,
            OutputStateSelection::State1 => 1,
        }
    }

    /// Total decoding of a single-bit pattern.
    pub open spec fn spec_from_bits(bits: u8) -> Self {
        if bits == 0 {
            OutputStateSelection::State0
        } else {
            OutputStateSelection::State1
        }
    }

    pub fn code(self) -> (r: u8)
        ensures
            r == self.spec_code(),
            r < 2,
    {
        match self {
            OutputStateSelection::State0 => 0,
            OutputStateSelection::State1 => 1,
        }
    }

    pub fn from_bits(bits: u8) -> (r: Self)
        requires
            bits < 2,
        ensures
            r == Self::spec_from_bits(bits),
    {
        if bits == 0 {
            OutputStateSelection::State0
        } else {
            OutputStateSelection::State1
        }
    }
}

/// Decoding the code of an output-state definition or selection yields
/// the value again: the two codecs are exact inverses on valid values.
pub proof fn lemma_output_state_codes_roundtrip(
    d: OutputStateDefinition,
    s: OutputStateSelection,
)
    ensures
        OutputStateDefinition::spec_from_bits(d.spec_code()) == d,
        OutputStateSelection::spec_from_bits(s.spec_code()) == s,
{
}

} // verus!
