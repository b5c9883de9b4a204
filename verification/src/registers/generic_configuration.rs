//! Generic-configuration register bank (bank base 0x00, offsets 0x0–0x6):
//! device identity, EEPROM control, input-clock selection, the Y1 output
//! path, the 10-bit Y1 divider split over two registers, crystal load
//! capacitance and the block byte count.

use crate::bits::{
    get_bits8, lemma_get_set_same8, lemma_mask8_values, set_bits8, spec_get_bits8,
    spec_set_bits8,
};
use crate::registers::{OutputStateDefinition, OutputStateSelection};
use vstd::prelude::*;

verus! {

/// Which part of the device family answered: the crystal-input part or
/// the LVCMOS-input part.
#[derive(Debug, Clone, Copy, PartialEq, Eq, PartialOrd, Ord, Structural)]
pub enum DeviceIdentification {
    CDCEL913,
    CDCE913,
}

/// Whether an EEPROM programming cycle is still running.
#[derive(Debug, Clone, Copy, PartialEq, Eq, PartialOrd, Ord, Structural)]
pub enum EepromProgrammingStatus {
    Completed,
    InProgress,
}

/// Input clock source. The fourth 2-bit code is reserved by the
/// hardware and decodes to the documented fallback `Xtal`.
#[derive(Debug, Clone, Copy, PartialEq, Eq, PartialOrd, Ord, Structural)]
pub enum InputClockSelection {
    Xtal,
    Vcxo,
    LvCmos,
}

/// Clock source feeding the Y1 output.
#[derive(Debug, Clone, Copy, PartialEq, Eq, PartialOrd, Ord, Structural)]
pub enum Y1ClockSource {
    InputClock,
    Pll1Clock,
}

/// Operating mode of the serial interface pins.
#[derive(Debug, Clone, Copy, PartialEq, Eq, PartialOrd, Ord, Structural)]
pub enum SerialInterfacePinMode {
    SerialProgrammingInterface,
    ControlS1S2,
}

impl DeviceIdentification {
    pub open spec fn spec_code(self) -> u8 {
        match self {
            DeviceIdentification::CDCEL913 => 0,
            DeviceIdentification::CDCE913 => 1,
        }
    }

    pub open spec fn spec_from_bits(bits: u8) -> Self {
        if bits == 0 {
            DeviceIdentification::CDCEL913
        } else {
            DeviceIdentification::CDCE913
        }
    }

    pub fn code(self) -> (r: u8)
        ensures
            r == self.spec_code(),
            r < 2,
    {
        match self {
            DeviceIdentification::CDCEL913 => 0,
            DeviceIdentification::CDCE913 => 1,
        }
    }

    pub fn from_bits(bits: u8) -> (r: Self)
        requires
            bits < 2,
        ensures
            r == Self::spec_from_bits(bits),
    {
        if bits == 0 {
            DeviceIdentification::CDCEL913
        } else {
            DeviceIdentification::CDCE913
        }
    }
}

impl EepromProgrammingStatus {
    pub open spec fn spec_code(self) -> u8 {
        match self {
            EepromProgrammingStatus::Completed => 0,
            EepromProgrammingStatus::InProgress => 1,
        }
    }

    pub open spec fn spec_from_bits(bits: u8) -> Self {
        if bits == 0 {
            EepromProgrammingStatus::Completed
        } else {
            EepromProgrammingStatus::InProgress
        }
    }

    pub fn code(self) -> (r: u8)
        ensures
            r == self.spec_code(),
            r < 2,
    {
        match self {
            EepromProgrammingStatus::Completed => 0,
            EepromProgrammingStatus::InProgress => 1,
        }
    }

    pub fn from_bits(bits: u8) -> (r: Self)
        requires
            bits < 2,
        ensures
            r == Self::spec_from_bits(bits),
    {
        if bits == 0 {
            EepromProgrammingStatus::Completed
        } else {
            EepromProgrammingStatus::InProgress
        }
    }
}

impl InputClockSelection {
    pub open spec fn spec_code(self) -> u8 {
        match self {
            InputClockSelection::Xtal => 0b00,
            InputClockSelection::Vcxo => 0b01,
            InputClockSelection::LvCmos => 0b10,
        }
    }

    /// Total decoding of the 2-bit selector. The reserved pattern 0b11
    /// maps to the safe fallback `Xtal`, never to an error.
    pub open spec fn spec_from_bits(bits: u8) -> Self {
        if bits == 0b01 {
            InputClockSelection::Vcxo
        } else if bits == 0b10 {
            InputClockSelection::LvCmos
        } else {
            InputClockSelection::Xtal
        }
    }

    pub fn code(self) -> (r: u8)
        ensures
            r == self.spec_code(),
            r < 4,
    {
        match self {
            InputClockSelection::Xtal => 0b00,
            InputClockSelection::Vcxo => 0b01,
            InputClockSelection::LvCmos => 0b10,
        }
    }

    pub fn from_bits(bits: u8) -> (r: Self)
        requires
            bits < 4,
        ensures
            r == Self::spec_from_bits(bits),
    {
        if bits == 0b01 {
            InputClockSelection::Vcxo
        } else if bits == 0b10 {
            InputClockSelection::LvCmos
        } else {
            InputClockSelection::Xtal
        }
    }
}

impl Y1ClockSource {
    pub open spec fn spec_code(self) -> u8 {
        match self {
            Y1ClockSource::InputClock => 0,
            Y1ClockSource::Pll1Clock => 1,
        }
    }

    pub open spec fn spec_from_bits(bits: u8) -> Self {
        if bits == 0 {
            Y1ClockSource::InputClock
        } else {
            Y1ClockSource::Pll1Clock
        }
    }

    pub fn code(self) -> (r: u8)
        ensures
            r == self.spec_code(),
            r < 2,
    {
        match self {
            Y1ClockSource::InputClock => 0,
            Y1ClockSource::Pll1Clock => 1,
        }
    }

    pub fn from_bits(bits: u8) -> (r: Self)
        requires
            bits < 2,
        ensures
            r == Self::spec_from_bits(bits),
    {
        if bits == 0 {
            Y1ClockSource::InputClock
        } else {
            Y1ClockSource::Pll1Clock
        }
    }
}

impl SerialInterfacePinMode {
    pub open spec fn spec_code(self) -> u8 {
        match self {
            SerialInterfacePinMode::SerialProgrammingInterface => 0,
            SerialInterfacePinMode::ControlS1S2 => 1,
        }
    }

    pub open spec fn spec_from_bits(bits: u8) -> Self {
        if bits == 0 {
            SerialInterfacePinMode::SerialProgrammingInterface
        } else {
            SerialInterfacePinMode::ControlS1S2
        }
    }

    pub fn code(self) -> (r: u8)
        ensures
            r == self.spec_code(),
            r < 2,
    {
        match self {
            SerialInterfacePinMode::SerialProgrammingInterface => 0,
            SerialInterfacePinMode::ControlS1S2 => 1,
        }
    }

    pub fn from_bits(bits: u8) -> (r: Self)
        requires
            bits < 2,
        ensures
            r == Self::spec_from_bits(bits),
    {
        if bits == 0 {
            SerialInterfacePinMode::SerialProgrammingInterface
        } else {
            SerialInterfacePinMode::ControlS1S2
        }
    }
}

/// Decoding the code of each semantic value of this bank yields the
/// value again, and the reserved 2-bit input-clock pattern decodes to
/// the documented fallback.
pub proof fn lemma_generic_configuration_codes_roundtrip(
    d: DeviceIdentification,
    e: EepromProgrammingStatus,
    c: InputClockSelection,
    y: Y1ClockSource,
    m: SerialInterfacePinMode,
)
    ensures
        DeviceIdentification::spec_from_bits(d.spec_code()) == d,
        EepromProgrammingStatus::spec_from_bits(e.spec_code()) == e,
        InputClockSelection::spec_from_bits(c.spec_code()) == c,
        InputClockSelection::spec_from_bits(0b11) == InputClockSelection::Xtal,
        Y1ClockSource::spec_from_bits(y.spec_code()) == y,
        SerialInterfacePinMode::spec_from_bits(m.spec_code()) == m,
{
}

/// Offset 0x0: device identification, revision and vendor id (read-only).
#[derive(Debug, Clone, Copy, PartialEq, Eq, Structural)]
pub struct GenericConfigurationRegister0(pub u8);

impl GenericConfigurationRegister0 {
    /// E_EL flag, bit 7.
    pub fn e_el(&self) -> (r: bool)
        ensures
            r == (spec_get_bits8(self.0, 7, 1) == 1),
    {
        get_bits8(self.0, 7, 1) == 1
    }

    /// Revision identification, bits 6–4.
    pub fn rid(&self) -> (r: u8)
        ensures
            r == spec_get_bits8(self.0, 4, 3),
            r < 8,
    {
        proof {
            lemma_mask8_values();
        }
        get_bits8(self.0, 4, 3)
    }

    /// Vendor identification, bits 3–0.
    pub fn vid(&self) -> (r: u8)
        ensures
            r == spec_get_bits8(self.0, 0, 4),
            r < 16,
    {
        proof {
            lemma_mask8_values();
        }
        get_bits8(self.0, 0, 4)
    }

    /// Which family member this is, from the E_EL flag.
    pub fn device_identification(&self) -> (r: DeviceIdentification)
        ensures
            r == DeviceIdentification::spec_from_bits(spec_get_bits8(self.0, 7, 1)),
    {
        proof {
            lemma_mask8_values();
        }
        DeviceIdentification::from_bits(get_bits8(self.0, 7, 1))
    }
}

/// Offset 0x1: EEPROM status and lock, power down, input clock
/// selection and the target bus address.
#[derive(Debug, Clone, Copy, PartialEq, Eq, Structural)]
pub struct GenericConfigurationRegister1(pub u8);

impl GenericConfigurationRegister1 {
    /// EEPIP flag, bit 6 (read-only).
    pub fn eepip(&self) -> (r: bool)
        ensures
            r == (spec_get_bits8(self.0, 6, 1) == 1),
    {
        get_bits8(self.0, 6, 1) == 1
    }

    /// EELOCK flag, bit 5.
    pub fn eelock(&self) -> (r: bool)
        ensures
            r == (spec_get_bits8(self.0, 5, 1) == 1),
    {
        get_bits8(self.0, 5, 1) == 1
    }

    pub fn set_eelock(&mut self, locked: bool)
        ensures
            final(self).0 == spec_set_bits8(
                old(self).0,
                5,
                1,
                if locked {
                    1
                } else {
                    0
                },
            ),
    {
        self.0 = set_bits8(
            self.0,
            5,
            1,
            if locked {
                1
            } else {
                0
            },
        );
    }

    /// PWDN flag, bit 4.
    pub fn pwdn(&self) -> (r: bool)
        ensures
            r == (spec_get_bits8(self.0, 4, 1) == 1),
    {
        get_bits8(self.0, 4, 1) == 1
    }

    pub fn set_pwdn(&mut self, value: bool)
        ensures
            final(self).0 == spec_set_bits8(
                old(self).0,
                4,
                1,
                if value {
                    1
                } else {
                    0
                },
            ),
    {
        self.0 = set_bits8(
            self.0,
            4,
            1,
            if value {
                1
            } else {
                0
            },
        );
    }

    /// Raw INCLK selector, bits 3–2.
    pub fn inclk(&self) -> (r: u8)
        ensures
            r == spec_get_bits8(self.0, 2, 2),
            r < 4,
    {
        proof {
            lemma_mask8_values();
        }
        get_bits8(self.0, 2, 2)
    }

    pub fn set_inclk(&mut self, value: u8)
        ensures
            final(self).0 == spec_set_bits8(old(self).0, 2, 2, value),
    {
        self.0 = set_bits8(self.0, 2, 2, value);
    }

    /// Target bus address, bits 1–0.
    pub fn target_adr(&self) -> (r: u8)
        ensures
            r == spec_get_bits8(self.0, 0, 2),
            r < 4,
    {
        proof {
            lemma_mask8_values();
        }
        get_bits8(self.0, 0, 2)
    }

    pub fn set_target_adr(&mut self, value: u8)
        ensures
            final(self).0 == spec_set_bits8(old(self).0, 0, 2, value),
    {
        self.0 = set_bits8(self.0, 0, 2, value);
    }

    /// Whether an EEPROM programming cycle is still running, from EEPIP.
    pub fn eeprom_programming_status(&self) -> (r: EepromProgrammingStatus)
        ensures
            r == EepromProgrammingStatus::spec_from_bits(spec_get_bits8(self.0, 6, 1)),
    {
        proof {
            lemma_mask8_values();
        }
        EepromProgrammingStatus::from_bits(get_bits8(self.0, 6, 1))
    }

    /// The selected input clock; the reserved selector pattern decodes
    /// to the fallback `Xtal`.
    pub fn input_clock_selection(&self) -> (r: InputClockSelection)
        ensures
            r == InputClockSelection::spec_from_bits(spec_get_bits8(self.0, 2, 2)),
    {
        InputClockSelection::from_bits(self.inclk())
    }

    pub fn set_input_clock_selection(&mut self, selection: InputClockSelection)
        ensures
            final(self).0 == spec_set_bits8(old(self).0, 2, 2, selection.spec_code()),
    {
        let code = selection.code();
        self.set_inclk(code);
    }
}

/// Offset 0x2: Y1 clock source, serial-pin mode, the two Y1 state
/// definitions, and the top two bits of the 10-bit Y1 divider.
#[derive(Debug, Clone, Copy, PartialEq, Eq, Structural)]
pub struct GenericConfigurationRegister2(pub u8);

impl GenericConfigurationRegister2 {
    /// M1 flag, bit 7.
    pub fn m1(&self) -> (r: bool)
        ensures
            r == (spec_get_bits8(self.0, 7, 1) == 1),
    {
        get_bits8(self.0, 7, 1) == 1
    }

    pub fn set_m1(&mut self, value: bool)
        ensures
            final(self).0 == spec_set_bits8(
                old(self).0,
                7,
                1,
                if value {
                    1
                } else {
                    0
                },
            ),
    {
        self.0 = set_bits8(
            self.0,
            7,
            1,
            if value {
                1
            } else {
                0
            },
        );
    }

    /// SPICON flag, bit 6.
    pub fn spicon(&self) -> (r: bool)
        ensures
            r == (spec_get_bits8(self.0, 6, 1) == 1),
    {
        get_bits8(self.0, 6, 1) == 1
    }

    pub fn set_spicon(&mut self, value: bool)
        ensures
            final(self).0 == spec_set_bits8(
                old(self).0,
                6,
                1,
                if value {
                    1
                } else {
                    0
                },
            ),
    {
        self.0 = set_bits8(
            self.0,
            6,
            1,
            if value {
                1
            } else {
                0
            },
        );
    }

    /// Raw Y1 state-1 definition, bits 5–4.
    pub fn y1_st1(&self) -> (r: u8)
        ensures
            r == spec_get_bits8(self.0, 4, 2),
            r < 4,
    {
        proof {
            lemma_mask8_values();
        }
        get_bits8(self.0, 4, 2)
    }

    pub fn set_y1_st1(&mut self, value: u8)
        ensures
            final(self).0 == spec_set_bits8(old(self).0, 4, 2, value),
    {
        self.0 = set_bits8(self.0, 4, 2, value);
    }

    /// Raw Y1 state-0 definition, bits 3–2.
    pub fn y1_st0(&self) -> (r: u8)
        ensures
            r == spec_get_bits8(self.0, 2, 2),
            r < 4,
    {
        proof {
            lemma_mask8_values();
        }
        get_bits8(self.0, 2, 2)
    }

    pub fn set_y1_st0(&mut self, value: u8)
        ensures
            final(self).0 == spec_set_bits8(old(self).0, 2, 2, value),
    {
        self.0 = set_bits8(self.0, 2, 2, value);
    }

    /// Bits 9–8 of the 10-bit Y1 divider, stored in bits 1–0.
    pub fn pdiv1_9_8(&self) -> (r: u8)
        ensures
            r == spec_get_bits8(self.0, 0, 2),
            r < 4,
    {
        proof {
            lemma_mask8_values();
        }
        get_bits8(self.0, 0, 2)
    }

    pub fn set_pdiv1_9_8(&mut self, value: u8)
        ensures
            final(self).0 == spec_set_bits8(old(self).0, 0, 2, value),
    {
        self.0 = set_bits8(self.0, 0, 2, value);
    }

    pub fn y1_clock_source(&self) -> (r: Y1ClockSource)
        ensures
            r == Y1ClockSource::spec_from_bits(spec_get_bits8(self.0, 7, 1)),
    {
        proof {
            lemma_mask8_values();
        }
        Y1ClockSource::from_bits(get_bits8(self.0, 7, 1))
    }

    pub fn set_y1_clock_source(&mut self, source: Y1ClockSource)
        ensures
            final(self).0 == spec_set_bits8(old(self).0, 7, 1, source.spec_code()),
    {
        let code = source.code();
        self.0 = set_bits8(self.0, 7, 1, code);
    }

    pub fn serial_interface_pin_mode(&self) -> (r: SerialInterfacePinMode)
        ensures
            r == SerialInterfacePinMode::spec_from_bits(spec_get_bits8(self.0, 6, 1)),
    {
        proof {
            lemma_mask8_values();
        }
        SerialInterfacePinMode::from_bits(get_bits8(self.0, 6, 1))
    }

    pub fn set_serial_interface_pin_mode(&mut self, mode: SerialInterfacePinMode)
        ensures
            final(self).0 == spec_set_bits8(old(self).0, 6, 1, mode.spec_code()),
    {
        let code = mode.code();
        self.0 = set_bits8(self.0, 6, 1, code);
    }

    pub fn y1_state1_definition(&self) -> (r: OutputStateDefinition)
        ensures
            r == OutputStateDefinition::spec_from_bits(spec_get_bits8(self.0, 4, 2)),
    {
        OutputStateDefinition::from_bits(self.y1_st1())
    }

    pub fn set_y1_state1_definition(&mut self, state: OutputStateDefinition)
        ensures
            final(self).0 == spec_set_bits8(old(self).0, 4, 2, state.spec_code()),
    {
        let code = state.code();
        self.set_y1_st1(code);
    }

    pub fn y1_state0_definition(&self) -> (r: OutputStateDefinition)
        ensures
            r == OutputStateDefinition::spec_from_bits(spec_get_bits8(self.0, 2, 2)),
    {
        OutputStateDefinition::from_bits(self.y1_st0())
    }

    pub fn set_y1_state0_definition(&mut self, state: OutputStateDefinition)
        ensures
            final(self).0 == spec_set_bits8(old(self).0, 2, 2, state.spec_code()),
    {
        let code = state.code();
        self.set_y1_st0(code);
    }
}

/// Offset 0x3: the low eight bits of the 10-bit Y1 divider.
#[derive(Debug, Clone, Copy, PartialEq, Eq, Structural)]
pub struct GenericConfigurationRegister3(pub u8);

impl GenericConfigurationRegister3 {
    /// Bits 7–0 of the 10-bit Y1 divider.
    pub fn pdiv1_7_0(&self) -> (r: u8)
        ensures
            r == self.0,
    {
        self.0
    }

    pub fn set_pdiv1_7_0(&mut self, value: u8)
        ensures
            final(self).0 == value,
    {
        self.0 = value;
    }

    /// The full 10-bit Y1 divider: the two high bits live in the
    /// previous register, the low eight bits here.
    pub fn pdiv1_full_value(&self, reg2: &GenericConfigurationRegister2) -> (r: u16)
        ensures
            r == ((spec_get_bits8(reg2.0, 0, 2) as u16) << 8) | (self.0 as u16),
            r < 1024,
    {
        let upper: u16 = reg2.pdiv1_9_8() as u16;
        let lower: u16 = self.0 as u16;
        proof {
            assert(upper < 4 && lower < 256 ==> ((upper << 8) | lower) < 1024) by (bit_vector);
        }
        (upper << 8) | lower
    }
}

/// Offset 0x4: per-control-input Y1 state selection, one bit per index.
#[derive(Debug, Clone, Copy, PartialEq, Eq, Structural)]
pub struct GenericConfigurationRegister4(pub u8);

impl GenericConfigurationRegister4 {
    /// Which of the two Y1 state definitions control input `index`
    /// selects; bit `index` of the register.
    pub fn y1_state_selection(&self, index: u8) -> (r: OutputStateSelection)
        requires
            index < 8,
        ensures
            r == OutputStateSelection::spec_from_bits(spec_get_bits8(self.0, index, 1)),
    {
        proof {
            lemma_mask8_values();
        }
        OutputStateSelection::from_bits(get_bits8(self.0, index, 1))
    }

    pub fn set_y1_state_selection(&mut self, index: u8, state: OutputStateSelection)
        requires
            index < 8,
        ensures
            final(self).0 == spec_set_bits8(old(self).0, index, 1, state.spec_code()),
    {
        let code = state.code();
        self.0 = set_bits8(self.0, index, 1, code);
    }
}

/// The crystal load capacitance meaningfully spans 0–20 pF: raw codes
/// and requested values of 20 and above all stand for 20 pF.
pub open spec fn spec_clamp_capacitance(pf: u8) -> u8 {
    if pf < 20 {
        pf
    } else {
        20
    }
}

/// Offset 0x5: crystal load-capacitance selection.
#[derive(Debug, Clone, Copy, PartialEq, Eq, Structural)]
pub struct GenericConfigurationRegister5(pub u8);

impl GenericConfigurationRegister5 {
    /// Raw XCSEL field, bits 7–3.
    pub fn xcsel(&self) -> (r: u8)
        ensures
            r == spec_get_bits8(self.0, 3, 5),
            r < 32,
    {
        proof {
            lemma_mask8_values();
        }
        get_bits8(self.0, 3, 5)
    }

    pub fn set_xcsel(&mut self, value: u8)
        ensures
            final(self).0 == spec_set_bits8(old(self).0, 3, 5, value),
    {
        self.0 = set_bits8(self.0, 3, 5, value);
    }

    /// Reserved bits 2–0 (read-only).
    pub fn reserved(&self) -> (r: u8)
        ensures
            r == spec_get_bits8(self.0, 0, 3),
            r < 8,
    {
        proof {
            lemma_mask8_values();
        }
        get_bits8(self.0, 0, 3)
    }

    /// The crystal load capacitance in pF, saturated at 20: raw codes of
    /// 20 and above all report 20.
    pub fn crystal_load_capacitance_pf(&self) -> (r: u8)
        ensures
            r == spec_clamp_capacitance(spec_get_bits8(self.0, 3, 5)),
            r <= 20,
    {
        let raw = self.xcsel();
        if raw < 20 {
            raw
        } else {
            20
        }
    }

    /// Selects a crystal load capacitance in pF, saturating values of 20
    /// and above at 20 (never wrapping, never rejecting).
    pub fn set_crystal_load_capacitance_pf(&mut self, pf: u8)
        ensures
            final(self).0 == spec_set_bits8(old(self).0, 3, 5, spec_clamp_capacitance(pf)),
    {
        let value = if pf < 20 {
            pf
        } else {
            20
        };
        self.set_xcsel(value);
    }
}

/// Writing a capacitance and reading it back yields the requested value
/// saturated at 20 pF: the getter's and setter's clamps agree.
pub proof fn lemma_capacitance_clamp_symmetric(b: u8, pf: u8)
    ensures
        spec_clamp_capacitance(
            spec_get_bits8(spec_set_bits8(b, 3, 5, spec_clamp_capacitance(pf)), 3, 5),
        ) == spec_clamp_capacitance(pf),
{
    lemma_mask8_values();
    lemma_get_set_same8(b, 3, 5, spec_clamp_capacitance(pf));
}

/// Offset 0x6: block transfer byte count and the EEPROM write trigger.
#[derive(Debug, Clone, Copy, PartialEq, Eq, Structural)]
pub struct GenericConfigurationRegister6(pub u8);

impl GenericConfigurationRegister6 {
    /// Block byte count, bits 7–1.
    pub fn bcount(&self) -> (r: u8)
        ensures
            r == spec_get_bits8(self.0, 1, 7),
            r < 128,
    {
        proof {
            lemma_mask8_values();
        }
        get_bits8(self.0, 1, 7)
    }

    pub fn set_bcount(&mut self, value: u8)
        ensures
            final(self).0 == spec_set_bits8(old(self).0, 1, 7, value),
    {
        self.0 = set_bits8(self.0, 1, 7, value);
    }

    /// EEWRITE trigger flag, bit 0.
    pub fn eewrite(&self) -> (r: bool)
        ensures
            r == (spec_get_bits8(self.0, 0, 1) == 1),
    {
        get_bits8(self.0, 0, 1) == 1
    }

    pub fn set_eewrite(&mut self, value: bool)
        ensures
            final(self).0 == spec_set_bits8(
                old(self).0,
                0,
                1,
                if value {
                    1
                } else {
                    0
                },
            ),
    {
        self.0 = set_bits8(
            self.0,
            0,
            1,
            if value {
                1
            } else {
                0
            },
        );
    }
}

} // verus!
