//! PLL1-configuration register bank (bank base 0x10, offsets 0x0–0xF):
//! spread-spectrum selectors, frequency selectors, multiplexers, the
//! Y2/Y3 output path, the Y2/Y3 dividers and the two packed 32-bit PLL
//! coefficient words.

use crate::bits::{
    get_bits32, get_bits8, lemma_get_set_same32, lemma_get_set_trunc32, lemma_mask32_values,
    lemma_mask8_values, lemma_set_preserves_disjoint32, set_bits32, set_bits8, spec_get_bits32,
    spec_get_bits8, spec_mask32, spec_set_bits32, spec_set_bits8,
};
use crate::registers::{OutputStateDefinition, OutputStateSelection};
use vstd::prelude::*;

verus! {

/// Spread-spectrum modulation amount when the PLL runs in down mode.
#[derive(Debug, Clone, Copy, PartialEq, Eq, PartialOrd, Ord, Structural)]
pub enum SscModulationAmountDown {
    Off,
    Minus025Percent,
    Minus05Percent,
    Minus075Percent,
    Minus1Percent,
    Minus125Percent,
    Minus15Percent,
    Minus2Percent,
}

/// Spread-spectrum modulation amount when the PLL runs in center mode.
#[derive(Debug, Clone, Copy, PartialEq, Eq, PartialOrd, Ord, Structural)]
pub enum SscModulationAmountCenter {
    Off,
    PlusMinus025Percent,
    PlusMinus05Percent,
    PlusMinus075Percent,
    PlusMinus1Percent,
    PlusMinus125Percent,
    PlusMinus15Percent,
    PlusMinus2Percent,
}

/// Frequency selection for PLL1.
#[derive(Debug, Clone, Copy, PartialEq, Eq, PartialOrd, Ord, Structural)]
pub enum Fs1Selection {
    Fvcxo0,
    Fvcxo1,
}

/// Whether PLL1 feeds the output path or is bypassed.
#[derive(Debug, Clone, Copy, PartialEq, Eq, PartialOrd, Ord, Structural)]
pub enum Pll1Multiplexer {
    Pll1,
    Pll1Bypass,
}

/// Divider feeding the Y2 output.
#[derive(Debug, Clone, Copy, PartialEq, Eq, PartialOrd, Ord, Structural)]
pub enum OutputY2Multiplexer {
    Pdiv1,
    Pdiv2,
}

/// Divider feeding the Y3 output. The fourth 2-bit code is reserved by
/// the hardware and decodes to the `Reserved` value.
#[derive(Debug, Clone, Copy, PartialEq, Eq, PartialOrd, Ord, Structural)]
pub enum OutputY3Multiplexer {
    Pdiv1,
    Pdiv2,
    Pdiv3,
    Reserved,
}

/// Which of the two state definitions the Y2/Y3 outputs follow.
#[derive(Debug, Clone, Copy, PartialEq, Eq, PartialOrd, Ord, Structural)]
pub enum Y2Y3State {
    State0,
    State1,
}

/// Spread-spectrum mode of PLL1: down-spread or center-spread.
#[derive(Debug, Clone, Copy, PartialEq, Eq, PartialOrd, Ord, Structural)]
pub enum SscDownCenterSelection {
    Down,
    Center,
}

/// VCO frequency-range selector of a PLL coefficient word.
#[derive(Debug, Clone, Copy, PartialEq, Eq, PartialOrd, Ord, Structural)]
pub enum VcoRangeSelection {
    LessThan125MHz,
    From125To150MHz,
    From150To175MHz,
    GreaterOrEqual175MHz,
}

impl SscModulationAmountDown {
    pub open spec fn spec_code(self) -> u8 {
        match self {
            SscModulationAmountDown::Off => 0b000,
            SscModulationAmountDown::Minus025Percent => 0b001,
            SscModulationAmountDown::Minus05Percent => 0b010,
            SscModulationAmountDown::Minus075Percent => 0b011,
            SscModulationAmountDown::Minus1Percent => 0b100,
            SscModulationAmountDown::Minus125Percent => 0b101,
            SscModulationAmountDown::Minus15Percent => 0b110,
            SscModulationAmountDown::Minus2Percent => 0b111,
        }
    }

    /// Total decoding of the 3-bit modulation code.
    pub open spec fn spec_from_bits(bits: u8) -> Self {
        if bits == 0b000 {
            SscModulationAmountDown::Off
        } else if bits == 0b001 {
            SscModulationAmountDown::Minus025Percent
        } else if bits == 0b010 {
            SscModulationAmountDown::Minus05Percent
        } else if bits == 0b011 {
            SscModulationAmountDown::Minus075Percent
        } else if bits == 0b100 {
            SscModulationAmountDown::Minus1Percent
        } else if bits == 0b101 {
            SscModulationAmountDown::Minus125Percent
        } else if bits == 0b110 {
            SscModulationAmountDown::Minus15Percent
        } else {
            SscModulationAmountDown::Minus2Percent
        }
    }

    pub fn code(self) -> (r: u8)
        ensures
            r == self.spec_code(),
            r < 8,
    {
        match self {
            SscModulationAmountDown::Off => 0b000,
            SscModulationAmountDown::Minus025Percent => 0b001,
            SscModulationAmountDown::Minus05Percent => 0b010,
            SscModulationAmountDown::Minus075Percent => 0b011,
            SscModulationAmountDown::Minus1Percent => 0b100,
            SscModulationAmountDown::Minus125Percent => 0b101,
            SscModulationAmountDown::Minus15Percent => 0b110,
            SscModulationAmountDown::Minus2Percent => 0b111,
        }
    }

    pub fn from_bits(bits: u8) -> (r: Self)
        requires
            bits < 8,
        ensures
            r == Self::spec_from_bits(bits),
    {
        if bits == 0b000 {
            SscModulationAmountDown::Off
        } else if bits == 0b001 {
            SscModulationAmountDown::Minus025Percent
        } else if bits == 0b010 {
            SscModulationAmountDown::Minus05Percent
        } else if bits == 0b011 {
            SscModulationAmountDown::Minus075Percent
        } else if bits == 0b100 {
            SscModulationAmountDown::Minus1Percent
        } else if bits == 0b101 {
            SscModulationAmountDown::Minus125Percent
        } else if bits == 0b110 {
            SscModulationAmountDown::Minus15Percent
        } else {
            SscModulationAmountDown::Minus2Percent
        }
    }
}

impl SscModulationAmountCenter {
    pub open spec fn spec_code(self) -> u8 {
        match self {
            SscModulationAmountCenter::Off => 0b000,
            SscModulationAmountCenter::PlusMinus025Percent => 0b001,
            SscModulationAmountCenter::PlusMinus05Percent => 0b010,
            SscModulationAmountCenter::PlusMinus075Percent => 0b011,
            SscModulationAmountCenter::PlusMinus1Percent => 0b100,
            SscModulationAmountCenter::PlusMinus125Percent => 0b101,
            SscModulationAmountCenter::PlusMinus15Percent => 0b110,
            SscModulationAmountCenter::PlusMinus2Percent => 0b111,
        }
    }

    /// Total decoding of the 3-bit modulation code.
    pub open spec fn spec_from_bits(bits: u8) -> Self {
        if bits == 0b000 {
            SscModulationAmountCenter::Off
        } else if bits == 0b001 {
            SscModulationAmountCenter::PlusMinus025Percent
        } else if bits == 0b010 {
            SscModulationAmountCenter::PlusMinus05Percent
        } else if bits == 0b011 {
            SscModulationAmountCenter::PlusMinus075Percent
        } else if bits == 0b100 {
            SscModulationAmountCenter::PlusMinus1Percent
        } else if bits == 0b101 {
            SscModulationAmountCenter::PlusMinus125Percent
        } else if bits == 0b110 {
            SscModulationAmountCenter::PlusMinus15Percent
        } else {
            SscModulationAmountCenter::PlusMinus2Percent
        }
    }

    pub fn code(self) -> (r: u8)
        ensures
            r == self.spec_code(),
            r < 8,
    {
        match self {
            SscModulationAmountCenter::Off => 0b000,
            SscModulationAmountCenter::PlusMinus025Percent => 0b001,
            SscModulationAmountCenter::PlusMinus05Percent => 0b010,
            SscModulationAmountCenter::PlusMinus075Percent => 0b011,
            SscModulationAmountCenter::PlusMinus1Percent => 0b100,
            SscModulationAmountCenter::PlusMinus125Percent => 0b101,
            SscModulationAmountCenter::PlusMinus15Percent => 0b110,
            SscModulationAmountCenter::PlusMinus2Percent => 0b111,
        }
    }

    pub fn from_bits(bits: u8) -> (r: Self)
        requires
            bits < 8,
        ensures
            r == Self::spec_from_bits(bits),
    {
        if bits == 0b000 {
            SscModulationAmountCenter::Off
        } else if bits == 0b001 {
            SscModulationAmountCenter::PlusMinus025Percent
        } else if bits == 0b010 {
            SscModulationAmountCenter::PlusMinus05Percent
        } else if bits == 0b011 {
            SscModulationAmountCenter::PlusMinus075Percent
        } else if bits == 0b100 {
            SscModulationAmountCenter::PlusMinus1Percent
        } else if bits == 0b101 {
            SscModulationAmountCenter::PlusMinus125Percent
        } else if bits == 0b110 {
            SscModulationAmountCenter::PlusMinus15Percent
        } else {
            SscModulationAmountCenter::PlusMinus2Percent
        }
    }
}

impl Fs1Selection {
    pub open spec fn spec_code(self) -> u8 {
        match self {
            Fs1Selection::Fvcxo0 => 0,
            Fs1Selection::Fvcxo1 => 1,
        }
    }

    pub open spec fn spec_from_bits(bits: u8) -> Self {
        if bits == 0 {
            Fs1Selection::Fvcxo0
        } else {
            Fs1Selection::Fvcxo1
        }
    }

    pub fn code(self) -> (r: u8)
        ensures
            r == self.spec_code(),
            r < 2,
    {
        match self {
            Fs1Selection::Fvcxo0 => 0,
            Fs1Selection::Fvcxo1 => 1,
        }
    }

    pub fn from_bits(bits: u8) -> (r: Self)
        requires
            bits < 2,
        ensures
            r == Self::spec_from_bits(bits),
    {
        if bits == 0 {
            Fs1Selection::Fvcxo0
        } else {
            Fs1Selection::Fvcxo1
        }
    }
}

impl Pll1Multiplexer {
    pub open spec fn spec_code(self) -> u8 {
        match self {
            Pll1Multiplexer::Pll1 => 0,
            Pll1Multiplexer::Pll1Bypass => 1,
        }
    }

    pub open spec fn spec_from_bits(bits: u8) -> Self {
        if bits == 0 {
            Pll1Multiplexer::Pll1
        } else {
            Pll1Multiplexer::Pll1Bypass
        }
    }

    pub fn code(self) -> (r: u8)
        ensures
            r == self.spec_code(),
            r < 2,
    {
        match self {
            Pll1Multiplexer::Pll1 => 0,
            Pll1Multiplexer::Pll1Bypass => 1,
        }
    }

    pub fn from_bits(bits: u8) -> (r: Self)
        requires
            bits < 2,
        ensures
            r == Self::spec_from_bits(bits),
    {
        if bits == 0 {
            Pll1Multiplexer::Pll1
        } else {
            Pll1Multiplexer::Pll1Bypass
        }
    }
}

impl OutputY2Multiplexer {
    pub open spec fn spec_code(self) -> u8 {
        match self {
            OutputY2Multiplexer::Pdiv1 => 0,
            OutputY2Multiplexer::Pdiv2 => 1,
        }
    }

    pub open spec fn spec_from_bits(bits: u8) -> Self {
        if bits == 0 {
            OutputY2Multiplexer::Pdiv1
        } else {
            OutputY2Multiplexer::Pdiv2
        }
    }

    pub fn code(self) -> (r: u8)
        ensures
            r == self.spec_code(),
            r < 2,
    {
        match self {
            OutputY2Multiplexer::Pdiv1 => 0,
            OutputY2Multiplexer::Pdiv2 => 1,
        }
    }

    pub fn from_bits(bits: u8) -> (r: Self)
        requires
            bits < 2,
        ensures
            r == Self::spec_from_bits(bits),
    {
        if bits == 0 {
            OutputY2Multiplexer::Pdiv1
        } else {
            OutputY2Multiplexer::Pdiv2
        }
    }
}

impl OutputY3Multiplexer {
    pub open spec fn spec_code(self) -> u8 {
        match self {
            OutputY3Multiplexer::Pdiv1 => 0b00,
            OutputY3Multiplexer::Pdiv2 => 0b01,
            OutputY3Multiplexer::Pdiv3 => 0b10,
            OutputY3Multiplexer::Reserved => 0b11,
        }
    }

    /// Total decoding of the 2-bit selector; the reserved pattern is a
    /// first-class value, not an error.
    pub open spec fn spec_from_bits(bits: u8) -> Self {
        if bits == 0b00 {
            OutputY3Multiplexer::Pdiv1
        } else if bits == 0b01 {
            OutputY3Multiplexer::Pdiv2
        } else if bits == 0b10 {
            OutputY3Multiplexer::Pdiv3
        } else {
            OutputY3Multiplexer::Reserved
        }
    }

    pub fn code(self) -> (r: u8)
        ensures
            r == self.spec_code(),
            r < 4,
    {
        match self {
            OutputY3Multiplexer::Pdiv1 => 0b00,
            OutputY3Multiplexer::Pdiv2 => 0b01,
            OutputY3Multiplexer::Pdiv3 => 0b10,
            OutputY3Multiplexer::Reserved => 0b11,
        }
    }

    pub fn from_bits(bits: u8) -> (r: Self)
        requires
            bits < 4,
        ensures
            r == Self::spec_from_bits(bits),
    {
        if bits == 0b00 {
            OutputY3Multiplexer::Pdiv1
        } else if bits == 0b01 {
            OutputY3Multiplexer::Pdiv2
        } else if bits == 0b10 {
            OutputY3Multiplexer::Pdiv3
        } else {
            OutputY3Multiplexer::Reserved
        }
    }
}

impl Y2Y3State {
    pub open spec fn spec_code(self) -> u8 {
        match self {
            Y2Y3State::State0 => 0,
            Y2Y3State::State1 => 1,
        }
    }

    pub open spec fn spec_from_bits(bits: u8) -> Self {
        if bits == 0 {
            Y2Y3State::State0
        } else {
            Y2Y3State::State1
        }
    }

    pub fn code(self) -> (r: u8)
        ensures
            r == self.spec_code(),
            r < 2,
    {
        match self {
            Y2Y3State::State0 => 0,
            Y2Y3State::State1 => 1,
        }
    }

    pub fn from_bits(bits: u8) -> (r: Self)
        requires
            bits < 2,
        ensures
            r == Self::spec_from_bits(bits),
    {
        if bits == 0 {
            Y2Y3State::State0
        } else {
            Y2Y3State::State1
        }
    }
}

impl SscDownCenterSelection {
    pub open spec fn spec_code(self) -> u8 {
        match self {
            SscDownCenterSelection::Down => 0,
            SscDownCenterSelection::Center => 1,
        }
    }

    pub open spec fn spec_from_bits(bits: u8) -> Self {
        if bits == 0 {
            SscDownCenterSelection::Down
        } else {
            SscDownCenterSelection::Center
        }
    }

    pub fn code(self) -> (r: u8)
        ensures
            r == self.spec_code(),
            r < 2,
    {
        match self {
            SscDownCenterSelection::Down => 0,
            SscDownCenterSelection::Center => 1,
        }
    }

    pub fn from_bits(bits: u8) -> (r: Self)
        requires
            bits < 2,
        ensures
            r == Self::spec_from_bits(bits),
    {
        if bits == 0 {
            SscDownCenterSelection::Down
        } else {
            SscDownCenterSelection::Center
        }
    }
}

impl VcoRangeSelection {
    pub open spec fn spec_code(self) -> u8 {
        match self {
            VcoRangeSelection::LessThan125MHz => 0b00,
            VcoRangeSelection::From125To150MHz => 0b01,
            VcoRangeSelection::From150To175MHz => 0b10,
            VcoRangeSelection::GreaterOrEqual175MHz => 0b11,
        }
    }

    /// Total decoding of the 2-bit range selector.
    pub open spec fn spec_from_bits(bits: u8) -> Self {
        if bits == 0b00 {
            VcoRangeSelection::LessThan125MHz
        } else if bits == 0b01 {
            VcoRangeSelection::From125To150MHz
        } else if bits == 0b10 {
            VcoRangeSelection::From150To175MHz
        } else {
            VcoRangeSelection::GreaterOrEqual175MHz
        }
    }

    pub fn code(self) -> (r: u8)
        ensures
            r == self.spec_code(),
            r < 4,
    {
        match self {
            VcoRangeSelection::LessThan125MHz => 0b00,
            VcoRangeSelection::From125To150MHz => 0b01,
            VcoRangeSelection::From150To175MHz => 0b10,
            VcoRangeSelection::GreaterOrEqual175MHz => 0b11,
        }
    }

    pub fn from_bits(bits: u8) -> (r: Self)
        requires
            bits < 4,
        ensures
            r == Self::spec_from_bits(bits),
    {
        if bits == 0b00 {
            VcoRangeSelection::LessThan125MHz
        } else if bits == 0b01 {
            VcoRangeSelection::From125To150MHz
        } else if bits == 0b10 {
            VcoRangeSelection::From150To175MHz
        } else {
            VcoRangeSelection::GreaterOrEqual175MHz
        }
    }
}

/// Decoding the code of each semantic value of this bank yields the
/// value again; the reserved Y3-multiplexer pattern decodes to its
/// first-class `Reserved` value.
pub proof fn lemma_pll1_configuration_codes_roundtrip(
    md: SscModulationAmountDown,
    mc: SscModulationAmountCenter,
    f: Fs1Selection,
    p: Pll1Multiplexer,
    y2: OutputY2Multiplexer,
    y3: OutputY3Multiplexer,
    s: Y2Y3State,
    dc: SscDownCenterSelection,
    v: VcoRangeSelection,
)
    ensures
        SscModulationAmountDown::spec_from_bits(md.spec_code()) == md,
        SscModulationAmountCenter::spec_from_bits(mc.spec_code()) == mc,
        Fs1Selection::spec_from_bits(f.spec_code()) == f,
        Pll1Multiplexer::spec_from_bits(p.spec_code()) == p,
        OutputY2Multiplexer::spec_from_bits(y2.spec_code()) == y2,
        OutputY3Multiplexer::spec_from_bits(y3.spec_code()) == y3,
        OutputY3Multiplexer::spec_from_bits(0b11) == OutputY3Multiplexer::Reserved,
        Y2Y3State::spec_from_bits(s.spec_code()) == s,
        SscDownCenterSelection::spec_from_bits(dc.spec_code()) == dc,
        VcoRangeSelection::spec_from_bits(v.spec_code()) == v,
{
}

/// Offset 0x0: spread-spectrum selectors for control inputs 7 and 6,
/// and the two high bits of the split selector for control input 5.
#[derive(Debug, Clone, Copy, PartialEq, Eq, Structural)]
pub struct Pll1ConfigurationRegister0(pub u8);

impl Pll1ConfigurationRegister0 {
    /// SSC1_7 selector, bits 7–5.
    pub fn ssc1_7(&self) -> (r: u8)
        ensures
            r == spec_get_bits8(self.0, 5, 3),
            r < 8,
    {
        proof {
            lemma_mask8_values();
        }
        get_bits8(self.0, 5, 3)
    }

    pub fn set_ssc1_7(&mut self, value: u8)
        ensures
            final(self).0 == spec_set_bits8(old(self).0, 5, 3, value),
    {
        self.0 = set_bits8(self.0, 5, 3, value);
    }

    /// SSC1_6 selector, bits 4–2.
    pub fn ssc1_6(&self) -> (r: u8)
        ensures
            r == spec_get_bits8(self.0, 2, 3),
            r < 8,
    {
        proof {
            lemma_mask8_values();
        }
        get_bits8(self.0, 2, 3)
    }

    pub fn set_ssc1_6(&mut self, value: u8)
        ensures
            final(self).0 == spec_set_bits8(old(self).0, 2, 3, value),
    {
        self.0 = set_bits8(self.0, 2, 3, value);
    }

    /// Bits 2–1 of the SSC1_5 selector, stored in bits 1–0; the low bit
    /// lives in the next register.
    pub fn ssc1_5(&self) -> (r: u8)
        ensures
            r == spec_get_bits8(self.0, 0, 2),
            r < 4,
    {
        proof {
            lemma_mask8_values();
        }
        get_bits8(self.0, 0, 2)
    }

    pub fn set_ssc1_5(&mut self, value: u8)
        ensures
            final(self).0 == spec_set_bits8(old(self).0, 0, 2, value),
    {
        self.0 = set_bits8(self.0, 0, 2, value);
    }
}

/// Offset 0x1: the low bit of the split SSC1_5 selector, the selectors
/// for control inputs 4 and 3, and the high bit of the split SSC1_2
/// selector.
#[derive(Debug, Clone, Copy, PartialEq, Eq, Structural)]
pub struct Pll1ConfigurationRegister1(pub u8);

impl Pll1ConfigurationRegister1 {
    /// Bit 0 of the SSC1_5 selector, stored in bit 7.
    pub fn ssc1_5(&self) -> (r: bool)
        ensures
            r == (spec_get_bits8(self.0, 7, 1) == 1),
    {
        get_bits8(self.0, 7, 1) == 1
    }

    pub fn set_ssc1_5(&mut self, value: bool)
        ensures
            final(self).0 == spec_set_bits8(
                old(self).0,
                7,
                1,
                if value {
                    1
                } else {
                    0
                },
            ),
    {
        self.0 = set_bits8(
            self.0,
            7,
            1,
            if value {
                1
            } else {
                0
            },
        );
    }

    /// SSC1_4 selector, bits 6–4.
    pub fn ssc1_4(&self) -> (r: u8)
        ensures
            r == spec_get_bits8(self.0, 4, 3),
            r < 8,
    {
        proof {
            lemma_mask8_values();
        }
        get_bits8(self.0, 4, 3)
    }

    pub fn set_ssc1_4(&mut self, value: u8)
        ensures
            final(self).0 == spec_set_bits8(old(self).0, 4, 3, value),
    {
        self.0 = set_bits8(self.0, 4, 3, value);
    }

    /// SSC1_3 selector, bits 3–1.
    pub fn ssc1_3(&self) -> (r: u8)
        ensures
            r == spec_get_bits8(self.0, 1, 3),
            r < 8,
    {
        proof {
            lemma_mask8_values();
        }
        get_bits8(self.0, 1, 3)
    }

    pub fn set_ssc1_3(&mut self, value: u8)
        ensures
            final(self).0 == spec_set_bits8(old(self).0, 1, 3, value),
    {
        self.0 = set_bits8(self.0, 1, 3, value);
    }

    /// Bit 2 of the SSC1_2 selector, stored in bit 0; the low two bits
    /// live in the next register.
    pub fn ssc1_2(&self) -> (r: bool)
        ensures
            r == (spec_get_bits8(self.0, 0, 1) == 1),
    {
        get_bits8(self.0, 0, 1) == 1
    }

    pub fn set_ssc1_2(&mut self, value: bool)
        ensures
            final(self).0 == spec_set_bits8(
                old(self).0,
                0,
                1,
                if value {
                    1
                } else {
                    0
                },
            ),
    {
        self.0 = set_bits8(
            self.0,
            0,
            1,
            if value {
                1
            } else {
                0
            },
        );
    }
}

/// Offset 0x2: the low two bits of the split SSC1_2 selector and the
/// selectors for control inputs 1 and 0.
#[derive(Debug, Clone, Copy, PartialEq, Eq, Structural)]
pub struct Pll1ConfigurationRegister2(pub u8);

impl Pll1ConfigurationRegister2 {
    /// Bits 1–0 of the SSC1_2 selector, stored in bits 7–6.
    pub fn ssc1_2(&self) -> (r: u8)
        ensures
            r == spec_get_bits8(self.0, 6, 2),
            r < 4,
    {
        proof {
            lemma_mask8_values();
        }
        get_bits8(self.0, 6, 2)
    }

    pub fn set_ssc1_2(&mut self, value: u8)
        ensures
            final(self).0 == spec_set_bits8(old(self).0, 6, 2, value),
    {
        self.0 = set_bits8(self.0, 6, 2, value);
    }

    /// SSC1_1 selector, bits 5–3.
    pub fn ssc1_1(&self) -> (r: u8)
        ensures
            r == spec_get_bits8(self.0, 3, 3),
            r < 8,
    {
        proof {
            lemma_mask8_values();
        }
        get_bits8(self.0, 3, 3)
    }

    pub fn set_ssc1_1(&mut self, value: u8)
        ensures
            final(self).0 == spec_set_bits8(old(self).0, 3, 3, value),
    {
        self.0 = set_bits8(self.0, 3, 3, value);
    }

    /// SSC1_0 selector, bits 2–0.
    pub fn ssc1_0(&self) -> (r: u8)
        ensures
            r == spec_get_bits8(self.0, 0, 3),
            r < 8,
    {
        proof {
            lemma_mask8_values();
        }
        get_bits8(self.0, 0, 3)
    }

    pub fn set_ssc1_0(&mut self, value: u8)
        ensures
            final(self).0 == spec_set_bits8(old(self).0, 0, 3, value),
    {
        self.0 = set_bits8(self.0, 0, 3, value);
    }
}

/// Offset 0x3: per-control-input PLL1 frequency selection, one bit per
/// index.
#[derive(Debug, Clone, Copy, PartialEq, Eq, Structural)]
pub struct Pll1ConfigurationRegister3(pub u8);

impl Pll1ConfigurationRegister3 {
    /// Which frequency control input `index` selects; bit `index` of
    /// the register.
    pub fn fs1_selection(&self, index: u8) -> (r: Fs1Selection)
        requires
            index < 8,
        ensures
            r == Fs1Selection::spec_from_bits(spec_get_bits8(self.0, index, 1)),
    {
        proof {
            lemma_mask8_values();
        }
        Fs1Selection::from_bits(get_bits8(self.0, index, 1))
    }

    pub fn set_fs1_selection(&mut self, index: u8, state: Fs1Selection)
        requires
            index < 8,
        ensures
            final(self).0 == spec_set_bits8(old(self).0, index, 1, state.spec_code()),
    {
        let code = state.code();
        self.0 = set_bits8(self.0, index, 1, code);
    }
}

/// Offset 0x4: the PLL1 bypass multiplexer, the Y2 and Y3 output
/// multiplexers and the two Y2/Y3 state definitions.
#[derive(Debug, Clone, Copy, PartialEq, Eq, Structural)]
pub struct Pll1ConfigurationRegister4(pub u8);

impl Pll1ConfigurationRegister4 {
    /// MUX1 flag, bit 7.
    pub fn mux1(&self) -> (r: bool)
        ensures
            r == (spec_get_bits8(self.0, 7, 1) == 1),
    {
        get_bits8(self.0, 7, 1) == 1
    }

    pub fn set_mux1(&mut self, value: bool)
        ensures
            final(self).0 == spec_set_bits8(
                old(self).0,
                7,
                1,
                if value {
                    1
                } else {
                    0
                },
            ),
    {
        self.0 = set_bits8(
            self.0,
            7,
            1,
            if value {
                1
            } else {
                0
            },
        );
    }

    /// M2 flag, bit 6.
    pub fn m2(&self) -> (r: bool)
        ensures
            r == (spec_get_bits8(self.0, 6, 1) == 1),
    {
        get_bits8(self.0, 6, 1) == 1
    }

    pub fn set_m2(&mut self, value: bool)
        ensures
            final(self).0 == spec_set_bits8(
                old(self).0,
                6,
                1,
                if value {
                    1
                } else {
                    0
                },
            ),
    {
        self.0 = set_bits8(
            self.0,
            6,
            1,
            if value {
                1
            } else {
                0
            },
        );
    }

    /// Raw M3 selector, bits 5–4.
    pub fn m3(&self) -> (r: u8)
        ensures
            r == spec_get_bits8(self.0, 4, 2),
            r < 4,
    {
        proof {
            lemma_mask8_values();
        }
        get_bits8(self.0, 4, 2)
    }

    pub fn set_m3(&mut self, value: u8)
        ensures
            final(self).0 == spec_set_bits8(old(self).0, 4, 2, value),
    {
        self.0 = set_bits8(self.0, 4, 2, value);
    }

    /// Raw Y2/Y3 state-1 definition, bits 3–2.
    pub fn y2y3_st1(&self) -> (r: u8)
        ensures
            r == spec_get_bits8(self.0, 2, 2),
            r < 4,
    {
        proof {
            lemma_mask8_values();
        }
        get_bits8(self.0, 2, 2)
    }

    pub fn set_y2y3_st1(&mut self, value: u8)
        ensures
            final(self).0 == spec_set_bits8(old(self).0, 2, 2, value),
    {
        self.0 = set_bits8(self.0, 2, 2, value);
    }

    /// Raw Y2/Y3 state-0 definition, bits 1–0.
    pub fn y2y3_st0(&self) -> (r: u8)
        ensures
            r == spec_get_bits8(self.0, 0, 2),
            r < 4,
    {
        proof {
            lemma_mask8_values();
        }
        get_bits8(self.0, 0, 2)
    }

    pub fn set_y2y3_st0(&mut self, value: u8)
        ensures
            final(self).0 == spec_set_bits8(old(self).0, 0, 2, value),
    {
        self.0 = set_bits8(self.0, 0, 2, value);
    }

    pub fn pll1_multiplexer(&self) -> (r: Pll1Multiplexer)
        ensures
            r == Pll1Multiplexer::spec_from_bits(spec_get_bits8(self.0, 7, 1)),
    {
        proof {
            lemma_mask8_values();
        }
        Pll1Multiplexer::from_bits(get_bits8(self.0, 7, 1))
    }

    pub fn set_pll1_multiplexer(&mut self, mux: Pll1Multiplexer)
        ensures
            final(self).0 == spec_set_bits8(old(self).0, 7, 1, mux.spec_code()),
    {
        let code = mux.code();
        self.0 = set_bits8(self.0, 7, 1, code);
    }

    pub fn output_y2_multiplexer(&self) -> (r: OutputY2Multiplexer)
        ensures
            r == OutputY2Multiplexer::spec_from_bits(spec_get_bits8(self.0, 6, 1)),
    {
        proof {
            lemma_mask8_values();
        }
        OutputY2Multiplexer::from_bits(get_bits8(self.0, 6, 1))
    }

    pub fn set_output_y2_multiplexer(&mut self, mux: OutputY2Multiplexer)
        ensures
            final(self).0 == spec_set_bits8(old(self).0, 6, 1, mux.spec_code()),
    {
        let code = mux.code();
        self.0 = set_bits8(self.0, 6, 1, code);
    }

    pub fn output_y3_multiplexer(&self) -> (r: OutputY3Multiplexer)
        ensures
            r == OutputY3Multiplexer::spec_from_bits(spec_get_bits8(self.0, 4, 2)),
    {
        OutputY3Multiplexer::from_bits(self.m3())
    }

    pub fn set_output_y3_multiplexer(&mut self, mux: OutputY3Multiplexer)
        ensures
            final(self).0 == spec_set_bits8(old(self).0, 4, 2, mux.spec_code()),
    {
        let code = mux.code();
        self.set_m3(code);
    }

    pub fn y2y3_state1_definition(&self) -> (r: OutputStateDefinition)
        ensures
            r == OutputStateDefinition::spec_from_bits(spec_get_bits8(self.0, 2, 2)),
    {
        OutputStateDefinition::from_bits(self.y2y3_st1())
    }

    pub fn set_y2y3_state1_definition(&mut self, state: OutputStateDefinition)
        ensures
            final(self).0 == spec_set_bits8(old(self).0, 2, 2, state.spec_code()),
    {
        let code = state.code();
        self.set_y2y3_st1(code);
    }

    pub fn y2y3_state0_definition(&self) -> (r: OutputStateDefinition)
        ensures
            r == OutputStateDefinition::spec_from_bits(spec_get_bits8(self.0, 0, 2)),
    {
        OutputStateDefinition::from_bits(self.y2y3_st0())
    }

    pub fn set_y2y3_state0_definition(&mut self, state: OutputStateDefinition)
        ensures
            final(self).0 == spec_set_bits8(old(self).0, 0, 2, state.spec_code()),
    {
        let code = state.code();
        self.set_y2y3_st0(code);
    }
}

/// Offset 0x5: per-control-input Y2/Y3 state selection, one bit per
/// index.
#[derive(Debug, Clone, Copy, PartialEq, Eq, Structural)]
pub struct Pll1ConfigurationRegister5(pub u8);

impl Pll1ConfigurationRegister5 {
    /// Which of the two Y2/Y3 state definitions control input `index`
    /// selects; bit `index` of the register.
    pub fn y2y3_state_selection(&self, index: u8) -> (r: OutputStateSelection)
        requires
            index < 8,
        ensures
            r == OutputStateSelection::spec_from_bits(spec_get_bits8(self.0, index, 1)),
    {
        proof {
            lemma_mask8_values();
        }
        OutputStateSelection::from_bits(get_bits8(self.0, index, 1))
    }

    pub fn set_y2y3_state_selection(&mut self, index: u8, state: OutputStateSelection)
        requires
            index < 8,
        ensures
            final(self).0 == spec_set_bits8(old(self).0, index, 1, state.spec_code()),
    {
        let code = state.code();
        self.0 = set_bits8(self.0, index, 1, code);
    }
}

/// Offset 0x6: spread-spectrum mode and the 7-bit Y2 divider.
#[derive(Debug, Clone, Copy, PartialEq, Eq, Structural)]
pub struct Pll1ConfigurationRegister6(pub u8);

impl Pll1ConfigurationRegister6 {
    /// SSC1DC flag, bit 7.
    pub fn ssc1dc(&self) -> (r: bool)
        ensures
            r == (spec_get_bits8(self.0, 7, 1) == 1),
    {
        get_bits8(self.0, 7, 1) == 1
    }

    pub fn set_ssc1dc(&mut self, value: bool)
        ensures
            final(self).0 == spec_set_bits8(
                old(self).0,
                7,
                1,
                if value {
                    1
                } else {
                    0
                },
            ),
    {
        self.0 = set_bits8(
            self.0,
            7,
            1,
            if value {
                1
            } else {
                0
            },
        );
    }

    /// Y2 output divider, bits 6–0.
    pub fn pdiv2(&self) -> (r: u8)
        ensures
            r == spec_get_bits8(self.0, 0, 7),
            r < 128,
    {
        proof {
            lemma_mask8_values();
        }
        get_bits8(self.0, 0, 7)
    }

    pub fn set_pdiv2(&mut self, value: u8)
        ensures
            final(self).0 == spec_set_bits8(old(self).0, 0, 7, value),
    {
        self.0 = set_bits8(self.0, 0, 7, value);
    }

    pub fn pll1_ssc_down_center_selection(&self) -> (r: SscDownCenterSelection)
        ensures
            r == SscDownCenterSelection::spec_from_bits(spec_get_bits8(self.0, 7, 1)),
    {
        proof {
            lemma_mask8_values();
        }
        SscDownCenterSelection::from_bits(get_bits8(self.0, 7, 1))
    }

    pub fn set_pll1_ssc_down_center_selection(&mut self, selection: SscDownCenterSelection)
        ensures
            final(self).0 == spec_set_bits8(old(self).0, 7, 1, selection.spec_code()),
    {
        let code = selection.code();
        self.0 = set_bits8(self.0, 7, 1, code);
    }
}

/// Offset 0x7: the 7-bit Y3 divider.
#[derive(Debug, Clone, Copy, PartialEq, Eq, Structural)]
pub struct Pll1ConfigurationRegister7(pub u8);

impl Pll1ConfigurationRegister7 {
    /// Reserved bit 7 (read-only).
    pub fn reserved(&self) -> (r: bool)
        ensures
            r == (spec_get_bits8(self.0, 7, 1) == 1),
    {
        get_bits8(self.0, 7, 1) == 1
    }

    /// Y3 output divider, bits 6–0.
    pub fn pdiv3(&self) -> (r: u8)
        ensures
            r == spec_get_bits8(self.0, 0, 7),
            r < 128,
    {
        proof {
            lemma_mask8_values();
        }
        get_bits8(self.0, 0, 7)
    }

    pub fn set_pdiv3(&mut self, value: u8)
        ensures
            final(self).0 == spec_set_bits8(old(self).0, 0, 7, value),
    {
        self.0 = set_bits8(self.0, 0, 7, value);
    }
}

/// Offset 0x8: the high eight bits of the first PLL word's divide ratio N.
#[derive(Debug, Clone, Copy, PartialEq, Eq, Structural)]
pub struct Pll1ConfigurationRegister8(pub u8);

impl Pll1ConfigurationRegister8 {
    /// Field PLL1_0N_11_4, bits 7–0.
    pub fn pll1_0n_11_4(&self) -> (r: u8)
        ensures
            r == self.0,
    {
        self.0
    }

    pub fn set_pll1_0n_11_4(&mut self, value: u8)
        ensures
            final(self).0 == value,
    {
        self.0 = value;
    }
}

/// Offset 0x9: the low four bits of the first PLL word's divide ratio N and the high four bits of its reference ratio R.
#[derive(Debug, Clone, Copy, PartialEq, Eq, Structural)]
pub struct Pll1ConfigurationRegister9(pub u8);

impl Pll1ConfigurationRegister9 {
    /// Field PLL1_0N_3_0, bits 7–4.
    pub fn pll1_0n_3_0(&self) -> (r: u8)
        ensures
            r == spec_get_bits8(self.0, 4, 4),
            r < 16,
    {
        proof {
            lemma_mask8_values();
        }
        get_bits8(self.0, 4, 4)
    }

    pub fn set_pll1_0n_3_0(&mut self, value: u8)
        ensures
            final(self).0 == spec_set_bits8(old(self).0, 4, 4, value),
    {
        self.0 = set_bits8(self.0, 4, 4, value);
    }

    /// Field PLL1_0R_8_5, bits 3–0.
    pub fn pll1_0r_8_5(&self) -> (r: u8)
        ensures
            r == spec_get_bits8(self.0, 0, 4),
            r < 16,
    {
        proof {
            lemma_mask8_values();
        }
        get_bits8(self.0, 0, 4)
    }

    pub fn set_pll1_0r_8_5(&mut self, value: u8)
        ensures
            final(self).0 == spec_set_bits8(old(self).0, 0, 4, value),
    {
        self.0 = set_bits8(self.0, 0, 4, value);
    }
}

/// Offset 0xA: the low five bits of the first PLL word's reference ratio R and the high three bits of its feedback ratio Q.
#[derive(Debug, Clone, Copy, PartialEq, Eq, Structural)]
pub struct Pll1ConfigurationRegisterA(pub u8);

impl Pll1ConfigurationRegisterA {
    /// Field PLL1_0R_4_0, bits 7–3.
    pub fn pll1_0r_4_0(&self) -> (r: u8)
        ensures
            r == spec_get_bits8(self.0, 3, 5),
            r < 32,
    {
        proof {
            lemma_mask8_values();
        }
        get_bits8(self.0, 3, 5)
    }

    pub fn set_pll1_0r_4_0(&mut self, value: u8)
        ensures
            final(self).0 == spec_set_bits8(old(self).0, 3, 5, value),
    {
        self.0 = set_bits8(self.0, 3, 5, value);
    }

    /// Field PLL1_0Q_5_3, bits 2–0.
    pub fn pll1_0q_5_3(&self) -> (r: u8)
        ensures
            r == spec_get_bits8(self.0, 0, 3),
            r < 8,
    {
        proof {
            lemma_mask8_values();
        }
        get_bits8(self.0, 0, 3)
    }

    pub fn set_pll1_0q_5_3(&mut self, value: u8)
        ensures
            final(self).0 == spec_set_bits8(old(self).0, 0, 3, value),
    {
        self.0 = set_bits8(self.0, 0, 3, value);
    }
}

/// Offset 0xB: the low three bits of the first PLL word's feedback ratio Q, its P value and its VCO-range selector.
#[derive(Debug, Clone, Copy, PartialEq, Eq, Structural)]
pub struct Pll1ConfigurationRegisterB(pub u8);

impl Pll1ConfigurationRegisterB {
    /// Field PLL1_0Q_2_0, bits 7–5.
    pub fn pll1_0q_2_0(&self) -> (r: u8)
        ensures
            r == spec_get_bits8(self.0, 5, 3),
            r < 8,
    {
        proof {
            lemma_mask8_values();
        }
        get_bits8(self.0, 5, 3)
    }

    pub fn set_pll1_0q_2_0(&mut self, value: u8)
        ensures
            final(self).0 == spec_set_bits8(old(self).0, 5, 3, value),
    {
        self.0 = set_bits8(self.0, 5, 3, value);
    }

    /// Field PLL1_0P_2_0, bits 4–2.
    pub fn pll1_0p_2_0(&self) -> (r: u8)
        ensures
            r == spec_get_bits8(self.0, 2, 3),
            r < 8,
    {
        proof {
            lemma_mask8_values();
        }
        get_bits8(self.0, 2, 3)
    }

    pub fn set_pll1_0p_2_0(&mut self, value: u8)
        ensures
            final(self).0 == spec_set_bits8(old(self).0, 2, 3, value),
    {
        self.0 = set_bits8(self.0, 2, 3, value);
    }

    /// Field VCO1_0_RANGE, bits 1–0.
    pub fn vco1_0_range(&self) -> (r: u8)
        ensures
            r == spec_get_bits8(self.0, 0, 2),
            r < 4,
    {
        proof {
            lemma_mask8_values();
        }
        get_bits8(self.0, 0, 2)
    }

    pub fn set_vco1_0_range(&mut self, value: u8)
        ensures
            final(self).0 == spec_set_bits8(old(self).0, 0, 2, value),
    {
        self.0 = set_bits8(self.0, 0, 2, value);
    }

    pub fn vco1_0_range_selection(&self) -> (r: VcoRangeSelection)
        ensures
            r == VcoRangeSelection::spec_from_bits(spec_get_bits8(self.0, 0, 2)),
    {
        VcoRangeSelection::from_bits(self.vco1_0_range())
    }

    pub fn set_vco1_0_range_selection(&mut self, range: VcoRangeSelection)
        ensures
            final(self).0 == spec_set_bits8(old(self).0, 0, 2, range.spec_code()),
    {
        let code = range.code();
        self.set_vco1_0_range(code);
    }
}

/// Offset 0xC: the high eight bits of the second PLL word's divide ratio N.
#[derive(Debug, Clone, Copy, PartialEq, Eq, Structural)]
pub struct Pll1ConfigurationRegisterC(pub u8);

impl Pll1ConfigurationRegisterC {
    /// Field PLL1_1N_11_4, bits 7–0.
    pub fn pll1_1n_11_4(&self) -> (r: u8)
        ensures
            r == self.0,
    {
        self.0
    }

    pub fn set_pll1_1n_11_4(&mut self, value: u8)
        ensures
            final(self).0 == value,
    {
        self.0 = value;
    }
}

/// Offset 0xD: the low four bits of the second PLL word's divide ratio N and the high four bits of its reference ratio R.
#[derive(Debug, Clone, Copy, PartialEq, Eq, Structural)]
pub struct Pll1ConfigurationRegisterD(pub u8);

impl Pll1ConfigurationRegisterD {
    /// Field PLL1_1N_3_0, bits 7–4.
    pub fn pll1_1n_3_0(&self) -> (r: u8)
        ensures
            r == spec_get_bits8(self.0, 4, 4),
            r < 16,
    {
        proof {
            lemma_mask8_values();
        }
        get_bits8(self.0, 4, 4)
    }

    pub fn set_pll1_1n_3_0(&mut self, value: u8)
        ensures
            final(self).0 == spec_set_bits8(old(self).0, 4, 4, value),
    {
        self.0 = set_bits8(self.0, 4, 4, value);
    }

    /// Field PLL1_1R_8_5, bits 3–0.
    pub fn pll1_1r_8_5(&self) -> (r: u8)
        ensures
            r == spec_get_bits8(self.0, 0, 4),
            r < 16,
    {
        proof {
            lemma_mask8_values();
        }
        get_bits8(self.0, 0, 4)
    }

    pub fn set_pll1_1r_8_5(&mut self, value: u8)
        ensures
            final(self).0 == spec_set_bits8(old(self).0, 0, 4, value),
    {
        self.0 = set_bits8(self.0, 0, 4, value);
    }
}

/// Offset 0xE: the low five bits of the second PLL word's reference ratio R and the high three bits of its feedback ratio Q.
#[derive(Debug, Clone, Copy, PartialEq, Eq, Structural)]
pub struct Pll1ConfigurationRegisterE(pub u8);

impl Pll1ConfigurationRegisterE {
    /// Field PLL1_1R_4_0, bits 7–3.
    pub fn pll1_1r_4_0(&self) -> (r: u8)
        ensures
            r == spec_get_bits8(self.0, 3, 5),
            r < 32,
    {
        proof {
            lemma_mask8_values();
        }
        get_bits8(self.0, 3, 5)
    }

    pub fn set_pll1_1r_4_0(&mut self, value: u8)
        ensures
            final(self).0 == spec_set_bits8(old(self).0, 3, 5, value),
    {
        self.0 = set_bits8(self.0, 3, 5, value);
    }

    /// Field PLL1_1Q_5_3, bits 2–0.
    pub fn pll1_1q_5_3(&self) -> (r: u8)
        ensures
            r == spec_get_bits8(self.0, 0, 3),
            r < 8,
    {
        proof {
            lemma_mask8_values();
        }
        get_bits8(self.0, 0, 3)
    }

    pub fn set_pll1_1q_5_3(&mut self, value: u8)
        ensures
            final(self).0 == spec_set_bits8(old(self).0, 0, 3, value),
    {
        self.0 = set_bits8(self.0, 0, 3, value);
    }
}

/// Offset 0xF: the low three bits of the second PLL word's feedback ratio Q, its P value and its VCO-range selector.
#[derive(Debug, Clone, Copy, PartialEq, Eq, Structural)]
pub struct Pll1ConfigurationRegisterF(pub u8);

impl Pll1ConfigurationRegisterF {
    /// Field PLL1_1Q_2_0, bits 7–5.
    pub fn pll1_1q_2_0(&self) -> (r: u8)
        ensures
            r == spec_get_bits8(self.0, 5, 3),
            r < 8,
    {
        proof {
            lemma_mask8_values();
        }
        get_bits8(self.0, 5, 3)
    }

    pub fn set_pll1_1q_2_0(&mut self, value: u8)
        ensures
            final(self).0 == spec_set_bits8(old(self).0, 5, 3, value),
    {
        self.0 = set_bits8(self.0, 5, 3, value);
    }

    /// Field PLL1_1P_2_0, bits 4–2.
    pub fn pll1_1p_2_0(&self) -> (r: u8)
        ensures
            r == spec_get_bits8(self.0, 2, 3),
            r < 8,
    {
        proof {
            lemma_mask8_values();
        }
        get_bits8(self.0, 2, 3)
    }

    pub fn set_pll1_1p_2_0(&mut self, value: u8)
        ensures
            final(self).0 == spec_set_bits8(old(self).0, 2, 3, value),
    {
        self.0 = set_bits8(self.0, 2, 3, value);
    }

    /// Field VCO1_1_RANGE, bits 1–0.
    pub fn vco1_1_range(&self) -> (r: u8)
        ensures
            r == spec_get_bits8(self.0, 0, 2),
            r < 4,
    {
        proof {
            lemma_mask8_values();
        }
        get_bits8(self.0, 0, 2)
    }

    pub fn set_vco1_1_range(&mut self, value: u8)
        ensures
            final(self).0 == spec_set_bits8(old(self).0, 0, 2, value),
    {
        self.0 = set_bits8(self.0, 0, 2, value);
    }
}

/// A packed 32-bit PLL coefficient word, assembled big-endian from four
/// consecutive register bytes: a 12-bit divide ratio N, a 9-bit
/// reference ratio R, a 6-bit feedback ratio Q, a 3-bit P value and a
/// 2-bit VCO-range selector, densely packed with no padding.
#[derive(Debug, Clone, Copy, PartialEq, Eq, Structural)]
pub struct PllSettings(pub u32);

/// The 32-bit word formed by four register bytes in big-endian order.
pub open spec fn spec_word_from_be_bytes(b0: u8, b1: u8, b2: u8, b3: u8) -> u32 {
    ((b0 as u32) << 24) | ((b1 as u32) << 16) | ((b2 as u32) << 8) | (b3 as u32)
}

impl PllSettings {
    /// Assembles the word from four register bytes, most significant
    /// first.
    pub fn from_be_bytes(b0: u8, b1: u8, b2: u8, b3: u8) -> (r: Self)
        ensures
            r.0 == spec_word_from_be_bytes(b0, b1, b2, b3),
    {
        PllSettings(
            ((b0 as u32) << 24) | ((b1 as u32) << 16) | ((b2 as u32) << 8) | (b3 as u32),
        )
    }

    /// Splits the word back into four register bytes, most significant
    /// first.
    pub fn to_be_bytes(&self) -> (r: (u8, u8, u8, u8))
        ensures
            r.0 == ((self.0 >> 24) & 0xFF) as u8,
            r.1 == ((self.0 >> 16) & 0xFF) as u8,
            r.2 == ((self.0 >> 8) & 0xFF) as u8,
            r.3 == (self.0 & 0xFF) as u8,
    {
        (
            ((self.0 >> 24) & 0xFF) as u8,
            ((self.0 >> 16) & 0xFF) as u8,
            ((self.0 >> 8) & 0xFF) as u8,
            (self.0 & 0xFF) as u8,
        )
    }

    /// Divide ratio N, bits 31–20.
    pub fn pllx_yn(&self) -> (r: u16)
        ensures
            r == spec_get_bits32(self.0, 20, 12) as u16,
            r < 0x1000,
    {
        proof {
            lemma_mask32_values();
        }
        get_bits32(self.0, 20, 12) as u16
    }

    pub fn set_pllx_yn(&mut self, value: u16)
        ensures
            final(self).0 == spec_set_bits32(old(self).0, 20, 12, value as u32),
    {
        self.0 = set_bits32(self.0, 20, 12, value as u32);
    }

    /// Reference ratio R, bits 19–11.
    pub fn pllx_yr(&self) -> (r: u16)
        ensures
            r == spec_get_bits32(self.0, 11, 9) as u16,
            r < 0x200,
    {
        proof {
            lemma_mask32_values();
        }
        get_bits32(self.0, 11, 9) as u16
    }

    pub fn set_pllx_yr(&mut self, value: u16)
        ensures
            final(self).0 == spec_set_bits32(old(self).0, 11, 9, value as u32),
    {
        self.0 = set_bits32(self.0, 11, 9, value as u32);
    }

    /// Feedback ratio Q, bits 10–5.
    pub fn pllx_yq(&self) -> (r: u8)
        ensures
            r == spec_get_bits32(self.0, 5, 6) as u8,
            r < 0x40,
    {
        proof {
            lemma_mask32_values();
        }
        get_bits32(self.0, 5, 6) as u8
    }

    pub fn set_pllx_yq(&mut self, value: u8)
        ensures
            final(self).0 == spec_set_bits32(old(self).0, 5, 6, value as u32),
    {
        self.0 = set_bits32(self.0, 5, 6, value as u32);
    }

    /// P value, bits 4–2.
    pub fn pllx_yp(&self) -> (r: u8)
        ensures
            r == spec_get_bits32(self.0, 2, 3) as u8,
            r < 8,
    {
        proof {
            lemma_mask32_values();
        }
        get_bits32(self.0, 2, 3) as u8
    }

    pub fn set_pllx_yp(&mut self, value: u8)
        ensures
            final(self).0 == spec_set_bits32(old(self).0, 2, 3, value as u32),
    {
        self.0 = set_bits32(self.0, 2, 3, value as u32);
    }

    /// Raw VCO-range selector, bits 1–0.
    pub fn vco1x_y_range(&self) -> (r: u8)
        ensures
            r == spec_get_bits32(self.0, 0, 2) as u8,
            r < 4,
    {
        proof {
            lemma_mask32_values();
        }
        get_bits32(self.0, 0, 2) as u8
    }

    pub fn set_vcox_y_range(&mut self, value: u8)
        ensures
            final(self).0 == spec_set_bits32(old(self).0, 0, 2, value as u32),
    {
        self.0 = set_bits32(self.0, 0, 2, value as u32);
    }

    pub fn vco_range_selection(&self) -> (r: VcoRangeSelection)
        ensures
            r == VcoRangeSelection::spec_from_bits(spec_get_bits32(self.0, 0, 2) as u8),
    {
        VcoRangeSelection::from_bits(self.vco1x_y_range())
    }

    pub fn set_vco_range_selection(&mut self, range: VcoRangeSelection)
        ensures
            final(self).0 == spec_set_bits32(old(self).0, 0, 2, range.spec_code() as u32),
    {
        let code = range.code();
        self.set_vcox_y_range(code);
    }
}

/// Assembling four register bytes into a PLL word and splitting it
/// again reproduces the bytes exactly, and splitting then assembling
/// reproduces the word: the two directions are exact inverses.
pub proof fn lemma_pll_word_bytes_roundtrip(b0: u8, b1: u8, b2: u8, b3: u8, w: u32)
    by (bit_vector)
    ensures
        ((spec_word_from_be_bytes(b0, b1, b2, b3) >> 24) & 0xFF) as u8 == b0,
        ((spec_word_from_be_bytes(b0, b1, b2, b3) >> 16) & 0xFF) as u8 == b1,
        ((spec_word_from_be_bytes(b0, b1, b2, b3) >> 8) & 0xFF) as u8 == b2,
        (spec_word_from_be_bytes(b0, b1, b2, b3) & 0xFF) as u8 == b3,
        spec_word_from_be_bytes(
            ((w >> 24) & 0xFF) as u8,
            ((w >> 16) & 0xFF) as u8,
            ((w >> 8) & 0xFF) as u8,
            (w & 0xFF) as u8,
        ) == w,
{
}

/// Packing a value into any subfield of the PLL word and extracting it
/// again is lossless for every value within the subfield's width.
pub proof fn lemma_pll_subfields_lossless(w: u32, n: u16, r: u16, q: u8, p: u8, v: u8)
    requires
        n < 0x1000,
        r < 0x200,
        q < 0x40,
        p < 8,
        v < 4,
    ensures
        spec_get_bits32(spec_set_bits32(w, 20, 12, n as u32), 20, 12) == n as u32,
        spec_get_bits32(spec_set_bits32(w, 11, 9, r as u32), 11, 9) == r as u32,
        spec_get_bits32(spec_set_bits32(w, 5, 6, q as u32), 5, 6) == q as u32,
        spec_get_bits32(spec_set_bits32(w, 2, 3, p as u32), 2, 3) == p as u32,
        spec_get_bits32(spec_set_bits32(w, 0, 2, v as u32), 0, 2) == v as u32,
{
    lemma_mask32_values();
    lemma_get_set_same32(w, 20, 12, n as u32);
    lemma_get_set_same32(w, 11, 9, r as u32);
    lemma_get_set_same32(w, 5, 6, q as u32);
    lemma_get_set_same32(w, 2, 3, p as u32);
    lemma_get_set_same32(w, 0, 2, v as u32);
}

/// A value wider than its subfield is silently truncated to the
/// field's width, matching the hardware's don't-care high bits, and
/// writing one subfield of the PLL word leaves every other subfield
/// unchanged: the five fields pack densely without overlap.
pub proof fn lemma_pll_subfields_truncate_and_stay_disjoint(w: u32, v: u32)
    ensures
        spec_get_bits32(spec_set_bits32(w, 2, 3, v), 2, 3) == v & spec_mask32(3),
        spec_get_bits32(spec_set_bits32(w, 11, 9, v), 20, 12) == spec_get_bits32(w, 20, 12),
        spec_get_bits32(spec_set_bits32(w, 11, 9, v), 5, 6) == spec_get_bits32(w, 5, 6),
        spec_get_bits32(spec_set_bits32(w, 11, 9, v), 2, 3) == spec_get_bits32(w, 2, 3),
        spec_get_bits32(spec_set_bits32(w, 11, 9, v), 0, 2) == spec_get_bits32(w, 0, 2),
{
    lemma_get_set_trunc32(w, 2, 3, v);
    lemma_set_preserves_disjoint32(w, 11, 9, v, 20, 12);
    lemma_set_preserves_disjoint32(w, 11, 9, v, 5, 6);
    lemma_set_preserves_disjoint32(w, 11, 9, v, 2, 3);
    lemma_set_preserves_disjoint32(w, 11, 9, v, 0, 2);
}

} // verus!
