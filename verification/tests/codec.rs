//! Register codec behaviour: command framing, semantic enum round
//! trips, reserved-pattern fallbacks and the capacitance clamp.

use cdcx913::i2c::{CommandCode, OpCode, ADDRESS};
use cdcx913::registers::generic_configuration::{
    DeviceIdentification, EepromProgrammingStatus, GenericConfigurationRegister0,
    GenericConfigurationRegister1, GenericConfigurationRegister2, GenericConfigurationRegister3,
    GenericConfigurationRegister4, GenericConfigurationRegister5, GenericConfigurationRegister6,
    InputClockSelection, SerialInterfacePinMode, Y1ClockSource,
};
use cdcx913::registers::pll1_configuration::{
    Fs1Selection, OutputY2Multiplexer, OutputY3Multiplexer, Pll1ConfigurationRegister3,
    Pll1ConfigurationRegister4, Pll1ConfigurationRegister5, Pll1ConfigurationRegister6,
    Pll1ConfigurationRegister7, Pll1Multiplexer, SscDownCenterSelection, SscModulationAmountCenter,
    SscModulationAmountDown, VcoRangeSelection, Y2Y3State,
};
use cdcx913::registers::{OutputStateDefinition, OutputStateSelection};

#[test]
fn bus_address_is_fixed() {
    assert_eq!(ADDRESS, 0b110_0101);
}

#[test]
fn command_byte_frames_mode_and_offset() {
    assert_eq!(CommandCode::new(OpCode::Byte, 0x15).0, 0x95);
    assert_eq!(CommandCode::new(OpCode::Block, 0x15).0, 0x15);
    assert_eq!(CommandCode::new(OpCode::Byte, 0x00).0, 0x80);
    assert_eq!(CommandCode::new(OpCode::Block, 0x7F).0, 0x7F);
}

#[test]
fn command_byte_truncates_offset_to_seven_bits() {
    assert_eq!(CommandCode::new(OpCode::Block, 0xFF).0, 0x7F);
    assert_eq!(CommandCode::new(OpCode::Byte, 0xAA).0, 0x80 | 0x2A);
}

#[test]
fn command_byte_accessors_recover_fields() {
    let mut code = CommandCode::new(OpCode::Byte, 0x33);
    assert!(code.mode());
    assert_eq!(code.offset(), 0x33);
    code.set_mode(false);
    assert!(!code.mode());
    assert_eq!(code.offset(), 0x33);
    code.set_offset(0x01);
    assert_eq!(code.offset(), 0x01);
    assert!(!code.mode());
}

#[test]
fn output_state_definition_roundtrip() {
    for bits in 0u8..4 {
        assert_eq!(OutputStateDefinition::from_bits(bits).code(), bits);
    }
    assert_eq!(
        OutputStateDefinition::from_bits(0b00),
        OutputStateDefinition::DevicePowerDown
    );
    assert_eq!(
        OutputStateDefinition::from_bits(0b11),
        OutputStateDefinition::Enabled
    );
}

#[test]
fn output_state_selection_roundtrip() {
    for bits in 0u8..2 {
        assert_eq!(OutputStateSelection::from_bits(bits).code(), bits);
    }
}

#[test]
fn two_valued_enums_roundtrip() {
    for bits in 0u8..2 {
        assert_eq!(DeviceIdentification::from_bits(bits).code(), bits);
        assert_eq!(EepromProgrammingStatus::from_bits(bits).code(), bits);
        assert_eq!(Y1ClockSource::from_bits(bits).code(), bits);
        assert_eq!(SerialInterfacePinMode::from_bits(bits).code(), bits);
        assert_eq!(Fs1Selection::from_bits(bits).code(), bits);
        assert_eq!(Pll1Multiplexer::from_bits(bits).code(), bits);
        assert_eq!(OutputY2Multiplexer::from_bits(bits).code(), bits);
        assert_eq!(Y2Y3State::from_bits(bits).code(), bits);
        assert_eq!(SscDownCenterSelection::from_bits(bits).code(), bits);
    }
}

#[test]
fn ssc_modulation_amounts_roundtrip() {
    for bits in 0u8..8 {
        assert_eq!(SscModulationAmountDown::from_bits(bits).code(), bits);
        assert_eq!(SscModulationAmountCenter::from_bits(bits).code(), bits);
    }
    assert_eq!(
        SscModulationAmountDown::from_bits(0b111),
        SscModulationAmountDown::Minus2Percent
    );
    assert_eq!(
        SscModulationAmountCenter::from_bits(0b001),
        SscModulationAmountCenter::PlusMinus025Percent
    );
}

#[test]
fn vco_range_and_y3_multiplexer_roundtrip() {
    for bits in 0u8..4 {
        assert_eq!(VcoRangeSelection::from_bits(bits).code(), bits);
        assert_eq!(OutputY3Multiplexer::from_bits(bits).code(), bits);
    }
}

#[test]
fn input_clock_reserved_pattern_falls_back_to_xtal() {
    for bits in 0u8..3 {
        assert_eq!(InputClockSelection::from_bits(bits).code(), bits);
    }
    assert_eq!(InputClockSelection::from_bits(0b11), InputClockSelection::Xtal);
    // Through the register codec: INCLK lives in bits 3–2.
    let reg = GenericConfigurationRegister1(0b0000_1100);
    assert_eq!(reg.input_clock_selection(), InputClockSelection::Xtal);
}

#[test]
fn y3_multiplexer_reserved_pattern_is_first_class() {
    assert_eq!(
        OutputY3Multiplexer::from_bits(0b11),
        OutputY3Multiplexer::Reserved
    );
    // Through the register codec: M3 lives in bits 5–4.
    let reg = Pll1ConfigurationRegister4(0b0011_0000);
    assert_eq!(reg.output_y3_multiplexer(), OutputY3Multiplexer::Reserved);
}

#[test]
fn device_identity_register_decodes() {
    let reg = GenericConfigurationRegister0(0b1010_0110);
    assert_eq!(reg.device_identification(), DeviceIdentification::CDCE913);
    assert_eq!(reg.rid(), 0b010);
    assert_eq!(reg.vid(), 0b0110);
    let reg = GenericConfigurationRegister0(0b0000_0000);
    assert_eq!(reg.device_identification(), DeviceIdentification::CDCEL913);
}

#[test]
fn register1_fields_roundtrip_and_preserve_siblings() {
    let mut reg = GenericConfigurationRegister1(0b1010_1010);
    reg.set_eelock(true);
    assert!(reg.eelock());
    assert_eq!(reg.0, 0b1010_1010 | 0b0010_0000);
    reg.set_pwdn(false);
    assert!(!reg.pwdn());
    reg.set_target_adr(0b11);
    assert_eq!(reg.target_adr(), 0b11);
    reg.set_input_clock_selection(InputClockSelection::Vcxo);
    assert_eq!(reg.input_clock_selection(), InputClockSelection::Vcxo);
    // The other fields survived every write above.
    assert!(reg.eelock());
    assert!(!reg.pwdn());
    assert_eq!(reg.target_adr(), 0b11);
}

#[test]
fn register2_semantic_fields_roundtrip() {
    let mut reg = GenericConfigurationRegister2(0x00);
    reg.set_y1_clock_source(Y1ClockSource::Pll1Clock);
    assert_eq!(reg.y1_clock_source(), Y1ClockSource::Pll1Clock);
    reg.set_serial_interface_pin_mode(SerialInterfacePinMode::ControlS1S2);
    assert_eq!(
        reg.serial_interface_pin_mode(),
        SerialInterfacePinMode::ControlS1S2
    );
    reg.set_y1_state1_definition(OutputStateDefinition::DisabledLow);
    assert_eq!(reg.y1_state1_definition(), OutputStateDefinition::DisabledLow);
    reg.set_y1_state0_definition(OutputStateDefinition::Enabled);
    assert_eq!(reg.y1_state0_definition(), OutputStateDefinition::Enabled);
    reg.set_pdiv1_9_8(0b10);
    assert_eq!(reg.pdiv1_9_8(), 0b10);
    assert_eq!(reg.0, 0b1110_1110);
}

#[test]
fn state_selection_bits_roundtrip_per_index() {
    let mut reg4 = GenericConfigurationRegister4(0b0101_0101);
    for index in 0u8..8 {
        for state in [OutputStateSelection::State0, OutputStateSelection::State1] {
            let before = reg4.0;
            reg4.set_y1_state_selection(index, state);
            assert_eq!(reg4.y1_state_selection(index), state);
            // Only bit `index` may have changed.
            assert_eq!(reg4.0 & !(1 << index), before & !(1 << index));
        }
    }
    let mut reg5 = Pll1ConfigurationRegister5(0b1001_0110);
    for index in 0u8..8 {
        reg5.set_y2y3_state_selection(index, OutputStateSelection::State1);
        assert_eq!(
            reg5.y2y3_state_selection(index),
            OutputStateSelection::State1
        );
    }
    assert_eq!(reg5.0, 0xFF);
}

#[test]
fn fs1_selection_bits_roundtrip_per_index() {
    let mut reg = Pll1ConfigurationRegister3(0x00);
    for index in 0u8..8 {
        reg.set_fs1_selection(index, Fs1Selection::Fvcxo1);
        assert_eq!(reg.fs1_selection(index), Fs1Selection::Fvcxo1);
        reg.set_fs1_selection(index, Fs1Selection::Fvcxo0);
        assert_eq!(reg.fs1_selection(index), Fs1Selection::Fvcxo0);
    }
    assert_eq!(reg.0, 0x00);
}

#[test]
fn capacitance_clamps_symmetrically() {
    let mut reg = GenericConfigurationRegister5(0b0000_0111);
    reg.set_crystal_load_capacitance_pf(25);
    assert_eq!(reg.crystal_load_capacitance_pf(), 20);
    reg.set_crystal_load_capacitance_pf(19);
    assert_eq!(reg.crystal_load_capacitance_pf(), 19);
    reg.set_crystal_load_capacitance_pf(20);
    assert_eq!(reg.crystal_load_capacitance_pf(), 20);
    reg.set_crystal_load_capacitance_pf(0);
    assert_eq!(reg.crystal_load_capacitance_pf(), 0);
    // The reserved low bits survived every write.
    assert_eq!(reg.reserved(), 0b111);
    // A raw register code of 20 or more also reads back as 20 pF.
    let reg = GenericConfigurationRegister5(27 << 3);
    assert_eq!(reg.crystal_load_capacitance_pf(), 20);
}

#[test]
fn block_count_and_eewrite_roundtrip() {
    let mut reg = GenericConfigurationRegister6(0x00);
    reg.set_bcount(0x55);
    assert_eq!(reg.bcount(), 0x55);
    assert!(!reg.eewrite());
    reg.set_eewrite(true);
    assert!(reg.eewrite());
    assert_eq!(reg.bcount(), 0x55);
    assert_eq!(reg.0, (0x55 << 1) | 1);
}

#[test]
fn register4_multiplexers_roundtrip() {
    let mut reg = Pll1ConfigurationRegister4(0x00);
    reg.set_pll1_multiplexer(Pll1Multiplexer::Pll1Bypass);
    assert_eq!(reg.pll1_multiplexer(), Pll1Multiplexer::Pll1Bypass);
    reg.set_output_y2_multiplexer(OutputY2Multiplexer::Pdiv2);
    assert_eq!(reg.output_y2_multiplexer(), OutputY2Multiplexer::Pdiv2);
    reg.set_output_y3_multiplexer(OutputY3Multiplexer::Pdiv3);
    assert_eq!(reg.output_y3_multiplexer(), OutputY3Multiplexer::Pdiv3);
    reg.set_y2y3_state1_definition(OutputStateDefinition::Disabled3State);
    assert_eq!(
        reg.y2y3_state1_definition(),
        OutputStateDefinition::Disabled3State
    );
    reg.set_y2y3_state0_definition(OutputStateDefinition::DevicePowerDown);
    assert_eq!(
        reg.y2y3_state0_definition(),
        OutputStateDefinition::DevicePowerDown
    );
    assert_eq!(reg.0, 0b1110_0100);
}

#[test]
fn register6_and_7_dividers_roundtrip() {
    let mut reg6 = Pll1ConfigurationRegister6(0x00);
    reg6.set_pll1_ssc_down_center_selection(SscDownCenterSelection::Center);
    assert_eq!(
        reg6.pll1_ssc_down_center_selection(),
        SscDownCenterSelection::Center
    );
    reg6.set_pdiv2(0x45);
    assert_eq!(reg6.pdiv2(), 0x45);
    assert_eq!(reg6.0, 0x80 | 0x45);

    let mut reg7 = Pll1ConfigurationRegister7(0x80);
    reg7.set_pdiv3(0x7F);
    assert_eq!(reg7.pdiv3(), 0x7F);
    assert!(reg7.reserved());
}
