//! The packed 32-bit PLL coefficient word: big-endian byte assembly
//! and lossless subfield packing.

use cdcx913::registers::pll1_configuration::{
    Pll1ConfigurationRegister8, Pll1ConfigurationRegister9, Pll1ConfigurationRegisterA,
    Pll1ConfigurationRegisterB, Pll1ConfigurationRegisterC, Pll1ConfigurationRegisterF,
    PllSettings, VcoRangeSelection,
};

#[test]
fn word_assembles_big_endian() {
    let settings = PllSettings::from_be_bytes(0x12, 0x34, 0x56, 0x78);
    assert_eq!(settings.0, 0x1234_5678);
}

#[test]
fn word_splits_back_into_the_same_bytes() {
    let bytes = (0xDE, 0xAD, 0xBE, 0xEF);
    let settings = PllSettings::from_be_bytes(bytes.0, bytes.1, bytes.2, bytes.3);
    assert_eq!(settings.to_be_bytes(), bytes);
    let settings = PllSettings(0x0000_0000);
    assert_eq!(settings.to_be_bytes(), (0, 0, 0, 0));
    let settings = PllSettings(0xFFFF_FFFF);
    assert_eq!(settings.to_be_bytes(), (0xFF, 0xFF, 0xFF, 0xFF));
}

#[test]
fn subfields_pack_losslessly() {
    let mut settings = PllSettings(0);
    settings.set_pllx_yn(0xABC);
    settings.set_pllx_yr(0x123);
    settings.set_pllx_yq(0x2A);
    settings.set_pllx_yp(0b101);
    settings.set_vcox_y_range(0b10);
    assert_eq!(settings.pllx_yn(), 0xABC);
    assert_eq!(settings.pllx_yr(), 0x123);
    assert_eq!(settings.pllx_yq(), 0x2A);
    assert_eq!(settings.pllx_yp(), 0b101);
    assert_eq!(settings.vco1x_y_range(), 0b10);
    // The fields pack densely: N in bits 31-20, R in 19-11, Q in 10-5,
    // P in 4-2, the VCO range in 1-0.
    let expected: u32 =
        (0xABCu32 << 20) | (0x123u32 << 11) | (0x2Au32 << 5) | (0b101u32 << 2) | 0b10u32;
    assert_eq!(settings.0, expected);
}

#[test]
fn subfield_writes_preserve_siblings() {
    let mut settings = PllSettings(0xFFFF_FFFF);
    settings.set_pllx_yr(0);
    assert_eq!(settings.pllx_yn(), 0xFFF);
    assert_eq!(settings.pllx_yr(), 0);
    assert_eq!(settings.pllx_yq(), 0x3F);
    assert_eq!(settings.pllx_yp(), 0b111);
    assert_eq!(settings.vco1x_y_range(), 0b11);
}

#[test]
fn subfield_extraction_from_assembled_word() {
    // One concrete word, checked field by field.
    let word: u32 = (0x456u32 << 20) | (0x0F1u32 << 11) | (0x11u32 << 5) | (0b011u32 << 2) | 0b01;
    let settings = PllSettings(word);
    assert_eq!(settings.pllx_yn(), 0x456);
    assert_eq!(settings.pllx_yr(), 0x0F1);
    assert_eq!(settings.pllx_yq(), 0x11);
    assert_eq!(settings.pllx_yp(), 0b011);
    assert_eq!(
        settings.vco_range_selection(),
        VcoRangeSelection::From125To150MHz
    );
}

#[test]
fn vco_range_selection_roundtrip() {
    let ranges = [
        VcoRangeSelection::LessThan125MHz,
        VcoRangeSelection::From125To150MHz,
        VcoRangeSelection::From150To175MHz,
        VcoRangeSelection::GreaterOrEqual175MHz,
    ];
    for range in ranges {
        let mut settings = PllSettings(0xFFFF_FFFF);
        settings.set_vco_range_selection(range);
        assert_eq!(settings.vco_range_selection(), range);
        // The other subfields survive.
        assert_eq!(settings.pllx_yn(), 0xFFF);
        assert_eq!(settings.pllx_yp(), 0b111);
    }
}

#[test]
fn setters_truncate_to_field_width() {
    let mut settings = PllSettings(0);
    // Writing a value wider than the field keeps only its low bits,
    // matching the hardware's don't-care high bits.
    settings.set_pllx_yp(0xFF);
    assert_eq!(settings.pllx_yp(), 0b111);
    assert_eq!(settings.pllx_yn(), 0);
    settings.set_vcox_y_range(0xFF);
    assert_eq!(settings.vco1x_y_range(), 0b11);
}

#[test]
fn word_fragment_registers_roundtrip() {
    let mut reg8 = Pll1ConfigurationRegister8(0x00);
    reg8.set_pll1_0n_11_4(0xC3);
    assert_eq!(reg8.pll1_0n_11_4(), 0xC3);

    let mut reg9 = Pll1ConfigurationRegister9(0x00);
    reg9.set_pll1_0n_3_0(0xA);
    reg9.set_pll1_0r_8_5(0x5);
    assert_eq!(reg9.pll1_0n_3_0(), 0xA);
    assert_eq!(reg9.pll1_0r_8_5(), 0x5);
    assert_eq!(reg9.0, 0xA5);

    let mut rega = Pll1ConfigurationRegisterA(0xFF);
    rega.set_pll1_0q_5_3(0b010);
    assert_eq!(rega.pll1_0q_5_3(), 0b010);
    assert_eq!(rega.pll1_0r_4_0(), 0b11111);

    let mut regb = Pll1ConfigurationRegisterB(0x00);
    regb.set_vco1_0_range_selection(VcoRangeSelection::From150To175MHz);
    assert_eq!(
        regb.vco1_0_range_selection(),
        VcoRangeSelection::From150To175MHz
    );
    regb.set_pll1_0q_2_0(0b101);
    regb.set_pll1_0p_2_0(0b011);
    assert_eq!(regb.pll1_0q_2_0(), 0b101);
    assert_eq!(regb.pll1_0p_2_0(), 0b011);
    assert_eq!(regb.0, 0b1010_1110);

    let mut regc = Pll1ConfigurationRegisterC(0x00);
    regc.set_pll1_1n_11_4(0x7E);
    assert_eq!(regc.pll1_1n_11_4(), 0x7E);

    let mut regf = Pll1ConfigurationRegisterF(0x00);
    regf.set_vco1_1_range(0b11);
    regf.set_pll1_1q_2_0(0b001);
    regf.set_pll1_1p_2_0(0b111);
    assert_eq!(regf.vco1_1_range(), 0b11);
    assert_eq!(regf.pll1_1q_2_0(), 0b001);
    assert_eq!(regf.pll1_1p_2_0(), 0b111);
}
