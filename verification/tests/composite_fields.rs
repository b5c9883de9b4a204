//! Composite-field behaviour: the index-dependent SSC1 selector table,
//! gather/scatter round trips with sibling preservation, the uniform
//! divider split and the end-to-end read-modify-write scenarios.

use cdcx913::composite::{
    combine_split_parts, gather, scatter, scatter_single, split_value, ssc1_decode, ssc1_encode,
    ssc1_encode_single, ssc1_segments, BitSegment,
};
use cdcx913::eeprom::{eeprom_write_poll_step, EepromPollStep, EEPROM_WRITE_POLL_LIMIT};
use cdcx913::registers::generic_configuration::{
    EepromProgrammingStatus, GenericConfigurationRegister1, GenericConfigurationRegister2,
    GenericConfigurationRegister3, InputClockSelection,
};
use cdcx913::registers::PLL1_CONFIGURATION_BASE;

/// The mask of the bits a segment occupies within its register byte.
fn segment_mask(seg: &BitSegment) -> u8 {
    let width_mask: u8 = if seg.width >= 8 { 0xFF } else { (1 << seg.width) - 1 };
    width_mask << seg.lsb
}

#[test]
fn ssc1_table_matches_register_layout() {
    // Indices 7, 6, 4, 3, 1, 0: one 3-bit segment; 5 and 2: a split.
    assert_eq!(
        ssc1_segments(7),
        vec![BitSegment { offset: 0x10, lsb: 5, width: 3 }]
    );
    assert_eq!(
        ssc1_segments(6),
        vec![BitSegment { offset: 0x10, lsb: 2, width: 3 }]
    );
    assert_eq!(
        ssc1_segments(5),
        vec![
            BitSegment { offset: 0x10, lsb: 0, width: 2 },
            BitSegment { offset: 0x11, lsb: 7, width: 1 },
        ]
    );
    assert_eq!(
        ssc1_segments(4),
        vec![BitSegment { offset: 0x11, lsb: 4, width: 3 }]
    );
    assert_eq!(
        ssc1_segments(3),
        vec![BitSegment { offset: 0x11, lsb: 1, width: 3 }]
    );
    assert_eq!(
        ssc1_segments(2),
        vec![
            BitSegment { offset: 0x11, lsb: 0, width: 1 },
            BitSegment { offset: 0x12, lsb: 6, width: 2 },
        ]
    );
    assert_eq!(
        ssc1_segments(1),
        vec![BitSegment { offset: 0x12, lsb: 3, width: 3 }]
    );
    assert_eq!(
        ssc1_segments(0),
        vec![BitSegment { offset: 0x12, lsb: 0, width: 3 }]
    );
    for index in 0u8..8 {
        for seg in ssc1_segments(index) {
            assert!(seg.offset >= PLL1_CONFIGURATION_BASE);
            assert!(seg.offset <= PLL1_CONFIGURATION_BASE + 2);
        }
    }
}

#[test]
fn ssc1_roundtrip_every_index_and_value() {
    for index in 0u8..8 {
        let segs = ssc1_segments(index);
        for value in 0u8..8 {
            // Sentinel patterns in the sibling bits must survive.
            for sentinel in [0x00u8, 0xFF, 0xA5, 0x5A] {
                let bytes: Vec<u8> = segs.iter().map(|_| sentinel).collect();
                let out = ssc1_encode(index, value, &bytes);
                assert_eq!(out.len(), bytes.len());
                assert_eq!(ssc1_decode(index, &out), value);
                for (i, seg) in segs.iter().enumerate() {
                    let mask = segment_mask(seg);
                    assert_eq!(out[i] & !mask, bytes[i] & !mask, "sibling bits changed");
                }
            }
        }
    }
}

#[test]
fn ssc1_encode_places_bits_exactly() {
    // Index 7: value lands in bits 7–5 of the first PLL1 register.
    let out = ssc1_encode(7, 0b101, &vec![0x00]);
    assert_eq!(out, vec![0b1010_0000]);
    // Index 5: high two bits in register 0x10 bits 1–0, low bit in
    // register 0x11 bit 7, recombined as (high << 1) | low.
    let out = ssc1_encode(5, 0b101, &vec![0x00, 0x00]);
    assert_eq!(out, vec![0b0000_0010, 0b1000_0000]);
    assert_eq!(ssc1_decode(5, &out), 0b101);
    // Index 2: high bit in register 0x11 bit 0, low two bits in
    // register 0x12 bits 7–6, recombined as (high << 2) | low.
    let out = ssc1_encode(2, 0b110, &vec![0x00, 0x00]);
    assert_eq!(out, vec![0b0000_0001, 0b1000_0000]);
    assert_eq!(ssc1_decode(2, &out), 0b110);
    // Index 0: value lands in bits 2–0 of register 0x12.
    let out = ssc1_encode(0, 0b011, &vec![0xF8]);
    assert_eq!(out, vec![0xF8 | 0b011]);
}

#[test]
fn gather_and_scatter_work_on_raw_tables() {
    let segs = vec![
        BitSegment { offset: 0x02, lsb: 0, width: 2 },
        BitSegment { offset: 0x03, lsb: 0, width: 8 },
    ];
    // A 10-bit divider split 2+8 across two registers.
    let bytes = scatter(&segs, &vec![0b1111_1100, 0x00], 0x2AB);
    assert_eq!(bytes, vec![0b1111_1110, 0xAB]);
    assert_eq!(gather(&segs, &bytes), 0x2AB);
    // Empty tables gather to zero.
    assert_eq!(gather(&Vec::new(), &Vec::new()), 0);
}

#[test]
fn divider_split_places_high_and_low_parts() {
    // Encoding 0x2AB must place 0b10 in the high-bits register field
    // and 0xAB in the low-bits register.
    let (high, low) = split_value(0x2AB, 8);
    assert_eq!(high, 0b10);
    assert_eq!(low, 0xAB);
    assert_eq!(combine_split_parts(high, low, 8), 0x2AB);
    // Through the register pair.
    let mut reg2 = GenericConfigurationRegister2(0x00);
    let mut reg3 = GenericConfigurationRegister3(0x00);
    reg2.set_pdiv1_9_8(high as u8);
    reg3.set_pdiv1_7_0(low as u8);
    assert_eq!(reg3.pdiv1_full_value(&reg2), 0x2AB);
}

#[test]
fn end_to_end_input_clock_and_divider_scenario() {
    // Set the input-clock selection to the third valid code and read
    // it back.
    let mut reg1 = GenericConfigurationRegister1(0b1111_0011);
    reg1.set_input_clock_selection(InputClockSelection::LvCmos);
    assert_eq!(reg1.input_clock_selection(), InputClockSelection::LvCmos);
    // Write the Y1 divider to 2: the two affected bytes must take
    // high = 0 and low = 2.
    let (high, low) = split_value(2, 8);
    assert_eq!((high, low), (0, 2));
    let mut reg2 = GenericConfigurationRegister2(0b1111_1111);
    let mut reg3 = GenericConfigurationRegister3(0xFF);
    reg2.set_pdiv1_9_8(high as u8);
    reg3.set_pdiv1_7_0(low as u8);
    assert_eq!(reg2.pdiv1_9_8(), 0);
    assert_eq!(reg3.pdiv1_7_0(), 2);
    assert_eq!(reg3.pdiv1_full_value(&reg2), 2);
    // The sibling fields in the shared register survived.
    assert_eq!(reg2.0 & 0b1111_1100, 0b1111_1100);
}

#[test]
fn eeprom_poll_policy_decides_each_case() {
    assert_eq!(
        eeprom_write_poll_step(EepromProgrammingStatus::Completed, 0),
        EepromPollStep::Complete
    );
    assert_eq!(
        eeprom_write_poll_step(EepromProgrammingStatus::Completed, 5),
        EepromPollStep::Complete
    );
    assert_eq!(
        eeprom_write_poll_step(EepromProgrammingStatus::InProgress, EEPROM_WRITE_POLL_LIMIT),
        EepromPollStep::Retry
    );
    assert_eq!(
        eeprom_write_poll_step(EepromProgrammingStatus::InProgress, 0),
        EepromPollStep::TimedOut
    );
}

#[test]
fn single_register_encode_matches_full_encode() {
    for index in 0u8..8 {
        let segs = ssc1_segments(index);
        for value in 0u8..8 {
            let bytes: Vec<u8> = segs.iter().map(|_| 0xC3u8).collect();
            let full = ssc1_encode(index, value, &bytes);
            for i in 0..segs.len() {
                assert_eq!(ssc1_encode_single(index, value, i, bytes[i]), full[i]);
                assert_eq!(scatter_single(&segs, i, bytes[i], value as u16), full[i]);
            }
        }
    }
}
