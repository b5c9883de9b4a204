//! Command-byte framing for the two-wire serial bus.
//!
//! Every bus transaction starts with a single command byte: bit 7
//! selects the access mode (0 = block, 1 = single byte) and bits 6–0
//! carry the register offset, truncated to 7 bits.

use crate::bits::{get_bits8, lemma_mask8_values, set_bits8, spec_get_bits8, spec_set_bits8};
use vstd::prelude::*;

verus! {

/// Fixed 7-bit bus address of the device.
pub const ADDRESS: u8 = 0b110_0101;

/// Access mode carried in bit 7 of the command byte.
#[derive(Debug, Clone, Copy, PartialEq, Eq, Structural)]
pub enum OpCode {
    Block,
    Byte,
}

/// Command byte of a bus transaction (Command Code Definition).
#[derive(Debug, Clone, Copy, PartialEq, Eq, Structural)]
pub struct CommandCode(pub u8);

/// The command byte that frames an access of mode `op_code` at `offset`:
/// bit 7 is set iff the mode is single-byte, bits 6–0 hold the offset
/// truncated to 7 bits.
pub open spec fn spec_command_byte(op_code: OpCode, offset: u8) -> u8 {
    (if op_code is Byte {
        0x80u8
    } else {
        0x00u8
    }) | (offset & 0x7F)
}

impl CommandCode {
    /// Whether bit 7 (the access-mode bit) is set.
    pub fn mode(&self) -> (r: bool)
        ensures
            r == (spec_get_bits8(self.0, 7, 1) == 1),
    {
        get_bits8(self.0, 7, 1) == 1
    }

    pub fn set_mode(&mut self, mode: bool)
        ensures
            final(self).0 == spec_set_bits8(
                old(self).0,
                7,
                1,
                if mode {
                    1
                } else {
                    0
                },
            ),
    {
        self.0 = set_bits8(
            self.0,
            7,
            1,
            if mode {
                1
            } else {
                0
            },
        );
    }

    /// The 7-bit register offset in bits 6–0.
    pub fn offset(&self) -> (r: u8)
        ensures
            r == spec_get_bits8(self.0, 0, 7),
            r < 0x80,
    {
        proof {
            lemma_mask8_values();
        }
        get_bits8(self.0, 0, 7)
    }

    pub fn set_offset(&mut self, offset: u8)
        ensures
            final(self).0 == spec_set_bits8(old(self).0, 0, 7, offset),
    {
        self.0 = set_bits8(self.0, 0, 7, offset);
    }

    /// Frames a command byte from an access mode and a register offset.
    /// No offset validation is performed: the offset is truncated to its
    /// 7-bit storage, mirroring the device's don't-care high bit.
    pub fn new(op_code: OpCode, offset: u8) -> (r: Self)
        ensures
            r.0 == spec_command_byte(op_code, offset),
            spec_get_bits8(r.0, 7, 1) == (if op_code is Byte {
                1u8
            } else {
                0u8
            }),
            spec_get_bits8(r.0, 0, 7) == offset & 0x7F,
    {
        let mut i = Self(0);

        i.set_mode(matches!(op_code, OpCode::Byte));
        i.set_offset(offset);

        proof {
            let framed = i.0;
            let mode_bit: u8 = if op_code is Byte {
                1
            } else {
                0
            };
            assert(framed == ((if mode_bit == 1 {
                0x80u8
            } else {
                0x00u8
            }) | (offset & 0x7F)) && spec_get_bits8(framed, 7, 1) == mode_bit && spec_get_bits8(
                framed,
                0,
                7,
            ) == offset & 0x7F) by (bit_vector)
                requires
                    mode_bit == 0 || mode_bit == 1,
                    framed == spec_set_bits8(spec_set_bits8(0, 7, 1, mode_bit), 0, 7, offset),
            ;
        }
        i
    }
}

} // verus!
