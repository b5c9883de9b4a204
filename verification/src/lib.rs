//! Register-level access layer for a two-PLL clock-generator IC
//! (CDCE913 / CDCEL913 family) reachable over a two-wire serial bus.
//!
//! The crate translates between the device's raw 8-bit register map and
//! strongly-typed semantic values: command-byte framing, per-register
//! bitfield codecs, composite fields whose bits span register
//! boundaries, and the packed 32-bit PLL coefficient words.  The bus
//! transport itself is an external collaborator; everything here is
//! pure computation over bytes, with contracts, and the read and write
//! directions are proved to be exact inverses.

pub mod bits;
pub mod composite;
pub mod eeprom;
pub mod i2c;
pub mod registers;
