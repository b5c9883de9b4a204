//! EEPROM write sequencing policy.
//!
//! Flashing the current configuration to EEPROM is a two-phase
//! operation: set the EEWRITE trigger bit, then poll the
//! programming-status flag until it reports completion. The bus loop
//! lives with the transport; the decision of what each freshly read
//! status means is here, with a bounded number of polls so a stuck
//! device cannot hang the caller forever.

use crate::registers::generic_configuration::EepromProgrammingStatus;
use vstd::prelude::*;

verus! {

/// Number of status polls an EEPROM write performs before giving up.
pub const EEPROM_WRITE_POLL_LIMIT: u32 = 1000;

/// What the poll loop of an EEPROM write does next.
#[derive(Debug, Clone, Copy, PartialEq, Eq, Structural)]
pub enum EepromPollStep {
    /// The device reports the programming cycle finished.
    Complete,
    /// Still programming and polls remain: read the status again.
    Retry,
    /// Still programming after the last allowed poll: give up.
    TimedOut,
}

/// Decides one step of the poll loop from the freshly read programming
/// status and the number of polls still allowed: completion always
/// ends the loop, otherwise the loop retries exactly while polls
/// remain.
pub fn eeprom_write_poll_step(status: EepromProgrammingStatus, remaining: u32) -> (r:
    EepromPollStep)
    ensures
        r is Complete <==> status is Completed,
        r is Retry <==> (status is InProgress && remaining > 0),
        r is TimedOut <==> (status is InProgress && remaining == 0),
{
    match status {
        EepromProgrammingStatus::Completed => EepromPollStep::Complete,
        EepromProgrammingStatus::InProgress => {
            if remaining > 0 {
                EepromPollStep::Retry
            } else {
                EepromPollStep::TimedOut
            }
        },
    }
}

} // verus!
