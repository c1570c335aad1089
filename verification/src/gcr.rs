//! Peripheral bring-up capability: the global control registers through
//! which a peripheral is reset and its clock enabled, invoked exactly once
//! at driver construction.

use vstd::prelude::*;

verus! {

/// The bring-up register file. Each flag records that the one-shot
/// bring-up action for the named peripheral has been performed.
pub struct GcrRegisters {
    pub aes_reset_done: bool,
    pub aes_clock_enabled: bool,
    pub wdt_reset_done: bool,
    pub wdt_clock_enabled: bool,
}

impl GcrRegisters {
    /// A bring-up register file with no bring-up action performed yet.
    pub fn new() -> (r: GcrRegisters)
        ensures
            !r.aes_reset_done,
            !r.aes_clock_enabled,
            !r.wdt_reset_done,
            !r.wdt_clock_enabled,
    {
        GcrRegisters {
            aes_reset_done: false,
            aes_clock_enabled: false,
            wdt_reset_done: false,
            wdt_clock_enabled: false,
        }
    }
}

} // verus!
