//! Voltage-regulator (SIMO) driver: a single one-shot calibration
//! register write at construction, with no further runtime interface.

use vstd::prelude::*;

use crate::gcr::GcrRegisters;

verus! {

/// The regulator's calibration register field, modelled as plain state.
pub struct SimoRegisters {
    /// The buck-converter output calibration value.
    pub vsetc: u8,
}

/// The voltage-regulator driver: the sole owner of its register file.
pub struct Simo {
    pub regs: SimoRegisters,
}

impl Simo {
    /// Create a new SIMO peripheral instance: writes the fixed calibration
    /// value into the register field.
    pub fn new(simo: SimoRegisters, _reg: &mut GcrRegisters) -> (s: Simo)
        ensures
            s.regs.vsetc == 59,
    {
        let mut regs = simo;
        regs.vsetc = 59;
        Simo { regs }
    }
}

} // verus!
