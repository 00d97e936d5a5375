//! Instruction- and data-cache control.
//!
//! The caches are switched through bits 12 (instruction cache) and 11
//! (data/unified cache) of the system control register.  That register
//! lives in a coprocessor and is read and written by dedicated
//! instructions, which the shell around this library issues; the
//! functions here compute the new register value from the value read.

use vstd::prelude::*;

verus! {

/// Instruction-cache enable bit of the control register.
pub const CONTROL_REG_ICACHE: u32 = 0x1000;

/// Data-cache enable bit of the control register.
pub const CONTROL_REG_DCACHE: u32 = 0x800;

/// Control-register value that switches both caches on, leaving every
/// other bit as it was read.
pub fn caches_enable(control_reg: u32) -> (r: u32)
    ensures
        r == control_reg | CONTROL_REG_ICACHE | CONTROL_REG_DCACHE,
{
    let mut control_reg = control_reg;
    control_reg = control_reg | CONTROL_REG_ICACHE;
    control_reg = control_reg | CONTROL_REG_DCACHE;
    control_reg
}

/// Control-register value that switches both caches off, leaving every
/// other bit as it was read.
pub fn caches_disable(control_reg: u32) -> (r: u32)
    ensures
        r == control_reg & !CONTROL_REG_ICACHE & !CONTROL_REG_DCACHE,
{
    let mut control_reg = control_reg;
    control_reg = control_reg & !CONTROL_REG_ICACHE;
    control_reg = control_reg & !CONTROL_REG_DCACHE;
    control_reg
}

/// Whether the control-register value read has both caches on.
pub fn is_caches_enabled(control_reg: u32) -> (r: bool)
    ensures
        r == ((control_reg & CONTROL_REG_ICACHE) != 0 && (control_reg & CONTROL_REG_DCACHE) != 0),
{
    (control_reg & CONTROL_REG_ICACHE) != 0 && (control_reg & CONTROL_REG_DCACHE) != 0
}

} // verus!
