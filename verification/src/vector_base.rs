//! Interrupt vector base management.
//!
//! The vector base address register is a coprocessor register; reading
//! and writing it is done by the shell around this library.  The
//! functions here hold the rules: what counts as a valid base, and
//! when a write may happen at all.

use vstd::prelude::*;

verus! {

/// A vector base is valid when it is non-null and 32-byte aligned
/// (its five low bits clear).
pub fn vector_base_check(vector_base: u32) -> (r: bool)
    ensures
        r == (vector_base != 0 && vector_base & 0b11111 == 0),
{
    vector_base != 0 && vector_base & 0b11111 == 0
}

/// First-time installation of the vector base.  `old_vc` is the value
/// read from the register.  Returns the value to write, or `None`
/// when the requested base is already installed and no write is
/// needed.  An invalid base, or a register already holding some other
/// base, is a programming error and excluded by the precondition.
pub fn vector_base_set(vector_base: u32, old_vc: u32) -> (r: Option<u32>)
    requires
        vector_base != 0,
        vector_base & 0b11111 == 0,
        old_vc == vector_base || old_vc == 0,
    ensures
        old_vc == vector_base ==> r is None,
        old_vc != vector_base ==> r == Some(vector_base),
{
    if old_vc == vector_base {
        return None;
    }
    Some(vector_base)
}

/// Unconditional (re-)installation of the vector base: returns the
/// value to write and the previously installed base, in that order.
/// An invalid base is a programming error and excluded by the
/// precondition.
pub fn vector_base_reset(vector_base: u32, old_vc: u32) -> (r: (u32, u32))
    requires
        vector_base != 0,
        vector_base & 0b11111 == 0,
    ensures
        r.0 == vector_base,
        r.1 == old_vc,
{
    (vector_base, old_vc)
}

} // verus!
