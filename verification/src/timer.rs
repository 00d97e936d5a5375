//! ARM timer setup.
//!
//! The periodic timer is a block of memory-mapped registers; this
//! module computes the exact register writes that arm it, while the
//! volatile stores (and the barriers around them) are the shell's
//! work.

use crate::gpio::RegWrite;
use vstd::prelude::*;

verus! {

/// Base of the ARM timer register block.
pub const ARM_TIMER_BASE: u32 = 0x2000_B400;

/// Load register: the countdown start value.
pub const ARM_TIMER_LOAD: u32 = 0x2000_B400;

/// Control register.
pub const ARM_TIMER_CONTROL: u32 = 0x2000_B408;

/// Interrupt-clear register: any write acknowledges the interrupt.
pub const ARM_TIMER_IRQ_CLEAR: u32 = 0x2000_B40C;

/// Basic-interrupt enable register of the interrupt controller.
pub const IRQ_ENABLE_BASIC: u32 = 0x2000_B218;

/// Bit of the ARM timer in the basic-interrupt registers.
pub const ARM_TIMER_IRQ: u32 = 1;

/// Control-register bit fields of the ARM timer.
pub struct ArmTimerCtrl(pub u32);

impl ArmTimerCtrl {
    /// 32-bit counter mode.
    pub const ARM_TIMER_CTRL_32BIT: u32 = 2;

    /// Prescaler: clock divided by 1.
    pub const ARM_TIMER_CTRL_PRESCALE_1: u32 = 0;

    /// Prescaler: clock divided by 16.
    pub const ARM_TIMER_CTRL_PRESCALE_16: u32 = 4;

    /// Prescaler: clock divided by 256.
    pub const ARM_TIMER_CTRL_PRESCALE_256: u32 = 8;

    /// Timer interrupt enabled.
    pub const ARM_TIMER_CTRL_INT_ENABLE: u32 = 32;

    /// Timer enabled.
    pub const ARM_TIMER_CTRL_ENABLE: u32 = 128;
}

/// Control-register value for a given prescale: 32-bit mode,
/// interrupt on, timer on.
pub open spec fn timer_control_bits(prescale: u32) -> u32 {
    if prescale == 1 {
        ArmTimerCtrl::ARM_TIMER_CTRL_32BIT | ArmTimerCtrl::ARM_TIMER_CTRL_ENABLE
            | ArmTimerCtrl::ARM_TIMER_CTRL_INT_ENABLE | ArmTimerCtrl::ARM_TIMER_CTRL_PRESCALE_1
    } else if prescale == 16 {
        ArmTimerCtrl::ARM_TIMER_CTRL_32BIT | ArmTimerCtrl::ARM_TIMER_CTRL_ENABLE
            | ArmTimerCtrl::ARM_TIMER_CTRL_INT_ENABLE | ArmTimerCtrl::ARM_TIMER_CTRL_PRESCALE_16
    } else {
        ArmTimerCtrl::ARM_TIMER_CTRL_32BIT | ArmTimerCtrl::ARM_TIMER_CTRL_ENABLE
            | ArmTimerCtrl::ARM_TIMER_CTRL_INT_ENABLE | ArmTimerCtrl::ARM_TIMER_CTRL_PRESCALE_256
    }
}

/// The control-register value that runs the timer: 32-bit mode,
/// interrupt on, timer on, and the requested prescale.  A prescale the
/// hardware does not offer is a programming error, excluded by the
/// precondition.
pub fn timer_control_value(prescale: u32) -> (r: u32)
    requires
        prescale == 1 || prescale == 16 || prescale == 256,
    ensures
        r == timer_control_bits(prescale),
{
    let v = if prescale == 1 {
        ArmTimerCtrl::ARM_TIMER_CTRL_PRESCALE_1
    } else if prescale == 16 {
        ArmTimerCtrl::ARM_TIMER_CTRL_PRESCALE_16
    } else {
        ArmTimerCtrl::ARM_TIMER_CTRL_PRESCALE_256
    };
    ArmTimerCtrl::ARM_TIMER_CTRL_32BIT | ArmTimerCtrl::ARM_TIMER_CTRL_ENABLE
        | ArmTimerCtrl::ARM_TIMER_CTRL_INT_ENABLE | v
}

/// The register writes that arm the periodic timer, in store order:
/// enable its line in the interrupt controller, load the countdown,
/// and switch the timer on with the requested prescale.
pub fn timer_init(prescale: u32, ncycles: u32) -> (writes: Vec<RegWrite>)
    requires
        prescale == 1 || prescale == 16 || prescale == 256,
    ensures
        writes@.len() == 3,
        writes@[0] == (RegWrite { addr: IRQ_ENABLE_BASIC, val: ARM_TIMER_IRQ }),
        writes@[1] == (RegWrite { addr: ARM_TIMER_LOAD, val: ncycles }),
        writes@[2] == (RegWrite { addr: ARM_TIMER_CONTROL, val: timer_control_bits(prescale) }),
{
    let mut writes: Vec<RegWrite> = Vec::new();
    writes.push(RegWrite { addr: IRQ_ENABLE_BASIC, val: ARM_TIMER_IRQ });
    writes.push(RegWrite { addr: ARM_TIMER_LOAD, val: ncycles });
    writes.push(RegWrite { addr: ARM_TIMER_CONTROL, val: timer_control_value(prescale) });
    writes
}

/// The write that acknowledges a pending timer interrupt.
pub fn clear_irq() -> (w: RegWrite)
    ensures
        w == (RegWrite { addr: ARM_TIMER_IRQ_CLEAR, val: 1 }),
{
    RegWrite { addr: ARM_TIMER_IRQ_CLEAR, val: 1 }
}

} // verus!
