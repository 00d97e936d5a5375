//! GPIO register computation.
//!
//! The pins are driven through memory-mapped registers: six function
//! select registers of ten 3-bit fields each, and set/clear/level
//! banks of 32 pins per word.  The volatile loads and stores are left
//! to the shell around this library; each function here computes the
//! exact register write (or decodes the register read) of the
//! corresponding pin operation.

use vstd::prelude::*;

verus! {

/// Base of the GPIO register block.
pub const GPIO_BASE_ADDR: u32 = 0x2020_0000;

/// First function-select register (ten pins of 3 bits each per word).
pub const GPIO_FSEL0: u32 = 0x2020_0000;

/// Set registers: writing bit n drives pin n (plus 32 for SET1) high.
pub const GPIO_SET0: u32 = 0x2020_001c;

pub const GPIO_SET1: u32 = 0x2020_0020;

/// Clear registers: writing bit n drives the pin low.
pub const GPIO_CLR0: u32 = 0x2020_0028;

pub const GPIO_CLR1: u32 = 0x2020_002c;

/// Level registers: bit n reads the pin's current level.
pub const GPIO_LEV0: u32 = 0x2020_0034;

pub const GPIO_LEV1: u32 = 0x2020_0038;

/// Event-detect status register for pins 0..31.
pub const GPIO_EDS0: u32 = 0x2020_0040;

/// Highest valid pin number.
pub const GPIO_MAX_PIN: u32 = 53;

/// One memory-mapped register store: the shell writes `val` to the
/// word at `addr`.
#[derive(Clone, Copy, PartialEq, Eq, Structural, Debug)]
pub struct RegWrite {
    pub addr: u32,
    pub val: u32,
}

/// Function of a pin, as encoded in its 3-bit function-select field.
#[derive(Clone, Copy, PartialEq, Eq, Structural, Debug)]
pub enum GpioFunc {
    Input,
    Output,
    Alt0,
    Alt1,
    Alt2,
    Alt3,
    Alt4,
    Alt5,
}

/// Field encoding of a pin function.
pub open spec fn gpio_func_bits(func: GpioFunc) -> u32 {
    match func {
        GpioFunc::Input => 0,
        GpioFunc::Output => 1,
        GpioFunc::Alt0 => 0b100,
        GpioFunc::Alt1 => 0b101,
        GpioFunc::Alt2 => 0b110,
        GpioFunc::Alt3 => 0b111,
        GpioFunc::Alt4 => 0b011,
        GpioFunc::Alt5 => 0b010,
    }
}

impl GpioFunc {
    /// Field encoding of this function.
    pub fn val(self) -> (r: u32)
        ensures
            r == gpio_func_bits(self),
    {
        match self {
            GpioFunc::Input => 0,
            GpioFunc::Output => 1,
            GpioFunc::Alt0 => 0b100,
            GpioFunc::Alt1 => 0b101,
            GpioFunc::Alt2 => 0b110,
            GpioFunc::Alt3 => 0b111,
            GpioFunc::Alt4 => 0b011,
            GpioFunc::Alt5 => 0b010,
        }
    }
}

/// The write that sets `pin`'s function to `func`: a read-modify-write
/// of the pin's function-select register, whose value as read is
/// `fsel_cur`.  Only the pin's own 3-bit field changes.
pub fn gpio_set_function(pin: u32, func: GpioFunc, fsel_cur: u32) -> (w: RegWrite)
    requires
        pin <= GPIO_MAX_PIN,
    ensures
        w.addr == GPIO_FSEL0 + 4 * (pin / 10),
        w.val == (fsel_cur & !(7u32 << (3 * (pin % 10)))) | (gpio_func_bits(func) << (3 * (pin
            % 10))),
{
    let fsel_reg_num = pin / 10;
    let fsel_offset = 3 * (pin % 10);

    let mut cur_val = fsel_cur;
    cur_val = cur_val & !(7u32 << fsel_offset);
    cur_val = cur_val | (func.val() << fsel_offset);

    RegWrite { addr: GPIO_FSEL0 + 4 * fsel_reg_num, val: cur_val }
}

/// The write that makes `pin` an output.
pub fn gpio_set_output(pin: u32, fsel_cur: u32) -> (w: RegWrite)
    requires
        pin <= GPIO_MAX_PIN,
    ensures
        w.addr == GPIO_FSEL0 + 4 * (pin / 10),
        w.val == (fsel_cur & !(7u32 << (3 * (pin % 10)))) | (1u32 << (3 * (pin % 10))),
{
    gpio_set_function(pin, GpioFunc::Output, fsel_cur)
}

/// The write that makes `pin` an input.
pub fn gpio_set_input(pin: u32, fsel_cur: u32) -> (w: RegWrite)
    requires
        pin <= GPIO_MAX_PIN,
    ensures
        w.addr == GPIO_FSEL0 + 4 * (pin / 10),
        w.val == fsel_cur & !(7u32 << (3 * (pin % 10))),
{
    let off = 3 * (pin % 10);
    let w = gpio_set_function(pin, GpioFunc::Input, fsel_cur);
    proof {
        assert((fsel_cur & !(7u32 << off)) | (0u32 << off) == fsel_cur & !(7u32 << off))
            by (bit_vector);
    }
    w
}

/// The write that drives `pin` high: its bit into the pin's set
/// register.
pub fn gpio_set_on(pin: u32) -> (w: RegWrite)
    requires
        pin <= GPIO_MAX_PIN,
    ensures
        pin < 32 ==> w == (RegWrite { addr: GPIO_SET0, val: 1u32 << pin }),
        pin >= 32 ==> w == (RegWrite { addr: GPIO_SET1, val: 1u32 << (pin - 32) }),
{
    let mut pin = pin;
    let addr = if pin >= 32 {
        pin = pin - 32;
        GPIO_SET1
    } else {
        GPIO_SET0
    };
    RegWrite { addr, val: 1u32 << pin }
}

/// The write that drives `pin` low: its bit into the pin's clear
/// register.
pub fn gpio_set_off(pin: u32) -> (w: RegWrite)
    requires
        pin <= GPIO_MAX_PIN,
    ensures
        pin < 32 ==> w == (RegWrite { addr: GPIO_CLR0, val: 1u32 << pin }),
        pin >= 32 ==> w == (RegWrite { addr: GPIO_CLR1, val: 1u32 << (pin - 32) }),
{
    let mut pin = pin;
    let addr = if pin >= 32 {
        pin = pin - 32;
        GPIO_CLR1
    } else {
        GPIO_CLR0
    };
    RegWrite { addr, val: 1u32 << pin }
}

/// The write that drives `pin` to `value`.
pub fn gpio_write(pin: u32, value: bool) -> (w: RegWrite)
    requires
        pin <= GPIO_MAX_PIN,
    ensures
        value ==> w == gpio_on_write(pin),
        !value ==> w == gpio_off_write(pin),
{
    if value {
        gpio_set_on(pin)
    } else {
        gpio_set_off(pin)
    }
}

/// The set-register write that drives `pin` high.
pub open spec fn gpio_on_write(pin: u32) -> RegWrite {
    if pin < 32 {
        RegWrite { addr: GPIO_SET0, val: 1u32 << pin }
    } else {
        RegWrite { addr: GPIO_SET1, val: 1u32 << (pin - 32) as u32 }
    }
}

/// The clear-register write that drives `pin` low.
pub open spec fn gpio_off_write(pin: u32) -> RegWrite {
    if pin < 32 {
        RegWrite { addr: GPIO_CLR0, val: 1u32 << pin }
    } else {
        RegWrite { addr: GPIO_CLR1, val: 1u32 << (pin - 32) as u32 }
    }
}

/// Decodes `pin`'s level out of the value read from its level
/// register (LEV0 for pins below 32, LEV1 above).
pub fn gpio_read(pin: u32, lev_cur: u32) -> (r: bool)
    requires
        pin <= GPIO_MAX_PIN,
    ensures
        r == ((lev_cur & (1u32 << (pin % 32))) != 0),
{
    let bit = if pin >= 32 {
        pin - 32
    } else {
        pin
    };
    assert(bit == pin % 32);
    (lev_cur & (1u32 << bit)) != 0
}

/// Rising-edge detect enable register for pins 0..31.
pub const GPIO_REN0: u32 = 0x2020_004c;

/// Falling-edge detect enable register for pins 0..31.
pub const GPIO_FEN0: u32 = 0x2020_0058;

/// The write that enables rising-edge detection on `pin` (below 32):
/// a read-modify-write of the enable register, whose value as read is
/// `ren_cur`.
pub fn gpio_int_rising_edge(pin: u32, ren_cur: u32) -> (w: RegWrite)
    requires
        pin < 32,
    ensures
        w == (RegWrite { addr: GPIO_REN0, val: ren_cur | (1u32 << pin) }),
{
    RegWrite { addr: GPIO_REN0, val: ren_cur | (1u32 << pin) }
}

/// The write that enables falling-edge detection on `pin` (below 32).
pub fn gpio_int_falling_edge(pin: u32, fen_cur: u32) -> (w: RegWrite)
    requires
        pin < 32,
    ensures
        w == (RegWrite { addr: GPIO_FEN0, val: fen_cur | (1u32 << pin) }),
{
    RegWrite { addr: GPIO_FEN0, val: fen_cur | (1u32 << pin) }
}

/// The write that acknowledges `pin`'s pending edge event: its bit
/// into the event-detect status register.
pub fn gpio_event_clear(pin: u32) -> (w: RegWrite)
    requires
        pin < 32,
    ensures
        w == (RegWrite { addr: GPIO_EDS0, val: 1u32 << pin }),
{
    RegWrite { addr: GPIO_EDS0, val: 1u32 << pin }
}

/// An edge event on a pin, as the interrupt handler classifies it
/// from the pin's level at dispatch time.
#[derive(Clone, Copy, PartialEq, Eq, Structural, Debug)]
pub enum GPIOEvent {
    RisingEdge,
    FallingEdge,
}

/// Decodes whether `pin` (below 32) has a pending edge event in the
/// value read from the event-detect status register.
pub fn gpio_event_detected(pin: u32, eds_cur: u32) -> (r: bool)
    requires
        pin < 32,
    ensures
        r == ((eds_cur & (1u32 << pin)) != 0),
{
    (eds_cur & (1u32 << pin)) != 0
}

/// Classifies a detected edge from the pin's level: a high level
/// means the edge that raised it.
pub fn gpio_event_kind(level: bool) -> (r: GPIOEvent)
    ensures
        level ==> r == GPIOEvent::RisingEdge,
        !level ==> r == GPIOEvent::FallingEdge,
{
    if level {
        GPIOEvent::RisingEdge
    } else {
        GPIOEvent::FallingEdge
    }
}

} // verus!
