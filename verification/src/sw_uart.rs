//! Software (bit-banged) UART transmitter.
//!
//! A byte goes out over a GPIO pin as ten line levels: one low start
//! bit, the eight data bits lowest-first, one high stop bit, each held
//! for one bit time.  Driving the pin and waiting out the bit times is
//! the shell's work; this module computes the timing constants and the
//! level sequence.

use crate::gpio::GPIO_MAX_PIN;
use vstd::prelude::*;

verus! {

/// Clock rate the bit timing is computed against (700 MHz).
pub const SW_UART_CLOCK_HZ: u32 = 700_000_000;

/// Processor cycles per transmitted bit at the given baud rate.
pub fn baud_to_cycles(baud: u32) -> (r: u32)
    requires
        baud > 0,
    ensures
        r == SW_UART_CLOCK_HZ / baud,
{
    SW_UART_CLOCK_HZ / baud
}

/// Microseconds per transmitted bit at the given baud rate.
pub fn baud_to_usec(baud: u32) -> (r: u32)
    requires
        baud > 0,
    ensures
        r == 1_000_000u32 / baud,
{
    1_000_000u32 / baud
}

/// A software UART on a pair of GPIO pins.
pub struct SwUart {
    pub tx: u32,
    pub rx: u32,
    pub baud: u32,
    pub cycles_per_bit: u32,
    pub usec_per_bit: u32,
}

impl SwUart {
    /// A well-formed transmitter: valid pins, a sane baud rate, and
    /// timing constants that match it.
    pub open spec fn wf(self) -> bool {
        &&& self.tx <= GPIO_MAX_PIN
        &&& self.rx <= GPIO_MAX_PIN
        &&& 0 < self.baud <= SW_UART_CLOCK_HZ
        &&& self.cycles_per_bit == SW_UART_CLOCK_HZ / self.baud
        &&& self.usec_per_bit == 1_000_000u32 / self.baud
    }

    /// Creates the transmitter for the given pins and baud rate,
    /// deriving the bit timing.  The caller still configures the pins
    /// (transmit pin pulled high and set to output, receive pin to
    /// input) through the GPIO register writes.
    pub fn new(tx: u32, rx: u32, baud: u32) -> (uart: SwUart)
        requires
            tx <= GPIO_MAX_PIN,
            rx <= GPIO_MAX_PIN,
            0 < baud <= SW_UART_CLOCK_HZ,
        ensures
            uart.wf(),
            uart.tx == tx,
            uart.rx == rx,
            uart.baud == baud,
    {
        let cycles_per_bit = baud_to_cycles(baud);
        let usec_per_bit = baud_to_usec(baud);
        SwUart { tx, rx, baud, cycles_per_bit, usec_per_bit }
    }

    /// The line levels that transmit `byte`: a low start bit, the
    /// eight data bits lowest-first, and a high stop bit.  The shell
    /// drives the transmit pin to each level in turn, holding each for
    /// one bit time.
    pub fn put_8(&self, byte: u8) -> (levels: Vec<bool>)
        ensures
            levels@.len() == 10,
            levels@[0] == false,
            forall|i: int|
                1 <= i <= 8 ==> #[trigger] levels@[i] == (((byte >> ((i - 1) as u8)) & 1) != 0),
            levels@[9] == true,
    {
        let mut levels: Vec<bool> = Vec::new();

        // start bit: line low
        levels.push(false);

        // data bits, least significant first
        let mut i: u8 = 0;
        while i < 8
            invariant
                i <= 8,
                levels@.len() == i + 1,
                levels@[0] == false,
                forall|j: int|
                    1 <= j <= i ==> #[trigger] levels@[j] == (((byte >> ((j - 1) as u8)) & 1)
                        != 0),
            decreases 8 - i,
        {
            levels.push(((byte >> i) & 1) != 0);
            i = i + 1;
        }

        // stop bit: line high
        levels.push(true);

        levels
    }

    /// Processor cycles one bit is held for.
    pub fn get_cycles_per_bit(&self) -> (r: u32)
        ensures
            r == self.cycles_per_bit,
    {
        self.cycles_per_bit
    }
}

} // verus!
