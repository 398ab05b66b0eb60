//! The serial console: the baud rate divisor and the bytes that stand for
//! characters on the line.

use vstd::prelude::*;

verus! {

pub const BAUD_RATE: usize = 115200;

pub const ASSUMED_CPU_CLOCK_FREQ: usize = 250_000_000;

/// The byte sent in place of a character that has no single-byte code.
pub const REPLACEMENT: u8 = 0x7E;

/// The code of the enter key.
pub const ENTER: u8 = 13;

/// The value of the baud rate register for a clock and a baud rate.
pub fn baud_register(clock: usize, baud: usize) -> (value: usize)
    requires
        baud > 0,
        clock / baud / 8 >= 1,
    ensures
        value == clock / baud / 8 - 1,
{
    clock / baud / 8 - 1
}

/// The baud rate register for the assumed clock and the console's rate.
pub fn default_baud_register() -> (value: usize)
    ensures
        value == 270,
{
    baud_register(ASSUMED_CPU_CLOCK_FREQ, BAUD_RATE)
}

/// The byte that is sent for a character: its own code up to 255, the
/// replacement character beyond.
pub open spec fn spec_byte_for(c: char) -> u8 {
    if c as u32 > 255 {
        REPLACEMENT
    } else {
        c as u8
    }
}

/// The byte that is sent for a character.
pub fn byte_for(c: char) -> (byte: u8)
    ensures
        byte == spec_byte_for(c),
{
    let point: u32 = c as u32;
    if point > 255 {
        REPLACEMENT
    } else {
        point as u8
    }
}

/// Whether a received character is the enter key.
pub fn is_enter(c: char) -> (r: bool)
    ensures
        r == (c as u32 == ENTER),
{
    c as u32 == 13
}

/// How many characters of `received` are read until enter has been read:
/// the place of the first enter key, counted from one, or nothing where
/// none was received.
pub fn chars_until_enter(received: &Vec<char>) -> (count: Option<usize>)
    ensures
        match count {
            Some(n) => 1 <= n <= received@.len() && received@[n - 1] as u32 == ENTER && forall|
                i: int,
            | 0 <= i < n - 1 ==> #[trigger] received@[i] as u32 != ENTER,
            None => forall|i: int| 0 <= i < received@.len() ==> #[trigger] received@[i] as u32 != ENTER,
        },
{
    let mut i: usize = 0;
    while i < received.len()
        invariant
            i <= received@.len(),
            forall|j: int| 0 <= j < i ==> #[trigger] received@[j] as u32 != ENTER,
        decreases received@.len() - i,
    {
        if is_enter(received[i]) {
            return Some(i + 1);
        }
        i = i + 1;
    }
    None
}

} // verus!
