//! Bring-up support for a bare-metal AArch64 kernel.
//!
//! The core is the virtual-memory subsystem: the shape that a translation
//! granule gives the tables ([`granule`]), the entry counts for a RAM
//! extent ([`geometry`]), the placement of the tables in memory
//! ([`layout`]), the two descriptor encodings ([`descriptor`]), the store
//! with its populator, software table walk and self-checks ([`table`]),
//! what holds of a populated store ([`mapping`]), and the sequence that
//! enables translation ([`enable`]).
//!
//! Around it stand the decisions of the drivers that the kernel brings up
//! first: the serial console ([`uart`]), the mailbox to the firmware
//! ([`mailbox`], [`tags`]), the text log on the frame buffer
//! ([`text_log`]), the classic text screen ([`vga_text`]), exception
//! syndromes ([`exceptions`]), interrupt vectors ([`interrupts`]), the
//! counter ([`time`]) and peripheral addresses ([`addresses`]).
//!
//! Nothing here touches hardware. The caller reads and writes registers
//! and memory and hands plain values in and out.

pub mod addresses;
pub mod bits;
pub mod descriptor;
pub mod enable;
pub mod exceptions;
pub mod geometry;
pub mod granule;
pub mod interrupts;
pub mod layout;
pub mod mailbox;
pub mod mapping;
pub mod table;
pub mod tags;
pub mod text_log;
pub mod time;
pub mod uart;
pub mod units;
pub mod vga_text;
