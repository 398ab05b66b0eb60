//! Binary size units, in bytes.

use vstd::prelude::*;

verus! {

pub const KIB: u64 = 0x400;

pub const MIB: u64 = 0x10_0000;

pub const GIB: u64 = 0x4000_0000;

pub const TIB: u64 = 0x100_0000_0000;

} // verus!
