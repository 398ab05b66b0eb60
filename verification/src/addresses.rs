//! Peripheral addresses: the bus addresses of the data sheet and the
//! physical addresses behind them lie a fixed distance apart.

use vstd::prelude::*;

verus! {

/// Distance between a peripheral's bus address and its physical address.
pub const PERIPHERAL_OFFSET: usize = 0x3f00_0000;

/// The physical address of a bus address: bus address `0x7e00beef` lies at
/// physical address `0x3f00beef`.
pub fn bus_to_phys(addr: usize) -> (phys: usize)
    requires
        addr >= PERIPHERAL_OFFSET,
    ensures
        phys == addr - PERIPHERAL_OFFSET,
{
    addr - PERIPHERAL_OFFSET
}

/// The bus address of a physical address.
pub fn phys_to_bus(base: usize) -> (bus: usize)
    requires
        base + PERIPHERAL_OFFSET <= usize::MAX,
    ensures
        bus == base + PERIPHERAL_OFFSET,
{
    base + PERIPHERAL_OFFSET
}

/// The physical address of a bus address, or nothing for an address below
/// the peripheral range.
pub fn checked_bus_to_phys(addr: usize) -> (phys: Option<usize>)
    ensures
        phys == if addr >= PERIPHERAL_OFFSET {
            Some((addr - PERIPHERAL_OFFSET) as usize)
        } else {
            None
        },
{
    if addr >= PERIPHERAL_OFFSET {
        Some(bus_to_phys(addr))
    } else {
        None
    }
}

/// Round trip: a physical address is recovered from its bus address.
pub proof fn lemma_bus_round_trip(base: usize)
    requires
        base + PERIPHERAL_OFFSET <= usize::MAX,
    ensures
        (base + PERIPHERAL_OFFSET) - PERIPHERAL_OFFSET == base,
{
}

} // verus!
