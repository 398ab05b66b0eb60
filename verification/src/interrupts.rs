//! Interrupt vector numbers behind the two chained interrupt controllers.

use vstd::prelude::*;

verus! {

/// First vector of the primary interrupt controller.
pub const PIC_1_OFFSET: u8 = 32;

/// First vector of the secondary interrupt controller.
pub const PIC_2_OFFSET: u8 = 40;

/// An interrupt, by the line it arrives on.
#[derive(Clone, Copy, Debug, PartialEq, Eq, Structural)]
pub enum InterruptIndex {
    Timer,
}

impl InterruptIndex {
    /// The vector number: the line's place behind the primary controller.
    pub open spec fn spec_vector(self) -> u8 {
        match self {
            InterruptIndex::Timer => PIC_1_OFFSET,
        }
    }

    pub fn as_u8(self) -> (v: u8)
        ensures
            v == self.spec_vector(),
            PIC_1_OFFSET <= v < PIC_2_OFFSET,
    {
        match self {
            InterruptIndex::Timer => PIC_1_OFFSET,
        }
    }

    pub fn as_usize(self) -> (v: usize)
        ensures
            v == self.spec_vector(),
    {
        self.as_u8() as usize
    }
}

} // verus!
