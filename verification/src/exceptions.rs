//! Decoding the exception syndrome: the exception class, and for a data
//! abort the cause that the upper syndrome bits name.

use vstd::prelude::*;
use bit_field::BitField;
use crate::bits::extract;

verus! {

/// Lowest and highest bit of the exception class in the syndrome value.
pub const CLASS_LO: usize = 26;

pub const CLASS_HI: usize = 31;

/// Lowest and highest bit of the upper syndrome field.
pub const ISS2_LO: usize = 32;

pub const ISS2_HI: usize = 55;

/// Exception class of a data abort taken from a lower exception level.
pub const DATA_ABORT_LOWER_EL: u64 = 0x24;

/// Exception class of a data abort taken without a change of level.
pub const DATA_ABORT_CURRENT_EL: u64 = 0x25;

/// How the processor came to the handler.
#[derive(Clone, Copy, Debug, PartialEq, Eq, Structural)]
pub enum InterruptType {
    Interrupt,
    Exception,
}

/// The registers that the entry code saves, in the order in which it
/// stores them.
#[derive(Clone, Copy, Debug, PartialEq, Eq, Structural)]
pub struct InterruptFrame {
    pub x0: u64,
    pub x1: u64,
    pub x2: u64,
    pub x3: u64,
    pub x4: u64,
    pub x5: u64,
    pub x6: u64,
    pub x7: u64,
    pub x8: u64,
    pub x9: u64,
    pub x10: u64,
    pub x11: u64,
    pub x12: u64,
    pub x13: u64,
    pub x14: u64,
    pub x15: u64,
    pub x16: u64,
    pub x17: u64,
    pub x18: u64,
    pub fp: u64,
    pub lr: u64,
    pub xzr: u64,
    pub esr: u64,
    pub far: u64,
}

/// What the upper syndrome bits say of a data abort.
#[derive(Clone, Copy, Debug, PartialEq, Eq, Structural)]
pub enum DataAbortCause {
    AllocTagWrite,
    GaurdedStackAccess,
    OverlayPermissions,
    DirtyBit,
}

impl DataAbortCause {
    /// The value of the upper syndrome field that names the cause.
    pub open spec fn spec_code(self) -> u64 {
        match self {
            DataAbortCause::AllocTagWrite => 0x400,
            DataAbortCause::GaurdedStackAccess => 0x100,
            DataAbortCause::OverlayPermissions => 0x40,
            DataAbortCause::DirtyBit => 0x20,
        }
    }

    /// The cause that a value of the upper syndrome field names, if it
    /// names exactly one.
    pub open spec fn spec_from_code(code: u64) -> Option<DataAbortCause> {
        if code == 0x400 {
            Some(DataAbortCause::AllocTagWrite)
        } else if code == 0x100 {
            Some(DataAbortCause::GaurdedStackAccess)
        } else if code == 0x40 {
            Some(DataAbortCause::OverlayPermissions)
        } else if code == 0x20 {
            Some(DataAbortCause::DirtyBit)
        } else {
            None
        }
    }

    pub fn code(self) -> (code: u64)
        ensures
            code == self.spec_code(),
            Self::spec_from_code(code) == Some(self),
    {
        match self {
            DataAbortCause::AllocTagWrite => 0x400,
            DataAbortCause::GaurdedStackAccess => 0x100,
            DataAbortCause::OverlayPermissions => 0x40,
            DataAbortCause::DirtyBit => 0x20,
        }
    }

    pub fn from_code(code: u64) -> (cause: Option<DataAbortCause>)
        ensures
            cause == Self::spec_from_code(code),
    {
        match code {
            0x400 => Some(DataAbortCause::AllocTagWrite),
            0x100 => Some(DataAbortCause::GaurdedStackAccess),
            0x40 => Some(DataAbortCause::OverlayPermissions),
            0x20 => Some(DataAbortCause::DirtyBit),
            _ => None,
        }
    }
}

/// `bit_field::BitField::get_bits` on a `u64` with the inclusive range
/// `lo..=hi`: the bits of the range, moved down to bit 0. The crate panics
/// on a range that leaves the 64 bits or ends before it starts; such
/// ranges are excluded.
#[verifier::external_body]
fn get_bits(value: u64, lo: usize, hi: usize) -> (bits: u64)
    requires
        lo <= hi < 64,
    ensures
        bits == extract(value, lo as u64, hi as u64),
{
    value.get_bits(lo..=hi)
}

/// A value of the exception syndrome register.
#[derive(Clone, Copy, Debug, PartialEq, Eq, Structural)]
pub struct ExceptionCause(pub u64);

/// What the handler reports of an exception.
#[derive(Clone, Copy, Debug, PartialEq, Eq, Structural)]
pub enum ExceptionReport {
    /// A data abort without a change of level: the kernel faulted on a
    /// page, for the cause given where the syndrome names one.
    PageFault(Option<DataAbortCause>),
    /// Any other exception class, which the handler does not handle.
    Unhandled(u64),
}

impl ExceptionCause {
    /// The exception class: bits 26..=31.
    pub open spec fn spec_class(self) -> u64 {
        extract(self.0, 26, 31)
    }

    /// The upper syndrome field: bits 32..=55.
    pub open spec fn spec_iss2(self) -> u64 {
        extract(self.0, 32, 55)
    }

    /// The cause of a data abort; nothing for another exception class and
    /// for a field value that names no single cause.
    pub open spec fn spec_data_abort_cause(self) -> Option<DataAbortCause> {
        if self.spec_class() == DATA_ABORT_CURRENT_EL || self.spec_class() == DATA_ABORT_LOWER_EL {
            DataAbortCause::spec_from_code(self.spec_iss2())
        } else {
            None
        }
    }

    pub open spec fn spec_report(self) -> ExceptionReport {
        if self.spec_class() == DATA_ABORT_CURRENT_EL {
            ExceptionReport::PageFault(self.spec_data_abort_cause())
        } else {
            ExceptionReport::Unhandled(self.spec_class())
        }
    }

    /// Wraps a value read from the syndrome register.
    pub fn new(syndrome: u64) -> (cause: Self)
        ensures
            cause.0 == syndrome,
    {
        ExceptionCause(syndrome)
    }

    /// The exception class.
    pub fn get_cause(&self) -> (class: u64)
        ensures
            class == self.spec_class(),
    {
        get_bits(self.0, CLASS_LO, CLASS_HI)
    }

    /// The cause of a data abort; nothing for another exception class and
    /// for an upper syndrome field that names no single cause.
    pub fn get_data_abort_cause(&self) -> (cause: Option<DataAbortCause>)
        ensures
            cause == self.spec_data_abort_cause(),
    {
        let class: u64 = self.get_cause();
        if !(class == DATA_ABORT_CURRENT_EL || class == DATA_ABORT_LOWER_EL) {
            return None;
        }
        let iss2: u64 = get_bits(self.0, ISS2_LO, ISS2_HI);
        DataAbortCause::from_code(iss2)
    }

    /// What the handler reports: a page fault with its cause for a data
    /// abort without a change of level, and the class of anything else.
    pub fn report(&self) -> (r: ExceptionReport)
        ensures
            r == self.spec_report(),
    {
        let class: u64 = self.get_cause();
        if class == DATA_ABORT_CURRENT_EL {
            ExceptionReport::PageFault(self.get_data_abort_cause())
        } else {
            ExceptionReport::Unhandled(class)
        }
    }
}

} // verus!
