//! Translation granules and the table shape each one fixes: page size,
//! per-level entry limits, per-level coverage and the bits of a virtual
//! address that index each level.

use vstd::prelude::*;
use crate::bits::{extract, extract_bits};

verus! {

/// Number of translation-table levels, numbered 0 (top) to 3 (leaf).
pub const LEVELS: usize = 4;

/// Width of the input and output address space that the tables describe.
pub const ADDRESS_BITS: u64 = 48;

/// First address beyond the 48-bit address space.
pub const ADDRESS_SPACE: u64 = 0x1_0000_0000_0000;

/// The page size that governs how an address is split into table indices.
#[derive(Clone, Copy, Debug, PartialEq, Eq, Structural)]
pub enum Granule {
    /// 4 KiB pages, four levels of 512 entries.
    Kib4,
    /// 64 KiB pages; level 0 is a single entry and levels 1 to 3 hold 64,
    /// 8192 and 8192 entries.
    Kib64,
}

impl Granule {
    /// Number of address bits below a page boundary.
    pub open spec fn spec_page_bits(self) -> u64 {
        match self {
            Granule::Kib4 => 12,
            Granule::Kib64 => 16,
        }
    }

    /// Size of a page, and of one table, in bytes.
    pub open spec fn spec_page_size(self) -> u64 {
        match self {
            Granule::Kib4 => 0x1000,
            Granule::Kib64 => 0x1_0000,
        }
    }

    /// Most entries that the hardware allows in a table of `level`.
    pub open spec fn spec_max_entries(self, level: usize) -> usize {
        match self {
            Granule::Kib4 => 512,
            Granule::Kib64 => if level == 0 {
                1
            } else if level == 1 {
                64
            } else {
                8192
            },
        }
    }

    /// Base-two logarithm of the bytes that one entry of `level` covers.
    pub open spec fn spec_shift(self, level: usize) -> u64 {
        match self {
            Granule::Kib4 => if level == 0 {
                39
            } else if level == 1 {
                30
            } else if level == 2 {
                21
            } else {
                12
            },
            Granule::Kib64 => if level == 0 {
                48
            } else if level == 1 {
                42
            } else if level == 2 {
                29
            } else {
                16
            },
        }
    }

    /// Bytes of address space that one entry of `level` covers.
    pub open spec fn spec_coverage(self, level: usize) -> u64 {
        match self {
            Granule::Kib4 => if level == 0 {
                0x80_0000_0000
            } else if level == 1 {
                0x4000_0000
            } else if level == 2 {
                0x20_0000
            } else {
                0x1000
            },
            Granule::Kib64 => if level == 0 {
                0x1_0000_0000_0000
            } else if level == 1 {
                0x400_0000_0000
            } else if level == 2 {
                0x2000_0000
            } else {
                0x1_0000
            },
        }
    }

    /// The inclusive bit range `(lo, hi)` of a virtual address that holds
    /// the index into a table of `level`, or nothing where the level is
    /// skipped.
    ///
    /// With 64 KiB pages the walk starts at level 1: level 0 is a single
    /// entry that every address passes through, and no bit of the address
    /// selects it. The range of the first indexed level reaches up to bit
    /// 63, so that an address beyond the 48-bit address space has an index
    /// beyond every entry count.
    pub open spec fn spec_index_range(self, level: usize) -> Option<(u64, u64)> {
        match self {
            Granule::Kib4 => if level == 0 {
                Some((39u64, 63u64))
            } else if level == 1 {
                Some((30u64, 38u64))
            } else if level == 2 {
                Some((21u64, 29u64))
            } else {
                Some((12u64, 20u64))
            },
            Granule::Kib64 => if level == 0 {
                None
            } else if level == 1 {
                Some((42u64, 63u64))
            } else if level == 2 {
                Some((29u64, 41u64))
            } else {
                Some((16u64, 28u64))
            },
        }
    }

    /// Whether the walk passes through `level` without reading the address:
    /// level 0 with 64 KiB pages, which has a single entry.
    pub open spec fn spec_skipped(self, level: usize) -> bool {
        self.spec_index_range(level) is None
    }

    /// Whether `level` is the first level that the address indexes: level
    /// 0 with 4 KiB pages, level 1 with 64 KiB pages.
    pub open spec fn spec_first_indexed(self, level: usize) -> bool {
        match self {
            Granule::Kib4 => level == 0,
            Granule::Kib64 => level == 1,
        }
    }

    /// The index into a table of `level` that a virtual address selects:
    /// the bits of the level's range, and 0 where the level is skipped.
    pub open spec fn spec_index_of(self, level: usize, addr: u64) -> u64 {
        match self.spec_index_range(level) {
            Some((lo, hi)) => extract(addr, lo, hi),
            None => 0,
        }
    }

    /// The start of the page that holds an address: the address with its
    /// page-offset bits cleared.
    pub open spec fn spec_page_base(self, addr: u64) -> u64 {
        match self {
            Granule::Kib4 => addr & 0xFFFF_FFFF_FFFF_F000,
            Granule::Kib64 => addr & 0xFFFF_FFFF_FFFF_0000,
        }
    }

    /// Whether a RAM extent lies within the 48-bit address space, which is
    /// what the first indexed level can address at its hardware limit, so
    /// that a geometry sized for the extent maps all of it.
    pub open spec fn spec_can_cover(self, ram_extent: u64) -> bool {
        ram_extent <= ADDRESS_SPACE
    }

    pub fn page_bits(self) -> (r: u64)
        ensures
            r == self.spec_page_bits(),
    {
        match self {
            Granule::Kib4 => 12,
            Granule::Kib64 => 16,
        }
    }

    pub fn page_size(self) -> (r: u64)
        ensures
            r == self.spec_page_size(),
    {
        match self {
            Granule::Kib4 => 0x1000,
            Granule::Kib64 => 0x1_0000,
        }
    }

    pub fn max_entries(self, level: usize) -> (r: usize)
        requires
            level < LEVELS,
        ensures
            r == self.spec_max_entries(level),
    {
        match self {
            Granule::Kib4 => 512,
            Granule::Kib64 => match level {
                0 => 1,
                1 => 64,
                _ => 8192,
            },
        }
    }

    pub fn shift(self, level: usize) -> (r: u64)
        requires
            level < LEVELS,
        ensures
            r == self.spec_shift(level),
    {
        match self {
            Granule::Kib4 => match level {
                0 => 39,
                1 => 30,
                2 => 21,
                _ => 12,
            },
            Granule::Kib64 => match level {
                0 => 48,
                1 => 42,
                2 => 29,
                _ => 16,
            },
        }
    }

    pub fn coverage(self, level: usize) -> (r: u64)
        requires
            level < LEVELS,
        ensures
            r == self.spec_coverage(level),
    {
        match self {
            Granule::Kib4 => match level {
                0 => 0x80_0000_0000,
                1 => 0x4000_0000,
                2 => 0x20_0000,
                _ => 0x1000,
            },
            Granule::Kib64 => match level {
                0 => 0x1_0000_0000_0000,
                1 => 0x400_0000_0000,
                2 => 0x2000_0000,
                _ => 0x1_0000,
            },
        }
    }

    /// The inclusive bit range `(lo, hi)` of a virtual address that holds
    /// the index into a table of `level`, or nothing where the level is
    /// skipped.
    pub fn index_range(self, level: usize) -> (r: Option<(u64, u64)>)
        requires
            level < LEVELS,
        ensures
            r == self.spec_index_range(level),
            r is None <==> self == Granule::Kib64 && level == 0,
            r is Some ==> r.unwrap().0 == self.spec_shift(level) && r.unwrap().0 <= r.unwrap().1
                < 64 && r.unwrap().0 < ADDRESS_BITS,
    {
        match self {
            Granule::Kib4 => match level {
                0 => Some((39, 63)),
                1 => Some((30, 38)),
                2 => Some((21, 29)),
                _ => Some((12, 20)),
            },
            Granule::Kib64 => match level {
                0 => None,
                1 => Some((42, 63)),
                2 => Some((29, 41)),
                _ => Some((16, 28)),
            },
        }
    }

    /// The index into a table of `level` that a virtual address selects.
    ///
    /// The page-offset bits of the address take no part in it. For an
    /// address at or beyond 2^48 the index of the first indexed level is
    /// at least that level's hardware limit.
    pub fn index_of(self, level: usize, addr: u64) -> (i: u64)
        requires
            level < LEVELS,
        ensures
            i == self.spec_index_of(level, addr),
            i == self.spec_index_of(level, self.spec_page_base(addr)),
            self.spec_skipped(level) ==> i == 0,
            addr >= ADDRESS_SPACE && self.spec_first_indexed(level) ==> i >= self.spec_max_entries(
                level,
            ),
    {
        proof {
            self.lemma_index_ignores_page_offset(level, addr);
            self.lemma_index_is_quotient(level, addr);
        }
        match self.index_range(level) {
            Some((lo, hi)) => extract_bits(addr, lo, hi),
            None => 0,
        }
    }

    /// The start of the page that holds an address.
    pub fn page_base(self, addr: u64) -> (base: u64)
        ensures
            base == self.spec_page_base(addr),
            base == addr - addr % self.spec_page_size(),
    {
        proof {
            self.lemma_page_base(addr);
        }
        match self {
            Granule::Kib4 => addr & 0xFFFF_FFFF_FFFF_F000,
            Granule::Kib64 => addr & 0xFFFF_FFFF_FFFF_0000,
        }
    }

    /// Whether the tables of this granule can map a RAM extent in full.
    pub fn can_cover(self, ram_extent: u64) -> (r: bool)
        ensures
            r == self.spec_can_cover(ram_extent),
    {
        ram_extent <= ADDRESS_SPACE
    }

    /// The shape is consistent: an entry above the leaf covers exactly what
    /// a full table of the next level covers, and a leaf entry covers one
    /// page.
    pub proof fn lemma_coverage_chain(self, level: usize)
        requires
            level < LEVELS,
        ensures
            level < 3 ==> self.spec_coverage(level) == self.spec_max_entries((level + 1) as usize)
                * self.spec_coverage((level + 1) as usize),
            level == 3 ==> self.spec_coverage(level) == self.spec_page_size(),
    {
        if level == 0 {
            assert(self.spec_coverage(0) == self.spec_max_entries(1) * self.spec_coverage(1));
        } else if level == 1 {
            assert(self.spec_coverage(1) == self.spec_max_entries(2) * self.spec_coverage(2));
        } else if level == 2 {
            assert(self.spec_coverage(2) == self.spec_max_entries(3) * self.spec_coverage(3));
        }
    }

    /// An entry's coverage is two to the power of its shift, and a page is
    /// two to the power of the page bits.
    pub proof fn lemma_coverage_is_power_of_two(self, level: usize)
        requires
            level < LEVELS,
        ensures
            self.spec_coverage(level) == 1u64 << self.spec_shift(level),
            self.spec_page_size() == 1u64 << self.spec_page_bits(),
            self.spec_shift(3) == self.spec_page_bits(),
    {
        assert(1u64 << 39u64 == 0x80_0000_0000u64 && 1u64 << 30u64 == 0x4000_0000u64 && 1u64
            << 21u64 == 0x20_0000u64 && 1u64 << 12u64 == 0x1000u64) by (bit_vector);
        assert(1u64 << 48u64 == 0x1_0000_0000_0000u64 && 1u64 << 42u64 == 0x400_0000_0000u64 && 1u64
            << 29u64 == 0x2000_0000u64 && 1u64 << 16u64 == 0x1_0000u64) by (bit_vector);
    }

    /// An extent can be covered exactly when the first indexed level can
    /// address it at its hardware limit, and when level 0 can.
    pub proof fn lemma_can_cover(self, ram_extent: u64)
        ensures
            self.spec_can_cover(ram_extent) == (ram_extent <= self.spec_max_entries(0)
                * self.spec_coverage(0)),
            self.spec_first_indexed(0) ==> self.spec_max_entries(0) * self.spec_coverage(0)
                == ADDRESS_SPACE,
            self.spec_first_indexed(1) ==> self.spec_max_entries(1) * self.spec_coverage(1)
                == ADDRESS_SPACE,
    {
        match self {
            Granule::Kib4 => {
                assert(512 * 0x80_0000_0000 == 0x1_0000_0000_0000);
                assert(self.spec_max_entries(0) * self.spec_coverage(0) == 0x1_0000_0000_0000);
            },
            Granule::Kib64 => {
                assert(64 * 0x400_0000_0000 == 0x1_0000_0000_0000);
                assert(self.spec_max_entries(0) * self.spec_coverage(0) == 0x1_0000_0000_0000);
                assert(self.spec_max_entries(1) * self.spec_coverage(1) == 0x1_0000_0000_0000);
            },
        }
    }

    /// The start of a page is the address less its remainder modulo the
    /// page size, and is the start of its own page.
    pub proof fn lemma_page_base(self, addr: u64)
        ensures
            self.spec_page_base(addr) == addr - addr % self.spec_page_size(),
            self.spec_page_base(addr) % self.spec_page_size() == 0,
            self.spec_page_base(self.spec_page_base(addr)) == self.spec_page_base(addr),
            addr % self.spec_page_size() == 0 ==> self.spec_page_base(addr) == addr,
    {
        assert(addr & 0xFFFF_FFFF_FFFF_F000 == addr - addr % 0x1000 && (addr
            & 0xFFFF_FFFF_FFFF_F000) % 0x1000 == 0 && (addr & 0xFFFF_FFFF_FFFF_F000)
            & 0xFFFF_FFFF_FFFF_F000 == addr & 0xFFFF_FFFF_FFFF_F000 && addr
            & 0xFFFF_FFFF_FFFF_0000 == addr - addr % 0x1_0000 && (addr & 0xFFFF_FFFF_FFFF_0000)
            % 0x1_0000 == 0 && (addr & 0xFFFF_FFFF_FFFF_0000) & 0xFFFF_FFFF_FFFF_0000 == addr
            & 0xFFFF_FFFF_FFFF_0000) by (bit_vector);
    }

    /// The page-offset bits of an address take no part in any index: an
    /// address and the start of its page select the same entry at every
    /// level.
    pub proof fn lemma_index_ignores_page_offset(self, level: usize, addr: u64)
        requires
            level < LEVELS,
        ensures
            self.spec_index_of(level, addr) == self.spec_index_of(
                level,
                self.spec_page_base(addr),
            ),
    {
        match self {
            Granule::Kib4 => {
                let base = addr & 0xFFFF_FFFF_FFFF_F000;
                assert(extract(addr, 39, 63) == extract(base, 39, 63) && extract(addr, 30, 38)
                    == extract(base, 30, 38) && extract(addr, 21, 29) == extract(base, 21, 29)
                    && extract(addr, 12, 20) == extract(base, 12, 20)) by (bit_vector)
                    requires
                        base == addr & 0xFFFF_FFFF_FFFF_F000,
                ;
            },
            Granule::Kib64 => {
                let base = addr & 0xFFFF_FFFF_FFFF_0000;
                assert(extract(addr, 42, 63) == extract(base, 42, 63) && extract(addr, 29, 41)
                    == extract(base, 29, 41) && extract(addr, 16, 28) == extract(base, 16, 28))
                    by (bit_vector)
                    requires
                        base == addr & 0xFFFF_FFFF_FFFF_0000,
                ;
            },
        }
    }

    /// What the index is in numbers: the address divided by the level's
    /// coverage, taken modulo the level's hardware limit below the first
    /// indexed level, and 0 where the level is skipped.
    pub proof fn lemma_index_is_quotient(self, level: usize, addr: u64)
        requires
            level < LEVELS,
        ensures
            self.spec_skipped(level) ==> self.spec_index_of(level, addr) == 0,
            self.spec_first_indexed(level) ==> self.spec_index_of(level, addr) == addr as int
                / self.spec_coverage(level) as int,
            !self.spec_skipped(level) && !self.spec_first_indexed(level) ==> self.spec_index_of(
                level,
                addr,
            ) == (addr as int / self.spec_coverage(level) as int) % (self.spec_max_entries(
                level,
            ) as int),
            addr >= ADDRESS_SPACE && self.spec_first_indexed(level) ==> self.spec_index_of(
                level,
                addr,
            ) >= self.spec_max_entries(level),
    {
        match self {
            Granule::Kib4 => {
                assert(extract(addr, 39, 63) == addr / 0x80_0000_0000u64 && extract(addr, 30, 38) == (
                addr / 0x4000_0000u64) % 512u64 && extract(addr, 21, 29) == (addr / 0x20_0000u64)
                    % 512u64 && extract(addr, 12, 20) == (addr / 0x1000u64) % 512u64 && (addr
                    >= 0x1_0000_0000_0000u64 ==> extract(addr, 39, 63) >= 512)) by (bit_vector);
            },
            Granule::Kib64 => {
                assert(extract(addr, 42, 63) == addr / 0x400_0000_0000u64 && extract(addr, 29, 41)
                    == (addr / 0x2000_0000u64) % 8192u64 && extract(addr, 16, 28) == (addr
                    / 0x1_0000u64) % 8192u64 && (addr >= 0x1_0000_0000_0000u64 ==> extract(
                    addr,
                    42,
                    63,
                ) >= 64)) by (bit_vector);
            },
        }
    }
}

} // verus!
