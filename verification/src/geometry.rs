//! Table geometry: how many entries each level needs for a RAM extent.

use vstd::prelude::*;
use crate::granule::{Granule, LEVELS};

verus! {

/// The larger of two counts.
pub fn max(a: u64, b: u64) -> (r: u64)
    ensures
        r >= a,
        r >= b,
        r == a || r == b,
{
    if a < b {
        b
    } else {
        a
    }
}

/// The smaller of two counts.
pub fn min(a: u64, b: u64) -> (r: u64)
    ensures
        r <= a,
        r <= b,
        r == a || r == b,
{
    if a > b {
        b
    } else {
        a
    }
}

/// Entries of `coverage` bytes each that it takes to span `ram_extent`
/// bytes: the quotient rounded up.
pub open spec fn entries_needed(ram_extent: u64, coverage: u64) -> int {
    if ram_extent % coverage == 0 {
        ram_extent as int / coverage as int
    } else {
        ram_extent as int / coverage as int + 1
    }
}

/// The entry count of one level: the entries needed for the extent, at
/// least one and at most the hardware limit of the level.
pub open spec fn spec_size_for(granule: Granule, level: usize, ram_extent: u64) -> int {
    let needed = entries_needed(ram_extent, granule.spec_coverage(level));
    let limit = granule.spec_max_entries(level) as int;
    if needed < 1 {
        1
    } else if needed > limit {
        limit
    } else {
        needed
    }
}

/// Sizes one level for a RAM extent.
///
/// The count always lies between one and the level's hardware limit. It
/// spans the whole extent whenever the level can address the extent at its
/// hardware limit; beyond that the level is full and the levels above it
/// carry the rest.
pub fn size_for(granule: Granule, level: usize, ram_extent: u64) -> (n: usize)
    requires
        level < LEVELS,
    ensures
        n == spec_size_for(granule, level, ram_extent),
        1 <= n <= granule.spec_max_entries(level),
        ram_extent <= granule.spec_max_entries(level) * granule.spec_coverage(level) ==> n
            * granule.spec_coverage(level) >= ram_extent,
{
    let coverage: u64 = granule.coverage(level);
    let limit: usize = granule.max_entries(level);
    let whole: u64 = ram_extent / coverage;
    let needed: u64 = if ram_extent % coverage == 0 {
        whole
    } else {
        whole + 1
    };
    let n: u64 = min(max(needed, 1), limit as u64);
    proof {
        lemma_size_for_spans(granule, level, ram_extent);
    }
    n as usize
}

/// A level that can address the extent at its hardware limit is sized to
/// span it.
pub proof fn lemma_size_for_spans(granule: Granule, level: usize, ram_extent: u64)
    requires
        level < LEVELS,
    ensures
        1 <= spec_size_for(granule, level, ram_extent) <= granule.spec_max_entries(level),
        ram_extent <= granule.spec_max_entries(level) * granule.spec_coverage(level)
            ==> spec_size_for(granule, level, ram_extent) * granule.spec_coverage(level)
            >= ram_extent,
{
    let c = granule.spec_coverage(level) as int;
    let m = granule.spec_max_entries(level) as int;
    let r = ram_extent as int;
    let needed = entries_needed(ram_extent, granule.spec_coverage(level));
    assert(c > 0);
    assert(r == (r / c) * c + r % c) by {
        vstd::arithmetic::div_mod::lemma_fundamental_div_mod(r, c);
    }
    assert(needed * c >= r) by (nonlinear_arith)
        requires
            c > 0,
            r == (r / c) * c + r % c,
            0 <= r % c < c,
            needed == if r % c == 0 {
                r / c
            } else {
                r / c + 1
            },
    ;
    if r <= m * c && needed > m {
        assert(false) by (nonlinear_arith)
            requires
                c > 0,
                r <= m * c,
                needed > m,
                r == (r / c) * c + r % c,
                0 <= r % c < c,
                needed == if r % c == 0 {
                    r / c
                } else {
                    r / c + 1
                },
        ;
    }
}

/// A virtual address below the extent indexes every level within the
/// level's entry count: its quotient by the level's coverage, taken modulo
/// the level's hardware limit, and the quotient itself at a level that can
/// address the extent at its hardware limit.
pub proof fn lemma_index_in_range(granule: Granule, level: usize, ram_extent: u64, addr: u64)
    requires
        level < LEVELS,
        addr < ram_extent,
    ensures
        (addr as int / granule.spec_coverage(level) as int) % (granule.spec_max_entries(
            level,
        ) as int) < spec_size_for(granule, level, ram_extent),
        ram_extent <= granule.spec_max_entries(level) * granule.spec_coverage(level) ==> (addr as int
            / granule.spec_coverage(level) as int) < spec_size_for(granule, level, ram_extent),
{
    lemma_size_for_spans(granule, level, ram_extent);
    let c = granule.spec_coverage(level) as int;
    let m = granule.spec_max_entries(level) as int;
    let r = ram_extent as int;
    let a = addr as int;
    let needed = entries_needed(ram_extent, granule.spec_coverage(level));
    assert(c > 0 && m > 0);
    vstd::arithmetic::div_mod::lemma_fundamental_div_mod(r, c);
    vstd::arithmetic::div_mod::lemma_fundamental_div_mod(a, c);
    assert(a / c < needed) by (nonlinear_arith)
        requires
            c > 0,
            0 <= a < r,
            r == c * (r / c) + r % c,
            a == c * (a / c) + a % c,
            0 <= r % c < c,
            0 <= a % c < c,
            needed == if r % c == 0 {
                r / c
            } else {
                r / c + 1
            },
    ;
    assert(0 <= a / c) by (nonlinear_arith)
        requires
            c > 0,
            0 <= a,
    ;
    assert((a / c) % m <= a / c && (a / c) % m < m) by (nonlinear_arith)
        requires
            m > 0,
            0 <= a / c,
    ;
    if r <= m * c && needed > m {
        assert(false) by (nonlinear_arith)
            requires
                c > 0,
                r <= m * c,
                needed > m,
                r == c * (r / c) + r % c,
                0 <= r % c < c,
                needed == if r % c == 0 {
                    r / c
                } else {
                    r / c + 1
                },
        ;
    }
}

/// The entry counts of the four levels for one granule and RAM extent.
#[derive(Clone, Copy, Debug, PartialEq, Eq, Structural)]
pub struct Geometry {
    pub level0: usize,
    pub level1: usize,
    pub level2: usize,
    pub level3: usize,
}

impl Geometry {
    /// The entry count of `level`.
    pub open spec fn spec_entry_count(self, level: usize) -> usize {
        if level == 0 {
            self.level0
        } else if level == 1 {
            self.level1
        } else if level == 2 {
            self.level2
        } else {
            self.level3
        }
    }

    /// The counts that `size_for` gives for a granule and RAM extent.
    pub open spec fn spec_plan(granule: Granule, ram_extent: u64) -> Geometry {
        Geometry {
            level0: spec_size_for(granule, 0, ram_extent) as usize,
            level1: spec_size_for(granule, 1, ram_extent) as usize,
            level2: spec_size_for(granule, 2, ram_extent) as usize,
            level3: spec_size_for(granule, 3, ram_extent) as usize,
        }
    }

    /// Every count lies between one and the hardware limit of its level.
    pub open spec fn within_limits(self, granule: Granule) -> bool {
        forall|level: usize|
            level < LEVELS ==> 1 <= #[trigger] self.spec_entry_count(level)
                <= granule.spec_max_entries(level)
    }

    /// Entries that a level holds over all of its tables: each table of a
    /// level has one child table per entry, so the counts multiply downwards.
    pub open spec fn spec_entries(self, level: usize) -> int {
        if level == 0 {
            self.level0 as int
        } else if level == 1 {
            self.level0 * self.level1
        } else if level == 2 {
            self.level0 * self.level1 * self.level2
        } else {
            self.level0 * self.level1 * self.level2 * self.level3
        }
    }

    /// Tables that a level holds: one at level 0, and below it one per
    /// entry of the level above.
    pub open spec fn spec_tables(self, level: usize) -> int {
        if level == 0 {
            1
        } else {
            self.spec_entries((level - 1) as usize)
        }
    }

    /// Tables that precede the first table of `level` in the store.
    pub open spec fn spec_first_table(self, level: usize) -> int {
        if level == 0 {
            0
        } else if level == 1 {
            1
        } else if level == 2 {
            1 + self.level0
        } else {
            1 + self.level0 + self.level0 * self.level1
        }
    }

    /// Tables of all four levels together.
    pub open spec fn spec_total_tables(self) -> int {
        1 + self.level0 + self.level0 * self.level1 + self.level0 * self.level1 * self.level2
    }

    /// Sizes all four levels for a RAM extent.
    pub fn plan(granule: Granule, ram_extent: u64) -> (g: Geometry)
        ensures
            g == Self::spec_plan(granule, ram_extent),
            g.within_limits(granule),
    {
        Geometry {
            level0: size_for(granule, 0, ram_extent),
            level1: size_for(granule, 1, ram_extent),
            level2: size_for(granule, 2, ram_extent),
            level3: size_for(granule, 3, ram_extent),
        }
    }

    /// Within the hardware limits the entry totals grow downwards and stay
    /// below 2^52, and the store holds fewer than 2^40 tables.
    pub proof fn lemma_entries_bounded(self, granule: Granule)
        requires
            self.within_limits(granule),
        ensures
            1 <= self.spec_entries(0) <= self.spec_entries(1) <= self.spec_entries(2)
                <= self.spec_entries(3) <= 0x10_0000_0000_0000,
            self.spec_entries(0) <= 0x2000,
            self.spec_entries(1) <= 0x400_0000,
            self.spec_entries(2) <= 0x80_0000_0000,
            1 <= self.spec_total_tables() < 0x100_0000_0000,
    {
        let n0 = self.level0 as int;
        let n1 = self.level1 as int;
        let n2 = self.level2 as int;
        let n3 = self.level3 as int;
        assert(1 <= self.spec_entry_count(0) <= granule.spec_max_entries(0));
        assert(1 <= self.spec_entry_count(1) <= granule.spec_max_entries(1));
        assert(1 <= self.spec_entry_count(2) <= granule.spec_max_entries(2));
        assert(1 <= self.spec_entry_count(3) <= granule.spec_max_entries(3));
        assert(n0 <= n0 * n1 <= 0x2000 * 0x2000) by (nonlinear_arith)
            requires
                1 <= n0 <= 0x2000,
                1 <= n1 <= 0x2000,
        ;
        let c1 = n0 * n1;
        assert(c1 <= c1 * n2 <= 0x400_0000 * 0x2000) by (nonlinear_arith)
            requires
                1 <= c1 <= 0x400_0000,
                1 <= n2 <= 0x2000,
        ;
        let c2 = c1 * n2;
        assert(c2 <= c2 * n3 <= 0x80_0000_0000 * 0x2000) by (nonlinear_arith)
            requires
                1 <= c2 <= 0x80_0000_0000,
                1 <= n3 <= 0x2000,
        ;
    }

    pub fn entry_count(&self, level: usize) -> (n: usize)
        requires
            level < LEVELS,
        ensures
            n == self.spec_entry_count(level),
    {
        match level {
            0 => self.level0,
            1 => self.level1,
            2 => self.level2,
            _ => self.level3,
        }
    }
}

} // verus!

verus! {

/// Numbering entries across the tables of a level: entry `j` of table `i`,
/// where every table has `m` entries and there are `n` tables, has a number
/// below `n * m`.
pub proof fn lemma_flat_bound(i: int, n: int, j: int, m: int)
    requires
        0 <= i < n,
        0 <= j < m,
    ensures
        0 <= i * m + j < n * m,
        i * m + m == (i + 1) * m,
        (i + 1) * m <= n * m,
        (i * m + j) / m == i,
        (i * m + j) % m == j,
{
    assert(0 <= i * m && i * m + m == (i + 1) * m && (i + 1) * m <= n * m) by (nonlinear_arith)
        requires
            0 <= i < n,
            0 < m,
    ;
    vstd::arithmetic::div_mod::lemma_fundamental_div_mod_converse(i * m + j, m, i, j);
}

} // verus!
