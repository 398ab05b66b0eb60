//! Where the tables of the store lie: the granule, the RAM extent, the
//! geometry planned for them and the address of the first table.
//!
//! Every table occupies one page. The level 0 table comes first; the tables
//! of each further level follow those of the level above, in the order of
//! the entries that refer to them. Entries of a level are numbered across
//! its tables, so that entry `n` of a level above the leaf refers to table
//! `n` of the next level.

use vstd::prelude::*;
use crate::descriptor::{lemma_storable_is_aligned, spec_page_word, spec_table_word, storable};
use crate::geometry::{lemma_flat_bound, Geometry};
use crate::granule::{Granule, ADDRESS_SPACE, LEVELS};

verus! {

/// The placement of a translation-table store in physical memory.
#[derive(Clone, Copy, Debug, PartialEq, Eq, Structural)]
pub struct Layout {
    pub granule: Granule,
    pub ram_extent: u64,
    pub geometry: Geometry,
    pub base: u64,
}

/// Whether a store of the given geometry can be placed at `base`: the
/// address is page-aligned, every table lies below 2^48, and the leaf
/// entries can be counted in a `usize`.
pub open spec fn spec_geometry_fits(granule: Granule, geometry: Geometry, base: u64) -> bool {
    &&& base % granule.spec_page_size() == 0
    &&& base + granule.spec_page_size() * geometry.spec_total_tables() <= ADDRESS_SPACE
    &&& geometry.spec_entries(3) <= usize::MAX
}

/// Whether a store with the geometry planned for the granule and extent
/// can be placed at `base`.
pub open spec fn spec_fits(granule: Granule, ram_extent: u64, base: u64) -> bool {
    spec_geometry_fits(granule, Geometry::spec_plan(granule, ram_extent), base)
}

/// The physical address that the leaf entry with the given indices maps:
/// each index shifted to the place of its level.
pub open spec fn spec_phys(granule: Granule, i0: u64, i1: u64, i2: u64, i3: u64) -> u64 {
    (i0 << granule.spec_shift(0)) | (i1 << granule.spec_shift(1)) | (i2 << granule.spec_shift(2))
        | (i3 << granule.spec_shift(3))
}

impl Layout {
    /// Every level keeps within its hardware limit, and the store fits at
    /// the base address.
    pub open spec fn wf(self) -> bool {
        &&& self.geometry.within_limits(self.granule)
        &&& spec_geometry_fits(self.granule, self.geometry, self.base)
    }

    /// The geometry is the one planned for the granule and the RAM extent.
    pub open spec fn planned(self) -> bool {
        self.geometry == Geometry::spec_plan(self.granule, self.ram_extent)
    }

    /// Address of table `table` of `level`.
    pub open spec fn spec_table_addr(self, level: usize, table: int) -> int {
        self.base + self.granule.spec_page_size() * (self.geometry.spec_first_table(level) + table)
    }

    /// Address of the child table that entry `entry` of a level above the
    /// leaf refers to: the table with the entry's number on the next level.
    pub open spec fn spec_child_addr(self, level: usize, entry: int) -> int {
        self.spec_table_addr((level + 1) as usize, entry)
    }

    /// The level 0 index of leaf entry `entry`.
    pub open spec fn spec_leaf_index0(self, entry: int) -> int {
        entry / (self.geometry.level3 as int) / (self.geometry.level2 as int) / (
        self.geometry.level1 as int)
    }

    /// The level 1 index of leaf entry `entry`.
    pub open spec fn spec_leaf_index1(self, entry: int) -> int {
        (entry / (self.geometry.level3 as int) / (self.geometry.level2 as int)) % (
        self.geometry.level1 as int)
    }

    /// The level 2 index of leaf entry `entry`.
    pub open spec fn spec_leaf_index2(self, entry: int) -> int {
        (entry / (self.geometry.level3 as int)) % (self.geometry.level2 as int)
    }

    /// The level 3 index of leaf entry `entry`.
    pub open spec fn spec_leaf_index3(self, entry: int) -> int {
        entry % (self.geometry.level3 as int)
    }

    /// The physical address that leaf entry `entry` maps.
    pub open spec fn spec_leaf_phys(self, entry: int) -> u64 {
        spec_phys(
            self.granule,
            self.spec_leaf_index0(entry) as u64,
            self.spec_leaf_index1(entry) as u64,
            self.spec_leaf_index2(entry) as u64,
            self.spec_leaf_index3(entry) as u64,
        )
    }

    /// The word that the populator writes into entry `entry` of `level`: a
    /// table descriptor for the entry's child table above the leaf, and at
    /// the leaf a page entry for the address that the entry's indices spell.
    pub open spec fn spec_entry_word(self, level: usize, entry: int) -> u64 {
        if level < 3 {
            spec_table_word(self.spec_child_addr(level, entry) as u64, self.granule)
        } else {
            spec_page_word(self.spec_leaf_phys(entry), self.granule)
        }
    }

    /// The number of the leaf entry with the given indices.
    pub open spec fn spec_leaf_number(self, i0: int, i1: int, i2: int, i3: int) -> int {
        ((i0 * self.geometry.level1 + i1) * self.geometry.level2 + i2) * self.geometry.level3 + i3
    }

    /// Plans the geometry for a granule and RAM extent and places the store
    /// at `base`. There is no layout exactly when the store does not fit
    /// there.
    pub fn plan(granule: Granule, ram_extent: u64, base: u64) -> (r: Option<Layout>)
        ensures
            r is Some <==> spec_fits(granule, ram_extent, base),
            r is Some ==> r.unwrap() == (Layout {
                granule,
                ram_extent,
                geometry: Geometry::spec_plan(granule, ram_extent),
                base,
            }),
            r is Some ==> r.unwrap().wf() && r.unwrap().planned(),
    {
        Self::with_geometry(granule, ram_extent, Geometry::plan(granule, ram_extent), base)
    }

    /// Places a store of a given geometry at `base`. There is no layout
    /// exactly when a level leaves its hardware limits or the store does
    /// not fit there. A geometry with fewer entries than the RAM extent
    /// needs leaves part of the extent unmapped.
    pub fn with_geometry(granule: Granule, ram_extent: u64, geometry: Geometry, base: u64) -> (r:
        Option<Layout>)
        ensures
            r is Some <==> geometry.within_limits(granule) && spec_geometry_fits(
                granule,
                geometry,
                base,
            ),
            r is Some ==> r.unwrap() == (Layout { granule, ram_extent, geometry, base }),
            r is Some ==> r.unwrap().wf(),
    {
        let page: u64 = granule.page_size();
        let mut level: usize = 0;
        while level < LEVELS
            invariant
                level <= LEVELS,
                forall|below: usize|
                    below < level ==> 1 <= #[trigger] geometry.spec_entry_count(below)
                        <= granule.spec_max_entries(below),
            decreases LEVELS - level,
        {
            let count: usize = geometry.entry_count(level);
            if count < 1 || count > granule.max_entries(level) {
                return None;
            }
            level = level + 1;
        }
        proof {
            geometry.lemma_entries_bounded(granule);
        }
        if base % page != 0 || base > ADDRESS_SPACE {
            return None;
        }
        let n0: u64 = geometry.level0 as u64;
        let n1: u64 = geometry.level1 as u64;
        let n2: u64 = geometry.level2 as u64;
        let n3: u64 = geometry.level3 as u64;
        let c1: u64 = n0 * n1;
        let c2: u64 = c1 * n2;
        let c3: u64 = c2 * n3;
        let tables: u64 = 1 + n0 + c1 + c2;
        assert(page * tables <= 0x1_0000 * 0x100_0000_0000) by (nonlinear_arith)
            requires
                page <= 0x1_0000,
                tables <= 0x100_0000_0000,
        ;
        if page * tables > ADDRESS_SPACE - base {
            return None;
        }
        if c3 > usize::MAX as u64 {
            return None;
        }
        Some(Layout { granule, ram_extent, geometry, base })
    }

    /// Entries that `level` holds over all of its tables.
    pub fn entries(&self, level: usize) -> (n: usize)
        requires
            self.wf(),
            level < LEVELS,
        ensures
            n == self.geometry.spec_entries(level),
            n >= 1,
    {
        proof {
            self.geometry.lemma_entries_bounded(self.granule);
        }
        let n0: u64 = self.geometry.level0 as u64;
        let n1: u64 = self.geometry.level1 as u64;
        let n2: u64 = self.geometry.level2 as u64;
        let n3: u64 = self.geometry.level3 as u64;
        let n: u64 = match level {
            0 => n0,
            1 => n0 * n1,
            2 => n0 * n1 * n2,
            _ => n0 * n1 * n2 * n3,
        };
        n as usize
    }

    /// Tables that `level` holds.
    pub fn tables(&self, level: usize) -> (n: usize)
        requires
            self.wf(),
            level < LEVELS,
        ensures
            n == self.geometry.spec_tables(level),
            n >= 1,
    {
        if level == 0 {
            1
        } else {
            self.entries(level - 1)
        }
    }

    /// Address of table `table` of `level`: a page-aligned address below
    /// 2^48, which a descriptor stores without loss.
    pub fn table_addr(&self, level: usize, table: usize) -> (addr: u64)
        requires
            self.wf(),
            level < LEVELS,
            table < self.geometry.spec_tables(level),
        ensures
            addr == self.spec_table_addr(level, table as int),
            storable(addr, self.granule),
    {
        proof {
            self.lemma_table_addr_storable(level, table as int);
            self.geometry.lemma_entries_bounded(self.granule);
        }
        let n0: u64 = self.geometry.level0 as u64;
        let n1: u64 = self.geometry.level1 as u64;
        let first: u64 = match level {
            0 => 0,
            1 => 1,
            2 => 1 + n0,
            _ => 1 + n0 + n0 * n1,
        };
        let page: u64 = self.granule.page_size();
        let number: u64 = first + table as u64;
        assert(page * number <= page * self.geometry.spec_total_tables()) by (nonlinear_arith)
            requires
                0 <= number <= self.geometry.spec_total_tables(),
                0 <= page,
        ;
        self.base + page * number
    }

    /// The number of the table of `level` that starts at `addr`, if one
    /// does.
    pub open spec fn spec_table_at(self, level: usize, addr: u64) -> Option<int> {
        let page = self.granule.spec_page_size() as int;
        let first = self.spec_table_addr(level, 0);
        if addr >= first && (addr - first) % page == 0 && (addr - first) / page
            < self.geometry.spec_tables(level) {
            Some((addr - first) / page)
        } else {
            None
        }
    }

    /// The number of the table of `level` that starts at `addr`, if one
    /// does.
    pub fn table_at(&self, level: usize, addr: u64) -> (table: Option<usize>)
        requires
            self.wf(),
            level < LEVELS,
        ensures
            match table {
                Some(number) => self.spec_table_at(level, addr) == Some(number as int) && number
                    < self.geometry.spec_tables(level),
                None => self.spec_table_at(level, addr) is None,
            },
    {
        let page: u64 = self.granule.page_size();
        let count: usize = self.tables(level);
        let first: u64 = self.table_addr(level, 0);
        if addr < first {
            return None;
        }
        let offset: u64 = addr - first;
        if offset % page != 0 {
            return None;
        }
        let number: u64 = offset / page;
        if number < count as u64 {
            Some(number as usize)
        } else {
            None
        }
    }

    /// A table is found again from its address.
    pub proof fn lemma_table_at_addr(self, level: usize, table: int)
        requires
            self.wf(),
            level < LEVELS,
            0 <= table < self.geometry.spec_tables(level),
        ensures
            self.spec_table_at(level, self.spec_table_addr(level, table) as u64) == Some(table),
    {
        self.lemma_table_addr_storable(level, table);
        let page = self.granule.spec_page_size() as int;
        let first = self.spec_table_addr(level, 0);
        let addr = self.spec_table_addr(level, table);
        assert(addr - first == table * page) by (nonlinear_arith)
            requires
                addr == self.base + page * (self.geometry.spec_first_table(level) + table),
                first == self.base + page * (self.geometry.spec_first_table(level) + 0),
        ;
        vstd::arithmetic::div_mod::lemma_fundamental_div_mod_converse(table * page, page, table, 0);
    }

    /// Every table starts at a multiple of the page size below 2^48.
    pub proof fn lemma_table_addr_storable(self, level: usize, table: int)
        requires
            self.wf(),
            level < LEVELS,
            0 <= table < self.geometry.spec_tables(level),
        ensures
            self.base <= self.spec_table_addr(level, table) < ADDRESS_SPACE,
            self.spec_table_addr(level, table) + self.granule.spec_page_size() <= ADDRESS_SPACE,
            self.spec_table_addr(level, table) % (self.granule.spec_page_size() as int) == 0,
            storable(self.spec_table_addr(level, table) as u64, self.granule),
    {
        self.geometry.lemma_entries_bounded(self.granule);
        let page = self.granule.spec_page_size() as int;
        let number = self.geometry.spec_first_table(level) + table;
        let total = self.geometry.spec_total_tables();
        assert(0 <= number < total);
        assert(0 <= page * number && page * number + page <= page * total) by (nonlinear_arith)
            requires
                0 <= number < total,
                0 < page,
        ;
        let base = self.base as int;
        assert((base + page * number) % page == 0) by {
            vstd::arithmetic::div_mod::lemma_mod_multiples_vanish(number, base, page);
        }
        lemma_storable_is_aligned(self.spec_table_addr(level, table) as u64, self.granule);
    }

    /// The indices of a leaf entry are recovered from its number.
    pub proof fn lemma_leaf_indices(self, i0: int, i1: int, i2: int, i3: int)
        requires
            self.wf(),
            0 <= i0 < self.geometry.level0,
            0 <= i1 < self.geometry.level1,
            0 <= i2 < self.geometry.level2,
            0 <= i3 < self.geometry.level3,
        ensures
            0 <= i0 * self.geometry.level1 + i1 < self.geometry.spec_entries(1),
            0 <= (i0 * self.geometry.level1 + i1) * self.geometry.level2 + i2
                < self.geometry.spec_entries(2),
            0 <= self.spec_leaf_number(i0, i1, i2, i3) < self.geometry.spec_entries(3),
            self.spec_leaf_index0(self.spec_leaf_number(i0, i1, i2, i3)) == i0,
            self.spec_leaf_index1(self.spec_leaf_number(i0, i1, i2, i3)) == i1,
            self.spec_leaf_index2(self.spec_leaf_number(i0, i1, i2, i3)) == i2,
            self.spec_leaf_index3(self.spec_leaf_number(i0, i1, i2, i3)) == i3,
            self.spec_leaf_phys(self.spec_leaf_number(i0, i1, i2, i3)) == spec_phys(
                self.granule,
                i0 as u64,
                i1 as u64,
                i2 as u64,
                i3 as u64,
            ),
    {
        let n0 = self.geometry.level0 as int;
        let n1 = self.geometry.level1 as int;
        let n2 = self.geometry.level2 as int;
        let n3 = self.geometry.level3 as int;
        let f1 = i0 * n1 + i1;
        let f2 = f1 * n2 + i2;
        let f3 = f2 * n3 + i3;
        lemma_flat_bound(i0, n0, i1, n1);
        lemma_flat_bound(f1, n0 * n1, i2, n2);
        lemma_flat_bound(f2, n0 * n1 * n2, i3, n3);
        assert(f3 / n3 == f2);
        assert(f2 / n2 == f1);
        assert(f1 / n1 == i0);
    }
}

} // verus!
