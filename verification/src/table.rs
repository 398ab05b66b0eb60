//! The translation-table store: the words of all four levels, the pass
//! that fills them with an identity mapping, the software table walk and
//! the two self-checks.

use vstd::prelude::*;
use crate::descriptor::{decode_output_addr, spec_decode_output_addr, PageEntry, TableDescriptor};
use crate::geometry::lemma_flat_bound;
use crate::granule::{Granule, ADDRESS_SPACE, LEVELS};
use crate::layout::Layout;
use crate::mapping::{
    lemma_nothing_beyond_address_space, lemma_populated_contents_equal, lemma_populated_identity,
    lemma_populated_pointers, lemma_populated_translates_to_page, lemma_populated_walk,
    lemma_walks_ignore_page_offset,
};

verus! {

/// What a self-check found wrong with the store.
#[derive(Clone, Copy, Debug, PartialEq, Eq, Structural)]
pub enum LayoutViolation {
    /// Entry `entry` of `level`, counted across the level's tables, holds
    /// the address `found` where its child table lies at `expected`.
    Pointer { level: usize, entry: usize, expected: u64, found: u64 },
    /// The table walk reaches no leaf entry for `addr`.
    Unmapped { addr: u64 },
    /// The table walk maps `addr` to the different address `found`.
    NotIdentity { addr: u64, found: u64 },
}

/// The descriptors of levels 0 to 3 for one layout. Each level is held as
/// one run of words, its tables one after the other.
pub struct TranslationTable {
    pub layout: Layout,
    pub level0: Vec<u64>,
    pub level1: Vec<u64>,
    pub level2: Vec<u64>,
    pub level3: Vec<u64>,
}

/// The words of `count` entries, all zero.
fn zeroed_words(count: usize) -> (words: Vec<u64>)
    ensures
        words@.len() == count,
        forall|i: int| 0 <= i < count ==> #[trigger] words@[i] == 0,
{
    let mut words: Vec<u64> = Vec::with_capacity(count);
    let mut i: usize = 0;
    while i < count
        invariant
            i <= count,
            words@.len() == i,
            forall|j: int| 0 <= j < i ==> #[trigger] words@[j] == 0,
        decreases count - i,
    {
        words.push(0);
        i = i + 1;
    }
    words
}

impl TranslationTable {
    /// The words of `level`.
    pub open spec fn spec_words(&self, level: usize) -> Seq<u64> {
        if level == 0 {
            self.level0@
        } else if level == 1 {
            self.level1@
        } else if level == 2 {
            self.level2@
        } else {
            self.level3@
        }
    }

    /// The layout is well formed and every level holds as many words as
    /// the geometry gives it entries.
    pub open spec fn wf(&self) -> bool {
        &&& self.layout.wf()
        &&& forall|level: usize|
            level < LEVELS ==> (#[trigger] self.spec_words(level)).len()
                == self.layout.geometry.spec_entries(level)
    }

    /// Every word of every level is zero, so every descriptor decodes as
    /// invalid.
    pub open spec fn zeroed(&self) -> bool {
        forall|level: usize, i: int|
            level < LEVELS && 0 <= i < self.spec_words(level).len() ==> (
            #[trigger] self.spec_words(level)[i]) == 0
    }

    /// The index into a table of `level` that a virtual address selects:
    /// the bits of the level's range, and 0 where the granule skips the
    /// level.
    pub open spec fn spec_index(&self, level: usize, virtual_addr: u64) -> u64 {
        self.layout.granule.spec_index_of(level, virtual_addr)
    }

    /// The result of the table walk for a virtual address: nothing where
    /// an index lies beyond its level's entry count, otherwise the output
    /// address of the leaf entry that the four indices select.
    pub open spec fn spec_translate(&self, virtual_addr: u64) -> Option<u64> {
        let i0 = self.spec_index(0, virtual_addr);
        let i1 = self.spec_index(1, virtual_addr);
        let i2 = self.spec_index(2, virtual_addr);
        let i3 = self.spec_index(3, virtual_addr);
        if i0 >= self.layout.geometry.level0 || i1 >= self.layout.geometry.level1 || i2
            >= self.layout.geometry.level2 || i3 >= self.layout.geometry.level3 {
            None
        } else {
            Some(
                spec_decode_output_addr(
                    self.level3@[self.layout.spec_leaf_number(
                        i0 as int,
                        i1 as int,
                        i2 as int,
                        i3 as int,
                    )],
                    self.layout.granule,
                ),
            )
        }
    }

    /// The first `c0`, `c1`, `c2` and `c3` entries of levels 0 to 3 hold
    /// the words that the populator writes.
    pub open spec fn filled(&self, c0: int, c1: int, c2: int, c3: int) -> bool {
        &&& forall|e: int|
            0 <= e < c0 ==> #[trigger] self.level0@[e] == self.layout.spec_entry_word(0, e)
        &&& forall|e: int|
            0 <= e < c1 ==> #[trigger] self.level1@[e] == self.layout.spec_entry_word(1, e)
        &&& forall|e: int|
            0 <= e < c2 ==> #[trigger] self.level2@[e] == self.layout.spec_entry_word(2, e)
        &&& forall|e: int|
            0 <= e < c3 ==> #[trigger] self.level3@[e] == self.layout.spec_entry_word(3, e)
    }

    /// Every entry of every level holds the word that the populator writes:
    /// entry `n` of a level above the leaf is a valid table descriptor for
    /// table `n` of the next level, and every leaf entry is a valid page
    /// entry for the address that its indices spell.
    pub open spec fn populated(&self) -> bool {
        self.filled(
            self.layout.geometry.spec_entries(0),
            self.layout.geometry.spec_entries(1),
            self.layout.geometry.spec_entries(2),
            self.layout.geometry.spec_entries(3),
        )
    }

    /// A store for `layout` with every word zero.
    pub fn new(layout: Layout) -> (table: Self)
        requires
            layout.wf(),
        ensures
            table.wf(),
            table.layout == layout,
            table.zeroed(),
    {
        let level0 = zeroed_words(layout.entries(0));
        let level1 = zeroed_words(layout.entries(1));
        let level2 = zeroed_words(layout.entries(2));
        let level3 = zeroed_words(layout.entries(3));
        let table = TranslationTable { layout, level0, level1, level2, level3 };
        assert(table.spec_words(0) == table.level0@);
        assert(table.spec_words(1) == table.level1@);
        assert(table.spec_words(2) == table.level2@);
        assert(table.spec_words(3) == table.level3@);
        table
    }

    /// The words of `level`, in the order in which they lie in memory from
    /// the address of the level's first table on. Each table is followed by
    /// zero words up to the next page boundary.
    pub fn words(&self, level: usize) -> (words: &Vec<u64>)
        requires
            level < LEVELS,
        ensures
            words@ == self.spec_words(level),
    {
        match level {
            0 => &self.level0,
            1 => &self.level1,
            2 => &self.level2,
            _ => &self.level3,
        }
    }

    /// The index into a table of `level` that a virtual address selects.
    pub fn index(&self, level: usize, virtual_addr: u64) -> (i: u64)
        requires
            level < LEVELS,
        ensures
            i == self.spec_index(level, virtual_addr),
    {
        self.layout.granule.index_of(level, virtual_addr)
    }

    /// Walks the tables in software for a virtual address.
    ///
    /// Returns nothing for an address that the geometry does not reach, and
    /// otherwise the output address of the leaf entry that the address
    /// selects. The entry is found by its position in the store; the
    /// descriptors above it are not read.
    ///
    /// An address translates as the start of the page that holds it: its
    /// page-offset bits take no part. Every bit above them does: no address
    /// at or beyond 2^48 is mapped.
    pub fn translate(&self, virtual_addr: u64) -> (r: Option<u64>)
        requires
            self.wf(),
        ensures
            r == self.spec_translate(virtual_addr),
            r == self.spec_translate(self.layout.granule.spec_page_base(virtual_addr)),
            self.layout.granule.spec_page_base(virtual_addr) == virtual_addr - virtual_addr
                % self.layout.granule.spec_page_size(),
            virtual_addr >= ADDRESS_SPACE ==> r is None,
    {
        proof {
            lemma_walks_ignore_page_offset(*self, virtual_addr);
            if virtual_addr >= ADDRESS_SPACE {
                lemma_nothing_beyond_address_space(*self, virtual_addr);
            }
        }
        let i0: u64 = self.index(0, virtual_addr);
        let i1: u64 = self.index(1, virtual_addr);
        let i2: u64 = self.index(2, virtual_addr);
        let i3: u64 = self.index(3, virtual_addr);
        let geometry = self.layout.geometry;
        if i0 >= geometry.level0 as u64 || i1 >= geometry.level1 as u64 || i2
            >= geometry.level2 as u64 || i3 >= geometry.level3 as u64 {
            return None;
        }
        proof {
            self.layout.lemma_leaf_indices(i0 as int, i1 as int, i2 as int, i3 as int);
            geometry.lemma_entries_bounded(self.layout.granule);
            assert(self.spec_words(3) == self.level3@);
            let f1 = i0 * geometry.level1 + i1;
            let f2 = f1 * geometry.level2 + i2;
            assert(0 <= i0 * geometry.level1 && 0 <= f1 * geometry.level2 && 0 <= f2
                * geometry.level3) by (nonlinear_arith)
                requires
                    0 <= i0,
                    0 <= f1,
                    0 <= f2,
                    0 <= geometry.level1,
                    0 <= geometry.level2,
                    0 <= geometry.level3,
            ;
        }
        let f1: usize = i0 as usize * geometry.level1 + i1 as usize;
        let f2: usize = f1 * geometry.level2 + i2 as usize;
        let f3: usize = f2 * geometry.level3 + i3 as usize;
        Some(decode_output_addr(self.level3[f3], self.layout.granule))
    }

    /// One step of the walk through the descriptors: the number of the
    /// table of the next level that the descriptor selected by the address
    /// in table `table` of `level` refers to. There is none where the index
    /// lies beyond the entry count, where the descriptor is not a valid
    /// table descriptor, and where no table of the next level starts at
    /// the address it holds.
    pub open spec fn spec_descend(&self, level: usize, table: int, virtual_addr: u64) -> Option<
        int,
    > {
        let i = self.spec_index(level, virtual_addr);
        let count = self.layout.geometry.spec_entry_count(level);
        if i >= count {
            None
        } else {
            let d = TableDescriptor::spec_unpack(
                self.spec_words(level)[table * count + i],
                self.layout.granule,
            );
            if d.valid && d.table {
                self.layout.spec_table_at((level + 1) as usize, d.output_addr)
            } else {
                None
            }
        }
    }

    /// The last step of the walk: the output address of the page entry
    /// selected by the address in leaf table `table`, where the index lies
    /// within the entry count and the entry is a valid page entry.
    pub open spec fn spec_leaf(&self, table: int, virtual_addr: u64) -> Option<u64> {
        let i = self.spec_index(3, virtual_addr);
        let count = self.layout.geometry.level3;
        if i >= count {
            None
        } else {
            let e = PageEntry::spec_unpack(self.level3@[table * count + i], self.layout.granule);
            if e.valid && e.page {
                Some(e.output_addr)
            } else {
                None
            }
        }
    }

    /// The result of the walk through the descriptors: from the level 0
    /// table down, each descriptor names the table in which the walk goes
    /// on.
    pub open spec fn spec_walk(&self, virtual_addr: u64) -> Option<u64> {
        match self.spec_descend(0, 0, virtual_addr) {
            None => None,
            Some(t1) => match self.spec_descend(1, t1, virtual_addr) {
                None => None,
                Some(t2) => match self.spec_descend(2, t2, virtual_addr) {
                    None => None,
                    Some(t3) => self.spec_leaf(t3, virtual_addr),
                },
            },
        }
    }

    /// One step of the walk through the descriptors.
    pub fn descend(&self, level: usize, table: usize, virtual_addr: u64) -> (next: Option<usize>)
        requires
            self.wf(),
            level < 3,
            table < self.layout.geometry.spec_tables(level),
        ensures
            match next {
                Some(number) => self.spec_descend(level, table as int, virtual_addr) == Some(
                    number as int,
                ) && number < self.layout.geometry.spec_tables((level + 1) as usize),
                None => self.spec_descend(level, table as int, virtual_addr) is None,
            },
    {
        let i: u64 = self.index(level, virtual_addr);
        let count: usize = self.layout.geometry.entry_count(level);
        if i >= count as u64 {
            return None;
        }
        proof {
            self.layout.geometry.lemma_entries_bounded(self.layout.granule);
            lemma_flat_bound(
                table as int,
                self.layout.geometry.spec_tables(level),
                i as int,
                count as int,
            );
            assert(self.spec_words(level).len() == self.layout.geometry.spec_entries(level));
            assert(self.layout.geometry.spec_tables(level) * count
                == self.layout.geometry.spec_entries(level)) by (nonlinear_arith)
                requires
                    level == 0 ==> self.layout.geometry.spec_tables(level) == 1 && count
                        == self.layout.geometry.spec_entries(level),
                    level == 1 ==> self.layout.geometry.spec_tables(level)
                        == self.layout.geometry.level0 && self.layout.geometry.spec_entries(level)
                        == self.layout.geometry.level0 * count,
                    level == 2 ==> self.layout.geometry.spec_tables(level)
                        == self.layout.geometry.level0 * self.layout.geometry.level1
                        && self.layout.geometry.spec_entries(level) == self.layout.geometry.level0
                        * self.layout.geometry.level1 * count,
                    level < 3,
            ;
        }
        let words = self.words(level);
        let d = TableDescriptor::unpack(words[table * count + i as usize], self.layout.granule);
        if d.valid && d.table {
            self.layout.table_at(level + 1, d.output_addr)
        } else {
            None
        }
    }

    /// Walks the tables through their descriptors: from the level 0 table
    /// down, reading in each table the descriptor that the address selects
    /// and going on in the table that the descriptor names. A level that
    /// the granule skips is passed through its single entry.
    ///
    /// Returns nothing where an index lies beyond its level's entry count,
    /// where a descriptor is not valid or not of the kind its level asks
    /// for, and where a descriptor names no table of the store. The
    /// page-offset bits of the address take no part, and no address at or
    /// beyond 2^48 is mapped.
    pub fn walk(&self, virtual_addr: u64) -> (r: Option<u64>)
        requires
            self.wf(),
        ensures
            r == self.spec_walk(virtual_addr),
            r == self.spec_walk(self.layout.granule.spec_page_base(virtual_addr)),
            self.layout.granule.spec_page_base(virtual_addr) == virtual_addr - virtual_addr
                % self.layout.granule.spec_page_size(),
            virtual_addr >= ADDRESS_SPACE ==> r is None,
    {
        proof {
            lemma_walks_ignore_page_offset(*self, virtual_addr);
            if virtual_addr >= ADDRESS_SPACE {
                lemma_nothing_beyond_address_space(*self, virtual_addr);
            }
        }
        let t1: usize = match self.descend(0, 0, virtual_addr) {
            Some(number) => number,
            None => {
                return None;
            },
        };
        let t2: usize = match self.descend(1, t1, virtual_addr) {
            Some(number) => number,
            None => {
                return None;
            },
        };
        let t3: usize = match self.descend(2, t2, virtual_addr) {
            Some(number) => number,
            None => {
                return None;
            },
        };
        let i: u64 = self.index(3, virtual_addr);
        let count: usize = self.layout.geometry.level3;
        if i >= count as u64 {
            return None;
        }
        proof {
            self.layout.geometry.lemma_entries_bounded(self.layout.granule);
            lemma_flat_bound(
                t3 as int,
                self.layout.geometry.spec_tables(3),
                i as int,
                count as int,
            );
            assert(self.spec_words(3) == self.level3@);
        }
        let e = PageEntry::unpack(self.level3[t3 * count + i as usize], self.layout.granule);
        if e.valid && e.page {
            Some(e.output_addr)
        } else {
            None
        }
    }

    /// Fills every descriptor, level 0 first and each table's children
    /// before the next entry of the table.
    ///
    /// Every entry above the leaf becomes a valid table descriptor for its
    /// child table with read and write access at both privilege tiers;
    /// every leaf entry becomes a valid page entry, with the access flag
    /// set, for the address `(l0 << shift0) | (l1 << shift1) | (l2 << shift2)
    /// | (l3 << shift3)` of its indices. What the store held before has no
    /// part in the result. Afterwards the walk through the descriptors
    /// agrees with the walk by position on every address, and where the
    /// geometry is planned for an extent that the granule can cover, every
    /// address of the extent translates to the start of its page.
    pub fn populate(&mut self)
        requires
            old(self).wf(),
        ensures
            final(self).wf(),
            final(self).layout == old(self).layout,
            final(self).populated(),
            final(self).pointers_consistent(),
            old(self).layout.planned() && old(self).layout.granule.spec_can_cover(
                old(self).layout.ram_extent,
            ) ==> final(self).identity_mapped(),
            forall|a: u64| #[trigger] final(self).spec_walk(a) == final(self).spec_translate(a),
            old(self).layout.planned() && old(self).layout.granule.spec_can_cover(
                old(self).layout.ram_extent,
            ) ==> forall|a: u64|
                a < old(self).layout.ram_extent ==> #[trigger] final(self).spec_translate(a)
                    == Some(old(self).layout.granule.spec_page_base(a)) && old(self).layout.granule.spec_page_base(a) == a - a % old(self).layout.granule.spec_page_size(),
            old(self).populated() ==> forall|level: usize|
                level < LEVELS ==> #[trigger] final(self).spec_words(level) == old(self).spec_words(
                    level,
                ),
    {
        let ghost before = *self;
        let layout = self.layout;
        let granule = layout.granule;
        let n0: usize = layout.geometry.level0;
        let n1: usize = layout.geometry.level1;
        let n2: usize = layout.geometry.level2;
        let n3: usize = layout.geometry.level3;
        let s0: u64 = granule.shift(0);
        let s1: u64 = granule.shift(1);
        let s2: u64 = granule.shift(2);
        let s3: u64 = granule.shift(3);
        proof {
            layout.geometry.lemma_entries_bounded(granule);
            assert(layout.geometry.spec_entry_count(0) >= 1);
            assert(layout.geometry.spec_entry_count(1) >= 1);
            assert(layout.geometry.spec_entry_count(2) >= 1);
            assert(layout.geometry.spec_entry_count(3) >= 1);
            assert(self.spec_words(0) == self.level0@);
            assert(self.spec_words(1) == self.level1@);
            assert(self.spec_words(2) == self.level2@);
            assert(self.spec_words(3) == self.level3@);
            assert(0 * n1 == 0 && 0 * n2 == 0 && 0 * n3 == 0);
        }
        let mut f1: usize = 0;
        let mut f2: usize = 0;
        let mut f3: usize = 0;
        let mut i0: usize = 0;
        while i0 < n0
            invariant
                self.filling(layout, i0 as int, f1 as int, f2 as int, f3 as int),
                n0 == layout.geometry.level0,
                n1 == layout.geometry.level1,
                n2 == layout.geometry.level2,
                n3 == layout.geometry.level3,
                n0 >= 1 && n1 >= 1 && n2 >= 1 && n3 >= 1,
                s0 == layout.granule.spec_shift(0),
                s1 == layout.granule.spec_shift(1),
                s2 == layout.granule.spec_shift(2),
                s3 == layout.granule.spec_shift(3),
                granule == layout.granule,
                i0 <= n0,
                f1 == i0 * n1,
                f2 == f1 * n2,
                f3 == f2 * n3,
            decreases n0 - i0,
        {
            let child0: u64 = layout.table_addr(1, i0);
            self.level0.set(i0, TableDescriptor::pointing_to(child0).pack(granule));
            let mut i1: usize = 0;
            while i1 < n1
                invariant
                    self.filling(layout, i0 + 1, f1 as int, f2 as int, f3 as int),
                    n0 == layout.geometry.level0,
                    n1 == layout.geometry.level1,
                    n2 == layout.geometry.level2,
                    n3 == layout.geometry.level3,
                    n0 >= 1 && n1 >= 1 && n2 >= 1 && n3 >= 1,
                    s0 == layout.granule.spec_shift(0),
                    s1 == layout.granule.spec_shift(1),
                    s2 == layout.granule.spec_shift(2),
                    s3 == layout.granule.spec_shift(3),
                    granule == layout.granule,
                    i0 < n0,
                    i1 <= n1,
                    f1 == i0 * n1 + i1,
                    f2 == f1 * n2,
                    f3 == f2 * n3,
                decreases n1 - i1,
            {
                proof {
                    lemma_flat_bound(i0 as int, n0 as int, i1 as int, n1 as int);
                }
                let child1: u64 = layout.table_addr(2, f1);
                self.level1.set(f1, TableDescriptor::pointing_to(child1).pack(granule));
                let mut i2: usize = 0;
                while i2 < n2
                    invariant
                        self.filling(layout, i0 + 1, f1 + 1, f2 as int, f3 as int),
                        n0 == layout.geometry.level0,
                        n1 == layout.geometry.level1,
                        n2 == layout.geometry.level2,
                        n3 == layout.geometry.level3,
                        n0 >= 1 && n1 >= 1 && n2 >= 1 && n3 >= 1,
                        s0 == layout.granule.spec_shift(0),
                        s1 == layout.granule.spec_shift(1),
                        s2 == layout.granule.spec_shift(2),
                        s3 == layout.granule.spec_shift(3),
                        granule == layout.granule,
                        i0 < n0,
                        i1 < n1,
                        i2 <= n2,
                        f1 == i0 * n1 + i1,
                        f1 < n0 * n1,
                        f2 == f1 * n2 + i2,
                        f3 == f2 * n3,
                    decreases n2 - i2,
                {
                    proof {
                        lemma_flat_bound(f1 as int, n0 * n1, i2 as int, n2 as int);
                    }
                    let child2: u64 = layout.table_addr(3, f2);
                    self.level2.set(f2, TableDescriptor::pointing_to(child2).pack(granule));
                    let mut i3: usize = 0;
                    while i3 < n3
                        invariant
                            self.filling(layout, i0 + 1, f1 + 1, f2 + 1, f3 as int),
                            n0 == layout.geometry.level0,
                            n1 == layout.geometry.level1,
                            n2 == layout.geometry.level2,
                            n3 == layout.geometry.level3,
                            n0 >= 1 && n1 >= 1 && n2 >= 1 && n3 >= 1,
                            s0 == layout.granule.spec_shift(0),
                            s1 == layout.granule.spec_shift(1),
                            s2 == layout.granule.spec_shift(2),
                            s3 == layout.granule.spec_shift(3),
                            granule == layout.granule,
                            i0 < n0,
                            i1 < n1,
                            i2 < n2,
                            i3 <= n3,
                            f1 == i0 * n1 + i1,
                            f2 == f1 * n2 + i2,
                            f2 < n0 * n1 * n2,
                            f3 == f2 * n3 + i3,
                        decreases n3 - i3,
                    {
                        proof {
                            layout.lemma_leaf_indices(i0 as int, i1 as int, i2 as int, i3 as int);
                        }
                        let phys: u64 = ((i0 as u64) << s0) | ((i1 as u64) << s1) | ((i2 as u64)
                            << s2) | ((i3 as u64) << s3);
                        self.level3.set(f3, PageEntry::mapping(phys).pack(granule));
                        f3 = f3 + 1;
                        i3 = i3 + 1;
                    }
                    proof {
                        lemma_flat_bound(f2 as int, n0 * n1 * n2, 0, n3 as int);
                    }
                    f2 = f2 + 1;
                    i2 = i2 + 1;
                }
                proof {
                    lemma_flat_bound(f1 as int, n0 * n1, 0, n2 as int);
                }
                f1 = f1 + 1;
                i1 = i1 + 1;
            }
            proof {
                lemma_flat_bound(i0 as int, n0 as int, 0, n1 as int);
            }
            i0 = i0 + 1;
        }
        proof {
            assert(self.spec_words(0) == self.level0@);
            assert(self.spec_words(1) == self.level1@);
            assert(self.spec_words(2) == self.level2@);
            assert(self.spec_words(3) == self.level3@);
            lemma_populated_pointers(*self);
            assert forall|a: u64| #[trigger] self.spec_walk(a) == self.spec_translate(a) by {
                lemma_populated_walk(*self, a);
            }
            if layout.planned() && layout.granule.spec_can_cover(layout.ram_extent) {
                lemma_populated_identity(*self);
                assert forall|a: u64| a < layout.ram_extent implies #[trigger] self.spec_translate(
                    a,
                ) == Some(layout.granule.spec_page_base(a)) && layout.granule.spec_page_base(a) == a
                    - a % layout.granule.spec_page_size() by {
                    lemma_populated_translates_to_page(*self, a);
                    layout.granule.lemma_page_base(a);
                }
            }
            if before.populated() {
                lemma_populated_contents_equal(before, *self);
            }
        }
    }

    /// Entry `entry` of a level above the leaf holds the address of its
    /// child table.
    pub open spec fn pointer_ok(&self, level: usize, entry: int) -> bool {
        spec_decode_output_addr(self.spec_words(level)[entry], self.layout.granule)
            == self.layout.spec_child_addr(level, entry)
    }

    /// The first `count` entries of `level` hold the addresses of their
    /// child tables.
    pub open spec fn level_consistent(&self, level: usize, count: int) -> bool {
        forall|e: int| 0 <= e < count ==> #[trigger] self.pointer_ok(level, e)
    }

    /// Every descriptor above the leaf holds the address of its child table.
    pub open spec fn pointers_consistent(&self) -> bool {
        &&& self.level_consistent(0, self.layout.geometry.spec_entries(0))
        &&& self.level_consistent(1, self.layout.geometry.spec_entries(1))
        &&& self.level_consistent(2, self.layout.geometry.spec_entries(2))
    }

    /// Entry `entry` of `level` is the first descriptor that does not hold
    /// the address of its child table, going through level 0, then level 1,
    /// then level 2, each from its first entry on.
    pub open spec fn first_pointer_mismatch(&self, level: usize, entry: int) -> bool {
        &&& level < 3
        &&& 0 <= entry < self.layout.geometry.spec_entries(level)
        &&& !self.pointer_ok(level, entry)
        &&& self.level_consistent(level, entry)
        &&& forall|above: usize|
            above < level ==> #[trigger] self.level_consistent(
                above,
                self.layout.geometry.spec_entries(above),
            )
    }

    /// The table walk maps `addr` to itself.
    pub open spec fn maps_to_itself(&self, addr: u64) -> bool {
        self.spec_translate(addr) == Some(addr)
    }

    /// Every page-aligned address below `limit` is mapped to itself.
    pub open spec fn identity_below(&self, limit: u64) -> bool {
        forall|a: u64|
            a < limit && a % self.layout.granule.spec_page_size() == 0
                ==> #[trigger] self.maps_to_itself(a)
    }

    /// Every page-aligned address of the RAM extent is mapped to itself.
    pub open spec fn identity_mapped(&self) -> bool {
        self.identity_below(self.layout.ram_extent)
    }

    /// Checks the descriptors of one level above the leaf against the
    /// addresses of their child tables, from the first entry on.
    fn verify_level_pointers(&self, level: usize) -> (r: Result<(), LayoutViolation>)
        requires
            self.wf(),
            level < 3,
        ensures
            r is Ok <==> self.level_consistent(level, self.layout.geometry.spec_entries(level)),
            r is Err ==> (r->Err_0 matches LayoutViolation::Pointer {
                level: at,
                entry,
                expected,
                found,
            } && at == level && entry < self.layout.geometry.spec_entries(level)
                && self.level_consistent(level, entry as int) && !self.pointer_ok(
                level,
                entry as int,
            ) && expected == self.layout.spec_child_addr(level, entry as int) && found
                == spec_decode_output_addr(
                self.spec_words(level)[entry as int],
                self.layout.granule,
            )),
    {
        let words = self.words(level);
        let count: usize = self.layout.entries(level);
        let mut entry: usize = 0;
        while entry < count
            invariant
                self.wf(),
                level < 3,
                words@ == self.spec_words(level),
                count == self.layout.geometry.spec_entries(level),
                entry <= count,
                self.level_consistent(level, entry as int),
            decreases count - entry,
        {
            let expected: u64 = self.layout.table_addr(level + 1, entry);
            let found: u64 = decode_output_addr(words[entry], self.layout.granule);
            if found != expected {
                assert(!self.pointer_ok(level, entry as int));
                return Err(LayoutViolation::Pointer { level, entry, expected, found });
            }
            entry = entry + 1;
        }
        Ok(())
    }

    /// Checks that every descriptor above the leaf holds the address of
    /// its child table, as the layout places it.
    ///
    /// On failure the violation names the first such descriptor, going
    /// through level 0, then level 1, then level 2, with the address it
    /// should hold and the address it holds.
    pub fn verify_pointers(&self) -> (r: Result<(), LayoutViolation>)
        requires
            self.wf(),
        ensures
            r is Ok <==> self.pointers_consistent(),
            r is Err ==> (r->Err_0 matches LayoutViolation::Pointer {
                level,
                entry,
                expected,
                found,
            } && self.first_pointer_mismatch(level, entry as int) && expected
                == self.layout.spec_child_addr(level, entry as int) && found
                == spec_decode_output_addr(
                self.spec_words(level)[entry as int],
                self.layout.granule,
            )),
    {
        let mut level: usize = 0;
        while level < 3
            invariant
                self.wf(),
                level <= 3,
                forall|above: usize|
                    above < level ==> #[trigger] self.level_consistent(
                        above,
                        self.layout.geometry.spec_entries(above),
                    ),
            decreases 3 - level,
        {
            match self.verify_level_pointers(level) {
                Ok(()) => {},
                Err(violation) => {
                    return Err(violation);
                },
            }
            level = level + 1;
        }
        Ok(())
    }

    /// Steps through the RAM extent page by page, from address 0 on, and
    /// checks that the table walk maps every address to itself.
    ///
    /// On failure the violation names the lowest page-aligned address of
    /// the extent that is not mapped to itself, and what the walk gave for
    /// it.
    pub fn verify_identity_mapping(&self) -> (r: Result<(), LayoutViolation>)
        requires
            self.wf(),
        ensures
            r is Ok <==> self.identity_mapped(),
            r is Err ==> ({
                let addr = match r->Err_0 {
                    LayoutViolation::Unmapped { addr } => addr,
                    LayoutViolation::NotIdentity { addr, found } => addr,
                    LayoutViolation::Pointer { level, entry, expected, found } => 0,
                };
                &&& addr < self.layout.ram_extent
                &&& addr % self.layout.granule.spec_page_size() == 0
                &&& self.identity_below(addr)
                &&& match r->Err_0 {
                    LayoutViolation::Unmapped { addr } => self.spec_translate(addr) is None,
                    LayoutViolation::NotIdentity { addr, found } => self.spec_translate(addr)
                        == Some(found) && found != addr,
                    LayoutViolation::Pointer { level, entry, expected, found } => false,
                }
            }),
    {
        let page: u64 = self.layout.granule.page_size();
        let extent: u64 = self.layout.ram_extent;
        let mut addr: u64 = 0;
        while addr < extent
            invariant
                self.wf(),
                page == self.layout.granule.spec_page_size(),
                extent == self.layout.ram_extent,
                addr % page == 0,
                self.identity_below(addr),
            decreases extent - addr,
        {
            match self.translate(addr) {
                None => {
                    assert(!self.maps_to_itself(addr));
                    return Err(LayoutViolation::Unmapped { addr });
                },
                Some(found) => {
                    if found != addr {
                        assert(!self.maps_to_itself(addr));
                        return Err(LayoutViolation::NotIdentity { addr, found });
                    }
                },
            }
            assert(self.maps_to_itself(addr));
            if extent - addr <= page {
                proof {
                    assert forall|a: u64| a < extent && a % page == 0 implies #[trigger] self.maps_to_itself(
                        a,
                    ) by {
                        if a > addr {
                            lemma_next_aligned(addr, a, self.layout.granule);
                        }
                    }
                }
                return Ok(());
            }
            proof {
                assert forall|a: u64| a < addr + page && a % page == 0 implies #[trigger] self.maps_to_itself(
                    a,
                ) by {
                    if a > addr {
                        lemma_next_aligned(addr, a, self.layout.granule);
                    }
                }
                lemma_next_aligned(addr, (addr + page) as u64, self.layout.granule);
            }
            addr = addr + page;
        }
        Ok(())
    }

    /// The store is well formed for `layout` and filled up to the given
    /// entry of each level.
    pub open spec fn filling(&self, layout: Layout, c0: int, c1: int, c2: int, c3: int) -> bool {
        &&& self.layout == layout
        &&& layout.wf()
        &&& self.level0@.len() == layout.geometry.spec_entries(0)
        &&& self.level1@.len() == layout.geometry.spec_entries(1)
        &&& self.level2@.len() == layout.geometry.spec_entries(2)
        &&& self.level3@.len() == layout.geometry.spec_entries(3)
        &&& self.filled(c0, c1, c2, c3)
    }
}

/// The page-aligned address that follows a page-aligned address lies a
/// whole page above it, and is itself page-aligned.
pub proof fn lemma_next_aligned(addr: u64, next: u64, granule: Granule)
    requires
        addr % granule.spec_page_size() == 0,
        next % granule.spec_page_size() == 0,
        addr < next,
    ensures
        next >= addr + granule.spec_page_size(),
        (addr + granule.spec_page_size()) % (granule.spec_page_size() as int) == 0,
{
    match granule {
        Granule::Kib4 => {
            assert(addr % 0x1000 == 0 && next % 0x1000 == 0);
        },
        Granule::Kib64 => {
            assert(addr % 0x1_0000 == 0 && next % 0x1_0000 == 0);
        },
    }
}

} // verus!
