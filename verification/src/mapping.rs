//! What holds of a populated store: its descriptors refer to their child
//! tables, the table walk is the identity on the RAM extent, and its
//! contents are fixed by its layout.

use vstd::prelude::*;
use crate::bits::extract;
use crate::descriptor::{
    lemma_page_word, lemma_table_word, spec_decode_output_addr, spec_output_addr_mask,
};
use crate::geometry::{lemma_flat_bound, lemma_index_in_range, lemma_size_for_spans};
use crate::granule::{Granule, ADDRESS_SPACE, LEVELS};
use crate::layout::spec_phys;
use crate::table::TranslationTable;

verus! {

/// The indices of an address below 2^48, shifted back into place, spell
/// the start of the page that holds the address.
proof fn lemma_indices_spell_page(granule: Granule, a: u64)
    requires
        a < ADDRESS_SPACE,
    ensures
        spec_phys(
            granule,
            granule.spec_index_of(0, a),
            granule.spec_index_of(1, a),
            granule.spec_index_of(2, a),
            granule.spec_index_of(3, a),
        ) & spec_output_addr_mask(granule) == granule.spec_page_base(a),
{
    let i0 = granule.spec_index_of(0, a);
    let i1 = granule.spec_index_of(1, a);
    let i2 = granule.spec_index_of(2, a);
    let i3 = granule.spec_index_of(3, a);
    let phys = spec_phys(granule, i0, i1, i2, i3);
    match granule {
        Granule::Kib4 => {
            assert(phys & 0x0000_FFFF_FFFF_F000 == a & 0xFFFF_FFFF_FFFF_F000) by (bit_vector)
                requires
                    a < 0x1_0000_0000_0000u64,
                    i0 == extract(a, 39, 63),
                    i1 == extract(a, 30, 38),
                    i2 == extract(a, 21, 29),
                    i3 == extract(a, 12, 20),
                    phys == (i0 << 39u64) | (i1 << 30u64) | (i2 << 21u64) | (i3 << 12u64),
            ;
        },
        Granule::Kib64 => {
            assert(phys & 0x0000_FFFF_FFFF_0000 == a & 0xFFFF_FFFF_FFFF_0000) by (bit_vector)
                requires
                    a < 0x1_0000_0000_0000u64,
                    i0 == 0,
                    i1 == extract(a, 42, 63),
                    i2 == extract(a, 29, 41),
                    i3 == extract(a, 16, 28),
                    phys == (i0 << 48u64) | (i1 << 42u64) | (i2 << 29u64) | (i3 << 16u64),
            ;
        },
    }
}

/// The page-offset bits of an address take no part in either walk: for
/// every store and every address, each walk gives for the address what it
/// gives for the start of the page that holds it.
pub proof fn lemma_walks_ignore_page_offset(table: TranslationTable, addr: u64)
    ensures
        table.spec_translate(addr) == table.spec_translate(
            table.layout.granule.spec_page_base(addr),
        ),
        table.spec_walk(addr) == table.spec_walk(table.layout.granule.spec_page_base(addr)),
        table.layout.granule.spec_page_base(addr) == addr - addr
            % table.layout.granule.spec_page_size(),
{
    let granule = table.layout.granule;
    granule.lemma_page_base(addr);
    granule.lemma_index_ignores_page_offset(0, addr);
    granule.lemma_index_ignores_page_offset(1, addr);
    granule.lemma_index_ignores_page_offset(2, addr);
    granule.lemma_index_ignores_page_offset(3, addr);
    let base = granule.spec_page_base(addr);
    assert(table.spec_index(0, addr) == table.spec_index(0, base));
    assert(table.spec_index(1, addr) == table.spec_index(1, base));
    assert(table.spec_index(2, addr) == table.spec_index(2, base));
    assert(table.spec_index(3, addr) == table.spec_index(3, base));
    assert(table.spec_descend(0, 0, addr) == table.spec_descend(0, 0, base));
    assert forall|t: int| table.spec_descend(1, t, addr) == table.spec_descend(1, t, base) by {}
    assert forall|t: int| table.spec_descend(2, t, addr) == table.spec_descend(2, t, base) by {}
    assert forall|t: int| table.spec_leaf(t, addr) == table.spec_leaf(t, base) by {}
}

/// No address at or beyond 2^48 is mapped: both walks give nothing for it,
/// whatever the store holds.
pub proof fn lemma_nothing_beyond_address_space(table: TranslationTable, addr: u64)
    requires
        table.wf(),
        addr >= ADDRESS_SPACE,
    ensures
        table.spec_translate(addr) is None,
        table.spec_walk(addr) is None,
{
    let granule = table.layout.granule;
    let g = table.layout.geometry;
    assert(g.spec_entry_count(0) <= granule.spec_max_entries(0));
    assert(g.spec_entry_count(1) <= granule.spec_max_entries(1));
    match granule {
        Granule::Kib4 => {
            granule.lemma_index_is_quotient(0, addr);
            assert(table.spec_index(0, addr) >= g.level0);
            assert(table.spec_descend(0, 0, addr) is None);
        },
        Granule::Kib64 => {
            granule.lemma_index_is_quotient(1, addr);
            assert(table.spec_index(1, addr) >= g.level1);
            assert forall|t: int| table.spec_descend(1, t, addr) is None by {}
        },
    }
}

/// In a populated store whose geometry is planned for a RAM extent that
/// the granule can cover, the table walk maps every address of the extent
/// to the start of the page that holds it.
pub proof fn lemma_populated_translates_to_page(table: TranslationTable, addr: u64)
    requires
        table.wf(),
        table.populated(),
        table.layout.planned(),
        table.layout.granule.spec_can_cover(table.layout.ram_extent),
        addr < table.layout.ram_extent,
    ensures
        table.spec_translate(addr) == Some(table.layout.granule.spec_page_base(addr)),
        table.spec_translate(addr) == Some(
            (addr - addr % table.layout.granule.spec_page_size()) as u64,
        ),
{
    let layout = table.layout;
    let granule = layout.granule;
    let extent = layout.ram_extent;
    let i0 = table.spec_index(0, addr);
    let i1 = table.spec_index(1, addr);
    let i2 = table.spec_index(2, addr);
    let i3 = table.spec_index(3, addr);
    let phys = spec_phys(granule, i0, i1, i2, i3);
    granule.lemma_can_cover(extent);
    lemma_size_for_spans(granule, 0, extent);
    lemma_size_for_spans(granule, 1, extent);
    lemma_size_for_spans(granule, 2, extent);
    lemma_size_for_spans(granule, 3, extent);
    lemma_index_in_range(granule, 0, extent, addr);
    lemma_index_in_range(granule, 1, extent, addr);
    lemma_index_in_range(granule, 2, extent, addr);
    lemma_index_in_range(granule, 3, extent, addr);
    granule.lemma_index_is_quotient(0, addr);
    granule.lemma_index_is_quotient(1, addr);
    granule.lemma_index_is_quotient(2, addr);
    granule.lemma_index_is_quotient(3, addr);
    granule.lemma_page_base(addr);
    assert(i0 < layout.geometry.level0);
    assert(i1 < layout.geometry.level1);
    assert(i2 < layout.geometry.level2);
    assert(i3 < layout.geometry.level3);
    layout.lemma_leaf_indices(i0 as int, i1 as int, i2 as int, i3 as int);
    let leaf = layout.spec_leaf_number(i0 as int, i1 as int, i2 as int, i3 as int);
    assert(table.spec_words(3).len() == layout.geometry.spec_entries(3));
    assert(table.level3@[leaf] == layout.spec_entry_word(3, leaf));
    lemma_page_word(phys, granule);
    lemma_indices_spell_page(granule, addr);
}

/// Identity mapping: in a populated store whose geometry is planned for a
/// RAM extent that the granule can cover, the table walk maps every
/// page-aligned address of the extent to itself.
pub proof fn lemma_populated_identity(table: TranslationTable)
    requires
        table.wf(),
        table.populated(),
        table.layout.planned(),
        table.layout.granule.spec_can_cover(table.layout.ram_extent),
    ensures
        table.identity_mapped(),
{
    let layout = table.layout;
    let granule = layout.granule;
    assert forall|a: u64|
        a < layout.ram_extent && a % granule.spec_page_size() == 0 implies #[trigger] table.maps_to_itself(
        a,
    ) by {
        lemma_populated_translates_to_page(table, a);
    }
}

/// Leaf entries: in a populated store the leaf entry with the indices
/// `(l0, l1, l2, l3)` holds the address `(l0 << shift0) | (l1 << shift1) |
/// (l2 << shift2) | (l3 << shift3)`.
pub proof fn lemma_populated_leaf(table: TranslationTable, l0: u64, l1: u64, l2: u64, l3: u64)
    requires
        table.wf(),
        table.populated(),
        l0 < table.layout.geometry.level0,
        l1 < table.layout.geometry.level1,
        l2 < table.layout.geometry.level2,
        l3 < table.layout.geometry.level3,
    ensures
        0 <= table.layout.spec_leaf_number(l0 as int, l1 as int, l2 as int, l3 as int)
            < table.level3@.len(),
        spec_decode_output_addr(
            table.level3@[table.layout.spec_leaf_number(l0 as int, l1 as int, l2 as int, l3 as int)],
            table.layout.granule,
        ) == spec_phys(table.layout.granule, l0, l1, l2, l3),
{
    let layout = table.layout;
    let granule = layout.granule;
    let g = layout.geometry;
    assert(g.spec_entry_count(0) <= granule.spec_max_entries(0));
    assert(g.spec_entry_count(1) <= granule.spec_max_entries(1));
    assert(g.spec_entry_count(2) <= granule.spec_max_entries(2));
    assert(g.spec_entry_count(3) <= granule.spec_max_entries(3));
    assert(table.spec_words(3).len() == g.spec_entries(3));
    layout.lemma_leaf_indices(l0 as int, l1 as int, l2 as int, l3 as int);
    let leaf = layout.spec_leaf_number(l0 as int, l1 as int, l2 as int, l3 as int);
    assert(table.level3@[leaf] == layout.spec_entry_word(3, leaf));
    let phys = spec_phys(granule, l0, l1, l2, l3);
    lemma_page_word(phys, granule);
    match granule {
        Granule::Kib4 => {
            assert(phys & 0x0000_FFFF_FFFF_F000 == phys) by (bit_vector)
                requires
                    phys == (l0 << 39u64) | (l1 << 30u64) | (l2 << 21u64) | (l3 << 12u64),
                    l0 < 512,
                    l1 < 512,
                    l2 < 512,
                    l3 < 512,
            ;
        },
        Granule::Kib64 => {
            assert(phys & 0x0000_FFFF_FFFF_0000 == phys) by (bit_vector)
                requires
                    phys == (l0 << 48u64) | (l1 << 42u64) | (l2 << 29u64) | (l3 << 16u64),
                    l0 < 1,
                    l1 < 64,
                    l2 < 8192,
                    l3 < 8192,
            ;
        },
    }
}

/// Pointer consistency: in a populated store every descriptor above the
/// leaf holds the address of the child table that it refers to.
pub proof fn lemma_populated_pointers(table: TranslationTable)
    requires
        table.wf(),
        table.populated(),
    ensures
        table.pointers_consistent(),
{
    let layout = table.layout;
    assert forall|level: usize, e: int|
        level < 3 && 0 <= e < layout.geometry.spec_entries(level) implies #[trigger] table.pointer_ok(
        level,
        e,
    ) by {
        layout.lemma_table_addr_storable((level + 1) as usize, e);
        lemma_table_word(layout.spec_child_addr(level, e) as u64, layout.granule);
        if level == 0 {
            assert(table.level0@[e] == layout.spec_entry_word(0, e));
        } else if level == 1 {
            assert(table.level1@[e] == layout.spec_entry_word(1, e));
        } else {
            assert(table.level2@[e] == layout.spec_entry_word(2, e));
        }
    }
}

/// Populating is deterministic: two populated stores of one layout hold
/// the same words at every level, whatever they held before. Populating a
/// store a second time therefore leaves every word as it is.
pub proof fn lemma_populated_contents_equal(a: TranslationTable, b: TranslationTable)
    requires
        a.wf(),
        b.wf(),
        a.layout == b.layout,
        a.populated(),
        b.populated(),
    ensures
        forall|level: usize| level < LEVELS ==> #[trigger] a.spec_words(level) == b.spec_words(level),
{
    assert(a.spec_words(0).len() == a.layout.geometry.spec_entries(0));
    assert(a.spec_words(1).len() == a.layout.geometry.spec_entries(1));
    assert(a.spec_words(2).len() == a.layout.geometry.spec_entries(2));
    assert(a.spec_words(3).len() == a.layout.geometry.spec_entries(3));
    assert(b.spec_words(0).len() == a.layout.geometry.spec_entries(0));
    assert(b.spec_words(1).len() == a.layout.geometry.spec_entries(1));
    assert(b.spec_words(2).len() == a.layout.geometry.spec_entries(2));
    assert(b.spec_words(3).len() == a.layout.geometry.spec_entries(3));
    assert(a.level0@ =~= b.level0@);
    assert(a.level1@ =~= b.level1@);
    assert(a.level2@ =~= b.level2@);
    assert(a.level3@ =~= b.level3@);
}

/// In a populated store a step of the descriptor walk leads from entry
/// `i` of table `t` to the table with the entry's number on the next level.
proof fn lemma_populated_descend(table: TranslationTable, level: usize, t: int, addr: u64)
    requires
        table.wf(),
        table.populated(),
        level < 3,
        0 <= t < table.layout.geometry.spec_tables(level),
        table.spec_index(level, addr) < table.layout.geometry.spec_entry_count(level),
    ensures
        table.spec_descend(level, t, addr) == Some(
            t * table.layout.geometry.spec_entry_count(level) + table.spec_index(level, addr),
        ),
        0 <= t * table.layout.geometry.spec_entry_count(level) + table.spec_index(level, addr)
            < table.layout.geometry.spec_tables((level + 1) as usize),
{
    let layout = table.layout;
    let count = layout.geometry.spec_entry_count(level) as int;
    let i = table.spec_index(level, addr) as int;
    let e = t * count + i;
    lemma_flat_bound(t, layout.geometry.spec_tables(level), i, count);
    assert(layout.geometry.spec_tables(level) * count == layout.geometry.spec_entries(level))
        by (nonlinear_arith)
        requires
            level == 0 ==> layout.geometry.spec_tables(level) == 1 && count
                == layout.geometry.spec_entries(level),
            level == 1 ==> layout.geometry.spec_tables(level) == layout.geometry.level0
                && layout.geometry.spec_entries(level) == layout.geometry.level0 * count,
            level == 2 ==> layout.geometry.spec_tables(level) == layout.geometry.level0
                * layout.geometry.level1 && layout.geometry.spec_entries(level)
                == layout.geometry.level0 * layout.geometry.level1 * count,
            level < 3,
    ;
    if level == 0 {
        assert(table.level0@[e] == layout.spec_entry_word(0, e));
    } else if level == 1 {
        assert(table.level1@[e] == layout.spec_entry_word(1, e));
    } else {
        assert(table.level2@[e] == layout.spec_entry_word(2, e));
    }
    let child = layout.spec_child_addr(level, e);
    layout.lemma_table_addr_storable((level + 1) as usize, e);
    layout.lemma_table_at_addr((level + 1) as usize, e);
    lemma_table_word(child as u64, layout.granule);
}

/// The two walks agree: in a populated store the walk through the
/// descriptors gives for every address what the table walk by position
/// gives.
pub proof fn lemma_populated_walk(table: TranslationTable, addr: u64)
    requires
        table.wf(),
        table.populated(),
    ensures
        table.spec_walk(addr) == table.spec_translate(addr),
{
    let layout = table.layout;
    let g = layout.geometry;
    let i0 = table.spec_index(0, addr);
    let i1 = table.spec_index(1, addr);
    let i2 = table.spec_index(2, addr);
    let i3 = table.spec_index(3, addr);
    g.lemma_entries_bounded(layout.granule);
    if i0 < g.level0 {
        lemma_populated_descend(table, 0, 0, addr);
        assert(table.spec_descend(0, 0, addr) == Some(i0 as int));
        if i1 < g.level1 {
            lemma_populated_descend(table, 1, i0 as int, addr);
            let f1 = i0 * g.level1 + i1;
            if i2 < g.level2 {
                lemma_populated_descend(table, 2, f1, addr);
                let f2 = f1 * g.level2 + i2;
                if i3 < g.level3 {
                    layout.lemma_leaf_indices(i0 as int, i1 as int, i2 as int, i3 as int);
                    let leaf = f2 * g.level3 + i3;
                    assert(table.spec_words(3).len() == g.spec_entries(3));
                    assert(table.level3@[leaf] == layout.spec_entry_word(3, leaf));
                    lemma_page_word(layout.spec_leaf_phys(leaf), layout.granule);
                }
            }
        }
    }
}

/// Identity mapping through the descriptors: in a populated store whose
/// geometry is planned for a RAM extent that the granule can cover, the
/// walk through the descriptors maps every address of the extent to the
/// start of the page that holds it, and so every page-aligned address to
/// itself.
pub proof fn lemma_populated_walk_identity(table: TranslationTable, addr: u64)
    requires
        table.wf(),
        table.populated(),
        table.layout.planned(),
        table.layout.granule.spec_can_cover(table.layout.ram_extent),
        addr < table.layout.ram_extent,
    ensures
        table.spec_walk(addr) == Some(table.layout.granule.spec_page_base(addr)),
        addr % table.layout.granule.spec_page_size() == 0 ==> table.spec_walk(addr) == Some(addr),
{
    lemma_populated_walk(table, addr);
    lemma_populated_translates_to_page(table, addr);
    table.layout.granule.lemma_page_base(addr);
}

} // verus!
