use kernel_bringup::bits::{extract_bits, place_bits, range_mask};
use kernel_bringup::descriptor::{
    decode_output_addr, is_storable, AccessPermission, PageEntry, Shareability, TableDescriptor,
};
use kernel_bringup::geometry::{size_for, Geometry};
use kernel_bringup::granule::Granule;
use kernel_bringup::layout::Layout;
use kernel_bringup::table::{LayoutViolation, TranslationTable};
use kernel_bringup::units::{GIB, KIB, MIB, TIB};

const BASE: u64 = 0x8_0000;

fn populated(granule: Granule, ram_extent: u64, base: u64) -> TranslationTable {
    let layout = Layout::plan(granule, ram_extent, base).expect("the store fits");
    let mut table = TranslationTable::new(layout);
    table.populate();
    table
}

#[test]
fn units_are_powers_of_1024() {
    assert_eq!(KIB, 1024);
    assert_eq!(MIB, 1024 * KIB);
    assert_eq!(GIB, 1024 * MIB);
    assert_eq!(TIB, 1024 * GIB);
}

#[test]
fn range_mask_covers_exactly_the_range() {
    assert_eq!(range_mask(12, 47), 0x0000_FFFF_FFFF_F000);
    assert_eq!(range_mask(0, 0), 1);
    assert_eq!(range_mask(0, 63), u64::MAX);
    assert_eq!(range_mask(63, 63), 0x8000_0000_0000_0000);
}

#[test]
fn extract_bits_reads_the_range() {
    assert_eq!(extract_bits(0x1234_5000, 12, 20), 0x145);
    assert_eq!(extract_bits(0x1234_5000, 21, 29), 0x91);
    assert_eq!(extract_bits(0x1234_5000, 30, 38), 0);
    assert_eq!(extract_bits(u64::MAX, 39, 47), 511);
    assert_eq!(extract_bits(u64::MAX, 0, 63), u64::MAX);
}

#[test]
fn extract_bits_round_trips_a_placed_value() {
    let ranges: [(u64, u64); 6] = [(0, 0), (12, 20), (21, 29), (39, 47), (42, 47), (0, 63)];
    for (lo, hi) in ranges {
        let top = if hi - lo == 63 { u64::MAX } else { (1u64 << (hi - lo + 1)) - 1 };
        for k in [0, 1, top / 2, top] {
            let word = place_bits(k, lo, hi);
            assert_eq!(extract_bits(word, lo, hi), k);
            assert_eq!(word & !range_mask(lo, hi), 0);
        }
    }
}

#[test]
fn granule_tables_match_the_architecture() {
    let g = Granule::Kib4;
    assert_eq!(g.page_size(), 4 * KIB);
    assert_eq!(
        [g.coverage(0), g.coverage(1), g.coverage(2), g.coverage(3)],
        [512 * GIB, GIB, 2 * MIB, 4 * KIB]
    );
    assert_eq!(
        [g.index_range(0), g.index_range(1), g.index_range(2), g.index_range(3)],
        [Some((39, 63)), Some((30, 38)), Some((21, 29)), Some((12, 20))]
    );
    for level in 0..4 {
        assert_eq!(g.max_entries(level), 512);
        assert_eq!(g.coverage(level), 1u64 << g.shift(level));
    }
    let g = Granule::Kib64;
    assert_eq!(g.page_size(), 64 * KIB);
    assert_eq!(
        [g.max_entries(0), g.max_entries(1), g.max_entries(2), g.max_entries(3)],
        [1, 64, 8192, 8192]
    );
    assert_eq!(
        [g.coverage(0), g.coverage(1), g.coverage(2), g.coverage(3)],
        [256 * TIB, 4 * TIB, 512 * MIB, 64 * KIB]
    );
    assert_eq!(
        [g.index_range(0), g.index_range(1), g.index_range(2), g.index_range(3)],
        [None, Some((42, 63)), Some((29, 41)), Some((16, 28))]
    );
}

#[test]
fn coverage_chains_from_level_to_level() {
    for g in [Granule::Kib4, Granule::Kib64] {
        for level in 0..3 {
            assert_eq!(g.coverage(level), g.max_entries(level + 1) as u64 * g.coverage(level + 1));
        }
        assert_eq!(g.coverage(3), g.page_size());
        assert_eq!(g.page_size(), 1u64 << g.page_bits());
    }
}

#[test]
fn can_cover_up_to_the_address_space() {
    for g in [Granule::Kib4, Granule::Kib64] {
        assert!(g.can_cover(0));
        assert!(g.can_cover(1 << 48));
        assert!(!g.can_cover((1 << 48) + 1));
    }
}

#[test]
fn size_for_four_gib_less_one_with_4k_pages() {
    let extent = 4 * GIB - 1;
    assert_eq!(size_for(Granule::Kib4, 0, extent), 1);
    assert_eq!(size_for(Granule::Kib4, 1, extent), 4);
    assert_eq!(size_for(Granule::Kib4, 2, extent), 512);
    assert_eq!(size_for(Granule::Kib4, 3, extent), 512);
}

#[test]
fn size_for_rounds_up_and_clamps() {
    assert_eq!(size_for(Granule::Kib4, 3, 0), 1);
    assert_eq!(size_for(Granule::Kib4, 3, 1), 1);
    assert_eq!(size_for(Granule::Kib4, 3, 4 * KIB), 1);
    assert_eq!(size_for(Granule::Kib4, 3, 4 * KIB + 1), 2);
    assert_eq!(size_for(Granule::Kib4, 3, 2 * MIB), 512);
    assert_eq!(size_for(Granule::Kib4, 3, u64::MAX), 512);
    assert_eq!(size_for(Granule::Kib4, 2, 3 * MIB), 2);
    assert_eq!(size_for(Granule::Kib4, 0, 512 * GIB + 1), 2);
    assert_eq!(size_for(Granule::Kib4, 0, u64::MAX), 512);
    assert_eq!(size_for(Granule::Kib64, 0, u64::MAX), 1);
    assert_eq!(size_for(Granule::Kib64, 1, 4 * TIB + 1), 2);
    assert_eq!(size_for(Granule::Kib64, 2, GIB), 2);
    assert_eq!(size_for(Granule::Kib64, 3, GIB), 8192);
}

#[test]
fn size_for_spans_the_extent_where_the_level_can() {
    for g in [Granule::Kib4, Granule::Kib64] {
        for level in 0..4 {
            let reach = g.max_entries(level) as u64 * g.coverage(level);
            for extent in [0, 1, g.coverage(level) - 1, g.coverage(level), reach - 1, reach] {
                let n = size_for(g, level, extent);
                assert!(1 <= n && n <= g.max_entries(level));
                assert!(n as u64 * g.coverage(level) >= extent);
            }
        }
    }
}

#[test]
fn plan_holds_the_count_of_every_level() {
    let geometry = Geometry::plan(Granule::Kib4, GIB - 4 * KIB);
    assert_eq!(geometry, Geometry { level0: 1, level1: 1, level2: 512, level3: 512 });
    for level in 0..4 {
        assert_eq!(geometry.entry_count(level), size_for(Granule::Kib4, level, GIB - 4 * KIB));
    }
}

#[test]
fn table_descriptor_has_the_documented_bits() {
    let d = TableDescriptor::pointing_to(0x8_1000);
    assert_eq!(d.pack(Granule::Kib4), 0x2000_0000_0008_1003);
    let all = TableDescriptor {
        valid: true,
        table: true,
        output_addr: 0x0000_FFFF_FFFF_F000,
        privileged_execute_never: true,
        unprivileged_execute_never: true,
        access: AccessPermission::UrPr,
    };
    assert_eq!(all.pack(Granule::Kib4), 0x7800_FFFF_FFFF_F003);
    assert_eq!(TableDescriptor::unpack(0x7800_FFFF_FFFF_F003, Granule::Kib4), all);
    assert_eq!(TableDescriptor::unpack(d.pack(Granule::Kib64), Granule::Kib64).output_addr, 0x8_0000);
}

#[test]
fn page_entry_has_the_documented_bits() {
    let e = PageEntry::mapping(0x1234_5000);
    assert_eq!(e.pack(Granule::Kib4), 0x1234_5403);
    let all = PageEntry {
        valid: true,
        page: true,
        attr_index: 3,
        access: AccessPermission::UnPr,
        shareability: Shareability::InnerShareable,
        access_flag: true,
        output_addr: 0x1_0000,
        privileged_execute_never: true,
        unprivileged_execute_never: true,
    };
    let word = (1 << 54) | (1 << 53) | 0x1_0000 | (1 << 10) | (3 << 8) | (2 << 6) | (3 << 2) | 3;
    assert_eq!(all.pack(Granule::Kib64), word);
    assert_eq!(PageEntry::unpack(word, Granule::Kib64), all);
}

#[test]
fn the_zero_word_decodes_as_invalid() {
    for g in [Granule::Kib4, Granule::Kib64] {
        assert!(!TableDescriptor::unpack(0, g).valid);
        assert!(!PageEntry::unpack(0, g).valid);
        assert_eq!(decode_output_addr(0, g), 0);
    }
}

#[test]
fn access_and_shareability_codes_round_trip() {
    let access = [
        AccessPermission::UnPrw,
        AccessPermission::UrwPrw,
        AccessPermission::UnPr,
        AccessPermission::UrPr,
    ];
    let share = [
        Shareability::NonShareable,
        Shareability::Unpredictable,
        Shareability::OuterShareable,
        Shareability::InnerShareable,
    ];
    for code in 0..4u64 {
        assert_eq!(access[code as usize].bits(), code);
        assert_eq!(AccessPermission::from_bits(code), access[code as usize]);
        assert_eq!(AccessPermission::from_bits(code | 0xF4), access[code as usize]);
        assert_eq!(share[code as usize].bits(), code);
        assert_eq!(Shareability::from_bits(code), share[code as usize]);
    }
}

#[test]
fn storable_addresses_are_aligned_and_below_two_to_the_48() {
    assert!(is_storable(0, Granule::Kib4));
    assert!(is_storable(0x1000, Granule::Kib4));
    assert!(!is_storable(0x1000, Granule::Kib64));
    assert!(!is_storable(0x1001, Granule::Kib4));
    assert!(is_storable(0x0000_FFFF_FFFF_F000, Granule::Kib4));
    assert!(!is_storable(0x0001_0000_0000_0000, Granule::Kib4));
}

#[test]
fn plan_refuses_a_store_that_does_not_fit() {
    assert!(Layout::plan(Granule::Kib4, GIB, 0x8_0000).is_some());
    assert!(Layout::plan(Granule::Kib4, GIB, 0x8_0800).is_none());
    assert!(Layout::plan(Granule::Kib64, GIB, 0x8_1000).is_none());
    assert!(Layout::plan(Granule::Kib4, GIB, (1 << 48) - 0x1000).is_none());
    // 1 + 1 + 1 + 512 tables of one page each end exactly at 2^48.
    assert!(Layout::plan(Granule::Kib4, GIB, (1 << 48) - 515 * 0x1000).is_some());
    assert!(Layout::plan(Granule::Kib4, GIB, (1 << 48) - 514 * 0x1000).is_none());
}

#[test]
fn tables_follow_each_other_page_by_page() {
    let layout = Layout::plan(Granule::Kib4, 4 * GIB - 1, BASE).unwrap();
    assert_eq!(layout.geometry, Geometry { level0: 1, level1: 4, level2: 512, level3: 512 });
    assert_eq!(
        [layout.entries(0), layout.entries(1), layout.entries(2), layout.entries(3)],
        [1, 4, 2048, 1_048_576]
    );
    assert_eq!(
        [layout.tables(0), layout.tables(1), layout.tables(2), layout.tables(3)],
        [1, 1, 4, 2048]
    );
    assert_eq!(layout.table_addr(0, 0), BASE);
    assert_eq!(layout.table_addr(1, 0), BASE + 0x1000);
    assert_eq!(layout.table_addr(2, 0), BASE + 2 * 0x1000);
    assert_eq!(layout.table_addr(2, 3), BASE + 5 * 0x1000);
    assert_eq!(layout.table_addr(3, 0), BASE + 6 * 0x1000);
    assert_eq!(layout.table_addr(3, 2047), BASE + 2053 * 0x1000);
}

#[test]
fn a_new_store_is_all_zero() {
    let layout = Layout::plan(Granule::Kib4, 3 * MIB, BASE).unwrap();
    let table = TranslationTable::new(layout);
    assert_eq!(table.layout, layout);
    for level in 0..4 {
        assert_eq!(table.words(level).len(), layout.entries(level));
        assert!(table.words(level).iter().all(|w| *w == 0));
    }
    assert_eq!(table.translate(0), Some(0));
    assert_eq!(table.verify_identity_mapping(), Err(LayoutViolation::NotIdentity { addr: 0x1000, found: 0 }));
    assert_eq!(
        table.verify_pointers(),
        Err(LayoutViolation::Pointer { level: 0, entry: 0, expected: BASE + 0x1000, found: 0 })
    );
}

#[test]
fn one_gib_less_a_page_is_identity_mapped() {
    let table = populated(Granule::Kib4, GIB - 4 * KIB, BASE);
    assert_eq!(table.verify_pointers(), Ok(()));
    assert_eq!(table.verify_identity_mapping(), Ok(()));
    assert_eq!(table.translate(0x1234_5000), Some(0x1234_5000));
    assert_eq!(table.translate(0x1234_5500), Some(0x1234_5000));
    assert_eq!(table.translate(0), Some(0));
    assert_eq!(table.translate(GIB - 4 * KIB), Some(GIB - 4 * KIB));
}

#[test]
fn every_page_of_the_extent_translates_to_itself() {
    for (granule, extent) in [
        (Granule::Kib4, 3 * MIB),
        (Granule::Kib4, 2 * MIB + 1),
        (Granule::Kib4, 8 * KIB),
        (Granule::Kib64, 3 * GIB / 8),
        (Granule::Kib64, 64 * KIB + 1),
    ] {
        let table = populated(granule, extent, 0x4000_0000);
        let mut addr = 0;
        while addr < extent {
            assert_eq!(table.translate(addr), Some(addr));
            addr += granule.page_size();
        }
        assert_eq!(table.verify_identity_mapping(), Ok(()));
        assert_eq!(table.verify_pointers(), Ok(()));
    }
}

#[test]
fn addresses_beyond_the_geometry_are_not_mapped() {
    let table = populated(Granule::Kib4, GIB - 4 * KIB, BASE);
    assert_eq!(table.translate(GIB), None);
    assert_eq!(table.translate(512 * GIB), None);
    let small = populated(Granule::Kib4, 8 * KIB, BASE);
    assert_eq!(small.translate(4 * KIB), Some(4 * KIB));
    assert_eq!(small.translate(8 * KIB), None);
    assert_eq!(small.translate(2 * MIB), None);
}

#[test]
fn nothing_at_or_beyond_two_to_the_48_is_mapped() {
    for (granule, extent) in [(Granule::Kib4, 8 * KIB), (Granule::Kib4, GIB), (Granule::Kib64, GIB)] {
        let table = populated(granule, extent, 0x4000_0000);
        assert_eq!(table.translate(0), Some(0));
        for addr in [1 << 48, (1 << 48) + granule.page_size(), 1 << 52, 1 << 63, u64::MAX] {
            assert_eq!(table.translate(addr), None);
            assert_eq!(table.walk(addr), None);
        }
        assert_eq!(table.translate((1 << 48) - 1), None);
    }
    assert_eq!(Granule::Kib4.index_of(0, 1 << 48), 512);
    assert_eq!(Granule::Kib4.index_of(0, u64::MAX), (1 << 25) - 1);
    assert_eq!(Granule::Kib4.index_of(0, (1 << 48) - 1), 511);
    assert_eq!(Granule::Kib64.index_of(1, 1 << 48), 64);
    assert_eq!(Granule::Kib64.index_of(1, (1 << 48) - 1), 63);
    assert_eq!(Granule::Kib64.index_of(0, u64::MAX), 0);
}

#[test]
fn wide_granule_skips_level_0() {
    let table = populated(Granule::Kib64, GIB, 0x4000_0000);
    assert_eq!(table.translate(0x1234_0000), Some(0x1234_0000));
    assert_eq!(table.translate(0x1234_5500), Some(0x1234_0000));
    assert_eq!(table.translate(0x1234_5501), Some(0x1234_0000));
    assert_eq!(table.walk(0x1234_5501), Some(0x1234_0000));
    assert_eq!(table.index(0, 0x1234_5501), 0);
    assert_eq!(table.index(0, u64::MAX), 0);
    assert_eq!(table.index(1, 0x1234_5501), 0);
    assert_eq!(table.index(2, 0x1234_5501), 0);
    assert_eq!(table.index(3, 0x1234_5501), 0x1234);

    let table = populated(Granule::Kib64, GIB, 0);
    assert_eq!(table.translate(0), Some(0));
    assert_eq!(table.translate(1), Some(0));
    assert_eq!(table.translate(0x1_0000), Some(0x1_0000));
    assert_eq!(table.translate(0x1_0001), Some(0x1_0000));
    assert_eq!(table.walk(0x1_0001), Some(0x1_0000));
    assert_eq!(table.translate(0x1_FFFF), Some(0x1_0000));
}

#[test]
fn an_address_translates_as_the_start_of_its_page() {
    for (granule, extent) in [(Granule::Kib4, 5 * MIB), (Granule::Kib64, GIB)] {
        let page = granule.page_size();
        let table = populated(granule, extent, 0x4000_0000);
        let zeroed = TranslationTable::new(table.layout);
        let mut addr = 0;
        while addr < extent + 4 * page {
            for offset in [0, 1, 2, 0x7FF, page / 2, page - 1] {
                let inside = addr + offset;
                assert_eq!(granule.page_base(inside), addr);
                assert_eq!(granule.page_base(inside), inside & !(page - 1));
                assert_eq!(table.translate(inside), table.translate(addr));
                assert_eq!(table.walk(inside), table.walk(addr));
                assert_eq!(zeroed.translate(inside), zeroed.translate(addr));
                for level in 0..4 {
                    assert_eq!(granule.index_of(level, inside), granule.index_of(level, addr));
                }
                if inside < extent {
                    assert_eq!(table.translate(inside), Some(addr));
                }
            }
            addr += 37 * page;
        }
    }
}

#[test]
fn populated_descriptors_refer_to_their_child_tables() {
    let table = populated(Granule::Kib4, 4 * GIB - 1, BASE);
    let layout = table.layout;
    assert_eq!(table.words(0)[0], (BASE + 0x1000) | 0x2000_0000_0000_0003);
    for level in 0..3 {
        for (entry, word) in table.words(level).iter().enumerate() {
            let child = layout.table_addr(level + 1, entry);
            assert_eq!(decode_output_addr(*word, Granule::Kib4), child);
            assert_eq!(*word, TableDescriptor::pointing_to(child).pack(Granule::Kib4));
        }
    }
    // Leaf entry (l0, l1, l2, l3) = (0, 3, 17, 5).
    let leaf = ((0 * 4 + 3) * 512 + 17) * 512 + 5;
    let phys = (3u64 << 30) | (17 << 21) | (5 << 12);
    assert_eq!(table.words(3)[leaf], phys | 0x403);
    assert_eq!(PageEntry::unpack(table.words(3)[leaf], Granule::Kib4), PageEntry::mapping(phys));
}

#[test]
fn populating_twice_changes_nothing() {
    let layout = Layout::plan(Granule::Kib4, 5 * MIB, BASE).unwrap();
    let mut table = TranslationTable::new(layout);
    table.populate();
    let first: Vec<Vec<u64>> = (0..4).map(|level| table.words(level).clone()).collect();
    table.populate();
    for level in 0..4 {
        assert_eq!(*table.words(level), first[level]);
    }
    // What the store held before has no part in the result.
    let mut scribbled = TranslationTable::new(layout);
    for word in scribbled.level3.iter_mut() {
        *word = u64::MAX;
    }
    scribbled.populate();
    for level in 0..4 {
        assert_eq!(*scribbled.words(level), first[level]);
    }
}

#[test]
fn verify_pointers_names_the_first_wrong_descriptor() {
    let mut table = populated(Granule::Kib4, 4 * GIB - 1, BASE);
    let right = table.level2[700];
    table.level2[700] = TableDescriptor::pointing_to(0xAB_C000).pack(Granule::Kib4);
    table.level2[900] = 0;
    assert_eq!(
        table.verify_pointers(),
        Err(LayoutViolation::Pointer {
            level: 2,
            entry: 700,
            expected: BASE + (6 + 700) * 0x1000,
            found: 0xAB_C000,
        })
    );
    table.level1[3] = 0;
    assert_eq!(
        table.verify_pointers(),
        Err(LayoutViolation::Pointer {
            level: 1,
            entry: 3,
            expected: BASE + 5 * 0x1000,
            found: 0,
        })
    );
    table.level1[3] = TableDescriptor::pointing_to(BASE + 5 * 0x1000).pack(Granule::Kib4);
    table.level2[700] = right;
    table.level2[900] = TableDescriptor::pointing_to(BASE + 906 * 0x1000).pack(Granule::Kib4);
    assert_eq!(table.verify_pointers(), Ok(()));
}

#[test]
fn verify_identity_mapping_names_the_lowest_wrong_page() {
    let mut table = populated(Granule::Kib4, 4 * MIB, BASE);
    table.level3[9] = PageEntry::mapping(0x7000).pack(Granule::Kib4);
    table.level3[5] = PageEntry::mapping(0x9000).pack(Granule::Kib4);
    assert_eq!(
        table.verify_identity_mapping(),
        Err(LayoutViolation::NotIdentity { addr: 0x5000, found: 0x9000 })
    );
    assert_eq!(table.translate(0x5000), Some(0x9000));
}

#[test]
fn verify_identity_mapping_finds_what_the_geometry_leaves_out() {
    // One leaf table maps 2 MiB; the extent is 4 MiB.
    let geometry = Geometry { level0: 1, level1: 1, level2: 1, level3: 512 };
    let layout = Layout::with_geometry(Granule::Kib4, 4 * MIB, geometry, BASE).unwrap();
    let mut table = TranslationTable::new(layout);
    table.populate();
    assert_eq!(table.verify_pointers(), Ok(()));
    assert_eq!(table.translate(2 * MIB - 1), Some(2 * MIB - 4 * KIB));
    assert_eq!(table.translate(2 * MIB), None);
    assert_eq!(
        table.verify_identity_mapping(),
        Err(LayoutViolation::Unmapped { addr: 2 * MIB })
    );
}

#[test]
fn a_geometry_must_keep_within_the_hardware_limits() {
    let fine = Geometry { level0: 1, level1: 2, level2: 3, level3: 4 };
    let layout = Layout::with_geometry(Granule::Kib4, GIB, fine, BASE).unwrap();
    assert_eq!(layout, Layout { granule: Granule::Kib4, ram_extent: GIB, geometry: fine, base: BASE });
    assert_eq!(layout.entries(3), 24);
    assert_eq!(layout.table_addr(3, 5), BASE + (1 + 1 + 2 + 5) * 0x1000);
    for geometry in [
        Geometry { level0: 0, ..fine },
        Geometry { level1: 0, ..fine },
        Geometry { level2: 513, ..fine },
        Geometry { level3: 8192, ..fine },
    ] {
        assert!(Layout::with_geometry(Granule::Kib4, GIB, geometry, BASE).is_none());
    }
    let wide = Geometry { level0: 1, level1: 64, level2: 2, level3: 8192 };
    assert!(Layout::with_geometry(Granule::Kib64, GIB, wide, 0x1_0000).is_some());
    assert!(Layout::with_geometry(Granule::Kib64, GIB, Geometry { level0: 2, ..wide }, 0x1_0000).is_none());
    assert!(Layout::with_geometry(Granule::Kib64, GIB, Geometry { level1: 65, ..wide }, 0x1_0000).is_none());
}

#[test]
fn the_descriptor_walk_agrees_with_the_walk_by_position() {
    for (granule, extent, base) in [
        (Granule::Kib4, 5 * MIB, BASE),
        (Granule::Kib4, GIB - 4 * KIB, 0x4000_0000),
        (Granule::Kib64, GIB, 0x4000_0000),
    ] {
        let table = populated(granule, extent, base);
        let mut addr = 0;
        while addr < extent + 4 * MIB {
            assert_eq!(table.walk(addr), table.translate(addr));
            assert_eq!(table.walk(addr + 0x123), table.translate(addr + 0x123));
            addr += 16 * granule.page_size() - granule.page_size();
        }
        assert_eq!(table.walk(0), Some(0));
        assert_eq!(table.walk(u64::MAX), table.translate(u64::MAX));
    }
    let table = populated(Granule::Kib4, GIB - 4 * KIB, BASE);
    assert_eq!(table.walk(0x1234_5000), Some(0x1234_5000));
    assert_eq!(table.walk(0x1234_5500), Some(0x1234_5000));
    assert_eq!(table.walk(GIB), None);
}

#[test]
fn the_descriptor_walk_stops_at_an_invalid_descriptor() {
    let layout = Layout::plan(Granule::Kib4, 4 * MIB, BASE).unwrap();
    let zeroed = TranslationTable::new(layout);
    assert_eq!(zeroed.walk(0), None);
    assert_eq!(zeroed.descend(0, 0, 0), None);

    let mut table = populated(Granule::Kib4, 4 * MIB, BASE);
    assert_eq!(table.descend(0, 0, 0x20_1000), Some(0));
    assert_eq!(table.descend(1, 0, 0x20_1000), Some(0));
    assert_eq!(table.descend(2, 0, 0x20_1000), Some(1));
    assert_eq!(table.walk(0x20_1000), Some(0x20_1000));
    // A cleared valid bit, a block in place of a table, an address that is no table of the store.
    for word in [
        table.level2[1] & !1,
        table.level2[1] & !2,
        TableDescriptor::pointing_to(BASE + 0x800_0000).pack(Granule::Kib4),
        TableDescriptor::pointing_to(BASE).pack(Granule::Kib4),
    ] {
        let right = table.level2[1];
        table.level2[1] = word;
        assert_eq!(table.walk(0x20_1000), None);
        assert_eq!(table.translate(0x20_1000), Some(0x20_1000));
        assert_eq!(table.walk(0x1000), Some(0x1000));
        table.level2[1] = right;
    }
    table.level3[513] &= !1;
    assert_eq!(table.walk(0x20_1000), None);
}

#[test]
fn the_descriptor_walk_follows_the_addresses_it_reads() {
    let mut table = populated(Granule::Kib4, 4 * MIB, BASE);
    // Both entries of level 2 refer to the first leaf table.
    table.level2[1] = table.level2[0];
    assert_eq!(table.walk(0x20_1000), Some(0x1000));
    assert_eq!(table.translate(0x20_1000), Some(0x20_1000));
    assert_eq!(
        table.verify_pointers(),
        Err(LayoutViolation::Pointer {
            level: 2,
            entry: 1,
            expected: BASE + 4 * 0x1000,
            found: BASE + 3 * 0x1000,
        })
    );
}

#[test]
fn a_table_is_found_again_from_its_address() {
    let layout = Layout::plan(Granule::Kib4, 4 * GIB - 1, BASE).unwrap();
    for level in 0..4 {
        for number in [0, layout.tables(level) / 2, layout.tables(level) - 1] {
            assert_eq!(layout.table_at(level, layout.table_addr(level, number)), Some(number));
        }
    }
    assert_eq!(layout.table_at(2, BASE + 2 * 0x1000), Some(0));
    assert_eq!(layout.table_at(2, BASE + 0x1000), None);
    assert_eq!(layout.table_at(2, BASE + 6 * 0x1000), None);
    assert_eq!(layout.table_at(2, BASE + 2 * 0x1000 + 8), None);
    assert_eq!(layout.table_at(0, 0), None);
}
