//! The two 64-bit descriptor encodings of the translation tables: table
//! descriptors at levels 0 to 2 and page entries at level 3.
//!
//! Bit 0 is the valid bit and bit 1 the type bit of both. The output
//! address occupies the bits from the page-offset width up to bit 47 and is
//! stored in place, so that a page-aligned address below 2^48 is its own
//! field value. The all-zero word decodes as invalid.

use vstd::prelude::*;
use crate::granule::Granule;

verus! {

/// Bits 12..=47: the output address field with 4 KiB pages.
pub const OUTPUT_ADDR_MASK_4K: u64 = 0x0000_FFFF_FFFF_F000;

/// Bits 16..=47: the output address field with 64 KiB pages.
pub const OUTPUT_ADDR_MASK_64K: u64 = 0x0000_FFFF_FFFF_0000;

/// Bit positions of the table descriptor's upper attributes.
pub const TABLE_PXN_SHIFT: u64 = 59;

pub const TABLE_UXN_SHIFT: u64 = 60;

pub const TABLE_ACCESS_SHIFT: u64 = 61;

/// Bit positions of the page entry's attributes.
pub const PAGE_ATTR_INDEX_SHIFT: u64 = 2;

pub const PAGE_ACCESS_SHIFT: u64 = 6;

pub const PAGE_SHAREABILITY_SHIFT: u64 = 8;

pub const PAGE_ACCESS_FLAG_SHIFT: u64 = 10;

pub const PAGE_PXN_SHIFT: u64 = 53;

pub const PAGE_UXN_SHIFT: u64 = 54;

/// The word of a table descriptor as the populator writes it, before the
/// output address is added: valid, type table, read/write at both
/// privilege tiers.
pub const TABLE_FLAGS: u64 = 0x2000_0000_0000_0003;

/// The word of a page entry as the populator writes it, before the output
/// address is added: valid, type page, access flag set.
pub const PAGE_FLAGS: u64 = 0x403;

/// The mask of the output address field.
pub open spec fn spec_output_addr_mask(granule: Granule) -> u64 {
    match granule {
        Granule::Kib4 => OUTPUT_ADDR_MASK_4K,
        Granule::Kib64 => OUTPUT_ADDR_MASK_64K,
    }
}

/// The output address that a descriptor of either kind holds.
pub open spec fn spec_decode_output_addr(word: u64, granule: Granule) -> u64 {
    word & spec_output_addr_mask(granule)
}

/// Whether an address can be stored in the output address field without
/// loss: it is page-aligned and below 2^48.
pub open spec fn storable(addr: u64, granule: Granule) -> bool {
    addr & spec_output_addr_mask(granule) == addr
}

/// The table descriptor that the populator writes for a child table at `addr`.
pub open spec fn spec_table_word(addr: u64, granule: Granule) -> u64 {
    (addr & spec_output_addr_mask(granule)) | TABLE_FLAGS
}

/// The page entry that the populator writes for the page at `phys`.
pub open spec fn spec_page_word(phys: u64, granule: Granule) -> u64 {
    (phys & spec_output_addr_mask(granule)) | PAGE_FLAGS
}

pub open spec fn bit(b: bool) -> u64 {
    if b {
        1
    } else {
        0
    }
}

fn bit_of(b: bool) -> (r: u64)
    ensures
        r == bit(b),
{
    if b {
        1
    } else {
        0
    }
}

pub fn output_addr_mask(granule: Granule) -> (m: u64)
    ensures
        m == spec_output_addr_mask(granule),
        m == crate::bits::mask(granule.spec_page_bits(), 47),
{
    proof {
        lemma_mask_shape(granule);
    }
    match granule {
        Granule::Kib4 => OUTPUT_ADDR_MASK_4K,
        Granule::Kib64 => OUTPUT_ADDR_MASK_64K,
    }
}

/// Reads the output address of a descriptor of either kind.
pub fn decode_output_addr(word: u64, granule: Granule) -> (addr: u64)
    ensures
        addr == spec_decode_output_addr(word, granule),
        storable(addr, granule),
{
    let m: u64 = output_addr_mask(granule);
    assert((word & m) & m == word & m) by (bit_vector);
    word & m
}

/// Whether an address is page-aligned and below 2^48.
pub fn is_storable(addr: u64, granule: Granule) -> (r: bool)
    ensures
        r == storable(addr, granule),
        r == (addr % granule.spec_page_size() == 0 && addr < 0x1_0000_0000_0000),
{
    let m: u64 = output_addr_mask(granule);
    proof {
        lemma_storable_is_aligned(addr, granule);
    }
    addr & m == addr
}

/// An address fits the output address field exactly when it is a multiple
/// of the page size below 2^48.
pub proof fn lemma_storable_is_aligned(addr: u64, granule: Granule)
    ensures
        storable(addr, granule) == (addr % granule.spec_page_size() == 0 && addr
            < 0x1_0000_0000_0000),
{
    assert(((addr & 0x0000_FFFF_FFFF_F000u64 == addr) == (addr % 0x1000u64 == 0 && addr
        < 0x1_0000_0000_0000u64)) && ((addr & 0x0000_FFFF_FFFF_0000u64 == addr) == (addr
        % 0x1_0000u64 == 0 && addr < 0x1_0000_0000_0000u64))) by (bit_vector);
}

/// Access permissions of a table or page, by privilege tier.
#[derive(Clone, Copy, Debug, PartialEq, Eq, Structural)]
pub enum AccessPermission {
    /// Unprivileged: none. Privileged: read and write.
    UnPrw,
    /// Unprivileged: read and write. Privileged: read and write.
    UrwPrw,
    /// Unprivileged: none. Privileged: read.
    UnPr,
    /// Unprivileged: read. Privileged: read.
    UrPr,
}

impl AccessPermission {
    pub open spec fn spec_bits(self) -> u64 {
        match self {
            AccessPermission::UnPrw => 0,
            AccessPermission::UrwPrw => 1,
            AccessPermission::UnPr => 2,
            AccessPermission::UrPr => 3,
        }
    }

    /// The permission that a two-bit field value stands for; bits above
    /// the field are ignored.
    pub open spec fn spec_from_bits(bits: u64) -> Self {
        let low = bits & 3;
        if low == 0 {
            AccessPermission::UnPrw
        } else if low == 1 {
            AccessPermission::UrwPrw
        } else if low == 2 {
            AccessPermission::UnPr
        } else {
            AccessPermission::UrPr
        }
    }

    pub fn bits(self) -> (r: u64)
        ensures
            r == self.spec_bits(),
            r <= 3,
    {
        match self {
            AccessPermission::UnPrw => 0,
            AccessPermission::UrwPrw => 1,
            AccessPermission::UnPr => 2,
            AccessPermission::UrPr => 3,
        }
    }

    pub fn from_bits(bits: u64) -> (r: Self)
        ensures
            r == Self::spec_from_bits(bits),
    {
        let low: u64 = bits & 3;
        if low == 0 {
            AccessPermission::UnPrw
        } else if low == 1 {
            AccessPermission::UrwPrw
        } else if low == 2 {
            AccessPermission::UnPr
        } else {
            AccessPermission::UrPr
        }
    }
}

/// Shareability domain of a page.
#[derive(Clone, Copy, Debug, PartialEq, Eq, Structural)]
pub enum Shareability {
    NonShareable,
    Unpredictable,
    OuterShareable,
    InnerShareable,
}

impl Shareability {
    pub open spec fn spec_bits(self) -> u64 {
        match self {
            Shareability::NonShareable => 0,
            Shareability::Unpredictable => 1,
            Shareability::OuterShareable => 2,
            Shareability::InnerShareable => 3,
        }
    }

    /// The domain that a two-bit field value stands for; bits above the
    /// field are ignored.
    pub open spec fn spec_from_bits(bits: u64) -> Self {
        let low = bits & 3;
        if low == 0 {
            Shareability::NonShareable
        } else if low == 1 {
            Shareability::Unpredictable
        } else if low == 2 {
            Shareability::OuterShareable
        } else {
            Shareability::InnerShareable
        }
    }

    pub fn bits(self) -> (r: u64)
        ensures
            r == self.spec_bits(),
            r <= 3,
    {
        match self {
            Shareability::NonShareable => 0,
            Shareability::Unpredictable => 1,
            Shareability::OuterShareable => 2,
            Shareability::InnerShareable => 3,
        }
    }

    pub fn from_bits(bits: u64) -> (r: Self)
        ensures
            r == Self::spec_from_bits(bits),
    {
        let low: u64 = bits & 3;
        if low == 0 {
            Shareability::NonShareable
        } else if low == 1 {
            Shareability::Unpredictable
        } else if low == 2 {
            Shareability::OuterShareable
        } else {
            Shareability::InnerShareable
        }
    }
}

/// A descriptor of levels 0 to 2, which refers to a child table.
#[derive(Clone, Copy, Debug, PartialEq, Eq, Structural)]
pub struct TableDescriptor {
    pub valid: bool,
    /// Type bit: set for a table, clear for a block.
    pub table: bool,
    /// Address of the child table.
    pub output_addr: u64,
    pub privileged_execute_never: bool,
    pub unprivileged_execute_never: bool,
    pub access: AccessPermission,
}

impl TableDescriptor {
    pub open spec fn spec_pack(self, granule: Granule) -> u64 {
        bit(self.valid) | (bit(self.table) << 1) | (self.output_addr & spec_output_addr_mask(
            granule,
        )) | (bit(self.privileged_execute_never) << TABLE_PXN_SHIFT) | (bit(
            self.unprivileged_execute_never,
        ) << TABLE_UXN_SHIFT) | (self.access.spec_bits() << TABLE_ACCESS_SHIFT)
    }

    pub open spec fn spec_unpack(word: u64, granule: Granule) -> Self {
        TableDescriptor {
            valid: word & 1 == 1,
            table: (word >> 1) & 1 == 1,
            output_addr: word & spec_output_addr_mask(granule),
            privileged_execute_never: (word >> TABLE_PXN_SHIFT) & 1 == 1,
            unprivileged_execute_never: (word >> TABLE_UXN_SHIFT) & 1 == 1,
            access: AccessPermission::spec_from_bits(word >> TABLE_ACCESS_SHIFT),
        }
    }

    /// The descriptor that the populator writes for a child table at `addr`.
    pub open spec fn spec_pointing_to(addr: u64) -> Self {
        TableDescriptor {
            valid: true,
            table: true,
            output_addr: addr,
            privileged_execute_never: false,
            unprivileged_execute_never: false,
            access: AccessPermission::UrwPrw,
        }
    }

    /// A valid table descriptor that refers to the child table at `addr`
    /// and grants read and write access at both privilege tiers, with no
    /// execute restriction.
    pub fn pointing_to(addr: u64) -> (d: Self)
        ensures
            d == Self::spec_pointing_to(addr),
    {
        TableDescriptor {
            valid: true,
            table: true,
            output_addr: addr,
            privileged_execute_never: false,
            unprivileged_execute_never: false,
            access: AccessPermission::UrwPrw,
        }
    }

    /// Encodes the descriptor. Bits of the address outside the output
    /// address field are dropped.
    pub fn pack(&self, granule: Granule) -> (word: u64)
        ensures
            word == self.spec_pack(granule),
            storable(self.output_addr, granule) ==> Self::spec_unpack(word, granule) == *self,
            *self == Self::spec_pointing_to(self.output_addr) ==> word == spec_table_word(
                self.output_addr,
                granule,
            ),
    {
        let m: u64 = output_addr_mask(granule);
        proof {
            if storable(self.output_addr, granule) {
                self.lemma_unpack_pack(granule);
            }
            lemma_table_word(self.output_addr, granule);
        }
        bit_of(self.valid) | (bit_of(self.table) << 1) | (self.output_addr & m) | (bit_of(
            self.privileged_execute_never,
        ) << TABLE_PXN_SHIFT) | (bit_of(self.unprivileged_execute_never) << TABLE_UXN_SHIFT) | (
        self.access.bits() << TABLE_ACCESS_SHIFT)
    }

    /// Decodes a word. The all-zero word decodes as invalid.
    pub fn unpack(word: u64, granule: Granule) -> (d: Self)
        ensures
            d == Self::spec_unpack(word, granule),
            storable(d.output_addr, granule),
            d.output_addr == spec_decode_output_addr(word, granule),
            word == 0 ==> !d.valid,
    {
        let m: u64 = output_addr_mask(granule);
        proof {
            assert((word & m) & m == word & m) by (bit_vector);
            assert(0u64 & 1 == 0) by (bit_vector);
        }
        TableDescriptor {
            valid: word & 1 == 1,
            table: (word >> 1) & 1 == 1,
            output_addr: word & m,
            privileged_execute_never: (word >> TABLE_PXN_SHIFT) & 1 == 1,
            unprivileged_execute_never: (word >> TABLE_UXN_SHIFT) & 1 == 1,
            access: AccessPermission::from_bits(word >> TABLE_ACCESS_SHIFT),
        }
    }

    /// Round trip: a descriptor whose address fits the output address
    /// field is decoded unchanged from its encoding.
    pub proof fn lemma_unpack_pack(self, granule: Granule)
        requires
            storable(self.output_addr, granule),
        ensures
            Self::spec_unpack(self.spec_pack(granule), granule) == self,
    {
        let v = bit(self.valid);
        let t = bit(self.table);
        let p = bit(self.privileged_execute_never);
        let u = bit(self.unprivileged_execute_never);
        let a = self.access.spec_bits();
        let m = spec_output_addr_mask(granule);
        let oa = self.output_addr;
        let w = self.spec_pack(granule);
        assert(w == (v | (t << 1) | (oa & m) | (p << 59) | (u << 60) | (a << 61)));
        lemma_mask_shape(granule);
        assert({
            &&& w & 1 == v
            &&& (w >> 1) & 1 == t
            &&& w & m == oa
            &&& (w >> 59) & 1 == p
            &&& (w >> 60) & 1 == u
            &&& (w >> 61) & 3 == a
        }) by (bit_vector)
            requires
                w == (v | (t << 1) | (oa & m) | (p << 59) | (u << 60) | (a << 61)),
                v <= 1,
                t <= 1,
                p <= 1,
                u <= 1,
                a <= 3,
                m & 0xFFFF_0000_0000_0FFFu64 == 0,
                oa & m == oa,
        ;
    }
}

/// The output address field lies within bits 12..=47 and is the bit range
/// from the page-offset width up to bit 47.
pub proof fn lemma_mask_shape(granule: Granule)
    ensures
        spec_output_addr_mask(granule) & 0xFFFF_0000_0000_0FFFu64 == 0,
        spec_output_addr_mask(granule) == crate::bits::mask(granule.spec_page_bits(), 47),
{
    assert(0x0000_FFFF_FFFF_F000u64 & 0xFFFF_0000_0000_0FFFu64 == 0 && 0x0000_FFFF_FFFF_0000u64
        & 0xFFFF_0000_0000_0FFFu64 == 0 && ((u64::MAX >> ((63 - (47u64 - 12u64)) as u64)) << 12u64)
        == 0x0000_FFFF_FFFF_F000u64 && ((u64::MAX >> ((63 - (47u64 - 16u64)) as u64)) << 16u64)
        == 0x0000_FFFF_FFFF_0000u64) by (bit_vector);
}

/// An entry of level 3, which maps one page.
#[derive(Clone, Copy, Debug, PartialEq, Eq, Structural)]
pub struct PageEntry {
    pub valid: bool,
    /// Type bit: set for a page.
    pub page: bool,
    /// Index into the memory-attribute table, 0 to 3.
    pub attr_index: u8,
    pub access: AccessPermission,
    pub shareability: Shareability,
    /// Set in advance: a clear flag would fault on the first access.
    pub access_flag: bool,
    /// Address of the mapped page.
    pub output_addr: u64,
    pub privileged_execute_never: bool,
    pub unprivileged_execute_never: bool,
}

impl PageEntry {
    /// The attribute index fits its two-bit field.
    pub open spec fn wf(self) -> bool {
        self.attr_index <= 3
    }

    pub open spec fn spec_pack(self, granule: Granule) -> u64 {
        bit(self.valid) | (bit(self.page) << 1) | (((self.attr_index as u64) & 3)
            << PAGE_ATTR_INDEX_SHIFT) | (self.access.spec_bits() << PAGE_ACCESS_SHIFT) | (
        self.shareability.spec_bits() << PAGE_SHAREABILITY_SHIFT) | (bit(self.access_flag)
            << PAGE_ACCESS_FLAG_SHIFT) | (self.output_addr & spec_output_addr_mask(granule)) | (bit(
            self.privileged_execute_never,
        ) << PAGE_PXN_SHIFT) | (bit(self.unprivileged_execute_never) << PAGE_UXN_SHIFT)
    }

    pub open spec fn spec_unpack(word: u64, granule: Granule) -> Self {
        PageEntry {
            valid: word & 1 == 1,
            page: (word >> 1) & 1 == 1,
            attr_index: ((word >> PAGE_ATTR_INDEX_SHIFT) & 3) as u8,
            access: AccessPermission::spec_from_bits(word >> PAGE_ACCESS_SHIFT),
            shareability: Shareability::spec_from_bits(word >> PAGE_SHAREABILITY_SHIFT),
            access_flag: (word >> PAGE_ACCESS_FLAG_SHIFT) & 1 == 1,
            output_addr: word & spec_output_addr_mask(granule),
            privileged_execute_never: (word >> PAGE_PXN_SHIFT) & 1 == 1,
            unprivileged_execute_never: (word >> PAGE_UXN_SHIFT) & 1 == 1,
        }
    }

    /// The entry that the populator writes for the page at `phys`.
    pub open spec fn spec_mapping(phys: u64) -> Self {
        PageEntry {
            valid: true,
            page: true,
            attr_index: 0,
            access: AccessPermission::UnPrw,
            shareability: Shareability::NonShareable,
            access_flag: true,
            output_addr: phys,
            privileged_execute_never: false,
            unprivileged_execute_never: false,
        }
    }

    /// A valid page entry for the page at `phys` with the access flag set,
    /// attribute index 0 and every other attribute clear.
    pub fn mapping(phys: u64) -> (e: Self)
        ensures
            e == Self::spec_mapping(phys),
            e.wf(),
    {
        PageEntry {
            valid: true,
            page: true,
            attr_index: 0,
            access: AccessPermission::UnPrw,
            shareability: Shareability::NonShareable,
            access_flag: true,
            output_addr: phys,
            privileged_execute_never: false,
            unprivileged_execute_never: false,
        }
    }

    /// Encodes the entry. Bits of the address outside the output address
    /// field, and bits of the attribute index above its field, are dropped.
    pub fn pack(&self, granule: Granule) -> (word: u64)
        ensures
            word == self.spec_pack(granule),
            self.wf() && storable(self.output_addr, granule) ==> Self::spec_unpack(word, granule)
                == *self,
            *self == Self::spec_mapping(self.output_addr) ==> word == spec_page_word(
                self.output_addr,
                granule,
            ),
    {
        let m: u64 = output_addr_mask(granule);
        proof {
            if self.wf() && storable(self.output_addr, granule) {
                self.lemma_unpack_pack(granule);
            }
            lemma_page_word(self.output_addr, granule);
        }
        bit_of(self.valid) | (bit_of(self.page) << 1) | (((self.attr_index as u64) & 3)
            << PAGE_ATTR_INDEX_SHIFT) | (self.access.bits() << PAGE_ACCESS_SHIFT) | (
        self.shareability.bits() << PAGE_SHAREABILITY_SHIFT) | (bit_of(self.access_flag)
            << PAGE_ACCESS_FLAG_SHIFT) | (self.output_addr & m) | (bit_of(
            self.privileged_execute_never,
        ) << PAGE_PXN_SHIFT) | (bit_of(self.unprivileged_execute_never) << PAGE_UXN_SHIFT)
    }

    /// Decodes a word. The all-zero word decodes as invalid.
    pub fn unpack(word: u64, granule: Granule) -> (e: Self)
        ensures
            e == Self::spec_unpack(word, granule),
            e.wf(),
            storable(e.output_addr, granule),
            e.output_addr == spec_decode_output_addr(word, granule),
            word == 0 ==> !e.valid,
    {
        let m: u64 = output_addr_mask(granule);
        let index: u64 = (word >> PAGE_ATTR_INDEX_SHIFT) & 3;
        proof {
            assert((word & m) & m == word & m && 0u64 & 1 == 0 && ((word >> 2u64) & 3) <= 3)
                by (bit_vector);
        }
        PageEntry {
            valid: word & 1 == 1,
            page: (word >> 1) & 1 == 1,
            attr_index: index as u8,
            access: AccessPermission::from_bits(word >> PAGE_ACCESS_SHIFT),
            shareability: Shareability::from_bits(word >> PAGE_SHAREABILITY_SHIFT),
            access_flag: (word >> PAGE_ACCESS_FLAG_SHIFT) & 1 == 1,
            output_addr: word & m,
            privileged_execute_never: (word >> PAGE_PXN_SHIFT) & 1 == 1,
            unprivileged_execute_never: (word >> PAGE_UXN_SHIFT) & 1 == 1,
        }
    }

    /// Round trip: an entry whose fields fit is decoded unchanged from its
    /// encoding.
    pub proof fn lemma_unpack_pack(self, granule: Granule)
        requires
            self.wf(),
            storable(self.output_addr, granule),
        ensures
            Self::spec_unpack(self.spec_pack(granule), granule) == self,
    {
        let v = bit(self.valid);
        let t = bit(self.page);
        let i = self.attr_index as u64;
        let a = self.access.spec_bits();
        let s = self.shareability.spec_bits();
        let f = bit(self.access_flag);
        let p = bit(self.privileged_execute_never);
        let u = bit(self.unprivileged_execute_never);
        let m = spec_output_addr_mask(granule);
        let oa = self.output_addr;
        let w = self.spec_pack(granule);
        assert(w == (v | (t << 1) | ((i & 3) << 2) | (a << 6) | (s << 8) | (f << 10) | (oa & m) | (p
            << 53) | (u << 54)));
        lemma_mask_shape(granule);
        assert({
            &&& w & 1 == v
            &&& (w >> 1) & 1 == t
            &&& (w >> 2) & 3 == i
            &&& (w >> 6) & 3 == a
            &&& (w >> 8) & 3 == s
            &&& (w >> 10) & 1 == f
            &&& w & m == oa
            &&& (w >> 53) & 1 == p
            &&& (w >> 54) & 1 == u
        }) by (bit_vector)
            requires
                w == (v | (t << 1) | ((i & 3) << 2) | (a << 6) | (s << 8) | (f << 10) | (oa & m) | (
                p << 53) | (u << 54)),
                v <= 1,
                t <= 1,
                i <= 3,
                a <= 3,
                s <= 3,
                f <= 1,
                p <= 1,
                u <= 1,
                m & 0xFFFF_0000_0000_0FFFu64 == 0,
                oa & m == oa,
        ;
    }
}

/// The word of a populated page entry is the stored address with the fixed
/// flags, and the address is read back from it.
pub proof fn lemma_page_word(phys: u64, granule: Granule)
    ensures
        PageEntry::spec_mapping(phys).spec_pack(granule) == spec_page_word(phys, granule),
        spec_decode_output_addr(spec_page_word(phys, granule), granule) == phys
            & spec_output_addr_mask(granule),
        storable(phys, granule) ==> spec_decode_output_addr(spec_page_word(phys, granule), granule)
            == phys,
        PageEntry::spec_unpack(spec_page_word(phys, granule), granule).valid,
        PageEntry::spec_unpack(spec_page_word(phys, granule), granule).page,
{
    let m = spec_output_addr_mask(granule);
    lemma_mask_shape(granule);
    assert((((phys & m) | 0x403u64) & 1 == 1) && ((((phys & m) | 0x403u64) >> 1) & 1 == 1))
        by (bit_vector)
        requires
            m & 0xFFFF_0000_0000_0FFFu64 == 0,
    ;
    assert((1u64 | (1u64 << 1) | ((0u64 & 3) << 2) | (0u64 << 6) | (0u64 << 8) | (1u64 << 10) | (
    phys & m) | (0u64 << 53) | (0u64 << 54)) == ((phys & m) | 0x403u64)) by (bit_vector);
    assert((((phys & m) | 0x403u64) & m) == phys & m) by (bit_vector)
        requires
            m & 0xFFFF_0000_0000_0FFFu64 == 0,
    ;
}

/// The word of a populated table descriptor is the stored address with the
/// fixed flags, and the address is read back from it.
pub proof fn lemma_table_word(addr: u64, granule: Granule)
    ensures
        TableDescriptor::spec_pointing_to(addr).spec_pack(granule) == spec_table_word(
            addr,
            granule,
        ),
        spec_decode_output_addr(spec_table_word(addr, granule), granule) == addr
            & spec_output_addr_mask(granule),
        storable(addr, granule) ==> spec_decode_output_addr(spec_table_word(addr, granule), granule)
            == addr,
        TableDescriptor::spec_unpack(spec_table_word(addr, granule), granule).valid,
        TableDescriptor::spec_unpack(spec_table_word(addr, granule), granule).table,
{
    let m = spec_output_addr_mask(granule);
    lemma_mask_shape(granule);
    assert((((addr & m) | 0x2000_0000_0000_0003u64) & 1 == 1) && ((((addr & m)
        | 0x2000_0000_0000_0003u64) >> 1) & 1 == 1)) by (bit_vector)
        requires
            m & 0xFFFF_0000_0000_0FFFu64 == 0,
    ;
    assert((1u64 | (1u64 << 1) | (addr & m) | (0u64 << 59) | (0u64 << 60) | (1u64 << 61)) == ((addr
        & m) | 0x2000_0000_0000_0003u64)) by (bit_vector);
    assert((((addr & m) | 0x2000_0000_0000_0003u64) & m) == addr & m) by (bit_vector)
        requires
            m & 0xFFFF_0000_0000_0FFFu64 == 0,
    ;
}

} // verus!
