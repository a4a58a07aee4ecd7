//! Memory map entries: a physical base address and a word that packs the
//! region size (upper 60 bits) with a 4-bit region type tag.
use vstd::prelude::*;

verus! {

/// Mask that keeps the size part of a composite size-and-type word.
pub const SIZE_MASK: u64 = 0xFFFF_FFFF_FFFF_FFF0;

/// Mask that keeps the type tag of a composite size-and-type word.
pub const TYPE_MASK: u64 = 0xF;

/// Classification of a memory region.
#[derive(Clone, Copy, Debug, PartialEq, Eq, PartialOrd, Ord, Structural)]
pub enum MemoryMapEntryType {
    /// Reserved, or a tag this decoder does not know.
    Used,
    /// Usable by the operating system.
    Free,
    /// ACPI tables, volatile or not.
    Acpi,
    /// Memory-mapped I/O.
    Mmio,
}

/// The region type that a 4-bit tag stands for; unknown tags count as used,
/// so that an unrecognised region is never handed out as free memory.
pub open spec fn region_type_of_tag(tag: u64) -> MemoryMapEntryType {
    if tag == 1 {
        MemoryMapEntryType::Free
    } else if tag == 2 {
        MemoryMapEntryType::Acpi
    } else if tag == 3 {
        MemoryMapEntryType::Mmio
    } else {
        MemoryMapEntryType::Used
    }
}

/// The region type that a composite size-and-type word carries.
pub open spec fn region_type_of(w: u64) -> MemoryMapEntryType {
    region_type_of_tag(w & TYPE_MASK)
}

/// The region size, in bytes, that a composite size-and-type word carries.
pub open spec fn region_size_of(w: u64) -> u64 {
    w & SIZE_MASK
}

/// One 16-byte record of the memory map.
#[derive(Clone, Copy, Debug)]
pub struct MemoryMapInfo {
    ptr: u64,
    size: u64,
}

impl View for MemoryMapInfo {
    /// The physical base address and the composite size-and-type word.
    type V = (u64, u64);

    closed spec fn view(&self) -> (u64, u64) {
        (self.ptr, self.size)
    }
}

impl MemoryMapInfo {
    /// An entry with base address `ptr` and composite word `size_and_type`.
    pub fn new(ptr: u64, size_and_type: u64) -> (r: MemoryMapInfo)
        ensures
            r@ == (ptr, size_and_type),
    {
        MemoryMapInfo { ptr, size: size_and_type }
    }

    /// The composite size-and-type word as stored.
    pub fn size_and_type(&self) -> (r: u64)
        ensures
            r == self@.1,
    {
        self.size
    }

    /// Physical base address of the region.
    pub fn ptr(&self) -> (r: u64)
        ensures
            r == self@.0,
    {
        self.ptr
    }

    /// Size of the region in bytes: the composite word with its tag masked off.
    pub fn size(&self) -> (r: u64)
        ensures
            r == region_size_of(self@.1),
    {
        self.size & SIZE_MASK
    }

    /// Whether the operating system may use the region.
    pub fn is_free(&self) -> (r: bool)
        ensures
            r == (self@.1 & TYPE_MASK == 1),
            r == (region_type_of(self@.1) == MemoryMapEntryType::Free),
    {
        (self.size & TYPE_MASK) == 1
    }

    /// Type of the region; tags other than 0 to 3 fold to `Used`.
    pub fn get_type(&self) -> (r: MemoryMapEntryType)
        ensures
            r == region_type_of(self@.1),
    {
        match self.size & TYPE_MASK {
            1 => MemoryMapEntryType::Free,
            2 => MemoryMapEntryType::Acpi,
            3 => MemoryMapEntryType::Mmio,
            _ => MemoryMapEntryType::Used,
        }
    }

    /// First address past the region.
    pub fn end_address(&self) -> (r: u64)
        requires
            self@.0 + region_size_of(self@.1) <= u64::MAX,
        ensures
            r == self@.0 + region_size_of(self@.1),
    {
        self.ptr + (self.size & SIZE_MASK)
    }
}

/// The region type of a composite word depends on its low four bits alone.
pub proof fn lemma_region_type_depends_on_tag(w1: u64, w2: u64)
    requires
        w1 & TYPE_MASK == w2 & TYPE_MASK,
    ensures
        region_type_of(w1) == region_type_of(w2),
{
}

/// Masking off the tag is exact: the size is the word less its low four bits,
/// a multiple of 16 that is never more than the word.
pub proof fn lemma_region_size_exact(w: u64)
    ensures
        region_size_of(w) == w - (w & TYPE_MASK),
        region_size_of(w) % 16 == 0,
        region_size_of(w) <= w,
{
    assert(w & 0xFFFF_FFFF_FFFF_FFF0u64 == w - (w & 0xFu64)) by (bit_vector);
    assert(w & 0xFu64 == w % 16) by (bit_vector);
}

/// An entry is free exactly when its tag is 1; every other tag, known or not,
/// marks memory that must not be handed out.
pub proof fn lemma_free_iff_tag_one(w: u64)
    ensures
        (region_type_of(w) == MemoryMapEntryType::Free) <==> (w & TYPE_MASK == 1),
{
}

} // verus!
