//! The fixed 128-byte header of the boot information structure and the
//! decoder that projects typed values out of it.
use crate::bits::{bit_of, bits_of};
use crate::datetime::{
    decode_datetime, decoded_datetime, offset_of_minutes, timestamp_well_formed,
    utc_offset_from_minutes, BootDateTime, DateTimeError, UtcOffset,
};
use crate::mmap::MemoryMapInfo;
use vstd::arithmetic::power2::lemma2_to64;
use vstd::prelude::*;
use vstd::slice::slice_subrange;

verus! {

/// Size in bytes of the fixed header; the memory map starts right after it.
pub const HEADER_SIZE: u32 = 128;

/// Size in bytes of one memory map record.
pub const MMAP_ENTRY_SIZE: u32 = 16;

/// Protocol level the loader implements.
#[derive(Clone, Copy, Debug, PartialEq, Eq, Structural)]
pub enum Protocol {
    /// Embedded systems: everything hard-coded, perhaps no framebuffer at all.
    Minimal,
    /// Kernel and other parts mapped at static, linker-given locations.
    Static,
    /// As `Static`, but addresses taken from the kernel's symbol table.
    Dynamic,
    Unknown,
}

/// Byte order of the platform.
#[derive(Clone, Copy, Debug, PartialEq, Eq, Structural)]
pub enum Endian {
    Little,
    Big,
}

/// The kind of loader that booted the system.
#[derive(Clone, Copy, Debug, PartialEq, Eq, Structural)]
pub enum Loader {
    Bios,
    Uefi,
    Rpi,
    CoreBoot,
    Unknown,
}

/// Channel order of a framebuffer pixel. With `ARGB`, the most common, the
/// least significant byte is blue in little-endian order and the top byte is
/// unused.
#[derive(Clone, Copy, Debug, PartialEq, Eq, Structural)]
pub enum FrameBufferFormat {
    ARGB,
    RBGA,
    ABGR,
    BGRA,
    Unknown,
}

/// Framebuffer descriptor. The byte offset of pixel (x, y) is
/// `(height - 1 - y) * scanline + 4 * x`: row 0 is the bottom row.
#[derive(Clone, Copy, Debug, PartialEq, Eq, Structural)]
pub struct FrameBufferInfo {
    /// Physical address of the buffer.
    pub physical_address: u64,
    /// Size of the buffer in bytes.
    pub size: usize,
    /// Horizontal resolution in pixels.
    pub width: usize,
    /// Vertical resolution in pixels.
    pub height: usize,
    /// Bytes per line as stored in memory.
    pub scanline: usize,
    pub format: FrameBufferFormat,
}

/// The header fields as the loader laid them down.
#[derive(Clone, Copy, Debug)]
pub struct BootInfoHeader {
    /// Bits 0..2: protocol level; bits 2..6: loader; bit 7: big-endian flag.
    pub protocol: u8,
    /// Framebuffer pixel format code.
    pub fb_type: u8,
    pub num_cores: u32,
    pub bsp_id: u32,
    /// Minutes east of UTC.
    pub timezone: i16,
    /// UTC time of boot, BCD: century, year, month, day, hour, minute,
    /// second, hundredths.
    pub datetime: [u8; 8],
    pub initrd_ptr: u64,
    pub initrd_size: u32,
    pub fb_ptr: u64,
    pub fb_size: u32,
    pub fb_width: u32,
    pub fb_height: u32,
    pub fb_scanline: u32,
    /// The platform-specific part of the header, as eight 64-bit words; its
    /// layout depends on the architecture the loader runs on.
    pub arch: [u64; 8],
    /// Length of the whole structure, header and memory map, in bytes.
    pub total_size: u32,
}

pub open spec fn protocol_of(p: u8) -> Protocol {
    let level = p % 4;
    if level == 0 {
        Protocol::Minimal
    } else if level == 1 {
        Protocol::Static
    } else if level == 2 {
        Protocol::Dynamic
    } else {
        Protocol::Unknown
    }
}

pub open spec fn endian_of(p: u8) -> Endian {
    if p >= 128 {
        Endian::Big
    } else {
        Endian::Little
    }
}

pub open spec fn loader_of(p: u8) -> Loader {
    let code = (p / 4) % 16;
    if code == 0 {
        Loader::Bios
    } else if code == 1 {
        Loader::Uefi
    } else if code == 2 {
        Loader::Rpi
    } else if code == 3 {
        Loader::CoreBoot
    } else {
        Loader::Unknown
    }
}

pub open spec fn framebuffer_format_of(t: u8) -> FrameBufferFormat {
    if t == 0 {
        FrameBufferFormat::ARGB
    } else if t == 1 {
        FrameBufferFormat::RBGA
    } else if t == 2 {
        FrameBufferFormat::ABGR
    } else if t == 3 {
        FrameBufferFormat::BGRA
    } else {
        FrameBufferFormat::Unknown
    }
}

/// The format code that names a known framebuffer format.
pub open spec fn framebuffer_format_code(f: FrameBufferFormat) -> Option<u8> {
    match f {
        FrameBufferFormat::ARGB => Some(0u8),
        FrameBufferFormat::RBGA => Some(1u8),
        FrameBufferFormat::ABGR => Some(2u8),
        FrameBufferFormat::BGRA => Some(3u8),
        FrameBufferFormat::Unknown => None,
    }
}

/// Number of memory map records that a structure of `total_size` bytes holds.
pub open spec fn mmap_entry_count(total_size: u32) -> int {
    (total_size - HEADER_SIZE) / (MMAP_ENTRY_SIZE as int)
}

/// A structure of `total_size` bytes, followed in memory by
/// `trailing_len` records, is one the decoder may read.
pub open spec fn layout_consistent(total_size: u32, trailing_len: int) -> bool {
    &&& total_size >= HEADER_SIZE
    &&& (total_size - HEADER_SIZE) % (MMAP_ENTRY_SIZE as int) == 0
    &&& trailing_len >= mmap_entry_count(total_size)
}

/// How many memory map records follow a header whose total size field is
/// `total_size`; `None` when that size is below 128 or not 128 plus a
/// multiple of 16.
pub fn mmap_record_count(total_size: u32) -> (r: Option<usize>)
    ensures
        r == (if layout_consistent(total_size, mmap_entry_count(total_size)) {
            Some(mmap_entry_count(total_size) as usize)
        } else {
            None::<usize>
        }),
{
    if total_size < HEADER_SIZE || (total_size - HEADER_SIZE) % MMAP_ENTRY_SIZE != 0 {
        None
    } else {
        Some(((total_size - HEADER_SIZE) / MMAP_ENTRY_SIZE) as usize)
    }
}

/// Decodes the protocol level from bits 0..2 of the protocol byte.
pub fn protocol_level(p: u8) -> (r: Protocol)
    ensures
        r == protocol_of(p),
{
    proof {
        lemma2_to64();
    }
    match bits_of(p, 0, 2) {
        0 => Protocol::Minimal,
        1 => Protocol::Static,
        2 => Protocol::Dynamic,
        _ => Protocol::Unknown,
    }
}

/// Decodes the byte order from bit 7 of the protocol byte.
pub fn endianness_of(p: u8) -> (r: Endian)
    ensures
        r == endian_of(p),
{
    proof {
        lemma2_to64();
    }
    if bit_of(p, 7) {
        Endian::Big
    } else {
        Endian::Little
    }
}

/// Decodes the loader kind from bits 2..6 of the protocol byte.
pub fn loader_type_of(p: u8) -> (r: Loader)
    ensures
        r == loader_of(p),
{
    proof {
        lemma2_to64();
    }
    match bits_of(p, 2, 6) {
        0 => Loader::Bios,
        1 => Loader::Uefi,
        2 => Loader::Rpi,
        3 => Loader::CoreBoot,
        _ => Loader::Unknown,
    }
}

/// Decodes a framebuffer format code; codes above 3 are `Unknown`.
pub fn framebuffer_format(t: u8) -> (r: FrameBufferFormat)
    ensures
        r == framebuffer_format_of(t),
{
    match t {
        0 => FrameBufferFormat::ARGB,
        1 => FrameBufferFormat::RBGA,
        2 => FrameBufferFormat::ABGR,
        3 => FrameBufferFormat::BGRA,
        _ => FrameBufferFormat::Unknown,
    }
}

/// Platform pointers of an x86_64 loader: the first four words of the
/// platform-specific part of the header.
#[derive(Clone, Copy, Debug)]
pub struct X86_64Pointers {
    words: [u64; 8],
}

impl View for X86_64Pointers {
    type V = Seq<u64>;

    closed spec fn view(&self) -> Seq<u64> {
        self.words@
    }
}

impl X86_64Pointers {
    /// Physical address of the ACPI tables.
    pub fn acpi_ptr(&self) -> (r: u64)
        ensures
            r == self@[0],
    {
        self.words[0]
    }

    /// Physical address of the SMBIOS tables.
    pub fn smbi_ptr(&self) -> (r: u64)
        ensures
            r == self@[1],
    {
        self.words[1]
    }

    /// Physical address of the EFI system table.
    pub fn efi_ptr(&self) -> (r: u64)
        ensures
            r == self@[2],
    {
        self.words[2]
    }

    /// Physical address of the multiprocessor tables.
    pub fn mp_ptr(&self) -> (r: u64)
        ensures
            r == self@[3],
    {
        self.words[3]
    }
}

/// Platform pointers of an AArch64 loader: the first three words of the
/// platform-specific part of the header.
#[derive(Clone, Copy, Debug)]
pub struct Aarch64Pointers {
    words: [u64; 8],
}

impl View for Aarch64Pointers {
    type V = Seq<u64>;

    closed spec fn view(&self) -> Seq<u64> {
        self.words@
    }
}

impl Aarch64Pointers {
    /// Physical address of the ACPI tables.
    pub fn acpi_ptr(&self) -> (r: u64)
        ensures
            r == self@[0],
    {
        self.words[0]
    }

    /// Physical address of the BCM2837 MMIO area.
    pub fn mmio_ptr(&self) -> (r: u64)
        ensures
            r == self@[1],
    {
        self.words[1]
    }

    /// Physical address of the EFI system table.
    pub fn efi_ptr(&self) -> (r: u64)
        ensures
            r == self@[2],
    {
        self.words[2]
    }
}

/// The boot information structure: the header and the memory map records
/// that follow it. Every accessor is a pure projection of these.
#[derive(Debug)]
pub struct BootBoot {
    header: BootInfoHeader,
    mmap: Vec<MemoryMapInfo>,
}

impl BootBoot {
    /// The header this structure was built from.
    pub closed spec fn raw_header(&self) -> BootInfoHeader {
        self.header
    }

    /// The records that follow the header in memory.
    pub closed spec fn trailing(&self) -> Seq<MemoryMapInfo> {
        self.mmap@
    }

    /// The header's total size agrees with the records that follow it.
    pub open spec fn wf(&self) -> bool {
        layout_consistent(self.raw_header().total_size, self.trailing().len() as int)
    }

    /// A view of the structure from its header and the records that follow
    /// it; the header's total size must be 128 plus a multiple of 16 and
    /// cover no more records than are given.
    pub fn new(header: BootInfoHeader, mmap: Vec<MemoryMapInfo>) -> (r: BootBoot)
        requires
            layout_consistent(header.total_size, mmap@.len() as int),
        ensures
            r.raw_header() == header,
            r.trailing() == mmap@,
            r.wf(),
    {
        BootBoot { header, mmap }
    }

    pub fn protocol(&self) -> (r: Protocol)
        ensures
            r == protocol_of(self.raw_header().protocol),
    {
        protocol_level(self.header.protocol)
    }

    pub fn endianness(&self) -> (r: Endian)
        ensures
            r == endian_of(self.raw_header().protocol),
    {
        endianness_of(self.header.protocol)
    }

    pub fn loader_type(&self) -> (r: Loader)
        ensures
            r == loader_of(self.raw_header().protocol),
    {
        loader_type_of(self.header.protocol)
    }

    /// The number of CPU cores; above 1 on multiprocessor platforms.
    pub fn num_cores(&self) -> (r: usize)
        ensures
            r == self.raw_header().num_cores,
    {
        self.header.num_cores as usize
    }

    /// The bootstrap processor's ID (the Local APIC ID on x86_64).
    pub fn bsp_id(&self) -> (r: usize)
        ensures
            r == self.raw_header().bsp_id,
    {
        self.header.bsp_id as usize
    }

    /// The machine's timezone as an offset from UTC; `None` when the field
    /// lies a full day or more away from UTC.
    pub fn timezone_offset(&self) -> (r: Option<UtcOffset>)
        ensures
            r == offset_of_minutes(self.raw_header().timezone),
    {
        utc_offset_from_minutes(self.header.timezone)
    }

    /// The UTC time of boot as the eight BCD bytes stored, not influenced by
    /// the timezone.
    pub fn datetime_raw(&self) -> (r: [u8; 8])
        ensures
            r == self.raw_header().datetime,
    {
        self.header.datetime
    }

    /// The UTC time of boot, decoded; fails on a malformed time stamp.
    pub fn datetime(&self) -> (r: Result<BootDateTime, DateTimeError>)
        ensures
            r == (if timestamp_well_formed(self.raw_header().datetime@) {
                Ok::<BootDateTime, DateTimeError>(decoded_datetime(self.raw_header().datetime@))
            } else {
                Err::<BootDateTime, DateTimeError>(DateTimeError::MalformedTimestamp)
            }),
    {
        decode_datetime(self.header.datetime)
    }

    /// Physical address and size of the initial ramdisk.
    pub fn initrd_location(&self) -> (r: (u64, usize))
        ensures
            r == (self.raw_header().initrd_ptr, self.raw_header().initrd_size as usize),
    {
        (self.header.initrd_ptr, self.header.initrd_size as usize)
    }

    /// Where the ramdisk's bytes lie when physical memory is seen at
    /// `offset` (0 where it is identity mapped): start address and length.
    /// Reading them is only sound where that range is mapped.
    pub fn initrd_span(&self, offset: u64) -> (r: (u64, usize))
        requires
            self.raw_header().initrd_ptr + offset <= u64::MAX,
        ensures
            r == (
                (self.raw_header().initrd_ptr + offset) as u64,
                self.raw_header().initrd_size as usize,
            ),
    {
        (self.header.initrd_ptr + offset, self.header.initrd_size as usize)
    }

    /// The framebuffer descriptor.
    pub fn fb_info(&self) -> (r: FrameBufferInfo)
        ensures
            r == (FrameBufferInfo {
                physical_address: self.raw_header().fb_ptr,
                size: self.raw_header().fb_size as usize,
                width: self.raw_header().fb_width as usize,
                height: self.raw_header().fb_height as usize,
                scanline: self.raw_header().fb_scanline as usize,
                format: framebuffer_format_of(self.raw_header().fb_type),
            }),
    {
        FrameBufferInfo {
            physical_address: self.header.fb_ptr,
            size: self.header.fb_size as usize,
            height: self.header.fb_height as usize,
            scanline: self.header.fb_scanline as usize,
            width: self.header.fb_width as usize,
            format: self.frame_buffer_format(),
        }
    }

    /// The framebuffer's pixel format.
    pub fn frame_buffer_format(&self) -> (r: FrameBufferFormat)
        ensures
            r == framebuffer_format_of(self.raw_header().fb_type),
    {
        framebuffer_format(self.header.fb_type)
    }

    /// The memory map, sorted by address as the loader stored it: the
    /// `(total_size - 128) / 16` records that follow the header.
    pub fn get_mmap_entries(&self) -> (r: &[MemoryMapInfo])
        requires
            self.wf(),
        ensures
            r@.len() == mmap_entry_count(self.raw_header().total_size),
            r@ == self.trailing().subrange(0, mmap_entry_count(self.raw_header().total_size)),
    {
        let count: usize = ((self.header.total_size - HEADER_SIZE) / MMAP_ENTRY_SIZE) as usize;
        slice_subrange(self.mmap.as_slice(), 0, count)
    }

    /// The platform pointers as an x86_64 loader lays them out.
    pub fn x86_64(&self) -> (r: X86_64Pointers)
        ensures
            r@ == self.raw_header().arch@,
    {
        X86_64Pointers { words: self.header.arch }
    }

    /// The platform pointers as an AArch64 loader lays them out.
    pub fn aarch64(&self) -> (r: Aarch64Pointers)
        ensures
            r@ == self.raw_header().arch@,
    {
        Aarch64Pointers { words: self.header.arch }
    }
}

/// The protocol level depends on bits 0..2 of the protocol byte alone:
/// bits 2..8 may change freely without changing it.
pub proof fn lemma_protocol_depends_on_low_bits(p: u8, q: u8)
    requires
        p & 3 == q & 3,
    ensures
        protocol_of(p) == protocol_of(q),
{
    assert(p & 3 == p % 4) by (bit_vector);
    assert(q & 3 == q % 4) by (bit_vector);
}

/// Levels 0, 1 and 2 in bits 0..2 decode to the known protocol levels, and
/// the remaining value 3 to `Unknown`.
pub proof fn lemma_protocol_levels(p: u8)
    ensures
        p & 3 == 0 ==> protocol_of(p) == Protocol::Minimal,
        p & 3 == 1 ==> protocol_of(p) == Protocol::Static,
        p & 3 == 2 ==> protocol_of(p) == Protocol::Dynamic,
        p & 3 == 3 ==> protocol_of(p) == Protocol::Unknown,
{
    assert(p & 3 == p % 4) by (bit_vector);
}

/// Each format code 0 to 3 decodes to a named format whose code is that same
/// byte; every other byte decodes to `Unknown`.
pub proof fn lemma_framebuffer_format_round_trip(t: u8)
    ensures
        t <= 3 ==> framebuffer_format_code(framebuffer_format_of(t)) == Some(t),
        t > 3 ==> framebuffer_format_of(t) == FrameBufferFormat::Unknown,
{
}

} // verus!
