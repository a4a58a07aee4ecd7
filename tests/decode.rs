use bootboot::datetime::{bcd_to_number, decode_datetime, utc_offset_from_minutes, BootDateTime, DateTimeError, UtcOffset};
use bootboot::header::{
    endianness_of, framebuffer_format, loader_type_of, mmap_record_count, protocol_level, BootBoot, BootInfoHeader,
    Endian, FrameBufferFormat, FrameBufferInfo, Loader, Protocol,
};
use bootboot::mmap::{MemoryMapEntryType, MemoryMapInfo};

fn header(total_size: u32) -> BootInfoHeader {
    BootInfoHeader {
        protocol: 0x81 | (1 << 2),
        fb_type: 2,
        num_cores: 4,
        bsp_id: 3,
        timezone: 120,
        datetime: [0x20, 0x23, 0x06, 0x15, 0x12, 0x30, 0x45, 0x00],
        initrd_ptr: 0x80_0000,
        initrd_size: 0x1_0000,
        fb_ptr: 0xFD00_0000,
        fb_size: 1024 * 768 * 4,
        fb_width: 1024,
        fb_height: 768,
        fb_scanline: 4096,
        arch: [0xE0000, 0xF0000, 0x7F00_0000, 0x9FC00, 0, 0, 0, 0],
        total_size,
    }
}

fn entries(n: u64) -> Vec<MemoryMapInfo> {
    (0..n).map(|i| MemoryMapInfo::new(i * 0x10_0000, 0x10_0000 | (i % 4))).collect()
}

#[test]
fn protocol_levels_from_low_bits() {
    assert_eq!(protocol_level(0), Protocol::Minimal);
    assert_eq!(protocol_level(1), Protocol::Static);
    assert_eq!(protocol_level(2), Protocol::Dynamic);
    assert_eq!(protocol_level(3), Protocol::Unknown);
}

#[test]
fn protocol_level_ignores_high_bits() {
    for high in 0u8..64 {
        for level in 0u8..4 {
            assert_eq!(protocol_level((high << 2) | level), protocol_level(level));
        }
    }
    assert_eq!(protocol_level(0xFE), Protocol::Dynamic);
}

#[test]
fn endianness_from_top_bit() {
    assert_eq!(endianness_of(0x80), Endian::Big);
    assert_eq!(endianness_of(0xFF), Endian::Big);
    assert_eq!(endianness_of(0x7F), Endian::Little);
    assert_eq!(endianness_of(0), Endian::Little);
}

#[test]
fn loader_from_bits_two_to_six() {
    assert_eq!(loader_type_of(0), Loader::Bios);
    assert_eq!(loader_type_of(1 << 2), Loader::Uefi);
    assert_eq!(loader_type_of((2 << 2) | 3), Loader::Rpi);
    assert_eq!(loader_type_of((3 << 2) | 0x80), Loader::CoreBoot);
    assert_eq!(loader_type_of(4 << 2), Loader::Unknown);
    assert_eq!(loader_type_of(15 << 2), Loader::Unknown);
}

#[test]
fn framebuffer_format_codes() {
    assert_eq!(framebuffer_format(0), FrameBufferFormat::ARGB);
    assert_eq!(framebuffer_format(1), FrameBufferFormat::RBGA);
    assert_eq!(framebuffer_format(2), FrameBufferFormat::ABGR);
    assert_eq!(framebuffer_format(3), FrameBufferFormat::BGRA);
    assert_eq!(framebuffer_format(4), FrameBufferFormat::Unknown);
    assert_eq!(framebuffer_format(255), FrameBufferFormat::Unknown);
}

#[test]
fn entry_size_masks_tag_exactly() {
    let e = MemoryMapInfo::new(0x1000, 0x1234_5678_9ABC_DEF7);
    assert_eq!(e.size(), 0x1234_5678_9ABC_DEF0);
    assert_eq!(e.ptr(), 0x1000);
    assert_eq!(e.size_and_type(), 0x1234_5678_9ABC_DEF7);
    assert_eq!(MemoryMapInfo::new(0, 0xF).size(), 0);
    assert_eq!(MemoryMapInfo::new(0, u64::MAX).size(), 0xFFFF_FFFF_FFFF_FFF0);
}

#[test]
fn entry_types_by_tag() {
    let expected = [
        MemoryMapEntryType::Used,
        MemoryMapEntryType::Free,
        MemoryMapEntryType::Acpi,
        MemoryMapEntryType::Mmio,
    ];
    for tag in 0u64..16 {
        let e = MemoryMapInfo::new(0, 0x4000 | tag);
        let want = if tag < 4 { expected[tag as usize] } else { MemoryMapEntryType::Used };
        assert_eq!(e.get_type(), want);
        assert_eq!(e.is_free(), tag == 1);
        assert_eq!(MemoryMapInfo::new(0, 0xABC0 | tag).get_type(), want);
    }
}

#[test]
fn entry_end_address() {
    let e = MemoryMapInfo::new(0x10_0000, 0x20_0001);
    assert_eq!(e.end_address(), 0x30_0000);
    let e = MemoryMapInfo::new(0xFFFF_FFFF_FFFF_0000, 0xFFFF);
    assert_eq!(e.end_address(), 0xFFFF_FFFF_FFFF_FFF0);
}

#[test]
fn mmap_entry_count_from_total_size() {
    let b = BootBoot::new(header(128 + 16 * 3), entries(3));
    let m = b.get_mmap_entries();
    assert_eq!(m.len(), 3);
    assert_eq!(m[1].ptr(), 0x10_0000);
    assert_eq!(m[1].get_type(), MemoryMapEntryType::Free);
    assert_eq!(m[2].get_type(), MemoryMapEntryType::Acpi);
}

#[test]
fn mmap_empty_at_header_size() {
    let b = BootBoot::new(header(128), entries(2));
    assert_eq!(b.get_mmap_entries().len(), 0);
}

#[test]
fn mmap_ignores_records_past_total_size() {
    let b = BootBoot::new(header(128 + 16 * 2), entries(5));
    let m = b.get_mmap_entries();
    assert_eq!(m.len(), 2);
    assert_eq!(m[0].ptr(), 0);
}

#[test]
fn datetime_decodes_bcd() {
    let raw = [0x20, 0x23, 0x06, 0x15, 0x12, 0x30, 0x45, 0x00];
    let want = BootDateTime { year: 2023, month: 6, day: 15, hour: 12, minute: 30, second: 45, millisecond: 0 };
    assert_eq!(decode_datetime(raw), Ok(want));
}

#[test]
fn datetime_rejects_non_bcd_seconds() {
    let raw = [0x20, 0x23, 0x06, 0x15, 0x12, 0x30, 0xFA, 0x00];
    assert_eq!(decode_datetime(raw), Err(DateTimeError::MalformedTimestamp));
}

#[test]
fn datetime_hundredths_become_milliseconds() {
    let raw = [0x19, 0x99, 0x12, 0x31, 0x23, 0x59, 0x59, 0x45];
    let dt = decode_datetime(raw).unwrap();
    assert_eq!(dt.year, 1999);
    assert_eq!(dt.millisecond, 450);
}

#[test]
fn datetime_rejects_missing_dates() {
    assert_eq!(
        decode_datetime([0x20, 0x23, 0x02, 0x29, 0, 0, 0, 0]),
        Err(DateTimeError::MalformedTimestamp)
    );
    assert!(decode_datetime([0x20, 0x24, 0x02, 0x29, 0, 0, 0, 0]).is_ok());
    assert!(decode_datetime([0x20, 0x00, 0x02, 0x29, 0, 0, 0, 0]).is_ok());
    assert!(decode_datetime([0x19, 0x00, 0x02, 0x29, 0, 0, 0, 0]).is_err());
    assert!(decode_datetime([0x20, 0x23, 0x04, 0x31, 0, 0, 0, 0]).is_err());
    assert!(decode_datetime([0x20, 0x23, 0x00, 0x01, 0, 0, 0, 0]).is_err());
    assert!(decode_datetime([0x20, 0x23, 0x13, 0x01, 0, 0, 0, 0]).is_err());
    assert!(decode_datetime([0x20, 0x23, 0x01, 0x00, 0, 0, 0, 0]).is_err());
}

#[test]
fn datetime_rejects_bad_time_of_day() {
    assert!(decode_datetime([0x20, 0x23, 0x01, 0x01, 0x24, 0, 0, 0]).is_err());
    assert!(decode_datetime([0x20, 0x23, 0x01, 0x01, 0x23, 0x60, 0, 0]).is_err());
    assert!(decode_datetime([0x20, 0x23, 0x01, 0x01, 0x23, 0x59, 0x60, 0]).is_err());
    assert!(decode_datetime([0x20, 0x23, 0x01, 0x01, 0x23, 0x59, 0x59, 0x99]).is_ok());
}

#[test]
fn bcd_bytes() {
    assert_eq!(bcd_to_number(0x00), Some(0));
    assert_eq!(bcd_to_number(0x47), Some(47));
    assert_eq!(bcd_to_number(0x99), Some(99));
    assert_eq!(bcd_to_number(0x0A), None);
    assert_eq!(bcd_to_number(0xA0), None);
}

#[test]
fn timezone_offsets() {
    assert_eq!(utc_offset_from_minutes(60), Some(UtcOffset { seconds_east: 3600 }));
    assert_eq!(utc_offset_from_minutes(-330), Some(UtcOffset { seconds_east: -19800 }));
    assert_eq!(utc_offset_from_minutes(1439), Some(UtcOffset { seconds_east: 86340 }));
    assert_eq!(utc_offset_from_minutes(1440), None);
    assert_eq!(utc_offset_from_minutes(-1440), None);
    assert_eq!(utc_offset_from_minutes(i16::MIN), None);
}

#[test]
fn header_accessors() {
    let b = BootBoot::new(header(128), Vec::new());
    assert_eq!(b.protocol(), Protocol::Static);
    assert_eq!(b.endianness(), Endian::Big);
    assert_eq!(b.loader_type(), Loader::Uefi);
    assert_eq!(b.num_cores(), 4);
    assert_eq!(b.bsp_id(), 3);
    assert_eq!(b.timezone_offset(), Some(UtcOffset { seconds_east: 7200 }));
    assert_eq!(b.datetime_raw(), [0x20, 0x23, 0x06, 0x15, 0x12, 0x30, 0x45, 0x00]);
    assert_eq!(b.datetime().unwrap().day, 15);
    assert_eq!(b.initrd_location(), (0x80_0000, 0x1_0000));
    assert_eq!(b.initrd_span(0x1000), (0x80_1000, 0x1_0000));
    assert_eq!(b.frame_buffer_format(), FrameBufferFormat::ABGR);
}

#[test]
fn framebuffer_descriptor() {
    let b = BootBoot::new(header(128), Vec::new());
    let want = FrameBufferInfo {
        physical_address: 0xFD00_0000,
        size: 1024 * 768 * 4,
        width: 1024,
        height: 768,
        scanline: 4096,
        format: FrameBufferFormat::ABGR,
    };
    assert_eq!(b.fb_info(), want);
}

#[test]
fn platform_pointers_per_architecture() {
    let b = BootBoot::new(header(128), Vec::new());
    let x = b.x86_64();
    assert_eq!(x.acpi_ptr(), 0xE0000);
    assert_eq!(x.smbi_ptr(), 0xF0000);
    assert_eq!(x.efi_ptr(), 0x7F00_0000);
    assert_eq!(x.mp_ptr(), 0x9FC00);
    let a = b.aarch64();
    assert_eq!(a.acpi_ptr(), 0xE0000);
    assert_eq!(a.mmio_ptr(), 0xF0000);
    assert_eq!(a.efi_ptr(), 0x7F00_0000);
}

#[test]
fn record_count_from_total_size() {
    assert_eq!(mmap_record_count(176), Some(3));
    assert_eq!(mmap_record_count(128), Some(0));
    assert_eq!(mmap_record_count(127), None);
    assert_eq!(mmap_record_count(0), None);
    assert_eq!(mmap_record_count(130), None);
}
