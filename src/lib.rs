//! Decoder for the boot information structure that a BOOTBOOT-compliant loader
//! hands to the kernel: header bit fields, BCD time stamp, framebuffer
//! descriptor, platform pointers and the trailing memory map.
mod bits;
pub mod datetime;
pub mod header;
pub mod mmap;

pub use datetime::{BootDateTime, DateTimeError, UtcOffset};
pub use header::{
    Aarch64Pointers, BootBoot, BootInfoHeader, Endian, FrameBufferFormat, FrameBufferInfo, Loader,
    Protocol, X86_64Pointers,
};
pub use mmap::{MemoryMapEntryType, MemoryMapInfo};
