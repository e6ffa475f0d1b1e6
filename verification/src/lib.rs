//! Locating and decompressing DWARF debug sections of a loaded binary image.
//!
//! The image is modelled as an addressable byte space with named sections,
//! symbols and typed data variables. Given a well-known DWARF section
//! identifier, the reader resolves the section name (with split-DWARF and
//! Mach-O naming fallbacks), detects ELF section-header compression flags by
//! walking a raw section-header side table, and decompresses zlib- or
//! zstd-compressed sections, handing back an endianness-tagged byte buffer.

pub mod endian;
pub mod image;
pub mod section_id;
pub mod compress;
pub mod classify;
pub mod reader;

pub use classify::{
    can_use_debuginfod, get_endian, has_build_id_section, is_dwo_dwarf, is_non_dwo_dwarf,
    is_raw_dwo_dwarf, is_raw_non_dwo_dwarf, is_valid,
};
pub use compress::Error;
pub use endian::Endianness;
pub use endian::RunTimeEndian;
pub use image::{DataVariableInfo, Image, SectionInfo, SymbolInfo};
pub use reader::{create_section_reader, SectionBuffer};
pub use section_id::SectionId;
