//! The section reader: resolves a DWARF section by name, detects ELF
//! section-header compression, decompresses where needed, and hands back an
//! endianness-tagged byte buffer.

use vstd::prelude::*;

use crate::compress::{decompress_payload, zlib_inflated, zstd_decoded, Error};
use crate::endian::{read_u32_at, read_u64_at, spec_u32_at, spec_u64_at, RunTimeEndian};
use crate::image::{
    same_contents, spec_find_data_variable, spec_find_section, spec_find_symbol, DataVariableInfo,
    Image, SectionInfo,
};
use crate::section_id::{
    lemma_dwo_name_nonempty, lemma_name_nonempty, macho_name, resolved_name, spec_dwo_name,
    spec_macho_name, spec_name, spec_resolved_name, SectionId,
};

verus! {

/// An immutable byte buffer tagged with the byte order its consumer should
/// read it under. It owns its bytes: they outlive the image they came from.
#[derive(Debug)]
pub struct SectionBuffer {
    pub data: Vec<u8>,
    pub endian: RunTimeEndian,
}

/// The section the reader settles on: the resolved name if present, else its
/// Mach-O respelling, else none.
pub open spec fn spec_resolve_section(view: Image, id: SectionId, dwo_file: bool) -> Option<
    SectionInfo,
> {
    let name = spec_resolved_name(id, dwo_file);
    match spec_find_section(view.sections@, name) {
        Some(sec) => Some(sec),
        None => spec_find_section(view.sections@, spec_macho_name(name)),
    }
}

/// The ELF section-header side table of the image: the raw bytes of the data
/// variable anchored at the sentinel symbol, and that variable itself. `None`
/// where the sentinel symbol or the data variable is missing.
pub open spec fn spec_section_header_table(view: Image) -> Option<(Seq<u8>, DataVariableInfo)> {
    match spec_find_symbol(view.symbols@, "__elf_section_headers"@) {
        Some(sym) => match spec_find_data_variable(view.data_variables@, sym.address) {
            Some(dv) => Some((view.spec_read(sym.address, dv.width as nat), dv)),
            None => None,
        },
        None => None,
    }
}

/// Record `k` of the side table names a section starting at `start`: the
/// record is long enough to hold its address field (at byte 16 of a 32-bit
/// header, byte 24 of a 64-bit one) and that field reads as `start`.
pub open spec fn spec_match_at(
    table: Seq<u8>,
    ew: nat,
    address_size: usize,
    endian: RunTimeEndian,
    start: u64,
    k: nat,
) -> bool {
    let off = k * ew;
    if address_size == 4 {
        &&& off + 20 <= table.len()
        &&& ew >= 20
        &&& spec_u32_at(table, off as int + 16, endian) as u64 == start
    } else {
        &&& off + 32 <= table.len()
        &&& ew >= 32
        &&& spec_u64_at(table, off as int + 24, endian) == start
    }
}

/// Record `k` matches and no earlier record does.
pub open spec fn spec_is_first_match(
    table: Seq<u8>,
    ew: nat,
    address_size: usize,
    endian: RunTimeEndian,
    start: u64,
    k: nat,
) -> bool {
    &&& spec_match_at(table, ew, address_size, endian, start, k)
    &&& forall|j: nat| j < k ==> !spec_match_at(table, ew, address_size, endian, start, j)
}

/// The first record of the side table whose address field reads as `start`.
pub open spec fn spec_matched_record(
    table: Seq<u8>,
    ew: nat,
    address_size: usize,
    endian: RunTimeEndian,
    start: u64,
) -> Option<nat> {
    if exists|k: nat| spec_is_first_match(table, ew, address_size, endian, start, k) {
        Some(choose|k: nat| spec_is_first_match(table, ew, address_size, endian, start, k))
    } else {
        None
    }
}

/// The flags field (at byte 8) of the record at byte offset `off`.
pub open spec fn spec_record_flags(
    table: Seq<u8>,
    off: int,
    address_size: usize,
    endian: RunTimeEndian,
) -> u64 {
    if address_size == 4 {
        spec_u32_at(table, off + 8, endian) as u64
    } else {
        spec_u64_at(table, off + 8, endian)
    }
}

/// The side table is present, usable, holds a record for the section at
/// `start`, and that record's flags carry the ELF compressed bit.
pub open spec fn spec_detected_compressed(view: Image, endian: RunTimeEndian, start: u64) -> bool {
    match spec_section_header_table(view) {
        Some((table, dv)) => match dv.element_width {
            Some(ew) => if ew == 0 {
                false
            } else {
                match spec_matched_record(table, ew as nat, view.address_size, endian, start) {
                    Some(k) => spec_record_flags(
                        table,
                        k * ew,
                        view.address_size,
                        endian,
                    ) & 0x800 != 0,
                    None => false,
                }
            },
            None => false,
        },
        None => false,
    }
}

/// The read came back as an empty buffer under the requested byte order.
pub open spec fn spec_empty_ok(r: Result<SectionBuffer, Error>, endian: RunTimeEndian) -> bool {
    &&& r is Ok
    &&& r.unwrap().data@ == Seq::<u8>::empty()
    &&& r.unwrap().endian == endian
}

/// What reading a section detected as compressed comes to: a structural
/// failure where the compression header cannot fit or cannot be read, and
/// otherwise a result pinned by the method tag — zlib inflation for tag 1,
/// zstd decoding for tag 2, and an error carrying any other tag.
pub open spec fn spec_decompression_post(
    view: Image,
    sec: SectionInfo,
    endian: RunTimeEndian,
    r: Result<SectionBuffer, Error>,
) -> bool {
    let hs = 3 * view.address_size;
    if sec.len < hs || sec.start + hs > u64::MAX {
        r == Err::<SectionBuffer, Error>(Error::DecompressionError)
    } else {
        let tag_bytes = view.spec_read(sec.start, 4);
        if tag_bytes.len() < 4 {
            r == Err::<SectionBuffer, Error>(Error::DecompressionError)
        } else {
            let tag = spec_u32_at(tag_bytes, 0, endian);
            let payload = view.spec_read((sec.start + hs) as u64, (sec.len - hs) as nat);
            &&& tag == 1 ==> match r {
                Ok(b) => zlib_inflated(payload) == Some(b.data@) && b.endian == endian,
                Err(e) => zlib_inflated(payload) is None && e == Error::DecompressionError,
            }
            &&& tag == 2 ==> match r {
                Ok(b) => zstd_decoded(payload) == Some(b.data@) && b.endian == endian,
                Err(e) => zstd_decoded(payload) is None && e == Error::DecompressionError,
            }
            &&& (tag != 1 && tag != 2) ==> r == Err::<SectionBuffer, Error>(
                Error::UnknownCompressionMethod(tag),
            )
        }
    }
}

/// Name fallback ordering: a split-file request prefers the split-file name
/// wherever the section has one; the resolved name is looked up as it stands
/// before its Mach-O respelling is tried; the respelling decides only where
/// the resolved name is absent.
pub proof fn lemma_name_fallback_ordering(view: Image, id: SectionId, dwo_file: bool)
    ensures
        dwo_file && spec_dwo_name(id) is Some ==> spec_resolved_name(id, dwo_file) == spec_dwo_name(
            id,
        ).unwrap(),
        !(dwo_file && spec_dwo_name(id) is Some) ==> spec_resolved_name(id, dwo_file) == spec_name(
            id,
        ),
        spec_find_section(view.sections@, spec_resolved_name(id, dwo_file)) is Some
            ==> spec_resolve_section(view, id, dwo_file) == spec_find_section(
            view.sections@,
            spec_resolved_name(id, dwo_file),
        ),
        spec_find_section(view.sections@, spec_resolved_name(id, dwo_file)) is None
            ==> spec_resolve_section(view, id, dwo_file) == spec_find_section(
            view.sections@,
            spec_macho_name(spec_resolved_name(id, dwo_file)),
        ),
{
}

/// Two images with the same contents read alike.
proof fn lemma_same_contents_spec_read(a: Image, b: Image, addr: u64, len: nat)
    requires
        same_contents(a, b),
    ensures
        a.spec_read(addr, len) == b.spec_read(addr, len),
{
}

/// Walks the side table in records of `ew` bytes and yields the flags field
/// of the first record whose address field reads as `start`.
fn matched_record_flags(
    table: &Vec<u8>,
    ew: usize,
    address_size: usize,
    endian: RunTimeEndian,
    start: u64,
) -> (r: Option<u64>)
    requires
        ew > 0,
    ensures
        match spec_matched_record(table@, ew as nat, address_size, endian, start) {
            Some(k) => r == Some(
                spec_record_flags(table@, (k * ew) as int, address_size, endian),
            ),
            None => r is None,
        },
{
    let table_len: usize = table.len();
    let mut off: usize = 0;
    let ghost mut k: nat = 0;
    while off < table_len
        invariant
            table_len == table@.len(),
            ew > 0,
            off == k * ew || (off == table_len && k * ew >= table_len),
            forall|j: nat|
                j < k ==> !spec_match_at(table@, ew as nat, address_size, endian, start, j),
        decreases table_len - off,
    {
        proof {
            assert(off == k * ew);
        }
        let rem: usize = table_len - off;
        let matched: bool = if address_size == 4 {
            rem >= 20 && ew >= 20 && read_u32_at(table, off + 16, endian) as u64 == start
        } else {
            rem >= 32 && ew >= 32 && read_u64_at(table, off + 24, endian) == start
        };
        proof {
            assert(matched == spec_match_at(table@, ew as nat, address_size, endian, start, k));
        }
        if matched {
            proof {
                assert(spec_is_first_match(table@, ew as nat, address_size, endian, start, k));
                let k0 = choose|k0: nat|
                    spec_is_first_match(table@, ew as nat, address_size, endian, start, k0);
                assert(spec_is_first_match(table@, ew as nat, address_size, endian, start, k0));
                assert(k0 == k);
            }
            let flags: u64 = if address_size == 4 {
                read_u32_at(table, off + 8, endian) as u64
            } else {
                read_u64_at(table, off + 8, endian)
            };
            return Some(flags);
        }
        proof {
            assert((k + 1) * ew == k * ew + ew) by (nonlinear_arith);
            k = k + 1;
        }
        if rem <= ew {
            off = table_len;
        } else {
            off = off + ew;
        }
    }
    proof {
        assert(k * ew >= table_len);
        assert forall|j: nat|
            !spec_match_at(table@, ew as nat, address_size, endian, start, j) by {
            if spec_match_at(table@, ew as nat, address_size, endian, start, j) {
                assert(j * ew < table_len);
                assert(j * ew < k * ew);
                assert(j < k) by (nonlinear_arith)
                    requires
                        ew > 0,
                        j * ew < k * ew,
                ;
            }
        }
    }
    None
}

/// Reads the image's side table, if it is present and usable, and decides
/// whether the section starting at `start` carries the ELF compressed bit.
fn detect_compressed(view: &mut Image, endian: RunTimeEndian, start: u64) -> (r: bool)
    ensures
        same_contents(*old(view), *final(view)),
        r == spec_detected_compressed(*old(view), endian, start),
        spec_section_header_table(*old(view)) is None ==> final(view).reads_issued@ == old(
            view,
        ).reads_issued@,
{
    let sentinel: String = "__elf_section_headers".to_owned();
    let sym_addr: u64 = match view.symbol_address_by_name(&sentinel) {
        Some(a) => a,
        None => {
            return false;
        },
    };
    let var = match view.data_variable_at(sym_addr) {
        Some(p) => p,
        None => {
            return false;
        },
    };
    let (width, element_width): (usize, Option<usize>) = var;
    let ew: usize = match element_width {
        Some(e) => e,
        None => {
            return false;
        },
    };
    if ew == 0 {
        return false;
    }
    let address_size: usize = view.address_size;
    let table: Vec<u8> = view.read_vec(sym_addr, width);
    let flags = matched_record_flags(&table, ew, address_size, endian, start);
    match flags {
        Some(f) => (f & 0x800) != 0,
        None => false,
    }
}

/// Resolves the requested DWARF section of the image and yields its bytes:
/// raw where the section is not marked compressed, decompressed where it is,
/// and empty where the section is absent under every naming variant or has
/// length zero. Absent and zero-length sections are read without issuing a
/// single raw byte read.
pub fn create_section_reader(
    section_id: SectionId,
    view: &mut Image,
    endian: RunTimeEndian,
    dwo_file: bool,
) -> (r: Result<SectionBuffer, Error>)
    requires
        old(view).wf(),
    ensures
        same_contents(*old(view), *final(view)),
        spec_resolve_section(*old(view), section_id, dwo_file) is None ==> spec_empty_ok(r, endian)
            && final(view).reads_issued@ == old(view).reads_issued@,
        ({
            let resolved = spec_resolve_section(*old(view), section_id, dwo_file);
            resolved is Some && resolved.unwrap().len == 0 ==> spec_empty_ok(r, endian)
                && final(view).reads_issued@ == old(view).reads_issued@
        }),
        ({
            let resolved = spec_resolve_section(*old(view), section_id, dwo_file);
            resolved is Some && resolved.unwrap().len > 0 && !spec_detected_compressed(
                *old(view),
                endian,
                resolved.unwrap().start,
            ) ==> {
                &&& r is Ok
                &&& r.unwrap().data@ == old(view).spec_read(
                    resolved.unwrap().start,
                    resolved.unwrap().len as nat,
                )
                &&& r.unwrap().endian == endian
            }
        }),
        ({
            let resolved = spec_resolve_section(*old(view), section_id, dwo_file);
            resolved is Some && resolved.unwrap().len > 0 && spec_detected_compressed(
                *old(view),
                endian,
                resolved.unwrap().start,
            ) ==> spec_decompression_post(*old(view), resolved.unwrap(), endian, r)
        }),
{
    let name: String = resolved_name(section_id, dwo_file);
    let mut found: Option<(u64, usize)> = view.section_by_name(&name);
    if found.is_none() {
        proof {
            lemma_name_nonempty(section_id);
            lemma_dwo_name_nonempty(section_id);
        }
        let fallback: String = macho_name(&name);
        found = view.section_by_name(&fallback);
    }
    let (start, len): (u64, usize) = match found {
        Some(p) => p,
        None => {
            return Ok(SectionBuffer { data: Vec::new(), endian });
        },
    };
    if len == 0 {
        return Ok(SectionBuffer { data: Vec::new(), endian });
    }
    let compressed: bool = detect_compressed(view, endian, start);
    if compressed {
        let header_size: usize = view.address_size * 3;
        if len < header_size {
            return Err(Error::DecompressionError);
        }
        if start > u64::MAX - header_size as u64 {
            return Err(Error::DecompressionError);
        }
        let tag_bytes: Vec<u8> = view.read_vec(start, 4);
        proof {
            lemma_same_contents_spec_read(*old(view), *view, start, 4);
        }
        if tag_bytes.len() < 4 {
            return Err(Error::DecompressionError);
        }
        let tag: u32 = read_u32_at(&tag_bytes, 0, endian);
        let payload: Vec<u8> = view.read_vec(start + header_size as u64, len - header_size);
        proof {
            lemma_same_contents_spec_read(
                *old(view),
                *view,
                (start + header_size) as u64,
                (len - header_size) as nat,
            );
        }
        match decompress_payload(tag, &payload) {
            Ok(d) => Ok(SectionBuffer { data: d, endian }),
            Err(e) => Err(e),
        }
    } else {
        let data: Vec<u8> = view.read_vec(start, len);
        proof {
            lemma_same_contents_spec_read(*old(view), *view, start, len as nat);
        }
        Ok(SectionBuffer { data, endian })
    }
}

} // verus!

