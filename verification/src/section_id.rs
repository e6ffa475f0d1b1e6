//! The well-known DWARF section identifiers, their ELF section names, their
//! split-DWARF (`.dwo`) alternate names, and the Mach-O naming fallback.

use vstd::prelude::*;
use vstd::string::{StrSliceExecFns, StringExecFns};

verus! {

/// A well-known DWARF section.
#[derive(Clone, Copy, PartialEq, Eq, Structural, Debug)]
pub enum SectionId {
    DebugAbbrev,
    DebugAddr,
    DebugAranges,
    DebugCuIndex,
    DebugFrame,
    EhFrame,
    EhFrameHdr,
    DebugGnuPubNames,
    DebugGnuPubTypes,
    DebugInfo,
    DebugLine,
    DebugLineStr,
    DebugLoc,
    DebugLocLists,
    DebugMacinfo,
    DebugMacro,
    DebugNames,
    DebugPubNames,
    DebugPubTypes,
    DebugRanges,
    DebugRngLists,
    DebugStr,
    DebugStrOffsets,
    DebugTuIndex,
    DebugTypes,
}

/// The canonical ELF section name of `id`.
pub open spec fn spec_name(id: SectionId) -> Seq<char> {
    match id {
        SectionId::DebugAbbrev => ".debug_abbrev"@,
        SectionId::DebugAddr => ".debug_addr"@,
        SectionId::DebugAranges => ".debug_aranges"@,
        SectionId::DebugCuIndex => ".debug_cu_index"@,
        SectionId::DebugFrame => ".debug_frame"@,
        SectionId::EhFrame => ".eh_frame"@,
        SectionId::EhFrameHdr => ".eh_frame_hdr"@,
        SectionId::DebugGnuPubNames => ".debug_gnu_pubnames"@,
        SectionId::DebugGnuPubTypes => ".debug_gnu_pubtypes"@,
        SectionId::DebugInfo => ".debug_info"@,
        SectionId::DebugLine => ".debug_line"@,
        SectionId::DebugLineStr => ".debug_line_str"@,
        SectionId::DebugLoc => ".debug_loc"@,
        SectionId::DebugLocLists => ".debug_loclists"@,
        SectionId::DebugMacinfo => ".debug_macinfo"@,
        SectionId::DebugMacro => ".debug_macro"@,
        SectionId::DebugNames => ".debug_names"@,
        SectionId::DebugPubNames => ".debug_pubnames"@,
        SectionId::DebugPubTypes => ".debug_pubtypes"@,
        SectionId::DebugRanges => ".debug_ranges"@,
        SectionId::DebugRngLists => ".debug_rnglists"@,
        SectionId::DebugStr => ".debug_str"@,
        SectionId::DebugStrOffsets => ".debug_str_offsets"@,
        SectionId::DebugTuIndex => ".debug_tu_index"@,
        SectionId::DebugTypes => ".debug_types"@,
    }
}

/// The section name of `id` in a split-DWARF (`.dwo` or `.dwp`) file, for
/// the sections such a file may hold.
pub open spec fn spec_dwo_name(id: SectionId) -> Option<Seq<char>> {
    match id {
        SectionId::DebugAbbrev => Some(".debug_abbrev.dwo"@),
        SectionId::DebugCuIndex => Some(".debug_cu_index"@),
        SectionId::DebugInfo => Some(".debug_info.dwo"@),
        SectionId::DebugLine => Some(".debug_line.dwo"@),
        SectionId::DebugLoc => Some(".debug_loc.dwo"@),
        SectionId::DebugLocLists => Some(".debug_loclists.dwo"@),
        SectionId::DebugMacinfo => Some(".debug_macinfo.dwo"@),
        SectionId::DebugMacro => Some(".debug_macro.dwo"@),
        SectionId::DebugRngLists => Some(".debug_rnglists.dwo"@),
        SectionId::DebugStr => Some(".debug_str.dwo"@),
        SectionId::DebugStrOffsets => Some(".debug_str_offsets.dwo"@),
        SectionId::DebugTuIndex => Some(".debug_tu_index"@),
        SectionId::DebugTypes => Some(".debug_types.dwo"@),
        _ => None,
    }
}

/// The name the reader looks up: the split-file name when a split file is
/// read and `id` has one, the canonical name otherwise.
pub open spec fn spec_resolved_name(id: SectionId, dwo_file: bool) -> Seq<char> {
    if dwo_file && spec_dwo_name(id) is Some {
        spec_dwo_name(id).unwrap()
    } else {
        spec_name(id)
    }
}

/// The Mach-O spelling of an ELF section name: the leading character replaced
/// by a `__` prefix.
pub open spec fn spec_macho_name(name: Seq<char>) -> Seq<char> {
    seq!['_', '_'] + name.skip(1)
}

impl SectionId {
    /// The canonical ELF section name.
    pub fn name(&self) -> (r: &'static str)
        ensures
            r@ == spec_name(*self),
    {
        match self {
            SectionId::DebugAbbrev => ".debug_abbrev",
            SectionId::DebugAddr => ".debug_addr",
            SectionId::DebugAranges => ".debug_aranges",
            SectionId::DebugCuIndex => ".debug_cu_index",
            SectionId::DebugFrame => ".debug_frame",
            SectionId::EhFrame => ".eh_frame",
            SectionId::EhFrameHdr => ".eh_frame_hdr",
            SectionId::DebugGnuPubNames => ".debug_gnu_pubnames",
            SectionId::DebugGnuPubTypes => ".debug_gnu_pubtypes",
            SectionId::DebugInfo => ".debug_info",
            SectionId::DebugLine => ".debug_line",
            SectionId::DebugLineStr => ".debug_line_str",
            SectionId::DebugLoc => ".debug_loc",
            SectionId::DebugLocLists => ".debug_loclists",
            SectionId::DebugMacinfo => ".debug_macinfo",
            SectionId::DebugMacro => ".debug_macro",
            SectionId::DebugNames => ".debug_names",
            SectionId::DebugPubNames => ".debug_pubnames",
            SectionId::DebugPubTypes => ".debug_pubtypes",
            SectionId::DebugRanges => ".debug_ranges",
            SectionId::DebugRngLists => ".debug_rnglists",
            SectionId::DebugStr => ".debug_str",
            SectionId::DebugStrOffsets => ".debug_str_offsets",
            SectionId::DebugTuIndex => ".debug_tu_index",
            SectionId::DebugTypes => ".debug_types",
        }
    }

    /// The split-DWARF section name, for the sections a split file may hold.
    pub fn dwo_name(&self) -> (r: Option<&'static str>)
        ensures
            match r {
                Some(s) => spec_dwo_name(*self) == Some(s@),
                None => spec_dwo_name(*self) is None,
            },
    {
        match self {
            SectionId::DebugAbbrev => Some(".debug_abbrev.dwo"),
            SectionId::DebugCuIndex => Some(".debug_cu_index"),
            SectionId::DebugInfo => Some(".debug_info.dwo"),
            SectionId::DebugLine => Some(".debug_line.dwo"),
            SectionId::DebugLoc => Some(".debug_loc.dwo"),
            SectionId::DebugLocLists => Some(".debug_loclists.dwo"),
            SectionId::DebugMacinfo => Some(".debug_macinfo.dwo"),
            SectionId::DebugMacro => Some(".debug_macro.dwo"),
            SectionId::DebugRngLists => Some(".debug_rnglists.dwo"),
            SectionId::DebugStr => Some(".debug_str.dwo"),
            SectionId::DebugStrOffsets => Some(".debug_str_offsets.dwo"),
            SectionId::DebugTuIndex => Some(".debug_tu_index"),
            SectionId::DebugTypes => Some(".debug_types.dwo"),
            _ => None,
        }
    }
}

/// Every canonical section name has at least one character.
pub proof fn lemma_name_nonempty(id: SectionId)
    ensures
        spec_name(id).len() >= 1,
{
    reveal_strlit(".debug_abbrev");
    reveal_strlit(".debug_addr");
    reveal_strlit(".debug_aranges");
    reveal_strlit(".debug_cu_index");
    reveal_strlit(".debug_frame");
    reveal_strlit(".eh_frame");
    reveal_strlit(".eh_frame_hdr");
    reveal_strlit(".debug_gnu_pubnames");
    reveal_strlit(".debug_gnu_pubtypes");
    reveal_strlit(".debug_info");
    reveal_strlit(".debug_line");
    reveal_strlit(".debug_line_str");
    reveal_strlit(".debug_loc");
    reveal_strlit(".debug_loclists");
    reveal_strlit(".debug_macinfo");
    reveal_strlit(".debug_macro");
    reveal_strlit(".debug_names");
    reveal_strlit(".debug_pubnames");
    reveal_strlit(".debug_pubtypes");
    reveal_strlit(".debug_ranges");
    reveal_strlit(".debug_rnglists");
    reveal_strlit(".debug_str");
    reveal_strlit(".debug_str_offsets");
    reveal_strlit(".debug_tu_index");
    reveal_strlit(".debug_types");
}

/// Every split-DWARF section name has at least one character.
pub proof fn lemma_dwo_name_nonempty(id: SectionId)
    ensures
        spec_dwo_name(id) is Some ==> spec_dwo_name(id).unwrap().len() >= 1,
{
    reveal_strlit(".debug_abbrev.dwo");
    reveal_strlit(".debug_cu_index");
    reveal_strlit(".debug_info.dwo");
    reveal_strlit(".debug_line.dwo");
    reveal_strlit(".debug_loc.dwo");
    reveal_strlit(".debug_loclists.dwo");
    reveal_strlit(".debug_macinfo.dwo");
    reveal_strlit(".debug_macro.dwo");
    reveal_strlit(".debug_rnglists.dwo");
    reveal_strlit(".debug_str.dwo");
    reveal_strlit(".debug_str_offsets.dwo");
    reveal_strlit(".debug_tu_index");
    reveal_strlit(".debug_types.dwo");
}

/// The name the reader looks up for `id`.
pub fn resolved_name(id: SectionId, dwo_file: bool) -> (r: String)
    ensures
        r@ == spec_resolved_name(id, dwo_file),
{
    if dwo_file {
        if let Some(d) = id.dwo_name() {
            return d.to_owned();
        }
    }
    id.name().to_owned()
}

/// Respells `name` the Mach-O way: the leading character becomes a `__`
/// prefix.
pub fn macho_name(name: &String) -> (r: String)
    requires
        name@.len() >= 1,
    ensures
        r@ == spec_macho_name(name@),
{
    proof {
        reveal_strlit("__");
    }
    let n: usize = name.as_str().unicode_len();
    let rest = name.as_str().substring_char(1, n);
    let mut m = String::from_str("__");
    m.append(rest);
    proof {
        assert(m@ =~= spec_macho_name(name@));
    }
    m
}

} // verus!
