//! Whether a loaded image carries DWARF debug data, split or embedded, and
//! whether a build-id based remote debug-info fetch may be attempted.

use vstd::prelude::*;

use crate::endian::{Endianness, RunTimeEndian};
use crate::image::Image;

verus! {

/// The image embeds DWARF: a `.debug_info` or `__debug_info` section exists.
pub open spec fn spec_is_non_dwo_dwarf(view: Image) -> bool {
    view.spec_has_section(".debug_info"@) || view.spec_has_section("__debug_info"@)
}

/// The image is a split-DWARF file: a `.debug_info.dwo` section exists.
pub open spec fn spec_is_dwo_dwarf(view: Image) -> bool {
    view.spec_has_section(".debug_info.dwo"@)
}

/// The untransformed raw backing view, if any, embeds DWARF.
pub open spec fn spec_is_raw_non_dwo_dwarf(view: Image) -> bool {
    match view.raw_view {
        Some(raw) => spec_is_non_dwo_dwarf(*raw),
        None => false,
    }
}

/// The untransformed raw backing view, if any, is a split-DWARF file.
pub open spec fn spec_is_raw_dwo_dwarf(view: Image) -> bool {
    match view.raw_view {
        Some(raw) => spec_is_dwo_dwarf(*raw),
        None => false,
    }
}

/// The raw backing view carries a GNU build-id note section.
pub open spec fn spec_has_build_id_section(view: Image) -> bool {
    match view.raw_view {
        Some(raw) => raw.spec_has_section(".note.gnu.build-id"@),
        None => false,
    }
}

/// The image, or its raw backing view, carries DWARF under either naming
/// convention, split or embedded.
pub open spec fn spec_is_valid(view: Image) -> bool {
    spec_is_non_dwo_dwarf(view) || spec_is_raw_non_dwo_dwarf(view) || spec_is_dwo_dwarf(view)
        || spec_is_raw_dwo_dwarf(view)
}

/// The byte order a section reader for this image carries.
pub open spec fn spec_get_endian(view: Image) -> RunTimeEndian {
    match view.endianness {
        Endianness::LittleEndian => RunTimeEndian::Little,
        Endianness::BigEndian => RunTimeEndian::Big,
    }
}

/// True iff the image embeds DWARF debug data.
pub fn is_non_dwo_dwarf(view: &Image) -> (r: bool)
    ensures
        r == spec_is_non_dwo_dwarf(*view),
{
    view.section_by_name(&".debug_info".to_owned()).is_some() || view.section_by_name(
        &"__debug_info".to_owned(),
    ).is_some()
}

/// True iff the image is a split-DWARF file.
pub fn is_dwo_dwarf(view: &Image) -> (r: bool)
    ensures
        r == spec_is_dwo_dwarf(*view),
{
    view.section_by_name(&".debug_info.dwo".to_owned()).is_some()
}

/// True iff the image's raw backing view embeds DWARF.
pub fn is_raw_non_dwo_dwarf(view: &Image) -> (r: bool)
    ensures
        r == spec_is_raw_non_dwo_dwarf(*view),
{
    match &view.raw_view {
        Some(raw) => is_non_dwo_dwarf(raw),
        None => false,
    }
}

/// True iff the image's raw backing view is a split-DWARF file.
pub fn is_raw_dwo_dwarf(view: &Image) -> (r: bool)
    ensures
        r == spec_is_raw_dwo_dwarf(*view),
{
    match &view.raw_view {
        Some(raw) => is_dwo_dwarf(raw),
        None => false,
    }
}

/// True iff the raw backing view carries a GNU build-id note section.
pub fn has_build_id_section(view: &Image) -> (r: bool)
    ensures
        r == spec_has_build_id_section(*view),
{
    match &view.raw_view {
        Some(raw) => raw.section_by_name(&".note.gnu.build-id".to_owned()).is_some(),
        None => false,
    }
}

/// True iff debug info may be fetched for this image over a remote symbol
/// server: the image carries a build-id note and the host-configured
/// debuginfod setting, read by the caller, is enabled.
pub fn can_use_debuginfod(view: &Image, debuginfod_enabled: bool) -> (r: bool)
    ensures
        r == (spec_has_build_id_section(*view) && debuginfod_enabled),
{
    has_build_id_section(view) && debuginfod_enabled
}

/// True iff the image is worth handing to a DWARF parser at all.
pub fn is_valid(view: &Image) -> (r: bool)
    ensures
        r == spec_is_valid(*view),
{
    is_non_dwo_dwarf(view) || is_raw_non_dwo_dwarf(view) || is_dwo_dwarf(view) || is_raw_dwo_dwarf(
        view,
    )
}

/// The byte order for this image's section readers.
pub fn get_endian(view: &Image) -> (r: RunTimeEndian)
    ensures
        r == spec_get_endian(*view),
{
    match view.endianness {
        Endianness::LittleEndian => RunTimeEndian::Little,
        Endianness::BigEndian => RunTimeEndian::Big,
    }
}

/// Classification is idempotent: the presence predicates are pinned to
/// functions of the image alone, so two calls on the same unchanged image
/// answer alike.
pub proof fn lemma_classification_idempotent(
    view: Image,
    first: bool,
    second: bool,
    raw_first: bool,
    raw_second: bool,
    dwo_first: bool,
    dwo_second: bool,
    raw_dwo_first: bool,
    raw_dwo_second: bool,
)
    requires
        first == spec_is_non_dwo_dwarf(view),
        second == spec_is_non_dwo_dwarf(view),
        raw_first == spec_is_raw_non_dwo_dwarf(view),
        raw_second == spec_is_raw_non_dwo_dwarf(view),
        dwo_first == spec_is_dwo_dwarf(view),
        dwo_second == spec_is_dwo_dwarf(view),
        raw_dwo_first == spec_is_raw_dwo_dwarf(view),
        raw_dwo_second == spec_is_raw_dwo_dwarf(view),
    ensures
        first == second,
        raw_first == raw_second,
        dwo_first == dwo_second,
        raw_dwo_first == raw_dwo_second,
{
}

} // verus!
