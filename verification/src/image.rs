//! Model of a loaded binary image: an addressable byte space with named
//! sections, symbols and typed data variables, plus an optional untransformed
//! raw backing view of the same file.

use vstd::prelude::*;
use vstd::slice::{slice_subrange, slice_to_vec};

use crate::endian::Endianness;

verus! {

/// A named byte range `[start, start + len)` of the image.
#[derive(Clone, Debug)]
pub struct SectionInfo {
    pub name: String,
    pub start: u64,
    pub len: usize,
}

/// A symbol of the image, under its fully qualified name.
#[derive(Clone, Debug)]
pub struct SymbolInfo {
    pub full_name: String,
    pub address: u64,
}

/// A typed data variable anchored at an address: its total byte width and,
/// when its type is an array, the byte width of one element.
#[derive(Clone, Copy, Debug)]
pub struct DataVariableInfo {
    pub address: u64,
    pub width: usize,
    pub element_width: Option<usize>,
}

/// A loaded binary image. The bytes of `data` sit at addresses
/// `[base, base + data.len())`; reads outside that range truncate.
///
/// `reads_issued` counts the raw byte reads issued against this image, so
/// that contracts can state when no read happens at all.
pub struct Image {
    pub base: u64,
    pub data: Vec<u8>,
    pub sections: Vec<SectionInfo>,
    pub symbols: Vec<SymbolInfo>,
    pub data_variables: Vec<DataVariableInfo>,
    pub address_size: usize,
    pub endianness: Endianness,
    pub raw_view: Option<Box<Image>>,
    pub reads_issued: Ghost<nat>,
}

/// The first section of `sections` named `name`, if any.
pub open spec fn spec_find_section(sections: Seq<SectionInfo>, name: Seq<char>) -> Option<
    SectionInfo,
>
    decreases sections.len(),
{
    if sections.len() == 0 {
        None
    } else if sections[0].name@ == name {
        Some(sections[0])
    } else {
        spec_find_section(sections.drop_first(), name)
    }
}

/// The first symbol of `symbols` whose fully qualified name is `full_name`.
pub open spec fn spec_find_symbol(symbols: Seq<SymbolInfo>, full_name: Seq<char>) -> Option<
    SymbolInfo,
>
    decreases symbols.len(),
{
    if symbols.len() == 0 {
        None
    } else if symbols[0].full_name@ == full_name {
        Some(symbols[0])
    } else {
        spec_find_symbol(symbols.drop_first(), full_name)
    }
}

/// The first data variable of `vars` anchored at `address`.
pub open spec fn spec_find_data_variable(vars: Seq<DataVariableInfo>, address: u64) -> Option<
    DataVariableInfo,
>
    decreases vars.len(),
{
    if vars.len() == 0 {
        None
    } else if vars[0].address == address {
        Some(vars[0])
    } else {
        spec_find_data_variable(vars.drop_first(), address)
    }
}

/// The two images hold the same contents; only the count of issued reads may
/// differ.
pub open spec fn same_contents(a: Image, b: Image) -> bool {
    &&& a.base == b.base
    &&& a.data == b.data
    &&& a.sections == b.sections
    &&& a.symbols == b.symbols
    &&& a.data_variables == b.data_variables
    &&& a.address_size == b.address_size
    &&& a.endianness == b.endianness
    &&& a.raw_view == b.raw_view
}

impl Image {
    /// The image declares one of the two ELF address widths.
    pub open spec fn wf(&self) -> bool {
        self.address_size == 4 || self.address_size == 8
    }

    /// The image holds a section named `name`.
    pub open spec fn spec_has_section(&self, name: Seq<char>) -> bool {
        spec_find_section(self.sections@, name) is Some
    }

    /// The bytes a raw read of `[addr, addr + len)` yields: what the image
    /// backs of that range, truncated at either end.
    pub open spec fn spec_read(&self, addr: u64, len: nat) -> Seq<u8> {
        let off = addr - self.base;
        if addr < self.base || off >= self.data@.len() {
            Seq::empty()
        } else if off + len <= self.data@.len() {
            self.data@.subrange(off, off + len)
        } else {
            self.data@.subrange(off, self.data@.len() as int)
        }
    }

    /// Builds an image; no reads have been issued against it yet.
    pub fn new(
        base: u64,
        data: Vec<u8>,
        sections: Vec<SectionInfo>,
        symbols: Vec<SymbolInfo>,
        data_variables: Vec<DataVariableInfo>,
        address_size: usize,
        endianness: Endianness,
        raw_view: Option<Box<Image>>,
    ) -> (img: Image)
        ensures
            img.base == base,
            img.data == data,
            img.sections == sections,
            img.symbols == symbols,
            img.data_variables == data_variables,
            img.address_size == address_size,
            img.endianness == endianness,
            img.raw_view == raw_view,
            img.reads_issued@ == 0,
    {
        Image {
            base,
            data,
            sections,
            symbols,
            data_variables,
            address_size,
            endianness,
            raw_view,
            reads_issued: Ghost(0),
        }
    }

    /// Looks the named section up; yields its start and length.
    pub fn section_by_name(&self, name: &String) -> (r: Option<(u64, usize)>)
        ensures
            match spec_find_section(self.sections@, name@) {
                Some(s) => r == Some((s.start, s.len)),
                None => r is None,
            },
    {
        proof {
            assert(self.sections@.skip(0) =~= self.sections@);
        }
        let n: usize = self.sections.len();
        for i in 0..n
            invariant
                n == self.sections@.len(),
                spec_find_section(self.sections@, name@) == spec_find_section(
                    self.sections@.skip(i as int),
                    name@,
                ),
        {
            let sec = &self.sections[i];
            if sec.name == *name {
                return Some((sec.start, sec.len));
            }
            proof {
                assert(self.sections@.skip(i as int).drop_first() =~= self.sections@.skip(
                    i as int + 1,
                ));
            }
        }
        None
    }

    /// Looks the named symbol up; yields its address.
    pub fn symbol_address_by_name(&self, full_name: &String) -> (r: Option<u64>)
        ensures
            match spec_find_symbol(self.symbols@, full_name@) {
                Some(s) => r == Some(s.address),
                None => r is None,
            },
    {
        proof {
            assert(self.symbols@.skip(0) =~= self.symbols@);
        }
        let n: usize = self.symbols.len();
        for i in 0..n
            invariant
                n == self.symbols@.len(),
                spec_find_symbol(self.symbols@, full_name@) == spec_find_symbol(
                    self.symbols@.skip(i as int),
                    full_name@,
                ),
        {
            let sym = &self.symbols[i];
            if sym.full_name == *full_name {
                return Some(sym.address);
            }
            proof {
                assert(self.symbols@.skip(i as int).drop_first() =~= self.symbols@.skip(
                    i as int + 1,
                ));
            }
        }
        None
    }

    /// Looks the data variable anchored at `address` up; yields its byte
    /// width and the byte width of one element of its type, if any.
    pub fn data_variable_at(&self, address: u64) -> (r: Option<(usize, Option<usize>)>)
        ensures
            match spec_find_data_variable(self.data_variables@, address) {
                Some(v) => r == Some((v.width, v.element_width)),
                None => r is None,
            },
    {
        proof {
            assert(self.data_variables@.skip(0) =~= self.data_variables@);
        }
        let n: usize = self.data_variables.len();
        for i in 0..n
            invariant
                n == self.data_variables@.len(),
                spec_find_data_variable(self.data_variables@, address) == spec_find_data_variable(
                    self.data_variables@.skip(i as int),
                    address,
                ),
        {
            let var = &self.data_variables[i];
            if var.address == address {
                return Some((var.width, var.element_width));
            }
            proof {
                assert(self.data_variables@.skip(i as int).drop_first()
                    =~= self.data_variables@.skip(i as int + 1));
            }
        }
        None
    }

    /// Issues a raw read of `[addr, addr + len)`; a short read truncates.
    pub fn read_vec(&mut self, addr: u64, len: usize) -> (r: Vec<u8>)
        ensures
            same_contents(*old(self), *final(self)),
            final(self).reads_issued@ == old(self).reads_issued@ + 1,
            r@ == old(self).spec_read(addr, len as nat),
    {
        self.reads_issued = Ghost(self.reads_issued@ + 1);
        if addr < self.base {
            return Vec::new();
        }
        let off64: u64 = addr - self.base;
        let data_len: usize = self.data.len();
        if off64 >= data_len as u64 {
            return Vec::new();
        }
        let off: usize = off64 as usize;
        let end: usize = if len <= data_len - off {
            off + len
        } else {
            data_len
        };
        slice_to_vec(slice_subrange(self.data.as_slice(), off, end))
    }
}

} // verus!
