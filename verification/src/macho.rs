//! The Mach-O object writer: layout planning and serialization.
//!
//! The file image is, in order: the header, the segment command, one
//! section record per non-empty section, the symbol-table command, the raw
//! section bytes padded to an 8-byte boundary, the relocation entries, the
//! symbol table, and the string table.

use crate::bytes::{le32, le64};
use crate::endian::{bytes_of_chars, fixed_str_bytes, le32_i};
use crate::header::{CpuSubTypeX86_64, CpuType, FileType, Flags, Header64, Magic};
use crate::load_command::segment64::{Section64, SectionAttrs, SectionType, SegmentCommand64};
use crate::load_command::symtab::SymtabCommand;
use crate::nlist::{NList64, NType, NTypeField};
use crate::num::{spec_aligned, NumExt};
use crate::object::{reloc_views, sym_views, Object, RelocView, SymbolView};
use crate::reloc::{RelocLength, RelocationInfo};
use crate::string_table::{contains_name, is_str_start, str_at, StringTable};
use vstd::prelude::*;
use vstd::string::StringExecFns;

verus! {

/// The number of text bytes.
pub open spec fn text_len(obj: Object) -> int {
    obj.sections.text.bytes@.len() as int
}

/// The number of data bytes.
pub open spec fn data_len(obj: Object) -> int {
    obj.sections.data.bytes@.len() as int
}

/// The declared bss size.
pub open spec fn bss_size(obj: Object) -> int {
    obj.sections.bss.size as int
}

/// Whether each section appears in the file: empty sections are skipped.
pub open spec fn out_text(obj: Object) -> bool {
    text_len(obj) > 0
}

pub open spec fn out_data(obj: Object) -> bool {
    data_len(obj) > 0
}

pub open spec fn out_bss(obj: Object) -> bool {
    bss_size(obj) > 0
}

/// The number of non-empty sections.
pub open spec fn n_sects(obj: Object) -> int {
    obj.sections.spec_len()
}

/// The total size of the load commands.
pub open spec fn size_of_cmds(obj: Object) -> int {
    72 + 80 * n_sects(obj) + 24
}

/// The file offset where the raw section bytes start.
pub open spec fn data_start(obj: Object) -> int {
    32 + size_of_cmds(obj)
}

/// The raw section bytes: text, then data.
pub open spec fn payload(obj: Object) -> Seq<u8> {
    obj.sections.text.bytes@ + obj.sections.data.bytes@
}

/// The raw section bytes padded with zero bytes to an 8-byte boundary.
#[verifier::opaque]
pub open spec fn padded_payload(obj: Object) -> Seq<u8> {
    payload(obj) + Seq::new(
        (spec_aligned(payload(obj).len() as int, 8) - payload(obj).len()) as nat,
        |i: int| 0u8,
    )
}

/// The relocations the file carries, in section order; an empty section
/// contributes none.
pub open spec fn out_relocs(obj: Object) -> Seq<RelocView> {
    (if out_text(obj) {
        reloc_views(obj.sections.text.relocs@)
    } else {
        Seq::empty()
    }) + (if out_data(obj) {
        reloc_views(obj.sections.data.relocs@)
    } else {
        Seq::empty()
    })
}

/// The file offset where the relocation entries start.
pub open spec fn reloc_start(obj: Object) -> int {
    data_start(obj) + spec_aligned(text_len(obj) + data_len(obj), 8)
}

/// The file offset where the symbol table starts.
pub open spec fn symoff(obj: Object) -> int {
    reloc_start(obj) + 8 * out_relocs(obj).len()
}

/// The symbols the file carries, in section order; an empty section
/// contributes none.
pub open spec fn out_symbols(obj: Object) -> Seq<SymbolView> {
    (if out_text(obj) {
        sym_views(obj.sections.text.symbols@)
    } else {
        Seq::empty()
    }) + (if out_data(obj) {
        sym_views(obj.sections.data.symbols@)
    } else {
        Seq::empty()
    }) + (if out_bss(obj) {
        sym_views(obj.sections.bss.symbols@)
    } else {
        Seq::empty()
    })
}

/// The file offset where the string table starts.
pub open spec fn stroff(obj: Object) -> int {
    symoff(obj) + 16 * out_symbols(obj).len()
}

/// A symbol's contribution to the string table: its name, then NUL.
pub open spec fn name_with_nul(sv: SymbolView) -> Seq<u8> {
    bytes_of_chars(sv.name()) + seq![0u8]
}

/// The string table: a leading NUL, then each symbol's name followed by
/// NUL, in symbol order.
#[verifier::opaque]
pub open spec fn strtab_bytes(obj: Object) -> Seq<u8> {
    seq![0u8] + out_symbols(obj).flat_map(|sv: SymbolView| name_with_nul(sv))
}

/// The total size of the file image.
pub open spec fn file_end(obj: Object) -> int {
    stroff(obj) + strtab_bytes(obj).len()
}

/// The 1-based ordinal of the text section among the non-empty sections.
pub open spec fn text_ordinal(obj: Object) -> int {
    1
}

pub open spec fn data_ordinal(obj: Object) -> int {
    (if out_text(obj) {
        1int
    } else {
        0int
    }) + 1
}

pub open spec fn bss_ordinal(obj: Object) -> int {
    (if out_text(obj) {
        1int
    } else {
        0int
    }) + (if out_data(obj) {
        1int
    } else {
        0int
    }) + 1
}

/// Some carried symbol bears this name.
pub open spec fn has_symbol_named(obj: Object, name: Seq<char>) -> bool {
    exists|j: int| 0 <= j < out_symbols(obj).len() && (#[trigger] out_symbols(obj)[j]).name() == name
}

/// The object can be written: every relocation patches a range inside its
/// section and names a symbol the file carries, every symbol name can
/// stand in the string table, the counts fit their fields, and the whole
/// image fits in 32-bit offsets.
pub open spec fn obj_wf(obj: Object) -> bool {
    &&& file_end(obj) <= 0xFFFFFFFF
    &&& text_len(obj) + data_len(obj) + bss_size(obj) <= 0xFFFFFFFFFFFFFFFF
    &&& out_symbols(obj).len() < 0x1000000
    &&& forall|i: int|
        0 <= i < out_symbols(obj).len() ==> (#[trigger] out_symbols(obj)[i]).wf_name()
    &&& forall|i: int|
        0 <= i < obj.sections.text.symbols@.len() ==> match (
        #[trigger] obj.sections.text.symbols@[i]@) {
            SymbolView::Ref { addr, .. } => addr <= text_len(obj),
            _ => true,
        }
    &&& forall|i: int|
        0 <= i < obj.sections.data.symbols@.len() ==> match (
        #[trigger] obj.sections.data.symbols@[i]@) {
            SymbolView::Ref { addr, .. } => addr <= data_len(obj),
            _ => true,
        }
    &&& forall|i: int|
        0 <= i < obj.sections.bss.symbols@.len() ==> match (
        #[trigger] obj.sections.bss.symbols@[i]@) {
            SymbolView::Ref { addr, .. } => addr <= bss_size(obj),
            _ => true,
        }
    &&& forall|i: int|
        0 <= i < obj.sections.text.relocs@.len() ==> (#[trigger] obj.sections.text.relocs@[i]@).wf(
            text_len(obj),
        )
    &&& forall|i: int|
        0 <= i < obj.sections.data.relocs@.len() ==> (#[trigger] obj.sections.data.relocs@[i]@).wf(
            data_len(obj),
        )
    &&& forall|i: int|
        0 <= i < out_relocs(obj).len() ==> has_symbol_named(obj, (#[trigger] out_relocs(obj)[i]).symbol)
}

/// The serialized header.
#[verifier::opaque]
pub open spec fn header_bytes(obj: Object) -> Seq<u8> {
    le32(0xfeedfacf) + le32_i(0x01000007) + le32_i(0x3) + le32(0x1) + le32(2) + le32(
        size_of_cmds(obj) as u32,
    ) + le32(0) + le32(0)
}

/// The serialized segment command.
#[verifier::opaque]
pub open spec fn segment_bytes(obj: Object) -> Seq<u8> {
    le32(0x19) + le32((72 + 80 * n_sects(obj)) as u32) + fixed_str_bytes(Seq::empty(), 16) + le64(0)
        + le64((text_len(obj) + data_len(obj) + bss_size(obj)) as u64) + le64(
        data_start(obj) as u64,
    ) + le64(spec_aligned(text_len(obj) + data_len(obj), 8) as u64) + le32_i(7) + le32_i(7) + le32(
        n_sects(obj) as u32,
    ) + le32(0)
}

/// The text section's attribute bits: instructions, and relocation bits
/// when it has relocations.
pub open spec fn text_attrs_word(obj: Object) -> u32 {
    if obj.sections.text.relocs@.len() > 0 {
        0x80000700u32
    } else {
        0x80000400u32
    }
}

/// The data section's attribute bits: relocation bits when it has
/// relocations.
pub open spec fn data_attrs_word(obj: Object) -> u32 {
    if obj.sections.data.relocs@.len() > 0 {
        0x00000300u32
    } else {
        0u32
    }
}

/// The serialized section record of the text section.
#[verifier::opaque]
pub open spec fn text_sect_bytes(obj: Object) -> Seq<u8> {
    fixed_str_bytes("__text"@, 16) + fixed_str_bytes("__TEXT"@, 16) + le64(0) + le64(
        text_len(obj) as u64,
    ) + le32(data_start(obj) as u32) + le32(0) + le32(reloc_start(obj) as u32) + le32(
        obj.sections.text.relocs@.len() as u32,
    ) + le32(text_attrs_word(obj)) + le32(0) + le32(0) + le32(0)
}

/// The serialized section record of the data section.
#[verifier::opaque]
pub open spec fn data_sect_bytes(obj: Object) -> Seq<u8> {
    fixed_str_bytes("__data"@, 16) + fixed_str_bytes("__DATA"@, 16) + le64(text_len(obj) as u64)
        + le64(data_len(obj) as u64) + le32((data_start(obj) + text_len(obj)) as u32) + le32(0)
        + le32(
        (reloc_start(obj) + 8 * (if out_text(obj) {
            obj.sections.text.relocs@.len() as int
        } else {
            0int
        })) as u32,
    ) + le32(obj.sections.data.relocs@.len() as u32) + le32(data_attrs_word(obj)) + le32(0) + le32(
        0,
    ) + le32(0)
}

/// The serialized section record of the bss section.
#[verifier::opaque]
pub open spec fn bss_sect_bytes(obj: Object) -> Seq<u8> {
    fixed_str_bytes("__bss"@, 16) + fixed_str_bytes("__DATA"@, 16) + le64(
        (text_len(obj) + data_len(obj)) as u64,
    ) + le64(bss_size(obj) as u64) + le32(0) + le32(0) + le32(0) + le32(0) + le32(1) + le32(0)
        + le32(0) + le32(0)
}

/// The serialized section records of the non-empty sections, in order.
#[verifier::opaque]
pub open spec fn sects_bytes(obj: Object) -> Seq<u8> {
    (if out_text(obj) {
        text_sect_bytes(obj)
    } else {
        Seq::empty()
    }) + (if out_data(obj) {
        data_sect_bytes(obj)
    } else {
        Seq::empty()
    }) + (if out_bss(obj) {
        bss_sect_bytes(obj)
    } else {
        Seq::empty()
    })
}

/// The serialized symbol-table command.
#[verifier::opaque]
pub open spec fn symtab_bytes(obj: Object) -> Seq<u8> {
    le32(0x2) + le32(0x18) + le32(symoff(obj) as u32) + le32(out_symbols(obj).len() as u32) + le32(
        stroff(obj) as u32,
    ) + le32(strtab_bytes(obj).len() as u32)
}

/// The index of the first symbol named `name`.
pub open spec fn first_sym_idx(syms: Seq<SymbolView>, name: Seq<char>) -> int {
    choose|i: int|
        0 <= i < syms.len() && syms[i].name() == name && forall|j: int|
            0 <= j < i ==> (#[trigger] syms[j]).name() != name
}

/// The byte offset of the first string of the table reading `name`.
pub open spec fn first_strx(data: Seq<u8>, name: Seq<char>) -> int {
    choose|i: int|
        is_str_start(data, i) && str_at(data, i) == name && forall|j: int|
            is_str_start(data, j) && j < i ==> str_at(data, j) != name
}

/// The relocation entry written for `rv`: the first matching symbol's
/// index, an external unsigned relocation.
pub open spec fn reloc_info_of(obj: Object, rv: RelocView) -> RelocationInfo {
    RelocationInfo {
        r_address: rv.addr,
        r_symbolnum: first_sym_idx(out_symbols(obj), rv.symbol) as u32,
        r_pcrel: rv.pcrel,
        r_length: RelocLength::spec_from_u32(rv.len as u32)->Some_0,
        r_extern: true,
        r_type: 0,
    }
}

/// The serialized relocation entries, grouped per section in section order.
#[verifier::opaque]
pub open spec fn relocs_bytes(obj: Object) -> Seq<u8> {
    out_relocs(obj).flat_map(|rv: RelocView| reloc_info_of(obj, rv).spec_serialize())
}

/// The symbol table entry written for `sv`, a symbol of the section with
/// the given ordinal and memory address.
pub open spec fn nlist_of(obj: Object, sv: SymbolView, ordinal: u8, base: u64) -> NList64 {
    match sv {
        SymbolView::Undef { name } => NList64 {
            n_strx: first_strx(strtab_bytes(obj), name) as u32,
            n_type: NTypeField::Norm { n_pext: false, n_type: NType::Undf, n_ext: true },
            n_sect: 0,
            n_desc: 0,
            n_value: 0,
        },
        SymbolView::Abs { name, val, ext } => NList64 {
            n_strx: first_strx(strtab_bytes(obj), name) as u32,
            n_type: NTypeField::Norm { n_pext: false, n_type: NType::Abs, n_ext: ext },
            n_sect: ordinal,
            n_desc: 0,
            n_value: val,
        },
        SymbolView::Ref { name, addr, ext } => NList64 {
            n_strx: first_strx(strtab_bytes(obj), name) as u32,
            n_type: NTypeField::Norm { n_pext: false, n_type: NType::Sect, n_ext: ext },
            n_sect: ordinal,
            n_desc: 0,
            n_value: (base + addr) as u64,
        },
    }
}

/// The symbol table entries, grouped per section in section order.
pub open spec fn spec_nlists(obj: Object) -> Seq<NList64> {
    (if out_text(obj) {
        sym_views(obj.sections.text.symbols@).map_values(
            |sv: SymbolView| nlist_of(obj, sv, text_ordinal(obj) as u8, 0),
        )
    } else {
        Seq::empty()
    }) + (if out_data(obj) {
        sym_views(obj.sections.data.symbols@).map_values(
            |sv: SymbolView| nlist_of(obj, sv, data_ordinal(obj) as u8, text_len(obj) as u64),
        )
    } else {
        Seq::empty()
    }) + (if out_bss(obj) {
        sym_views(obj.sections.bss.symbols@).map_values(
            |sv: SymbolView|
                nlist_of(obj, sv, bss_ordinal(obj) as u8, (text_len(obj) + data_len(obj)) as u64),
        )
    } else {
        Seq::empty()
    })
}

/// The serialized symbol table.
#[verifier::opaque]
pub open spec fn nlists_bytes(obj: Object) -> Seq<u8> {
    spec_nlists(obj).flat_map(|n: NList64| n.spec_serialize())
}

/// The whole file image.
#[verifier::opaque]
pub open spec fn macho_file_bytes(obj: Object) -> Seq<u8> {
    header_bytes(obj) + segment_bytes(obj) + sects_bytes(obj) + symtab_bytes(obj) + padded_payload(
        obj,
    ) + relocs_bytes(obj) + nlists_bytes(obj) + strtab_bytes(obj)
}

/// The layout offsets grow monotonically and all fit in 32 bits.
pub proof fn lemma_layout_bounds(obj: Object)
    requires
        obj_wf(obj),
    ensures
        0 <= text_len(obj),
        0 <= data_len(obj),
        0 <= bss_size(obj),
        n_sects(obj) <= 3,
        text_len(obj) + data_len(obj) <= spec_aligned(text_len(obj) + data_len(obj), 8) < text_len(
            obj,
        ) + data_len(obj) + 8,
        128 <= data_start(obj) <= 368,
        data_start(obj) + text_len(obj) + data_len(obj) <= reloc_start(obj) <= symoff(obj) <= stroff(
            obj,
        ) < file_end(obj) <= 0xFFFFFFFF,
        out_relocs(obj).len() >= 0,
        out_symbols(obj).len() >= 0,
        strtab_bytes(obj).len() >= 1,
{
    reveal(strtab_bytes);
    crate::num::lemma_aligned_bounds(text_len(obj) + data_len(obj), 8);
}

/// Builds the file header: a 64-bit x86-64 object with two load commands.
pub fn gen_header64(obj: &Object) -> (h: Header64)
    requires
        obj_wf(*obj),
    ensures
        h.spec_serialize() == header_bytes(*obj),
        h.magic == Magic::Magic64,
        h.wf_roundtrip(),
{
    proof {
        lemma_layout_bounds(*obj);
        reveal(header_bytes);
    }
    let nsect = obj.sections.len();
    let h = Header64 {
        magic: Magic::Magic64,
        cpu_type: CpuType::X86_64(CpuSubTypeX86_64::All),
        file_type: FileType::Object,
        n_cmds: 2,
        size_of_cmds: 72 + nsect * 80 + 24,
        flags: Flags::new(),
        reserved: 0,
    };
    assert(h.spec_serialize() =~= header_bytes(*obj));
    h
}

/// Builds the segment command: one unnamed segment holding every section,
/// fully readable, writable and executable.
pub fn gen_segment_command64(obj: &Object) -> (cmd: SegmentCommand64)
    requires
        obj_wf(*obj),
    ensures
        cmd.spec_serialize() == segment_bytes(*obj),
        cmd.segname@.len() <= 16,
        vstd::string::string_is_ascii(&cmd.segname),
{
    proof {
        lemma_layout_bounds(*obj);
        reveal(segment_bytes);
    }
    let nsect = obj.sections.len();
    let text_sz = obj.sections.text.bytes.len() as u64;
    let data_sz = obj.sections.data.bytes.len() as u64;
    let filesize: u64 = (text_sz as u32 + data_sz as u32).aligned(8) as u64;
    let cmd = SegmentCommand64 {
        cmd: 0x19,
        cmdsize: 72 + nsect * 80,
        segname: String::new(),
        vmaddr: 0,
        vmsize: text_sz + data_sz + obj.sections.bss.size,
        fileoff: (128 + nsect * 80) as u64,
        filesize,
        maxprot: 7,
        initprot: 7,
        nsects: nsect,
        flags: 0,
    };
    assert(cmd.segname@ =~= Seq::<char>::empty());
    assert(cmd.spec_serialize() =~= segment_bytes(*obj));
    cmd
}

/// An empty section carries no well-formed relocations, and the counts of
/// the carried relocations and symbols fit comfortably in 32 bits.
pub proof fn lemma_counts(obj: Object)
    requires
        obj_wf(obj),
    ensures
        !out_text(obj) ==> obj.sections.text.relocs@.len() == 0,
        !out_data(obj) ==> obj.sections.data.relocs@.len() == 0,
        obj.sections.text.relocs@.len() <= out_relocs(obj).len() <= 0x1FFFFFFF,
        obj.sections.data.relocs@.len() <= out_relocs(obj).len() <= 0x1FFFFFFF,
        out_text(obj) ==> obj.sections.text.symbols@.len() <= out_symbols(obj).len(),
        out_data(obj) ==> obj.sections.data.symbols@.len() <= out_symbols(obj).len(),
        out_bss(obj) ==> obj.sections.bss.symbols@.len() <= out_symbols(obj).len(),
{
    lemma_layout_bounds(obj);
    if !out_text(obj) && obj.sections.text.relocs@.len() > 0 {
        assert(obj.sections.text.relocs@[0]@.wf(text_len(obj)));
        assert(false);
    }
    if !out_data(obj) && obj.sections.data.relocs@.len() > 0 {
        assert(obj.sections.data.relocs@[0]@.wf(data_len(obj)));
        assert(false);
    }
    assert(8 * out_relocs(obj).len() <= 0xFFFFFFFF);
}

/// Builds the section record of the text section: regular, holding
/// instructions, with relocation attributes when it has relocations.
pub fn gen_section64_from_text(obj: &Object) -> (r: Section64)
    requires
        obj_wf(*obj),
    ensures
        r.spec_serialize() == text_sect_bytes(*obj),
        r.sectname@.len() <= 16,
        vstd::string::string_is_ascii(&r.sectname),
        r.segname@.len() <= 16,
        vstd::string::string_is_ascii(&r.segname),
{
    proof {
        lemma_layout_bounds(*obj);
        lemma_counts(*obj);
        reveal(text_sect_bytes);
        reveal_strlit("__text");
        reveal_strlit("__TEXT");
    }
    let nsect = obj.sections.len();
    let data_start_n: u32 = 128 + nsect * 80;
    let text_sz: u32 = obj.sections.text.bytes.len() as u32;
    let data_sz: u32 = obj.sections.data.bytes.len() as u32;
    let reloc_start_n: u32 = data_start_n + (text_sz + data_sz).aligned(8);
    let n_text_relocs: u32 = obj.sections.text.relocs.len() as u32;
    let mut attrs = SectionAttrs::new();
    attrs.push(crate::load_command::segment64::SectionAttr::SomeInstructions);
    attrs.push(crate::load_command::segment64::SectionAttr::PureInstructions);
    if n_text_relocs > 0 {
        attrs.push(crate::load_command::segment64::SectionAttr::LocReloc);
        attrs.push(crate::load_command::segment64::SectionAttr::ExtReloc);
    }
    proof {
        assert(0u32 | 0x400 | 0x80000000 == 0x80000400u32) by (bit_vector);
        assert(0u32 | 0x400 | 0x80000000 | 0x100 | 0x200 == 0x80000700u32) by (bit_vector);
    }
    let ts = Section64 {
        sectname: String::from_str("__text"),
        segname: String::from_str("__TEXT"),
        addr: 0,
        size: text_sz as u64,
        offset: data_start_n,
        align: 0,
        reloff: reloc_start_n,
        nreloc: n_text_relocs,
        flags: (attrs, SectionType::Regular),
        reserved1: 0,
        reserved2: 0,
        reserved3: 0,
    };
    proof {
        let aw = text_attrs_word(*obj);
        assert(aw == 0x80000400u32 || aw == 0x80000700u32);
        assert(aw | 0u32 == aw) by (bit_vector)
            requires
                aw == 0x80000400u32 || aw == 0x80000700u32,
        ;
        assert(ts.spec_serialize() =~= text_sect_bytes(*obj));
    }
    ts
}

/// Builds the section record of the data section: regular, with relocation
/// attributes when it has relocations.
pub fn gen_section64_from_data(obj: &Object) -> (r: Section64)
    requires
        obj_wf(*obj),
    ensures
        r.spec_serialize() == data_sect_bytes(*obj),
        r.sectname@.len() <= 16,
        vstd::string::string_is_ascii(&r.sectname),
        r.segname@.len() <= 16,
        vstd::string::string_is_ascii(&r.segname),
{
    proof {
        lemma_layout_bounds(*obj);
        lemma_counts(*obj);
        reveal(data_sect_bytes);
        reveal_strlit("__data");
        reveal_strlit("__DATA");
    }
    let nsect = obj.sections.len();
    let data_start_n: u32 = 128 + nsect * 80;
    let text_sz: u32 = obj.sections.text.bytes.len() as u32;
    let data_sz: u32 = obj.sections.data.bytes.len() as u32;
    let reloc_start_n: u32 = data_start_n + (text_sz + data_sz).aligned(8);
    let n_data_relocs: u32 = obj.sections.data.relocs.len() as u32;
    let text_reloc_bytes: u32 = if obj.sections.text.bytes.len() > 0 {
        (obj.sections.text.relocs.len() as u32) * 8
    } else {
        0
    };
    let mut attrs = SectionAttrs::new();
    if n_data_relocs > 0 {
        attrs.push(crate::load_command::segment64::SectionAttr::LocReloc);
        attrs.push(crate::load_command::segment64::SectionAttr::ExtReloc);
    }
    proof {
        assert(0u32 | 0x100 | 0x200 == 0x00000300u32) by (bit_vector);
    }
    let ds = Section64 {
        sectname: String::from_str("__data"),
        segname: String::from_str("__DATA"),
        addr: text_sz as u64,
        size: data_sz as u64,
        offset: data_start_n + text_sz,
        align: 0,
        reloff: reloc_start_n + text_reloc_bytes,
        nreloc: n_data_relocs,
        flags: (attrs, SectionType::Regular),
        reserved1: 0,
        reserved2: 0,
        reserved3: 0,
    };
    proof {
        let aw = data_attrs_word(*obj);
        assert(aw == 0u32 || aw == 0x00000300u32);
        assert(aw | 0u32 == aw) by (bit_vector)
            requires
                aw == 0u32 || aw == 0x00000300u32,
        ;
        assert(ds.spec_serialize() =~= data_sect_bytes(*obj));
    }
    ds
}

/// Builds the section record of the bss section: zero-fill, with no bytes
/// in the file.
pub fn gen_section64_from_bss(obj: &Object) -> (r: Section64)
    requires
        obj_wf(*obj),
    ensures
        r.spec_serialize() == bss_sect_bytes(*obj),
        r.sectname@.len() <= 16,
        vstd::string::string_is_ascii(&r.sectname),
        r.segname@.len() <= 16,
        vstd::string::string_is_ascii(&r.segname),
{
    proof {
        lemma_layout_bounds(*obj);
        reveal(bss_sect_bytes);
        reveal_strlit("__bss");
        reveal_strlit("__DATA");
    }
    let text_sz: u32 = obj.sections.text.bytes.len() as u32;
    let data_sz: u32 = obj.sections.data.bytes.len() as u32;
    let bs = Section64 {
        sectname: String::from_str("__bss"),
        segname: String::from_str("__DATA"),
        addr: text_sz as u64 + data_sz as u64,
        size: obj.sections.bss.size,
        offset: 0,
        align: 0,
        reloff: 0,
        nreloc: 0,
        flags: (SectionAttrs::new(), SectionType::Zerofill),
        reserved1: 0,
        reserved2: 0,
        reserved3: 0,
    };
    proof {
        assert(0u32 | 1u32 == 1u32) by (bit_vector);
        assert(bs.spec_serialize() =~= bss_sect_bytes(*obj));
    }
    bs
}

/// Builds one section record per non-empty section, with each section's
/// file offset, memory address and relocation offset.
pub fn gen_section64s(obj: &Object) -> (r: Vec<Section64>)
    requires
        obj_wf(*obj),
    ensures
        r@.len() == n_sects(*obj),
        r@.flat_map(|sect: Section64| sect.spec_serialize()) == sects_bytes(*obj),
        forall|i: int|
            0 <= i < r@.len() ==> (#[trigger] r@[i]).sectname@.len() <= 16
                && vstd::string::string_is_ascii(&r@[i].sectname) && r@[i].segname@.len() <= 16
                && vstd::string::string_is_ascii(&r@[i].segname),
{
    let ghost f = |sect: Section64| sect.spec_serialize();
    let mut v: Vec<Section64> = Vec::new();
    proof {
        assert(v@.flat_map(f) =~= Seq::<u8>::empty());
    }
    if obj.sections.text.bytes.len() > 0 {
        let ts = gen_section64_from_text(obj);
        let ghost v0 = v@;
        v.push(ts);
        proof {
            v0.lemma_flat_map_push(f, ts);
        }
    }
    if obj.sections.data.bytes.len() > 0 {
        let ds = gen_section64_from_data(obj);
        let ghost v0 = v@;
        v.push(ds);
        proof {
            v0.lemma_flat_map_push(f, ds);
        }
    }
    if obj.sections.bss.size > 0 {
        let bs = gen_section64_from_bss(obj);
        let ghost v0 = v@;
        v.push(bs);
        proof {
            v0.lemma_flat_map_push(f, bs);
        }
    }
    proof {
        reveal(sects_bytes);
        assert(v@.flat_map(f) =~= sects_bytes(*obj));
    }
    v
}

/// Builds the symbol-table command from the planned offsets.
pub fn gen_symtab_command(obj: &Object, strsize: u32) -> (cmd: SymtabCommand)
    requires
        obj_wf(*obj),
        strsize == strtab_bytes(*obj).len(),
    ensures
        cmd.spec_serialize() == symtab_bytes(*obj),
        cmd.wf(),
{
    proof {
        lemma_layout_bounds(*obj);
    }
    proof {
        lemma_counts(*obj);
        reveal(symtab_bytes);
    }
    let nsect = obj.sections.len();
    let data_start_n: u32 = 128 + nsect * 80;
    let text_sz: u32 = obj.sections.text.bytes.len() as u32;
    let data_sz: u32 = obj.sections.data.bytes.len() as u32;
    let n_relocs: u32 = (if obj.sections.text.bytes.len() > 0 {
        obj.sections.text.relocs.len() as u32
    } else {
        0
    }) + (if obj.sections.data.bytes.len() > 0 {
        obj.sections.data.relocs.len() as u32
    } else {
        0
    });
    let nsyms: u32 = (if obj.sections.text.bytes.len() > 0 {
        obj.sections.text.symbols.len() as u32
    } else {
        0
    }) + (if obj.sections.data.bytes.len() > 0 {
        obj.sections.data.symbols.len() as u32
    } else {
        0
    }) + (if obj.sections.bss.size > 0 {
        obj.sections.bss.symbols.len() as u32
    } else {
        0
    });
    let symoff_n: u32 = data_start_n + (text_sz + data_sz).aligned(8) + n_relocs * 8;
    let stroff_n: u32 = symoff_n + nsyms * 16;
    let cmd = SymtabCommand {
        cmd: 0x2,
        cmdsize: 0x18,
        symoff: symoff_n,
        nsyms,
        stroff: stroff_n,
        strsize,
    };
    assert(cmd.spec_serialize() =~= symtab_bytes(*obj));
    cmd
}

/// Appends each symbol's name with a trailing NUL to the table.
fn push_names(stab: &mut StringTable, symbols: &Vec<crate::object::Symbol>)
    requires
        old(stab).wf(),
        forall|i: int| 0 <= i < symbols@.len() ==> (#[trigger] symbols@[i]@).wf_name(),
    ensures
        final(stab)@ == old(stab)@ + sym_views(symbols@).flat_map(
            |sv: SymbolView| name_with_nul(sv),
        ),
        final(stab).wf(),
{
    let ghost f = |sv: SymbolView| name_with_nul(sv);
    let ghost views = sym_views(symbols@);
    let n = symbols.len();
    let mut i: usize = 0;
    proof {
        assert(views.take(0).flat_map(f) =~= Seq::<u8>::empty());
        assert(stab@ =~= old(stab)@ + views.take(0).flat_map(f));
    }
    while i < n
        invariant
            n == symbols@.len(),
            i <= n,
            forall|k: int| 0 <= k < symbols@.len() ==> (#[trigger] symbols@[k]@).wf_name(),
            f == (|sv: SymbolView| name_with_nul(sv)),
            views == sym_views(symbols@),
            stab@ == old(stab)@ + views.take(i as int).flat_map(f),
            stab.wf(),
        decreases n - i,
    {
        let name = symbols[i].name();
        proof {
            assert(symbols@[i as int]@.wf_name());
            assert(vstd::utf8::is_ascii_chars(name@));
        }
        let ghost pre = stab@;
        stab.push_with_null(name);
        proof {
            views.lemma_flat_map_take_append(f, i as int);
            assert(views[i as int] == symbols@[i as int]@);
            assert(stab@ =~= old(stab)@ + views.take(i + 1).flat_map(f));
        }
        i += 1;
    }
    proof {
        assert(views.take(n as int) =~= views);
    }
}

/// Builds the string table: a leading NUL, then each carried symbol's name
/// followed by NUL, in symbol order.
pub fn gen_string_table(obj: &Object) -> (r: StringTable)
    requires
        obj_wf(*obj),
    ensures
        r@ == strtab_bytes(*obj),
        r.wf(),
{
    let ghost f = |sv: SymbolView| name_with_nul(sv);
    let mut stab = StringTable::with_null();
    proof {
        lemma_out_symbol_names_wf(*obj);
    }
    if obj.sections.text.bytes.len() > 0 {
        push_names(&mut stab, &obj.sections.text.symbols);
    }
    if obj.sections.data.bytes.len() > 0 {
        push_names(&mut stab, &obj.sections.data.symbols);
    }
    if obj.sections.bss.size > 0 {
        push_names(&mut stab, &obj.sections.bss.symbols);
    }
    proof {
        let t = if out_text(*obj) {
            sym_views(obj.sections.text.symbols@)
        } else {
            Seq::empty()
        };
        let d = if out_data(*obj) {
            sym_views(obj.sections.data.symbols@)
        } else {
            Seq::empty()
        };
        let b = if out_bss(*obj) {
            sym_views(obj.sections.bss.symbols@)
        } else {
            Seq::empty()
        };
        lemma_flat_map_concat(t, d, f);
        lemma_flat_map_concat(t + d, b, f);
        assert(t.flat_map(f) =~= Seq::<u8>::empty() || out_text(*obj));
        if !out_text(*obj) {
            assert(t.flat_map(f) =~= Seq::<u8>::empty());
        }
        if !out_data(*obj) {
            assert(d.flat_map(f) =~= Seq::<u8>::empty());
        }
        if !out_bss(*obj) {
            assert(b.flat_map(f) =~= Seq::<u8>::empty());
        }
        assert(out_symbols(*obj) == t + d + b);
        reveal(strtab_bytes);
        assert(stab@ =~= strtab_bytes(*obj));
    }
    stab
}

/// Every carried symbol has a well-formed name, as a fact about each
/// section's list.
pub proof fn lemma_out_symbol_names_wf(obj: Object)
    requires
        obj_wf(obj),
    ensures
        out_text(obj) ==> forall|i: int|
            0 <= i < obj.sections.text.symbols@.len() ==> (
            #[trigger] obj.sections.text.symbols@[i]@).wf_name(),
        out_data(obj) ==> forall|i: int|
            0 <= i < obj.sections.data.symbols@.len() ==> (
            #[trigger] obj.sections.data.symbols@[i]@).wf_name(),
        out_bss(obj) ==> forall|i: int|
            0 <= i < obj.sections.bss.symbols@.len() ==> (
            #[trigger] obj.sections.bss.symbols@[i]@).wf_name(),
{
    let t = if out_text(obj) {
        sym_views(obj.sections.text.symbols@)
    } else {
        Seq::empty()
    };
    let d = if out_data(obj) {
        sym_views(obj.sections.data.symbols@)
    } else {
        Seq::empty()
    };
    if out_text(obj) {
        assert forall|i: int| 0 <= i < obj.sections.text.symbols@.len() implies (
        #[trigger] obj.sections.text.symbols@[i]@).wf_name() by {
            assert(out_symbols(obj)[i] == obj.sections.text.symbols@[i]@);
        }
    }
    if out_data(obj) {
        assert forall|i: int| 0 <= i < obj.sections.data.symbols@.len() implies (
        #[trigger] obj.sections.data.symbols@[i]@).wf_name() by {
            assert(out_symbols(obj)[t.len() + i] == obj.sections.data.symbols@[i]@);
        }
    }
    if out_bss(obj) {
        assert forall|i: int| 0 <= i < obj.sections.bss.symbols@.len() implies (
        #[trigger] obj.sections.bss.symbols@[i]@).wf_name() by {
            assert(out_symbols(obj)[t.len() + d.len() + i] == obj.sections.bss.symbols@[i]@);
        }
    }
}

/// In a table of NUL-terminated names after a NUL-terminated prefix, the
/// bytes after the first `k` names start a string reading name `k`.
pub proof fn lemma_strtab_name_at(syms: Seq<SymbolView>, k: int)
    requires
        0 <= k < syms.len(),
        forall|i: int| 0 <= i < syms.len() ==> (#[trigger] syms[i]).wf_name(),
    ensures
        ({
            let table = seq![0u8] + syms.flat_map(|sv: SymbolView| name_with_nul(sv));
            let p = 1 + syms.take(k).flat_map(|sv: SymbolView| name_with_nul(sv)).len() as int;
            &&& is_str_start(table, p)
            &&& str_at(table, p) == syms[k].name()
        }),
{
    let f = |sv: SymbolView| name_with_nul(sv);
    let table = seq![0u8] + syms.flat_map(f);
    let p: int = 1 + syms.take(k).flat_map(f).len() as int;
    // split the table around name k
    assert(syms =~= syms.take(k + 1) + syms.skip(k + 1));
    lemma_flat_map_concat(syms.take(k + 1), syms.skip(k + 1), f);
    syms.lemma_flat_map_take_append(f, k);
    let before = syms.take(k).flat_map(f);
    let rest = syms.skip(k + 1).flat_map(f);
    let name = syms[k].name();
    assert(syms.flat_map(f) == before + f(syms[k]) + rest);
    assert(table =~= seq![0u8] + before + (bytes_of_chars(name) + seq![0u8]) + rest);
    // the byte before position p is a NUL
    if k == 0 {
        assert(syms.take(0).flat_map(f) =~= Seq::<u8>::empty());
        assert(table[p - 1] == 0);
    } else {
        syms.lemma_flat_map_take_append(f, k - 1);
        let prev = f(syms[k - 1]);
        assert(prev.len() > 0 && prev[prev.len() - 1] == 0);
        assert(before == syms.take(k - 1).flat_map(f) + prev);
        assert(before[before.len() - 1] == 0);
        assert(table[p - 1] == before[before.len() - 1]);
    }
    assert(is_str_start(table, p));
    // the string at p is exactly the name
    let suffix = table.subrange(p, table.len() as int);
    assert(suffix =~= bytes_of_chars(name) + seq![0u8] + rest);
    assert(syms[k].wf_name());
    assert forall|i: int| 0 <= i < name.len() implies suffix[i] != 0 by {
        assert(suffix[i] == name[i] as u8);
        assert((name[i] as nat) < 128);
        assert(name[i] != 0 as char);
        vstd::utf8::char_is_scalar(name[i]);
    }
    assert(suffix[name.len() as int] == 0);
    crate::endian::lemma_take_until_nul_of_prefix(suffix, name.len() as int);
    assert(crate::endian::take_until_nul(suffix) =~= bytes_of_chars(name));
    crate::endian::lemma_chars_bytes_roundtrip(name);
}

/// The first matching string start is unique, so an offset with the first-
/// match properties is it.
pub proof fn lemma_first_strx_is(data: Seq<u8>, name: Seq<char>, r: int)
    requires
        is_str_start(data, r),
        str_at(data, r) == name,
        forall|j: int| is_str_start(data, j) && j < r ==> str_at(data, j) != name,
    ensures
        first_strx(data, name) == r,
{
    let c = first_strx(data, name);
    assert(is_str_start(data, c) && str_at(data, c) == name && (forall|j: int|
        is_str_start(data, j) && j < c ==> str_at(data, j) != name)) by {
        assert(exists|i: int|
            is_str_start(data, i) && str_at(data, i) == name && (forall|j: int|
                is_str_start(data, j) && j < i ==> str_at(data, j) != name)) by {
            assert(is_str_start(data, r) && str_at(data, r) == name && (forall|j: int|
                is_str_start(data, j) && j < r ==> str_at(data, j) != name));
        }
    }
    if c < r {
        assert(str_at(data, c) != name);
        assert(false);
    }
    if r < c {
        assert(str_at(data, r) != name);
        assert(false);
    }
}

/// The first matching symbol index is unique, so an index with the first-
/// match properties is it.
pub proof fn lemma_first_sym_idx_is(syms: Seq<SymbolView>, name: Seq<char>, r: int)
    requires
        0 <= r < syms.len(),
        syms[r].name() == name,
        forall|j: int| 0 <= j < r ==> (#[trigger] syms[j]).name() != name,
    ensures
        first_sym_idx(syms, name) == r,
{
    let c = first_sym_idx(syms, name);
    assert(0 <= c < syms.len() && syms[c].name() == name && (forall|j: int|
        0 <= j < c ==> (#[trigger] syms[j]).name() != name)) by {
        assert(exists|i: int|
            0 <= i < syms.len() && syms[i].name() == name && (forall|j: int|
                0 <= j < i ==> (#[trigger] syms[j]).name() != name)) by {
            assert(0 <= r < syms.len() && syms[r].name() == name && (forall|j: int|
                0 <= j < r ==> (#[trigger] syms[j]).name() != name));
        }
    }
    if c < r {
        assert(syms[c].name() != name);
        assert(false);
    }
    if r < c {
        assert(syms[r].name() != name);
        assert(false);
    }
}

/// Every carried symbol's name is in the string table.
pub proof fn lemma_strtab_contains(obj: Object, k: int)
    requires
        obj_wf(obj),
        0 <= k < out_symbols(obj).len(),
    ensures
        contains_name(strtab_bytes(obj), out_symbols(obj)[k].name()),
{
    reveal(strtab_bytes);
    lemma_strtab_name_at(out_symbols(obj), k);
    let p: int = 1 + out_symbols(obj).take(k).flat_map(|sv: SymbolView| name_with_nul(sv)).len() as int;
    assert(is_str_start(strtab_bytes(obj), p) && str_at(strtab_bytes(obj), p) == out_symbols(
        obj,
    )[k].name());
}

/// Builds one symbol table entry per symbol of the list, for a section
/// with the given ordinal and memory address.
fn gen_nlists_for(
    obj: &Object,
    symbols: &Vec<crate::object::Symbol>,
    ordinal: u8,
    base: u64,
    stab: &StringTable,
    out: &mut Vec<NList64>,
)
    requires
        obj_wf(*obj),
        stab@ == strtab_bytes(*obj),
        stab.wf(),
        forall|i: int| 0 <= i < symbols@.len() ==> (#[trigger] symbols@[i]@).wf_name(),
        forall|i: int|
            0 <= i < symbols@.len() ==> contains_name(strtab_bytes(*obj), (
            #[trigger] symbols@[i]@).name()),
        forall|i: int|
            0 <= i < symbols@.len() ==> match (#[trigger] symbols@[i]@) {
                SymbolView::Ref { addr, .. } => base + addr <= 0xFFFFFFFFFFFFFFFF,
                _ => true,
            },
    ensures
        final(out)@ == old(out)@ + sym_views(symbols@).map_values(
            |sv: SymbolView| nlist_of(*obj, sv, ordinal, base),
        ),
{
    let ghost g = |sv: SymbolView| nlist_of(*obj, sv, ordinal, base);
    let ghost views = sym_views(symbols@);
    let n = symbols.len();
    let mut i: usize = 0;
    proof {
        assert(views.take(0).map_values(g) =~= Seq::<NList64>::empty());
        assert(out@ =~= old(out)@ + views.take(0).map_values(g));
    }
    while i < n
        invariant
            n == symbols@.len(),
            i <= n,
            obj_wf(*obj),
            stab@ == strtab_bytes(*obj),
            stab.wf(),
            forall|k: int| 0 <= k < symbols@.len() ==> (#[trigger] symbols@[k]@).wf_name(),
            forall|k: int|
                0 <= k < symbols@.len() ==> contains_name(strtab_bytes(*obj), (
                #[trigger] symbols@[k]@).name()),
            forall|k: int|
                0 <= k < symbols@.len() ==> match (#[trigger] symbols@[k]@) {
                    SymbolView::Ref { addr, .. } => base + addr <= 0xFFFFFFFFFFFFFFFF,
                    _ => true,
                },
            g == (|sv: SymbolView| nlist_of(*obj, sv, ordinal, base)),
            views == sym_views(symbols@),
            out@ == old(out)@ + views.take(i as int).map_values(g),
        decreases n - i,
    {
        proof {
            assert(symbols@[i as int]@.wf_name());
            lemma_layout_bounds(*obj);
        }
        let name = symbols[i].name();
        let strx = stab.strx_of(name);
        proof {
            lemma_first_strx_is(stab@, name@, strx as int);
        }
        let entry = match &symbols[i] {
            crate::object::Symbol::Undef { .. } => NList64 {
                n_strx: strx as u32,
                n_type: NTypeField::Norm { n_pext: false, n_type: NType::Undf, n_ext: true },
                n_sect: 0,
                n_desc: 0,
                n_value: 0,
            },
            crate::object::Symbol::Abs { val, ext, .. } => NList64 {
                n_strx: strx as u32,
                n_type: NTypeField::Norm { n_pext: false, n_type: NType::Abs, n_ext: *ext },
                n_sect: ordinal,
                n_desc: 0,
                n_value: *val,
            },
            crate::object::Symbol::Ref { addr, ext, .. } => NList64 {
                n_strx: strx as u32,
                n_type: NTypeField::Norm { n_pext: false, n_type: NType::Sect, n_ext: *ext },
                n_sect: ordinal,
                n_desc: 0,
                n_value: base + *addr,
            },
        };
        proof {
            assert(entry == g(symbols@[i as int]@));
        }
        out.push(entry);
        proof {
            views.lemma_map_take_succ(g, i as int);
            assert(views[i as int] == symbols@[i as int]@);
            assert(out@ =~= old(out)@ + views.take(i + 1).map_values(g));
        }
        i += 1;
    }
    proof {
        assert(views.take(n as int) =~= views);
    }
}

/// Builds the symbol table: one entry per carried symbol, grouped per
/// section in section order, with each symbol's string-table offset and
/// its section's ordinal and memory address.
pub fn gen_nlist64s(obj: &Object, stab: &StringTable) -> (r: Vec<NList64>)
    requires
        obj_wf(*obj),
        stab@ == strtab_bytes(*obj),
        stab.wf(),
    ensures
        r@ == spec_nlists(*obj),
{
    proof {
        lemma_out_symbol_names_wf(*obj);
        lemma_layout_bounds(*obj);
    }
    let text_sz: u32 = obj.sections.text.bytes.len() as u32;
    let data_sz: u32 = obj.sections.data.bytes.len() as u32;
    let mut out: Vec<NList64> = Vec::new();
    let mut ordinal: u8 = 1;
    if obj.sections.text.bytes.len() > 0 {
        proof {
            lemma_contains_for_section(*obj, 0);
        }
        gen_nlists_for(obj, &obj.sections.text.symbols, ordinal, 0, stab, &mut out);
        ordinal += 1;
    }
    if obj.sections.data.bytes.len() > 0 {
        proof {
            lemma_contains_for_section(*obj, 1);
        }
        gen_nlists_for(obj, &obj.sections.data.symbols, ordinal, text_sz as u64, stab, &mut out);
        ordinal += 1;
    }
    if obj.sections.bss.size > 0 {
        proof {
            lemma_contains_for_section(*obj, 2);
        }
        gen_nlists_for(
            obj,
            &obj.sections.bss.symbols,
            ordinal,
            text_sz as u64 + data_sz as u64,
            stab,
            &mut out,
        );
    }
    proof {
        assert(out@ =~= spec_nlists(*obj));
    }
    out
}

/// Each carried section's symbols have their names in the string table,
/// and their addresses stay within the 64-bit address space.
pub proof fn lemma_contains_for_section(obj: Object, which: int)
    requires
        obj_wf(obj),
        0 <= which <= 2,
    ensures
        which == 0 && out_text(obj) ==> forall|i: int|
            0 <= i < obj.sections.text.symbols@.len() ==> contains_name(
                strtab_bytes(obj),
                (#[trigger] obj.sections.text.symbols@[i]@).name(),
            ),
        which == 1 && out_data(obj) ==> forall|i: int|
            0 <= i < obj.sections.data.symbols@.len() ==> contains_name(
                strtab_bytes(obj),
                (#[trigger] obj.sections.data.symbols@[i]@).name(),
            ),
        which == 2 && out_bss(obj) ==> forall|i: int|
            0 <= i < obj.sections.bss.symbols@.len() ==> contains_name(
                strtab_bytes(obj),
                (#[trigger] obj.sections.bss.symbols@[i]@).name(),
            ),
{
    let t = if out_text(obj) {
        sym_views(obj.sections.text.symbols@)
    } else {
        Seq::empty()
    };
    let d = if out_data(obj) {
        sym_views(obj.sections.data.symbols@)
    } else {
        Seq::empty()
    };
    if which == 0 && out_text(obj) {
        assert forall|i: int| 0 <= i < obj.sections.text.symbols@.len() implies contains_name(
            strtab_bytes(obj),
            (#[trigger] obj.sections.text.symbols@[i]@).name(),
        ) by {
            assert(out_symbols(obj)[i] == obj.sections.text.symbols@[i]@);
            lemma_strtab_contains(obj, i);
        }
    }
    if which == 1 && out_data(obj) {
        assert forall|i: int| 0 <= i < obj.sections.data.symbols@.len() implies contains_name(
            strtab_bytes(obj),
            (#[trigger] obj.sections.data.symbols@[i]@).name(),
        ) by {
            assert(out_symbols(obj)[t.len() + i] == obj.sections.data.symbols@[i]@);
            lemma_strtab_contains(obj, t.len() + i);
        }
    }
    if which == 2 && out_bss(obj) {
        assert forall|i: int| 0 <= i < obj.sections.bss.symbols@.len() implies contains_name(
            strtab_bytes(obj),
            (#[trigger] obj.sections.bss.symbols@[i]@).name(),
        ) by {
            assert(out_symbols(obj)[t.len() + d.len() + i] == obj.sections.bss.symbols@[i]@);
            lemma_strtab_contains(obj, t.len() + d.len() + i);
        }
    }
}

/// Finds the index of the first carried symbol named `name`.
#[verifier::loop_isolation(false)]
#[verifier::rlimit(100)]
fn find_first_symbol(obj: &Object, name: &str) -> (r: usize)
    requires
        obj_wf(*obj),
        has_symbol_named(*obj, name@),
    ensures
        0 <= r < out_symbols(*obj).len(),
        out_symbols(*obj)[r as int].name() == name@,
        forall|j: int| 0 <= j < r ==> (#[trigger] out_symbols(*obj)[j]).name() != name@,
{
    let ghost out = out_symbols(*obj);
    proof {
        lemma_layout_bounds(*obj);
    }
    let mut base: usize = 0;
    if obj.sections.text.bytes.len() > 0 {
        let n = obj.sections.text.symbols.len();
        let mut i: usize = 0;
        while i < n
            invariant
                obj_wf(*obj),
                out == out_symbols(*obj),
                out_text(*obj),
                n == obj.sections.text.symbols@.len(),
                i <= n,
                n <= out.len(),
                forall|k: int| 0 <= k < n ==> out[k] == obj.sections.text.symbols@[k]@,
                forall|j: int| 0 <= j < i ==> (#[trigger] out[j]).name() != name@,
            decreases n - i,
        {
            if crate::endian::str_eq_chars(obj.sections.text.symbols[i].name(), name) {
                return i;
            }
            i += 1;
        }
        base = n;
    }
    if obj.sections.data.bytes.len() > 0 {
        let n = obj.sections.data.symbols.len();
        let mut i: usize = 0;
        while i < n
            invariant
                obj_wf(*obj),
                out == out_symbols(*obj),
                out_data(*obj),
                n == obj.sections.data.symbols@.len(),
                i <= n,
                base + n <= out.len(),
                forall|k: int| 0 <= k < n ==> out[base + k] == obj.sections.data.symbols@[k]@,
                forall|j: int| 0 <= j < base + i ==> (#[trigger] out[j]).name() != name@,
            decreases n - i,
        {
            if crate::endian::str_eq_chars(obj.sections.data.symbols[i].name(), name) {
                return base + i;
            }
            i += 1;
        }
        base = base + n;
    }
    if obj.sections.bss.size > 0 {
        let n = obj.sections.bss.symbols.len();
        let mut i: usize = 0;
        while i < n
            invariant
                obj_wf(*obj),
                out == out_symbols(*obj),
                out_bss(*obj),
                n == obj.sections.bss.symbols@.len(),
                i <= n,
                base + n <= out.len(),
                base + n == out.len(),
                forall|k: int| 0 <= k < n ==> out[base + k] == obj.sections.bss.symbols@[k]@,
                forall|j: int| 0 <= j < base + i ==> (#[trigger] out[j]).name() != name@,
            decreases n - i,
        {
            if crate::endian::str_eq_chars(obj.sections.bss.symbols[i].name(), name) {
                return base + i;
            }
            i += 1;
        }
        base = base + n;
    }
    proof {
        assert(base == out.len());
        assert(forall|j: int| 0 <= j < out.len() ==> (#[trigger] out[j]).name() != name@);
        assert(false);
    }
    vstd::pervasive::unreached()
}

/// Builds one relocation entry per carried relocation: the first matching
/// symbol's index, marked external, of type zero (an absolute address).
#[verifier::loop_isolation(false)]
#[verifier::rlimit(100)]
fn gen_reloc_infos_for(
    obj: &Object,
    relocs: &Vec<crate::object::Reloc>,
    out: &mut Vec<RelocationInfo>,
)
    requires
        obj_wf(*obj),
        forall|i: int| 0 <= i < relocs@.len() ==> (#[trigger] relocs@[i]@).len <= 3,
        forall|i: int|
            0 <= i < relocs@.len() ==> has_symbol_named(*obj, (#[trigger] relocs@[i]@).symbol),
    ensures
        final(out)@ == old(out)@ + reloc_views(relocs@).map_values(
            |rv: RelocView| reloc_info_of(*obj, rv),
        ),
        forall|i: int|
            old(out)@.len() <= i < final(out)@.len() ==> (#[trigger] final(out)@[i]).wf(),
{
    let ghost g = |rv: RelocView| reloc_info_of(*obj, rv);
    let ghost views = reloc_views(relocs@);
    let n = relocs.len();
    let mut i: usize = 0;
    proof {
        assert(views.take(0).map_values(g) =~= Seq::<RelocationInfo>::empty());
        assert(out@ =~= old(out)@ + views.take(0).map_values(g));
    }
    while i < n
        invariant
            i <= n,
            out@ == old(out)@ + views.take(i as int).map_values(g),
            forall|k: int|
                old(out)@.len() <= k < out@.len() ==> (#[trigger] out@[k]).wf(),
        decreases n - i,
    {
        proof {
            assert(relocs@[i as int]@.len <= 3);
        }
        let sym_idx = find_first_symbol(obj, relocs[i].symbol.as_str());
        proof {
            lemma_first_sym_idx_is(out_symbols(*obj), relocs@[i as int]@.symbol, sym_idx as int);
        }
        let entry = RelocationInfo {
            r_address: relocs[i].addr,
            r_symbolnum: sym_idx as u32,
            r_pcrel: relocs[i].pcrel,
            r_length: RelocLength::from_u32(relocs[i].len as u32),
            r_extern: true,
            r_type: crate::reloc::X86_64RelocType::Unsigned.to_u8(),
        };
        proof {
            assert(entry == g(relocs@[i as int]@));
            assert(entry.wf());
        }
        out.push(entry);
        proof {
            views.lemma_map_take_succ(g, i as int);
            assert(views[i as int] == relocs@[i as int]@);
            assert(out@ =~= old(out)@ + views.take(i + 1).map_values(g));
        }
        i += 1;
    }
    proof {
        assert(views.take(n as int) =~= views);
    }
}

/// Builds the relocation entries, grouped per section in section order.
pub fn gen_relocation_infos(obj: &Object) -> (r: Vec<RelocationInfo>)
    requires
        obj_wf(*obj),
    ensures
        r@ == out_relocs(*obj).map_values(|rv: RelocView| reloc_info_of(*obj, rv)),
        forall|i: int| 0 <= i < r@.len() ==> (#[trigger] r@[i]).wf(),
{
    let ghost g = |rv: RelocView| reloc_info_of(*obj, rv);
    let mut out: Vec<RelocationInfo> = Vec::new();
    proof {
        lemma_reloc_section_facts(*obj);
    }
    if obj.sections.text.bytes.len() > 0 {
        gen_reloc_infos_for(obj, &obj.sections.text.relocs, &mut out);
    }
    if obj.sections.data.bytes.len() > 0 {
        gen_reloc_infos_for(obj, &obj.sections.data.relocs, &mut out);
    }
    proof {
        let t = if out_text(*obj) {
            reloc_views(obj.sections.text.relocs@)
        } else {
            Seq::empty()
        };
        let d = if out_data(*obj) {
            reloc_views(obj.sections.data.relocs@)
        } else {
            Seq::empty()
        };
        assert(out_relocs(*obj) == t + d);
        assert((t + d).map_values(g) =~= t.map_values(g) + d.map_values(g));
        if !out_text(*obj) {
            assert(t.map_values(g) =~= Seq::<RelocationInfo>::empty());
        }
        if !out_data(*obj) {
            assert(d.map_values(g) =~= Seq::<RelocationInfo>::empty());
        }
        assert(out@ =~= out_relocs(*obj).map_values(g));
    }
    out
}

/// Each carried section's relocations fit their fields and name carried
/// symbols.
pub proof fn lemma_reloc_section_facts(obj: Object)
    requires
        obj_wf(obj),
    ensures
        forall|i: int|
            0 <= i < obj.sections.text.relocs@.len() ==> (
            #[trigger] obj.sections.text.relocs@[i]@).len <= 3,
        forall|i: int|
            0 <= i < obj.sections.data.relocs@.len() ==> (
            #[trigger] obj.sections.data.relocs@[i]@).len <= 3,
        out_text(obj) ==> forall|i: int|
            0 <= i < obj.sections.text.relocs@.len() ==> has_symbol_named(
                obj,
                (#[trigger] obj.sections.text.relocs@[i]@).symbol,
            ),
        out_data(obj) ==> forall|i: int|
            0 <= i < obj.sections.data.relocs@.len() ==> has_symbol_named(
                obj,
                (#[trigger] obj.sections.data.relocs@[i]@).symbol,
            ),
{
    let t = if out_text(obj) {
        reloc_views(obj.sections.text.relocs@)
    } else {
        Seq::empty()
    };
    if out_text(obj) {
        assert forall|i: int| 0 <= i < obj.sections.text.relocs@.len() implies has_symbol_named(
            obj,
            (#[trigger] obj.sections.text.relocs@[i]@).symbol,
        ) by {
            assert(out_relocs(obj)[i] == obj.sections.text.relocs@[i]@);
        }
    }
    if out_data(obj) {
        assert forall|i: int| 0 <= i < obj.sections.data.relocs@.len() implies has_symbol_named(
            obj,
            (#[trigger] obj.sections.data.relocs@[i]@).symbol,
        ) by {
            assert(out_relocs(obj)[t.len() + i] == obj.sections.data.relocs@[i]@);
        }
    }
}

/// Serializes the relocation entries one after the other.
#[verifier::loop_isolation(false)]
#[verifier::rlimit(100)]
fn write_reloc_infos(obj: &Object, infos: &Vec<RelocationInfo>, buf: &mut Vec<u8>)
    requires
        obj_wf(*obj),
        infos@ == out_relocs(*obj).map_values(|rv: RelocView| reloc_info_of(*obj, rv)),
        forall|i: int| 0 <= i < infos@.len() ==> (#[trigger] infos@[i]).wf(),
    ensures
        final(buf)@ == old(buf)@ + relocs_bytes(*obj),
{
    proof {
        reveal(relocs_bytes);
    }
    let ghost f = |rv: RelocView| reloc_info_of(*obj, rv).spec_serialize();
    let ghost views = out_relocs(*obj);
    let n = infos.len();
    let mut i: usize = 0;
    proof {
        assert(views.take(0).flat_map(f) =~= Seq::<u8>::empty());
        assert(buf@ =~= old(buf)@ + views.take(0).flat_map(f));
    }
    while i < n
        invariant
            i <= n,
            buf@ == old(buf)@ + views.take(i as int).flat_map(f),
        decreases n - i,
    {
        infos[i].write_into(buf);
        proof {
            views.lemma_flat_map_take_append(f, i as int);
            assert(infos@[i as int] == reloc_info_of(*obj, views[i as int]));
            assert(buf@ =~= old(buf)@ + views.take(i + 1).flat_map(f));
        }
        i += 1;
    }
    proof {
        assert(views.take(n as int) =~= views);
    }
}

/// Serializes the symbol table entries one after the other.
#[verifier::loop_isolation(false)]
#[verifier::rlimit(100)]
fn write_nlists(obj: &Object, nlists: &Vec<NList64>, buf: &mut Vec<u8>)
    requires
        nlists@ == spec_nlists(*obj),
    ensures
        final(buf)@ == old(buf)@ + nlists_bytes(*obj),
{
    proof {
        reveal(nlists_bytes);
    }
    let ghost f = |n: NList64| n.spec_serialize();
    let ghost views = spec_nlists(*obj);
    let n = nlists.len();
    let mut i: usize = 0;
    proof {
        assert(views.take(0).flat_map(f) =~= Seq::<u8>::empty());
        assert(buf@ =~= old(buf)@ + views.take(0).flat_map(f));
    }
    while i < n
        invariant
            i <= n,
            buf@ == old(buf)@ + views.take(i as int).flat_map(f),
        decreases n - i,
    {
        nlists[i].write_into(buf);
        proof {
            views.lemma_flat_map_take_append(f, i as int);
            assert(buf@ =~= old(buf)@ + views.take(i + 1).flat_map(f));
        }
        i += 1;
    }
    proof {
        assert(views.take(n as int) =~= views);
    }
}

/// Serializes the whole object as a Mach-O file image, appending it to
/// `buf`.
#[verifier::rlimit(100)]
pub fn write_into(object: &Object, buf: &mut Vec<u8>)
    requires
        obj_wf(*object),
    ensures
        final(buf)@ == old(buf)@ + macho_file_bytes(*object),
{
    proof {
        lemma_layout_bounds(*object);
        reveal(macho_file_bytes);
        reveal(padded_payload);
    }
    let h = gen_header64(object);
    h.write_into(buf);
    let seg = gen_segment_command64(object);
    seg.write_into(buf);
    let sects = gen_section64s(object);
    crate::load_command::write_sections(&sects, buf);
    let stab = gen_string_table(object);
    let strsize: u32 = stab.len() as u32;
    let st = gen_symtab_command(object, strsize);
    st.write_into(buf);
    let ghost mid = old(buf)@ + header_bytes(*object) + segment_bytes(*object) + sects_bytes(
        *object,
    ) + symtab_bytes(*object);
    assert(buf@ =~= mid);
    buf.extend_from_slice(obj_text_bytes(object));
    buf.extend_from_slice(obj_data_bytes(object));
    let total: u32 = obj_text_len32(object) + obj_data_len32(object);
    let pad: u32 = total.padding(8);
    let mut j: u32 = 0;
    while j < pad
        invariant
            j <= pad,
            buf@ == mid + payload(*object) + Seq::new(j as nat, |i: int| 0u8),
        decreases pad - j,
    {
        buf.push(0);
        assert(buf@ =~= mid + payload(*object) + Seq::new((j + 1) as nat, |i: int| 0u8));
        j += 1;
    }
    assert(buf@ =~= mid + padded_payload(*object));
    let ghost m1 = mid + padded_payload(*object);
    let nlists = gen_nlist64s(object, &stab);
    let rinfos = gen_relocation_infos(object);
    write_reloc_infos(object, &rinfos, buf);
    let ghost m2 = m1 + relocs_bytes(*object);
    write_nlists(object, &nlists, buf);
    let ghost m3 = m2 + nlists_bytes(*object);
    stab.append_to(buf);
    assert(buf@ == m3 + strtab_bytes(*object));
    proof {
        lemma_concat_assoc9(
            old(buf)@,
            header_bytes(*object),
            segment_bytes(*object),
            sects_bytes(*object),
            symtab_bytes(*object),
            padded_payload(*object),
            relocs_bytes(*object),
            nlists_bytes(*object),
            strtab_bytes(*object),
        );
    }
}

/// The text bytes of the object.
fn obj_text_bytes(object: &Object) -> (r: &[u8])
    ensures
        r@ == object.sections.text.bytes@,
{
    object.sections.text.bytes.as_slice()
}

/// The data bytes of the object.
fn obj_data_bytes(object: &Object) -> (r: &[u8])
    ensures
        r@ == object.sections.data.bytes@,
{
    object.sections.data.bytes.as_slice()
}

/// The number of text bytes, as a 32-bit count.
fn obj_text_len32(object: &Object) -> (r: u32)
    requires
        obj_wf(*object),
    ensures
        r == text_len(*object),
{
    proof {
        lemma_layout_bounds(*object);
    }
    object.sections.text.bytes.len() as u32
}

/// The number of data bytes, as a 32-bit count.
fn obj_data_len32(object: &Object) -> (r: u32)
    requires
        obj_wf(*object),
    ensures
        r == data_len(*object),
{
    proof {
        lemma_layout_bounds(*object);
    }
    object.sections.data.bytes.len() as u32
}

/// Flat-mapping a function whose results all have length `k` gives a
/// sequence of length `k` times the input length.
pub proof fn lemma_flat_map_len_fixed<T>(s: Seq<T>, f: spec_fn(T) -> Seq<u8>, k: int)
    requires
        forall|i: int| 0 <= i < s.len() ==> (#[trigger] f(s[i])).len() == k,
    ensures
        s.flat_map(f).len() == k * s.len(),
    decreases s.len(),
{
    if s.len() == 0 {
        assert(s.flat_map(f) =~= Seq::<u8>::empty());
    } else {
        let s0 = s.drop_last();
        assert(forall|i: int| 0 <= i < s0.len() ==> (#[trigger] f(s0[i])).len() == k);
        lemma_flat_map_len_fixed(s0, f, k);
        s0.lemma_flat_map_push(f, s.last());
        assert(s0.push(s.last()) =~= s);
        assert(f(s.last()).len() == k);
        assert(k * s0.len() + k == k * s.len()) by (nonlinear_arith)
            requires
                s0.len() == s.len() - 1,
        ;
    }
}

/// The serialized relocation entries occupy eight bytes each.
pub proof fn lemma_relocs_bytes_len(obj: Object)
    ensures
        relocs_bytes(obj).len() == 8 * out_relocs(obj).len(),
{
    reveal(relocs_bytes);
    let fr = |rv: RelocView| reloc_info_of(obj, rv).spec_serialize();
    assert(forall|i: int|
        0 <= i < out_relocs(obj).len() ==> (#[trigger] fr(out_relocs(obj)[i])).len() == 8);
    lemma_flat_map_len_fixed(out_relocs(obj), fr, 8);
}

/// The serialized symbol table entries occupy sixteen bytes each.
pub proof fn lemma_nlists_bytes_len(obj: Object)
    ensures
        spec_nlists(obj).len() == out_symbols(obj).len(),
        nlists_bytes(obj).len() == 16 * out_symbols(obj).len(),
{
    reveal(nlists_bytes);
    let fn_ = |n: NList64| n.spec_serialize();
    assert(forall|i: int|
        0 <= i < spec_nlists(obj).len() ==> (#[trigger] fn_(spec_nlists(obj)[i])).len() == 16);
    lemma_flat_map_len_fixed(spec_nlists(obj), fn_, 16);
}

/// The section records occupy eighty bytes each.
pub proof fn lemma_sects_bytes_len(obj: Object)
    ensures
        sects_bytes(obj).len() == 80 * n_sects(obj),
{
    reveal(sects_bytes);
    reveal(text_sect_bytes);
    reveal(data_sect_bytes);
    reveal(bss_sect_bytes);
    reveal_strlit("__text");
    reveal_strlit("__TEXT");
    reveal_strlit("__data");
    reveal_strlit("__DATA");
    reveal_strlit("__bss");
    if out_text(obj) {
        assert(text_sect_bytes(obj).len() == 80);
    }
    if out_data(obj) {
        assert(data_sect_bytes(obj).len() == 80);
    }
    if out_bss(obj) {
        assert(bss_sect_bytes(obj).len() == 80);
    }
}

/// The lengths of the file's parts, and the whole file's length.
pub proof fn lemma_chunk_lens(obj: Object)
    requires
        obj_wf(obj),
    ensures
        header_bytes(obj).len() == 32,
        segment_bytes(obj).len() == 72,
        sects_bytes(obj).len() == 80 * n_sects(obj),
        symtab_bytes(obj).len() == 24,
        padded_payload(obj).len() == spec_aligned(text_len(obj) + data_len(obj), 8),
        relocs_bytes(obj).len() == 8 * out_relocs(obj).len(),
        spec_nlists(obj).len() == out_symbols(obj).len(),
        nlists_bytes(obj).len() == 16 * out_symbols(obj).len(),
        macho_file_bytes(obj).len() == file_end(obj),
{
    lemma_layout_bounds(obj);
    lemma_sects_bytes_len(obj);
    lemma_relocs_bytes_len(obj);
    lemma_nlists_bytes_len(obj);
    reveal(header_bytes);
    reveal(segment_bytes);
    reveal(symtab_bytes);
    reveal(padded_payload);
    reveal(strtab_bytes);
    reveal(macho_file_bytes);
    assert(header_bytes(obj).len() == 32);
    assert(segment_bytes(obj).len() == 72);
    assert(symtab_bytes(obj).len() == 24);
}

/// The first four bytes of any written object file are the 64-bit magic
/// number in little-endian order.
pub proof fn lemma_file_magic(obj: Object)
    requires
        obj_wf(obj),
    ensures
        macho_file_bytes(obj).len() >= 4,
        macho_file_bytes(obj).subrange(0, 4) == seq![0xCFu8, 0xFAu8, 0xEDu8, 0xFEu8],
{
    lemma_chunk_lens(obj);
    reveal(macho_file_bytes);
    reveal(header_bytes);
    assert(macho_file_bytes(obj).subrange(0, 4) =~= seq![0xCFu8, 0xFAu8, 0xEDu8, 0xFEu8]);
}

/// The bytes of the file at each section's recorded offset are exactly the
/// bytes written into that section.
#[verifier::rlimit(100)]
pub proof fn lemma_section_payload(obj: Object)
    requires
        obj_wf(obj),
    ensures
        macho_file_bytes(obj).subrange(
            data_start(obj),
            data_start(obj) + text_len(obj),
        ) == obj.sections.text.bytes@,
        macho_file_bytes(obj).subrange(
            data_start(obj) + text_len(obj),
            data_start(obj) + text_len(obj) + data_len(obj),
        ) == obj.sections.data.bytes@,
{
    lemma_chunk_lens(obj);
    lemma_layout_bounds(obj);
    reveal(macho_file_bytes);
    reveal(padded_payload);
    assert(macho_file_bytes(obj).subrange(data_start(obj), data_start(obj) + text_len(obj))
        =~= obj.sections.text.bytes@);
    assert(macho_file_bytes(obj).subrange(
        data_start(obj) + text_len(obj),
        data_start(obj) + text_len(obj) + data_len(obj),
    ) =~= obj.sections.data.bytes@);
}

/// The byte range a relocation names, taken from the file at the owning
/// section's offset, is exactly the bytes the encoder wrote there.
pub proof fn lemma_reloc_range_text(obj: Object, i: int)
    requires
        obj_wf(obj),
        0 <= i < obj.sections.text.relocs@.len(),
    ensures
        ({
            let rv = obj.sections.text.relocs@[i]@;
            macho_file_bytes(obj).subrange(
                data_start(obj) + rv.addr,
                data_start(obj) + rv.addr + crate::object::reloc_width(rv.len),
            ) == obj.sections.text.bytes@.subrange(
                rv.addr as int,
                rv.addr + crate::object::reloc_width(rv.len),
            )
        }),
{
    lemma_section_payload(obj);
    lemma_chunk_lens(obj);
    lemma_layout_bounds(obj);
    let rv = obj.sections.text.relocs@[i]@;
    assert(rv.wf(text_len(obj)));
    let w = crate::object::reloc_width(rv.len);
    let file = macho_file_bytes(obj);
    let ds = data_start(obj);
    assert forall|j: int| 0 <= j < w implies #[trigger] file[ds + rv.addr + j]
        == obj.sections.text.bytes@[rv.addr + j] by {
        assert(file.subrange(ds, ds + text_len(obj))[rv.addr + j] == file[ds + rv.addr + j]);
    }
    assert(file.subrange(ds + rv.addr, ds + rv.addr + w) =~= obj.sections.text.bytes@.subrange(
        rv.addr as int,
        rv.addr + w,
    ));
}

/// The same, for a relocation of the data section.
pub proof fn lemma_reloc_range_data(obj: Object, i: int)
    requires
        obj_wf(obj),
        0 <= i < obj.sections.data.relocs@.len(),
    ensures
        ({
            let rv = obj.sections.data.relocs@[i]@;
            let off = data_start(obj) + text_len(obj);
            macho_file_bytes(obj).subrange(
                off + rv.addr,
                off + rv.addr + crate::object::reloc_width(rv.len),
            ) == obj.sections.data.bytes@.subrange(
                rv.addr as int,
                rv.addr + crate::object::reloc_width(rv.len),
            )
        }),
{
    lemma_section_payload(obj);
    lemma_chunk_lens(obj);
    lemma_layout_bounds(obj);
    let rv = obj.sections.data.relocs@[i]@;
    assert(rv.wf(data_len(obj)));
    let w = crate::object::reloc_width(rv.len);
    let file = macho_file_bytes(obj);
    let off = data_start(obj) + text_len(obj);
    assert forall|j: int| 0 <= j < w implies #[trigger] file[off + rv.addr + j]
        == obj.sections.data.bytes@[rv.addr + j] by {
        assert(file.subrange(off, off + data_len(obj))[rv.addr + j] == file[off + rv.addr + j]);
    }
    assert(file.subrange(off + rv.addr, off + rv.addr + w) =~= obj.sections.data.bytes@.subrange(
        rv.addr as int,
        rv.addr + w,
    ));
}

/// Where a matching string exists, a first matching string start exists.
pub proof fn lemma_exists_first_strx(data: Seq<u8>, name: Seq<char>, w: int)
    requires
        is_str_start(data, w),
        str_at(data, w) == name,
    ensures
        exists|i: int|
            is_str_start(data, i) && str_at(data, i) == name && (forall|j: int|
                is_str_start(data, j) && j < i ==> str_at(data, j) != name),
    decreases w,
{
    if forall|j: int| is_str_start(data, j) && j < w ==> str_at(data, j) != name {
        assert(is_str_start(data, w) && str_at(data, w) == name && (forall|j: int|
            is_str_start(data, j) && j < w ==> str_at(data, j) != name));
    } else {
        let v = choose|j: int| is_str_start(data, j) && j < w && str_at(data, j) == name;
        assert(v >= 1);
        lemma_exists_first_strx(data, name, v);
    }
}

/// The string table begins and ends with NUL, it stands at the recorded
/// offset of the file, and every symbol table entry's string offset points
/// to the first byte of a NUL-terminated string reading the symbol's name.
#[verifier::rlimit(100)]
pub proof fn lemma_string_table_wf(obj: Object)
    requires
        obj_wf(obj),
    ensures
        macho_file_bytes(obj).subrange(stroff(obj), file_end(obj)) == strtab_bytes(obj),
        strtab_bytes(obj)[0] == 0,
        strtab_bytes(obj)[strtab_bytes(obj).len() - 1] == 0,
        spec_nlists(obj).len() == out_symbols(obj).len(),
        forall|k: int|
            0 <= k < spec_nlists(obj).len() ==> {
                let strx = (#[trigger] spec_nlists(obj)[k]).n_strx as int;
                &&& is_str_start(strtab_bytes(obj), strx)
                &&& str_at(strtab_bytes(obj), strx) == out_symbols(obj)[k].name()
            },
{
    lemma_chunk_lens(obj);
    lemma_layout_bounds(obj);
    reveal(macho_file_bytes);
    reveal(strtab_bytes);
    let file = macho_file_bytes(obj);
    let table = strtab_bytes(obj);
    assert(file.subrange(stroff(obj), file_end(obj)) =~= table);
    let f = |sv: SymbolView| name_with_nul(sv);
    let syms = out_symbols(obj);
    if syms.len() == 0 {
        assert(syms.flat_map(f) =~= Seq::<u8>::empty());
        assert(table =~= seq![0u8]);
    } else {
        let s0 = syms.drop_last();
        s0.lemma_flat_map_push(f, syms.last());
        assert(s0.push(syms.last()) =~= syms);
        let last_part = f(syms.last());
        assert(last_part[last_part.len() - 1] == 0);
        assert(table[table.len() - 1] == 0);
    }
    assert forall|k: int| 0 <= k < spec_nlists(obj).len() implies {
        let strx = (#[trigger] spec_nlists(obj)[k]).n_strx as int;
        &&& is_str_start(table, strx)
        &&& str_at(table, strx) == out_symbols(obj)[k].name()
    } by {
        lemma_nlist_strx(obj, k);
    }
}

/// Entry `k` of the symbol table carries the string offset of the first
/// table string reading symbol `k`'s name.
pub proof fn lemma_nlist_strx(obj: Object, k: int)
    requires
        obj_wf(obj),
        0 <= k < out_symbols(obj).len(),
    ensures
        spec_nlists(obj).len() == out_symbols(obj).len(),
        is_str_start(strtab_bytes(obj), spec_nlists(obj)[k].n_strx as int),
        str_at(strtab_bytes(obj), spec_nlists(obj)[k].n_strx as int) == out_symbols(obj)[k].name(),
{
    lemma_layout_bounds(obj);
    lemma_chunk_lens(obj);
    reveal(strtab_bytes);
    let syms = out_symbols(obj);
    let table = strtab_bytes(obj);
    let name = syms[k].name();
    // the entry's offset is the first match
    assert(spec_nlists(obj)[k].n_strx == first_strx(table, name) as u32) by {
        let t = if out_text(obj) {
            sym_views(obj.sections.text.symbols@)
        } else {
            Seq::empty()
        };
        let d = if out_data(obj) {
            sym_views(obj.sections.data.symbols@)
        } else {
            Seq::empty()
        };
        if k < t.len() {
            assert(spec_nlists(obj)[k] == nlist_of(obj, syms[k], text_ordinal(obj) as u8, 0));
        } else if k < t.len() + d.len() {
            assert(spec_nlists(obj)[k] == nlist_of(
                obj,
                syms[k],
                data_ordinal(obj) as u8,
                text_len(obj) as u64,
            ));
        } else {
            assert(spec_nlists(obj)[k] == nlist_of(
                obj,
                syms[k],
                bss_ordinal(obj) as u8,
                (text_len(obj) + data_len(obj)) as u64,
            ));
        }
        match syms[k] {
            SymbolView::Undef { .. } => {},
            SymbolView::Abs { .. } => {},
            SymbolView::Ref { .. } => {},
        }
    };
    lemma_strtab_name_at(syms, k);
    let p: int = 1 + syms.take(k).flat_map(|sv: SymbolView| name_with_nul(sv)).len() as int;
    lemma_exists_first_strx(table, name, p);
    let c = first_strx(table, name);
    assert(is_str_start(table, c) && str_at(table, c) == name) by {
        let w = choose|i: int|
            is_str_start(table, i) && str_at(table, i) == name && (forall|j: int|
                is_str_start(table, j) && j < i ==> str_at(table, j) != name);
        lemma_first_strx_is(table, name, w);
    }
    assert(1 <= c <= table.len());
    assert(table.len() <= 0xFFFFFFFF);
    assert(spec_nlists(obj)[k].n_strx as int == c);
}

/// Prepending one sequence to a left-nested concatenation of eight is the
/// same as concatenating it on the left.
pub proof fn lemma_concat_assoc9(
    o: Seq<u8>,
    a: Seq<u8>,
    b: Seq<u8>,
    c: Seq<u8>,
    d: Seq<u8>,
    e: Seq<u8>,
    f: Seq<u8>,
    g: Seq<u8>,
    h: Seq<u8>,
)
    ensures
        o + a + b + c + d + e + f + g + h == o + (a + b + c + d + e + f + g + h),
{
    assert(o + a + b + c + d + e + f + g + h =~= o + (a + b + c + d + e + f + g + h));
}

/// Flat-mapping distributes over concatenation.
pub proof fn lemma_flat_map_concat<T>(a: Seq<T>, b: Seq<T>, f: spec_fn(T) -> Seq<u8>)
    ensures
        (a + b).flat_map(f) == a.flat_map(f) + b.flat_map(f),
    decreases b.len(),
{
    if b.len() == 0 {
        assert(a + b =~= a);
        assert(b.flat_map(f) =~= Seq::<u8>::empty());
        assert(a.flat_map(f) + b.flat_map(f) =~= a.flat_map(f));
    } else {
        let b0 = b.drop_last();
        lemma_flat_map_concat(a, b0, f);
        (a + b0).lemma_flat_map_push(f, b.last());
        assert((a + b0).push(b.last()) =~= a + b);
        b0.lemma_flat_map_push(f, b.last());
        assert(b0.push(b.last()) =~= b);
        assert((a + b).flat_map(f) =~= a.flat_map(f) + b.flat_map(f));
    }
}

} // verus!
