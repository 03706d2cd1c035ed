//! The dynamic symbol-table load command.

use crate::bytes::le32;
use crate::endian::{u32_at, Endian};
use vstd::prelude::*;

verus! {

/// The 80-byte load command grouping the symbol table for the dynamic
/// linker: local symbols, externally defined symbols and undefined symbols,
/// with the offsets and counts of the auxiliary tables.
#[derive(Debug, Clone, PartialEq, Eq, Structural)]
pub struct DysymtabCommand {
    /// Always `DysymtabCommand::TYPE`.
    pub cmd: u32,
    /// Always `DysymtabCommand::SIZE`.
    pub cmdsize: u32,
    /// The index of the first local symbol.
    pub ilocalsym: u32,
    /// The number of local symbols.
    pub nlocalsym: u32,
    /// The index of the first externally defined symbol.
    pub iextdefsym: u32,
    /// The number of externally defined symbols.
    pub nextdefsym: u32,
    /// The index of the first undefined symbol.
    pub iundefsym: u32,
    /// The number of undefined symbols.
    pub nundefsym: u32,
    /// The file offset of the table of contents.
    pub tocoff: u32,
    /// The number of table-of-contents entries.
    pub ntoc: u32,
    /// The file offset of the module table.
    pub modtaboff: u32,
    /// The number of module table entries.
    pub nmodtab: u32,
    /// The file offset of the referenced symbol table.
    pub extrefsymoff: u32,
    /// The number of referenced symbol table entries.
    pub nextrefsyms: u32,
    /// The file offset of the indirect symbol table.
    pub indirectsymoff: u32,
    /// The number of indirect symbol table entries.
    pub nindirectsyms: u32,
    /// The file offset of the external relocation entries.
    pub extreloff: u32,
    /// The number of external relocation entries.
    pub nextrel: u32,
    /// The file offset of the local relocation entries.
    pub locreloff: u32,
    /// The number of local relocation entries.
    pub nlocrel: u32,
}

impl DysymtabCommand {
    /// The load command tag of a dynamic symbol-table command.
    pub const TYPE: u32 = 0xB;

    /// The serialized size of the command.
    pub const SIZE: u32 = 0x50;

    /// The tag and size fields hold their fixed values.
    pub open spec fn wf(self) -> bool {
        self.cmd == DysymtabCommand::TYPE && self.cmdsize == DysymtabCommand::SIZE
    }

    /// The first 40 serialized bytes: tag, size, and the symbol groups.
    pub open spec fn spec_serialize_front(self) -> Seq<u8> {
        le32(self.cmd) + le32(self.cmdsize) + le32(self.ilocalsym) + le32(self.nlocalsym) + le32(
            self.iextdefsym,
        ) + le32(self.nextdefsym) + le32(self.iundefsym) + le32(self.nundefsym) + le32(self.tocoff)
            + le32(self.ntoc)
    }

    /// The last 40 serialized bytes: the auxiliary table offsets and counts.
    pub open spec fn spec_serialize_back(self) -> Seq<u8> {
        le32(self.modtaboff) + le32(self.nmodtab) + le32(self.extrefsymoff) + le32(
            self.nextrefsyms,
        ) + le32(self.indirectsymoff) + le32(self.nindirectsyms) + le32(self.extreloff) + le32(
            self.nextrel,
        ) + le32(self.locreloff) + le32(self.nlocrel)
    }

    /// The 80 serialized bytes of the command, in little-endian order.
    pub open spec fn spec_serialize(self) -> Seq<u8> {
        self.spec_serialize_front() + self.spec_serialize_back()
    }

    /// The command read from 80 bytes at `pos` in byte order `e`.
    pub open spec fn spec_parse(s: Seq<u8>, pos: int, e: Endian) -> DysymtabCommand {
        DysymtabCommand {
            cmd: u32_at(s, pos, e),
            cmdsize: u32_at(s, pos + 4, e),
            ilocalsym: u32_at(s, pos + 8, e),
            nlocalsym: u32_at(s, pos + 12, e),
            iextdefsym: u32_at(s, pos + 16, e),
            nextdefsym: u32_at(s, pos + 20, e),
            iundefsym: u32_at(s, pos + 24, e),
            nundefsym: u32_at(s, pos + 28, e),
            tocoff: u32_at(s, pos + 32, e),
            ntoc: u32_at(s, pos + 36, e),
            modtaboff: u32_at(s, pos + 40, e),
            nmodtab: u32_at(s, pos + 44, e),
            extrefsymoff: u32_at(s, pos + 48, e),
            nextrefsyms: u32_at(s, pos + 52, e),
            indirectsymoff: u32_at(s, pos + 56, e),
            nindirectsyms: u32_at(s, pos + 60, e),
            extreloff: u32_at(s, pos + 64, e),
            nextrel: u32_at(s, pos + 68, e),
            locreloff: u32_at(s, pos + 72, e),
            nlocrel: u32_at(s, pos + 76, e),
        }
    }

    /// The 80 bytes at `pos` parse as a dynamic symbol-table command.
    pub open spec fn parseable(s: Seq<u8>, pos: int, e: Endian) -> bool {
        &&& 0 <= pos
        &&& pos + 80 <= s.len()
        &&& u32_at(s, pos, e) == DysymtabCommand::TYPE
        &&& u32_at(s, pos + 4, e) == DysymtabCommand::SIZE
    }

    /// Serializes the command, appending its 80 bytes to `buf`.
    #[verifier::rlimit(100)]
    pub fn write_into(&self, buf: &mut Vec<u8>)
        ensures
            final(buf)@ == old(buf)@ + self.spec_serialize(),
            final(buf)@.len() == old(buf)@.len() + 80,
    {
        crate::bytes::push_u32_le(buf, self.cmd);
        crate::bytes::push_u32_le(buf, self.cmdsize);
        crate::bytes::push_u32_le(buf, self.ilocalsym);
        crate::bytes::push_u32_le(buf, self.nlocalsym);
        crate::bytes::push_u32_le(buf, self.iextdefsym);
        crate::bytes::push_u32_le(buf, self.nextdefsym);
        crate::bytes::push_u32_le(buf, self.iundefsym);
        crate::bytes::push_u32_le(buf, self.nundefsym);
        crate::bytes::push_u32_le(buf, self.tocoff);
        crate::bytes::push_u32_le(buf, self.ntoc);
        crate::bytes::push_u32_le(buf, self.modtaboff);
        crate::bytes::push_u32_le(buf, self.nmodtab);
        crate::bytes::push_u32_le(buf, self.extrefsymoff);
        crate::bytes::push_u32_le(buf, self.nextrefsyms);
        crate::bytes::push_u32_le(buf, self.indirectsymoff);
        crate::bytes::push_u32_le(buf, self.nindirectsyms);
        crate::bytes::push_u32_le(buf, self.extreloff);
        crate::bytes::push_u32_le(buf, self.nextrel);
        crate::bytes::push_u32_le(buf, self.locreloff);
        crate::bytes::push_u32_le(buf, self.nlocrel);
        assert(final(buf)@ =~= old(buf)@ + self.spec_serialize());
    }

    /// Reads a dynamic symbol-table command from 80 bytes at `pos` in byte
    /// order `e`.
    pub fn read_from_in(s: &Vec<u8>, pos: usize, e: Endian) -> (r: DysymtabCommand)
        requires
            DysymtabCommand::parseable(s@, pos as int, e),
        ensures
            r == DysymtabCommand::spec_parse(s@, pos as int, e),
    {
        let slen: usize = s.len();
        DysymtabCommand {
            cmd: crate::endian::read_u32_in(s, pos, e),
            cmdsize: crate::endian::read_u32_in(s, pos + 4, e),
            ilocalsym: crate::endian::read_u32_in(s, pos + 8, e),
            nlocalsym: crate::endian::read_u32_in(s, pos + 12, e),
            iextdefsym: crate::endian::read_u32_in(s, pos + 16, e),
            nextdefsym: crate::endian::read_u32_in(s, pos + 20, e),
            iundefsym: crate::endian::read_u32_in(s, pos + 24, e),
            nundefsym: crate::endian::read_u32_in(s, pos + 28, e),
            tocoff: crate::endian::read_u32_in(s, pos + 32, e),
            ntoc: crate::endian::read_u32_in(s, pos + 36, e),
            modtaboff: crate::endian::read_u32_in(s, pos + 40, e),
            nmodtab: crate::endian::read_u32_in(s, pos + 44, e),
            extrefsymoff: crate::endian::read_u32_in(s, pos + 48, e),
            nextrefsyms: crate::endian::read_u32_in(s, pos + 52, e),
            indirectsymoff: crate::endian::read_u32_in(s, pos + 56, e),
            nindirectsyms: crate::endian::read_u32_in(s, pos + 60, e),
            extreloff: crate::endian::read_u32_in(s, pos + 64, e),
            nextrel: crate::endian::read_u32_in(s, pos + 68, e),
            locreloff: crate::endian::read_u32_in(s, pos + 72, e),
            nlocrel: crate::endian::read_u32_in(s, pos + 76, e),
        }
    }
}

/// Reading back a serialized dynamic symbol-table command gives the command.
#[verifier::rlimit(100)]
pub proof fn lemma_dysymtab_command_roundtrip(x: DysymtabCommand)
    requires
        x.wf(),
    ensures
        DysymtabCommand::parseable(x.spec_serialize(), 0, Endian::Little),
        DysymtabCommand::spec_parse(x.spec_serialize(), 0, Endian::Little) == x,
{
    let s = x.spec_serialize();
    assert(s.subrange(0, 4) =~= le32(x.cmd));
    crate::endian::lemma_u32_field(s, 0, x.cmd);
    assert(s.subrange(4, 8) =~= le32(x.cmdsize));
    crate::endian::lemma_u32_field(s, 4, x.cmdsize);
    assert(s.subrange(8, 12) =~= le32(x.ilocalsym));
    crate::endian::lemma_u32_field(s, 8, x.ilocalsym);
    assert(s.subrange(12, 16) =~= le32(x.nlocalsym));
    crate::endian::lemma_u32_field(s, 12, x.nlocalsym);
    assert(s.subrange(16, 20) =~= le32(x.iextdefsym));
    crate::endian::lemma_u32_field(s, 16, x.iextdefsym);
    assert(s.subrange(20, 24) =~= le32(x.nextdefsym));
    crate::endian::lemma_u32_field(s, 20, x.nextdefsym);
    assert(s.subrange(24, 28) =~= le32(x.iundefsym));
    crate::endian::lemma_u32_field(s, 24, x.iundefsym);
    assert(s.subrange(28, 32) =~= le32(x.nundefsym));
    crate::endian::lemma_u32_field(s, 28, x.nundefsym);
    assert(s.subrange(32, 36) =~= le32(x.tocoff));
    crate::endian::lemma_u32_field(s, 32, x.tocoff);
    assert(s.subrange(36, 40) =~= le32(x.ntoc));
    crate::endian::lemma_u32_field(s, 36, x.ntoc);
    assert(s.subrange(40, 44) =~= le32(x.modtaboff));
    crate::endian::lemma_u32_field(s, 40, x.modtaboff);
    assert(s.subrange(44, 48) =~= le32(x.nmodtab));
    crate::endian::lemma_u32_field(s, 44, x.nmodtab);
    assert(s.subrange(48, 52) =~= le32(x.extrefsymoff));
    crate::endian::lemma_u32_field(s, 48, x.extrefsymoff);
    assert(s.subrange(52, 56) =~= le32(x.nextrefsyms));
    crate::endian::lemma_u32_field(s, 52, x.nextrefsyms);
    assert(s.subrange(56, 60) =~= le32(x.indirectsymoff));
    crate::endian::lemma_u32_field(s, 56, x.indirectsymoff);
    assert(s.subrange(60, 64) =~= le32(x.nindirectsyms));
    crate::endian::lemma_u32_field(s, 60, x.nindirectsyms);
    assert(s.subrange(64, 68) =~= le32(x.extreloff));
    crate::endian::lemma_u32_field(s, 64, x.extreloff);
    assert(s.subrange(68, 72) =~= le32(x.nextrel));
    crate::endian::lemma_u32_field(s, 68, x.nextrel);
    assert(s.subrange(72, 76) =~= le32(x.locreloff));
    crate::endian::lemma_u32_field(s, 72, x.locreloff);
    assert(s.subrange(76, 80) =~= le32(x.nlocrel));
    crate::endian::lemma_u32_field(s, 76, x.nlocrel);
}

} // verus!
