//! The symbol-table load command.

use crate::bytes::le32;
use crate::endian::{u32_at, Endian};
use vstd::prelude::*;

verus! {

/// The 24-byte load command locating the symbol table and string table.
#[derive(Debug, Clone, PartialEq, Eq, Structural)]
pub struct SymtabCommand {
    /// Always `SymtabCommand::TYPE`.
    pub cmd: u32,
    /// Always `SymtabCommand::SIZE`.
    pub cmdsize: u32,
    /// The file offset of the symbol table entries.
    pub symoff: u32,
    /// The number of symbol table entries.
    pub nsyms: u32,
    /// The file offset of the string table.
    pub stroff: u32,
    /// The size of the string table in bytes.
    pub strsize: u32,
}

impl SymtabCommand {
    /// The load command tag of a symbol-table command.
    pub const TYPE: u32 = 0x2;

    /// The serialized size of the command.
    pub const SIZE: u32 = 0x18;

    /// The tag and size fields hold their fixed values.
    pub open spec fn wf(self) -> bool {
        self.cmd == SymtabCommand::TYPE && self.cmdsize == SymtabCommand::SIZE
    }

    /// The 24 serialized bytes of the command, in little-endian order.
    pub open spec fn spec_serialize(self) -> Seq<u8> {
        le32(self.cmd) + le32(self.cmdsize) + le32(self.symoff) + le32(self.nsyms) + le32(
            self.stroff,
        ) + le32(self.strsize)
    }

    /// The command read from 24 bytes at `pos` in byte order `e`.
    pub open spec fn spec_parse(s: Seq<u8>, pos: int, e: Endian) -> SymtabCommand {
        SymtabCommand {
            cmd: u32_at(s, pos, e),
            cmdsize: u32_at(s, pos + 4, e),
            symoff: u32_at(s, pos + 8, e),
            nsyms: u32_at(s, pos + 12, e),
            stroff: u32_at(s, pos + 16, e),
            strsize: u32_at(s, pos + 20, e),
        }
    }

    /// The 24 bytes at `pos` parse as a symbol-table command.
    pub open spec fn parseable(s: Seq<u8>, pos: int, e: Endian) -> bool {
        &&& 0 <= pos
        &&& pos + 24 <= s.len()
        &&& u32_at(s, pos, e) == SymtabCommand::TYPE
        &&& u32_at(s, pos + 4, e) == SymtabCommand::SIZE
    }

    /// Serializes the command, appending its 24 bytes to `buf`.
    pub fn write_into(&self, buf: &mut Vec<u8>)
        ensures
            final(buf)@ == old(buf)@ + self.spec_serialize(),
            final(buf)@.len() == old(buf)@.len() + 24,
    {
        crate::bytes::push_u32_le(buf, self.cmd);
        crate::bytes::push_u32_le(buf, self.cmdsize);
        crate::bytes::push_u32_le(buf, self.symoff);
        crate::bytes::push_u32_le(buf, self.nsyms);
        crate::bytes::push_u32_le(buf, self.stroff);
        crate::bytes::push_u32_le(buf, self.strsize);
        assert(final(buf)@ =~= old(buf)@ + self.spec_serialize());
    }

    /// Reads a symbol-table command from 24 bytes at `pos` in byte order `e`.
    pub fn read_from_in(s: &Vec<u8>, pos: usize, e: Endian) -> (r: SymtabCommand)
        requires
            SymtabCommand::parseable(s@, pos as int, e),
        ensures
            r == SymtabCommand::spec_parse(s@, pos as int, e),
    {
        let slen: usize = s.len();
        SymtabCommand {
            cmd: crate::endian::read_u32_in(s, pos, e),
            cmdsize: crate::endian::read_u32_in(s, pos + 4, e),
            symoff: crate::endian::read_u32_in(s, pos + 8, e),
            nsyms: crate::endian::read_u32_in(s, pos + 12, e),
            stroff: crate::endian::read_u32_in(s, pos + 16, e),
            strsize: crate::endian::read_u32_in(s, pos + 20, e),
        }
    }
}

/// Reading back a serialized symbol-table command gives the command.
pub proof fn lemma_symtab_command_roundtrip(x: SymtabCommand)
    requires
        x.wf(),
    ensures
        SymtabCommand::parseable(x.spec_serialize(), 0, Endian::Little),
        SymtabCommand::spec_parse(x.spec_serialize(), 0, Endian::Little) == x,
{
    let s = x.spec_serialize();
    assert(s.subrange(0, 4) =~= le32(x.cmd));
    crate::endian::lemma_u32_field(s, 0, x.cmd);
    assert(s.subrange(4, 8) =~= le32(x.cmdsize));
    crate::endian::lemma_u32_field(s, 4, x.cmdsize);
    assert(s.subrange(8, 12) =~= le32(x.symoff));
    crate::endian::lemma_u32_field(s, 8, x.symoff);
    assert(s.subrange(12, 16) =~= le32(x.nsyms));
    crate::endian::lemma_u32_field(s, 12, x.nsyms);
    assert(s.subrange(16, 20) =~= le32(x.stroff));
    crate::endian::lemma_u32_field(s, 16, x.stroff);
    assert(s.subrange(20, 24) =~= le32(x.strsize));
    crate::endian::lemma_u32_field(s, 20, x.strsize);
}

} // verus!
