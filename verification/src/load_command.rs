//! The load commands of a Mach-O object file.

pub mod build_version;
pub mod dysymtab;
pub mod segment64;
pub mod symtab;

use self::build_version::{BuildToolVersion, BuildVersionCommand};
use self::dysymtab::DysymtabCommand;
use self::segment64::{Section64, SegmentCommand64};
use self::symtab::SymtabCommand;
use crate::endian::{u32_at, Endian};
use vstd::prelude::*;

verus! {

/// One load command, with the records that belong to it.
#[derive(Debug)]
pub enum LoadCommand {
    /// A segment command followed by its section records.
    Segment64(SegmentCommand64, Vec<Section64>),
    Symtab(SymtabCommand),
    Dysymtab(DysymtabCommand),
    /// A build-version command followed by its tool records.
    BuildVersion(BuildVersionCommand, Vec<BuildToolVersion>),
}

impl LoadCommand {
    /// The command's tag word.
    pub open spec fn spec_cmd(self) -> u32 {
        match self {
            LoadCommand::Segment64(cmd, _) => cmd.cmd,
            LoadCommand::Symtab(cmd) => cmd.cmd,
            LoadCommand::Dysymtab(cmd) => cmd.cmd,
            LoadCommand::BuildVersion(cmd, _) => cmd.cmd,
        }
    }

    /// The command's size word.
    pub open spec fn spec_cmd_size(self) -> u32 {
        match self {
            LoadCommand::Segment64(cmd, _) => cmd.cmdsize,
            LoadCommand::Symtab(cmd) => cmd.cmdsize,
            LoadCommand::Dysymtab(cmd) => cmd.cmdsize,
            LoadCommand::BuildVersion(cmd, _) => cmd.cmdsize,
        }
    }

    /// The command's tag word.
    pub fn cmd(&self) -> (r: u32)
        ensures
            r == self.spec_cmd(),
    {
        match self {
            LoadCommand::Segment64(cmd, _) => cmd.cmd,
            LoadCommand::Symtab(cmd) => cmd.cmd,
            LoadCommand::Dysymtab(cmd) => cmd.cmd,
            LoadCommand::BuildVersion(cmd, _) => cmd.cmd,
        }
    }

    /// The command's size word.
    pub fn cmd_size(&self) -> (r: u32)
        ensures
            r == self.spec_cmd_size(),
    {
        match self {
            LoadCommand::Segment64(cmd, _) => cmd.cmdsize,
            LoadCommand::Symtab(cmd) => cmd.cmdsize,
            LoadCommand::Dysymtab(cmd) => cmd.cmdsize,
            LoadCommand::BuildVersion(cmd, _) => cmd.cmdsize,
        }
    }

    /// The command's serialized bytes: its record, then the records that
    /// belong to it.
    pub open spec fn spec_serialize(self) -> Seq<u8> {
        match self {
            LoadCommand::Segment64(cmd, sections) => cmd.spec_serialize() + sections@.flat_map(
                |sect: Section64| sect.spec_serialize(),
            ),
            LoadCommand::Symtab(cmd) => cmd.spec_serialize(),
            LoadCommand::Dysymtab(cmd) => cmd.spec_serialize(),
            LoadCommand::BuildVersion(cmd, tools) => cmd.spec_serialize() + tools@.flat_map(
                |tool: BuildToolVersion| tool.spec_serialize(),
            ),
        }
    }

    /// The names of the command's string fields are ASCII and fit their
    /// fields.
    pub open spec fn wf_names(self) -> bool {
        match self {
            LoadCommand::Segment64(cmd, sections) => {
                &&& cmd.segname@.len() <= 16
                &&& vstd::string::string_is_ascii(&cmd.segname)
                &&& forall|i: int|
                    0 <= i < sections@.len() ==> (#[trigger] sections@[i]).sectname@.len() <= 16
                        && vstd::string::string_is_ascii(&sections@[i].sectname)
                        && sections@[i].segname@.len() <= 16 && vstd::string::string_is_ascii(
                        &sections@[i].segname,
                    )
            },
            _ => true,
        }
    }

    /// Serializes the command and its records, appending them to `buf`.
    #[verifier::rlimit(100)]
    pub fn write_into(&self, buf: &mut Vec<u8>)
        requires
            self.wf_names(),
        ensures
            final(buf)@ == old(buf)@ + self.spec_serialize(),
    {
        match self {
            LoadCommand::Segment64(cmd, sections) => {
                cmd.write_into(buf);
                write_sections(sections, buf);
            },
            LoadCommand::Symtab(cmd) => {
                cmd.write_into(buf);
            },
            LoadCommand::Dysymtab(cmd) => {
                cmd.write_into(buf);
            },
            LoadCommand::BuildVersion(cmd, tools) => {
                cmd.write_into(buf);
                write_tools(tools, buf);
            },
        }
    }

}

/// Serializes the section records one after the other, appending them to
/// `buf`.
pub fn write_sections(sections: &Vec<Section64>, buf: &mut Vec<u8>)
    requires
        forall|i: int|
            0 <= i < sections@.len() ==> (#[trigger] sections@[i]).sectname@.len() <= 16
                && vstd::string::string_is_ascii(&sections@[i].sectname)
                && sections@[i].segname@.len() <= 16 && vstd::string::string_is_ascii(
                &sections@[i].segname,
            ),
    ensures
        final(buf)@ == old(buf)@ + sections@.flat_map(
            |sect: Section64| sect.spec_serialize(),
        ),
{
    let ghost f = |sect: Section64| sect.spec_serialize();
    let mut i: usize = 0;
    proof {
        assert(sections@.take(0).flat_map(f) =~= Seq::<u8>::empty());
        assert(buf@ =~= old(buf)@ + sections@.take(0).flat_map(f));
    }
    while i < sections.len()
        invariant
            i <= sections@.len(),
            forall|k: int|
                0 <= k < sections@.len() ==> (#[trigger] sections@[k]).sectname@.len() <= 16
                    && vstd::string::string_is_ascii(&sections@[k].sectname)
                    && sections@[k].segname@.len() <= 16 && vstd::string::string_is_ascii(
                    &sections@[k].segname,
                ),
            f == (|sect: Section64| sect.spec_serialize()),
            buf@ == old(buf)@ + sections@.take(i as int).flat_map(f),
        decreases sections@.len() - i,
    {
        sections[i].write_into(buf);
        proof {
            sections@.lemma_flat_map_take_append(f, i as int);
        }
        i += 1;
    }
    proof {
        assert(sections@.take(sections@.len() as int) =~= sections@);
    }
}

/// Serializes the tool records one after the other, appending them to `buf`.
pub fn write_tools(tools: &Vec<BuildToolVersion>, buf: &mut Vec<u8>)
    ensures
        final(buf)@ == old(buf)@ + tools@.flat_map(
            |tool: BuildToolVersion| tool.spec_serialize(),
        ),
{
    let ghost f = |tool: BuildToolVersion| tool.spec_serialize();
    let mut i: usize = 0;
    proof {
        assert(tools@.take(0).flat_map(f) =~= Seq::<u8>::empty());
        assert(buf@ =~= old(buf)@ + tools@.take(0).flat_map(f));
    }
    while i < tools.len()
        invariant
            i <= tools@.len(),
            f == (|tool: BuildToolVersion| tool.spec_serialize()),
            buf@ == old(buf)@ + tools@.take(i as int).flat_map(f),
        decreases tools@.len() - i,
    {
        tools[i].write_into(buf);
        proof {
            tools@.lemma_flat_map_take_append(f, i as int);
        }
        i += 1;
    }
    proof {
        assert(tools@.take(tools@.len() as int) =~= tools@);
    }
}

impl LoadCommand {
    /// The bytes at `pos` parse as one load command with its records.
    pub open spec fn parseable(s: Seq<u8>, pos: int, e: Endian) -> bool {
        let cmd = u32_at(s, pos, e);
        &&& 0 <= pos
        &&& pos + 4 <= s.len()
        &&& if cmd == SegmentCommand64::TYPE {
            &&& SegmentCommand64::parseable(s, pos, e)
            &&& pos + 72 + 80 * (u32_at(s, pos + 64, e) as int) <= s.len()
            &&& forall|i: int|
                0 <= i < u32_at(s, pos + 64, e) as int ==> #[trigger] Section64::parseable(
                    s,
                    pos + 72 + 80 * i,
                    e,
                )
        } else if cmd == SymtabCommand::TYPE {
            SymtabCommand::parseable(s, pos, e)
        } else if cmd == DysymtabCommand::TYPE {
            DysymtabCommand::parseable(s, pos, e)
        } else if cmd == BuildVersionCommand::TYPE {
            &&& BuildVersionCommand::parseable(s, pos, e)
            &&& pos + 24 + 8 * (u32_at(s, pos + 20, e) as int) <= s.len()
            &&& forall|i: int|
                0 <= i < u32_at(s, pos + 20, e) as int ==> #[trigger] BuildToolVersion::parseable(
                    s,
                    pos + 24 + 8 * i,
                    e,
                )
        } else {
            false
        }
    }

    /// `lc` is the command read from `pos` in byte order `e`, with its
    /// records read one after the other.
    pub open spec fn parses_to(s: Seq<u8>, pos: int, e: Endian, lc: LoadCommand) -> bool {
        match lc {
            LoadCommand::Segment64(cmd, sections) => {
                &&& u32_at(s, pos, e) == SegmentCommand64::TYPE
                &&& SegmentCommand64::parses_to(s, pos, e, cmd)
                &&& sections@.len() == u32_at(s, pos + 64, e) as int
                &&& forall|i: int|
                    0 <= i < sections@.len() ==> Section64::parses_to(
                        s,
                        pos + 72 + 80 * i,
                        e,
                        #[trigger] sections@[i],
                    )
            },
            LoadCommand::Symtab(cmd) => {
                &&& u32_at(s, pos, e) == SymtabCommand::TYPE
                &&& cmd == SymtabCommand::spec_parse(s, pos, e)
            },
            LoadCommand::Dysymtab(cmd) => {
                &&& u32_at(s, pos, e) == DysymtabCommand::TYPE
                &&& cmd == DysymtabCommand::spec_parse(s, pos, e)
            },
            LoadCommand::BuildVersion(cmd, tools) => {
                &&& u32_at(s, pos, e) == BuildVersionCommand::TYPE
                &&& cmd == BuildVersionCommand::spec_parse(s, pos, e)
                &&& tools@.len() == u32_at(s, pos + 20, e) as int
                &&& forall|i: int|
                    0 <= i < tools@.len() ==> #[trigger] tools@[i] == BuildToolVersion::spec_parse(
                        s,
                        pos + 24 + 8 * i,
                        e,
                    )
            },
        }
    }

    /// Reads one load command and its records from `pos` in byte order `e`.
    pub fn read_from_in(s: &Vec<u8>, pos: usize, e: Endian) -> (r: LoadCommand)
        requires
            LoadCommand::parseable(s@, pos as int, e),
        ensures
            LoadCommand::parses_to(s@, pos as int, e, r),
    {
        let slen: usize = s.len();
        let cmd = crate::endian::read_u32_in(s, pos, e);
        if cmd == 0x19 {
            let seg = SegmentCommand64::read_from_in(s, pos, e);
            let nsects = crate::endian::read_u32_in(s, pos + 64, e);
            let mut sections: Vec<Section64> = Vec::new();
            let mut i: usize = 0;
            while i < nsects as usize
                invariant
                    LoadCommand::parseable(s@, pos as int, e),
                    u32_at(s@, pos as int, e) == SegmentCommand64::TYPE,
                    nsects == u32_at(s@, pos as int + 64, e),
                    pos + 72 + 80 * (nsects as int) <= s@.len(),
                    slen == s@.len() <= usize::MAX,
                    i <= nsects as usize,
                    sections@.len() == i,
                    forall|j: int|
                        0 <= j < i ==> Section64::parses_to(
                            s@,
                            pos as int + 72 + 80 * j,
                            e,
                            #[trigger] sections@[j],
                        ),
                decreases nsects as int - i,
            {
                let sect = Section64::read_from_in(s, pos + 72 + 80 * i, e);
                sections.push(sect);
                i += 1;
            }
            LoadCommand::Segment64(seg, sections)
        } else if cmd == 0x2 {
            LoadCommand::Symtab(SymtabCommand::read_from_in(s, pos, e))
        } else if cmd == 0xB {
            LoadCommand::Dysymtab(DysymtabCommand::read_from_in(s, pos, e))
        } else if cmd == 0x32 {
            let bv = BuildVersionCommand::read_from_in(s, pos, e);
            let ntools = crate::endian::read_u32_in(s, pos + 20, e);
            let mut tools: Vec<BuildToolVersion> = Vec::new();
            let mut i: usize = 0;
            while i < ntools as usize
                invariant
                    LoadCommand::parseable(s@, pos as int, e),
                    u32_at(s@, pos as int, e) == BuildVersionCommand::TYPE,
                    ntools == u32_at(s@, pos as int + 20, e),
                    pos + 24 + 8 * (ntools as int) <= s@.len(),
                    slen == s@.len() <= usize::MAX,
                    i <= ntools as usize,
                    tools@.len() == i,
                    forall|j: int|
                        0 <= j < i ==> #[trigger] tools@[j] == BuildToolVersion::spec_parse(
                            s@,
                            pos as int + 24 + 8 * j,
                            e,
                        ),
                decreases ntools as int - i,
            {
                let tool = BuildToolVersion::read_from_in(s, pos + 24 + 8 * i, e);
                tools.push(tool);
                i += 1;
            }
            LoadCommand::BuildVersion(bv, tools)
        } else {
            vstd::pervasive::unreached()
        }
    }
}

} // verus!
