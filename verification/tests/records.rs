use at_asm::endian::Endian;
use at_asm::header::{CpuSubTypeX86_64, CpuType, FileType, Flags, Header64, Magic};
use at_asm::load_command::build_version::{BuildToolVersion, BuildVersionCommand, Platform, Tool, Version};
use at_asm::load_command::dysymtab::DysymtabCommand;
use at_asm::load_command::segment64::{Section64, SectionAttrs, SectionType, SegmentCommand64};
use at_asm::load_command::symtab::SymtabCommand;
use at_asm::nlist::{NList64, NType, NTypeField};
use at_asm::reloc::{RelocLength, RelocationInfo, X86_64RelocType};
use at_asm::string_table::StringTable;
use at_asm::instruction::{Mov, Ret};
use at_asm::object::{Object, Symbol};
use at_asm::reg::Reg32;

#[test]
fn write_and_read_header64() {
    let header = Header64 {
        magic: Magic::Magic64,
        cpu_type: CpuType::X86_64(CpuSubTypeX86_64::All),
        file_type: FileType::Object,
        n_cmds: 2,
        size_of_cmds: 42,
        flags: Flags::new(),
        reserved: 0,
    };
    let mut buf = Vec::new();
    header.write_into(&mut buf);
    assert_eq!(buf.len(), 32);
    let (read, _) = Header64::read_from(&buf, 0);
    assert_eq!(read, header);
}

#[test]
fn write_and_read_segment64_command() {
    let cmd = SegmentCommand64 {
        cmd: 0x19,
        cmdsize: 72 + 80,
        segname: String::new(),
        vmaddr: 0,
        vmsize: 42,
        fileoff: 100,
        filesize: 42,
        maxprot: 7,
        initprot: 7,
        nsects: 1,
        flags: 0,
    };
    let mut buf = Vec::new();
    cmd.write_into(&mut buf);
    assert_eq!(buf.len(), 72);
    let read_cmd = SegmentCommand64::read_from_in(&buf, 0, Endian::NATIVE);
    assert_eq!(read_cmd, cmd);
}

#[test]
fn write_and_read_section64() {
    let cmd = Section64 {
        sectname: "__TEXT,__text".to_string(),
        segname: String::new(),
        addr: 0,
        size: 42,
        offset: 100,
        align: 0,
        reloff: 53,
        nreloc: 1,
        flags: (SectionAttrs::new(), SectionType::Regular),
        reserved1: 0,
        reserved2: 0,
        reserved3: 0,
    };
    let mut buf = Vec::new();
    cmd.write_into(&mut buf);
    assert_eq!(buf.len(), 80);
    let read_cmd = Section64::read_from_in(&buf, 0, Endian::NATIVE);
    assert_eq!(read_cmd, cmd);
}

#[test]
fn write_and_read_symtab_command() {
    let cmd = SymtabCommand { cmd: 0x2, cmdsize: 0x18, symoff: 42, nsyms: 1, stroff: 100, strsize: 7 };
    let mut buf = Vec::new();
    cmd.write_into(&mut buf);
    assert_eq!(buf.len(), 24);
    let read_cmd = SymtabCommand::read_from_in(&buf, 0, Endian::NATIVE);
    assert_eq!(read_cmd, cmd);
}

#[test]
fn write_and_read_dysymtab_command() {
    let cmd = DysymtabCommand {
        cmd: 0xB,
        cmdsize: 0x50,
        ilocalsym: 0,
        nlocalsym: 2,
        iextdefsym: 3,
        nextdefsym: 4,
        iundefsym: 5,
        nundefsym: 9,
        tocoff: 8,
        ntoc: 5,
        modtaboff: 8,
        nmodtab: 5,
        extrefsymoff: 0,
        nextrefsyms: 2,
        indirectsymoff: 3,
        nindirectsyms: 6,
        extreloff: 8,
        nextrel: 9,
        locreloff: 0,
        nlocrel: 2,
    };
    let mut buf = Vec::new();
    cmd.write_into(&mut buf);
    assert_eq!(buf.len(), 80);
    let read_cmd = DysymtabCommand::read_from_in(&buf, 0, Endian::NATIVE);
    assert_eq!(read_cmd, cmd);
}

#[test]
fn write_and_read_build_version_command() {
    let cmd = BuildVersionCommand {
        cmd: 0x32,
        cmdsize: 0x18,
        platform: Platform::MacOS,
        minos: Version { major: 3, minor: 10, release: 42 },
        sdk: Version { major: 1, minor: 11, release: 13 },
        ntools: 0,
    };
    let mut buf = Vec::new();
    cmd.write_into(&mut buf);
    assert_eq!(buf.len(), 24);
    let read_cmd = BuildVersionCommand::read_from_in(&buf, 0, Endian::NATIVE);
    assert_eq!(read_cmd, cmd);
}

#[test]
fn write_and_read_build_tool_version() {
    let version = BuildToolVersion { tool: Tool::Clang, version: 42 };
    let mut buf = Vec::new();
    version.write_into(&mut buf);
    assert_eq!(buf.len(), 8);
    let read_version = BuildToolVersion::read_from_in(&buf, 0, Endian::NATIVE);
    assert_eq!(read_version, version);
}

#[test]
fn write_and_read_nlist() {
    let nlist = NList64 {
        n_strx: 42,
        n_type: NTypeField::Norm { n_pext: false, n_type: NType::Sect, n_ext: true },
        n_sect: 2,
        n_desc: 0,
        n_value: 42,
    };
    let mut buf = Vec::new();
    nlist.write_into(&mut buf);
    assert_eq!(buf.len(), 16);
    let read = NList64::read_from_in(&buf, 0, Endian::NATIVE);
    assert_eq!(read, nlist);
}

#[test]
fn write_and_read_relocation_info() {
    let reloc = RelocationInfo {
        r_address: 42,
        r_symbolnum: 0x00323100,
        r_pcrel: true,
        r_length: RelocLength::Byte,
        r_extern: false,
        r_type: X86_64RelocType::Unsigned.to_u8(),
    };
    let mut buf = Vec::new();
    reloc.write_into(&mut buf);
    assert_eq!(buf.len(), 8);
    let read_reloc = RelocationInfo::read_from_in(&buf, 0, Endian::NATIVE);
    assert_eq!(read_reloc, reloc);
}

#[test]
fn get_index_0_always_return_empty_string() {
    let data = vec![0x00, 0x5f, 0x6d, 0x61, 0x69, 0x6e, 0x00];
    let table = StringTable::from_vec(data);
    assert_eq!(table.get(0), "");
    let mut table = StringTable::with_null();
    table.push_with_null("hoge");
    assert_eq!(table.get(0), "");
}

#[test]
fn get_string_from_vec() {
    let data = vec![0x00, 0x5f, 0x6d, 0x61, 0x69, 0x6e, 0x00];
    let table = StringTable::from_vec(data);
    assert_eq!(table.get(1), "_main");
    assert_eq!(table.get(2), "main");
}

#[test]
fn get_string() {
    let mut table = StringTable::with_null();
    table.push_with_null("hoge");
    assert_eq!(table.get(1), "hoge");
}

#[test]
fn write_minimal_object_file() {

    let mut obj = Object::new();
    let mov = Mov::new(Reg32::EAX, 42u32).bytecode();
    obj.sections.text.bytes.extend_from_slice(mov.bytes());
    obj.sections.text.bytes.extend_from_slice(Ret::new().bytecode().bytes());
    obj.sections.text.symbols.push(Symbol::Ref { name: "_main".to_string(), addr: 0, ext: true });
    assert_eq!(obj.sections.text.bytes, vec![0xB8, 0x2A, 0x00, 0x00, 0x00, 0xC3]);

    let mut file = Vec::new();
    at_asm::macho::write_into(&obj, &mut file);
    assert_eq!(&file[0..4], &[0xCF, 0xFA, 0xED, 0xFE]);
    // one section: data starts at 128 + 80
    assert_eq!(&file[208..214], &[0xB8, 0x2A, 0x00, 0x00, 0x00, 0xC3]);
    // one symbol entry after the padded payload: n_type = N_EXT | N_SECT, n_sect 1
    let symoff = 208 + 8;
    assert_eq!(file[symoff + 4], 0x0F);
    assert_eq!(file[symoff + 5], 1);
    // string table: NUL, then "_main", then NUL
    assert_eq!(&file[symoff + 16..], &[0x00, 0x5f, 0x6d, 0x61, 0x69, 0x6e, 0x00]);
}
