use elf_reader::header::{Class, Endian, Header, ISA, ObjectFileType, TargetABI};
use elf_reader::program_header::{ProgramHeader, ProgramType};
use elf_reader::section_header::{InnerSectionHeader, SectionHeader, SectionType};
use elf_reader::{make_u16, make_u32, make_u64, DecodeError, ELF};

fn put_u16(b: &mut Vec<u8>, off: usize, v: u16) {
    b[off..off + 2].copy_from_slice(&v.to_le_bytes());
}

fn put_u32(b: &mut Vec<u8>, off: usize, v: u32) {
    b[off..off + 4].copy_from_slice(&v.to_le_bytes());
}

fn put_u64(b: &mut Vec<u8>, off: usize, v: u64) {
    b[off..off + 8].copy_from_slice(&v.to_le_bytes());
}

/// A valid 0x40-byte 64-bit little-endian header: SystemV, EXEC, x86-64,
/// entry point 0x401000, with the given table locations.
fn header_64le(
    phoff: u64,
    phentsize: u16,
    phnum: u16,
    shoff: u64,
    shentsize: u16,
    shnum: u16,
    shstrndx: u16,
) -> Vec<u8> {
    let mut b = vec![0u8; 0x40];
    b[0] = 0x7F;
    b[1] = 0x45;
    b[2] = 0x4C;
    b[3] = 0x46;
    b[4] = 2;
    b[5] = 1;
    b[6] = 1;
    b[7] = 0;
    b[8] = 0;
    put_u16(&mut b, 0x10, 0x0002);
    put_u16(&mut b, 0x12, 0x003E);
    put_u32(&mut b, 0x14, 1);
    put_u64(&mut b, 0x18, 0x401000);
    put_u64(&mut b, 0x20, phoff);
    put_u64(&mut b, 0x28, shoff);
    put_u32(&mut b, 0x30, 0);
    put_u16(&mut b, 0x34, 0x40);
    put_u16(&mut b, 0x36, phentsize);
    put_u16(&mut b, 0x38, phnum);
    put_u16(&mut b, 0x3A, shentsize);
    put_u16(&mut b, 0x3C, shnum);
    put_u16(&mut b, 0x3E, shstrndx);
    b
}

/// Appends one 0x38-byte 64-bit program-header slot.
fn push_ph_64le(
    b: &mut Vec<u8>,
    ptype: u32,
    flags: u32,
    offset: u64,
    vaddr: u64,
    paddr: u64,
    filesz: u64,
    memsz: u64,
    align: u64,
) {
    let base = b.len();
    b.resize(base + 0x38, 0);
    put_u32(b, base, ptype);
    put_u32(b, base + 0x04, flags);
    put_u64(b, base + 0x08, offset);
    put_u64(b, base + 0x10, vaddr);
    put_u64(b, base + 0x18, paddr);
    put_u64(b, base + 0x20, filesz);
    put_u64(b, base + 0x28, memsz);
    put_u64(b, base + 0x30, align);
}

/// Appends one 0x40-byte 64-bit section-header slot.
fn push_sh_64le(
    b: &mut Vec<u8>,
    name_off: u32,
    stype: u32,
    flags: u64,
    addr: u64,
    offset: u64,
    size: u64,
    link: u32,
    info: u32,
    align: u64,
    entsize: u64,
) {
    let base = b.len();
    b.resize(base + 0x40, 0);
    put_u32(b, base, name_off);
    put_u32(b, base + 0x04, stype);
    put_u64(b, base + 0x08, flags);
    put_u64(b, base + 0x10, addr);
    put_u64(b, base + 0x18, offset);
    put_u64(b, base + 0x20, size);
    put_u32(b, base + 0x28, link);
    put_u32(b, base + 0x2C, info);
    put_u64(b, base + 0x30, align);
    put_u64(b, base + 0x38, entsize);
}

/// A buffer holding a header and two sections, the second being the string
/// table, with names "" and ".shstrtab". The second section's raw name
/// offset can be overridden to aim outside the table.
fn two_sections_64le(second_name_off: u32, strtab: &[u8]) -> Vec<u8> {
    let mut b = header_64le(0, 0x38, 0, 0x40, 0x40, 2, 1);
    let strtab_pos = 0x40 + 2 * 0x40;
    push_sh_64le(&mut b, 0, 0, 0, 0, 0, 0, 0, 0, 0, 0);
    push_sh_64le(
        &mut b,
        second_name_off,
        3,
        0,
        0,
        strtab_pos as u64,
        strtab.len() as u64,
        0,
        0,
        1,
        0,
    );
    b.extend_from_slice(strtab);
    b
}

#[test]
fn bad_magic_fails() {
    let mut b = header_64le(0, 0x38, 0, 0, 0x40, 0, 0);
    b[1] = 0x00;
    assert_eq!(Header::new(&b), Err(DecodeError::MalformedInput));
    assert!(ELF::new(b).is_err());
}

#[test]
fn bad_magic_fails_regardless_of_rest() {
    let b = vec![0x42u8; 0x200];
    assert_eq!(Header::new(&b), Err(DecodeError::MalformedInput));
}

#[test]
fn short_buffer_fails() {
    let b = vec![0x7F, 0x45, 0x4C, 0x46];
    assert_eq!(Header::new(&b), Err(DecodeError::MalformedInput));
}

#[test]
fn decode_64le_header_fields() {
    let mut b = header_64le(0x40, 0x38, 0, 0x80, 0x40, 0, 0);
    put_u64(&mut b, 0x18, 0x12345678);
    let h = Header::new(&b).unwrap();
    assert_eq!(h.elf_class, Class::ELF64);
    assert_eq!(h.endian, Endian::Little);
    assert_eq!(h.target_abi, TargetABI::SystemV);
    assert_eq!(h.abi_version, 0);
    assert_eq!(h.object_type, ObjectFileType::EXEC);
    assert_eq!(h.target_isa, ISA::x86_64);
    assert_eq!(h.entry_point, 0x12345678);
    assert_eq!(h.program_header_offset, 0x40);
    assert_eq!(h.section_header_offset, 0x80);
    assert_eq!(h.header_size, 0x40);
    assert_eq!(h.program_header_size, 0x38);
    assert_eq!(h.program_header_number, 0);
    assert_eq!(h.section_header_size, 0x40);
    assert_eq!(h.section_header_number, 0);
    assert_eq!(h.section_name_table_entry, 0);
}

#[test]
fn decode_32le_header_and_table() {
    let mut b = vec![0u8; 0x34 + 0x20];
    b[0] = 0x7F;
    b[1] = 0x45;
    b[2] = 0x4C;
    b[3] = 0x46;
    b[4] = 1;
    b[5] = 1;
    b[6] = 1;
    b[7] = 0x03;
    put_u16(&mut b, 0x10, 0x0001);
    put_u16(&mut b, 0x12, 0x0003);
    put_u32(&mut b, 0x14, 1);
    put_u32(&mut b, 0x18, 0x8048000);
    put_u32(&mut b, 0x1C, 0x34);
    put_u32(&mut b, 0x20, 0);
    put_u32(&mut b, 0x24, 0);
    put_u16(&mut b, 0x28, 0x34);
    put_u16(&mut b, 0x2A, 0x20);
    put_u16(&mut b, 0x2C, 1);
    put_u16(&mut b, 0x2E, 0x28);
    put_u16(&mut b, 0x30, 0);
    put_u16(&mut b, 0x32, 0);
    put_u32(&mut b, 0x34, 1);
    put_u32(&mut b, 0x34 + 0x04, 0x100);
    put_u32(&mut b, 0x34 + 0x08, 0x8048100);
    put_u32(&mut b, 0x34 + 0x0C, 0x8048100);
    put_u32(&mut b, 0x34 + 0x10, 0x200);
    put_u32(&mut b, 0x34 + 0x14, 0x300);
    put_u32(&mut b, 0x34 + 0x18, 5);
    put_u32(&mut b, 0x34 + 0x1C, 0x1000);
    let h = Header::new(&b).unwrap();
    assert_eq!(h.elf_class, Class::ELF32);
    assert_eq!(h.target_abi, TargetABI::Linux);
    assert_eq!(h.object_type, ObjectFileType::REL);
    assert_eq!(h.target_isa, ISA::x86);
    assert_eq!(h.entry_point, 0x8048000);
    let phs = ProgramHeader::new(&b, &h).unwrap();
    assert_eq!(phs.len(), 1);
    assert_eq!(phs[0].program_type, ProgramType::Load);
    assert_eq!(phs[0].offset, 0x100);
    assert_eq!(phs[0].vaddr, 0x8048100);
    assert_eq!(phs[0].file_size, 0x200);
    assert_eq!(phs[0].memory_size, 0x300);
    assert_eq!(phs[0].flags, 5);
    assert_eq!(phs[0].align, 0x1000);
}

#[test]
fn decode_64be_header_fields() {
    let mut b = vec![0u8; 0x40];
    b[0] = 0x7F;
    b[1] = 0x45;
    b[2] = 0x4C;
    b[3] = 0x46;
    b[4] = 2;
    b[5] = 2;
    b[6] = 1;
    b[7] = 0;
    b[0x10..0x12].copy_from_slice(&0x0002u16.to_be_bytes());
    b[0x12..0x14].copy_from_slice(&0x00B7u16.to_be_bytes());
    b[0x14] = 1;
    b[0x18..0x20].copy_from_slice(&0xCAFE0000u64.to_be_bytes());
    b[0x34..0x36].copy_from_slice(&0x40u16.to_be_bytes());
    let h = Header::new(&b).unwrap();
    assert_eq!(h.endian, Endian::Big);
    assert_eq!(h.object_type, ObjectFileType::EXEC);
    assert_eq!(h.target_isa, ISA::AArch64);
    assert_eq!(h.entry_point, 0xCAFE0000);
    assert_eq!(h.header_size, 0x40);
}

#[test]
fn wrong_version_fails() {
    let mut b = header_64le(0, 0x38, 0, 0, 0x40, 0, 0);
    b[6] = 2;
    assert_eq!(Header::new(&b), Err(DecodeError::MalformedInput));
    let mut b = header_64le(0, 0x38, 0, 0, 0x40, 0, 0);
    b[0x14] = 0;
    assert_eq!(Header::new(&b), Err(DecodeError::MalformedInput));
}

#[test]
fn bad_class_or_endian_fails() {
    let mut b = header_64le(0, 0x38, 0, 0, 0x40, 0, 0);
    b[4] = 3;
    assert_eq!(Header::new(&b), Err(DecodeError::MalformedInput));
    let mut b = header_64le(0, 0x38, 0, 0, 0x40, 0, 0);
    b[5] = 0;
    assert_eq!(Header::new(&b), Err(DecodeError::MalformedInput));
}

#[test]
fn unrecognized_abi_fails() {
    let mut b = header_64le(0, 0x38, 0, 0, 0x40, 0, 0);
    b[7] = 0x05;
    assert_eq!(Header::new(&b), Err(DecodeError::MalformedInput));
}

#[test]
fn unrecognized_object_type_fails() {
    let mut b = header_64le(0, 0x38, 0, 0, 0x40, 0, 0);
    put_u16(&mut b, 0x10, 0x0005);
    assert_eq!(Header::new(&b), Err(DecodeError::MalformedInput));
}

#[test]
fn unrecognized_isa_fails() {
    let mut b = header_64le(0, 0x38, 0, 0, 0x40, 0, 0);
    put_u16(&mut b, 0x12, 0x0001);
    assert_eq!(Header::new(&b), Err(DecodeError::MalformedInput));
}

#[test]
fn header_round_trip_64le() {
    let mut b = header_64le(0x40, 0x38, 0, 0x80, 0x40, 0, 0);
    put_u32(&mut b, 0x30, 0xDEAD);
    let h = Header::new(&b).unwrap();
    let encoded = h.encode_64le();
    assert_eq!(encoded, b[0..0x40].to_vec());
}

#[test]
fn get_elf_class_probe() {
    let b = header_64le(0, 0x38, 0, 0, 0x40, 0, 0);
    assert_eq!(Header::get_elf_class(&b), Some(Class::ELF64));
    let mut b32 = b.clone();
    b32[4] = 1;
    assert_eq!(Header::get_elf_class(&b32), Some(Class::ELF32));
    let mut bad = b.clone();
    bad[4] = 9;
    assert_eq!(Header::get_elf_class(&bad), None);
    assert_eq!(Header::get_elf_class(&vec![0x7F, 0x45, 0x4C, 0x46]), None);
}

#[test]
fn program_header_table_order() {
    let mut b = header_64le(0x40, 0x38, 2, 0, 0x40, 0, 0);
    push_ph_64le(&mut b, 1, 0b101, 0x1000, 0x401000, 0x401000, 0x111, 0x222, 0x1000);
    push_ph_64le(&mut b, 2, 0b110, 0x2000, 0x402000, 0x402000, 0x333, 0x444, 8);
    let h = Header::new(&b).unwrap();
    let phs = ProgramHeader::new(&b, &h).unwrap();
    assert_eq!(phs.len(), usize::from(h.program_header_number));
    assert_eq!(phs[0].program_type, ProgramType::Load);
    assert_eq!(phs[0].offset, 0x1000);
    assert_eq!(phs[0].flags, 0b101);
    assert_eq!(phs[1].program_type, ProgramType::Dynamic);
    assert_eq!(phs[1].offset, 0x2000);
    assert_eq!(phs[1].align, 8);
}

#[test]
fn program_header_unknown_type_fails_whole_table() {
    let mut b = header_64le(0x40, 0x38, 2, 0, 0x40, 0, 0);
    push_ph_64le(&mut b, 1, 0, 0, 0, 0, 0, 0, 0);
    push_ph_64le(&mut b, 8, 0, 0, 0, 0, 0, 0, 0);
    let h = Header::new(&b).unwrap();
    assert_eq!(ProgramHeader::new(&b, &h), Err(DecodeError::MalformedInput));
}

#[test]
fn program_header_out_of_bounds_fails() {
    let b = header_64le(0x1000, 0x38, 1, 0, 0x40, 0, 0);
    let h = Header::new(&b).unwrap();
    assert_eq!(ProgramHeader::new(&b, &h), Err(DecodeError::MalformedInput));
}

#[test]
fn empty_section_table_decodes_empty() {
    let b = header_64le(0, 0x38, 0, 0x40, 0x40, 0, 0);
    let h = Header::new(&b).unwrap();
    let shs = SectionHeader::new(&b, &h).unwrap();
    assert_eq!(shs.len(), 0);
    let elf = ELF::new(b).unwrap();
    assert_eq!(elf.section_headers.len(), 0);
}

#[test]
fn section_names_resolve_from_declared_index() {
    let strtab = b"\0.shstrtab\0";
    let b = two_sections_64le(1, strtab);
    let elf = ELF::new(b).unwrap();
    assert_eq!(elf.section_headers.len(), 2);
    assert_eq!(elf.section_headers[0].name(), "");
    assert_eq!(elf.section_headers[1].name(), ".shstrtab");
    assert_eq!(elf.section_headers[0].section_type(), SectionType::Null);
    assert_eq!(elf.section_headers[1].section_type(), SectionType::StrTab);
    assert_eq!(elf.section_headers[1].file_offset(), 0xC0);
    assert_eq!(elf.section_headers[1].size(), strtab.len() as u64);
    assert_eq!(elf.section_headers[1].addr_align(), 1);
}

#[test]
fn section_getters_report_fields() {
    let strtab = b"\0A\0";
    let mut b = header_64le(0, 0x38, 0, 0x40, 0x40, 1, 0);
    push_sh_64le(&mut b, 1, 3, 7, 0x500, 0x80, 3, 9, 11, 4, 0x18);
    b.extend_from_slice(strtab);
    let h = Header::new(&b).unwrap();
    let shs = SectionHeader::new(&b, &h).unwrap();
    assert_eq!(shs.len(), 1);
    assert_eq!(shs[0].name(), "A");
    assert_eq!(shs[0].flags(), 7);
    assert_eq!(shs[0].target_addr(), 0x500);
    assert_eq!(shs[0].file_offset(), 0x80);
    assert_eq!(shs[0].size(), 3);
    assert_eq!(shs[0].link(), 9);
    assert_eq!(shs[0].info(), 11);
    assert_eq!(shs[0].addr_align(), 4);
    assert_eq!(shs[0].entry_size(), 0x18);
}

#[test]
fn name_offset_past_end_fails() {
    let strtab = b"\0.shstrtab\0";
    let b = two_sections_64le(0x1000, strtab);
    assert_eq!(ELF::new(b), Err(DecodeError::MalformedInput));
}

#[test]
fn unterminated_name_fails() {
    let strtab = b"\0zz";
    let b = two_sections_64le(1, strtab);
    assert_eq!(ELF::new(b), Err(DecodeError::MalformedInput));
}

#[test]
fn invalid_utf8_name_fails() {
    let strtab = b"\0\xFF\xFE\0";
    let b = two_sections_64le(1, strtab);
    assert_eq!(ELF::new(b), Err(DecodeError::MalformedInput));
}

#[test]
fn string_table_index_out_of_range_fails() {
    let strtab = b"\0.shstrtab\0";
    let mut b = two_sections_64le(1, strtab);
    put_u16(&mut b, 0x3E, 2);
    assert_eq!(ELF::new(b), Err(DecodeError::MalformedInput));
}

#[test]
fn section_unknown_type_fails_whole_table() {
    let strtab = b"\0.shstrtab\0";
    let mut b = two_sections_64le(1, strtab);
    put_u32(&mut b, 0x40 + 0x04, 0x0000_0014);
    assert_eq!(ELF::new(b), Err(DecodeError::MalformedInput));
}

#[test]
fn section_type_reserved_range_boundaries() {
    assert_eq!(SectionType::new(0x6000_0000), Some(SectionType::Loos(0)));
    assert_eq!(SectionType::new(0x6FFF_FFFF), Some(SectionType::Loos(0x0FFF_FFFF)));
    assert_eq!(SectionType::new(0x7000_0000), Some(SectionType::LoProc(0)));
    assert_eq!(SectionType::new(0x8000_0000), Some(SectionType::LoUser(0)));
    assert_eq!(SectionType::new(0x8FFF_FFFF), Some(SectionType::LoUser(0x0FFF_FFFF)));
    assert_eq!(SectionType::new(0x9000_0000), None);
    assert_eq!(SectionType::new(0x0000_0014), None);
    assert_eq!(SectionType::new(0x5FFF_FFFF), None);
}

#[test]
fn section_type_in_os_range_decodes_with_offset() {
    let strtab = b"\0x\0";
    let mut b = header_64le(0, 0x38, 0, 0x40, 0x40, 1, 0);
    // the single section is its own string table, stored right after its slot
    push_sh_64le(&mut b, 1, 0x6000_0000, 0, 0, 0x80, 3, 0, 0, 1, 0);
    b.extend_from_slice(strtab);
    let h = Header::new(&b).unwrap();
    let shs = SectionHeader::new(&b, &h).unwrap();
    assert_eq!(shs[0].section_type(), SectionType::Loos(0));
    assert_eq!(shs[0].name(), "x");
}

#[test]
fn section_type_past_last_reserved_range_fails_decode() {
    let strtab = b"\0x\0";
    let mut b = header_64le(0, 0x38, 0, 0x40, 0x40, 1, 0);
    push_sh_64le(&mut b, 1, 0x9000_0000, 0, 0, 0x80, 3, 0, 0, 1, 0);
    b.extend_from_slice(strtab);
    let h = Header::new(&b).unwrap();
    assert_eq!(SectionHeader::new(&b, &h), Err(DecodeError::MalformedInput));
}

#[test]
fn make_u16_exact_values() {
    assert_eq!(make_u16(&[0x34, 0x12], true), 0x1234);
    assert_eq!(make_u16(&[0x34, 0x12], false), 0x3412);
}

#[test]
fn make_u32_exact_values() {
    assert_eq!(make_u32(&[0x78, 0x56, 0x34, 0x12], true), 0x12345678);
    assert_eq!(make_u32(&[0x78, 0x56, 0x34, 0x12], false), 0x78563412);
}

#[test]
fn make_u64_exact_values() {
    let bytes = [0xEF, 0xCD, 0xAB, 0x89, 0x67, 0x45, 0x23, 0x01];
    assert_eq!(make_u64(&bytes, true), 0x0123456789ABCDEF);
    assert_eq!(make_u64(&bytes, false), 0xEFCDAB8967452301);
}

#[test]
fn target_abi_table() {
    assert_eq!(TargetABI::new(0x00), Some(TargetABI::SystemV));
    assert_eq!(TargetABI::new(0x03), Some(TargetABI::Linux));
    assert_eq!(TargetABI::new(0x11), Some(TargetABI::CloudABI));
    assert_eq!(TargetABI::new(0x05), None);
    assert_eq!(TargetABI::new(0x12), None);
}

#[test]
fn object_file_type_table() {
    assert_eq!(ObjectFileType::new(0x0000), Some(ObjectFileType::NONE));
    assert_eq!(ObjectFileType::new(0x0003), Some(ObjectFileType::DYN));
    assert_eq!(ObjectFileType::new(0xFE00), Some(ObjectFileType::LOOS));
    assert_eq!(ObjectFileType::new(0xFFFF), Some(ObjectFileType::HIPROC));
    assert_eq!(ObjectFileType::new(0x0005), None);
}

#[test]
fn isa_table() {
    assert_eq!(ISA::new(0x3E), Some(ISA::x86_64));
    assert_eq!(ISA::new(0xF3), Some(ISA::RISC_V));
    assert_eq!(ISA::new(0x01), None);
}

#[test]
fn program_type_table() {
    assert_eq!(ProgramType::new(0), Some(ProgramType::Null));
    assert_eq!(ProgramType::new(7), Some(ProgramType::Tls));
    assert_eq!(ProgramType::new(0x6000_0000), Some(ProgramType::Loos));
    assert_eq!(ProgramType::new(0x7FFF_FFFF), Some(ProgramType::Hiproc));
    assert_eq!(ProgramType::new(8), None);
    assert_eq!(ProgramType::new(0x6000_0001), None);
}

#[test]
fn inner_section_header_first_pass() {
    let mut b = header_64le(0, 0x38, 0, 0x40, 0x40, 1, 0);
    push_sh_64le(&mut b, 5, 8, 2, 0x600, 0x90, 0x10, 1, 2, 8, 0);
    let h = Header::new(&b).unwrap();
    let inner = InnerSectionHeader::new(&b, &h).unwrap();
    assert_eq!(inner.len(), 1);
    assert_eq!(inner[0].name_offset, 5);
    assert_eq!(inner[0].section_type, SectionType::NoBits);
    assert_eq!(inner[0].flags, 2);
    assert_eq!(inner[0].addr, 0x600);
    assert_eq!(inner[0].offset, 0x90);
    assert_eq!(inner[0].size, 0x10);
    assert_eq!(inner[0].link, 1);
    assert_eq!(inner[0].info, 2);
    assert_eq!(inner[0].addr_align, 8);
    assert_eq!(inner[0].entry_size, 0);
}

#[test]
fn full_decode_p6_scenario() {
    let mut b = header_64le(0x40, 0x38, 1, 0, 0x40, 0, 0);
    push_ph_64le(&mut b, 1, 0b101, 0, 0x400000, 0x400000, 0x78, 0x78, 0x1000);
    put_u64(&mut b, 0x18, 0x40_1000);
    let elf = ELF::new(b.clone()).unwrap();
    assert_eq!(elf.header.elf_class, Class::ELF64);
    assert_eq!(elf.header.endian, Endian::Little);
    assert_eq!(elf.header.target_abi, TargetABI::SystemV);
    assert_eq!(elf.header.object_type, ObjectFileType::EXEC);
    assert_eq!(elf.header.target_isa, ISA::x86_64);
    assert_eq!(elf.header.entry_point, 0x40_1000);
    assert_eq!(elf.program_headers.len(), 1);
    assert_eq!(elf.data, b);
}
