use vstd::prelude::*;
use vstd::bytes::{spec_u16_from_le_bytes, spec_u32_from_le_bytes, spec_u64_from_le_bytes};
use vstd::bytes::{spec_u16_to_le_bytes, spec_u32_to_le_bytes, spec_u64_to_le_bytes};
use vstd::bytes::{u16_to_le_bytes, u32_to_le_bytes, u64_to_le_bytes};
use vstd::bytes::{
    lemma_auto_spec_u16_to_from_le_bytes,
    lemma_auto_spec_u32_to_from_le_bytes,
    lemma_auto_spec_u64_to_from_le_bytes,
};

use crate::DecodeError;
use crate::bytes::{read_u16, read_u32, read_u64, read_u16_at, read_u32_at, read_u64_at};

verus! {

/// Word-size category of the file: every address, offset and size field of the
/// tables is 4 bytes wide under `ELF32` and 8 bytes wide under `ELF64`.
#[derive(Clone, Copy, Debug, PartialEq, Eq, Structural)]
pub enum Class {
    ELF32,
    ELF64,
}

/// Byte order of every multi-byte field after the identification bytes.
#[derive(Clone, Copy, Debug, PartialEq, Eq, Structural)]
pub enum Endian {
    Little,
    Big,
}

/// Target application binary interface, from the identification byte at offset 0x7.
#[derive(Clone, Copy, Debug, PartialEq, Eq, Structural)]
#[allow(non_camel_case_types)]
pub enum TargetABI {
    SystemV,
    HP_UX,
    NetBSD,
    Linux,
    GNUHard,
    Solaris,
    AIX,
    IRIX,
    FreeBSD,
    Tru64,
    NovellModestro,
    OpenBSD,
    OpenVMS,
    NonStopKernel,
    AROS,
    FenixOS,
    CloudABI,
}

/// Kind of object file, from the 16-bit field at offset 0x10.
#[derive(Clone, Copy, Debug, PartialEq, Eq, Structural)]
pub enum ObjectFileType {
    NONE,
    REL,
    EXEC,
    DYN,
    CORE,
    LOOS,
    HIOS,
    LOPROC,
    HIPROC,
}

/// Target instruction set, from the 16-bit field at offset 0x12.
#[derive(Clone, Copy, Debug, PartialEq, Eq, Structural)]
#[allow(non_camel_case_types)]
pub enum ISA {
    NONE,
    SPARC,
    x86,
    MIPS,
    PowerPC,
    S390,
    ARM,
    SuperH,
    IA_64,
    x86_64,
    AArch64,
    RISC_V,
}

/// The class selector recognized from the identification byte at offset 0x4,
/// if the byte names one of the two known classes.
pub open spec fn spec_class(value: u8) -> Option<Class> {
    if value == 1 {
        Some(Class::ELF32)
    } else if value == 2 {
        Some(Class::ELF64)
    } else {
        None
    }
}

/// The byte order recognized from the identification byte at offset 0x5,
/// if the byte names one of the two known orders.
pub open spec fn spec_endian(value: u8) -> Option<Endian> {
    if value == 1 {
        Some(Endian::Little)
    } else if value == 2 {
        Some(Endian::Big)
    } else {
        None
    }
}

/// The ABI named by an identification byte, if it is one of the recognized values.
pub open spec fn spec_target_abi(value: u8) -> Option<TargetABI> {
    if value == 0x00 {
        Some(TargetABI::SystemV)
    } else if value == 0x01 {
        Some(TargetABI::HP_UX)
    } else if value == 0x02 {
        Some(TargetABI::NetBSD)
    } else if value == 0x03 {
        Some(TargetABI::Linux)
    } else if value == 0x04 {
        Some(TargetABI::GNUHard)
    } else if value == 0x06 {
        Some(TargetABI::Solaris)
    } else if value == 0x07 {
        Some(TargetABI::AIX)
    } else if value == 0x08 {
        Some(TargetABI::IRIX)
    } else if value == 0x09 {
        Some(TargetABI::FreeBSD)
    } else if value == 0x0A {
        Some(TargetABI::Tru64)
    } else if value == 0x0B {
        Some(TargetABI::NovellModestro)
    } else if value == 0x0C {
        Some(TargetABI::OpenBSD)
    } else if value == 0x0D {
        Some(TargetABI::OpenVMS)
    } else if value == 0x0E {
        Some(TargetABI::NonStopKernel)
    } else if value == 0x0F {
        Some(TargetABI::AROS)
    } else if value == 0x10 {
        Some(TargetABI::FenixOS)
    } else if value == 0x11 {
        Some(TargetABI::CloudABI)
    } else {
        None
    }
}

/// The object-file kind named by the 16-bit type field, if recognized.
pub open spec fn spec_object_file_type(value: u16) -> Option<ObjectFileType> {
    if value == 0x0000 {
        Some(ObjectFileType::NONE)
    } else if value == 0x0001 {
        Some(ObjectFileType::REL)
    } else if value == 0x0002 {
        Some(ObjectFileType::EXEC)
    } else if value == 0x0003 {
        Some(ObjectFileType::DYN)
    } else if value == 0x0004 {
        Some(ObjectFileType::CORE)
    } else if value == 0xFE00 {
        Some(ObjectFileType::LOOS)
    } else if value == 0xFEFF {
        Some(ObjectFileType::HIOS)
    } else if value == 0xFF00 {
        Some(ObjectFileType::LOPROC)
    } else if value == 0xFFFF {
        Some(ObjectFileType::HIPROC)
    } else {
        None
    }
}

/// The instruction set named by the 16-bit machine field, if recognized.
pub open spec fn spec_isa(value: u16) -> Option<ISA> {
    if value == 0x00 {
        Some(ISA::NONE)
    } else if value == 0x02 {
        Some(ISA::SPARC)
    } else if value == 0x03 {
        Some(ISA::x86)
    } else if value == 0x08 {
        Some(ISA::MIPS)
    } else if value == 0x14 {
        Some(ISA::PowerPC)
    } else if value == 0x16 {
        Some(ISA::S390)
    } else if value == 0x28 {
        Some(ISA::ARM)
    } else if value == 0x2A {
        Some(ISA::SuperH)
    } else if value == 0x32 {
        Some(ISA::IA_64)
    } else if value == 0x3E {
        Some(ISA::x86_64)
    } else if value == 0xB7 {
        Some(ISA::AArch64)
    } else if value == 0xF3 {
        Some(ISA::RISC_V)
    } else {
        None
    }
}

impl TargetABI {
    /// Maps an identification byte to its ABI; `None` on every unrecognized byte.
    pub fn new(value: u8) -> (r: Option<TargetABI>)
        ensures
            r == spec_target_abi(value),
    {
        match value {
            0x00 => Some(TargetABI::SystemV),
            0x01 => Some(TargetABI::HP_UX),
            0x02 => Some(TargetABI::NetBSD),
            0x03 => Some(TargetABI::Linux),
            0x04 => Some(TargetABI::GNUHard),
            0x06 => Some(TargetABI::Solaris),
            0x07 => Some(TargetABI::AIX),
            0x08 => Some(TargetABI::IRIX),
            0x09 => Some(TargetABI::FreeBSD),
            0x0A => Some(TargetABI::Tru64),
            0x0B => Some(TargetABI::NovellModestro),
            0x0C => Some(TargetABI::OpenBSD),
            0x0D => Some(TargetABI::OpenVMS),
            0x0E => Some(TargetABI::NonStopKernel),
            0x0F => Some(TargetABI::AROS),
            0x10 => Some(TargetABI::FenixOS),
            0x11 => Some(TargetABI::CloudABI),
            _ => None,
        }
    }
}

impl ObjectFileType {
    /// Maps the 16-bit type field to its kind; `None` on every unrecognized value.
    pub fn new(value: u16) -> (r: Option<ObjectFileType>)
        ensures
            r == spec_object_file_type(value),
    {
        match value {
            0x0000 => Some(ObjectFileType::NONE),
            0x0001 => Some(ObjectFileType::REL),
            0x0002 => Some(ObjectFileType::EXEC),
            0x0003 => Some(ObjectFileType::DYN),
            0x0004 => Some(ObjectFileType::CORE),
            0xFE00 => Some(ObjectFileType::LOOS),
            0xFEFF => Some(ObjectFileType::HIOS),
            0xFF00 => Some(ObjectFileType::LOPROC),
            0xFFFF => Some(ObjectFileType::HIPROC),
            _ => None,
        }
    }
}

impl ISA {
    /// Maps the 16-bit machine field to its instruction set; `None` on every
    /// unrecognized value.
    pub fn new(value: u16) -> (r: Option<ISA>)
        ensures
            r == spec_isa(value),
    {
        match value {
            0x00 => Some(ISA::NONE),
            0x02 => Some(ISA::SPARC),
            0x03 => Some(ISA::x86),
            0x08 => Some(ISA::MIPS),
            0x14 => Some(ISA::PowerPC),
            0x16 => Some(ISA::S390),
            0x28 => Some(ISA::ARM),
            0x2A => Some(ISA::SuperH),
            0x32 => Some(ISA::IA_64),
            0x3E => Some(ISA::x86_64),
            0xB7 => Some(ISA::AArch64),
            0xF3 => Some(ISA::RISC_V),
            _ => None,
        }
    }
}

/// Decoded file header. Address-sized fields are held as 64-bit integers
/// whatever the class; under `Class::ELF32` they carry 32-bit values.
#[derive(Clone, Copy, Debug, PartialEq, Eq, Structural)]
pub struct Header {
    pub elf_class: Class,
    pub endian: Endian,
    pub target_abi: TargetABI,
    pub abi_version: u8,
    pub object_type: ObjectFileType,
    pub target_isa: ISA,
    pub entry_point: u64,
    pub program_header_offset: u64,
    pub section_header_offset: u64,
    pub flags: u32,
    pub header_size: u16,
    pub program_header_size: u16,
    pub program_header_number: u16,
    pub section_header_size: u16,
    pub section_header_number: u16,
    pub section_name_table_entry: u16,
}

/// Width in bytes of an address-sized field of the given class.
pub open spec fn word_size(c: Class) -> int {
    if c is ELF32 {
        4
    } else {
        8
    }
}

/// Total length of the fixed header region: 0x34 bytes for a 32-bit file,
/// 0x40 bytes for a 64-bit one.
pub open spec fn header_len(c: Class) -> int {
    0x18 + 3 * word_size(c) + 16
}

/// An address-sized field of `b` at byte offset `off`: a 32-bit read widened
/// to 64 bits under `ELF32`, a 64-bit read under `ELF64`.
pub open spec fn read_word(b: Seq<u8>, off: int, c: Class, is_little_endian: bool) -> u64 {
    if c is ELF32 {
        read_u32(b, off, is_little_endian) as u64
    } else {
        read_u64(b, off, is_little_endian)
    }
}

/// True when `b[5]` selects little-endian (`b[5] == 2` then selects big-endian).
pub open spec fn spec_is_little(b: Seq<u8>) -> bool {
    b[5] == 1
}

/// A buffer decodes to a file header exactly when all of these hold: it is
/// long enough for the class it declares, it starts with the fixed magic
/// signature, both version bytes equal 1, and the class, endianness, ABI,
/// object-type and instruction-set fields all carry recognized values.
pub open spec fn header_valid(b: Seq<u8>) -> bool {
    &&& b.len() >= 0x18
    &&& b[0] == 0x7F
    &&& b[1] == 0x45
    &&& b[2] == 0x4C
    &&& b[3] == 0x46
    &&& spec_class(b[4]) is Some
    &&& spec_endian(b[5]) is Some
    &&& b[6] == 1
    &&& b[0x14] == 1
    &&& spec_target_abi(b[7]) is Some
    &&& spec_object_file_type(read_u16(b, 0x10, spec_is_little(b))) is Some
    &&& spec_isa(read_u16(b, 0x12, spec_is_little(b))) is Some
    &&& b.len() >= header_len(spec_class(b[4])->0)
}

/// The header that a valid buffer decodes to, field by field: identification
/// bytes first, then the 16-bit type and machine fields, then the three
/// address-sized fields starting at 0x18, then the fixed-width tail.
pub open spec fn spec_header(b: Seq<u8>) -> Header {
    let class = spec_class(b[4])->0;
    let little = spec_is_little(b);
    let w = word_size(class);
    Header {
        elf_class: class,
        endian: spec_endian(b[5])->0,
        target_abi: spec_target_abi(b[7])->0,
        abi_version: b[8],
        object_type: spec_object_file_type(read_u16(b, 0x10, little))->0,
        target_isa: spec_isa(read_u16(b, 0x12, little))->0,
        entry_point: read_word(b, 0x18, class, little),
        program_header_offset: read_word(b, 0x18 + w, class, little),
        section_header_offset: read_word(b, 0x18 + 2 * w, class, little),
        flags: read_u32(b, 0x18 + 3 * w, little),
        header_size: read_u16(b, 0x18 + 3 * w + 4, little),
        program_header_size: read_u16(b, 0x18 + 3 * w + 6, little),
        program_header_number: read_u16(b, 0x18 + 3 * w + 8, little),
        section_header_size: read_u16(b, 0x18 + 3 * w + 10, little),
        section_header_number: read_u16(b, 0x18 + 3 * w + 12, little),
        section_name_table_entry: read_u16(b, 0x18 + 3 * w + 14, little),
    }
}

/// Reads an address-sized field of `binary` at byte offset `off`.
pub fn read_word_at(binary: &Vec<u8>, off: usize, c: Class, is_little_endian: bool) -> (r: u64)
    requires
        off + word_size(c) <= binary@.len(),
    ensures
        r == read_word(binary@, off as int, c, is_little_endian),
{
    match c {
        Class::ELF32 => read_u32_at(binary, off, is_little_endian) as u64,
        Class::ELF64 => read_u64_at(binary, off, is_little_endian),
    }
}

impl Header {
    /// Probes the class byte alone, without any further validation, so that a
    /// caller can pick the word size before committing to a full decode.
    /// A buffer too short to hold the class byte reports no class.
    pub fn get_elf_class(binary: &Vec<u8>) -> (r: Option<Class>)
        ensures
            r == (if binary@.len() >= 5 {
                spec_class(binary@[4])
            } else {
                None::<Class>
            }),
    {
        if binary.len() < 5 {
            return None;
        }
        match binary[4] {
            1 => Some(Class::ELF32),
            2 => Some(Class::ELF64),
            _ => None,
        }
    }

    /// Decodes the file header. Succeeds exactly on the buffers that
    /// `header_valid` admits and then returns exactly `spec_header`; every
    /// other buffer is rejected whole, with no partially decoded header.
    pub fn new(binary: &Vec<u8>) -> (r: Result<Header, DecodeError>)
        ensures
            r is Ok <==> header_valid(binary@),
            r is Ok ==> r->Ok_0 == spec_header(binary@),
            r is Err ==> r->Err_0 == DecodeError::MalformedInput,
    {
        if binary.len() < 0x18 {
            return Err(DecodeError::MalformedInput);
        }
        if !(binary[0] == 0x7F && binary[1] == 0x45 && binary[2] == 0x4C && binary[3] == 0x46) {
            return Err(DecodeError::MalformedInput);
        }
        let elf_class = match binary[4] {
            1 => Class::ELF32,
            2 => Class::ELF64,
            _ => {
                return Err(DecodeError::MalformedInput);
            },
        };
        let endian = match binary[5] {
            1 => Endian::Little,
            2 => Endian::Big,
            _ => {
                return Err(DecodeError::MalformedInput);
            },
        };
        let is_little = binary[5] == 1;
        if binary[6] != 1 {
            return Err(DecodeError::MalformedInput);
        }
        if binary[0x14] != 1 {
            return Err(DecodeError::MalformedInput);
        }
        let target_abi = match TargetABI::new(binary[7]) {
            Some(abi) => abi,
            None => {
                return Err(DecodeError::MalformedInput);
            },
        };
        let abi_version = binary[8];
        let object_type = match ObjectFileType::new(read_u16_at(binary, 0x10, is_little)) {
            Some(t) => t,
            None => {
                return Err(DecodeError::MalformedInput);
            },
        };
        let target_isa = match ISA::new(read_u16_at(binary, 0x12, is_little)) {
            Some(isa) => isa,
            None => {
                return Err(DecodeError::MalformedInput);
            },
        };
        let w: usize = match elf_class {
            Class::ELF32 => 4,
            Class::ELF64 => 8,
        };
        if binary.len() < 0x18 + 3 * w + 16 {
            return Err(DecodeError::MalformedInput);
        }
        let entry_point = read_word_at(binary, 0x18, elf_class, is_little);
        let program_header_offset = read_word_at(binary, 0x18 + w, elf_class, is_little);
        let section_header_offset = read_word_at(binary, 0x18 + 2 * w, elf_class, is_little);
        let base = 0x18 + 3 * w;
        let flags = read_u32_at(binary, base, is_little);
        let header_size = read_u16_at(binary, base + 4, is_little);
        let program_header_size = read_u16_at(binary, base + 6, is_little);
        let program_header_number = read_u16_at(binary, base + 8, is_little);
        let section_header_size = read_u16_at(binary, base + 10, is_little);
        let section_header_number = read_u16_at(binary, base + 12, is_little);
        let section_name_table_entry = read_u16_at(binary, base + 14, is_little);
        Ok(
            Header {
                elf_class,
                endian,
                target_abi,
                abi_version,
                object_type,
                target_isa,
                entry_point,
                program_header_offset,
                section_header_offset,
                flags,
                header_size,
                program_header_size,
                program_header_number,
                section_header_size,
                section_header_number,
                section_name_table_entry,
            },
        )
    }
}

/// The identification byte that names the given ABI: the inverse of
/// `spec_target_abi` on its recognized values.
pub open spec fn spec_abi_byte(a: TargetABI) -> u8 {
    match a {
        TargetABI::SystemV => 0x00,
        TargetABI::HP_UX => 0x01,
        TargetABI::NetBSD => 0x02,
        TargetABI::Linux => 0x03,
        TargetABI::GNUHard => 0x04,
        TargetABI::Solaris => 0x06,
        TargetABI::AIX => 0x07,
        TargetABI::IRIX => 0x08,
        TargetABI::FreeBSD => 0x09,
        TargetABI::Tru64 => 0x0A,
        TargetABI::NovellModestro => 0x0B,
        TargetABI::OpenBSD => 0x0C,
        TargetABI::OpenVMS => 0x0D,
        TargetABI::NonStopKernel => 0x0E,
        TargetABI::AROS => 0x0F,
        TargetABI::FenixOS => 0x10,
        TargetABI::CloudABI => 0x11,
    }
}

/// The 16-bit field value that names the given kind: the inverse of
/// `spec_object_file_type` on its recognized values.
pub open spec fn spec_object_file_type_value(t: ObjectFileType) -> u16 {
    match t {
        ObjectFileType::NONE => 0x0000,
        ObjectFileType::REL => 0x0001,
        ObjectFileType::EXEC => 0x0002,
        ObjectFileType::DYN => 0x0003,
        ObjectFileType::CORE => 0x0004,
        ObjectFileType::LOOS => 0xFE00,
        ObjectFileType::HIOS => 0xFEFF,
        ObjectFileType::LOPROC => 0xFF00,
        ObjectFileType::HIPROC => 0xFFFF,
    }
}

/// The 16-bit field value that names the given instruction set: the inverse
/// of `spec_isa` on its recognized values.
pub open spec fn spec_isa_value(i: ISA) -> u16 {
    match i {
        ISA::NONE => 0x00,
        ISA::SPARC => 0x02,
        ISA::x86 => 0x03,
        ISA::MIPS => 0x08,
        ISA::PowerPC => 0x14,
        ISA::S390 => 0x16,
        ISA::ARM => 0x28,
        ISA::SuperH => 0x2A,
        ISA::IA_64 => 0x32,
        ISA::x86_64 => 0x3E,
        ISA::AArch64 => 0xB7,
        ISA::RISC_V => 0xF3,
    }
}

impl TargetABI {
    /// The identification byte that names this ABI.
    pub fn value(&self) -> (r: u8)
        ensures
            r == spec_abi_byte(*self),
    {
        match self {
            TargetABI::SystemV => 0x00,
            TargetABI::HP_UX => 0x01,
            TargetABI::NetBSD => 0x02,
            TargetABI::Linux => 0x03,
            TargetABI::GNUHard => 0x04,
            TargetABI::Solaris => 0x06,
            TargetABI::AIX => 0x07,
            TargetABI::IRIX => 0x08,
            TargetABI::FreeBSD => 0x09,
            TargetABI::Tru64 => 0x0A,
            TargetABI::NovellModestro => 0x0B,
            TargetABI::OpenBSD => 0x0C,
            TargetABI::OpenVMS => 0x0D,
            TargetABI::NonStopKernel => 0x0E,
            TargetABI::AROS => 0x0F,
            TargetABI::FenixOS => 0x10,
            TargetABI::CloudABI => 0x11,
        }
    }
}

impl ObjectFileType {
    /// The 16-bit field value that names this kind.
    pub fn value(&self) -> (r: u16)
        ensures
            r == spec_object_file_type_value(*self),
    {
        match self {
            ObjectFileType::NONE => 0x0000,
            ObjectFileType::REL => 0x0001,
            ObjectFileType::EXEC => 0x0002,
            ObjectFileType::DYN => 0x0003,
            ObjectFileType::CORE => 0x0004,
            ObjectFileType::LOOS => 0xFE00,
            ObjectFileType::HIOS => 0xFEFF,
            ObjectFileType::LOPROC => 0xFF00,
            ObjectFileType::HIPROC => 0xFFFF,
        }
    }
}

impl ISA {
    /// The 16-bit field value that names this instruction set.
    pub fn value(&self) -> (r: u16)
        ensures
            r == spec_isa_value(*self),
    {
        match self {
            ISA::NONE => 0x00,
            ISA::SPARC => 0x02,
            ISA::x86 => 0x03,
            ISA::MIPS => 0x08,
            ISA::PowerPC => 0x14,
            ISA::S390 => 0x16,
            ISA::ARM => 0x28,
            ISA::SuperH => 0x2A,
            ISA::IA_64 => 0x32,
            ISA::x86_64 => 0x3E,
            ISA::AArch64 => 0xB7,
            ISA::RISC_V => 0xF3,
        }
    }
}

/// The 0x40-byte header region that a 64-bit little-endian header's fields
/// encode to: the identification bytes, the type and machine fields, the
/// repeated 32-bit version, the three 8-byte address fields from 0x18 on and
/// the fixed tail, with zeros in the reserved padding bytes.
pub open spec fn spec_encode_header_64le(h: Header) -> Seq<u8> {
    seq![
        0x7Fu8,
        0x45u8,
        0x4Cu8,
        0x46u8,
        2u8,
        1u8,
        1u8,
        spec_abi_byte(h.target_abi),
        h.abi_version,
        0u8,
        0u8,
        0u8,
        0u8,
        0u8,
        0u8,
        0u8,
    ] + spec_u16_to_le_bytes(spec_object_file_type_value(h.object_type)) + spec_u16_to_le_bytes(
        spec_isa_value(h.target_isa),
    ) + seq![1u8, 0u8, 0u8, 0u8] + spec_u64_to_le_bytes(h.entry_point) + spec_u64_to_le_bytes(
        h.program_header_offset,
    ) + spec_u64_to_le_bytes(h.section_header_offset) + spec_u32_to_le_bytes(h.flags)
        + spec_u16_to_le_bytes(h.header_size) + spec_u16_to_le_bytes(h.program_header_size)
        + spec_u16_to_le_bytes(h.program_header_number) + spec_u16_to_le_bytes(
        h.section_header_size,
    ) + spec_u16_to_le_bytes(h.section_header_number) + spec_u16_to_le_bytes(
        h.section_name_table_entry,
    )
}

impl Header {
    /// Re-encodes a 64-bit little-endian header into the 0x40-byte header
    /// region it decodes from, with zeros in the reserved padding bytes.
    pub fn encode_64le(&self) -> (r: Vec<u8>)
        requires
            self.elf_class is ELF64,
            self.endian is Little,
        ensures
            r@ == spec_encode_header_64le(*self),
    {
        let mut r: Vec<u8> = Vec::new();
        r.push(0x7F);
        r.push(0x45);
        r.push(0x4C);
        r.push(0x46);
        r.push(2);
        r.push(1);
        r.push(1);
        r.push(self.target_abi.value());
        r.push(self.abi_version);
        r.push(0);
        r.push(0);
        r.push(0);
        r.push(0);
        r.push(0);
        r.push(0);
        r.push(0);
        let mut chunk = u16_to_le_bytes(self.object_type.value());
        r.append(&mut chunk);
        let mut chunk = u16_to_le_bytes(self.target_isa.value());
        r.append(&mut chunk);
        r.push(1);
        r.push(0);
        r.push(0);
        r.push(0);
        let mut chunk = u64_to_le_bytes(self.entry_point);
        r.append(&mut chunk);
        let mut chunk = u64_to_le_bytes(self.program_header_offset);
        r.append(&mut chunk);
        let mut chunk = u64_to_le_bytes(self.section_header_offset);
        r.append(&mut chunk);
        let mut chunk = u32_to_le_bytes(self.flags);
        r.append(&mut chunk);
        let mut chunk = u16_to_le_bytes(self.header_size);
        r.append(&mut chunk);
        let mut chunk = u16_to_le_bytes(self.program_header_size);
        r.append(&mut chunk);
        let mut chunk = u16_to_le_bytes(self.program_header_number);
        r.append(&mut chunk);
        let mut chunk = u16_to_le_bytes(self.section_header_size);
        r.append(&mut chunk);
        let mut chunk = u16_to_le_bytes(self.section_header_number);
        r.append(&mut chunk);
        let mut chunk = u16_to_le_bytes(self.section_name_table_entry);
        r.append(&mut chunk);
        proof {
            assert(r@ =~= spec_encode_header_64le(*self));
        }
        r
    }
}

/// Law: decoding a valid 64-bit little-endian buffer and re-encoding the
/// header's fields reproduces the buffer's header region, byte for byte,
/// whenever the reserved padding bytes (0x9 to 0xF) and the upper bytes of
/// the repeated 32-bit version field (0x15 to 0x17) are zero — the bytes no
/// header field captures, which the encoder always writes as zero.
pub proof fn lemma_header_round_trip_64le(b: Seq<u8>)
    requires
        header_valid(b),
        b[4] == 2,
        b[5] == 1,
        forall|i: int| 9 <= i < 0x10 ==> b[i] == 0,
        forall|i: int| 0x15 <= i < 0x18 ==> b[i] == 0,
    ensures
        spec_encode_header_64le(spec_header(b)) == b.subrange(0, 0x40),
{
    let h = spec_header(b);
    lemma_auto_spec_u16_to_from_le_bytes();
    lemma_auto_spec_u32_to_from_le_bytes();
    lemma_auto_spec_u64_to_from_le_bytes();
    assert(spec_object_file_type_value(h.object_type) == read_u16(b, 0x10, true));
    assert(spec_isa_value(h.target_isa) == read_u16(b, 0x12, true));
    assert(spec_abi_byte(h.target_abi) == b[7]);
    assert(spec_u16_to_le_bytes(spec_u16_from_le_bytes(b.subrange(0x10, 0x12))) == b.subrange(
        0x10,
        0x12,
    ));
    assert(spec_u16_to_le_bytes(spec_u16_from_le_bytes(b.subrange(0x12, 0x14))) == b.subrange(
        0x12,
        0x14,
    ));
    assert(spec_u64_to_le_bytes(spec_u64_from_le_bytes(b.subrange(0x18, 0x20))) == b.subrange(
        0x18,
        0x20,
    ));
    assert(spec_u64_to_le_bytes(spec_u64_from_le_bytes(b.subrange(0x20, 0x28))) == b.subrange(
        0x20,
        0x28,
    ));
    assert(spec_u64_to_le_bytes(spec_u64_from_le_bytes(b.subrange(0x28, 0x30))) == b.subrange(
        0x28,
        0x30,
    ));
    assert(spec_u32_to_le_bytes(spec_u32_from_le_bytes(b.subrange(0x30, 0x34))) == b.subrange(
        0x30,
        0x34,
    ));
    assert(spec_u16_to_le_bytes(spec_u16_from_le_bytes(b.subrange(0x34, 0x36))) == b.subrange(
        0x34,
        0x36,
    ));
    assert(spec_u16_to_le_bytes(spec_u16_from_le_bytes(b.subrange(0x36, 0x38))) == b.subrange(
        0x36,
        0x38,
    ));
    assert(spec_u16_to_le_bytes(spec_u16_from_le_bytes(b.subrange(0x38, 0x3A))) == b.subrange(
        0x38,
        0x3A,
    ));
    assert(spec_u16_to_le_bytes(spec_u16_from_le_bytes(b.subrange(0x3A, 0x3C))) == b.subrange(
        0x3A,
        0x3C,
    ));
    assert(spec_u16_to_le_bytes(spec_u16_from_le_bytes(b.subrange(0x3C, 0x3E))) == b.subrange(
        0x3C,
        0x3E,
    ));
    assert(spec_u16_to_le_bytes(spec_u16_from_le_bytes(b.subrange(0x3E, 0x40))) == b.subrange(
        0x3E,
        0x40,
    ));
    assert(spec_encode_header_64le(h) =~= b.subrange(0, 0x40));
}

} // verus!
