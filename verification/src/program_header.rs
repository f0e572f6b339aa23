use vstd::prelude::*;

use crate::DecodeError;
use crate::bytes::{read_u32, read_u64, read_u32_at, read_u64_at};
use crate::header::{Class, Endian, Header};

verus! {

/// Kind of a segment, from the 32-bit field at the start of each table slot.
#[derive(Clone, Copy, Debug, PartialEq, Eq, Structural)]
pub enum ProgramType {
    Null,
    Load,
    Dynamic,
    Interp,
    Note,
    Shlib,
    Phdr,
    Tls,
    Loos,
    Hios,
    Loproc,
    Hiproc,
}

/// The segment kind named by the 32-bit type field, if recognized.
pub open spec fn spec_program_type(value: u32) -> Option<ProgramType> {
    if value == 0x0000_0000 {
        Some(ProgramType::Null)
    } else if value == 0x0000_0001 {
        Some(ProgramType::Load)
    } else if value == 0x0000_0002 {
        Some(ProgramType::Dynamic)
    } else if value == 0x0000_0003 {
        Some(ProgramType::Interp)
    } else if value == 0x0000_0004 {
        Some(ProgramType::Note)
    } else if value == 0x0000_0005 {
        Some(ProgramType::Shlib)
    } else if value == 0x0000_0006 {
        Some(ProgramType::Phdr)
    } else if value == 0x0000_0007 {
        Some(ProgramType::Tls)
    } else if value == 0x6000_0000 {
        Some(ProgramType::Loos)
    } else if value == 0x6FFF_FFFF {
        Some(ProgramType::Hios)
    } else if value == 0x7000_0000 {
        Some(ProgramType::Loproc)
    } else if value == 0x7FFF_FFFF {
        Some(ProgramType::Hiproc)
    } else {
        None
    }
}

impl ProgramType {
    /// Maps the 32-bit segment-type field to its kind; `None` on every
    /// unrecognized value.
    pub fn new(value: u32) -> (r: Option<ProgramType>)
        ensures
            r == spec_program_type(value),
    {
        match value {
            0x0000_0000 => Some(ProgramType::Null),
            0x0000_0001 => Some(ProgramType::Load),
            0x0000_0002 => Some(ProgramType::Dynamic),
            0x0000_0003 => Some(ProgramType::Interp),
            0x0000_0004 => Some(ProgramType::Note),
            0x0000_0005 => Some(ProgramType::Shlib),
            0x0000_0006 => Some(ProgramType::Phdr),
            0x0000_0007 => Some(ProgramType::Tls),
            0x6000_0000 => Some(ProgramType::Loos),
            0x6FFF_FFFF => Some(ProgramType::Hios),
            0x7000_0000 => Some(ProgramType::Loproc),
            0x7FFF_FFFF => Some(ProgramType::Hiproc),
            _ => None,
        }
    }
}

/// One decoded program-header table slot. Address-sized fields are held as
/// 64-bit integers whatever the class.
#[derive(Clone, Copy, Debug, PartialEq, Eq, Structural)]
pub struct ProgramHeader {
    pub program_type: ProgramType,
    pub offset: u64,
    pub vaddr: u64,
    pub paddr: u64,
    pub file_size: u64,
    pub memory_size: u64,
    pub flags: u32,
    pub align: u64,
}

/// Length in bytes of one slot's fixed layout: 0x20 for a 32-bit file,
/// 0x38 for a 64-bit one.
pub open spec fn ph_entry_len(c: Class) -> int {
    if c is ELF32 {
        0x20
    } else {
        0x38
    }
}

/// File offset of table slot `i`: the table's offset plus `i` strides of the
/// header-declared entry size.
pub open spec fn ph_slot_base(h: Header, i: int) -> int {
    h.program_header_offset + i * h.program_header_size
}

/// The slot whose fixed layout starts at byte offset `base`. The two classes
/// place the fields differently: the 32-bit layout holds the flags field at
/// `base + 0x18`, the 64-bit one at `base + 0x04`.
pub open spec fn spec_program_header_at(b: Seq<u8>, h: Header, base: int) -> ProgramHeader {
    let little = h.endian is Little;
    if h.elf_class is ELF32 {
        ProgramHeader {
            program_type: spec_program_type(read_u32(b, base, little))->0,
            offset: read_u32(b, base + 0x04, little) as u64,
            vaddr: read_u32(b, base + 0x08, little) as u64,
            paddr: read_u32(b, base + 0x0C, little) as u64,
            file_size: read_u32(b, base + 0x10, little) as u64,
            memory_size: read_u32(b, base + 0x14, little) as u64,
            flags: read_u32(b, base + 0x18, little),
            align: read_u32(b, base + 0x1C, little) as u64,
        }
    } else {
        ProgramHeader {
            program_type: spec_program_type(read_u32(b, base, little))->0,
            flags: read_u32(b, base + 0x04, little),
            offset: read_u64(b, base + 0x08, little),
            vaddr: read_u64(b, base + 0x10, little),
            paddr: read_u64(b, base + 0x18, little),
            file_size: read_u64(b, base + 0x20, little),
            memory_size: read_u64(b, base + 0x28, little),
            align: read_u64(b, base + 0x30, little),
        }
    }
}

/// Table slot `i`, located by the header's offset and entry-size fields.
pub open spec fn spec_program_header(b: Seq<u8>, h: Header, i: int) -> ProgramHeader {
    spec_program_header_at(b, h, ph_slot_base(h, i))
}

/// A slot decodes exactly when its whole fixed layout lies inside the buffer
/// and its segment-type field carries a recognized value.
pub open spec fn ph_slot_valid(b: Seq<u8>, h: Header, i: int) -> bool {
    &&& ph_slot_base(h, i) + ph_entry_len(h.elf_class) <= b.len()
    &&& spec_program_type(read_u32(b, ph_slot_base(h, i), h.endian is Little)) is Some
}

/// The whole table decodes exactly when each of the header-declared number of
/// slots decodes; one bad slot rejects the table whole.
pub open spec fn ph_table_valid(b: Seq<u8>, h: Header) -> bool {
    forall|i: int| 0 <= i < h.program_header_number ==> ph_slot_valid(b, h, i)
}

impl ProgramHeader {
    /// Decodes the one slot whose fixed layout starts at byte offset `base`,
    /// selecting the field layout of the header's class.
    pub fn construct(binary: &Vec<u8>, header: &Header, base: usize) -> (r: Result<
        ProgramHeader,
        DecodeError,
    >)
        requires
            base + ph_entry_len(header.elf_class) <= binary@.len(),
        ensures
            r is Ok <==> spec_program_type(
                read_u32(binary@, base as int, header.endian is Little),
            ) is Some,
            r is Ok ==> r->Ok_0 == spec_program_header_at(binary@, *header, base as int),
            r is Err ==> r->Err_0 == DecodeError::MalformedInput,
    {
        proof {
            vstd::std_specs::vec::axiom_spec_len(binary);
        }
        let is_little = header.endian == Endian::Little;
        let program_type = match ProgramType::new(read_u32_at(binary, base, is_little)) {
            Some(t) => t,
            None => {
                return Err(DecodeError::MalformedInput);
            },
        };
        match header.elf_class {
            Class::ELF32 => Ok(
                ProgramHeader {
                    program_type,
                    offset: read_u32_at(binary, base + 0x04, is_little) as u64,
                    vaddr: read_u32_at(binary, base + 0x08, is_little) as u64,
                    paddr: read_u32_at(binary, base + 0x0C, is_little) as u64,
                    file_size: read_u32_at(binary, base + 0x10, is_little) as u64,
                    memory_size: read_u32_at(binary, base + 0x14, is_little) as u64,
                    flags: read_u32_at(binary, base + 0x18, is_little),
                    align: read_u32_at(binary, base + 0x1C, is_little) as u64,
                },
            ),
            Class::ELF64 => Ok(
                ProgramHeader {
                    program_type,
                    flags: read_u32_at(binary, base + 0x04, is_little),
                    offset: read_u64_at(binary, base + 0x08, is_little),
                    vaddr: read_u64_at(binary, base + 0x10, is_little),
                    paddr: read_u64_at(binary, base + 0x18, is_little),
                    file_size: read_u64_at(binary, base + 0x20, is_little),
                    memory_size: read_u64_at(binary, base + 0x28, is_little),
                    align: read_u64_at(binary, base + 0x30, is_little),
                },
            ),
        }
    }

    /// Decodes the whole program-header table that `header` locates. Succeeds
    /// exactly when every declared slot decodes; the result then has exactly
    /// the declared number of entries, in table order.
    pub fn new(binary: &Vec<u8>, header: &Header) -> (r: Result<Vec<ProgramHeader>, DecodeError>)
        ensures
            r is Ok <==> ph_table_valid(binary@, *header),
            r is Ok ==> r->Ok_0@.len() == header.program_header_number,
            r is Ok ==> forall|i: int|
                0 <= i < header.program_header_number ==> r->Ok_0@[i] == spec_program_header(
                    binary@,
                    *header,
                    i,
                ),
            r is Err ==> r->Err_0 == DecodeError::MalformedInput,
    {
        let count = header.program_header_number as usize;
        let len = binary.len();
        let entry_len: u64 = match header.elf_class {
            Class::ELF32 => 0x20,
            Class::ELF64 => 0x38,
        };
        let mut result: Vec<ProgramHeader> = Vec::new();
        let mut index: usize = 0;
        while index < count
            invariant
                count == header.program_header_number,
                len == binary@.len(),
                entry_len == ph_entry_len(header.elf_class),
                index <= count,
                result@.len() == index,
                forall|j: int| 0 <= j < index ==> ph_slot_valid(binary@, *header, j),
                forall|j: int|
                    0 <= j < index ==> result@[j] == spec_program_header(binary@, *header, j),
            decreases count - index,
        {
            proof {
                vstd::arithmetic::mul::lemma_mul_upper_bound(
                    index as int,
                    0xFFFF,
                    header.program_header_size as int,
                    0xFFFF,
                );
            }
            let frag: u64 = (index as u64) * (header.program_header_size as u64);
            if header.program_header_offset > len as u64 || frag + entry_len > (len as u64)
                - header.program_header_offset {
                proof {
                    assert(!ph_slot_valid(binary@, *header, index as int));
                    assert(!ph_table_valid(binary@, *header));
                }
                return Err(DecodeError::MalformedInput);
            }
            let base = (header.program_header_offset + frag) as usize;
            match Self::construct(binary, header, base) {
                Ok(ph) => {
                    result.push(ph);
                },
                Err(e) => {
                    proof {
                        assert(!ph_slot_valid(binary@, *header, index as int));
                        assert(!ph_table_valid(binary@, *header));
                    }
                    return Err(e);
                },
            }
            index = index + 1;
        }
        Ok(result)
    }
}

} // verus!
