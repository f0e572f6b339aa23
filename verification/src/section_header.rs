use vstd::prelude::*;
use vstd::slice::{slice_subrange, slice_to_vec};
use vstd::utf8::{decode_utf8, valid_utf8};

use crate::DecodeError;
use crate::bytes::{read_u32, read_u64, read_u32_at, read_u64_at};
use crate::header::{Class, Endian, Header};

verus! {

/// Kind of a section, from the 32-bit field at offset 4 of each table slot.
/// Values inside one of the three reserved ranges are kept as the range's
/// variant carrying the offset within that range.
#[derive(Clone, Copy, Debug, PartialEq, Eq, Structural)]
pub enum SectionType {
    Null,
    ProgBits,
    SymTab,
    StrTab,
    Rela,
    Hash,
    Dynamic,
    Note,
    NoBits,
    Rel,
    ShLib,
    DynSym,
    InitArray,
    FiniArray,
    PreinitArray,
    Group,
    SymTabSHNDX,
    Num,
    Loos(u32),
    LoProc(u32),
    LoUser(u32),
}

/// The section kind named by the 32-bit type field: one of the fixed named
/// values, or a reserved-range variant carrying the offset within its
/// 0x1000_0000-sized range; `None` on a value in no recognized range.
pub open spec fn spec_section_type(value: u32) -> Option<SectionType> {
    if value == 0x0000_0000 {
        Some(SectionType::Null)
    } else if value == 0x0000_0001 {
        Some(SectionType::ProgBits)
    } else if value == 0x0000_0002 {
        Some(SectionType::SymTab)
    } else if value == 0x0000_0003 {
        Some(SectionType::StrTab)
    } else if value == 0x0000_0004 {
        Some(SectionType::Rela)
    } else if value == 0x0000_0005 {
        Some(SectionType::Hash)
    } else if value == 0x0000_0006 {
        Some(SectionType::Dynamic)
    } else if value == 0x0000_0007 {
        Some(SectionType::Note)
    } else if value == 0x0000_0008 {
        Some(SectionType::NoBits)
    } else if value == 0x0000_0009 {
        Some(SectionType::Rel)
    } else if value == 0x0000_000A {
        Some(SectionType::ShLib)
    } else if value == 0x0000_000B {
        Some(SectionType::DynSym)
    } else if value == 0x0000_000E {
        Some(SectionType::InitArray)
    } else if value == 0x0000_000F {
        Some(SectionType::FiniArray)
    } else if value == 0x0000_0010 {
        Some(SectionType::PreinitArray)
    } else if value == 0x0000_0011 {
        Some(SectionType::Group)
    } else if value == 0x0000_0012 {
        Some(SectionType::SymTabSHNDX)
    } else if value == 0x0000_0013 {
        Some(SectionType::Num)
    } else if 0x6000_0000 <= value && value < 0x7000_0000 {
        Some(SectionType::Loos((value - 0x6000_0000) as u32))
    } else if 0x7000_0000 <= value && value < 0x8000_0000 {
        Some(SectionType::LoProc((value - 0x7000_0000) as u32))
    } else if 0x8000_0000 <= value && value < 0x9000_0000 {
        Some(SectionType::LoUser((value - 0x8000_0000) as u32))
    } else {
        None
    }
}

impl SectionType {
    /// Maps the 32-bit section-type field to its kind; `None` on every value
    /// outside the named set and the three reserved ranges.
    pub fn new(value: u32) -> (r: Option<SectionType>)
        ensures
            r == spec_section_type(value),
    {
        if value == 0x0000_0000 {
            Some(SectionType::Null)
        } else if value == 0x0000_0001 {
            Some(SectionType::ProgBits)
        } else if value == 0x0000_0002 {
            Some(SectionType::SymTab)
        } else if value == 0x0000_0003 {
            Some(SectionType::StrTab)
        } else if value == 0x0000_0004 {
            Some(SectionType::Rela)
        } else if value == 0x0000_0005 {
            Some(SectionType::Hash)
        } else if value == 0x0000_0006 {
            Some(SectionType::Dynamic)
        } else if value == 0x0000_0007 {
            Some(SectionType::Note)
        } else if value == 0x0000_0008 {
            Some(SectionType::NoBits)
        } else if value == 0x0000_0009 {
            Some(SectionType::Rel)
        } else if value == 0x0000_000A {
            Some(SectionType::ShLib)
        } else if value == 0x0000_000B {
            Some(SectionType::DynSym)
        } else if value == 0x0000_000E {
            Some(SectionType::InitArray)
        } else if value == 0x0000_000F {
            Some(SectionType::FiniArray)
        } else if value == 0x0000_0010 {
            Some(SectionType::PreinitArray)
        } else if value == 0x0000_0011 {
            Some(SectionType::Group)
        } else if value == 0x0000_0012 {
            Some(SectionType::SymTabSHNDX)
        } else if value == 0x0000_0013 {
            Some(SectionType::Num)
        } else if 0x6000_0000 <= value && value < 0x7000_0000 {
            Some(SectionType::Loos(value - 0x6000_0000))
        } else if 0x7000_0000 <= value && value < 0x8000_0000 {
            Some(SectionType::LoProc(value - 0x7000_0000))
        } else if 0x8000_0000 <= value && value < 0x9000_0000 {
            Some(SectionType::LoUser(value - 0x8000_0000))
        } else {
            None
        }
    }
}

/// One raw section-header table slot, before its name is resolved.
/// Address-sized fields are held as 64-bit integers whatever the class.
#[derive(Clone, Copy, Debug, PartialEq, Eq, Structural)]
pub struct InnerSectionHeader {
    pub name_offset: u32,
    pub section_type: SectionType,
    pub flags: u64,
    pub addr: u64,
    pub offset: u64,
    pub size: u64,
    pub link: u32,
    pub info: u32,
    pub addr_align: u64,
    pub entry_size: u64,
}

/// A raw slot together with its name, resolved from the string-table section.
#[derive(Clone, Debug, PartialEq, Eq)]
pub struct SectionHeader {
    pub name: String,
    pub inner: InnerSectionHeader,
}

/// Length in bytes of one slot's fixed layout: 0x28 for a 32-bit file,
/// 0x40 for a 64-bit one.
pub open spec fn sh_entry_len(c: Class) -> int {
    if c is ELF32 {
        0x28
    } else {
        0x40
    }
}

/// File offset of table slot `i`: the table's offset plus `i` strides of the
/// header-declared entry size.
pub open spec fn sh_slot_base(h: Header, i: int) -> int {
    h.section_header_offset + i * h.section_header_size
}

/// The raw slot whose fixed layout starts at byte offset `base`. The name
/// offset, type, link and info fields are 32 bits wide under both classes;
/// the remaining fields are address-sized.
pub open spec fn spec_inner_section_header_at(b: Seq<u8>, h: Header, base: int) -> InnerSectionHeader {
    let little = h.endian is Little;
    if h.elf_class is ELF32 {
        InnerSectionHeader {
            name_offset: read_u32(b, base, little),
            section_type: spec_section_type(read_u32(b, base + 0x04, little))->0,
            flags: read_u32(b, base + 0x08, little) as u64,
            addr: read_u32(b, base + 0x0C, little) as u64,
            offset: read_u32(b, base + 0x10, little) as u64,
            size: read_u32(b, base + 0x14, little) as u64,
            link: read_u32(b, base + 0x18, little),
            info: read_u32(b, base + 0x1C, little),
            addr_align: read_u32(b, base + 0x20, little) as u64,
            entry_size: read_u32(b, base + 0x24, little) as u64,
        }
    } else {
        InnerSectionHeader {
            name_offset: read_u32(b, base, little),
            section_type: spec_section_type(read_u32(b, base + 0x04, little))->0,
            flags: read_u64(b, base + 0x08, little),
            addr: read_u64(b, base + 0x10, little),
            offset: read_u64(b, base + 0x18, little),
            size: read_u64(b, base + 0x20, little),
            link: read_u32(b, base + 0x28, little),
            info: read_u32(b, base + 0x2C, little),
            addr_align: read_u64(b, base + 0x30, little),
            entry_size: read_u64(b, base + 0x38, little),
        }
    }
}

/// Raw table slot `i`, located by the header's offset and entry-size fields.
pub open spec fn spec_inner_section_header(b: Seq<u8>, h: Header, i: int) -> InnerSectionHeader {
    spec_inner_section_header_at(b, h, sh_slot_base(h, i))
}

/// A raw slot decodes exactly when its whole fixed layout lies inside the
/// buffer and its section-type field carries a recognized value.
pub open spec fn sh_slot_valid(b: Seq<u8>, h: Header, i: int) -> bool {
    &&& sh_slot_base(h, i) + sh_entry_len(h.elf_class) <= b.len()
    &&& spec_section_type(read_u32(b, sh_slot_base(h, i) + 0x04, h.endian is Little)) is Some
}

/// The first pass over the table succeeds exactly when each of the
/// header-declared number of raw slots decodes.
pub open spec fn sh_raw_table_valid(b: Seq<u8>, h: Header) -> bool {
    forall|i: int| 0 <= i < h.section_header_number ==> sh_slot_valid(b, h, i)
}

/// Position of the first zero byte of `b` at or after `start`; `b.len()` when
/// no byte from `start` on is zero, or when `start` lies outside the buffer.
pub open spec fn str_end(b: Seq<u8>, start: int) -> int
    decreases b.len() - start,
{
    if start < 0 || start >= b.len() {
        b.len() as int
    } else if b[start] == 0 {
        start
    } else {
        str_end(b, start + 1)
    }
}

/// The null-terminated byte run of `b` starting at `start`, terminator excluded.
pub open spec fn name_bytes(b: Seq<u8>, start: int) -> Seq<u8> {
    b.subrange(start, str_end(b, start))
}

/// A name resolves exactly when a terminating zero byte exists inside the
/// buffer (in particular, `start` itself lies inside the buffer) and the
/// byte run before it is valid UTF-8.
pub open spec fn section_name_valid(b: Seq<u8>, start: int) -> bool {
    &&& 0 <= start
    &&& str_end(b, start) < b.len()
    &&& valid_utf8(name_bytes(b, start))
}

/// The characters of the name starting at `start`.
pub open spec fn spec_section_name(b: Seq<u8>, start: int) -> Seq<char> {
    decode_utf8(name_bytes(b, start))
}

/// File offset of slot `i`'s name: the offset of the string-table section
/// that the header's index field designates, plus the slot's raw name offset.
pub open spec fn spec_name_start(b: Seq<u8>, h: Header, i: int) -> int {
    spec_inner_section_header(b, h, h.section_name_table_entry as int).offset
        + spec_inner_section_header(b, h, i).name_offset
}

/// The whole two-pass decode succeeds exactly when every raw slot decodes
/// and, unless the table is empty, the header's string-table index names a
/// slot and every slot's name resolves.
pub open spec fn section_table_valid(b: Seq<u8>, h: Header) -> bool {
    &&& sh_raw_table_valid(b, h)
    &&& (h.section_header_number > 0 ==> {
        &&& h.section_name_table_entry < h.section_header_number
        &&& forall|i: int|
            0 <= i < h.section_header_number ==> section_name_valid(b, spec_name_start(b, h, i))
    })
}

/// Law: a section-header table whose declared count is zero decodes, to the
/// empty sequence, whatever the buffer holds: both passes are vacuous, and
/// the string-table index is not consulted.
pub proof fn lemma_empty_section_table_valid(b: Seq<u8>, h: Header)
    requires
        h.section_header_number == 0,
    ensures
        section_table_valid(b, h),
{
}

proof fn lemma_str_end_at(b: Seq<u8>, start: int, k: int)
    requires
        0 <= start <= k <= b.len(),
        forall|j: int| start <= j < k ==> b[j] != 0,
        k == b.len() || b[k] == 0,
    ensures
        str_end(b, start) == k,
    decreases k - start,
{
    if start < k {
        lemma_str_end_at(b, start + 1, k);
    }
}

/// Position of the first zero byte of `binary` at or after `start`, or the
/// buffer's length when there is none.
fn find_terminator(binary: &Vec<u8>, start: usize) -> (r: usize)
    requires
        start <= binary@.len(),
    ensures
        r == str_end(binary@, start as int),
        start <= r <= binary@.len(),
{
    let len = binary.len();
    let mut i = start;
    while i < len
        invariant
            start <= i <= len,
            len == binary@.len(),
            forall|j: int| start <= j < i ==> binary@[j] != 0,
        decreases len - i,
    {
        if binary[i] == 0 {
            proof {
                lemma_str_end_at(binary@, start as int, i as int);
            }
            return i;
        }
        i = i + 1;
    }
    proof {
        lemma_str_end_at(binary@, start as int, len as int);
    }
    len
}

/// Relies on String::from_utf8: it succeeds exactly on valid UTF-8 input and
/// returns the string whose characters are the input's UTF-8 decoding.
#[verifier::external_body]
fn bytes_to_string(bytes: Vec<u8>) -> (r: Option<String>)
    ensures
        r is Some <==> valid_utf8(bytes@),
        r is Some ==> r->0@ == decode_utf8(bytes@),
{
    match String::from_utf8(bytes) {
        Ok(s) => Some(s),
        Err(_) => None,
    }
}

impl InnerSectionHeader {
    /// File offset of table slot `index`, as the header locates it.
    pub fn make_entry_point(header: &Header, index: usize) -> (r: u64)
        requires
            index <= 0xFFFF,
            sh_slot_base(*header, index as int) <= u64::MAX,
        ensures
            r == sh_slot_base(*header, index as int),
    {
        proof {
            vstd::arithmetic::mul::lemma_mul_upper_bound(
                index as int,
                0xFFFF,
                header.section_header_size as int,
                0xFFFF,
            );
        }
        header.section_header_offset + (index as u64) * (header.section_header_size as u64)
    }

    /// Decodes the one raw slot whose fixed layout starts at byte offset
    /// `base`, selecting the field layout of the header's class.
    pub fn construct(binary: &Vec<u8>, header: &Header, base: usize) -> (r: Result<
        InnerSectionHeader,
        DecodeError,
    >)
        requires
            base + sh_entry_len(header.elf_class) <= binary@.len(),
        ensures
            r is Ok <==> spec_section_type(
                read_u32(binary@, base + 0x04, header.endian is Little),
            ) is Some,
            r is Ok ==> r->Ok_0 == spec_inner_section_header_at(binary@, *header, base as int),
            r is Err ==> r->Err_0 == DecodeError::MalformedInput,
    {
        proof {
            vstd::std_specs::vec::axiom_spec_len(binary);
        }
        let is_little = header.endian == Endian::Little;
        let name_offset = read_u32_at(binary, base, is_little);
        let section_type = match SectionType::new(read_u32_at(binary, base + 0x04, is_little)) {
            Some(t) => t,
            None => {
                return Err(DecodeError::MalformedInput);
            },
        };
        match header.elf_class {
            Class::ELF32 => Ok(
                InnerSectionHeader {
                    name_offset,
                    section_type,
                    flags: read_u32_at(binary, base + 0x08, is_little) as u64,
                    addr: read_u32_at(binary, base + 0x0C, is_little) as u64,
                    offset: read_u32_at(binary, base + 0x10, is_little) as u64,
                    size: read_u32_at(binary, base + 0x14, is_little) as u64,
                    link: read_u32_at(binary, base + 0x18, is_little),
                    info: read_u32_at(binary, base + 0x1C, is_little),
                    addr_align: read_u32_at(binary, base + 0x20, is_little) as u64,
                    entry_size: read_u32_at(binary, base + 0x24, is_little) as u64,
                },
            ),
            Class::ELF64 => Ok(
                InnerSectionHeader {
                    name_offset,
                    section_type,
                    flags: read_u64_at(binary, base + 0x08, is_little),
                    addr: read_u64_at(binary, base + 0x10, is_little),
                    offset: read_u64_at(binary, base + 0x18, is_little),
                    size: read_u64_at(binary, base + 0x20, is_little),
                    link: read_u32_at(binary, base + 0x28, is_little),
                    info: read_u32_at(binary, base + 0x2C, is_little),
                    addr_align: read_u64_at(binary, base + 0x30, is_little),
                    entry_size: read_u64_at(binary, base + 0x38, is_little),
                },
            ),
        }
    }

    /// First pass: decodes every raw slot of the section-header table that
    /// `header` locates. Succeeds exactly when every declared slot decodes;
    /// the result then has exactly the declared number of entries, in table
    /// order.
    pub fn new(binary: &Vec<u8>, header: &Header) -> (r: Result<
        Vec<InnerSectionHeader>,
        DecodeError,
    >)
        ensures
            r is Ok <==> sh_raw_table_valid(binary@, *header),
            r is Ok ==> r->Ok_0@.len() == header.section_header_number,
            r is Ok ==> forall|i: int|
                0 <= i < header.section_header_number ==> r->Ok_0@[i]
                    == spec_inner_section_header(binary@, *header, i),
            r is Err ==> r->Err_0 == DecodeError::MalformedInput,
    {
        let count = header.section_header_number as usize;
        let len = binary.len();
        let entry_len: u64 = match header.elf_class {
            Class::ELF32 => 0x28,
            Class::ELF64 => 0x40,
        };
        let mut result: Vec<InnerSectionHeader> = Vec::new();
        let mut index: usize = 0;
        while index < count
            invariant
                count == header.section_header_number,
                len == binary@.len(),
                entry_len == sh_entry_len(header.elf_class),
                index <= count,
                result@.len() == index,
                forall|j: int| 0 <= j < index ==> sh_slot_valid(binary@, *header, j),
                forall|j: int|
                    0 <= j < index ==> result@[j] == spec_inner_section_header(
                        binary@,
                        *header,
                        j,
                    ),
            decreases count - index,
        {
            proof {
                vstd::arithmetic::mul::lemma_mul_upper_bound(
                    index as int,
                    0xFFFF,
                    header.section_header_size as int,
                    0xFFFF,
                );
            }
            let frag: u64 = (index as u64) * (header.section_header_size as u64);
            if header.section_header_offset > len as u64 || frag + entry_len > (len as u64)
                - header.section_header_offset {
                proof {
                    assert(!sh_slot_valid(binary@, *header, index as int));
                    assert(!sh_raw_table_valid(binary@, *header));
                }
                return Err(DecodeError::MalformedInput);
            }
            let base = Self::make_entry_point(header, index) as usize;
            match Self::construct(binary, header, base) {
                Ok(inner) => {
                    result.push(inner);
                },
                Err(e) => {
                    proof {
                        assert(!sh_slot_valid(binary@, *header, index as int));
                        assert(!sh_raw_table_valid(binary@, *header));
                    }
                    return Err(e);
                },
            }
            index = index + 1;
        }
        Ok(result)
    }
}

impl SectionHeader {
    /// The section's resolved name.
    pub fn name(&self) -> (r: String)
        ensures
            r@ == self.name@,
    {
        self.name.clone()
    }

    /// The section's kind.
    pub fn section_type(&self) -> (r: SectionType)
        ensures
            r == self.inner.section_type,
    {
        self.inner.section_type
    }

    /// The section's flags bitmask.
    pub fn flags(&self) -> (r: u64)
        ensures
            r == self.inner.flags,
    {
        self.inner.flags
    }

    /// The virtual address the section is loaded at.
    pub fn target_addr(&self) -> (r: u64)
        ensures
            r == self.inner.addr,
    {
        self.inner.addr
    }

    /// The section's offset in the file.
    pub fn file_offset(&self) -> (r: u64)
        ensures
            r == self.inner.offset,
    {
        self.inner.offset
    }

    /// The section's size in bytes.
    pub fn size(&self) -> (r: u64)
        ensures
            r == self.inner.size,
    {
        self.inner.size
    }

    /// Index of an associated section.
    pub fn link(&self) -> (r: u32)
        ensures
            r == self.inner.link,
    {
        self.inner.link
    }

    /// Auxiliary type-dependent index.
    pub fn info(&self) -> (r: u32)
        ensures
            r == self.inner.info,
    {
        self.inner.info
    }

    /// The section's address alignment.
    pub fn addr_align(&self) -> (r: u64)
        ensures
            r == self.inner.addr_align,
    {
        self.inner.addr_align
    }

    /// Fixed size of the entries of a section that holds a table.
    pub fn entry_size(&self) -> (r: u64)
        ensures
            r == self.inner.entry_size,
    {
        self.inner.entry_size
    }

    /// Second pass: resolves each raw record's name from the string-table
    /// section. That section is the one the header's string-table index
    /// field designates, not the positionally last record: the last table
    /// entry need not be the string table.
    pub fn construct(binary: &Vec<u8>, header: &Header, inner_headers: Vec<InnerSectionHeader>) -> (r:
        Result<Vec<SectionHeader>, DecodeError>)
        requires
            sh_raw_table_valid(binary@, *header),
            inner_headers@.len() == header.section_header_number,
            forall|i: int|
                0 <= i < header.section_header_number ==> inner_headers@[i]
                    == spec_inner_section_header(binary@, *header, i),
        ensures
            r is Ok <==> section_table_valid(binary@, *header),
            r is Ok ==> r->Ok_0@.len() == header.section_header_number,
            r is Ok ==> forall|i: int|
                0 <= i < header.section_header_number ==> {
                    &&& r->Ok_0@[i].inner == spec_inner_section_header(binary@, *header, i)
                    &&& r->Ok_0@[i].name@ == spec_section_name(
                        binary@,
                        spec_name_start(binary@, *header, i),
                    )
                },
            r is Err ==> r->Err_0 == DecodeError::MalformedInput,
    {
        let count = inner_headers.len();
        if count == 0 {
            return Ok(Vec::new());
        }
        let ndx = header.section_name_table_entry as usize;
        if ndx >= count {
            return Err(DecodeError::MalformedInput);
        }
        let strtab_offset = inner_headers[ndx].offset;
        let len = binary.len();
        let mut result: Vec<SectionHeader> = Vec::new();
        let mut i: usize = 0;
        while i < count
            invariant
                count == header.section_header_number,
                count > 0,
                len == binary@.len(),
                inner_headers@.len() == count,
                forall|k: int|
                    0 <= k < count ==> inner_headers@[k] == spec_inner_section_header(
                        binary@,
                        *header,
                        k,
                    ),
                ndx == header.section_name_table_entry,
                ndx < count,
                strtab_offset == spec_inner_section_header(binary@, *header, ndx as int).offset,
                sh_raw_table_valid(binary@, *header),
                i <= count,
                result@.len() == i,
                forall|k: int|
                    0 <= k < i ==> section_name_valid(
                        binary@,
                        spec_name_start(binary@, *header, k),
                    ),
                forall|k: int|
                    0 <= k < i ==> {
                        &&& result@[k].inner == spec_inner_section_header(binary@, *header, k)
                        &&& result@[k].name@ == spec_section_name(
                            binary@,
                            spec_name_start(binary@, *header, k),
                        )
                    },
            decreases count - i,
        {
            let name_off = inner_headers[i].name_offset;
            if strtab_offset > len as u64 || name_off as u64 > (len as u64) - strtab_offset {
                proof {
                    assert(!section_name_valid(
                        binary@,
                        spec_name_start(binary@, *header, i as int),
                    ));
                }
                return Err(DecodeError::MalformedInput);
            }
            let start = (strtab_offset + name_off as u64) as usize;
            let end = find_terminator(binary, start);
            if end >= len {
                proof {
                    assert(!section_name_valid(
                        binary@,
                        spec_name_start(binary@, *header, i as int),
                    ));
                }
                return Err(DecodeError::MalformedInput);
            }
            let bytes = slice_to_vec(slice_subrange(binary.as_slice(), start, end));
            let name = match bytes_to_string(bytes) {
                Some(name) => name,
                None => {
                    proof {
                        assert(!section_name_valid(
                            binary@,
                            spec_name_start(binary@, *header, i as int),
                        ));
                    }
                    return Err(DecodeError::MalformedInput);
                },
            };
            result.push(SectionHeader { name, inner: inner_headers[i] });
            i = i + 1;
        }
        Ok(result)
    }

    /// Decodes the whole section-header table that `header` locates, raw
    /// records first, names second. Succeeds exactly when both passes do; an
    /// empty table decodes to an empty sequence.
    pub fn new(binary: &Vec<u8>, header: &Header) -> (r: Result<Vec<SectionHeader>, DecodeError>)
        ensures
            r is Ok <==> section_table_valid(binary@, *header),
            r is Ok ==> r->Ok_0@.len() == header.section_header_number,
            r is Ok ==> forall|i: int|
                0 <= i < header.section_header_number ==> {
                    &&& r->Ok_0@[i].inner == spec_inner_section_header(binary@, *header, i)
                    &&& r->Ok_0@[i].name@ == spec_section_name(
                        binary@,
                        spec_name_start(binary@, *header, i),
                    )
                },
            r is Err ==> r->Err_0 == DecodeError::MalformedInput,
    {
        let inner_headers = match InnerSectionHeader::new(binary, header) {
            Ok(v) => v,
            Err(e) => {
                return Err(e);
            },
        };
        Self::construct(binary, header, inner_headers)
    }
}

} // verus!
