pub mod bytes;
pub mod header;
pub mod program_header;
pub mod section_header;

use vstd::prelude::*;

pub use bytes::{make_u16, make_u32, make_u64};
pub use header::{Class, Endian, Header, ISA, ObjectFileType, TargetABI};
pub use program_header::{ProgramHeader, ProgramType};
pub use section_header::{InnerSectionHeader, SectionHeader, SectionType};

verus! {

/// The single failure of the decoder: the buffer is not a well-formed
/// object file (bad magic, wrong version, an unrecognized enumerated field,
/// an out-of-bounds field read, or an invalid section name).
#[derive(Clone, Copy, Debug, PartialEq, Eq, Structural)]
pub enum DecodeError {
    MalformedInput,
}

/// A fully decoded file: the header, the two tables it locates, and the raw
/// bytes the decode was made from.
#[derive(Clone, Debug, PartialEq, Eq)]
pub struct ELF {
    pub header: Header,
    pub program_headers: Vec<ProgramHeader>,
    pub section_headers: Vec<SectionHeader>,
    pub data: Vec<u8>,
}

/// A buffer decodes whole exactly when the header decodes and both tables it
/// locates decode, section names included.
pub open spec fn elf_valid(b: Seq<u8>) -> bool {
    &&& header::header_valid(b)
    &&& program_header::ph_table_valid(b, header::spec_header(b))
    &&& section_header::section_table_valid(b, header::spec_header(b))
}

impl ELF {
    /// Decodes a whole file: header, program-header table, section-header
    /// table with resolved names. Succeeds exactly on the buffers that
    /// `elf_valid` admits; any failure rejects the buffer whole, with no
    /// partial result.
    pub fn new(binary: Vec<u8>) -> (r: Result<ELF, DecodeError>)
        ensures
            r is Ok <==> elf_valid(binary@),
            r is Ok ==> {
                let h = header::spec_header(binary@);
                &&& r->Ok_0.header == h
                &&& r->Ok_0.program_headers@.len() == h.program_header_number
                &&& forall|i: int|
                    0 <= i < h.program_header_number ==> r->Ok_0.program_headers@[i]
                        == program_header::spec_program_header(binary@, h, i)
                &&& r->Ok_0.section_headers@.len() == h.section_header_number
                &&& forall|i: int|
                    0 <= i < h.section_header_number ==> {
                        &&& r->Ok_0.section_headers@[i].inner
                            == section_header::spec_inner_section_header(binary@, h, i)
                        &&& r->Ok_0.section_headers@[i].name@ == section_header::spec_section_name(
                            binary@,
                            section_header::spec_name_start(binary@, h, i),
                        )
                    }
                &&& r->Ok_0.data@ == binary@
            },
            r is Err ==> r->Err_0 == DecodeError::MalformedInput,
    {
        let header = match Header::new(&binary) {
            Ok(h) => h,
            Err(e) => {
                return Err(e);
            },
        };
        let program_headers = match ProgramHeader::new(&binary, &header) {
            Ok(v) => v,
            Err(e) => {
                return Err(e);
            },
        };
        let section_headers = match SectionHeader::new(&binary, &header) {
            Ok(v) => v,
            Err(e) => {
                return Err(e);
            },
        };
        Ok(ELF { header, program_headers, section_headers, data: binary })
    }
}

/// Law: a buffer that does not begin with the four fixed magic bytes decodes
/// to nothing, whatever its remaining content.
pub proof fn lemma_bad_magic_fails(b: Seq<u8>)
    requires
        b.len() < 4 || b[0] != 0x7F || b[1] != 0x45 || b[2] != 0x4C || b[3] != 0x46,
    ensures
        !header::header_valid(b),
        !elf_valid(b),
{
}

} // verus!
