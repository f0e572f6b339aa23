use vstd::prelude::*;
use vstd::bytes::{spec_u16_from_le_bytes, spec_u32_from_le_bytes, spec_u64_from_le_bytes};
use vstd::bytes::{u16_from_le_bytes, u32_from_le_bytes, u64_from_le_bytes};
use vstd::slice::{slice_index_get, slice_subrange};

verus! {

/// Value of a 2-byte sequence read as an unsigned 16-bit integer in the given byte order.
pub open spec fn spec_make_u16(s: Seq<u8>, is_little_endian: bool) -> u16 {
    if is_little_endian {
        spec_u16_from_le_bytes(s)
    } else {
        spec_u16_from_le_bytes(s.reverse())
    }
}

/// Value of a 4-byte sequence read as an unsigned 32-bit integer in the given byte order.
pub open spec fn spec_make_u32(s: Seq<u8>, is_little_endian: bool) -> u32 {
    if is_little_endian {
        spec_u32_from_le_bytes(s)
    } else {
        spec_u32_from_le_bytes(s.reverse())
    }
}

/// Value of an 8-byte sequence read as an unsigned 64-bit integer in the given byte order.
pub open spec fn spec_make_u64(s: Seq<u8>, is_little_endian: bool) -> u64 {
    if is_little_endian {
        spec_u64_from_le_bytes(s)
    } else {
        spec_u64_from_le_bytes(s.reverse())
    }
}

/// The 16-bit field of `b` at byte offset `off`, in the given byte order.
pub open spec fn read_u16(b: Seq<u8>, off: int, is_little_endian: bool) -> u16 {
    spec_make_u16(b.subrange(off, off + 2), is_little_endian)
}

/// The 32-bit field of `b` at byte offset `off`, in the given byte order.
pub open spec fn read_u32(b: Seq<u8>, off: int, is_little_endian: bool) -> u32 {
    spec_make_u32(b.subrange(off, off + 4), is_little_endian)
}

/// The 64-bit field of `b` at byte offset `off`, in the given byte order.
pub open spec fn read_u64(b: Seq<u8>, off: int, is_little_endian: bool) -> u64 {
    spec_make_u64(b.subrange(off, off + 8), is_little_endian)
}

fn reverse_bytes(values: &[u8]) -> (r: Vec<u8>)
    ensures
        r@ == values@.reverse(),
{
    let n = values.len();
    let mut r: Vec<u8> = Vec::new();
    let mut i: usize = 0;
    while i < n
        invariant
            n == values@.len(),
            i <= n,
            r@.len() == i,
            forall|j: int| 0 <= j < i ==> r@[j] == values@[n - 1 - j],
        decreases n - i,
    {
        r.push(*slice_index_get(values, n - 1 - i));
        i = i + 1;
    }
    proof {
        assert(r@ =~= values@.reverse());
    }
    r
}

/// Reassembles exactly 2 bytes into a 16-bit integer, least-significant byte
/// first when `is_little_endian` holds and last otherwise.
pub fn make_u16(values: &[u8], is_little_endian: bool) -> (r: u16)
    requires
        values@.len() == 2,
    ensures
        r == spec_make_u16(values@, is_little_endian),
{
    if is_little_endian {
        u16_from_le_bytes(values)
    } else {
        let rev = reverse_bytes(values);
        u16_from_le_bytes(rev.as_slice())
    }
}

/// Reassembles exactly 4 bytes into a 32-bit integer, least-significant byte
/// first when `is_little_endian` holds and last otherwise.
pub fn make_u32(values: &[u8], is_little_endian: bool) -> (r: u32)
    requires
        values@.len() == 4,
    ensures
        r == spec_make_u32(values@, is_little_endian),
{
    if is_little_endian {
        u32_from_le_bytes(values)
    } else {
        let rev = reverse_bytes(values);
        u32_from_le_bytes(rev.as_slice())
    }
}

/// Reassembles exactly 8 bytes into a 64-bit integer, least-significant byte
/// first when `is_little_endian` holds and last otherwise.
pub fn make_u64(values: &[u8], is_little_endian: bool) -> (r: u64)
    requires
        values@.len() == 8,
    ensures
        r == spec_make_u64(values@, is_little_endian),
{
    if is_little_endian {
        u64_from_le_bytes(values)
    } else {
        let rev = reverse_bytes(values);
        u64_from_le_bytes(rev.as_slice())
    }
}

/// Reads the 16-bit field of `binary` at byte offset `off` in the given byte order.
pub fn read_u16_at(binary: &Vec<u8>, off: usize, is_little_endian: bool) -> (r: u16)
    requires
        off + 2 <= binary@.len(),
    ensures
        r == read_u16(binary@, off as int, is_little_endian),
{
    proof {
        vstd::std_specs::vec::axiom_spec_len(binary);
    }
    make_u16(slice_subrange(binary.as_slice(), off, off + 2), is_little_endian)
}

/// Reads the 32-bit field of `binary` at byte offset `off` in the given byte order.
pub fn read_u32_at(binary: &Vec<u8>, off: usize, is_little_endian: bool) -> (r: u32)
    requires
        off + 4 <= binary@.len(),
    ensures
        r == read_u32(binary@, off as int, is_little_endian),
{
    proof {
        vstd::std_specs::vec::axiom_spec_len(binary);
    }
    make_u32(slice_subrange(binary.as_slice(), off, off + 4), is_little_endian)
}

/// Reads the 64-bit field of `binary` at byte offset `off` in the given byte order.
pub fn read_u64_at(binary: &Vec<u8>, off: usize, is_little_endian: bool) -> (r: u64)
    requires
        off + 8 <= binary@.len(),
    ensures
        r == read_u64(binary@, off as int, is_little_endian),
{
    proof {
        vstd::std_specs::vec::axiom_spec_len(binary);
    }
    make_u64(slice_subrange(binary.as_slice(), off, off + 8), is_little_endian)
}

} // verus!
