//! Primitive decoders: fixed-width little-endian integers, fixed-size byte
//! runs, and the lenient text conversion used for in-stream strings.

use vstd::prelude::*;
use vstd::bytes::{spec_u16_from_le_bytes, spec_u32_from_le_bytes, u16_from_le_bytes,
    u32_from_le_bytes};
use vstd::slice::{slice_index_get, slice_subrange, slice_to_vec};

use crate::err::{ErrorKind, ParseError, SpecParse, failed_to, parsed_to};

verus! {

/// What `String::from_utf8_lossy` returns on a given byte run: a function of
/// the bytes alone, left abstract here.
pub uninterp spec fn lossy_of(bytes: Seq<u8>) -> Seq<char>;

/// Relies on `String::from_utf8_lossy`: decodes bytes as UTF-8, replacing
/// invalid sequences instead of failing; the result depends on the bytes
/// alone, and an empty input yields an empty string.
#[verifier::external_body]
pub(crate) fn lossy_string(bytes: &[u8]) -> (r: String)
    ensures
        r@ == lossy_of(bytes@),
        bytes@.len() == 0 ==> r@.len() == 0,
{
    String::from_utf8_lossy(bytes).into_owned()
}

/// The byte at position `p`, when the buffer reaches that far.
pub open spec fn spec_u8_at(b: Seq<u8>, p: int) -> SpecParse<u8> {
    if 0 <= p && p + 1 <= b.len() {
        SpecParse::Parsed { v: b[p], end: p + 1 }
    } else {
        SpecParse::Failed { kind: ErrorKind::StructuralUnderrun, at: p }
    }
}

/// The little-endian u16 at position `p`.
pub open spec fn spec_u16_at(b: Seq<u8>, p: int) -> SpecParse<u16> {
    if 0 <= p && p + 2 <= b.len() {
        SpecParse::Parsed { v: spec_u16_from_le_bytes(b.subrange(p, p + 2)), end: p + 2 }
    } else {
        SpecParse::Failed { kind: ErrorKind::StructuralUnderrun, at: p }
    }
}

/// The little-endian u32 at position `p`.
pub open spec fn spec_u32_at(b: Seq<u8>, p: int) -> SpecParse<u32> {
    if 0 <= p && p + 4 <= b.len() {
        SpecParse::Parsed { v: spec_u32_from_le_bytes(b.subrange(p, p + 4)), end: p + 4 }
    } else {
        SpecParse::Failed { kind: ErrorKind::StructuralUnderrun, at: p }
    }
}

/// The little-endian i32 at position `p`: the u32 there, reinterpreted.
pub open spec fn spec_i32_at(b: Seq<u8>, p: int) -> SpecParse<i32> {
    match spec_u32_at(b, p) {
        SpecParse::Parsed { v, end } => SpecParse::Parsed { v: v as i32, end },
        SpecParse::Failed { kind, at } => SpecParse::Failed { kind, at },
    }
}

/// The `n` bytes starting at position `p`.
pub open spec fn spec_bytes_at(b: Seq<u8>, p: int, n: int) -> SpecParse<Seq<u8>> {
    if 0 <= p && 0 <= n && p + n <= b.len() {
        SpecParse::Parsed { v: b.subrange(p, p + n), end: p + n }
    } else {
        SpecParse::Failed { kind: ErrorKind::StructuralUnderrun, at: p }
    }
}

/// Reads one byte.
pub fn read_u8(input: &[u8], pos: usize) -> (r: Result<(u8, usize), ParseError>)
    ensures
        match r {
            Ok((v, end)) => parsed_to(spec_u8_at(input@, pos as int), v, end) && end == pos + 1,
            Err(e) => failed_to(spec_u8_at(input@, pos as int), e),
        },
{
    if pos < input.len() {
        let v = *slice_index_get(input, pos);
        Ok((v, pos + 1))
    } else {
        Err(ParseError { kind: ErrorKind::StructuralUnderrun, offset: pos })
    }
}

/// Reads a little-endian u16.
pub fn read_u16(input: &[u8], pos: usize) -> (r: Result<(u16, usize), ParseError>)
    ensures
        match r {
            Ok((v, end)) => parsed_to(spec_u16_at(input@, pos as int), v, end) && end == pos + 2,
            Err(e) => failed_to(spec_u16_at(input@, pos as int), e),
        },
{
    if input.len() >= 2 && pos <= input.len() - 2 {
        let s = slice_subrange(input, pos, pos + 2);
        let v = u16_from_le_bytes(s);
        Ok((v, pos + 2))
    } else {
        Err(ParseError { kind: ErrorKind::StructuralUnderrun, offset: pos })
    }
}

/// Reads a little-endian u32.
pub fn read_u32(input: &[u8], pos: usize) -> (r: Result<(u32, usize), ParseError>)
    ensures
        match r {
            Ok((v, end)) => parsed_to(spec_u32_at(input@, pos as int), v, end) && end == pos + 4,
            Err(e) => failed_to(spec_u32_at(input@, pos as int), e),
        },
{
    if input.len() >= 4 && pos <= input.len() - 4 {
        let s = slice_subrange(input, pos, pos + 4);
        let v = u32_from_le_bytes(s);
        Ok((v, pos + 4))
    } else {
        Err(ParseError { kind: ErrorKind::StructuralUnderrun, offset: pos })
    }
}

/// Reads a little-endian i32.
pub fn read_i32(input: &[u8], pos: usize) -> (r: Result<(i32, usize), ParseError>)
    ensures
        match r {
            Ok((v, end)) => parsed_to(spec_i32_at(input@, pos as int), v, end) && end == pos + 4,
            Err(e) => failed_to(spec_i32_at(input@, pos as int), e),
        },
{
    match read_u32(input, pos) {
        Ok((v, end)) => Ok((v as i32, end)),
        Err(e) => Err(e),
    }
}

/// Reads `n` raw bytes.
pub fn take_bytes(input: &[u8], pos: usize, n: usize) -> (r: Result<(Vec<u8>, usize), ParseError>)
    ensures
        match r {
            Ok((v, end)) => parsed_to(spec_bytes_at(input@, pos as int, n as int), v@, end)
                && end == pos + n,
            Err(e) => failed_to(spec_bytes_at(input@, pos as int, n as int), e),
        },
{
    if pos <= input.len() && n <= input.len() - pos {
        let s = slice_subrange(input, pos, pos + n);
        let v = slice_to_vec(s);
        Ok((v, pos + n))
    } else {
        Err(ParseError { kind: ErrorKind::StructuralUnderrun, offset: pos })
    }
}

/// Byte-for-byte equality of two byte runs.
pub fn bytes_eq(a: &[u8], b: &[u8]) -> (r: bool)
    ensures
        r == (a@ == b@),
{
    if a.len() != b.len() {
        return false;
    }
    let mut i: usize = 0;
    while i < a.len()
        invariant
            i <= a@.len(),
            a@.len() == b@.len(),
            forall|j: int| 0 <= j < i ==> a@[j] == b@[j],
        decreases a@.len() - i,
    {
        if *slice_index_get(a, i) != *slice_index_get(b, i) {
            return false;
        }
        i += 1;
    }
    proof {
        assert(a@ =~= b@);
    }
    true
}

} // verus!
