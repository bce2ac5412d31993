//! The archive header/tag protocol shared by every polymorphic record.
//!
//! A record's first occurrence in the stream carries a full archive header:
//! zero-valued u16 padding words, a nonzero tag word (with an optional
//! explicit 4-byte object tag), a schema version, and a counted class name.
//! Later occurrences of the same class carry only a compact two-byte tag.

use vstd::prelude::*;

use crate::err::{ErrorKind, ParseError, SpecParse, SpecParseReg, failed_to, failed_to_reg,
    parsed_to, parsed_to_reg};
use crate::prim::{lossy_of, lossy_string, spec_bytes_at, spec_u16_at, spec_u32_at, bytes_eq,
    read_u16, read_u32, take_bytes};
use crate::registry::{ClassId, ClassRegistry, class_name_bytes, spec_class_name};

verus! {

/// The compact back-reference written for a class whose header has already
/// been seen: a single u16 tag.
#[derive(Clone, Copy, Debug, PartialEq, Eq, Structural)]
pub struct CObject {
    pub tag: u16,
}

impl CObject {
    /// The compact tag at position `p`.
    pub open spec fn spec_parse(b: Seq<u8>, p: int) -> SpecParse<CObject> {
        match spec_u16_at(b, p) {
            SpecParse::Parsed { v, end } => SpecParse::Parsed { v: CObject { tag: v }, end },
            SpecParse::Failed { kind, at } => SpecParse::Failed { kind, at },
        }
    }

    /// Decodes a compact tag.
    pub fn parse(input: &[u8], pos: usize) -> (r: Result<(CObject, usize), ParseError>)
        ensures
            match r {
                Ok((v, end)) => parsed_to(Self::spec_parse(input@, pos as int), v, end)
                    && pos <= end <= input@.len(),
                Err(e) => failed_to(Self::spec_parse(input@, pos as int), e),
            },
    {
        match read_u16(input, pos) {
            Ok((v, end)) => Ok((CObject { tag: v }, end)),
            Err(e) => Err(e),
        }
    }
}

/// A full archive header: the tag word that ended the padding run, the
/// resolved 32-bit object tag, the schema version, and the counted class
/// name (decoded leniently).
#[derive(Clone, Debug, PartialEq)]
pub struct CArchive {
    pub tag: u16,
    pub ob_tag: u32,
    pub schema: u16,
    pub class_name_length: u16,
    pub class_name: String,
}

/// Mathematical image of [`CArchive`].
#[verifier::ext_equal]
pub struct CArchiveV {
    pub tag: u16,
    pub ob_tag: u32,
    pub schema: u16,
    pub class_name_length: u16,
    pub class_name: Seq<char>,
}

impl View for CArchive {
    type V = CArchiveV;

    open spec fn view(&self) -> CArchiveV {
        CArchiveV {
            tag: self.tag,
            ob_tag: self.ob_tag,
            schema: self.schema,
            class_name_length: self.class_name_length,
            class_name: self.class_name@,
        }
    }
}

/// Skips zero-valued u16 padding words and yields the first nonzero word.
pub open spec fn spec_tag_word_at(b: Seq<u8>, p: int) -> SpecParse<u16>
    decreases b.len() - p,
{
    match spec_u16_at(b, p) {
        SpecParse::Failed { kind, at } => SpecParse::Failed { kind, at },
        SpecParse::Parsed { v, end } => if v == 0 {
            spec_tag_word_at(b, end)
        } else {
            SpecParse::Parsed { v, end }
        },
    }
}

/// The full archive header at position `p`, together with the raw (not yet
/// text-decoded) bytes of its class name.
pub open spec fn spec_archive_at(b: Seq<u8>, p: int) -> SpecParse<(CArchiveV, Seq<u8>)> {
    match spec_tag_word_at(b, p) {
        SpecParse::Failed { kind, at } => SpecParse::Failed { kind, at },
        SpecParse::Parsed { v: tag, end: p1 } => if tag == 0x7fff {
            match spec_u32_at(b, p1) {
                SpecParse::Failed { kind, at } => SpecParse::Failed { kind, at },
                SpecParse::Parsed { v: ob_tag, end: p2 } => if ob_tag & 0x80000000 == 0 {
                    SpecParse::Failed { kind: ErrorKind::InvalidArchiveTag, at: p1 }
                } else {
                    spec_archive_tail(b, p2, tag, ob_tag)
                },
            }
        } else {
            let ob_tag = ((tag as u32 & 0x8000) << 16) | (tag as u32 & 0x7fff);
            if ob_tag & 0x80000000 == 0 {
                SpecParse::Failed { kind: ErrorKind::InvalidArchiveTag, at: p1 - 2 }
            } else {
                spec_archive_tail(b, p1, tag, ob_tag)
            }
        },
    }
}

/// The schema version and counted class name that close an archive header.
pub open spec fn spec_archive_tail(b: Seq<u8>, p: int, tag: u16, ob_tag: u32) -> SpecParse<
    (CArchiveV, Seq<u8>),
> {
    match spec_u16_at(b, p) {
        SpecParse::Failed { kind, at } => SpecParse::Failed { kind, at },
        SpecParse::Parsed { v: schema, end: p1 } => match spec_u16_at(b, p1) {
            SpecParse::Failed { kind, at } => SpecParse::Failed { kind, at },
            SpecParse::Parsed { v: nlen, end: p2 } => match spec_bytes_at(b, p2, nlen as int) {
                SpecParse::Failed { kind, at } => SpecParse::Failed { kind, at },
                SpecParse::Parsed { v: raw, end: p3 } => SpecParse::Parsed {
                    v: (
                        CArchiveV {
                            tag,
                            ob_tag,
                            schema,
                            class_name_length: nlen,
                            class_name: lossy_of(raw),
                        },
                        raw,
                    ),
                    end: p3,
                },
            },
        },
    }
}

/// Scans past zero-valued padding words to the first nonzero tag word.
fn scan_tag_word(input: &[u8], pos: usize) -> (r: Result<(u16, usize), ParseError>)
    ensures
        match r {
            Ok((v, end)) => parsed_to(spec_tag_word_at(input@, pos as int), v, end)
                && pos + 2 <= end <= input@.len(),
            Err(e) => failed_to(spec_tag_word_at(input@, pos as int), e),
        },
{
    let mut p = pos;
    loop
        invariant
            pos <= p,
            spec_tag_word_at(input@, pos as int) == spec_tag_word_at(input@, p as int),
        decreases input@.len() - p,
    {
        match read_u16(input, p) {
            Err(e) => {
                return Err(e);
            },
            Ok((v, end)) => {
                if v != 0 {
                    return Ok((v, end));
                }
                p = end;
            },
        }
    }
}

impl CArchive {
    /// Decodes a full archive header, returning it together with the raw
    /// bytes of the class name so that the caller can check them against the
    /// name expected at this position.
    pub fn parse(input: &[u8], pos: usize) -> (r: Result<(CArchive, Vec<u8>, usize), ParseError>)
        ensures
            match r {
                Ok((a, raw, end)) => parsed_to(spec_archive_at(input@, pos as int), (a@, raw@), end)
                    && pos <= end <= input@.len()
                    && raw@.len() == a@.class_name_length
                    && raw@.len() <= end,
                Err(e) => failed_to(spec_archive_at(input@, pos as int), e),
            },
    {
        let (tag, p1) = match scan_tag_word(input, pos) {
            Ok(x) => x,
            Err(e) => {
                return Err(e);
            },
        };
        let ob_tag: u32;
        let p2: usize;
        if tag == 0x7fff {
            let (v, e2) = match read_u32(input, p1) {
                Ok(x) => x,
                Err(e) => {
                    return Err(e);
                },
            };
            if v & 0x80000000 == 0 {
                return Err(ParseError { kind: ErrorKind::InvalidArchiveTag, offset: p1 });
            }
            ob_tag = v;
            p2 = e2;
        } else {
            let v = ((tag as u32 & 0x8000) << 16) | (tag as u32 & 0x7fff);
            if v & 0x80000000 == 0 {
                return Err(ParseError { kind: ErrorKind::InvalidArchiveTag, offset: p1 - 2 });
            }
            ob_tag = v;
            p2 = p1;
        }
        let (schema, p3) = match read_u16(input, p2) {
            Ok(x) => x,
            Err(e) => {
                return Err(e);
            },
        };
        let (nlen, p4) = match read_u16(input, p3) {
            Ok(x) => x,
            Err(e) => {
                return Err(e);
            },
        };
        let (raw, p5) = match take_bytes(input, p4, nlen as usize) {
            Ok(x) => x,
            Err(e) => {
                return Err(e);
            },
        };
        let name = lossy_string(raw.as_slice());
        let arch = CArchive { tag, ob_tag, schema, class_name_length: nlen, class_name: name };
        Ok((arch, raw, p5))
    }
}

/// The two-branch decision every polymorphic record starts with: a full
/// archive header on a class's first occurrence, a compact tag afterwards.
#[derive(Clone, Debug, PartialEq)]
pub enum HeaderOrTag {
    Header(CArchive),
    Tag(CObject),
}

/// Mathematical image of [`HeaderOrTag`].
#[verifier::ext_equal]
pub enum HeaderOrTagV {
    Header(CArchiveV),
    Tag(CObject),
}

impl View for HeaderOrTag {
    type V = HeaderOrTagV;

    open spec fn view(&self) -> HeaderOrTagV {
        match self {
            HeaderOrTag::Header(a) => HeaderOrTagV::Header(a@),
            HeaderOrTag::Tag(t) => HeaderOrTagV::Tag(*t),
        }
    }
}

/// The header/tag decision for class `c` with registry contents `reg`: a
/// compact tag when `c` was seen, otherwise a full header whose class name
/// must spell exactly the name of `c`, after which `c` counts as seen.
pub open spec fn spec_header_or_tag(b: Seq<u8>, p: int, reg: Set<ClassId>, c: ClassId) -> SpecParseReg<
    HeaderOrTagV,
> {
    if reg.contains(c) {
        match CObject::spec_parse(b, p) {
            SpecParse::Failed { kind, at } => SpecParseReg::Failed { kind, at },
            SpecParse::Parsed { v, end } => SpecParseReg::Parsed {
                v: HeaderOrTagV::Tag(v),
                end,
                reg,
            },
        }
    } else {
        match spec_archive_at(b, p) {
            SpecParse::Failed { kind, at } => SpecParseReg::Failed { kind, at },
            SpecParse::Parsed { v, end } => if v.1 == spec_class_name(c) {
                SpecParseReg::Parsed {
                    v: HeaderOrTagV::Header(v.0),
                    end,
                    reg: reg.insert(c),
                }
            } else {
                SpecParseReg::Failed {
                    kind: ErrorKind::UnexpectedClassName,
                    at: end - v.1.len(),
                }
            },
        }
    }
}

/// Decodes the header-or-tag opening of a record of class `c`, consulting and
/// updating the registry as the protocol demands.
pub fn parse_header_or_tag(input: &[u8], pos: usize, reg: &mut ClassRegistry, c: ClassId) -> (r:
    Result<(HeaderOrTag, usize), ParseError>)
    ensures
        match r {
            Ok((h, end)) => parsed_to_reg(
                spec_header_or_tag(input@, pos as int, old(reg)@, c),
                h@,
                end,
                final(reg)@,
            ) && pos <= end <= input@.len(),
            Err(e) => failed_to_reg(spec_header_or_tag(input@, pos as int, old(reg)@, c), e)
                && final(reg)@ == old(reg)@,
        },
{
    if reg.contains(c) {
        match CObject::parse(input, pos) {
            Ok((t, end)) => Ok((HeaderOrTag::Tag(t), end)),
            Err(e) => Err(e),
        }
    } else {
        let (a, raw, end) = match CArchive::parse(input, pos) {
            Ok(x) => x,
            Err(e) => {
                return Err(e);
            },
        };
        let expected = class_name_bytes(c);
        if bytes_eq(raw.as_slice(), expected.as_slice()) {
            reg.register(c);
            Ok((HeaderOrTag::Header(a), end))
        } else {
            Err(ParseError { kind: ErrorKind::UnexpectedClassName, offset: end - raw.len() })
        }
    }
}

} // verus!
