//! The sprite gallery: a polymorphic record holding bookkeeping fields and a
//! counted list of image records.

use vstd::prelude::*;

use crate::archive::{HeaderOrTag, HeaderOrTagV, parse_header_or_tag, spec_header_or_tag};
use crate::err::{ErrorKind, ParseError, SpecParse, SpecParseReg, failed_to, failed_to_reg,
    parsed_to, parsed_to_reg, prepend};
use crate::prim::{lossy_of, lossy_string, spec_bytes_at, spec_u8_at, spec_u16_at, spec_u32_at,
    read_u8, read_u16, read_u32, take_bytes};
use crate::registry::{ClassId, ClassRegistry};
use crate::structural::COUNT_CEILING;

verus! {

/// Bookkeeping fields of one gallery image: owning class index, status byte,
/// pixel dimensions, and the image's offset in the sprite file.
#[derive(Clone, Copy, Debug, PartialEq, Eq, Structural)]
pub struct CImageFlags {
    pub gallery_class_index: u16,
    pub status: u8,
    pub width: u32,
    pub height: u32,
    pub offset: u32,
}

impl CImageFlags {
    /// The image bookkeeping block at position `p`.
    pub open spec fn spec_parse(b: Seq<u8>, p: int) -> SpecParse<CImageFlags> {
        match spec_u16_at(b, p) {
            SpecParse::Failed { kind, at } => SpecParse::Failed { kind, at },
            SpecParse::Parsed { v: gallery_class_index, end: p1 } => match spec_u8_at(b, p1) {
                SpecParse::Failed { kind, at } => SpecParse::Failed { kind, at },
                SpecParse::Parsed { v: status, end: p2 } => match spec_u32_at(b, p2) {
                    SpecParse::Failed { kind, at } => SpecParse::Failed { kind, at },
                    SpecParse::Parsed { v: width, end: p3 } => match spec_u32_at(b, p3) {
                        SpecParse::Failed { kind, at } => SpecParse::Failed { kind, at },
                        SpecParse::Parsed { v: height, end: p4 } => match spec_u32_at(b, p4) {
                            SpecParse::Failed { kind, at } => SpecParse::Failed { kind, at },
                            SpecParse::Parsed { v: offset, end } => SpecParse::Parsed {
                                v: CImageFlags {
                                    gallery_class_index,
                                    status,
                                    width,
                                    height,
                                    offset,
                                },
                                end,
                            },
                        },
                    },
                },
            },
        }
    }

    /// Decodes one image bookkeeping block.
    pub fn parse(input: &[u8], pos: usize) -> (r: Result<(CImageFlags, usize), ParseError>)
        ensures
            match r {
                Ok((v, end)) => parsed_to(Self::spec_parse(input@, pos as int), v, end)
                    && pos <= end <= input@.len(),
                Err(e) => failed_to(Self::spec_parse(input@, pos as int), e),
            },
    {
        let (gallery_class_index, p1) = match read_u16(input, pos) {
            Ok(v) => v,
            Err(e) => {
                return Err(e);
            },
        };
        let (status, p2) = match read_u8(input, p1) {
            Ok(v) => v,
            Err(e) => {
                return Err(e);
            },
        };
        let (width, p3) = match read_u32(input, p2) {
            Ok(v) => v,
            Err(e) => {
                return Err(e);
            },
        };
        let (height, p4) = match read_u32(input, p3) {
            Ok(v) => v,
            Err(e) => {
                return Err(e);
            },
        };
        let (offset, end) = match read_u32(input, p4) {
            Ok(v) => v,
            Err(e) => {
                return Err(e);
            },
        };
        Ok((CImageFlags { gallery_class_index, status, width, height, offset }, end))
    }
}

/// One gallery image record.
#[derive(Clone, Copy, Debug, PartialEq, Eq, Structural)]
pub struct CImage {
    pub flags: CImageFlags,
}

impl CImage {
    /// The image record at position `p`.
    pub open spec fn spec_parse(b: Seq<u8>, p: int) -> SpecParse<CImage> {
        match CImageFlags::spec_parse(b, p) {
            SpecParse::Failed { kind, at } => SpecParse::Failed { kind, at },
            SpecParse::Parsed { v, end } => SpecParse::Parsed { v: CImage { flags: v }, end },
        }
    }

    /// Decodes one image record.
    pub fn parse(input: &[u8], pos: usize) -> (r: Result<(CImage, usize), ParseError>)
        ensures
            match r {
                Ok((v, end)) => parsed_to(Self::spec_parse(input@, pos as int), v, end)
                    && pos <= end <= input@.len(),
                Err(e) => failed_to(Self::spec_parse(input@, pos as int), e),
            },
    {
        match CImageFlags::parse(input, pos) {
            Ok((v, end)) => Ok((CImage { flags: v }, end)),
            Err(e) => Err(e),
        }
    }
}

/// Gallery bookkeeping: image count, a four-byte filesystem tag, the file
/// position and the reference count.
#[derive(Clone, Debug, PartialEq)]
pub struct CGalleryFlags {
    pub num_images: u32,
    pub fsp: String,
    pub file_pos: u32,
    pub users: u32,
}

/// Mathematical image of [`CGalleryFlags`].
#[verifier::ext_equal]
pub struct CGalleryFlagsV {
    pub num_images: u32,
    pub fsp: Seq<char>,
    pub file_pos: u32,
    pub users: u32,
}

impl View for CGalleryFlags {
    type V = CGalleryFlagsV;

    open spec fn view(&self) -> CGalleryFlagsV {
        CGalleryFlagsV {
            num_images: self.num_images,
            fsp: self.fsp@,
            file_pos: self.file_pos,
            users: self.users,
        }
    }
}

impl CGalleryFlags {
    /// The gallery bookkeeping block at position `p`.
    pub open spec fn spec_parse(b: Seq<u8>, p: int) -> SpecParse<CGalleryFlagsV> {
        match spec_u32_at(b, p) {
            SpecParse::Failed { kind, at } => SpecParse::Failed { kind, at },
            SpecParse::Parsed { v: num_images, end: p1 } => match spec_bytes_at(b, p1, 4) {
                SpecParse::Failed { kind, at } => SpecParse::Failed { kind, at },
                SpecParse::Parsed { v: raw, end: p2 } => match spec_u32_at(b, p2) {
                    SpecParse::Failed { kind, at } => SpecParse::Failed { kind, at },
                    SpecParse::Parsed { v: file_pos, end: p3 } => match spec_u32_at(b, p3) {
                        SpecParse::Failed { kind, at } => SpecParse::Failed { kind, at },
                        SpecParse::Parsed { v: users, end } => SpecParse::Parsed {
                            v: CGalleryFlagsV {
                                num_images,
                                fsp: lossy_of(raw),
                                file_pos,
                                users,
                            },
                            end,
                        },
                    },
                },
            },
        }
    }

    /// Decodes the gallery bookkeeping block.
    pub fn parse(input: &[u8], pos: usize) -> (r: Result<(CGalleryFlags, usize), ParseError>)
        ensures
            match r {
                Ok((v, end)) => parsed_to(Self::spec_parse(input@, pos as int), v@, end)
                    && pos <= end <= input@.len(),
                Err(e) => failed_to(Self::spec_parse(input@, pos as int), e),
            },
    {
        let (num_images, p1) = match read_u32(input, pos) {
            Ok(v) => v,
            Err(e) => {
                return Err(e);
            },
        };
        let (raw, p2) = match take_bytes(input, p1, 4) {
            Ok(v) => v,
            Err(e) => {
                return Err(e);
            },
        };
        let (file_pos, p3) = match read_u32(input, p2) {
            Ok(v) => v,
            Err(e) => {
                return Err(e);
            },
        };
        let (users, end) = match read_u32(input, p3) {
            Ok(v) => v,
            Err(e) => {
                return Err(e);
            },
        };
        let fsp = lossy_string(raw.as_slice());
        Ok((CGalleryFlags { num_images, fsp, file_pos, users }, end))
    }
}

/// `n` consecutive image records starting at position `p`.
pub open spec fn spec_images_at(b: Seq<u8>, p: int, n: nat) -> SpecParse<Seq<CImage>>
    decreases n,
{
    if n == 0 {
        SpecParse::Parsed { v: Seq::empty(), end: p }
    } else {
        match CImage::spec_parse(b, p) {
            SpecParse::Failed { kind, at } => SpecParse::Failed { kind, at },
            SpecParse::Parsed { v, end } => match spec_images_at(b, end, (n - 1) as nat) {
                SpecParse::Failed { kind, at } => SpecParse::Failed { kind, at },
                SpecParse::Parsed { v: rest, end: e2 } => SpecParse::Parsed {
                    v: seq![v] + rest,
                    end: e2,
                },
            },
        }
    }
}

/// Decodes `n` consecutive image records.
fn parse_images(input: &[u8], pos: usize, n: u32) -> (r: Result<(Vec<CImage>, usize), ParseError>)
    ensures
        match r {
            Ok((v, end)) => parsed_to(spec_images_at(input@, pos as int, n as nat), v@, end)
                && pos <= end
                && (n == 0 ==> end == pos)
                && (n > 0 ==> end <= input@.len()),
            Err(e) => failed_to(spec_images_at(input@, pos as int, n as nat), e),
        },
{
    let mut items: Vec<CImage> = Vec::new();
    let mut p = pos;
    let mut i: u32 = 0;
    while i < n
        invariant
            i <= n,
            pos <= p,
            i > 0 ==> p <= input@.len(),
            spec_images_at(input@, pos as int, n as nat) == prepend(
                items@,
                spec_images_at(input@, p as int, (n - i) as nat),
            ),
        decreases n - i,
    {
        match CImage::parse(input, p) {
            Err(e) => {
                proof {
                    assert(spec_images_at(input@, p as int, (n - i) as nat) matches
                        SpecParse::Failed { kind, at } && kind == e.kind && at == e.offset as int);
                }
                return Err(e);
            },
            Ok((v, end)) => {
                proof {
                    match spec_images_at(input@, end as int, (n - i - 1) as nat) {
                        SpecParse::Parsed { v: rest, end: e2 } => {
                            assert(items@ + (seq![v] + rest) =~= items@.push(v) + rest);
                        },
                        SpecParse::Failed { .. } => {},
                    }
                }
                items.push(v);
                p = end;
                i = i + 1;
            },
        }
    }
    proof {
        assert(spec_images_at(input@, p as int, 0) == (SpecParse::Parsed {
            v: Seq::<CImage>::empty(),
            end: p as int,
        }));
        assert(items@ + Seq::<CImage>::empty() =~= items@);
    }
    Ok((items, p))
}

/// A sprite gallery: header or tag, bookkeeping, and its image records. The
/// declared image count is rejected above the ceiling before any image is
/// decoded.
#[derive(Clone, Debug, PartialEq)]
pub struct CGallery {
    pub header_or_tag: HeaderOrTag,
    pub flags: CGalleryFlags,
    pub images: Vec<CImage>,
}

/// Mathematical image of [`CGallery`].
#[verifier::ext_equal]
pub struct CGalleryV {
    pub header_or_tag: HeaderOrTagV,
    pub flags: CGalleryFlagsV,
    pub images: Seq<CImage>,
}

impl View for CGallery {
    type V = CGalleryV;

    open spec fn view(&self) -> CGalleryV {
        CGalleryV {
            header_or_tag: self.header_or_tag@,
            flags: self.flags@,
            images: self.images@,
        }
    }
}

impl CGallery {
    /// The gallery record at position `p` with registry contents `reg`.
    pub open spec fn spec_parse(b: Seq<u8>, p: int, reg: Set<ClassId>) -> SpecParseReg<CGalleryV> {
        match spec_header_or_tag(b, p, reg, ClassId::Gallery) {
            SpecParseReg::Failed { kind, at } => SpecParseReg::Failed { kind, at },
            SpecParseReg::Parsed { v: h, end: p1, reg: r1 } => match CGalleryFlags::spec_parse(
                b,
                p1,
            ) {
                SpecParse::Failed { kind, at } => SpecParseReg::Failed { kind, at },
                SpecParse::Parsed { v: flags, end: p2 } => if flags.num_images > COUNT_CEILING {
                    SpecParseReg::Failed { kind: ErrorKind::CountOutOfBounds, at: p1 }
                } else {
                    match spec_images_at(b, p2, flags.num_images as nat) {
                        SpecParse::Failed { kind, at } => SpecParseReg::Failed { kind, at },
                        SpecParse::Parsed { v: images, end } => SpecParseReg::Parsed {
                            v: CGalleryV { header_or_tag: h, flags, images },
                            end,
                            reg: r1,
                        },
                    }
                },
            },
        }
    }

    /// Decodes a gallery record.
    pub fn parse(input: &[u8], pos: usize, reg: &mut ClassRegistry) -> (r: Result<
        (CGallery, usize),
        ParseError,
    >)
        ensures
            match r {
                Ok((v, end)) => parsed_to_reg(
                    Self::spec_parse(input@, pos as int, old(reg)@),
                    v@,
                    end,
                    final(reg)@,
                ) && pos <= end <= input@.len(),
                Err(e) => failed_to_reg(Self::spec_parse(input@, pos as int, old(reg)@), e),
            },
    {
        let (header_or_tag, p1) = match parse_header_or_tag(input, pos, reg, ClassId::Gallery) {
            Ok(v) => v,
            Err(e) => {
                return Err(e);
            },
        };
        let (flags, p2) = match CGalleryFlags::parse(input, p1) {
            Ok(v) => v,
            Err(e) => {
                return Err(e);
            },
        };
        if flags.num_images > COUNT_CEILING {
            return Err(ParseError { kind: ErrorKind::CountOutOfBounds, offset: p1 });
        }
        let (images, end) = match parse_images(input, p2, flags.num_images) {
            Ok(v) => v,
            Err(e) => {
                return Err(e);
            },
        };
        Ok((CGallery { header_or_tag, flags, images }, end))
    }
}

} // verus!
