//! Structural leaf decoders built from the primitives: points, rectangles,
//! counted strings and counted point arrays.

use vstd::prelude::*;

use crate::err::{ErrorKind, ParseError, SpecParse, failed_to, parsed_to, prepend};
use crate::prim::{lossy_of, lossy_string, spec_bytes_at, spec_u8_at, spec_u16_at, spec_u32_at,
    spec_i32_at, read_u8, read_u16, read_u32, read_i32, take_bytes};

verus! {

/// Ceiling on every length-prefixed count in the stream. A declared count
/// above it is rejected before any allocation proportional to it.
pub const COUNT_CEILING: u32 = 2000;

/// A point: two little-endian i32 coordinates.
#[derive(Clone, Copy, Debug, PartialEq, Eq, Structural)]
pub struct CPoint {
    pub x: i32,
    pub y: i32,
}

impl CPoint {
    /// The point at position `p`.
    pub open spec fn spec_parse(b: Seq<u8>, p: int) -> SpecParse<CPoint> {
        match spec_i32_at(b, p) {
            SpecParse::Failed { kind, at } => SpecParse::Failed { kind, at },
            SpecParse::Parsed { v: x, end: p1 } => match spec_i32_at(b, p1) {
                SpecParse::Failed { kind, at } => SpecParse::Failed { kind, at },
                SpecParse::Parsed { v: y, end } => SpecParse::Parsed {
                    v: CPoint { x, y },
                    end,
                },
            },
        }
    }

    /// Decodes a point.
    pub fn parse(input: &[u8], pos: usize) -> (r: Result<(CPoint, usize), ParseError>)
        ensures
            match r {
                Ok((v, end)) => parsed_to(Self::spec_parse(input@, pos as int), v, end)
                    && pos <= end <= input@.len(),
                Err(e) => failed_to(Self::spec_parse(input@, pos as int), e),
            },
    {
        let (x, p1) = match read_i32(input, pos) {
            Ok(v) => v,
            Err(e) => {
                return Err(e);
            },
        };
        let (y, end) = match read_i32(input, p1) {
            Ok(v) => v,
            Err(e) => {
                return Err(e);
            },
        };
        Ok((CPoint { x, y }, end))
    }
}

/// A rectangle: four little-endian u32 edges. The vertical axis of the
/// source format increases downward; callers that convert to render space
/// negate the vertical fields.
#[derive(Clone, Copy, Debug, PartialEq, Eq, Structural)]
pub struct CRect {
    pub left: u32,
    pub top: u32,
    pub right: u32,
    pub bottom: u32,
}

impl CRect {
    /// The rectangle at position `p`.
    pub open spec fn spec_parse(b: Seq<u8>, p: int) -> SpecParse<CRect> {
        match spec_u32_at(b, p) {
            SpecParse::Failed { kind, at } => SpecParse::Failed { kind, at },
            SpecParse::Parsed { v: left, end: p1 } => match spec_u32_at(b, p1) {
                SpecParse::Failed { kind, at } => SpecParse::Failed { kind, at },
                SpecParse::Parsed { v: top, end: p2 } => match spec_u32_at(b, p2) {
                    SpecParse::Failed { kind, at } => SpecParse::Failed { kind, at },
                    SpecParse::Parsed { v: right, end: p3 } => match spec_u32_at(b, p3) {
                        SpecParse::Failed { kind, at } => SpecParse::Failed { kind, at },
                        SpecParse::Parsed { v: bottom, end } => SpecParse::Parsed {
                            v: CRect { left, top, right, bottom },
                            end,
                        },
                    },
                },
            },
        }
    }

    /// Decodes a rectangle.
    pub fn parse(input: &[u8], pos: usize) -> (r: Result<(CRect, usize), ParseError>)
        ensures
            match r {
                Ok((v, end)) => parsed_to(Self::spec_parse(input@, pos as int), v, end)
                    && pos <= end <= input@.len(),
                Err(e) => failed_to(Self::spec_parse(input@, pos as int), e),
            },
    {
        let (left, p1) = match read_u32(input, pos) {
            Ok(v) => v,
            Err(e) => {
                return Err(e);
            },
        };
        let (top, p2) = match read_u32(input, p1) {
            Ok(v) => v,
            Err(e) => {
                return Err(e);
            },
        };
        let (right, p3) = match read_u32(input, p2) {
            Ok(v) => v,
            Err(e) => {
                return Err(e);
            },
        };
        let (bottom, end) = match read_u32(input, p3) {
            Ok(v) => v,
            Err(e) => {
                return Err(e);
            },
        };
        Ok((CRect { left, top, right, bottom }, end))
    }
}

/// A counted string: a one-byte length, then that many bytes, decoded
/// leniently (invalid byte sequences are replaced, never fail the parse).
#[derive(Clone, Debug, PartialEq)]
pub struct CString {
    pub size: u8,
    pub string: String,
}

/// Mathematical image of [`CString`].
#[verifier::ext_equal]
pub struct CStringV {
    pub size: u8,
    pub string: Seq<char>,
}

impl View for CString {
    type V = CStringV;

    open spec fn view(&self) -> CStringV {
        CStringV { size: self.size, string: self.string@ }
    }
}

impl CString {
    /// The counted string at position `p`.
    pub open spec fn spec_parse(b: Seq<u8>, p: int) -> SpecParse<CStringV> {
        match spec_u8_at(b, p) {
            SpecParse::Failed { kind, at } => SpecParse::Failed { kind, at },
            SpecParse::Parsed { v: size, end: p1 } => match spec_bytes_at(b, p1, size as int) {
                SpecParse::Failed { kind, at } => SpecParse::Failed { kind, at },
                SpecParse::Parsed { v: raw, end } => SpecParse::Parsed {
                    v: CStringV { size, string: lossy_of(raw) },
                    end,
                },
            },
        }
    }

    /// Decodes a counted string.
    pub fn parse(input: &[u8], pos: usize) -> (r: Result<(CString, usize), ParseError>)
        ensures
            match r {
                Ok((v, end)) => parsed_to(Self::spec_parse(input@, pos as int), v@, end)
                    && pos <= end <= input@.len(),
                Err(e) => failed_to(Self::spec_parse(input@, pos as int), e),
            },
    {
        let (size, p1) = match read_u8(input, pos) {
            Ok(v) => v,
            Err(e) => {
                return Err(e);
            },
        };
        let (raw, end) = match take_bytes(input, p1, size as usize) {
            Ok(v) => v,
            Err(e) => {
                return Err(e);
            },
        };
        let string = lossy_string(raw.as_slice());
        Ok((CString { size, string }, end))
    }
}

/// `n` consecutive points starting at position `p`.
pub open spec fn spec_points_at(b: Seq<u8>, p: int, n: nat) -> SpecParse<Seq<CPoint>>
    decreases n,
{
    if n == 0 {
        SpecParse::Parsed { v: Seq::empty(), end: p }
    } else {
        match CPoint::spec_parse(b, p) {
            SpecParse::Failed { kind, at } => SpecParse::Failed { kind, at },
            SpecParse::Parsed { v, end } => match spec_points_at(b, end, (n - 1) as nat) {
                SpecParse::Failed { kind, at } => SpecParse::Failed { kind, at },
                SpecParse::Parsed { v: rest, end: e2 } => SpecParse::Parsed {
                    v: seq![v] + rest,
                    end: e2,
                },
            },
        }
    }
}

/// Decodes `n` consecutive points.
fn parse_points(input: &[u8], pos: usize, n: u16) -> (r: Result<(Vec<CPoint>, usize), ParseError>)
    ensures
        match r {
            Ok((v, end)) => parsed_to(spec_points_at(input@, pos as int, n as nat), v@, end)
                && pos <= end
                && (n == 0 ==> end == pos)
                && (n > 0 ==> end <= input@.len()),
            Err(e) => failed_to(spec_points_at(input@, pos as int, n as nat), e),
        },
{
    let mut items: Vec<CPoint> = Vec::new();
    let mut p = pos;
    let mut i: u16 = 0;
    while i < n
        invariant
            i <= n,
            pos <= p,
            i > 0 ==> p <= input@.len(),
            spec_points_at(input@, pos as int, n as nat) == prepend(
                items@,
                spec_points_at(input@, p as int, (n - i) as nat),
            ),
        decreases n - i,
    {
        match CPoint::parse(input, p) {
            Err(e) => {
                proof {
                    assert(spec_points_at(input@, p as int, (n - i) as nat) matches
                        SpecParse::Failed { kind, at } && kind == e.kind && at == e.offset as int);
                }
                return Err(e);
            },
            Ok((v, end)) => {
                proof {
                    match spec_points_at(input@, end as int, (n - i - 1) as nat) {
                        SpecParse::Parsed { v: rest, end: e2 } => {
                            assert(items@ + (seq![v] + rest) =~= items@.push(v) + rest);
                        },
                        SpecParse::Failed { .. } => {},
                    }
                }
                items.push(v);
                p = end;
                i = i + 1;
            },
        }
    }
    proof {
        assert(spec_points_at(input@, p as int, 0) == (SpecParse::Parsed {
            v: Seq::<CPoint>::empty(),
            end: p as int,
        }));
        assert(items@ + Seq::<CPoint>::empty() =~= items@);
    }
    Ok((items, p))
}

/// A counted point array: a u16 count (rejected above the ceiling), then
/// that many points.
#[derive(Clone, Debug, PartialEq)]
pub struct CPointArray {
    pub size: u16,
    pub points: Vec<CPoint>,
}

/// Mathematical image of [`CPointArray`].
#[verifier::ext_equal]
pub struct CPointArrayV {
    pub size: u16,
    pub points: Seq<CPoint>,
}

impl View for CPointArray {
    type V = CPointArrayV;

    open spec fn view(&self) -> CPointArrayV {
        CPointArrayV { size: self.size, points: self.points@ }
    }
}

impl CPointArray {
    /// The counted point array at position `p`.
    pub open spec fn spec_parse(b: Seq<u8>, p: int) -> SpecParse<CPointArrayV> {
        match spec_u16_at(b, p) {
            SpecParse::Failed { kind, at } => SpecParse::Failed { kind, at },
            SpecParse::Parsed { v: size, end: p1 } => if size as u32 > COUNT_CEILING {
                SpecParse::Failed { kind: ErrorKind::CountOutOfBounds, at: p }
            } else {
                match spec_points_at(b, p1, size as nat) {
                    SpecParse::Failed { kind, at } => SpecParse::Failed { kind, at },
                    SpecParse::Parsed { v, end } => SpecParse::Parsed {
                        v: CPointArrayV { size, points: v },
                        end,
                    },
                }
            },
        }
    }

    /// Decodes a counted point array.
    pub fn parse(input: &[u8], pos: usize) -> (r: Result<(CPointArray, usize), ParseError>)
        ensures
            match r {
                Ok((v, end)) => parsed_to(Self::spec_parse(input@, pos as int), v@, end)
                    && pos <= end <= input@.len(),
                Err(e) => failed_to(Self::spec_parse(input@, pos as int), e),
            },
    {
        let (size, p1) = match read_u16(input, pos) {
            Ok(v) => v,
            Err(e) => {
                return Err(e);
            },
        };
        if size as u32 > COUNT_CEILING {
            return Err(ParseError { kind: ErrorKind::CountOutOfBounds, offset: pos });
        }
        let (points, end) = match parse_points(input, p1, size) {
            Ok(v) => v,
            Err(e) => {
                return Err(e);
            },
        };
        Ok((CPointArray { size, points }, end))
    }
}

} // verus!
