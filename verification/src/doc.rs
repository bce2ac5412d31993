//! The document assembler: map data (header, environment flags, tile
//! gallery, rooms), then the counted object and scenery lists, decoded from
//! one in-memory buffer in a single left-to-right pass.

use vstd::prelude::*;

use crate::archive::{CArchive, CArchiveV, spec_archive_at};
use crate::entity::{SimpleObject, SimpleObjectV};
use crate::err::{ErrorKind, ParseError, SpecParse, SpecParseReg, failed_to, failed_to_reg,
    parsed_to, parsed_to_reg, prepend_reg};
use crate::gallery::{CGallery, CGalleryV};
use crate::object::{Object, ObjectV};
use crate::prim::{bytes_eq, spec_u32_at, read_u32};
use crate::registry::{ClassId, ClassRegistry, class_name_bytes, spec_class_name};
use crate::room::{Rooms, RoomsV};
use crate::structural::COUNT_CEILING;

verus! {

/// Environment flags of the map: world wrap flag, time of day, day in year
/// and year.
#[derive(Clone, Copy, Debug, PartialEq, Eq, Structural)]
pub struct MapDataFlags {
    pub map_is_wrappable: u32,
    pub time_of_day: u32,
    pub day_in_year: u32,
    pub year: u32,
}

impl MapDataFlags {
    /// The environment flags at position `p`.
    pub open spec fn spec_parse(b: Seq<u8>, p: int) -> SpecParse<MapDataFlags> {
        match spec_u32_at(b, p) {
            SpecParse::Failed { kind, at } => SpecParse::Failed { kind, at },
            SpecParse::Parsed { v: map_is_wrappable, end: p1 } => match spec_u32_at(b, p1) {
                SpecParse::Failed { kind, at } => SpecParse::Failed { kind, at },
                SpecParse::Parsed { v: time_of_day, end: p2 } => match spec_u32_at(b, p2) {
                    SpecParse::Failed { kind, at } => SpecParse::Failed { kind, at },
                    SpecParse::Parsed { v: day_in_year, end: p3 } => match spec_u32_at(b, p3) {
                        SpecParse::Failed { kind, at } => SpecParse::Failed { kind, at },
                        SpecParse::Parsed { v: year, end } => SpecParse::Parsed {
                            v: MapDataFlags { map_is_wrappable, time_of_day, day_in_year, year },
                            end,
                        },
                    },
                },
            },
        }
    }

    /// Decodes the environment flags.
    pub fn parse(input: &[u8], pos: usize) -> (r: Result<(MapDataFlags, usize), ParseError>)
        ensures
            match r {
                Ok((v, end)) => parsed_to(Self::spec_parse(input@, pos as int), v, end)
                    && pos <= end <= input@.len(),
                Err(e) => failed_to(Self::spec_parse(input@, pos as int), e),
            },
    {
        let (map_is_wrappable, p1) = match read_u32(input, pos) {
            Ok(x) => x,
            Err(e) => {
                return Err(e);
            },
        };
        let (time_of_day, p2) = match read_u32(input, p1) {
            Ok(x) => x,
            Err(e) => {
                return Err(e);
            },
        };
        let (day_in_year, p3) = match read_u32(input, p2) {
            Ok(x) => x,
            Err(e) => {
                return Err(e);
            },
        };
        let (year, end) = match read_u32(input, p3) {
            Ok(x) => x,
            Err(e) => {
                return Err(e);
            },
        };
        Ok((MapDataFlags { map_is_wrappable, time_of_day, day_in_year, year }, end))
    }
}

/// The map block that opens every document: a full archive header that must
/// spell the map-data class name, environment flags, the tile gallery and
/// the room list.
#[derive(Debug, PartialEq)]
pub struct MapData {
    pub header: CArchive,
    pub flags: MapDataFlags,
    pub tile_gallery: CGallery,
    pub rooms: Rooms,
}

/// Mathematical image of [`MapData`].
#[verifier::ext_equal]
pub struct MapDataV {
    pub header: CArchiveV,
    pub flags: MapDataFlags,
    pub tile_gallery: CGalleryV,
    pub rooms: RoomsV,
}

impl View for MapData {
    type V = MapDataV;

    open spec fn view(&self) -> MapDataV {
        MapDataV {
            header: self.header@,
            flags: self.flags,
            tile_gallery: self.tile_gallery@,
            rooms: self.rooms@,
        }
    }
}

impl MapData {
    /// The map block at position `p` with registry contents `reg`. The map
    /// header is always written in full (it takes no part in the header/tag
    /// protocol), and its class name must spell the map-data class name.
    pub open spec fn spec_parse(b: Seq<u8>, p: int, reg: Set<ClassId>) -> SpecParseReg<MapDataV> {
        match spec_archive_at(b, p) {
            SpecParse::Failed { kind, at } => SpecParseReg::Failed { kind, at },
            SpecParse::Parsed { v, end: p1 } => if v.1 != spec_class_name(ClassId::MapData) {
                SpecParseReg::Failed { kind: ErrorKind::UnexpectedClassName, at: p1 - v.1.len() }
            } else {
                match MapDataFlags::spec_parse(b, p1) {
                    SpecParse::Failed { kind, at } => SpecParseReg::Failed { kind, at },
                    SpecParse::Parsed { v: flags, end: p2 } => match CGallery::spec_parse(
                        b,
                        p2,
                        reg,
                    ) {
                        SpecParseReg::Failed { kind, at } => SpecParseReg::Failed { kind, at },
                        SpecParseReg::Parsed { v: tile_gallery, end: p3, reg: r1 } => match
                            Rooms::spec_parse(b, p3, r1) {
                            SpecParseReg::Failed { kind, at } => SpecParseReg::Failed { kind, at },
                            SpecParseReg::Parsed { v: rooms, end, reg: r2 } => SpecParseReg::Parsed {
                                v: MapDataV { header: v.0, flags, tile_gallery, rooms },
                                end,
                                reg: r2,
                            },
                        },
                    },
                }
            },
        }
    }

    /// Decodes the map block.
    pub fn parse(input: &[u8], pos: usize, reg: &mut ClassRegistry) -> (r: Result<
        (MapData, usize),
        ParseError,
    >)
        ensures
            match r {
                Ok((v, end)) => parsed_to_reg(
                    Self::spec_parse(input@, pos as int, old(reg)@),
                    v@,
                    end,
                    final(reg)@,
                ) && pos <= end <= input@.len(),
                Err(e) => failed_to_reg(Self::spec_parse(input@, pos as int, old(reg)@), e),
            },
    {
        let (header, raw, p1) = match CArchive::parse(input, pos) {
            Ok(x) => x,
            Err(e) => {
                return Err(e);
            },
        };
        let expected = class_name_bytes(ClassId::MapData);
        if !bytes_eq(raw.as_slice(), expected.as_slice()) {
            return Err(ParseError { kind: ErrorKind::UnexpectedClassName, offset: p1 - raw.len() });
        }
        let (flags, p2) = match MapDataFlags::parse(input, p1) {
            Ok(x) => x,
            Err(e) => {
                return Err(e);
            },
        };
        let (tile_gallery, p3) = match CGallery::parse(input, p2, reg) {
            Ok(x) => x,
            Err(e) => {
                return Err(e);
            },
        };
        let (rooms, end) = match Rooms::parse(input, p3, reg) {
            Ok(x) => x,
            Err(e) => {
                return Err(e);
            },
        };
        Ok((MapData { header, flags, tile_gallery, rooms }, end))
    }
}

/// The views of a run of objects.
pub open spec fn objects_view(s: Seq<Object>) -> Seq<ObjectV> {
    s.map_values(|x: Object| x@)
}

/// The views of a run of scenery records.
pub open spec fn scenery_view(s: Seq<SimpleObject>) -> Seq<SimpleObjectV> {
    s.map_values(|x: SimpleObject| x@)
}

/// `n` consecutive object records starting at position `p`, threading the
/// registry.
pub open spec fn spec_objects_at(b: Seq<u8>, p: int, n: nat, reg: Set<ClassId>) -> SpecParseReg<
    Seq<ObjectV>,
>
    decreases n,
{
    if n == 0 {
        SpecParseReg::Parsed { v: Seq::empty(), end: p, reg }
    } else {
        match Object::spec_parse(b, p, reg) {
            SpecParseReg::Failed { kind, at } => SpecParseReg::Failed { kind, at },
            SpecParseReg::Parsed { v, end, reg: r1 } => match spec_objects_at(
                b,
                end,
                (n - 1) as nat,
                r1,
            ) {
                SpecParseReg::Failed { kind, at } => SpecParseReg::Failed { kind, at },
                SpecParseReg::Parsed { v: rest, end: e2, reg: r2 } => SpecParseReg::Parsed {
                    v: seq![v] + rest,
                    end: e2,
                    reg: r2,
                },
            },
        }
    }
}

/// `n` consecutive scenery records starting at position `p`, threading the
/// registry.
pub open spec fn spec_scenery_at(b: Seq<u8>, p: int, n: nat, reg: Set<ClassId>) -> SpecParseReg<
    Seq<SimpleObjectV>,
>
    decreases n,
{
    if n == 0 {
        SpecParseReg::Parsed { v: Seq::empty(), end: p, reg }
    } else {
        match SimpleObject::spec_parse(b, p, reg) {
            SpecParseReg::Failed { kind, at } => SpecParseReg::Failed { kind, at },
            SpecParseReg::Parsed { v, end, reg: r1 } => match spec_scenery_at(
                b,
                end,
                (n - 1) as nat,
                r1,
            ) {
                SpecParseReg::Failed { kind, at } => SpecParseReg::Failed { kind, at },
                SpecParseReg::Parsed { v: rest, end: e2, reg: r2 } => SpecParseReg::Parsed {
                    v: seq![v] + rest,
                    end: e2,
                    reg: r2,
                },
            },
        }
    }
}

/// Decodes `n` consecutive object records.
#[verifier::rlimit(100)]
fn parse_object_items(input: &[u8], pos: usize, n: u32, reg: &mut ClassRegistry) -> (r: Result<
    (Vec<Object>, usize),
    ParseError,
>)
    ensures
        match r {
            Ok((v, end)) => parsed_to_reg(
                spec_objects_at(input@, pos as int, n as nat, old(reg)@),
                objects_view(v@),
                end,
                final(reg)@,
            ) && pos <= end && (n == 0 ==> end == pos) && (n > 0 ==> end <= input@.len()),
            Err(e) => failed_to_reg(spec_objects_at(input@, pos as int, n as nat, old(reg)@), e),
        },
{
    let mut items: Vec<Object> = Vec::new();
    let mut p = pos;
    let mut i: u32 = 0;
    while i < n
        invariant
            i <= n,
            pos <= p,
            i > 0 ==> p <= input@.len(),
            spec_objects_at(input@, pos as int, n as nat, old(reg)@) == prepend_reg(
                objects_view(items@),
                spec_objects_at(input@, p as int, (n - i) as nat, reg@),
            ),
        decreases n - i,
    {
        let ghost reg_pre = reg@;
        match Object::parse(input, p, reg) {
            Err(e) => {
                proof {
                    assert(spec_objects_at(input@, p as int, (n - i) as nat, reg_pre) matches
                        SpecParseReg::Failed { kind, at } && kind == e.kind
                        && at == e.offset as int);
                }
                return Err(e);
            },
            Ok((v, end)) => {
                proof {
                    match spec_objects_at(input@, end as int, (n - i - 1) as nat, reg@) {
                        SpecParseReg::Parsed { v: rest, end: e2, reg: r2 } => {
                            assert(objects_view(items@) + (seq![v@] + rest) =~= objects_view(
                                items@.push(v),
                            ) + rest);
                        },
                        SpecParseReg::Failed { .. } => {
                            assert(objects_view(items@.push(v)) =~= objects_view(items@)
                                + seq![v@]);
                        },
                    }
                }
                items.push(v);
                p = end;
                i = i + 1;
            },
        }
    }
    proof {
        assert(spec_objects_at(input@, p as int, 0, reg@) == (SpecParseReg::Parsed {
            v: Seq::<ObjectV>::empty(),
            end: p as int,
            reg: reg@,
        }));
        assert(objects_view(items@) + Seq::<ObjectV>::empty() =~= objects_view(items@));
    }
    Ok((items, p))
}

/// Decodes `n` consecutive scenery records.
#[verifier::rlimit(100)]
fn parse_scenery_items(input: &[u8], pos: usize, n: u32, reg: &mut ClassRegistry) -> (r: Result<
    (Vec<SimpleObject>, usize),
    ParseError,
>)
    ensures
        match r {
            Ok((v, end)) => parsed_to_reg(
                spec_scenery_at(input@, pos as int, n as nat, old(reg)@),
                scenery_view(v@),
                end,
                final(reg)@,
            ) && pos <= end && (n == 0 ==> end == pos) && (n > 0 ==> end <= input@.len()),
            Err(e) => failed_to_reg(spec_scenery_at(input@, pos as int, n as nat, old(reg)@), e),
        },
{
    let mut items: Vec<SimpleObject> = Vec::new();
    let mut p = pos;
    let mut i: u32 = 0;
    while i < n
        invariant
            i <= n,
            pos <= p,
            i > 0 ==> p <= input@.len(),
            spec_scenery_at(input@, pos as int, n as nat, old(reg)@) == prepend_reg(
                scenery_view(items@),
                spec_scenery_at(input@, p as int, (n - i) as nat, reg@),
            ),
        decreases n - i,
    {
        let ghost reg_pre = reg@;
        match SimpleObject::parse(input, p, reg) {
            Err(e) => {
                proof {
                    assert(spec_scenery_at(input@, p as int, (n - i) as nat, reg_pre) matches
                        SpecParseReg::Failed { kind, at } && kind == e.kind
                        && at == e.offset as int);
                }
                return Err(e);
            },
            Ok((v, end)) => {
                proof {
                    match spec_scenery_at(input@, end as int, (n - i - 1) as nat, reg@) {
                        SpecParseReg::Parsed { v: rest, end: e2, reg: r2 } => {
                            assert(scenery_view(items@) + (seq![v@] + rest) =~= scenery_view(
                                items@.push(v),
                            ) + rest);
                        },
                        SpecParseReg::Failed { .. } => {
                            assert(scenery_view(items@.push(v)) =~= scenery_view(items@)
                                + seq![v@]);
                        },
                    }
                }
                items.push(v);
                p = end;
                i = i + 1;
            },
        }
    }
    proof {
        assert(spec_scenery_at(input@, p as int, 0, reg@) == (SpecParseReg::Parsed {
            v: Seq::<SimpleObjectV>::empty(),
            end: p as int,
            reg: reg@,
        }));
        assert(scenery_view(items@) + Seq::<SimpleObjectV>::empty() =~= scenery_view(items@));
    }
    Ok((items, p))
}

/// A decoded document: the map, the object list and the scenery list. Built
/// once per parse and immutable afterwards; no partial document is ever
/// returned.
#[derive(Debug, PartialEq)]
pub struct Doc {
    pub map: MapData,
    pub num_objects: u32,
    pub objects: Vec<Object>,
    pub num_scenery: u32,
    pub simple_object_pointer: Vec<SimpleObject>,
}

/// Mathematical image of [`Doc`].
#[verifier::ext_equal]
pub struct DocV {
    pub map: MapDataV,
    pub num_objects: u32,
    pub objects: Seq<ObjectV>,
    pub num_scenery: u32,
    pub simple_object_pointer: Seq<SimpleObjectV>,
}

impl View for Doc {
    type V = DocV;

    open spec fn view(&self) -> DocV {
        DocV {
            map: self.map@,
            num_objects: self.num_objects,
            objects: objects_view(self.objects@),
            num_scenery: self.num_scenery,
            simple_object_pointer: scenery_view(self.simple_object_pointer@),
        }
    }
}

impl Doc {
    /// The whole document at position `p` with registry contents `reg`: map
    /// block, then the counted object and scenery lists, each count rejected
    /// above the ceiling before any record is decoded.
    pub open spec fn spec_parse(b: Seq<u8>, p: int, reg: Set<ClassId>) -> SpecParseReg<DocV> {
        match MapData::spec_parse(b, p, reg) {
            SpecParseReg::Failed { kind, at } => SpecParseReg::Failed { kind, at },
            SpecParseReg::Parsed { v: map, end: p1, reg: r1 } => match spec_u32_at(b, p1) {
                SpecParse::Failed { kind, at } => SpecParseReg::Failed { kind, at },
                SpecParse::Parsed { v: num_objects, end: p2 } => if num_objects > COUNT_CEILING {
                    SpecParseReg::Failed { kind: ErrorKind::CountOutOfBounds, at: p1 }
                } else {
                    match spec_objects_at(b, p2, num_objects as nat, r1) {
                        SpecParseReg::Failed { kind, at } => SpecParseReg::Failed { kind, at },
                        SpecParseReg::Parsed { v: objects, end: p3, reg: r2 } => match
                            spec_u32_at(b, p3) {
                            SpecParse::Failed { kind, at } => SpecParseReg::Failed { kind, at },
                            SpecParse::Parsed { v: num_scenery, end: p4 } => if num_scenery
                                > COUNT_CEILING {
                                SpecParseReg::Failed { kind: ErrorKind::CountOutOfBounds, at: p3 }
                            } else {
                                match spec_scenery_at(b, p4, num_scenery as nat, r2) {
                                    SpecParseReg::Failed { kind, at } => SpecParseReg::Failed {
                                        kind,
                                        at,
                                    },
                                    SpecParseReg::Parsed {
                                        v: simple_object_pointer,
                                        end,
                                        reg: r3,
                                    } => SpecParseReg::Parsed {
                                        v: DocV {
                                            map,
                                            num_objects,
                                            objects,
                                            num_scenery,
                                            simple_object_pointer,
                                        },
                                        end,
                                        reg: r3,
                                    },
                                }
                            },
                        },
                    }
                },
            },
        }
    }

    /// Decodes a whole document from the start of `input`, threading the
    /// given registry (one registry instance is scoped to exactly one
    /// parse). On success it returns the document and the count of
    /// unconsumed trailing bytes; trailing bytes are not an error. On
    /// failure no partial document is returned.
    pub fn parse(input: &[u8], registry: &mut ClassRegistry) -> (r: Result<
        (Doc, usize),
        ParseError,
    >)
        ensures
            match r {
                Ok((doc, trailing)) => (Self::spec_parse(input@, 0, old(registry)@) matches
                    SpecParseReg::Parsed { v, end, reg } && v == doc@ && reg == final(registry)@
                    && trailing == input@.len() - end && end <= input@.len()),
                Err(e) => failed_to_reg(Self::spec_parse(input@, 0, old(registry)@), e),
            },
    {
        let (map, p1) = match MapData::parse(input, 0, registry) {
            Ok(x) => x,
            Err(e) => {
                return Err(e);
            },
        };
        let (num_objects, p2) = match read_u32(input, p1) {
            Ok(x) => x,
            Err(e) => {
                return Err(e);
            },
        };
        if num_objects > COUNT_CEILING {
            return Err(ParseError { kind: ErrorKind::CountOutOfBounds, offset: p1 });
        }
        let (objects, p3) = match parse_object_items(input, p2, num_objects, registry) {
            Ok(x) => x,
            Err(e) => {
                return Err(e);
            },
        };
        let (num_scenery, p4) = match read_u32(input, p3) {
            Ok(x) => x,
            Err(e) => {
                return Err(e);
            },
        };
        if num_scenery > COUNT_CEILING {
            return Err(ParseError { kind: ErrorKind::CountOutOfBounds, offset: p3 });
        }
        let (simple_object_pointer, end) = match parse_scenery_items(
            input,
            p4,
            num_scenery,
            registry,
        ) {
            Ok(x) => x,
            Err(e) => {
                return Err(e);
            },
        };
        let doc = Doc { map, num_objects, objects, num_scenery, simple_object_pointer };
        Ok((doc, input.len() - end))
    }
}

} // verus!
