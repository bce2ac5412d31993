//! Rooms and everything they own: room-type and drop-status enums, bacteria
//! slots, the four compass-direction door arrays, and the counted room list.

use vstd::prelude::*;

use crate::archive::{HeaderOrTag, HeaderOrTagV, parse_header_or_tag, spec_header_or_tag};
use crate::err::{ErrorKind, ParseError, SpecParse, SpecParseReg, failed_to, failed_to_reg,
    parsed_to, parsed_to_reg, prepend, prepend_reg};
use crate::prim::{spec_bytes_at, spec_u8_at, spec_u16_at, spec_u32_at, spec_i32_at, read_u8,
    read_u16, read_u32, read_i32, take_bytes};
use crate::registry::{ClassId, ClassRegistry};
use crate::structural::{COUNT_CEILING, CPoint, CPointArray, CPointArrayV, CRect, CString,
    CStringV};

verus! {

/// Number of bacteria slots every room carries: fixed, never read from the
/// stream.
pub const BACTERIA_SLOTS: u16 = 100;

/// What kind of region a room is.
#[derive(Clone, Copy, Debug, PartialEq, Eq, Structural)]
pub enum RoomType {
    Invalid,
    Indoors,
    Surface,
    Underwater,
    Atmosphere,
}

impl RoomType {
    /// The room type encoded as the i32 at position `p`: -1, 0, 1, 2 or 3.
    pub open spec fn spec_parse(b: Seq<u8>, p: int) -> SpecParse<RoomType> {
        match spec_i32_at(b, p) {
            SpecParse::Failed { kind, at } => SpecParse::Failed { kind, at },
            SpecParse::Parsed { v, end } => if v == -1i32 {
                SpecParse::Parsed { v: RoomType::Invalid, end }
            } else if v == 0i32 {
                SpecParse::Parsed { v: RoomType::Indoors, end }
            } else if v == 1i32 {
                SpecParse::Parsed { v: RoomType::Surface, end }
            } else if v == 2i32 {
                SpecParse::Parsed { v: RoomType::Underwater, end }
            } else if v == 3i32 {
                SpecParse::Parsed { v: RoomType::Atmosphere, end }
            } else {
                SpecParse::Failed { kind: ErrorKind::InvalidEnumValue, at: p }
            },
        }
    }

    /// Decodes a room type.
    pub fn parse(input: &[u8], pos: usize) -> (r: Result<(RoomType, usize), ParseError>)
        ensures
            match r {
                Ok((v, end)) => parsed_to(Self::spec_parse(input@, pos as int), v, end)
                    && pos <= end <= input@.len(),
                Err(e) => failed_to(Self::spec_parse(input@, pos as int), e),
            },
    {
        let (v, end) = match read_i32(input, pos) {
            Ok(x) => x,
            Err(e) => {
                return Err(e);
            },
        };
        if v == -1 {
            Ok((RoomType::Invalid, end))
        } else if v == 0 {
            Ok((RoomType::Indoors, end))
        } else if v == 1 {
            Ok((RoomType::Surface, end))
        } else if v == 2 {
            Ok((RoomType::Underwater, end))
        } else if v == 3 {
            Ok((RoomType::Atmosphere, end))
        } else {
            Err(ParseError { kind: ErrorKind::InvalidEnumValue, offset: pos })
        }
    }
}

/// Whether a carried object may be dropped in a room.
#[derive(Clone, Copy, Debug, PartialEq, Eq, Structural)]
pub enum DropStatus {
    Never,
    AboveFloor,
    Always,
}

impl DropStatus {
    /// The drop status encoded as the u32 at position `p`: 0, 1 or 2.
    pub open spec fn spec_parse(b: Seq<u8>, p: int) -> SpecParse<DropStatus> {
        match spec_u32_at(b, p) {
            SpecParse::Failed { kind, at } => SpecParse::Failed { kind, at },
            SpecParse::Parsed { v, end } => if v == 0u32 {
                SpecParse::Parsed { v: DropStatus::Never, end }
            } else if v == 1u32 {
                SpecParse::Parsed { v: DropStatus::AboveFloor, end }
            } else if v == 2u32 {
                SpecParse::Parsed { v: DropStatus::Always, end }
            } else {
                SpecParse::Failed { kind: ErrorKind::InvalidEnumValue, at: p }
            },
        }
    }

    /// Decodes a drop status.
    pub fn parse(input: &[u8], pos: usize) -> (r: Result<(DropStatus, usize), ParseError>)
        ensures
            match r {
                Ok((v, end)) => parsed_to(Self::spec_parse(input@, pos as int), v, end)
                    && pos <= end <= input@.len(),
                Err(e) => failed_to(Self::spec_parse(input@, pos as int), e),
            },
    {
        let (v, end) = match read_u32(input, pos) {
            Ok(x) => x,
            Err(e) => {
                return Err(e);
            },
        };
        if v == 0 {
            Ok((DropStatus::Never, end))
        } else if v == 1 {
            Ok((DropStatus::AboveFloor, end))
        } else if v == 2 {
            Ok((DropStatus::Always, end))
        } else {
            Err(ParseError { kind: ErrorKind::InvalidEnumValue, offset: pos })
        }
    }
}

/// Life stage of one bacteria slot.
#[derive(Clone, Copy, Debug, PartialEq, Eq, Structural)]
pub enum BacteriaState {
    NotPresent,
    Dormant,
    Active,
}

/// The decoded state bits of one bacteria slot.
#[derive(Clone, Copy, Debug, PartialEq, Eq, Structural)]
pub struct BacteriaFlags {
    pub state: BacteriaState,
}

impl BacteriaFlags {
    /// The flags byte at position `p`: its low two bits are the state, 0 to 2.
    pub open spec fn spec_parse(b: Seq<u8>, p: int) -> SpecParse<BacteriaFlags> {
        match spec_u8_at(b, p) {
            SpecParse::Failed { kind, at } => SpecParse::Failed { kind, at },
            SpecParse::Parsed { v, end } => if v & 3 == 0u8 {
                SpecParse::Parsed { v: BacteriaFlags { state: BacteriaState::NotPresent }, end }
            } else if v & 3 == 1u8 {
                SpecParse::Parsed { v: BacteriaFlags { state: BacteriaState::Dormant }, end }
            } else if v & 3 == 2u8 {
                SpecParse::Parsed { v: BacteriaFlags { state: BacteriaState::Active }, end }
            } else {
                SpecParse::Failed { kind: ErrorKind::InvalidEnumValue, at: p }
            },
        }
    }

    /// Decodes a bacteria flags byte.
    pub fn parse(input: &[u8], pos: usize) -> (r: Result<(BacteriaFlags, usize), ParseError>)
        ensures
            match r {
                Ok((v, end)) => parsed_to(Self::spec_parse(input@, pos as int), v, end)
                    && pos <= end <= input@.len(),
                Err(e) => failed_to(Self::spec_parse(input@, pos as int), e),
            },
    {
        let (v, end) = match read_u8(input, pos) {
            Ok(x) => x,
            Err(e) => {
                return Err(e);
            },
        };
        let state = v & 3;
        if state == 0 {
            Ok((BacteriaFlags { state: BacteriaState::NotPresent }, end))
        } else if state == 1 {
            Ok((BacteriaFlags { state: BacteriaState::Dormant }, end))
        } else if state == 2 {
            Ok((BacteriaFlags { state: BacteriaState::Active }, end))
        } else {
            Err(ParseError { kind: ErrorKind::InvalidEnumValue, offset: pos })
        }
    }
}

/// One bacteria slot: state flags, antigen, severity levels and four toxin
/// bytes.
#[derive(Clone, Copy, Debug, PartialEq, Eq)]
pub struct Bacteria {
    pub flags: BacteriaFlags,
    pub antigen: u8,
    pub fatal_level: u8,
    pub infect_level: u8,
    pub toxins: (u8, u8, u8, u8),
}

impl Bacteria {
    /// The bacteria slot at position `p`.
    pub open spec fn spec_parse(b: Seq<u8>, p: int) -> SpecParse<Bacteria> {
        match BacteriaFlags::spec_parse(b, p) {
            SpecParse::Failed { kind, at } => SpecParse::Failed { kind, at },
            SpecParse::Parsed { v: flags, end: p1 } => match spec_u8_at(b, p1) {
                SpecParse::Failed { kind, at } => SpecParse::Failed { kind, at },
                SpecParse::Parsed { v: antigen, end: p2 } => match spec_u8_at(b, p2) {
                    SpecParse::Failed { kind, at } => SpecParse::Failed { kind, at },
                    SpecParse::Parsed { v: fatal_level, end: p3 } => match spec_u8_at(b, p3) {
                        SpecParse::Failed { kind, at } => SpecParse::Failed { kind, at },
                        SpecParse::Parsed { v: infect_level, end: p4 } => match spec_bytes_at(
                            b,
                            p4,
                            4,
                        ) {
                            SpecParse::Failed { kind, at } => SpecParse::Failed { kind, at },
                            SpecParse::Parsed { v: t, end } => SpecParse::Parsed {
                                v: Bacteria {
                                    flags,
                                    antigen,
                                    fatal_level,
                                    infect_level,
                                    toxins: (t[0], t[1], t[2], t[3]),
                                },
                                end,
                            },
                        },
                    },
                },
            },
        }
    }

    /// Decodes one bacteria slot.
    pub fn parse(input: &[u8], pos: usize) -> (r: Result<(Bacteria, usize), ParseError>)
        ensures
            match r {
                Ok((v, end)) => parsed_to(Self::spec_parse(input@, pos as int), v, end)
                    && pos <= end <= input@.len(),
                Err(e) => failed_to(Self::spec_parse(input@, pos as int), e),
            },
    {
        let (flags, p1) = match BacteriaFlags::parse(input, pos) {
            Ok(x) => x,
            Err(e) => {
                return Err(e);
            },
        };
        let (antigen, p2) = match read_u8(input, p1) {
            Ok(x) => x,
            Err(e) => {
                return Err(e);
            },
        };
        let (fatal_level, p3) = match read_u8(input, p2) {
            Ok(x) => x,
            Err(e) => {
                return Err(e);
            },
        };
        let (infect_level, p4) = match read_u8(input, p3) {
            Ok(x) => x,
            Err(e) => {
                return Err(e);
            },
        };
        let (t, end) = match take_bytes(input, p4, 4) {
            Ok(x) => x,
            Err(e) => {
                return Err(e);
            },
        };
        let toxins = (t[0], t[1], t[2], t[3]);
        Ok((Bacteria { flags, antigen, fatal_level, infect_level, toxins }, end))
    }
}

/// `n` consecutive bacteria slots starting at position `p`.
pub open spec fn spec_bacteria_at(b: Seq<u8>, p: int, n: nat) -> SpecParse<Seq<Bacteria>>
    decreases n,
{
    if n == 0 {
        SpecParse::Parsed { v: Seq::empty(), end: p }
    } else {
        match Bacteria::spec_parse(b, p) {
            SpecParse::Failed { kind, at } => SpecParse::Failed { kind, at },
            SpecParse::Parsed { v, end } => match spec_bacteria_at(b, end, (n - 1) as nat) {
                SpecParse::Failed { kind, at } => SpecParse::Failed { kind, at },
                SpecParse::Parsed { v: rest, end: e2 } => SpecParse::Parsed {
                    v: seq![v] + rest,
                    end: e2,
                },
            },
        }
    }
}

/// Decodes `n` consecutive bacteria slots.
fn parse_bacteria(input: &[u8], pos: usize, n: u16) -> (r: Result<(Vec<Bacteria>, usize), ParseError>)
    ensures
        match r {
            Ok((v, end)) => parsed_to(spec_bacteria_at(input@, pos as int, n as nat), v@, end)
                && pos <= end
                && (n == 0 ==> end == pos)
                && (n > 0 ==> end <= input@.len()),
            Err(e) => failed_to(spec_bacteria_at(input@, pos as int, n as nat), e),
        },
{
    let mut items: Vec<Bacteria> = Vec::new();
    let mut p = pos;
    let mut i: u16 = 0;
    while i < n
        invariant
            i <= n,
            pos <= p,
            i > 0 ==> p <= input@.len(),
            spec_bacteria_at(input@, pos as int, n as nat) == prepend(
                items@,
                spec_bacteria_at(input@, p as int, (n - i) as nat),
            ),
        decreases n - i,
    {
        match Bacteria::parse(input, p) {
            Err(e) => {
                proof {
                    assert(spec_bacteria_at(input@, p as int, (n - i) as nat) matches
                        SpecParse::Failed { kind, at } && kind == e.kind && at == e.offset as int);
                }
                return Err(e);
            },
            Ok((v, end)) => {
                proof {
                    match spec_bacteria_at(input@, end as int, (n - i - 1) as nat) {
                        SpecParse::Parsed { v: rest, end: e2 } => {
                            assert(items@ + (seq![v] + rest) =~= items@.push(v) + rest);
                        },
                        SpecParse::Failed { .. } => {},
                    }
                }
                items.push(v);
                p = end;
                i = i + 1;
            },
        }
    }
    proof {
        assert(spec_bacteria_at(input@, p as int, 0) == (SpecParse::Parsed {
            v: Seq::<Bacteria>::empty(),
            end: p as int,
        }));
        assert(items@ + Seq::<Bacteria>::empty() =~= items@);
    }
    Ok((items, p))
}

/// One door: the polymorphic head, how far the door is open, and the id of
/// the room it leads to (a cross-reference, resolved by id lookup).
#[derive(Clone, Debug, PartialEq)]
pub struct DoorPointerArrayItem {
    pub header_or_tag: HeaderOrTag,
    pub amount_open: u8,
    pub room_id: u32,
}

/// Mathematical image of [`DoorPointerArrayItem`].
#[verifier::ext_equal]
pub struct DoorPointerArrayItemV {
    pub header_or_tag: HeaderOrTagV,
    pub amount_open: u8,
    pub room_id: u32,
}

impl View for DoorPointerArrayItem {
    type V = DoorPointerArrayItemV;

    open spec fn view(&self) -> DoorPointerArrayItemV {
        DoorPointerArrayItemV {
            header_or_tag: self.header_or_tag@,
            amount_open: self.amount_open,
            room_id: self.room_id,
        }
    }
}

/// The views of a run of door items.
pub open spec fn door_items_view(s: Seq<DoorPointerArrayItem>) -> Seq<DoorPointerArrayItemV> {
    s.map_values(|x: DoorPointerArrayItem| x@)
}

impl DoorPointerArrayItem {
    /// The door record at position `p` with registry contents `reg`.
    pub open spec fn spec_parse(b: Seq<u8>, p: int, reg: Set<ClassId>) -> SpecParseReg<
        DoorPointerArrayItemV,
    > {
        match spec_header_or_tag(b, p, reg, ClassId::Door) {
            SpecParseReg::Failed { kind, at } => SpecParseReg::Failed { kind, at },
            SpecParseReg::Parsed { v: h, end: p1, reg: r1 } => match spec_u8_at(b, p1) {
                SpecParse::Failed { kind, at } => SpecParseReg::Failed { kind, at },
                SpecParse::Parsed { v: amount_open, end: p2 } => match spec_u32_at(b, p2) {
                    SpecParse::Failed { kind, at } => SpecParseReg::Failed { kind, at },
                    SpecParse::Parsed { v: room_id, end } => SpecParseReg::Parsed {
                        v: DoorPointerArrayItemV { header_or_tag: h, amount_open, room_id },
                        end,
                        reg: r1,
                    },
                },
            },
        }
    }

    /// Decodes one door record.
    pub fn parse(input: &[u8], pos: usize, reg: &mut ClassRegistry) -> (r: Result<
        (DoorPointerArrayItem, usize),
        ParseError,
    >)
        ensures
            match r {
                Ok((v, end)) => parsed_to_reg(
                    Self::spec_parse(input@, pos as int, old(reg)@),
                    v@,
                    end,
                    final(reg)@,
                ) && pos <= end <= input@.len(),
                Err(e) => failed_to_reg(Self::spec_parse(input@, pos as int, old(reg)@), e),
            },
    {
        let (header_or_tag, p1) = match parse_header_or_tag(input, pos, reg, ClassId::Door) {
            Ok(x) => x,
            Err(e) => {
                return Err(e);
            },
        };
        let (amount_open, p2) = match read_u8(input, p1) {
            Ok(x) => x,
            Err(e) => {
                return Err(e);
            },
        };
        let (room_id, end) = match read_u32(input, p2) {
            Ok(x) => x,
            Err(e) => {
                return Err(e);
            },
        };
        Ok((DoorPointerArrayItem { header_or_tag, amount_open, room_id }, end))
    }
}

/// `n` consecutive door records starting at position `p`, threading the
/// registry.
pub open spec fn spec_door_items_at(b: Seq<u8>, p: int, n: nat, reg: Set<ClassId>) -> SpecParseReg<
    Seq<DoorPointerArrayItemV>,
>
    decreases n,
{
    if n == 0 {
        SpecParseReg::Parsed { v: Seq::empty(), end: p, reg }
    } else {
        match DoorPointerArrayItem::spec_parse(b, p, reg) {
            SpecParseReg::Failed { kind, at } => SpecParseReg::Failed { kind, at },
            SpecParseReg::Parsed { v, end, reg: r1 } => match spec_door_items_at(
                b,
                end,
                (n - 1) as nat,
                r1,
            ) {
                SpecParseReg::Failed { kind, at } => SpecParseReg::Failed { kind, at },
                SpecParseReg::Parsed { v: rest, end: e2, reg: r2 } => SpecParseReg::Parsed {
                    v: seq![v] + rest,
                    end: e2,
                    reg: r2,
                },
            },
        }
    }
}

/// Decodes `n` consecutive door records.
fn parse_door_items(input: &[u8], pos: usize, n: u16, reg: &mut ClassRegistry) -> (r: Result<
    (Vec<DoorPointerArrayItem>, usize),
    ParseError,
>)
    ensures
        match r {
            Ok((v, end)) => parsed_to_reg(
                spec_door_items_at(input@, pos as int, n as nat, old(reg)@),
                door_items_view(v@),
                end,
                final(reg)@,
            ) && pos <= end && (n == 0 ==> end == pos) && (n > 0 ==> end <= input@.len()),
            Err(e) => failed_to_reg(spec_door_items_at(input@, pos as int, n as nat, old(reg)@), e),
        },
{
    let mut items: Vec<DoorPointerArrayItem> = Vec::new();
    let mut p = pos;
    let mut i: u16 = 0;
    while i < n
        invariant
            i <= n,
            pos <= p,
            i > 0 ==> p <= input@.len(),
            spec_door_items_at(input@, pos as int, n as nat, old(reg)@) == prepend_reg(
                door_items_view(items@),
                spec_door_items_at(input@, p as int, (n - i) as nat, reg@),
            ),
        decreases n - i,
    {
        let ghost reg_pre = reg@;
        match DoorPointerArrayItem::parse(input, p, reg) {
            Err(e) => {
                proof {
                    assert(spec_door_items_at(input@, p as int, (n - i) as nat, reg_pre) matches
                        SpecParseReg::Failed { kind, at } && kind == e.kind
                        && at == e.offset as int);
                }
                return Err(e);
            },
            Ok((v, end)) => {
                proof {
                    match spec_door_items_at(input@, end as int, (n - i - 1) as nat, reg@) {
                        SpecParseReg::Parsed { v: rest, end: e2, reg: r2 } => {
                            assert(door_items_view(items@) + (seq![v@] + rest)
                                =~= door_items_view(items@.push(v)) + rest);
                        },
                        SpecParseReg::Failed { .. } => {
                            assert(door_items_view(items@.push(v)) =~= door_items_view(items@)
                                + seq![v@]);
                        },
                    }
                }
                items.push(v);
                p = end;
                i = i + 1;
            },
        }
    }
    proof {
        assert(spec_door_items_at(input@, p as int, 0, reg@) == (SpecParseReg::Parsed {
            v: Seq::<DoorPointerArrayItemV>::empty(),
            end: p as int,
            reg: reg@,
        }));
        assert(door_items_view(items@) + Seq::<DoorPointerArrayItemV>::empty() =~= door_items_view(
            items@,
        ));
    }
    Ok((items, p))
}

/// One compass direction's doors: a u16 count (rejected above the ceiling),
/// then that many door records.
#[derive(Clone, Debug, PartialEq)]
pub struct DoorPointerArray {
    pub size: u16,
    pub doors: Vec<DoorPointerArrayItem>,
}

/// Mathematical image of [`DoorPointerArray`].
#[verifier::ext_equal]
pub struct DoorPointerArrayV {
    pub size: u16,
    pub doors: Seq<DoorPointerArrayItemV>,
}

impl View for DoorPointerArray {
    type V = DoorPointerArrayV;

    open spec fn view(&self) -> DoorPointerArrayV {
        DoorPointerArrayV { size: self.size, doors: door_items_view(self.doors@) }
    }
}

impl DoorPointerArray {
    /// The door array at position `p` with registry contents `reg`.
    pub open spec fn spec_parse(b: Seq<u8>, p: int, reg: Set<ClassId>) -> SpecParseReg<
        DoorPointerArrayV,
    > {
        match spec_u16_at(b, p) {
            SpecParse::Failed { kind, at } => SpecParseReg::Failed { kind, at },
            SpecParse::Parsed { v: size, end: p1 } => if size as u32 > COUNT_CEILING {
                SpecParseReg::Failed { kind: ErrorKind::CountOutOfBounds, at: p }
            } else {
                match spec_door_items_at(b, p1, size as nat, reg) {
                    SpecParseReg::Failed { kind, at } => SpecParseReg::Failed { kind, at },
                    SpecParseReg::Parsed { v, end, reg: r1 } => SpecParseReg::Parsed {
                        v: DoorPointerArrayV { size, doors: v },
                        end,
                        reg: r1,
                    },
                }
            },
        }
    }

    /// Decodes one door array.
    pub fn parse(input: &[u8], pos: usize, reg: &mut ClassRegistry) -> (r: Result<
        (DoorPointerArray, usize),
        ParseError,
    >)
        ensures
            match r {
                Ok((v, end)) => parsed_to_reg(
                    Self::spec_parse(input@, pos as int, old(reg)@),
                    v@,
                    end,
                    final(reg)@,
                ) && pos <= end <= input@.len(),
                Err(e) => failed_to_reg(Self::spec_parse(input@, pos as int, old(reg)@), e),
            },
    {
        let (size, p1) = match read_u16(input, pos) {
            Ok(x) => x,
            Err(e) => {
                return Err(e);
            },
        };
        if size as u32 > COUNT_CEILING {
            return Err(ParseError { kind: ErrorKind::CountOutOfBounds, offset: pos });
        }
        let (doors, end) = match parse_door_items(input, p1, size, reg) {
            Ok(x) => x,
            Err(e) => {
                return Err(e);
            },
        };
        Ok((DoorPointerArray { size, doors }, end))
    }
}

/// The four compass-direction door arrays of a room, in stream order.
#[derive(Clone, Debug, PartialEq)]
pub struct Doors {
    pub doors: Vec<DoorPointerArray>,
}

/// Mathematical image of [`Doors`].
#[verifier::ext_equal]
pub struct DoorsV {
    pub doors: Seq<DoorPointerArrayV>,
}

/// The views of a run of door arrays.
pub open spec fn door_arrays_view(s: Seq<DoorPointerArray>) -> Seq<DoorPointerArrayV> {
    s.map_values(|x: DoorPointerArray| x@)
}

impl View for Doors {
    type V = DoorsV;

    open spec fn view(&self) -> DoorsV {
        DoorsV { doors: door_arrays_view(self.doors@) }
    }
}

impl Doors {
    /// The four door arrays at position `p` with registry contents `reg`.
    pub open spec fn spec_parse(b: Seq<u8>, p: int, reg: Set<ClassId>) -> SpecParseReg<DoorsV> {
        match DoorPointerArray::spec_parse(b, p, reg) {
            SpecParseReg::Failed { kind, at } => SpecParseReg::Failed { kind, at },
            SpecParseReg::Parsed { v: d0, end: p1, reg: r1 } => match DoorPointerArray::spec_parse(
                b,
                p1,
                r1,
            ) {
                SpecParseReg::Failed { kind, at } => SpecParseReg::Failed { kind, at },
                SpecParseReg::Parsed { v: d1, end: p2, reg: r2 } => match
                    DoorPointerArray::spec_parse(b, p2, r2) {
                    SpecParseReg::Failed { kind, at } => SpecParseReg::Failed { kind, at },
                    SpecParseReg::Parsed { v: d2, end: p3, reg: r3 } => match
                        DoorPointerArray::spec_parse(b, p3, r3) {
                        SpecParseReg::Failed { kind, at } => SpecParseReg::Failed { kind, at },
                        SpecParseReg::Parsed { v: d3, end, reg: r4 } => SpecParseReg::Parsed {
                            v: DoorsV { doors: seq![d0, d1, d2, d3] },
                            end,
                            reg: r4,
                        },
                    },
                },
            },
        }
    }

    /// Decodes the four door arrays.
    pub fn parse(input: &[u8], pos: usize, reg: &mut ClassRegistry) -> (r: Result<
        (Doors, usize),
        ParseError,
    >)
        ensures
            match r {
                Ok((v, end)) => parsed_to_reg(
                    Self::spec_parse(input@, pos as int, old(reg)@),
                    v@,
                    end,
                    final(reg)@,
                ) && pos <= end <= input@.len(),
                Err(e) => failed_to_reg(Self::spec_parse(input@, pos as int, old(reg)@), e),
            },
    {
        let (d0, p1) = match DoorPointerArray::parse(input, pos, reg) {
            Ok(x) => x,
            Err(e) => {
                return Err(e);
            },
        };
        let (d1, p2) = match DoorPointerArray::parse(input, p1, reg) {
            Ok(x) => x,
            Err(e) => {
                return Err(e);
            },
        };
        let (d2, p3) = match DoorPointerArray::parse(input, p2, reg) {
            Ok(x) => x,
            Err(e) => {
                return Err(e);
            },
        };
        let (d3, end) = match DoorPointerArray::parse(input, p3, reg) {
            Ok(x) => x,
            Err(e) => {
                return Err(e);
            },
        };
        let mut doors: Vec<DoorPointerArray> = Vec::new();
        doors.push(d0);
        doors.push(d1);
        doors.push(d2);
        doors.push(d3);
        proof {
            assert(door_arrays_view(doors@) =~= seq![d0@, d1@, d2@, d3@]);
        }
        Ok((Doors { doors }, end))
    }
}

/// A room: id, world rectangle, doors, environmental scalars, one hundred
/// bacteria slots, a surface polyline, visited flag, music track and drop
/// status.
#[derive(Clone, Debug, PartialEq)]
pub struct RoomPointer {
    pub header_or_tag: HeaderOrTag,
    pub room_id: u32,
    pub map_class_index: u16,
    pub rect: CRect,
    pub doors: Doors,
    pub room_type: RoomType,
    pub floor_value: u8,
    pub inorganic_nutrient: u8,
    pub organic_nutrient: u8,
    pub temperature: u8,
    pub heat_source: i32,
    pub pressure: u8,
    pub pressure_source: i32,
    pub wind: CPoint,
    pub light: u8,
    pub light_source: i32,
    pub radiation: u8,
    pub radiation_source: i32,
    pub bacterium: Vec<Bacteria>,
    pub surface_points: CPointArray,
    pub visited: u32,
    pub music_track: CString,
    pub drop_status: DropStatus,
}

/// Mathematical image of [`RoomPointer`].
#[verifier::ext_equal]
pub struct RoomPointerV {
    pub header_or_tag: HeaderOrTagV,
    pub room_id: u32,
    pub map_class_index: u16,
    pub rect: CRect,
    pub doors: DoorsV,
    pub room_type: RoomType,
    pub floor_value: u8,
    pub inorganic_nutrient: u8,
    pub organic_nutrient: u8,
    pub temperature: u8,
    pub heat_source: i32,
    pub pressure: u8,
    pub pressure_source: i32,
    pub wind: CPoint,
    pub light: u8,
    pub light_source: i32,
    pub radiation: u8,
    pub radiation_source: i32,
    pub bacterium: Seq<Bacteria>,
    pub surface_points: CPointArrayV,
    pub visited: u32,
    pub music_track: CStringV,
    pub drop_status: DropStatus,
}

impl View for RoomPointer {
    type V = RoomPointerV;

    open spec fn view(&self) -> RoomPointerV {
        RoomPointerV {
            header_or_tag: self.header_or_tag@,
            room_id: self.room_id,
            map_class_index: self.map_class_index,
            rect: self.rect,
            doors: self.doors@,
            room_type: self.room_type,
            floor_value: self.floor_value,
            inorganic_nutrient: self.inorganic_nutrient,
            organic_nutrient: self.organic_nutrient,
            temperature: self.temperature,
            heat_source: self.heat_source,
            pressure: self.pressure,
            pressure_source: self.pressure_source,
            wind: self.wind,
            light: self.light,
            light_source: self.light_source,
            radiation: self.radiation,
            radiation_source: self.radiation_source,
            bacterium: self.bacterium@,
            surface_points: self.surface_points@,
            visited: self.visited,
            music_track: self.music_track@,
            drop_status: self.drop_status,
        }
    }
}

impl RoomPointer {
    /// The room record at position `p` with registry contents `reg`.
    pub open spec fn spec_parse(b: Seq<u8>, p: int, reg: Set<ClassId>) -> SpecParseReg<
        RoomPointerV,
    > {
        match spec_header_or_tag(b, p, reg, ClassId::Room) {
            SpecParseReg::Failed { kind, at } => SpecParseReg::Failed { kind, at },
            SpecParseReg::Parsed { v: h, end: p1, reg: r1 } => match spec_u32_at(b, p1) {
                SpecParse::Failed { kind, at } => SpecParseReg::Failed { kind, at },
                SpecParse::Parsed { v: room_id, end: p2 } => match spec_u16_at(b, p2) {
                    SpecParse::Failed { kind, at } => SpecParseReg::Failed { kind, at },
                    SpecParse::Parsed { v: map_class_index, end: p3 } => match CRect::spec_parse(
                        b,
                        p3,
                    ) {
                        SpecParse::Failed { kind, at } => SpecParseReg::Failed { kind, at },
                        SpecParse::Parsed { v: rect, end: p4 } => match Doors::spec_parse(
                            b,
                            p4,
                            r1,
                        ) {
                            SpecParseReg::Failed { kind, at } => SpecParseReg::Failed { kind, at },
                            SpecParseReg::Parsed { v: doors, end: p5, reg: r2 } => Self::spec_parse_env(
                                b,
                                p5,
                                h,
                                room_id,
                                map_class_index,
                                rect,
                                doors,
                                r2,
                            ),
                        },
                    },
                },
            },
        }
    }

    /// The environmental tail of a room record: type, scalars, bacteria,
    /// surface polyline, visited flag, music track and drop status.
    pub open spec fn spec_parse_env(
        b: Seq<u8>,
        p: int,
        h: HeaderOrTagV,
        room_id: u32,
        map_class_index: u16,
        rect: CRect,
        doors: DoorsV,
        reg: Set<ClassId>,
    ) -> SpecParseReg<RoomPointerV> {
        match RoomType::spec_parse(b, p) {
            SpecParse::Failed { kind, at } => SpecParseReg::Failed { kind, at },
            SpecParse::Parsed { v: room_type, end: p1 } => match spec_u8_at(b, p1) {
                SpecParse::Failed { kind, at } => SpecParseReg::Failed { kind, at },
                SpecParse::Parsed { v: floor_value, end: p2 } => match spec_u8_at(b, p2) {
                    SpecParse::Failed { kind, at } => SpecParseReg::Failed { kind, at },
                    SpecParse::Parsed { v: inorganic_nutrient, end: p3 } => match spec_u8_at(
                        b,
                        p3,
                    ) {
                        SpecParse::Failed { kind, at } => SpecParseReg::Failed { kind, at },
                        SpecParse::Parsed { v: organic_nutrient, end: p4 } => match spec_u8_at(
                            b,
                            p4,
                        ) {
                            SpecParse::Failed { kind, at } => SpecParseReg::Failed { kind, at },
                            SpecParse::Parsed { v: temperature, end: p5 } => match spec_i32_at(
                                b,
                                p5,
                            ) {
                                SpecParse::Failed { kind, at } => SpecParseReg::Failed {
                                    kind,
                                    at,
                                },
                                SpecParse::Parsed { v: heat_source, end: p6 } => match spec_u8_at(
                                    b,
                                    p6,
                                ) {
                                    SpecParse::Failed { kind, at } => SpecParseReg::Failed {
                                        kind,
                                        at,
                                    },
                                    SpecParse::Parsed { v: pressure, end: p7 } => match
                                        spec_i32_at(b, p7) {
                                        SpecParse::Failed { kind, at } => SpecParseReg::Failed {
                                            kind,
                                            at,
                                        },
                                        SpecParse::Parsed { v: pressure_source, end: p8 } => match
                                            CPoint::spec_parse(b, p8) {
                                            SpecParse::Failed { kind, at } => SpecParseReg::Failed {
                                                kind,
                                                at,
                                            },
                                            SpecParse::Parsed { v: wind, end: p9 } => Self::spec_parse_light(
                                                b,
                                                p9,
                                                h,
                                                room_id,
                                                map_class_index,
                                                rect,
                                                doors,
                                                room_type,
                                                floor_value,
                                                inorganic_nutrient,
                                                organic_nutrient,
                                                temperature,
                                                heat_source,
                                                pressure,
                                                pressure_source,
                                                wind,
                                                reg,
                                            ),
                                        },
                                    },
                                },
                            },
                        },
                    },
                },
            },
        }
    }

    /// The closing run of a room record, from the light scalar onward.
    pub open spec fn spec_parse_light(
        b: Seq<u8>,
        p: int,
        h: HeaderOrTagV,
        room_id: u32,
        map_class_index: u16,
        rect: CRect,
        doors: DoorsV,
        room_type: RoomType,
        floor_value: u8,
        inorganic_nutrient: u8,
        organic_nutrient: u8,
        temperature: u8,
        heat_source: i32,
        pressure: u8,
        pressure_source: i32,
        wind: CPoint,
        reg: Set<ClassId>,
    ) -> SpecParseReg<RoomPointerV> {
        match spec_u8_at(b, p) {
            SpecParse::Failed { kind, at } => SpecParseReg::Failed { kind, at },
            SpecParse::Parsed { v: light, end: p1 } => match spec_i32_at(b, p1) {
                SpecParse::Failed { kind, at } => SpecParseReg::Failed { kind, at },
                SpecParse::Parsed { v: light_source, end: p2 } => match spec_u8_at(b, p2) {
                    SpecParse::Failed { kind, at } => SpecParseReg::Failed { kind, at },
                    SpecParse::Parsed { v: radiation, end: p3 } => match spec_i32_at(b, p3) {
                        SpecParse::Failed { kind, at } => SpecParseReg::Failed { kind, at },
                        SpecParse::Parsed { v: radiation_source, end: p4 } => match
                            spec_bacteria_at(b, p4, BACTERIA_SLOTS as nat) {
                            SpecParse::Failed { kind, at } => SpecParseReg::Failed { kind, at },
                            SpecParse::Parsed { v: bacterium, end: p5 } => match
                                CPointArray::spec_parse(b, p5) {
                                SpecParse::Failed { kind, at } => SpecParseReg::Failed {
                                    kind,
                                    at,
                                },
                                SpecParse::Parsed { v: surface_points, end: p6 } => match
                                    spec_u32_at(b, p6) {
                                    SpecParse::Failed { kind, at } => SpecParseReg::Failed {
                                        kind,
                                        at,
                                    },
                                    SpecParse::Parsed { v: visited, end: p7 } => match
                                        CString::spec_parse(b, p7) {
                                        SpecParse::Failed { kind, at } => SpecParseReg::Failed {
                                            kind,
                                            at,
                                        },
                                        SpecParse::Parsed { v: music_track, end: p8 } => match
                                            DropStatus::spec_parse(b, p8) {
                                            SpecParse::Failed { kind, at } => SpecParseReg::Failed {
                                                kind,
                                                at,
                                            },
                                            SpecParse::Parsed { v: drop_status, end } => SpecParseReg::Parsed {
                                                v: RoomPointerV {
                                                    header_or_tag: h,
                                                    room_id,
                                                    map_class_index,
                                                    rect,
                                                    doors,
                                                    room_type,
                                                    floor_value,
                                                    inorganic_nutrient,
                                                    organic_nutrient,
                                                    temperature,
                                                    heat_source,
                                                    pressure,
                                                    pressure_source,
                                                    wind,
                                                    light,
                                                    light_source,
                                                    radiation,
                                                    radiation_source,
                                                    bacterium,
                                                    surface_points,
                                                    visited,
                                                    music_track,
                                                    drop_status,
                                                },
                                                end,
                                                reg,
                                            },
                                        },
                                    },
                                },
                            },
                        },
                    },
                },
            },
        }
    }

    /// Decodes one room record.
    #[verifier::rlimit(100)]
    pub fn parse(input: &[u8], pos: usize, reg: &mut ClassRegistry) -> (r: Result<
        (RoomPointer, usize),
        ParseError,
    >)
        ensures
            match r {
                Ok((v, end)) => parsed_to_reg(
                    Self::spec_parse(input@, pos as int, old(reg)@),
                    v@,
                    end,
                    final(reg)@,
                ) && pos <= end <= input@.len(),
                Err(e) => failed_to_reg(Self::spec_parse(input@, pos as int, old(reg)@), e),
            },
    {
        let (header_or_tag, p1) = match parse_header_or_tag(input, pos, reg, ClassId::Room) {
            Ok(x) => x,
            Err(e) => {
                return Err(e);
            },
        };
        let (room_id, p2) = match read_u32(input, p1) {
            Ok(x) => x,
            Err(e) => {
                return Err(e);
            },
        };
        let (map_class_index, p3) = match read_u16(input, p2) {
            Ok(x) => x,
            Err(e) => {
                return Err(e);
            },
        };
        let (rect, p4) = match CRect::parse(input, p3) {
            Ok(x) => x,
            Err(e) => {
                return Err(e);
            },
        };
        let (doors, p5) = match Doors::parse(input, p4, reg) {
            Ok(x) => x,
            Err(e) => {
                return Err(e);
            },
        };
        let (room_type, p6) = match RoomType::parse(input, p5) {
            Ok(x) => x,
            Err(e) => {
                return Err(e);
            },
        };
        let (floor_value, p7) = match read_u8(input, p6) {
            Ok(x) => x,
            Err(e) => {
                return Err(e);
            },
        };
        let (inorganic_nutrient, p8) = match read_u8(input, p7) {
            Ok(x) => x,
            Err(e) => {
                return Err(e);
            },
        };
        let (organic_nutrient, p9) = match read_u8(input, p8) {
            Ok(x) => x,
            Err(e) => {
                return Err(e);
            },
        };
        let (temperature, p10) = match read_u8(input, p9) {
            Ok(x) => x,
            Err(e) => {
                return Err(e);
            },
        };
        let (heat_source, p11) = match read_i32(input, p10) {
            Ok(x) => x,
            Err(e) => {
                return Err(e);
            },
        };
        let (pressure, p12) = match read_u8(input, p11) {
            Ok(x) => x,
            Err(e) => {
                return Err(e);
            },
        };
        let (pressure_source, p13) = match read_i32(input, p12) {
            Ok(x) => x,
            Err(e) => {
                return Err(e);
            },
        };
        let (wind, p14) = match CPoint::parse(input, p13) {
            Ok(x) => x,
            Err(e) => {
                return Err(e);
            },
        };
        let (light, p15) = match read_u8(input, p14) {
            Ok(x) => x,
            Err(e) => {
                return Err(e);
            },
        };
        let (light_source, p16) = match read_i32(input, p15) {
            Ok(x) => x,
            Err(e) => {
                return Err(e);
            },
        };
        let (radiation, p17) = match read_u8(input, p16) {
            Ok(x) => x,
            Err(e) => {
                return Err(e);
            },
        };
        let (radiation_source, p18) = match read_i32(input, p17) {
            Ok(x) => x,
            Err(e) => {
                return Err(e);
            },
        };
        let (bacterium, p19) = match parse_bacteria(input, p18, BACTERIA_SLOTS) {
            Ok(x) => x,
            Err(e) => {
                return Err(e);
            },
        };
        let (surface_points, p20) = match CPointArray::parse(input, p19) {
            Ok(x) => x,
            Err(e) => {
                return Err(e);
            },
        };
        let (visited, p21) = match read_u32(input, p20) {
            Ok(x) => x,
            Err(e) => {
                return Err(e);
            },
        };
        let (music_track, p22) = match CString::parse(input, p21) {
            Ok(x) => x,
            Err(e) => {
                return Err(e);
            },
        };
        let (drop_status, end) = match DropStatus::parse(input, p22) {
            Ok(x) => x,
            Err(e) => {
                return Err(e);
            },
        };
        let room = RoomPointer {
            header_or_tag,
            room_id,
            map_class_index,
            rect,
            doors,
            room_type,
            floor_value,
            inorganic_nutrient,
            organic_nutrient,
            temperature,
            heat_source,
            pressure,
            pressure_source,
            wind,
            light,
            light_source,
            radiation,
            radiation_source,
            bacterium,
            surface_points,
            visited,
            music_track,
            drop_status,
        };
        Ok((room, end))
    }
}

/// The views of a run of rooms.
pub open spec fn rooms_view(s: Seq<RoomPointer>) -> Seq<RoomPointerV> {
    s.map_values(|x: RoomPointer| x@)
}

/// `n` consecutive room records starting at position `p`, threading the
/// registry.
pub open spec fn spec_rooms_at(b: Seq<u8>, p: int, n: nat, reg: Set<ClassId>) -> SpecParseReg<
    Seq<RoomPointerV>,
>
    decreases n,
{
    if n == 0 {
        SpecParseReg::Parsed { v: Seq::empty(), end: p, reg }
    } else {
        match RoomPointer::spec_parse(b, p, reg) {
            SpecParseReg::Failed { kind, at } => SpecParseReg::Failed { kind, at },
            SpecParseReg::Parsed { v, end, reg: r1 } => match spec_rooms_at(
                b,
                end,
                (n - 1) as nat,
                r1,
            ) {
                SpecParseReg::Failed { kind, at } => SpecParseReg::Failed { kind, at },
                SpecParseReg::Parsed { v: rest, end: e2, reg: r2 } => SpecParseReg::Parsed {
                    v: seq![v] + rest,
                    end: e2,
                    reg: r2,
                },
            },
        }
    }
}

/// Decodes `n` consecutive room records.
fn parse_room_items(input: &[u8], pos: usize, n: u32, reg: &mut ClassRegistry) -> (r: Result<
    (Vec<RoomPointer>, usize),
    ParseError,
>)
    ensures
        match r {
            Ok((v, end)) => parsed_to_reg(
                spec_rooms_at(input@, pos as int, n as nat, old(reg)@),
                rooms_view(v@),
                end,
                final(reg)@,
            ) && pos <= end && (n == 0 ==> end == pos) && (n > 0 ==> end <= input@.len()),
            Err(e) => failed_to_reg(spec_rooms_at(input@, pos as int, n as nat, old(reg)@), e),
        },
{
    let mut items: Vec<RoomPointer> = Vec::new();
    let mut p = pos;
    let mut i: u32 = 0;
    while i < n
        invariant
            i <= n,
            pos <= p,
            i > 0 ==> p <= input@.len(),
            spec_rooms_at(input@, pos as int, n as nat, old(reg)@) == prepend_reg(
                rooms_view(items@),
                spec_rooms_at(input@, p as int, (n - i) as nat, reg@),
            ),
        decreases n - i,
    {
        let ghost reg_pre = reg@;
        match RoomPointer::parse(input, p, reg) {
            Err(e) => {
                proof {
                    assert(spec_rooms_at(input@, p as int, (n - i) as nat, reg_pre) matches
                        SpecParseReg::Failed { kind, at } && kind == e.kind
                        && at == e.offset as int);
                }
                return Err(e);
            },
            Ok((v, end)) => {
                proof {
                    match spec_rooms_at(input@, end as int, (n - i - 1) as nat, reg@) {
                        SpecParseReg::Parsed { v: rest, end: e2, reg: r2 } => {
                            assert(rooms_view(items@) + (seq![v@] + rest) =~= rooms_view(
                                items@.push(v),
                            ) + rest);
                        },
                        SpecParseReg::Failed { .. } => {
                            assert(rooms_view(items@.push(v)) =~= rooms_view(items@) + seq![v@]);
                        },
                    }
                }
                items.push(v);
                p = end;
                i = i + 1;
            },
        }
    }
    proof {
        assert(spec_rooms_at(input@, p as int, 0, reg@) == (SpecParseReg::Parsed {
            v: Seq::<RoomPointerV>::empty(),
            end: p as int,
            reg: reg@,
        }));
        assert(rooms_view(items@) + Seq::<RoomPointerV>::empty() =~= rooms_view(items@));
    }
    Ok((items, p))
}

/// The room list: a u32 count (rejected above the ceiling), then that many
/// room records.
#[derive(Clone, Debug, PartialEq)]
pub struct Rooms {
    pub count: u32,
    pub rooms: Vec<RoomPointer>,
}

/// Mathematical image of [`Rooms`].
#[verifier::ext_equal]
pub struct RoomsV {
    pub count: u32,
    pub rooms: Seq<RoomPointerV>,
}

impl View for Rooms {
    type V = RoomsV;

    open spec fn view(&self) -> RoomsV {
        RoomsV { count: self.count, rooms: rooms_view(self.rooms@) }
    }
}

impl Rooms {
    /// The room list at position `p` with registry contents `reg`.
    pub open spec fn spec_parse(b: Seq<u8>, p: int, reg: Set<ClassId>) -> SpecParseReg<RoomsV> {
        match spec_u32_at(b, p) {
            SpecParse::Failed { kind, at } => SpecParseReg::Failed { kind, at },
            SpecParse::Parsed { v: len, end: p1 } => if len > COUNT_CEILING {
                SpecParseReg::Failed { kind: ErrorKind::CountOutOfBounds, at: p }
            } else {
                match spec_rooms_at(b, p1, len as nat, reg) {
                    SpecParseReg::Failed { kind, at } => SpecParseReg::Failed { kind, at },
                    SpecParseReg::Parsed { v, end, reg: r1 } => SpecParseReg::Parsed {
                        v: RoomsV { count: len, rooms: v },
                        end,
                        reg: r1,
                    },
                }
            },
        }
    }

    /// Decodes the room list.
    pub fn parse(input: &[u8], pos: usize, reg: &mut ClassRegistry) -> (r: Result<
        (Rooms, usize),
        ParseError,
    >)
        ensures
            match r {
                Ok((v, end)) => parsed_to_reg(
                    Self::spec_parse(input@, pos as int, old(reg)@),
                    v@,
                    end,
                    final(reg)@,
                ) && pos <= end <= input@.len(),
                Err(e) => failed_to_reg(Self::spec_parse(input@, pos as int, old(reg)@), e),
            },
    {
        let (len, p1) = match read_u32(input, pos) {
            Ok(x) => x,
            Err(e) => {
                return Err(e);
            },
        };
        if len > COUNT_CEILING {
            return Err(ParseError { kind: ErrorKind::CountOutOfBounds, offset: pos });
        }
        let (rooms, end) = match parse_room_items(input, p1, len, reg) {
            Ok(x) => x,
            Err(e) => {
                return Err(e);
            },
        };
        Ok((Rooms { count: len, rooms }, end))
    }
}

} // verus!
