//! In-world agents: the classifier, movement status, attribute bit-flags,
//! object variables, scripts, and the full Object record.

use vstd::prelude::*;

use crate::archive::{HeaderOrTag, HeaderOrTagV, parse_header_or_tag, spec_header_or_tag};
use crate::err::{ErrorKind, ParseError, SpecParse, SpecParseReg, failed_to, failed_to_reg,
    parsed_to, parsed_to_reg, prepend};
use crate::gallery::{CGallery, CGalleryV};
use crate::prim::{spec_u8_at, spec_u16_at, spec_u32_at, spec_i32_at, read_u8, read_u16, read_u32,
    read_i32};
use crate::registry::{ClassId, ClassRegistry};
use crate::structural::{COUNT_CEILING, CPoint, CRect, CString, CStringV};

verus! {

/// Number of object-variable slots every agent carries: fixed, never read
/// from the stream.
pub const OBJVAR_SLOTS: u16 = 100;

/// An agent's classifier: packed family/genus and species/event words.
#[derive(Clone, Copy, Debug, PartialEq, Eq, Structural)]
pub struct Classifier {
    pub family_genus: u16,
    pub species_event: u32,
}

impl Classifier {
    /// The classifier at position `p`.
    pub open spec fn spec_parse(b: Seq<u8>, p: int) -> SpecParse<Classifier> {
        match spec_u16_at(b, p) {
            SpecParse::Failed { kind, at } => SpecParse::Failed { kind, at },
            SpecParse::Parsed { v: family_genus, end: p1 } => match spec_u32_at(b, p1) {
                SpecParse::Failed { kind, at } => SpecParse::Failed { kind, at },
                SpecParse::Parsed { v: species_event, end } => SpecParse::Parsed {
                    v: Classifier { family_genus, species_event },
                    end,
                },
            },
        }
    }

    /// Decodes a classifier.
    pub fn parse(input: &[u8], pos: usize) -> (r: Result<(Classifier, usize), ParseError>)
        ensures
            match r {
                Ok((v, end)) => parsed_to(Self::spec_parse(input@, pos as int), v, end)
                    && pos <= end <= input@.len(),
                Err(e) => failed_to(Self::spec_parse(input@, pos as int), e),
            },
    {
        let (family_genus, p1) = match read_u16(input, pos) {
            Ok(x) => x,
            Err(e) => {
                return Err(e);
            },
        };
        let (species_event, end) = match read_u32(input, p1) {
            Ok(x) => x,
            Err(e) => {
                return Err(e);
            },
        };
        Ok((Classifier { family_genus, species_event }, end))
    }
}

/// How an agent is currently being moved.
#[derive(Clone, Copy, Debug, PartialEq, Eq, Structural)]
pub enum MovementStatus {
    Autonomous,
    MouseDriven,
    Floating,
    InVehicle,
    Carried,
}

impl MovementStatus {
    /// The movement status encoded as the byte at position `p`: 0 to 4.
    pub open spec fn spec_parse(b: Seq<u8>, p: int) -> SpecParse<MovementStatus> {
        match spec_u8_at(b, p) {
            SpecParse::Failed { kind, at } => SpecParse::Failed { kind, at },
            SpecParse::Parsed { v, end } => if v == 0u8 {
                SpecParse::Parsed { v: MovementStatus::Autonomous, end }
            } else if v == 1u8 {
                SpecParse::Parsed { v: MovementStatus::MouseDriven, end }
            } else if v == 2u8 {
                SpecParse::Parsed { v: MovementStatus::Floating, end }
            } else if v == 3u8 {
                SpecParse::Parsed { v: MovementStatus::InVehicle, end }
            } else if v == 4u8 {
                SpecParse::Parsed { v: MovementStatus::Carried, end }
            } else {
                SpecParse::Failed { kind: ErrorKind::InvalidEnumValue, at: p }
            },
        }
    }

    /// Decodes a movement status.
    pub fn parse(input: &[u8], pos: usize) -> (r: Result<(MovementStatus, usize), ParseError>)
        ensures
            match r {
                Ok((v, end)) => parsed_to(Self::spec_parse(input@, pos as int), v, end)
                    && pos <= end <= input@.len(),
                Err(e) => failed_to(Self::spec_parse(input@, pos as int), e),
            },
    {
        let (v, end) = match read_u8(input, pos) {
            Ok(x) => x,
            Err(e) => {
                return Err(e);
            },
        };
        if v == 0 {
            Ok((MovementStatus::Autonomous, end))
        } else if v == 1 {
            Ok((MovementStatus::MouseDriven, end))
        } else if v == 2 {
            Ok((MovementStatus::Floating, end))
        } else if v == 3 {
            Ok((MovementStatus::InVehicle, end))
        } else if v == 4 {
            Ok((MovementStatus::Carried, end))
        } else {
            Err(ParseError { kind: ErrorKind::InvalidEnumValue, offset: pos })
        }
    }
}

/// An agent's attribute bit-flags, one boolean per bit of a single byte.
#[derive(Clone, Copy, Debug, PartialEq, Eq, Structural)]
pub struct Attributes {
    pub carryable: bool,
    pub mouseable: bool,
    pub activatable: bool,
    pub container: bool,
    pub invisible: bool,
    pub floatable: bool,
    pub has_boundaries: bool,
    pub suffers_gravity: bool,
}

impl Attributes {
    /// The attributes unpacked from byte `v`: bit 0 carryable, bit 1
    /// mouseable, bit 2 activatable, bit 3 container, bit 4 invisible,
    /// bit 5 floatable, bit 6 has_boundaries, bit 7 suffers_gravity.
    pub open spec fn spec_from_byte(v: u8) -> Attributes {
        Attributes {
            carryable: v & 0x01 != 0,
            mouseable: v & 0x02 != 0,
            activatable: v & 0x04 != 0,
            container: v & 0x08 != 0,
            invisible: v & 0x10 != 0,
            floatable: v & 0x20 != 0,
            has_boundaries: v & 0x40 != 0,
            suffers_gravity: v & 0x80 != 0,
        }
    }

    /// The attribute flags byte at position `p`.
    pub open spec fn spec_parse(b: Seq<u8>, p: int) -> SpecParse<Attributes> {
        match spec_u8_at(b, p) {
            SpecParse::Failed { kind, at } => SpecParse::Failed { kind, at },
            SpecParse::Parsed { v, end } => SpecParse::Parsed { v: Self::spec_from_byte(v), end },
        }
    }

    /// Unpacks an attributes byte.
    pub fn from_byte(v: u8) -> (r: Attributes)
        ensures
            r == Self::spec_from_byte(v),
    {
        Attributes {
            carryable: v & 0x01 != 0,
            mouseable: v & 0x02 != 0,
            activatable: v & 0x04 != 0,
            container: v & 0x08 != 0,
            invisible: v & 0x10 != 0,
            floatable: v & 0x20 != 0,
            has_boundaries: v & 0x40 != 0,
            suffers_gravity: v & 0x80 != 0,
        }
    }

    /// Decodes an attributes byte.
    pub fn parse(input: &[u8], pos: usize) -> (r: Result<(Attributes, usize), ParseError>)
        ensures
            match r {
                Ok((v, end)) => parsed_to(Self::spec_parse(input@, pos as int), v, end)
                    && pos <= end <= input@.len(),
                Err(e) => failed_to(Self::spec_parse(input@, pos as int), e),
            },
    {
        let (v, end) = match read_u8(input, pos) {
            Ok(x) => x,
            Err(e) => {
                return Err(e);
            },
        };
        Ok((Self::from_byte(v), end))
    }
}

/// One object-variable slot.
#[derive(Clone, Copy, Debug, PartialEq, Eq, Structural)]
pub struct Objvars {
    pub var: u32,
}

impl Objvars {
    /// The object-variable slot at position `p`.
    pub open spec fn spec_parse(b: Seq<u8>, p: int) -> SpecParse<Objvars> {
        match spec_u32_at(b, p) {
            SpecParse::Failed { kind, at } => SpecParse::Failed { kind, at },
            SpecParse::Parsed { v, end } => SpecParse::Parsed { v: Objvars { var: v }, end },
        }
    }

    /// Decodes one object-variable slot.
    pub fn parse(input: &[u8], pos: usize) -> (r: Result<(Objvars, usize), ParseError>)
        ensures
            match r {
                Ok((v, end)) => parsed_to(Self::spec_parse(input@, pos as int), v, end)
                    && pos <= end <= input@.len(),
                Err(e) => failed_to(Self::spec_parse(input@, pos as int), e),
            },
    {
        match read_u32(input, pos) {
            Ok((v, end)) => Ok((Objvars { var: v }, end)),
            Err(e) => Err(e),
        }
    }
}

/// `n` consecutive object-variable slots starting at position `p`.
pub open spec fn spec_objvars_at(b: Seq<u8>, p: int, n: nat) -> SpecParse<Seq<Objvars>>
    decreases n,
{
    if n == 0 {
        SpecParse::Parsed { v: Seq::empty(), end: p }
    } else {
        match Objvars::spec_parse(b, p) {
            SpecParse::Failed { kind, at } => SpecParse::Failed { kind, at },
            SpecParse::Parsed { v, end } => match spec_objvars_at(b, end, (n - 1) as nat) {
                SpecParse::Failed { kind, at } => SpecParse::Failed { kind, at },
                SpecParse::Parsed { v: rest, end: e2 } => SpecParse::Parsed {
                    v: seq![v] + rest,
                    end: e2,
                },
            },
        }
    }
}

/// Decodes `n` consecutive object-variable slots.
pub(crate) fn parse_objvars(input: &[u8], pos: usize, n: u16) -> (r: Result<
    (Vec<Objvars>, usize),
    ParseError,
>)
    ensures
        match r {
            Ok((v, end)) => parsed_to(spec_objvars_at(input@, pos as int, n as nat), v@, end)
                && pos <= end
                && (n == 0 ==> end == pos)
                && (n > 0 ==> end <= input@.len()),
            Err(e) => failed_to(spec_objvars_at(input@, pos as int, n as nat), e),
        },
{
    let mut items: Vec<Objvars> = Vec::new();
    let mut p = pos;
    let mut i: u16 = 0;
    while i < n
        invariant
            i <= n,
            pos <= p,
            i > 0 ==> p <= input@.len(),
            spec_objvars_at(input@, pos as int, n as nat) == prepend(
                items@,
                spec_objvars_at(input@, p as int, (n - i) as nat),
            ),
        decreases n - i,
    {
        match Objvars::parse(input, p) {
            Err(e) => {
                proof {
                    assert(spec_objvars_at(input@, p as int, (n - i) as nat) matches
                        SpecParse::Failed { kind, at } && kind == e.kind && at == e.offset as int);
                }
                return Err(e);
            },
            Ok((v, end)) => {
                proof {
                    match spec_objvars_at(input@, end as int, (n - i - 1) as nat) {
                        SpecParse::Parsed { v: rest, end: e2 } => {
                            assert(items@ + (seq![v] + rest) =~= items@.push(v) + rest);
                        },
                        SpecParse::Failed { .. } => {},
                    }
                }
                items.push(v);
                p = end;
                i = i + 1;
            },
        }
    }
    proof {
        assert(spec_objvars_at(input@, p as int, 0) == (SpecParse::Parsed {
            v: Seq::<Objvars>::empty(),
            end: p as int,
        }));
        assert(items@ + Seq::<Objvars>::empty() =~= items@);
    }
    Ok((items, p))
}

/// One event script: a classifier and the counted script text.
#[derive(Clone, Debug, PartialEq)]
pub struct Script {
    pub classifier: Classifier,
    pub script_body: CString,
}

/// Mathematical image of [`Script`].
#[verifier::ext_equal]
pub struct ScriptV {
    pub classifier: Classifier,
    pub script_body: CStringV,
}

impl View for Script {
    type V = ScriptV;

    open spec fn view(&self) -> ScriptV {
        ScriptV { classifier: self.classifier, script_body: self.script_body@ }
    }
}

/// The views of a run of scripts.
pub open spec fn scripts_view(s: Seq<Script>) -> Seq<ScriptV> {
    s.map_values(|x: Script| x@)
}

impl Script {
    /// The script record at position `p`.
    pub open spec fn spec_parse(b: Seq<u8>, p: int) -> SpecParse<ScriptV> {
        match Classifier::spec_parse(b, p) {
            SpecParse::Failed { kind, at } => SpecParse::Failed { kind, at },
            SpecParse::Parsed { v: classifier, end: p1 } => match CString::spec_parse(b, p1) {
                SpecParse::Failed { kind, at } => SpecParse::Failed { kind, at },
                SpecParse::Parsed { v: script_body, end } => SpecParse::Parsed {
                    v: ScriptV { classifier, script_body },
                    end,
                },
            },
        }
    }

    /// Decodes one script record.
    pub fn parse(input: &[u8], pos: usize) -> (r: Result<(Script, usize), ParseError>)
        ensures
            match r {
                Ok((v, end)) => parsed_to(Self::spec_parse(input@, pos as int), v@, end)
                    && pos <= end <= input@.len(),
                Err(e) => failed_to(Self::spec_parse(input@, pos as int), e),
            },
    {
        let (classifier, p1) = match Classifier::parse(input, pos) {
            Ok(x) => x,
            Err(e) => {
                return Err(e);
            },
        };
        let (script_body, end) = match CString::parse(input, p1) {
            Ok(x) => x,
            Err(e) => {
                return Err(e);
            },
        };
        Ok((Script { classifier, script_body }, end))
    }
}

/// `n` consecutive script records starting at position `p`.
pub open spec fn spec_scripts_at(b: Seq<u8>, p: int, n: nat) -> SpecParse<Seq<ScriptV>>
    decreases n,
{
    if n == 0 {
        SpecParse::Parsed { v: Seq::empty(), end: p }
    } else {
        match Script::spec_parse(b, p) {
            SpecParse::Failed { kind, at } => SpecParse::Failed { kind, at },
            SpecParse::Parsed { v, end } => match spec_scripts_at(b, end, (n - 1) as nat) {
                SpecParse::Failed { kind, at } => SpecParse::Failed { kind, at },
                SpecParse::Parsed { v: rest, end: e2 } => SpecParse::Parsed {
                    v: seq![v] + rest,
                    end: e2,
                },
            },
        }
    }
}

/// Decodes `n` consecutive script records.
pub(crate) fn parse_scripts(input: &[u8], pos: usize, n: u32) -> (r: Result<
    (Vec<Script>, usize),
    ParseError,
>)
    ensures
        match r {
            Ok((v, end)) => parsed_to(
                spec_scripts_at(input@, pos as int, n as nat),
                scripts_view(v@),
                end,
            ) && pos <= end && (n == 0 ==> end == pos) && (n > 0 ==> end <= input@.len()),
            Err(e) => failed_to(spec_scripts_at(input@, pos as int, n as nat), e),
        },
{
    let mut items: Vec<Script> = Vec::new();
    let mut p = pos;
    let mut i: u32 = 0;
    while i < n
        invariant
            i <= n,
            pos <= p,
            i > 0 ==> p <= input@.len(),
            spec_scripts_at(input@, pos as int, n as nat) == prepend(
                scripts_view(items@),
                spec_scripts_at(input@, p as int, (n - i) as nat),
            ),
        decreases n - i,
    {
        match Script::parse(input, p) {
            Err(e) => {
                proof {
                    assert(spec_scripts_at(input@, p as int, (n - i) as nat) matches
                        SpecParse::Failed { kind, at } && kind == e.kind && at == e.offset as int);
                }
                return Err(e);
            },
            Ok((v, end)) => {
                proof {
                    match spec_scripts_at(input@, end as int, (n - i - 1) as nat) {
                        SpecParse::Parsed { v: rest, end: e2 } => {
                            assert(scripts_view(items@) + (seq![v@] + rest) =~= scripts_view(
                                items@.push(v),
                            ) + rest);
                        },
                        SpecParse::Failed { .. } => {
                            assert(scripts_view(items@.push(v)) =~= scripts_view(items@)
                                + seq![v@]);
                        },
                    }
                }
                items.push(v);
                p = end;
                i = i + 1;
            },
        }
    }
    proof {
        assert(spec_scripts_at(input@, p as int, 0) == (SpecParse::Parsed {
            v: Seq::<ScriptV>::empty(),
            end: p as int,
        }));
        assert(scripts_view(items@) + Seq::<ScriptV>::empty() =~= scripts_view(items@));
    }
    Ok((items, p))
}

/// A full in-world object: polymorphic head, identity, movement and
/// attribute state, bounds, gallery, timers, one hundred object variables,
/// physics scalars, room linkage and a counted script list.
#[derive(Clone, Debug, PartialEq)]
pub struct Object {
    pub header_or_tag: HeaderOrTag,
    pub classifier: Classifier,
    pub id: i32,
    pub movement_status: MovementStatus,
    pub attributes: Attributes,
    pub limit: CRect,
    pub vehicle_ptr: u16,
    pub active: u8,
    pub obj_gallery: CGallery,
    pub timer_rate: u32,
    pub timer: u32,
    pub obj_pointer: u16,
    pub active_sound: u32,
    pub vars: Vec<Objvars>,
    pub min_door_size: u8,
    pub range: i32,
    pub falling_object_index: i32,
    pub acceleration_due_to_gravity: i32,
    pub velocity: CPoint,
    pub restitution: i32,
    pub aerodynamic: i32,
    pub current_room: u16,
    pub wall_last_collided: u32,
    pub threat: u8,
    pub running: u8,
    pub num_caos_scripts: u32,
    pub scripts: Vec<Script>,
}

/// Mathematical image of [`Object`].
#[verifier::ext_equal]
pub struct ObjectV {
    pub header_or_tag: HeaderOrTagV,
    pub classifier: Classifier,
    pub id: i32,
    pub movement_status: MovementStatus,
    pub attributes: Attributes,
    pub limit: CRect,
    pub vehicle_ptr: u16,
    pub active: u8,
    pub obj_gallery: CGalleryV,
    pub timer_rate: u32,
    pub timer: u32,
    pub obj_pointer: u16,
    pub active_sound: u32,
    pub vars: Seq<Objvars>,
    pub min_door_size: u8,
    pub range: i32,
    pub falling_object_index: i32,
    pub acceleration_due_to_gravity: i32,
    pub velocity: CPoint,
    pub restitution: i32,
    pub aerodynamic: i32,
    pub current_room: u16,
    pub wall_last_collided: u32,
    pub threat: u8,
    pub running: u8,
    pub num_caos_scripts: u32,
    pub scripts: Seq<ScriptV>,
}

impl View for Object {
    type V = ObjectV;

    open spec fn view(&self) -> ObjectV {
        ObjectV {
            header_or_tag: self.header_or_tag@,
            classifier: self.classifier,
            id: self.id,
            movement_status: self.movement_status,
            attributes: self.attributes,
            limit: self.limit,
            vehicle_ptr: self.vehicle_ptr,
            active: self.active,
            obj_gallery: self.obj_gallery@,
            timer_rate: self.timer_rate,
            timer: self.timer,
            obj_pointer: self.obj_pointer,
            active_sound: self.active_sound,
            vars: self.vars@,
            min_door_size: self.min_door_size,
            range: self.range,
            falling_object_index: self.falling_object_index,
            acceleration_due_to_gravity: self.acceleration_due_to_gravity,
            velocity: self.velocity,
            restitution: self.restitution,
            aerodynamic: self.aerodynamic,
            current_room: self.current_room,
            wall_last_collided: self.wall_last_collided,
            threat: self.threat,
            running: self.running,
            num_caos_scripts: self.num_caos_scripts,
            scripts: scripts_view(self.scripts@),
        }
    }
}

/// The agent fields shared by Object and SimpleObject, gathered as they are
/// decoded; the closing stages of the specification parser fill them in one
/// chunk at a time.
#[verifier::ext_equal]
pub struct AgentCoreV {
    pub classifier: Classifier,
    pub id: i32,
    pub movement_status: MovementStatus,
    pub attributes: Attributes,
    pub limit: CRect,
    pub vehicle_ptr: u16,
    pub active: u8,
    pub obj_gallery: CGalleryV,
    pub timer_rate: u32,
    pub timer: u32,
    pub obj_pointer: u16,
    pub active_sound: u32,
    pub vars: Seq<Objvars>,
    pub min_door_size: u8,
    pub range: i32,
    pub falling_object_index: i32,
    pub acceleration_due_to_gravity: i32,
    pub velocity: CPoint,
    pub restitution: i32,
    pub aerodynamic: i32,
    pub current_room: u16,
    pub wall_last_collided: u32,
    pub threat: u8,
    pub running: u8,
    pub num_caos_scripts: u32,
    pub scripts: Seq<ScriptV>,
}

/// The run of agent fields that Object and SimpleObject share, from the
/// classifier through the script list, beginning at position `p`.
pub open spec fn spec_agent_core_at(b: Seq<u8>, p: int, reg: Set<ClassId>) -> SpecParseReg<
    AgentCoreV,
> {
    match Classifier::spec_parse(b, p) {
        SpecParse::Failed { kind, at } => SpecParseReg::Failed { kind, at },
        SpecParse::Parsed { v: classifier, end: p1 } => match spec_i32_at(b, p1) {
            SpecParse::Failed { kind, at } => SpecParseReg::Failed { kind, at },
            SpecParse::Parsed { v: id, end: p2 } => match MovementStatus::spec_parse(b, p2) {
                SpecParse::Failed { kind, at } => SpecParseReg::Failed { kind, at },
                SpecParse::Parsed { v: movement_status, end: p3 } => match Attributes::spec_parse(
                    b,
                    p3,
                ) {
                    SpecParse::Failed { kind, at } => SpecParseReg::Failed { kind, at },
                    SpecParse::Parsed { v: attributes, end: p4 } => match CRect::spec_parse(
                        b,
                        p4,
                    ) {
                        SpecParse::Failed { kind, at } => SpecParseReg::Failed { kind, at },
                        SpecParse::Parsed { v: limit, end: p5 } => match spec_u16_at(b, p5) {
                            SpecParse::Failed { kind, at } => SpecParseReg::Failed { kind, at },
                            SpecParse::Parsed { v: vehicle_ptr, end: p6 } => match spec_u8_at(
                                b,
                                p6,
                            ) {
                                SpecParse::Failed { kind, at } => SpecParseReg::Failed {
                                    kind,
                                    at,
                                },
                                SpecParse::Parsed { v: active, end: p7 } => match
                                    CGallery::spec_parse(b, p7, reg) {
                                    SpecParseReg::Failed { kind, at } => SpecParseReg::Failed {
                                        kind,
                                        at,
                                    },
                                    SpecParseReg::Parsed { v: obj_gallery, end: p8, reg: r1 } => spec_agent_timers_at(
                                        b,
                                        p8,
                                        classifier,
                                        id,
                                        movement_status,
                                        attributes,
                                        limit,
                                        vehicle_ptr,
                                        active,
                                        obj_gallery,
                                        r1,
                                    ),
                                },
                            },
                        },
                    },
                },
            },
        },
    }
}

/// The timer, object-variable and physics run of the shared agent fields.
pub open spec fn spec_agent_timers_at(
    b: Seq<u8>,
    p: int,
    classifier: Classifier,
    id: i32,
    movement_status: MovementStatus,
    attributes: Attributes,
    limit: CRect,
    vehicle_ptr: u16,
    active: u8,
    obj_gallery: CGalleryV,
    reg: Set<ClassId>,
) -> SpecParseReg<AgentCoreV> {
    match spec_u32_at(b, p) {
        SpecParse::Failed { kind, at } => SpecParseReg::Failed { kind, at },
        SpecParse::Parsed { v: timer_rate, end: p1 } => match spec_u32_at(b, p1) {
            SpecParse::Failed { kind, at } => SpecParseReg::Failed { kind, at },
            SpecParse::Parsed { v: timer, end: p2 } => match spec_u16_at(b, p2) {
                SpecParse::Failed { kind, at } => SpecParseReg::Failed { kind, at },
                SpecParse::Parsed { v: obj_pointer, end: p3 } => match spec_u32_at(b, p3) {
                    SpecParse::Failed { kind, at } => SpecParseReg::Failed { kind, at },
                    SpecParse::Parsed { v: active_sound, end: p4 } => match spec_objvars_at(
                        b,
                        p4,
                        OBJVAR_SLOTS as nat,
                    ) {
                        SpecParse::Failed { kind, at } => SpecParseReg::Failed { kind, at },
                        SpecParse::Parsed { v: vars, end: p5 } => match spec_u8_at(b, p5) {
                            SpecParse::Failed { kind, at } => SpecParseReg::Failed { kind, at },
                            SpecParse::Parsed { v: min_door_size, end: p6 } => match spec_i32_at(
                                b,
                                p6,
                            ) {
                                SpecParse::Failed { kind, at } => SpecParseReg::Failed {
                                    kind,
                                    at,
                                },
                                SpecParse::Parsed { v: range, end: p7 } => match spec_i32_at(
                                    b,
                                    p7,
                                ) {
                                    SpecParse::Failed { kind, at } => SpecParseReg::Failed {
                                        kind,
                                        at,
                                    },
                                    SpecParse::Parsed { v: falling_object_index, end: p8 } => match
                                        spec_i32_at(b, p8) {
                                        SpecParse::Failed { kind, at } => SpecParseReg::Failed {
                                            kind,
                                            at,
                                        },
                                        SpecParse::Parsed {
                                            v: acceleration_due_to_gravity,
                                            end: p9,
                                        } => match CPoint::spec_parse(b, p9) {
                                            SpecParse::Failed { kind, at } => SpecParseReg::Failed {
                                                kind,
                                                at,
                                            },
                                            SpecParse::Parsed { v: velocity, end: p10 } => spec_agent_tail_at(
                                                b,
                                                p10,
                                                classifier,
                                                id,
                                                movement_status,
                                                attributes,
                                                limit,
                                                vehicle_ptr,
                                                active,
                                                obj_gallery,
                                                timer_rate,
                                                timer,
                                                obj_pointer,
                                                active_sound,
                                                vars,
                                                min_door_size,
                                                range,
                                                falling_object_index,
                                                acceleration_due_to_gravity,
                                                velocity,
                                                reg,
                                            ),
                                        },
                                    },
                                },
                            },
                        },
                    },
                },
            },
        },
    }
}

/// A counted script list: a u32 count (rejected above the ceiling), then
/// that many script records, yielding the count and the scripts.
pub open spec fn spec_script_list_at(b: Seq<u8>, p: int) -> SpecParse<(u32, Seq<ScriptV>)> {
    match spec_u32_at(b, p) {
        SpecParse::Failed { kind, at } => SpecParse::Failed { kind, at },
        SpecParse::Parsed { v: n, end: p1 } => if n > COUNT_CEILING {
            SpecParse::Failed { kind: ErrorKind::CountOutOfBounds, at: p }
        } else {
            match spec_scripts_at(b, p1, n as nat) {
                SpecParse::Failed { kind, at } => SpecParse::Failed { kind, at },
                SpecParse::Parsed { v, end } => SpecParse::Parsed { v: (n, v), end },
            }
        },
    }
}

/// The closing run of the shared agent fields, from restitution through the
/// script list. The declared script count is rejected above the ceiling
/// before any script is decoded.
pub open spec fn spec_agent_tail_at(
    b: Seq<u8>,
    p: int,
    classifier: Classifier,
    id: i32,
    movement_status: MovementStatus,
    attributes: Attributes,
    limit: CRect,
    vehicle_ptr: u16,
    active: u8,
    obj_gallery: CGalleryV,
    timer_rate: u32,
    timer: u32,
    obj_pointer: u16,
    active_sound: u32,
    vars: Seq<Objvars>,
    min_door_size: u8,
    range: i32,
    falling_object_index: i32,
    acceleration_due_to_gravity: i32,
    velocity: CPoint,
    reg: Set<ClassId>,
) -> SpecParseReg<AgentCoreV> {
    match spec_i32_at(b, p) {
        SpecParse::Failed { kind, at } => SpecParseReg::Failed { kind, at },
        SpecParse::Parsed { v: restitution, end: p1 } => match spec_i32_at(b, p1) {
            SpecParse::Failed { kind, at } => SpecParseReg::Failed { kind, at },
            SpecParse::Parsed { v: aerodynamic, end: p2 } => match spec_u16_at(b, p2) {
                SpecParse::Failed { kind, at } => SpecParseReg::Failed { kind, at },
                SpecParse::Parsed { v: current_room, end: p3 } => match spec_u32_at(b, p3) {
                    SpecParse::Failed { kind, at } => SpecParseReg::Failed { kind, at },
                    SpecParse::Parsed { v: wall_last_collided, end: p4 } => match spec_u8_at(
                        b,
                        p4,
                    ) {
                        SpecParse::Failed { kind, at } => SpecParseReg::Failed { kind, at },
                        SpecParse::Parsed { v: threat, end: p5 } => match spec_u8_at(b, p5) {
                            SpecParse::Failed { kind, at } => SpecParseReg::Failed { kind, at },
                            SpecParse::Parsed { v: running, end: p6 } => match
                                spec_script_list_at(b, p6) {
                                SpecParse::Failed { kind, at } => SpecParseReg::Failed {
                                    kind,
                                    at,
                                },
                                SpecParse::Parsed { v: script_list, end } => SpecParseReg::Parsed {
                                    v: AgentCoreV {
                                        classifier,
                                        id,
                                        movement_status,
                                        attributes,
                                        limit,
                                        vehicle_ptr,
                                        active,
                                        obj_gallery,
                                        timer_rate,
                                        timer,
                                        obj_pointer,
                                        active_sound,
                                        vars,
                                        min_door_size,
                                        range,
                                        falling_object_index,
                                        acceleration_due_to_gravity,
                                        velocity,
                                        restitution,
                                        aerodynamic,
                                        current_room,
                                        wall_last_collided,
                                        threat,
                                        running,
                                        num_caos_scripts: script_list.0,
                                        scripts: script_list.1,
                                    },
                                    end,
                                    reg,
                                },
                            },
                        },
                    },
                },
            },
        },
    }
}

/// The shared agent fields assembled into an [`ObjectV`] under head `h`.
pub open spec fn object_of_core(h: HeaderOrTagV, core: AgentCoreV) -> ObjectV {
    ObjectV {
        header_or_tag: h,
        classifier: core.classifier,
        id: core.id,
        movement_status: core.movement_status,
        attributes: core.attributes,
        limit: core.limit,
        vehicle_ptr: core.vehicle_ptr,
        active: core.active,
        obj_gallery: core.obj_gallery,
        timer_rate: core.timer_rate,
        timer: core.timer,
        obj_pointer: core.obj_pointer,
        active_sound: core.active_sound,
        vars: core.vars,
        min_door_size: core.min_door_size,
        range: core.range,
        falling_object_index: core.falling_object_index,
        acceleration_due_to_gravity: core.acceleration_due_to_gravity,
        velocity: core.velocity,
        restitution: core.restitution,
        aerodynamic: core.aerodynamic,
        current_room: core.current_room,
        wall_last_collided: core.wall_last_collided,
        threat: core.threat,
        running: core.running,
        num_caos_scripts: core.num_caos_scripts,
        scripts: core.scripts,
    }
}

/// The decoded shared agent fields, as the exec decoder returns them.
pub struct AgentCore {
    pub classifier: Classifier,
    pub id: i32,
    pub movement_status: MovementStatus,
    pub attributes: Attributes,
    pub limit: CRect,
    pub vehicle_ptr: u16,
    pub active: u8,
    pub obj_gallery: CGallery,
    pub timer_rate: u32,
    pub timer: u32,
    pub obj_pointer: u16,
    pub active_sound: u32,
    pub vars: Vec<Objvars>,
    pub min_door_size: u8,
    pub range: i32,
    pub falling_object_index: i32,
    pub acceleration_due_to_gravity: i32,
    pub velocity: CPoint,
    pub restitution: i32,
    pub aerodynamic: i32,
    pub current_room: u16,
    pub wall_last_collided: u32,
    pub threat: u8,
    pub running: u8,
    pub num_caos_scripts: u32,
    pub scripts: Vec<Script>,
}

impl View for AgentCore {
    type V = AgentCoreV;

    open spec fn view(&self) -> AgentCoreV {
        AgentCoreV {
            classifier: self.classifier,
            id: self.id,
            movement_status: self.movement_status,
            attributes: self.attributes,
            limit: self.limit,
            vehicle_ptr: self.vehicle_ptr,
            active: self.active,
            obj_gallery: self.obj_gallery@,
            timer_rate: self.timer_rate,
            timer: self.timer,
            obj_pointer: self.obj_pointer,
            active_sound: self.active_sound,
            vars: self.vars@,
            min_door_size: self.min_door_size,
            range: self.range,
            falling_object_index: self.falling_object_index,
            acceleration_due_to_gravity: self.acceleration_due_to_gravity,
            velocity: self.velocity,
            restitution: self.restitution,
            aerodynamic: self.aerodynamic,
            current_room: self.current_room,
            wall_last_collided: self.wall_last_collided,
            threat: self.threat,
            running: self.running,
            num_caos_scripts: self.num_caos_scripts,
            scripts: scripts_view(self.scripts@),
        }
    }
}

/// Decodes the run of agent fields that Object and SimpleObject share.
#[verifier::rlimit(100)]
pub(crate) fn parse_agent_core(input: &[u8], pos: usize, reg: &mut ClassRegistry) -> (r: Result<
    (AgentCore, usize),
    ParseError,
>)
    ensures
        match r {
            Ok((v, end)) => parsed_to_reg(
                spec_agent_core_at(input@, pos as int, old(reg)@),
                v@,
                end,
                final(reg)@,
            ) && pos <= end <= input@.len(),
            Err(e) => failed_to_reg(spec_agent_core_at(input@, pos as int, old(reg)@), e),
        },
{
    let (classifier, p1) = match Classifier::parse(input, pos) {
        Ok(x) => x,
        Err(e) => {
            return Err(e);
        },
    };
    let (id, p2) = match read_i32(input, p1) {
        Ok(x) => x,
        Err(e) => {
            return Err(e);
        },
    };
    let (movement_status, p3) = match MovementStatus::parse(input, p2) {
        Ok(x) => x,
        Err(e) => {
            return Err(e);
        },
    };
    let (attributes, p4) = match Attributes::parse(input, p3) {
        Ok(x) => x,
        Err(e) => {
            return Err(e);
        },
    };
    let (limit, p5) = match CRect::parse(input, p4) {
        Ok(x) => x,
        Err(e) => {
            return Err(e);
        },
    };
    let (vehicle_ptr, p6) = match read_u16(input, p5) {
        Ok(x) => x,
        Err(e) => {
            return Err(e);
        },
    };
    let (active, p7) = match read_u8(input, p6) {
        Ok(x) => x,
        Err(e) => {
            return Err(e);
        },
    };
    let (obj_gallery, p8) = match CGallery::parse(input, p7, reg) {
        Ok(x) => x,
        Err(e) => {
            return Err(e);
        },
    };
    let (timer_rate, p9) = match read_u32(input, p8) {
        Ok(x) => x,
        Err(e) => {
            return Err(e);
        },
    };
    let (timer, p10) = match read_u32(input, p9) {
        Ok(x) => x,
        Err(e) => {
            return Err(e);
        },
    };
    let (obj_pointer, p11) = match read_u16(input, p10) {
        Ok(x) => x,
        Err(e) => {
            return Err(e);
        },
    };
    let (active_sound, p12) = match read_u32(input, p11) {
        Ok(x) => x,
        Err(e) => {
            return Err(e);
        },
    };
    let (vars, p13) = match parse_objvars(input, p12, OBJVAR_SLOTS) {
        Ok(x) => x,
        Err(e) => {
            return Err(e);
        },
    };
    let (min_door_size, p14) = match read_u8(input, p13) {
        Ok(x) => x,
        Err(e) => {
            return Err(e);
        },
    };
    let (range, p15) = match read_i32(input, p14) {
        Ok(x) => x,
        Err(e) => {
            return Err(e);
        },
    };
    let (falling_object_index, p16) = match read_i32(input, p15) {
        Ok(x) => x,
        Err(e) => {
            return Err(e);
        },
    };
    let (acceleration_due_to_gravity, p17) = match read_i32(input, p16) {
        Ok(x) => x,
        Err(e) => {
            return Err(e);
        },
    };
    let (velocity, p18) = match CPoint::parse(input, p17) {
        Ok(x) => x,
        Err(e) => {
            return Err(e);
        },
    };
    let (restitution, p19) = match read_i32(input, p18) {
        Ok(x) => x,
        Err(e) => {
            return Err(e);
        },
    };
    let (aerodynamic, p20) = match read_i32(input, p19) {
        Ok(x) => x,
        Err(e) => {
            return Err(e);
        },
    };
    let (current_room, p21) = match read_u16(input, p20) {
        Ok(x) => x,
        Err(e) => {
            return Err(e);
        },
    };
    let (wall_last_collided, p22) = match read_u32(input, p21) {
        Ok(x) => x,
        Err(e) => {
            return Err(e);
        },
    };
    let (threat, p23) = match read_u8(input, p22) {
        Ok(x) => x,
        Err(e) => {
            return Err(e);
        },
    };
    let (running, p24) = match read_u8(input, p23) {
        Ok(x) => x,
        Err(e) => {
            return Err(e);
        },
    };
    let (num_caos_scripts, p25) = match read_u32(input, p24) {
        Ok(x) => x,
        Err(e) => {
            return Err(e);
        },
    };
    if num_caos_scripts > COUNT_CEILING {
        return Err(ParseError { kind: ErrorKind::CountOutOfBounds, offset: p24 });
    }
    let (scripts, end) = match parse_scripts(input, p25, num_caos_scripts) {
        Ok(x) => x,
        Err(e) => {
            return Err(e);
        },
    };
    let core = AgentCore {
        classifier,
        id,
        movement_status,
        attributes,
        limit,
        vehicle_ptr,
        active,
        obj_gallery,
        timer_rate,
        timer,
        obj_pointer,
        active_sound,
        vars,
        min_door_size,
        range,
        falling_object_index,
        acceleration_due_to_gravity,
        velocity,
        restitution,
        aerodynamic,
        current_room,
        wall_last_collided,
        threat,
        running,
        num_caos_scripts,
        scripts,
    };
    Ok((core, end))
}

impl Object {
    /// The object record at position `p` with registry contents `reg`.
    pub open spec fn spec_parse(b: Seq<u8>, p: int, reg: Set<ClassId>) -> SpecParseReg<ObjectV> {
        match spec_header_or_tag(b, p, reg, ClassId::Object) {
            SpecParseReg::Failed { kind, at } => SpecParseReg::Failed { kind, at },
            SpecParseReg::Parsed { v: h, end: p1, reg: r1 } => match spec_agent_core_at(
                b,
                p1,
                r1,
            ) {
                SpecParseReg::Failed { kind, at } => SpecParseReg::Failed { kind, at },
                SpecParseReg::Parsed { v: core, end, reg: r2 } => SpecParseReg::Parsed {
                    v: object_of_core(h, core),
                    end,
                    reg: r2,
                },
            },
        }
    }

    /// Decodes one object record.
    pub fn parse(input: &[u8], pos: usize, reg: &mut ClassRegistry) -> (r: Result<
        (Object, usize),
        ParseError,
    >)
        ensures
            match r {
                Ok((v, end)) => parsed_to_reg(
                    Self::spec_parse(input@, pos as int, old(reg)@),
                    v@,
                    end,
                    final(reg)@,
                ) && pos <= end <= input@.len(),
                Err(e) => failed_to_reg(Self::spec_parse(input@, pos as int, old(reg)@), e),
            },
    {
        let (header_or_tag, p1) = match parse_header_or_tag(input, pos, reg, ClassId::Object) {
            Ok(x) => x,
            Err(e) => {
                return Err(e);
            },
        };
        let (core, end) = match parse_agent_core(input, p1, reg) {
            Ok(x) => x,
            Err(e) => {
                return Err(e);
            },
        };
        let object = Object {
            header_or_tag,
            classifier: core.classifier,
            id: core.id,
            movement_status: core.movement_status,
            attributes: core.attributes,
            limit: core.limit,
            vehicle_ptr: core.vehicle_ptr,
            active: core.active,
            obj_gallery: core.obj_gallery,
            timer_rate: core.timer_rate,
            timer: core.timer,
            obj_pointer: core.obj_pointer,
            active_sound: core.active_sound,
            vars: core.vars,
            min_door_size: core.min_door_size,
            range: core.range,
            falling_object_index: core.falling_object_index,
            acceleration_due_to_gravity: core.acceleration_due_to_gravity,
            velocity: core.velocity,
            restitution: core.restitution,
            aerodynamic: core.aerodynamic,
            current_room: core.current_room,
            wall_last_collided: core.wall_last_collided,
            threat: core.threat,
            running: core.running,
            num_caos_scripts: core.num_caos_scripts,
            scripts: core.scripts,
        };
        Ok((object, end))
    }
}

} // verus!
