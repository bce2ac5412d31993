//! Entities and simple objects (scenery agents): a SimpleObject embeds an
//! Entity and extends the shared agent fields with sprite placement, a click
//! mask, a touch flag and two pickup point-arrays.

use vstd::prelude::*;

use crate::archive::{HeaderOrTag, HeaderOrTagV, parse_header_or_tag, spec_header_or_tag};
use crate::err::{ParseError, SpecParse, SpecParseReg, failed_to_reg, parsed_to_reg};
use crate::gallery::{CGallery, CGalleryV};
use crate::object::{AgentCoreV, Attributes, Classifier, MovementStatus, Objvars, Script, ScriptV,
    parse_agent_core, scripts_view, spec_agent_core_at};
use crate::prim::{lossy_of, lossy_string, spec_bytes_at, spec_u8_at, spec_u16_at, spec_i32_at,
    read_u8, read_u16, read_i32, take_bytes};
use crate::registry::{ClassId, ClassRegistry};
use crate::structural::{CPoint, CPointArray, CPointArrayV, CRect};

verus! {

/// Length in bytes of the fixed animation string.
pub const ANIM_BYTES: usize = 99;

/// A sprite entity: gallery linkage, image indices, depth plane, world
/// coordinates, and an animation string present only when the preceding
/// flag byte equals 1.
#[derive(Clone, Debug, PartialEq)]
pub struct Entity {
    pub header_or_tag: HeaderOrTag,
    pub gallery_tag: u16,
    pub image_index: u8,
    pub base_index: u8,
    pub plane: i32,
    pub world_x: i32,
    pub world_y: i32,
    pub anim: String,
}

/// Mathematical image of [`Entity`].
#[verifier::ext_equal]
pub struct EntityV {
    pub header_or_tag: HeaderOrTagV,
    pub gallery_tag: u16,
    pub image_index: u8,
    pub base_index: u8,
    pub plane: i32,
    pub world_x: i32,
    pub world_y: i32,
    pub anim: Seq<char>,
}

impl View for Entity {
    type V = EntityV;

    open spec fn view(&self) -> EntityV {
        EntityV {
            header_or_tag: self.header_or_tag@,
            gallery_tag: self.gallery_tag,
            image_index: self.image_index,
            base_index: self.base_index,
            plane: self.plane,
            world_x: self.world_x,
            world_y: self.world_y,
            anim: self.anim@,
        }
    }
}

impl Entity {
    /// The entity record at position `p` with registry contents `reg`. The
    /// animation string is the lenient decoding of a fixed-size byte run,
    /// present only when the flag byte equals 1; otherwise it is empty.
    pub open spec fn spec_parse(b: Seq<u8>, p: int, reg: Set<ClassId>) -> SpecParseReg<EntityV> {
        match spec_header_or_tag(b, p, reg, ClassId::Entity) {
            SpecParseReg::Failed { kind, at } => SpecParseReg::Failed { kind, at },
            SpecParseReg::Parsed { v: h, end: p1, reg: r1 } => match spec_u16_at(b, p1) {
                SpecParse::Failed { kind, at } => SpecParseReg::Failed { kind, at },
                SpecParse::Parsed { v: gallery_tag, end: p2 } => match spec_u8_at(b, p2) {
                    SpecParse::Failed { kind, at } => SpecParseReg::Failed { kind, at },
                    SpecParse::Parsed { v: image_index, end: p3 } => match spec_u8_at(b, p3) {
                        SpecParse::Failed { kind, at } => SpecParseReg::Failed { kind, at },
                        SpecParse::Parsed { v: base_index, end: p4 } => match spec_i32_at(b, p4) {
                            SpecParse::Failed { kind, at } => SpecParseReg::Failed { kind, at },
                            SpecParse::Parsed { v: plane, end: p5 } => match spec_i32_at(b, p5) {
                                SpecParse::Failed { kind, at } => SpecParseReg::Failed {
                                    kind,
                                    at,
                                },
                                SpecParse::Parsed { v: world_x, end: p6 } => match spec_i32_at(
                                    b,
                                    p6,
                                ) {
                                    SpecParse::Failed { kind, at } => SpecParseReg::Failed {
                                        kind,
                                        at,
                                    },
                                    SpecParse::Parsed { v: world_y, end: p7 } => match spec_u8_at(
                                        b,
                                        p7,
                                    ) {
                                        SpecParse::Failed { kind, at } => SpecParseReg::Failed {
                                            kind,
                                            at,
                                        },
                                        SpecParse::Parsed { v: flag, end: p8 } => if flag == 1u8 {
                                            match spec_bytes_at(b, p8, ANIM_BYTES as int) {
                                                SpecParse::Failed { kind, at } => SpecParseReg::Failed {
                                                    kind,
                                                    at,
                                                },
                                                SpecParse::Parsed { v: raw, end } => SpecParseReg::Parsed {
                                                    v: EntityV {
                                                        header_or_tag: h,
                                                        gallery_tag,
                                                        image_index,
                                                        base_index,
                                                        plane,
                                                        world_x,
                                                        world_y,
                                                        anim: lossy_of(raw),
                                                    },
                                                    end,
                                                    reg: r1,
                                                },
                                            }
                                        } else {
                                            SpecParseReg::Parsed {
                                                v: EntityV {
                                                    header_or_tag: h,
                                                    gallery_tag,
                                                    image_index,
                                                    base_index,
                                                    plane,
                                                    world_x,
                                                    world_y,
                                                    anim: Seq::empty(),
                                                },
                                                end: p8,
                                                reg: r1,
                                            }
                                        },
                                    },
                                },
                            },
                        },
                    },
                },
            },
        }
    }

    /// Decodes one entity record.
    #[verifier::rlimit(60)]
    pub fn parse(input: &[u8], pos: usize, reg: &mut ClassRegistry) -> (r: Result<
        (Entity, usize),
        ParseError,
    >)
        ensures
            match r {
                Ok((v, end)) => parsed_to_reg(
                    Self::spec_parse(input@, pos as int, old(reg)@),
                    v@,
                    end,
                    final(reg)@,
                ) && pos <= end <= input@.len(),
                Err(e) => failed_to_reg(Self::spec_parse(input@, pos as int, old(reg)@), e),
            },
    {
        let (header_or_tag, p1) = match parse_header_or_tag(input, pos, reg, ClassId::Entity) {
            Ok(x) => x,
            Err(e) => {
                return Err(e);
            },
        };
        let (gallery_tag, p2) = match read_u16(input, p1) {
            Ok(x) => x,
            Err(e) => {
                return Err(e);
            },
        };
        let (image_index, p3) = match read_u8(input, p2) {
            Ok(x) => x,
            Err(e) => {
                return Err(e);
            },
        };
        let (base_index, p4) = match read_u8(input, p3) {
            Ok(x) => x,
            Err(e) => {
                return Err(e);
            },
        };
        let (plane, p5) = match read_i32(input, p4) {
            Ok(x) => x,
            Err(e) => {
                return Err(e);
            },
        };
        let (world_x, p6) = match read_i32(input, p5) {
            Ok(x) => x,
            Err(e) => {
                return Err(e);
            },
        };
        let (world_y, p7) = match read_i32(input, p6) {
            Ok(x) => x,
            Err(e) => {
                return Err(e);
            },
        };
        let (flag, p8) = match read_u8(input, p7) {
            Ok(x) => x,
            Err(e) => {
                return Err(e);
            },
        };
        let (anim, end) = if flag == 1 {
            let (raw, e2) = match take_bytes(input, p8, ANIM_BYTES) {
                Ok(x) => x,
                Err(e) => {
                    return Err(e);
                },
            };
            (lossy_string(raw.as_slice()), e2)
        } else {
            (String::new(), p8)
        };
        let entity = Entity {
            header_or_tag,
            gallery_tag,
            image_index,
            base_index,
            plane,
            world_x,
            world_y,
            anim,
        };
        Ok((entity, end))
    }
}

/// A scenery agent: the shared agent fields, an embedded entity, a second
/// sprite-placement block with an unconditional fixed animation string, a
/// click mask, a touch flag and two pickup point-arrays.
#[derive(Debug, PartialEq)]
pub struct SimpleObject {
    pub header_or_tag: HeaderOrTag,
    pub classifier: Classifier,
    pub id: i32,
    pub movement_status: MovementStatus,
    pub attributes: Attributes,
    pub limit: CRect,
    pub vehicle_ptr: u16,
    pub active: u8,
    pub obj_gallery: CGallery,
    pub timer_rate: u32,
    pub timer: u32,
    pub obj_pointer: u16,
    pub active_sound: u32,
    pub vars: Vec<Objvars>,
    pub min_door_size: u8,
    pub range: i32,
    pub falling_object_index: i32,
    pub acceleration_due_to_gravity: i32,
    pub velocity: CPoint,
    pub restitution: i32,
    pub aerodynamic: i32,
    pub current_room: u16,
    pub wall_last_collided: u32,
    pub threat: u8,
    pub running: u8,
    pub num_caos_scripts: u32,
    pub scripts: Vec<Script>,
    pub entity: Entity,
    pub gallery_tag: u16,
    pub image_index: u8,
    pub base_index: u8,
    pub plane: i32,
    pub world_x: i32,
    pub world_y: i32,
    pub flag: u8,
    pub anim: String,
    pub normal_plane: i32,
    pub click: (u8, u8, u8),
    pub touch: u8,
    pub pickup_handle: CPointArray,
    pub pickup_point: CPointArray,
}

/// Mathematical image of [`SimpleObject`].
#[verifier::ext_equal]
pub struct SimpleObjectV {
    pub header_or_tag: HeaderOrTagV,
    pub classifier: Classifier,
    pub id: i32,
    pub movement_status: MovementStatus,
    pub attributes: Attributes,
    pub limit: CRect,
    pub vehicle_ptr: u16,
    pub active: u8,
    pub obj_gallery: CGalleryV,
    pub timer_rate: u32,
    pub timer: u32,
    pub obj_pointer: u16,
    pub active_sound: u32,
    pub vars: Seq<Objvars>,
    pub min_door_size: u8,
    pub range: i32,
    pub falling_object_index: i32,
    pub acceleration_due_to_gravity: i32,
    pub velocity: CPoint,
    pub restitution: i32,
    pub aerodynamic: i32,
    pub current_room: u16,
    pub wall_last_collided: u32,
    pub threat: u8,
    pub running: u8,
    pub num_caos_scripts: u32,
    pub scripts: Seq<ScriptV>,
    pub entity: EntityV,
    pub gallery_tag: u16,
    pub image_index: u8,
    pub base_index: u8,
    pub plane: i32,
    pub world_x: i32,
    pub world_y: i32,
    pub flag: u8,
    pub anim: Seq<char>,
    pub normal_plane: i32,
    pub click: (u8, u8, u8),
    pub touch: u8,
    pub pickup_handle: CPointArrayV,
    pub pickup_point: CPointArrayV,
}

impl View for SimpleObject {
    type V = SimpleObjectV;

    open spec fn view(&self) -> SimpleObjectV {
        SimpleObjectV {
            header_or_tag: self.header_or_tag@,
            classifier: self.classifier,
            id: self.id,
            movement_status: self.movement_status,
            attributes: self.attributes,
            limit: self.limit,
            vehicle_ptr: self.vehicle_ptr,
            active: self.active,
            obj_gallery: self.obj_gallery@,
            timer_rate: self.timer_rate,
            timer: self.timer,
            obj_pointer: self.obj_pointer,
            active_sound: self.active_sound,
            vars: self.vars@,
            min_door_size: self.min_door_size,
            range: self.range,
            falling_object_index: self.falling_object_index,
            acceleration_due_to_gravity: self.acceleration_due_to_gravity,
            velocity: self.velocity,
            restitution: self.restitution,
            aerodynamic: self.aerodynamic,
            current_room: self.current_room,
            wall_last_collided: self.wall_last_collided,
            threat: self.threat,
            running: self.running,
            num_caos_scripts: self.num_caos_scripts,
            scripts: scripts_view(self.scripts@),
            entity: self.entity@,
            gallery_tag: self.gallery_tag,
            image_index: self.image_index,
            base_index: self.base_index,
            plane: self.plane,
            world_x: self.world_x,
            world_y: self.world_y,
            flag: self.flag,
            anim: self.anim@,
            normal_plane: self.normal_plane,
            click: self.click,
            touch: self.touch,
            pickup_handle: self.pickup_handle@,
            pickup_point: self.pickup_point@,
        }
    }
}

impl SimpleObject {
    /// The scenery record at position `p` with registry contents `reg`.
    pub open spec fn spec_parse(b: Seq<u8>, p: int, reg: Set<ClassId>) -> SpecParseReg<
        SimpleObjectV,
    > {
        match spec_header_or_tag(b, p, reg, ClassId::SimpleObject) {
            SpecParseReg::Failed { kind, at } => SpecParseReg::Failed { kind, at },
            SpecParseReg::Parsed { v: h, end: p1, reg: r1 } => match spec_agent_core_at(
                b,
                p1,
                r1,
            ) {
                SpecParseReg::Failed { kind, at } => SpecParseReg::Failed { kind, at },
                SpecParseReg::Parsed { v: core, end: p2, reg: r2 } => match Entity::spec_parse(
                    b,
                    p2,
                    r2,
                ) {
                    SpecParseReg::Failed { kind, at } => SpecParseReg::Failed { kind, at },
                    SpecParseReg::Parsed { v: entity, end: p3, reg: r3 } => Self::spec_parse_tail(
                        b,
                        p3,
                        h,
                        core,
                        entity,
                        r3,
                    ),
                },
            },
        }
    }

    /// The closing run of a scenery record: the second sprite-placement
    /// block, the unconditional animation string, normal plane, click mask,
    /// touch flag and the two pickup point-arrays.
    pub open spec fn spec_parse_tail(
        b: Seq<u8>,
        p: int,
        h: HeaderOrTagV,
        core: AgentCoreV,
        entity: EntityV,
        reg: Set<ClassId>,
    ) -> SpecParseReg<SimpleObjectV> {
        match spec_u16_at(b, p) {
            SpecParse::Failed { kind, at } => SpecParseReg::Failed { kind, at },
            SpecParse::Parsed { v: gallery_tag, end: p1 } => match spec_u8_at(b, p1) {
                SpecParse::Failed { kind, at } => SpecParseReg::Failed { kind, at },
                SpecParse::Parsed { v: image_index, end: p2 } => match spec_u8_at(b, p2) {
                    SpecParse::Failed { kind, at } => SpecParseReg::Failed { kind, at },
                    SpecParse::Parsed { v: base_index, end: p3 } => match spec_i32_at(b, p3) {
                        SpecParse::Failed { kind, at } => SpecParseReg::Failed { kind, at },
                        SpecParse::Parsed { v: plane, end: p4 } => match spec_i32_at(b, p4) {
                            SpecParse::Failed { kind, at } => SpecParseReg::Failed { kind, at },
                            SpecParse::Parsed { v: world_x, end: p5 } => match spec_i32_at(
                                b,
                                p5,
                            ) {
                                SpecParse::Failed { kind, at } => SpecParseReg::Failed {
                                    kind,
                                    at,
                                },
                                SpecParse::Parsed { v: world_y, end: p6 } => match spec_u8_at(
                                    b,
                                    p6,
                                ) {
                                    SpecParse::Failed { kind, at } => SpecParseReg::Failed {
                                        kind,
                                        at,
                                    },
                                    SpecParse::Parsed { v: flag, end: p7 } => match spec_bytes_at(
                                        b,
                                        p7,
                                        ANIM_BYTES as int,
                                    ) {
                                        SpecParse::Failed { kind, at } => SpecParseReg::Failed {
                                            kind,
                                            at,
                                        },
                                        SpecParse::Parsed { v: anim_raw, end: p8 } => match
                                            spec_i32_at(b, p8) {
                                            SpecParse::Failed { kind, at } => SpecParseReg::Failed {
                                                kind,
                                                at,
                                            },
                                            SpecParse::Parsed { v: normal_plane, end: p9 } => match
                                                spec_bytes_at(b, p9, 3) {
                                                SpecParse::Failed { kind, at } => SpecParseReg::Failed {
                                                    kind,
                                                    at,
                                                },
                                                SpecParse::Parsed { v: click_raw, end: p10 } => match
                                                    spec_u8_at(b, p10) {
                                                    SpecParse::Failed { kind, at } => SpecParseReg::Failed {
                                                        kind,
                                                        at,
                                                    },
                                                    SpecParse::Parsed { v: touch, end: p11 } => match
                                                        CPointArray::spec_parse(b, p11) {
                                                        SpecParse::Failed { kind, at } => SpecParseReg::Failed {
                                                            kind,
                                                            at,
                                                        },
                                                        SpecParse::Parsed {
                                                            v: pickup_handle,
                                                            end: p12,
                                                        } => match CPointArray::spec_parse(
                                                            b,
                                                            p12,
                                                        ) {
                                                            SpecParse::Failed { kind, at } => SpecParseReg::Failed {
                                                                kind,
                                                                at,
                                                            },
                                                            SpecParse::Parsed {
                                                                v: pickup_point,
                                                                end,
                                                            } => SpecParseReg::Parsed {
                                                                v: SimpleObjectV {
                                                                    header_or_tag: h,
                                                                    classifier: core.classifier,
                                                                    id: core.id,
                                                                    movement_status: core.movement_status,
                                                                    attributes: core.attributes,
                                                                    limit: core.limit,
                                                                    vehicle_ptr: core.vehicle_ptr,
                                                                    active: core.active,
                                                                    obj_gallery: core.obj_gallery,
                                                                    timer_rate: core.timer_rate,
                                                                    timer: core.timer,
                                                                    obj_pointer: core.obj_pointer,
                                                                    active_sound: core.active_sound,
                                                                    vars: core.vars,
                                                                    min_door_size: core.min_door_size,
                                                                    range: core.range,
                                                                    falling_object_index: core.falling_object_index,
                                                                    acceleration_due_to_gravity: core.acceleration_due_to_gravity,
                                                                    velocity: core.velocity,
                                                                    restitution: core.restitution,
                                                                    aerodynamic: core.aerodynamic,
                                                                    current_room: core.current_room,
                                                                    wall_last_collided: core.wall_last_collided,
                                                                    threat: core.threat,
                                                                    running: core.running,
                                                                    num_caos_scripts: core.num_caos_scripts,
                                                                    scripts: core.scripts,
                                                                    entity,
                                                                    gallery_tag,
                                                                    image_index,
                                                                    base_index,
                                                                    plane,
                                                                    world_x,
                                                                    world_y,
                                                                    flag,
                                                                    anim: lossy_of(anim_raw),
                                                                    normal_plane,
                                                                    click: (
                                                                        click_raw[0],
                                                                        click_raw[1],
                                                                        click_raw[2],
                                                                    ),
                                                                    touch,
                                                                    pickup_handle,
                                                                    pickup_point,
                                                                },
                                                                end,
                                                                reg,
                                                            },
                                                        },
                                                    },
                                                },
                                            },
                                        },
                                    },
                                },
                            },
                        },
                    },
                },
            },
        }
    }

    /// Decodes one scenery record.
    #[verifier::rlimit(100)]
    pub fn parse(input: &[u8], pos: usize, reg: &mut ClassRegistry) -> (r: Result<
        (SimpleObject, usize),
        ParseError,
    >)
        ensures
            match r {
                Ok((v, end)) => parsed_to_reg(
                    Self::spec_parse(input@, pos as int, old(reg)@),
                    v@,
                    end,
                    final(reg)@,
                ) && pos <= end <= input@.len(),
                Err(e) => failed_to_reg(Self::spec_parse(input@, pos as int, old(reg)@), e),
            },
    {
        let (header_or_tag, p1) = match parse_header_or_tag(input, pos, reg, ClassId::SimpleObject) {
            Ok(x) => x,
            Err(e) => {
                return Err(e);
            },
        };
        let (core, p2) = match parse_agent_core(input, p1, reg) {
            Ok(x) => x,
            Err(e) => {
                return Err(e);
            },
        };
        let (entity, p3) = match Entity::parse(input, p2, reg) {
            Ok(x) => x,
            Err(e) => {
                return Err(e);
            },
        };
        let (gallery_tag, p4) = match read_u16(input, p3) {
            Ok(x) => x,
            Err(e) => {
                return Err(e);
            },
        };
        let (image_index, p5) = match read_u8(input, p4) {
            Ok(x) => x,
            Err(e) => {
                return Err(e);
            },
        };
        let (base_index, p6) = match read_u8(input, p5) {
            Ok(x) => x,
            Err(e) => {
                return Err(e);
            },
        };
        let (plane, p7) = match read_i32(input, p6) {
            Ok(x) => x,
            Err(e) => {
                return Err(e);
            },
        };
        let (world_x, p8) = match read_i32(input, p7) {
            Ok(x) => x,
            Err(e) => {
                return Err(e);
            },
        };
        let (world_y, p9) = match read_i32(input, p8) {
            Ok(x) => x,
            Err(e) => {
                return Err(e);
            },
        };
        let (flag, p10) = match read_u8(input, p9) {
            Ok(x) => x,
            Err(e) => {
                return Err(e);
            },
        };
        let (anim_raw, p11) = match take_bytes(input, p10, ANIM_BYTES) {
            Ok(x) => x,
            Err(e) => {
                return Err(e);
            },
        };
        let anim = lossy_string(anim_raw.as_slice());
        let (normal_plane, p12) = match read_i32(input, p11) {
            Ok(x) => x,
            Err(e) => {
                return Err(e);
            },
        };
        let (click_raw, p13) = match take_bytes(input, p12, 3) {
            Ok(x) => x,
            Err(e) => {
                return Err(e);
            },
        };
        let click = (click_raw[0], click_raw[1], click_raw[2]);
        let (touch, p14) = match read_u8(input, p13) {
            Ok(x) => x,
            Err(e) => {
                return Err(e);
            },
        };
        let (pickup_handle, p15) = match CPointArray::parse(input, p14) {
            Ok(x) => x,
            Err(e) => {
                return Err(e);
            },
        };
        let (pickup_point, end) = match CPointArray::parse(input, p15) {
            Ok(x) => x,
            Err(e) => {
                return Err(e);
            },
        };
        let so = SimpleObject {
            header_or_tag,
            classifier: core.classifier,
            id: core.id,
            movement_status: core.movement_status,
            attributes: core.attributes,
            limit: core.limit,
            vehicle_ptr: core.vehicle_ptr,
            active: core.active,
            obj_gallery: core.obj_gallery,
            timer_rate: core.timer_rate,
            timer: core.timer,
            obj_pointer: core.obj_pointer,
            active_sound: core.active_sound,
            vars: core.vars,
            min_door_size: core.min_door_size,
            range: core.range,
            falling_object_index: core.falling_object_index,
            acceleration_due_to_gravity: core.acceleration_due_to_gravity,
            velocity: core.velocity,
            restitution: core.restitution,
            aerodynamic: core.aerodynamic,
            current_room: core.current_room,
            wall_last_collided: core.wall_last_collided,
            threat: core.threat,
            running: core.running,
            num_caos_scripts: core.num_caos_scripts,
            scripts: core.scripts,
            entity,
            gallery_tag,
            image_index,
            base_index,
            plane,
            world_x,
            world_y,
            flag,
            anim,
            normal_plane,
            click,
            touch,
            pickup_handle,
            pickup_point,
        };
        Ok((so, end))
    }
}

} // verus!
