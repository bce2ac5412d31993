//! Laws of the decoder, stated over the specification parsers that every
//! decoding function's contract is pinned to.

use vstd::prelude::*;
use vstd::bytes::spec_u16_from_le_bytes;

use crate::archive::{CArchiveV, CObject, HeaderOrTagV, spec_archive_at, spec_header_or_tag,
    spec_tag_word_at};
use crate::doc::{Doc, DocV, MapData, MapDataFlags, MapDataV, spec_objects_at, spec_scenery_at};
use crate::entity::{SimpleObject, SimpleObjectV};
use crate::err::{ErrorKind, SpecParse, SpecParseReg};
use crate::gallery::{CGallery, CGalleryFlags, CGalleryFlagsV};
use crate::object::{AgentCoreV, Object, ObjectV, Objvars, ScriptV, spec_agent_core_at,
    spec_objvars_at, spec_script_list_at, spec_scripts_at, OBJVAR_SLOTS};
use crate::prim::{spec_u16_at, spec_u32_at};
use crate::registry::{ClassId, spec_class_name};
use crate::room::{Bacteria, DoorPointerArray, DoorPointerArrayV, RoomPointer, RoomPointerV,
    Rooms, RoomsV, spec_bacteria_at, spec_rooms_at, BACTERIA_SLOTS};
use crate::structural::{COUNT_CEILING, CPointArray, CPointArrayV};

verus! {

/// A nonzero tag word found at `p` ends at least two bytes further on and
/// within the buffer.
proof fn lemma_tag_word_bounds(b: Seq<u8>, p: int, v: u16, e: int)
    requires
        spec_tag_word_at(b, p) == (SpecParse::Parsed { v, end: e }),
    ensures
        p + 2 <= e <= b.len(),
    decreases b.len() - p,
{
    match spec_u16_at(b, p) {
        SpecParse::Failed { .. } => {},
        SpecParse::Parsed { v: w, end: q } => {
            if w == 0 {
                lemma_tag_word_bounds(b, q, v, e);
            }
        },
    }
}

/// A successfully decoded archive header spans at least six bytes plus its
/// class name and ends within the buffer.
proof fn lemma_archive_bounds(b: Seq<u8>, p: int, a: CArchiveV, raw: Seq<u8>, e: int)
    requires
        spec_archive_at(b, p) == (SpecParse::Parsed { v: (a, raw), end: e }),
    ensures
        p + 6 + raw.len() <= e <= b.len(),
{
    match spec_tag_word_at(b, p) {
        SpecParse::Failed { .. } => {},
        SpecParse::Parsed { v: tag, end: p1 } => {
            lemma_tag_word_bounds(b, p, tag, p1);
        },
    }
}

/// A buffer shorter than the shortest well-formed map header cannot open a
/// map block.
#[verifier::spinoff_prover]
proof fn lemma_map_block_short(b: Seq<u8>, reg: Set<ClassId>)
    requires
        b.len() < 13,
    ensures
        MapData::spec_parse(b, 0, reg) is Failed,
{
    match spec_archive_at(b, 0) {
        SpecParse::Failed { .. } => {},
        SpecParse::Parsed { v, end } => {
            lemma_archive_bounds(b, 0, v.0, v.1, end);
            assert(v.1.len() < 7);
            assert(spec_class_name(ClassId::MapData).len() == 7);
        },
    }
}

/// Any buffer too short to hold even the shortest well-formed map header is
/// rejected: the parse returns an error and, being verified code, never
/// panics. (The shortest well-formed header is a two-byte tag word, a
/// two-byte schema, a two-byte name length and the seven-byte map-data class
/// name.)
#[verifier::spinoff_prover]
pub proof fn lemma_short_buffer_fails(b: Seq<u8>, reg: Set<ClassId>)
    requires
        b.len() < 13,
    ensures
        Doc::spec_parse(b, 0, reg) is Failed,
{
    lemma_map_block_short(b, reg);
}

/// A buffer that ends inside the very first fixed-size field fails with a
/// structural underrun at offset zero.
pub proof fn lemma_empty_buffer_underrun(b: Seq<u8>, reg: Set<ClassId>)
    requires
        b.len() < 2,
    ensures
        Doc::spec_parse(b, 0, reg) == (SpecParseReg::Failed::<DocV> {
            kind: ErrorKind::StructuralUnderrun,
            at: 0,
        }),
{
}

/// Parsing is a pure function of the buffer and the starting registry:
/// equal buffers under equal registries decode to equal outcomes, so parsing
/// one valid buffer twice yields structurally equal documents.
pub proof fn lemma_parse_deterministic(
    b1: Seq<u8>,
    b2: Seq<u8>,
    reg1: Set<ClassId>,
    reg2: Set<ClassId>,
)
    requires
        b1 == b2,
        reg1 == reg2,
    ensures
        Doc::spec_parse(b1, 0, reg1) == Doc::spec_parse(b2, 0, reg2),
{
}

/// A point array whose declared count exceeds the ceiling is rejected with
/// a count error at the count's own offset, before any point is decoded.
pub proof fn lemma_point_array_count_bound(b: Seq<u8>, p: int, size: u16, p1: int)
    requires
        spec_u16_at(b, p) == (SpecParse::Parsed { v: size, end: p1 }),
        size as u32 > COUNT_CEILING,
    ensures
        CPointArray::spec_parse(b, p) == (SpecParse::Failed::<CPointArrayV> {
            kind: ErrorKind::CountOutOfBounds,
            at: p,
        }),
{
}

/// A door array whose declared count exceeds the ceiling is rejected with a
/// count error at the count's own offset, before any door is decoded.
pub proof fn lemma_door_array_count_bound(
    b: Seq<u8>,
    p: int,
    reg: Set<ClassId>,
    size: u16,
    p1: int,
)
    requires
        spec_u16_at(b, p) == (SpecParse::Parsed { v: size, end: p1 }),
        size as u32 > COUNT_CEILING,
    ensures
        DoorPointerArray::spec_parse(b, p, reg) == (SpecParseReg::Failed::<DoorPointerArrayV> {
            kind: ErrorKind::CountOutOfBounds,
            at: p,
        }),
{
}

/// A room list whose declared count exceeds the ceiling is rejected with a
/// count error at the count's own offset, before any room is decoded.
pub proof fn lemma_rooms_count_bound(b: Seq<u8>, p: int, reg: Set<ClassId>, len: u32, p1: int)
    requires
        spec_u32_at(b, p) == (SpecParse::Parsed { v: len, end: p1 }),
        len > COUNT_CEILING,
    ensures
        Rooms::spec_parse(b, p, reg) == (SpecParseReg::Failed::<RoomsV> {
            kind: ErrorKind::CountOutOfBounds,
            at: p,
        }),
{
}

/// A script list whose declared count exceeds the ceiling is rejected with a
/// count error at the count's own offset, before any script is decoded.
pub proof fn lemma_script_count_bound(b: Seq<u8>, p: int, n: u32, p1: int)
    requires
        spec_u32_at(b, p) == (SpecParse::Parsed { v: n, end: p1 }),
        n > COUNT_CEILING,
    ensures
        spec_script_list_at(b, p) matches SpecParse::Failed { kind, at } && kind
            == ErrorKind::CountOutOfBounds && at == p,
{
}

/// A gallery whose declared image count exceeds the ceiling is rejected with
/// a count error, before any image is decoded.
pub proof fn lemma_gallery_count_bound(
    b: Seq<u8>,
    p: int,
    reg: Set<ClassId>,
    h: HeaderOrTagV,
    p1: int,
    r1: Set<ClassId>,
    flags: CGalleryFlagsV,
    p2: int,
)
    requires
        spec_header_or_tag(b, p, reg, ClassId::Gallery) == (SpecParseReg::Parsed {
            v: h,
            end: p1,
            reg: r1,
        }),
        CGalleryFlags::spec_parse(b, p1) == (SpecParse::Parsed { v: flags, end: p2 }),
        flags.num_images > COUNT_CEILING,
    ensures
        CGallery::spec_parse(b, p, reg) matches SpecParseReg::Failed { kind, at } && kind
            == ErrorKind::CountOutOfBounds && at == p1,
{
}

/// A document whose declared object count exceeds the ceiling is rejected
/// with a count error at the count's own offset, before any object is
/// decoded.
pub proof fn lemma_object_count_bound(
    b: Seq<u8>,
    reg: Set<ClassId>,
    m: MapDataV,
    p1: int,
    r1: Set<ClassId>,
    n: u32,
    p2: int,
)
    requires
        MapData::spec_parse(b, 0, reg) == (SpecParseReg::Parsed { v: m, end: p1, reg: r1 }),
        spec_u32_at(b, p1) == (SpecParse::Parsed { v: n, end: p2 }),
        n > COUNT_CEILING,
    ensures
        Doc::spec_parse(b, 0, reg) matches SpecParseReg::Failed { kind, at } && kind
            == ErrorKind::CountOutOfBounds && at == p1,
{
}

/// A document whose declared scenery count exceeds the ceiling is rejected
/// with a count error at the count's own offset, before any scenery record
/// is decoded.
pub proof fn lemma_scenery_count_bound(
    b: Seq<u8>,
    reg: Set<ClassId>,
    m: MapDataV,
    p1: int,
    r1: Set<ClassId>,
    n_objects: u32,
    p2: int,
    objects: Seq<ObjectV>,
    p3: int,
    r2: Set<ClassId>,
    n: u32,
    p4: int,
)
    requires
        MapData::spec_parse(b, 0, reg) == (SpecParseReg::Parsed { v: m, end: p1, reg: r1 }),
        spec_u32_at(b, p1) == (SpecParse::Parsed { v: n_objects, end: p2 }),
        n_objects <= COUNT_CEILING,
        spec_objects_at(b, p2, n_objects as nat, r1) == (SpecParseReg::Parsed {
            v: objects,
            end: p3,
            reg: r2,
        }),
        spec_u32_at(b, p3) == (SpecParse::Parsed { v: n, end: p4 }),
        n > COUNT_CEILING,
    ensures
        Doc::spec_parse(b, 0, reg) matches SpecParseReg::Failed { kind, at } && kind
            == ErrorKind::CountOutOfBounds && at == p3,
{
}

/// A decoded run of object-variable slots has exactly the requested length.
proof fn lemma_objvars_len(b: Seq<u8>, p: int, n: nat, v: Seq<Objvars>, e: int)
    requires
        spec_objvars_at(b, p, n) == (SpecParse::Parsed { v, end: e }),
    ensures
        v.len() == n,
    decreases n,
{
    if n > 0 {
        match Objvars::spec_parse(b, p) {
            SpecParse::Failed { .. } => {},
            SpecParse::Parsed { v: x, end: q } => {
                match spec_objvars_at(b, q, (n - 1) as nat) {
                    SpecParse::Failed { .. } => {},
                    SpecParse::Parsed { v: rest, end: e2 } => {
                        lemma_objvars_len(b, q, (n - 1) as nat, rest, e2);
                    },
                }
            },
        }
    }
}

/// Quantified form of [`lemma_objvars_len`].
proof fn lemma_objvars_len_all(b: Seq<u8>)
    ensures
        forall|p: int, n: nat| #[trigger]
            spec_objvars_at(b, p, n) matches SpecParse::Parsed { v, end } ==> v.len() == n,
{
    assert forall|p: int, n: nat|
        (#[trigger] spec_objvars_at(b, p, n)) matches SpecParse::Parsed { v, end } ==> v.len()
            == n by {
        match spec_objvars_at(b, p, n) {
            SpecParse::Parsed { v, end } => {
                lemma_objvars_len(b, p, n, v, end);
            },
            SpecParse::Failed { .. } => {},
        }
    }
}

/// A decoded run of scripts has exactly the requested length.
proof fn lemma_scripts_len(b: Seq<u8>, p: int, n: nat, v: Seq<ScriptV>, e: int)
    requires
        spec_scripts_at(b, p, n) == (SpecParse::Parsed { v, end: e }),
    ensures
        v.len() == n,
    decreases n,
{
    if n > 0 {
        match crate::object::Script::spec_parse(b, p) {
            SpecParse::Failed { .. } => {},
            SpecParse::Parsed { v: x, end: q } => {
                match spec_scripts_at(b, q, (n - 1) as nat) {
                    SpecParse::Failed { .. } => {},
                    SpecParse::Parsed { v: rest, end: e2 } => {
                        lemma_scripts_len(b, q, (n - 1) as nat, rest, e2);
                    },
                }
            },
        }
    }
}

/// A decoded script list holds exactly as many scripts as its declared
/// count, which is within the ceiling.
proof fn lemma_script_list_shape(b: Seq<u8>, p: int, v: (u32, Seq<ScriptV>), e: int)
    requires
        spec_script_list_at(b, p) == (SpecParse::Parsed { v, end: e }),
    ensures
        v.1.len() == v.0,
        v.0 <= COUNT_CEILING,
{
    match spec_u32_at(b, p) {
        SpecParse::Failed { .. } => {},
        SpecParse::Parsed { v: n, end: q } => {
            if n <= COUNT_CEILING {
                match spec_scripts_at(b, q, n as nat) {
                    SpecParse::Failed { .. } => {},
                    SpecParse::Parsed { v: ss, end: e2 } => {
                        lemma_scripts_len(b, q, n as nat, ss, e2);
                    },
                }
            }
        },
    }
}

/// Quantified form of [`lemma_script_list_shape`].
proof fn lemma_script_list_shape_all(b: Seq<u8>)
    ensures
        forall|p: int| #[trigger]
            spec_script_list_at(b, p) matches SpecParse::Parsed { v, end } ==> v.1.len() == v.0
                && v.0 <= COUNT_CEILING,
{
    assert forall|p: int|
        (#[trigger] spec_script_list_at(b, p)) matches SpecParse::Parsed { v, end } ==> v.1.len()
            == v.0 && v.0 <= COUNT_CEILING by {
        match spec_script_list_at(b, p) {
            SpecParse::Parsed { v, end } => {
                lemma_script_list_shape(b, p, v, end);
            },
            SpecParse::Failed { .. } => {},
        }
    }
}

/// A decoded run of bacteria slots has exactly the requested length.
proof fn lemma_bacteria_len(b: Seq<u8>, p: int, n: nat, v: Seq<Bacteria>, e: int)
    requires
        spec_bacteria_at(b, p, n) == (SpecParse::Parsed { v, end: e }),
    ensures
        v.len() == n,
    decreases n,
{
    if n > 0 {
        match Bacteria::spec_parse(b, p) {
            SpecParse::Failed { .. } => {},
            SpecParse::Parsed { v: x, end: q } => {
                match spec_bacteria_at(b, q, (n - 1) as nat) {
                    SpecParse::Failed { .. } => {},
                    SpecParse::Parsed { v: rest, end: e2 } => {
                        lemma_bacteria_len(b, q, (n - 1) as nat, rest, e2);
                    },
                }
            },
        }
    }
}

/// Quantified form of [`lemma_bacteria_len`].
proof fn lemma_bacteria_len_all(b: Seq<u8>)
    ensures
        forall|p: int, n: nat| #[trigger]
            spec_bacteria_at(b, p, n) matches SpecParse::Parsed { v, end } ==> v.len() == n,
{
    assert forall|p: int, n: nat|
        (#[trigger] spec_bacteria_at(b, p, n)) matches SpecParse::Parsed { v, end } ==> v.len()
            == n by {
        match spec_bacteria_at(b, p, n) {
            SpecParse::Parsed { v, end } => {
                lemma_bacteria_len(b, p, n, v, end);
            },
            SpecParse::Failed { .. } => {},
        }
    }
}

/// A decoded run of points has exactly the requested length.
proof fn lemma_points_len(b: Seq<u8>, p: int, n: nat, v: Seq<crate::structural::CPoint>, e: int)
    requires
        crate::structural::spec_points_at(b, p, n) == (SpecParse::Parsed { v, end: e }),
    ensures
        v.len() == n,
    decreases n,
{
    if n > 0 {
        match crate::structural::CPoint::spec_parse(b, p) {
            SpecParse::Failed { .. } => {},
            SpecParse::Parsed { v: x, end: q } => {
                match crate::structural::spec_points_at(b, q, (n - 1) as nat) {
                    SpecParse::Failed { .. } => {},
                    SpecParse::Parsed { v: rest, end: e2 } => {
                        lemma_points_len(b, q, (n - 1) as nat, rest, e2);
                    },
                }
            },
        }
    }
}

/// A decoded point array holds exactly as many points as its declared size,
/// which is within the ceiling.
proof fn lemma_point_array_shape(b: Seq<u8>, p: int, a: CPointArrayV, e: int)
    requires
        CPointArray::spec_parse(b, p) == (SpecParse::Parsed { v: a, end: e }),
    ensures
        a.points.len() == a.size,
        a.size as u32 <= COUNT_CEILING,
{
    match spec_u16_at(b, p) {
        SpecParse::Failed { .. } => {},
        SpecParse::Parsed { v: size, end: q } => {
            if size as u32 <= COUNT_CEILING {
                match crate::structural::spec_points_at(b, q, size as nat) {
                    SpecParse::Failed { .. } => {},
                    SpecParse::Parsed { v, end } => {
                        lemma_points_len(b, q, size as nat, v, end);
                    },
                }
            }
        },
    }
}

/// Quantified form of [`lemma_point_array_shape`].
proof fn lemma_point_array_shape_all(b: Seq<u8>)
    ensures
        forall|p: int|
            (#[trigger] CPointArray::spec_parse(b, p)) matches SpecParse::Parsed { v, end }
                ==> v.points.len() == v.size && v.size as u32 <= COUNT_CEILING,
{
    assert forall|p: int|
        (#[trigger] CPointArray::spec_parse(b, p)) matches SpecParse::Parsed { v, end }
            ==> v.points.len() == v.size && v.size as u32 <= COUNT_CEILING by {
        match CPointArray::spec_parse(b, p) {
            SpecParse::Parsed { v, end } => {
                lemma_point_array_shape(b, p, v, end);
            },
            SpecParse::Failed { .. } => {},
        }
    }
}

/// The shared agent fields always decode exactly one hundred object-variable
/// slots, and exactly as many scripts as the declared script count, which is
/// within the ceiling.
#[verifier::spinoff_prover]
#[verifier::rlimit(100)]
proof fn lemma_agent_core_shape(
    b: Seq<u8>,
    p: int,
    reg: Set<ClassId>,
    core: AgentCoreV,
    e: int,
    rr: Set<ClassId>,
)
    requires
        spec_agent_core_at(b, p, reg) == (SpecParseReg::Parsed { v: core, end: e, reg: rr }),
    ensures
        core.vars.len() == OBJVAR_SLOTS,
        core.scripts.len() == core.num_caos_scripts,
        core.num_caos_scripts <= COUNT_CEILING,
{
    lemma_objvars_len_all(b);
    lemma_script_list_shape_all(b);
}

/// An object record always carries exactly one hundred object-variable slots
/// and exactly as many scripts as its declared count, which is within the
/// ceiling.
pub proof fn lemma_object_slots(
    b: Seq<u8>,
    p: int,
    reg: Set<ClassId>,
    o: ObjectV,
    e: int,
    rr: Set<ClassId>,
)
    requires
        Object::spec_parse(b, p, reg) == (SpecParseReg::Parsed { v: o, end: e, reg: rr }),
    ensures
        o.vars.len() == OBJVAR_SLOTS,
        o.scripts.len() == o.num_caos_scripts,
        o.num_caos_scripts <= COUNT_CEILING,
{
    match spec_header_or_tag(b, p, reg, ClassId::Object) {
        SpecParseReg::Failed { .. } => {},
        SpecParseReg::Parsed { v: h, end: p1, reg: r1 } => {
            match spec_agent_core_at(b, p1, r1) {
                SpecParseReg::Failed { .. } => {},
                SpecParseReg::Parsed { v: core, end: e2, reg: r2 } => {
                    lemma_agent_core_shape(b, p1, r1, core, e2, r2);
                },
            }
        },
    }
}

/// A scenery record always carries exactly one hundred object-variable
/// slots, exactly as many scripts as its declared count (within the
/// ceiling), and pickup point-arrays of exactly their declared sizes.
#[verifier::spinoff_prover]
#[verifier::rlimit(100)]
pub proof fn lemma_simple_object_slots(
    b: Seq<u8>,
    p: int,
    reg: Set<ClassId>,
    s: SimpleObjectV,
    e: int,
    rr: Set<ClassId>,
)
    requires
        SimpleObject::spec_parse(b, p, reg) == (SpecParseReg::Parsed { v: s, end: e, reg: rr }),
    ensures
        s.vars.len() == OBJVAR_SLOTS,
        s.scripts.len() == s.num_caos_scripts,
        s.num_caos_scripts <= COUNT_CEILING,
        s.pickup_handle.points.len() == s.pickup_handle.size,
        s.pickup_point.points.len() == s.pickup_point.size,
{
    lemma_point_array_shape_all(b);
    match spec_header_or_tag(b, p, reg, ClassId::SimpleObject) {
        SpecParseReg::Failed { .. } => {},
        SpecParseReg::Parsed { v: h, end: p1, reg: r1 } => {
            match spec_agent_core_at(b, p1, r1) {
                SpecParseReg::Failed { .. } => {},
                SpecParseReg::Parsed { v: core, end: p2, reg: r2 } => {
                    lemma_agent_core_shape(b, p1, r1, core, p2, r2);
                },
            }
        },
    }
}

/// A room record always carries exactly one hundred bacteria slots, four
/// compass-direction door arrays, and a surface polyline of exactly its
/// declared size.
#[verifier::spinoff_prover]
#[verifier::rlimit(100)]
pub proof fn lemma_room_slots(
    b: Seq<u8>,
    p: int,
    reg: Set<ClassId>,
    r: RoomPointerV,
    e: int,
    rr: Set<ClassId>,
)
    requires
        RoomPointer::spec_parse(b, p, reg) == (SpecParseReg::Parsed { v: r, end: e, reg: rr }),
    ensures
        r.bacterium.len() == BACTERIA_SLOTS,
        r.doors.doors.len() == 4,
        r.surface_points.points.len() == r.surface_points.size,
{
    lemma_bacteria_len_all(b);
    lemma_point_array_shape_all(b);
}

/// A decoded run of rooms has exactly the requested length, and each room in
/// it has the fixed slot shape of [`lemma_room_slots`].
proof fn lemma_rooms_members(
    b: Seq<u8>,
    p: int,
    n: nat,
    reg: Set<ClassId>,
    v: Seq<RoomPointerV>,
    e: int,
    rr: Set<ClassId>,
)
    requires
        spec_rooms_at(b, p, n, reg) == (SpecParseReg::Parsed { v, end: e, reg: rr }),
    ensures
        v.len() == n,
        forall|i: int|
            0 <= i < v.len() ==> (#[trigger] v[i]).bacterium.len() == BACTERIA_SLOTS
                && v[i].doors.doors.len() == 4
                && v[i].surface_points.points.len() == v[i].surface_points.size,
    decreases n,
{
    if n > 0 {
        match RoomPointer::spec_parse(b, p, reg) {
            SpecParseReg::Failed { .. } => {},
            SpecParseReg::Parsed { v: x, end: q, reg: r1 } => {
                lemma_room_slots(b, p, reg, x, q, r1);
                match spec_rooms_at(b, q, (n - 1) as nat, r1) {
                    SpecParseReg::Failed { .. } => {},
                    SpecParseReg::Parsed { v: rest, end: e2, reg: r2 } => {
                        lemma_rooms_members(b, q, (n - 1) as nat, r1, rest, e2, r2);
                    },
                }
            },
        }
    }
}

/// A decoded run of objects has exactly the requested length, and each
/// object in it has the fixed slot shape of [`lemma_object_slots`].
proof fn lemma_objects_members(
    b: Seq<u8>,
    p: int,
    n: nat,
    reg: Set<ClassId>,
    v: Seq<ObjectV>,
    e: int,
    rr: Set<ClassId>,
)
    requires
        spec_objects_at(b, p, n, reg) == (SpecParseReg::Parsed { v, end: e, reg: rr }),
    ensures
        v.len() == n,
        forall|i: int|
            0 <= i < v.len() ==> (#[trigger] v[i]).vars.len() == OBJVAR_SLOTS
                && v[i].scripts.len() == v[i].num_caos_scripts
                && v[i].num_caos_scripts <= COUNT_CEILING,
    decreases n,
{
    if n > 0 {
        match Object::spec_parse(b, p, reg) {
            SpecParseReg::Failed { .. } => {},
            SpecParseReg::Parsed { v: x, end: q, reg: r1 } => {
                lemma_object_slots(b, p, reg, x, q, r1);
                match spec_objects_at(b, q, (n - 1) as nat, r1) {
                    SpecParseReg::Failed { .. } => {},
                    SpecParseReg::Parsed { v: rest, end: e2, reg: r2 } => {
                        lemma_objects_members(b, q, (n - 1) as nat, r1, rest, e2, r2);
                    },
                }
            },
        }
    }
}

/// A decoded run of scenery records has exactly the requested length, and
/// each record in it has the fixed slot shape of
/// [`lemma_simple_object_slots`].
proof fn lemma_scenery_members(
    b: Seq<u8>,
    p: int,
    n: nat,
    reg: Set<ClassId>,
    v: Seq<SimpleObjectV>,
    e: int,
    rr: Set<ClassId>,
)
    requires
        spec_scenery_at(b, p, n, reg) == (SpecParseReg::Parsed { v, end: e, reg: rr }),
    ensures
        v.len() == n,
        forall|i: int|
            0 <= i < v.len() ==> (#[trigger] v[i]).vars.len() == OBJVAR_SLOTS
                && v[i].scripts.len() == v[i].num_caos_scripts
                && v[i].num_caos_scripts <= COUNT_CEILING,
    decreases n,
{
    if n > 0 {
        match SimpleObject::spec_parse(b, p, reg) {
            SpecParseReg::Failed { .. } => {},
            SpecParseReg::Parsed { v: x, end: q, reg: r1 } => {
                lemma_simple_object_slots(b, p, reg, x, q, r1);
                match spec_scenery_at(b, q, (n - 1) as nat, r1) {
                    SpecParseReg::Failed { .. } => {},
                    SpecParseReg::Parsed { v: rest, end: e2, reg: r2 } => {
                        lemma_scenery_members(b, q, (n - 1) as nat, r1, rest, e2, r2);
                    },
                }
            },
        }
    }
}

/// Every successfully decoded document has the fixed shape the data model
/// demands: each decoded list holds exactly as many records as its declared
/// count, every declared count is within the ceiling, every room carries
/// exactly one hundred bacteria slots and four door arrays, and every agent
/// carries exactly one hundred object-variable slots and exactly its
/// declared number of scripts.
#[verifier::spinoff_prover]
#[verifier::rlimit(100)]
pub proof fn lemma_document_shape(
    b: Seq<u8>,
    reg: Set<ClassId>,
    d: DocV,
    e: int,
    rr: Set<ClassId>,
)
    requires
        Doc::spec_parse(b, 0, reg) == (SpecParseReg::Parsed { v: d, end: e, reg: rr }),
    ensures
        d.map.rooms.rooms.len() == d.map.rooms.count,
        d.map.rooms.count <= COUNT_CEILING,
        d.objects.len() == d.num_objects,
        d.num_objects <= COUNT_CEILING,
        d.simple_object_pointer.len() == d.num_scenery,
        d.num_scenery <= COUNT_CEILING,
        forall|i: int|
            0 <= i < d.map.rooms.rooms.len() ==> (#[trigger] d.map.rooms.rooms[i]).bacterium.len()
                == BACTERIA_SLOTS && d.map.rooms.rooms[i].doors.doors.len() == 4
                && d.map.rooms.rooms[i].surface_points.points.len()
                == d.map.rooms.rooms[i].surface_points.size,
        forall|i: int|
            0 <= i < d.objects.len() ==> (#[trigger] d.objects[i]).vars.len() == OBJVAR_SLOTS
                && d.objects[i].scripts.len() == d.objects[i].num_caos_scripts,
        forall|i: int|
            0 <= i < d.simple_object_pointer.len() ==> (#[trigger] d.simple_object_pointer[i]).vars.len()
                == OBJVAR_SLOTS && d.simple_object_pointer[i].scripts.len()
                == d.simple_object_pointer[i].num_caos_scripts,
{
    match MapData::spec_parse(b, 0, reg) {
        SpecParseReg::Failed { .. } => {},
        SpecParseReg::Parsed { v: m, end: p1, reg: r1 } => {
            match spec_archive_at(b, 0) {
                SpecParse::Failed { .. } => {},
                SpecParse::Parsed { v: arch, end: q1 } => {
                    match MapDataFlags::spec_parse(b, q1) {
                        SpecParse::Failed { .. } => {},
                        SpecParse::Parsed { v: flags, end: q2 } => {
                            match CGallery::spec_parse(b, q2, reg) {
                                SpecParseReg::Failed { .. } => {},
                                SpecParseReg::Parsed { v: g, end: q3, reg: g1 } => {
                                    match spec_u32_at(b, q3) {
                                        SpecParse::Failed { .. } => {},
                                        SpecParse::Parsed { v: room_count, end: q4 } => {
                                            if room_count <= COUNT_CEILING {
                                                match spec_rooms_at(
                                                    b,
                                                    q4,
                                                    room_count as nat,
                                                    g1,
                                                ) {
                                                    SpecParseReg::Failed { .. } => {},
                                                    SpecParseReg::Parsed {
                                                        v: rs,
                                                        end: q5,
                                                        reg: g2,
                                                    } => {
                                                        lemma_rooms_members(
                                                            b,
                                                            q4,
                                                            room_count as nat,
                                                            g1,
                                                            rs,
                                                            q5,
                                                            g2,
                                                        );
                                                    },
                                                }
                                            }
                                        },
                                    }
                                },
                            }
                        },
                    }
                },
            }
            match spec_u32_at(b, p1) {
                SpecParse::Failed { .. } => {},
                SpecParse::Parsed { v: n_obj, end: p2 } => {
                    if n_obj <= COUNT_CEILING {
                        match spec_objects_at(b, p2, n_obj as nat, r1) {
                            SpecParseReg::Failed { .. } => {},
                            SpecParseReg::Parsed { v: os, end: p3, reg: r2 } => {
                                lemma_objects_members(b, p2, n_obj as nat, r1, os, p3, r2);
                                match spec_u32_at(b, p3) {
                                    SpecParse::Failed { .. } => {},
                                    SpecParse::Parsed { v: n_sc, end: p4 } => {
                                        if n_sc <= COUNT_CEILING {
                                            match spec_scenery_at(b, p4, n_sc as nat, r2) {
                                                SpecParseReg::Failed { .. } => {},
                                                SpecParseReg::Parsed {
                                                    v: ss,
                                                    end: p5,
                                                    reg: r3,
                                                } => {
                                                    lemma_scenery_members(
                                                        b,
                                                        p4,
                                                        n_sc as nat,
                                                        r2,
                                                        ss,
                                                        p5,
                                                        r3,
                                                    );
                                                },
                                            }
                                        }
                                    },
                                }
                            },
                        }
                    }
                },
            }
        },
    }
}

/// Once a class's full header has been seen, every later occurrence of that
/// class decodes through the compact branch: exactly one two-byte tag is
/// read and the registry is left unchanged. Registry state thus persists
/// across sibling records.
pub proof fn lemma_registered_class_takes_tag_branch(
    b: Seq<u8>,
    p: int,
    reg: Set<ClassId>,
    c: ClassId,
)
    requires
        reg.contains(c),
        0 <= p,
        p + 2 <= b.len(),
    ensures
        spec_header_or_tag(b, p, reg, c) == (SpecParseReg::Parsed {
            v: HeaderOrTagV::Tag(CObject { tag: spec_u16_from_le_bytes(b.subrange(p, p + 2)) }),
            end: p + 2,
            reg,
        }),
{
}

} // verus!
