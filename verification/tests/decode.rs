//! End-to-end and record-level tests of the save-file decoder, on synthetic
//! buffers built byte by byte.

use sfc::archive::{CArchive, HeaderOrTag};
use sfc::doc::Doc;
use sfc::err::ErrorKind;
use sfc::object::{Attributes, MovementStatus, Object};
use sfc::registry::{ClassId, ClassRegistry};
use sfc::room::{BacteriaFlags, DropStatus, RoomPointer, RoomType, Rooms};
use sfc::structural::{CPointArray, CString};
use sfc::gallery::CGallery;
use sfc::entity::Entity;

fn push_u16(buf: &mut Vec<u8>, v: u16) {
    buf.extend_from_slice(&v.to_le_bytes());
}

fn push_u32(buf: &mut Vec<u8>, v: u32) {
    buf.extend_from_slice(&v.to_le_bytes());
}

fn push_i32(buf: &mut Vec<u8>, v: i32) {
    buf.extend_from_slice(&v.to_le_bytes());
}

/// A full archive header: tag word 0x8000 (derived object tag 0x80000000),
/// schema 1, then the counted class name.
fn push_header(buf: &mut Vec<u8>, name: &[u8]) {
    push_u16(buf, 0x8000);
    push_u16(buf, 1);
    push_u16(buf, name.len() as u16);
    buf.extend_from_slice(name);
}

/// An empty gallery written with its full header.
fn push_gallery_with_header(buf: &mut Vec<u8>) {
    push_header(buf, b"CGallery");
    push_u32(buf, 0); // image count
    buf.extend_from_slice(b"BLK "); // filesystem tag
    push_u32(buf, 0); // file position
    push_u32(buf, 0); // reference count
}

/// The map block: header, environment flags, empty gallery, `room_count`
/// taken from the caller (room records must follow).
fn push_map_data(buf: &mut Vec<u8>, room_count: u32) {
    push_header(buf, b"MapData");
    push_u32(buf, 1); // wrap flag
    push_u32(buf, 2); // time of day
    push_u32(buf, 3); // day in year
    push_u32(buf, 4); // year
    push_gallery_with_header(buf);
    push_u32(buf, room_count);
}

/// One room record. With `with_header` the room opens with its full class
/// header, otherwise with the compact two-byte tag 0x1234.
fn push_room(buf: &mut Vec<u8>, room_id: u32, with_header: bool) {
    if with_header {
        push_header(buf, b"CRoom");
    } else {
        push_u16(buf, 0x1234);
    }
    push_u32(buf, room_id);
    push_u16(buf, 7); // map class index
    push_u32(buf, 10); // rect left
    push_u32(buf, 20); // rect top
    push_u32(buf, 30); // rect right
    push_u32(buf, 40); // rect bottom
    for _ in 0..4 {
        push_u16(buf, 0); // empty door array
    }
    push_i32(buf, 1); // room type: surface
    buf.push(5); // floor value
    buf.push(6); // inorganic nutrient
    buf.push(7); // organic nutrient
    buf.push(8); // temperature
    push_i32(buf, -1); // heat source
    buf.push(9); // pressure
    push_i32(buf, -2); // pressure source
    push_i32(buf, 3); // wind x
    push_i32(buf, -4); // wind y
    buf.push(10); // light
    push_i32(buf, -5); // light source
    buf.push(11); // radiation
    push_i32(buf, -6); // radiation source
    for _ in 0..100 {
        buf.push(2); // bacteria flags: active
        buf.push(1); // antigen
        buf.push(2); // fatal level
        buf.push(3); // infect level
        buf.extend_from_slice(&[4, 5, 6, 7]); // toxins
    }
    push_u16(buf, 0); // surface points
    push_u32(buf, 1); // visited
    buf.push(0); // music track: empty
    push_u32(buf, 2); // drop status: always
}

/// A minimal document: one map header, zero rooms, zero objects, zero
/// scenery.
fn minimal_doc() -> Vec<u8> {
    let mut buf = Vec::new();
    push_map_data(&mut buf, 0);
    push_u32(&mut buf, 0); // objects
    push_u32(&mut buf, 0); // scenery
    buf
}

/// One object record opened with its full class header, with an empty
/// gallery written as a tag when the gallery class is already registered.
/// The script count is taken from the caller (script records must follow).
fn push_object(buf: &mut Vec<u8>, gallery_registered: bool, script_count: u32) {
    push_header(buf, b"Object");
    push_agent_core(buf, gallery_registered, script_count);
}

/// The agent fields shared by Object and SimpleObject, after the record's
/// header or tag.
fn push_agent_core(buf: &mut Vec<u8>, gallery_registered: bool, script_count: u32) {
    push_u16(buf, 0x0102); // classifier family/genus
    push_u32(buf, 0x03040506); // classifier species/event
    push_i32(buf, 42); // id
    buf.push(0); // movement status: autonomous
    buf.push(0b0000_0001); // attributes: carryable
    push_u32(buf, 1); // limit left
    push_u32(buf, 2); // limit top
    push_u32(buf, 3); // limit right
    push_u32(buf, 4); // limit bottom
    push_u16(buf, 0); // vehicle pointer
    buf.push(1); // active
    if gallery_registered {
        push_u16(buf, 0x2222); // gallery tag
        push_u32(buf, 0); // image count
        buf.extend_from_slice(b"BLK ");
        push_u32(buf, 0);
        push_u32(buf, 0);
    } else {
        push_gallery_with_header(buf);
    }
    push_u32(buf, 0); // timer rate
    push_u32(buf, 0); // timer
    push_u16(buf, 0); // object pointer
    push_u32(buf, 0); // active sound
    for i in 0..100u32 {
        push_u32(buf, i); // object variables
    }
    buf.push(12); // min door size
    push_i32(buf, 500); // range
    push_i32(buf, -1); // falling object index
    push_i32(buf, 10); // acceleration due to gravity
    push_i32(buf, 0); // velocity x
    push_i32(buf, 0); // velocity y
    push_i32(buf, 30); // restitution
    push_i32(buf, 40); // aerodynamic
    push_u16(buf, 3); // current room
    push_u32(buf, 0); // wall last collided
    buf.push(0); // threat
    buf.push(0); // running
    push_u32(buf, script_count);
}

#[test]
fn test_parse_sfc() {
    let buf = minimal_doc();
    let mut registry = ClassRegistry::empty();
    let doc = Doc::parse(&buf, &mut registry);
    assert!(doc.is_ok());
}

#[test]
fn minimal_document_is_empty_with_no_trailing_bytes() {
    let buf = minimal_doc();
    let mut registry = ClassRegistry::empty();
    let (doc, trailing) = Doc::parse(&buf, &mut registry).unwrap();
    assert_eq!(trailing, 0);
    assert_eq!(doc.map.rooms.count, 0);
    assert!(doc.map.rooms.rooms.is_empty());
    assert_eq!(doc.num_objects, 0);
    assert!(doc.objects.is_empty());
    assert_eq!(doc.num_scenery, 0);
    assert!(doc.simple_object_pointer.is_empty());
    assert_eq!(doc.map.flags.map_is_wrappable, 1);
    assert_eq!(doc.map.flags.time_of_day, 2);
    assert_eq!(doc.map.flags.day_in_year, 3);
    assert_eq!(doc.map.flags.year, 4);
    assert_eq!(doc.map.header.class_name, "MapData");
    assert_eq!(doc.map.tile_gallery.flags.fsp, "BLK ");
}

#[test]
fn trailing_bytes_are_counted_not_rejected() {
    let mut buf = minimal_doc();
    buf.extend_from_slice(&[9, 9, 9]);
    let mut registry = ClassRegistry::empty();
    let (_, trailing) = Doc::parse(&buf, &mut registry).unwrap();
    assert_eq!(trailing, 3);
}

#[test]
fn parsing_twice_yields_equal_documents() {
    let mut buf = minimal_doc();
    // Make the buffer non-trivial: rebuild it with one room.
    buf.clear();
    push_map_data(&mut buf, 1);
    push_room(&mut buf, 91, true);
    push_u32(&mut buf, 0);
    push_u32(&mut buf, 0);
    let mut reg1 = ClassRegistry::empty();
    let mut reg2 = ClassRegistry::empty();
    let (doc1, t1) = Doc::parse(&buf, &mut reg1).unwrap();
    let (doc2, t2) = Doc::parse(&buf, &mut reg2).unwrap();
    assert_eq!(t1, t2);
    assert_eq!(doc1, doc2);
}

#[test]
fn attribute_bits_round_trip() {
    // Bits 0, 5 and 7: carryable, floatable, suffers_gravity.
    let buf = [0b1010_0001u8];
    let (attrs, end) = Attributes::parse(&buf, 0).unwrap();
    assert_eq!(end, 1);
    assert!(attrs.carryable);
    assert!(attrs.floatable);
    assert!(attrs.suffers_gravity);
    assert!(!attrs.mouseable);
    assert!(!attrs.activatable);
    assert!(!attrs.container);
    assert!(!attrs.invisible);
    assert!(!attrs.has_boundaries);
}

#[test]
fn attribute_bits_carryable_invisible_gravity() {
    // Bits 0, 4 and 7: carryable, invisible, suffers_gravity.
    let buf = [0b1001_0001u8];
    let (attrs, _) = Attributes::parse(&buf, 0).unwrap();
    assert!(attrs.carryable);
    assert!(attrs.invisible);
    assert!(attrs.suffers_gravity);
    assert!(!attrs.mouseable);
    assert!(!attrs.activatable);
    assert!(!attrs.container);
    assert!(!attrs.floatable);
    assert!(!attrs.has_boundaries);
}

#[test]
fn second_room_decodes_through_tag_branch() {
    let mut buf = Vec::new();
    push_u32(&mut buf, 2); // room count
    push_room(&mut buf, 1, true); // first room: full header
    push_room(&mut buf, 2, false); // second room: compact tag only
    let mut registry = ClassRegistry::empty();
    let (rooms, end) = Rooms::parse(&buf, 0, &mut registry).unwrap();
    assert_eq!(end, buf.len());
    assert_eq!(rooms.count, 2);
    assert_eq!(rooms.rooms[0].room_id, 1);
    assert_eq!(rooms.rooms[1].room_id, 2);
    match &rooms.rooms[0].header_or_tag {
        HeaderOrTag::Header(a) => assert_eq!(a.class_name, "CRoom"),
        HeaderOrTag::Tag(_) => panic!("first room must carry a full header"),
    }
    match &rooms.rooms[1].header_or_tag {
        HeaderOrTag::Tag(t) => assert_eq!(t.tag, 0x1234),
        HeaderOrTag::Header(_) => panic!("second room must take the tag branch"),
    }
    assert!(registry.contains(ClassId::Room));
}

#[test]
fn room_fields_decode_in_order() {
    let mut buf = Vec::new();
    push_room(&mut buf, 77, true);
    let mut registry = ClassRegistry::empty();
    let (room, end) = RoomPointer::parse(&buf, 0, &mut registry).unwrap();
    assert_eq!(end, buf.len());
    assert_eq!(room.room_id, 77);
    assert_eq!(room.map_class_index, 7);
    assert_eq!(room.rect.left, 10);
    assert_eq!(room.rect.bottom, 40);
    assert_eq!(room.doors.doors.len(), 4);
    assert!(room.doors.doors.iter().all(|d| d.size == 0 && d.doors.is_empty()));
    assert_eq!(room.room_type, RoomType::Surface);
    assert_eq!(room.floor_value, 5);
    assert_eq!(room.heat_source, -1);
    assert_eq!(room.wind.x, 3);
    assert_eq!(room.wind.y, -4);
    assert_eq!(room.bacterium.len(), 100);
    assert_eq!(room.bacterium[0].antigen, 1);
    assert_eq!(room.bacterium[99].toxins, (4, 5, 6, 7));
    assert_eq!(room.surface_points.size, 0);
    assert_eq!(room.visited, 1);
    assert_eq!(room.music_track.string, "");
    assert_eq!(room.drop_status, DropStatus::Always);
}

#[test]
fn empty_buffer_fails_with_underrun() {
    let buf: Vec<u8> = Vec::new();
    let mut registry = ClassRegistry::empty();
    let err = Doc::parse(&buf, &mut registry).unwrap_err();
    assert_eq!(err.kind, ErrorKind::StructuralUnderrun);
    assert_eq!(err.offset, 0);
}

#[test]
fn one_byte_buffer_fails_with_underrun() {
    let buf = [0x4du8];
    let mut registry = ClassRegistry::empty();
    let err = Doc::parse(&buf, &mut registry).unwrap_err();
    assert_eq!(err.kind, ErrorKind::StructuralUnderrun);
    assert_eq!(err.offset, 0);
}

#[test]
fn truncated_header_fails_with_underrun() {
    // A valid start of a map header, cut off inside the class name.
    let mut buf = Vec::new();
    push_u16(&mut buf, 0x8000);
    push_u16(&mut buf, 1);
    push_u16(&mut buf, 7);
    buf.extend_from_slice(b"Map");
    let mut registry = ClassRegistry::empty();
    let err = Doc::parse(&buf, &mut registry).unwrap_err();
    assert_eq!(err.kind, ErrorKind::StructuralUnderrun);
    assert_eq!(err.offset, 6);
}

#[test]
fn all_zero_padding_fails_with_underrun_not_a_loop() {
    let buf = [0u8; 64];
    let mut registry = ClassRegistry::empty();
    let err = Doc::parse(&buf, &mut registry).unwrap_err();
    assert_eq!(err.kind, ErrorKind::StructuralUnderrun);
    assert_eq!(err.offset, 64);
}

#[test]
fn wrong_class_name_is_a_parse_error_not_a_panic() {
    let mut buf = Vec::new();
    push_header(&mut buf, b"MapDatz");
    let mut registry = ClassRegistry::empty();
    let err = Doc::parse(&buf, &mut registry).unwrap_err();
    assert_eq!(err.kind, ErrorKind::UnexpectedClassName);
    assert_eq!(err.offset, 6); // the name bytes start after tag, schema, length
}

#[test]
fn derived_tag_without_high_bit_is_invalid() {
    let mut buf = Vec::new();
    push_u16(&mut buf, 0x0001); // nonzero tag word, top bit clear
    push_u16(&mut buf, 1);
    let mut registry = ClassRegistry::empty();
    let err = Doc::parse(&buf, &mut registry).unwrap_err();
    assert_eq!(err.kind, ErrorKind::InvalidArchiveTag);
    assert_eq!(err.offset, 0);
}

#[test]
fn explicit_tag_without_high_bit_is_invalid() {
    let mut buf = Vec::new();
    push_u16(&mut buf, 0x7fff); // escape word: explicit four-byte tag follows
    push_u32(&mut buf, 1); // high bit clear
    let mut registry = ClassRegistry::empty();
    let err = Doc::parse(&buf, &mut registry).unwrap_err();
    assert_eq!(err.kind, ErrorKind::InvalidArchiveTag);
    assert_eq!(err.offset, 2);
}

#[test]
fn zero_padding_words_are_skipped_before_the_header() {
    let mut buf = Vec::new();
    push_u16(&mut buf, 0);
    push_u16(&mut buf, 0);
    push_u16(&mut buf, 0);
    push_header(&mut buf, b"MapData");
    let (arch, raw, end) = CArchive::parse(&buf, 0).unwrap();
    assert_eq!(end, buf.len());
    assert_eq!(arch.tag, 0x8000);
    assert_eq!(arch.ob_tag, 0x8000_0000);
    assert_eq!(arch.schema, 1);
    assert_eq!(arch.class_name_length, 7);
    assert_eq!(arch.class_name, "MapData");
    assert_eq!(raw, b"MapData");
}

#[test]
fn explicit_object_tag_is_read_after_escape_word() {
    let mut buf = Vec::new();
    push_u16(&mut buf, 0x7fff);
    push_u32(&mut buf, 0x8000_0042);
    push_u16(&mut buf, 3);
    push_u16(&mut buf, 5);
    buf.extend_from_slice(b"CRoom");
    let (arch, _, end) = CArchive::parse(&buf, 0).unwrap();
    assert_eq!(end, buf.len());
    assert_eq!(arch.tag, 0x7fff);
    assert_eq!(arch.ob_tag, 0x8000_0042);
    assert_eq!(arch.schema, 3);
    assert_eq!(arch.class_name, "CRoom");
}

#[test]
fn invalid_room_type_is_an_enum_error() {
    let buf = 5i32.to_le_bytes();
    let err = RoomType::parse(&buf, 0).unwrap_err();
    assert_eq!(err.kind, ErrorKind::InvalidEnumValue);
    assert_eq!(err.offset, 0);
}

#[test]
fn invalid_movement_status_is_an_enum_error() {
    let buf = [9u8];
    let err = MovementStatus::parse(&buf, 0).unwrap_err();
    assert_eq!(err.kind, ErrorKind::InvalidEnumValue);
}

#[test]
fn invalid_bacteria_state_is_an_enum_error() {
    let buf = [0b0000_0011u8];
    let err = BacteriaFlags::parse(&buf, 0).unwrap_err();
    assert_eq!(err.kind, ErrorKind::InvalidEnumValue);
}

#[test]
fn invalid_drop_status_is_an_enum_error() {
    let buf = 9u32.to_le_bytes();
    let err = DropStatus::parse(&buf, 0).unwrap_err();
    assert_eq!(err.kind, ErrorKind::InvalidEnumValue);
}

#[test]
fn point_array_count_above_ceiling_is_rejected() {
    let mut buf = Vec::new();
    push_u16(&mut buf, 2001);
    // No points follow: the count must be rejected before any are read.
    let err = CPointArray::parse(&buf, 0).unwrap_err();
    assert_eq!(err.kind, ErrorKind::CountOutOfBounds);
    assert_eq!(err.offset, 0);
}

#[test]
fn point_array_count_at_ceiling_is_not_rejected_for_its_count() {
    let mut buf = Vec::new();
    push_u16(&mut buf, 2000);
    // The count is allowed; the parse then fails for want of point data.
    let err = CPointArray::parse(&buf, 0).unwrap_err();
    assert_eq!(err.kind, ErrorKind::StructuralUnderrun);
}

#[test]
fn door_array_count_above_ceiling_is_rejected() {
    let mut buf = Vec::new();
    push_u16(&mut buf, 2001);
    let mut registry = ClassRegistry::empty();
    let err = sfc::room::DoorPointerArray::parse(&buf, 0, &mut registry).unwrap_err();
    assert_eq!(err.kind, ErrorKind::CountOutOfBounds);
    assert_eq!(err.offset, 0);
}

#[test]
fn room_count_above_ceiling_is_rejected() {
    let mut buf = Vec::new();
    push_u32(&mut buf, 2001);
    let mut registry = ClassRegistry::empty();
    let err = Rooms::parse(&buf, 0, &mut registry).unwrap_err();
    assert_eq!(err.kind, ErrorKind::CountOutOfBounds);
    assert_eq!(err.offset, 0);
}

#[test]
fn gallery_image_count_above_ceiling_is_rejected() {
    let mut buf = Vec::new();
    push_header(&mut buf, b"CGallery");
    let count_pos = buf.len();
    push_u32(&mut buf, 2001);
    buf.extend_from_slice(b"BLK ");
    push_u32(&mut buf, 0);
    push_u32(&mut buf, 0);
    let mut registry = ClassRegistry::empty();
    let err = CGallery::parse(&buf, 0, &mut registry).unwrap_err();
    assert_eq!(err.kind, ErrorKind::CountOutOfBounds);
    assert_eq!(err.offset, count_pos);
}

#[test]
fn object_count_above_ceiling_is_rejected() {
    let mut buf = Vec::new();
    push_map_data(&mut buf, 0);
    let count_pos = buf.len();
    push_u32(&mut buf, 2001);
    let mut registry = ClassRegistry::empty();
    let err = Doc::parse(&buf, &mut registry).unwrap_err();
    assert_eq!(err.kind, ErrorKind::CountOutOfBounds);
    assert_eq!(err.offset, count_pos);
}

#[test]
fn scenery_count_above_ceiling_is_rejected() {
    let mut buf = Vec::new();
    push_map_data(&mut buf, 0);
    push_u32(&mut buf, 0); // objects
    let count_pos = buf.len();
    push_u32(&mut buf, 2001);
    let mut registry = ClassRegistry::empty();
    let err = Doc::parse(&buf, &mut registry).unwrap_err();
    assert_eq!(err.kind, ErrorKind::CountOutOfBounds);
    assert_eq!(err.offset, count_pos);
}

#[test]
fn script_count_above_ceiling_is_rejected() {
    let mut buf = Vec::new();
    push_object(&mut buf, false, 2001);
    let count_pos = buf.len() - 4;
    let mut registry = ClassRegistry::empty();
    let err = Object::parse(&buf, 0, &mut registry).unwrap_err();
    assert_eq!(err.kind, ErrorKind::CountOutOfBounds);
    assert_eq!(err.offset, count_pos);
}

#[test]
fn object_record_decodes_and_registers_its_classes() {
    let mut buf = Vec::new();
    push_object(&mut buf, false, 1);
    // One script: classifier, then a three-byte counted body.
    push_u16(&mut buf, 0x0a0b);
    push_u32(&mut buf, 0x0c0d0e0f);
    buf.push(3);
    buf.extend_from_slice(b"end");
    let mut registry = ClassRegistry::empty();
    let (object, end) = Object::parse(&buf, 0, &mut registry).unwrap();
    assert_eq!(end, buf.len());
    assert_eq!(object.id, 42);
    assert_eq!(object.classifier.family_genus, 0x0102);
    assert!(object.attributes.carryable);
    assert_eq!(object.vars.len(), 100);
    assert_eq!(object.vars[99].var, 99);
    assert_eq!(object.num_caos_scripts, 1);
    assert_eq!(object.scripts[0].script_body.string, "end");
    assert!(registry.contains(ClassId::Object));
    assert!(registry.contains(ClassId::Gallery));
    assert!(!registry.contains(ClassId::Room));
}

#[test]
fn counted_string_decodes_utf8() {
    let buf = [3u8, 0x61, 0x62, 0x63];
    let (s, end) = CString::parse(&buf, 0).unwrap();
    assert_eq!(end, 4);
    assert_eq!(s.size, 3);
    assert_eq!(s.string, "abc");
}

#[test]
fn counted_string_replaces_invalid_bytes_instead_of_failing() {
    let buf = [1u8, 0xff];
    let (s, _) = CString::parse(&buf, 0).unwrap();
    // A pass-through of the raw byte would give "\u{ff}"; lenient decoding
    // must substitute the replacement character.
    assert_eq!(s.string, "\u{fffd}");
}

#[test]
fn entity_anim_is_read_only_when_flag_is_one() {
    let mut head = Vec::new();
    push_header(&mut head, b"Entity");
    push_u16(&mut head, 5); // gallery tag
    head.push(1); // image index
    head.push(2); // base index
    push_i32(&mut head, 3); // plane
    push_i32(&mut head, 4); // world x
    push_i32(&mut head, 5); // world y

    let mut without = head.clone();
    without.push(0); // flag: no animation
    let mut registry = ClassRegistry::empty();
    let (entity, end) = Entity::parse(&without, 0, &mut registry).unwrap();
    assert_eq!(end, without.len());
    assert_eq!(entity.anim, "");

    let mut with = head.clone();
    with.push(1); // flag: animation follows
    with.extend_from_slice(&[0x41u8; 99]);
    let mut registry2 = ClassRegistry::empty();
    let (entity2, end2) = Entity::parse(&with, 0, &mut registry2).unwrap();
    assert_eq!(end2, with.len());
    assert_eq!(entity2.anim.len(), 99);
    assert!(entity2.anim.chars().all(|c| c == 'A'));
}

/// A whole entity record. With `with_header` the entity opens with its full
/// class header, otherwise with the compact tag 0x4321. No animation.
fn push_entity(buf: &mut Vec<u8>, with_header: bool) {
    if with_header {
        push_header(buf, b"Entity");
    } else {
        push_u16(buf, 0x4321);
    }
    push_u16(buf, 5); // gallery tag
    buf.push(1); // image index
    buf.push(2); // base index
    push_i32(buf, 3); // plane
    push_i32(buf, 4); // world x
    push_i32(buf, 5); // world y
    buf.push(0); // flag: no animation
}

/// One scenery record opened with its full class header.
fn push_simple_object(buf: &mut Vec<u8>, gallery_registered: bool, entity_registered: bool) {
    push_header(buf, b"SimpleObject");
    push_agent_core(buf, gallery_registered, 0);
    push_entity(buf, !entity_registered);
    push_u16(buf, 9); // gallery tag
    buf.push(1); // image index
    buf.push(2); // base index
    push_i32(buf, 7); // plane
    push_i32(buf, 8); // world x
    push_i32(buf, 9); // world y
    buf.push(1); // flag byte (stored, does not gate the fixed string here)
    buf.extend_from_slice(&[0x42u8; 99]); // animation string
    push_i32(buf, -3); // normal plane
    buf.extend_from_slice(&[1, 2, 3]); // click mask
    buf.push(4); // touch flag
    push_u16(buf, 1); // pickup handle: one point
    push_i32(buf, 5);
    push_i32(buf, -6);
    push_u16(buf, 0); // pickup point: empty
}

#[test]
fn simple_object_decodes_with_embedded_entity() {
    let mut buf = Vec::new();
    push_simple_object(&mut buf, false, false);
    let mut registry = ClassRegistry::empty();
    let (so, end) = sfc::entity::SimpleObject::parse(&buf, 0, &mut registry).unwrap();
    assert_eq!(end, buf.len());
    assert_eq!(so.id, 42);
    assert_eq!(so.vars.len(), 100);
    assert_eq!(so.num_caos_scripts, 0);
    assert!(so.scripts.is_empty());
    match &so.entity.header_or_tag {
        HeaderOrTag::Header(a) => assert_eq!(a.class_name, "Entity"),
        HeaderOrTag::Tag(_) => panic!("first entity must carry a full header"),
    }
    assert_eq!(so.entity.world_x, 4);
    assert_eq!(so.entity.anim, "");
    assert_eq!(so.gallery_tag, 9);
    assert_eq!(so.plane, 7);
    assert_eq!(so.flag, 1);
    assert_eq!(so.anim.len(), 99);
    assert_eq!(so.normal_plane, -3);
    assert_eq!(so.click, (1, 2, 3));
    assert_eq!(so.touch, 4);
    assert_eq!(so.pickup_handle.size, 1);
    assert_eq!(so.pickup_handle.points[0].x, 5);
    assert_eq!(so.pickup_handle.points[0].y, -6);
    assert_eq!(so.pickup_point.size, 0);
    assert!(registry.contains(ClassId::SimpleObject));
    assert!(registry.contains(ClassId::Entity));
    assert!(registry.contains(ClassId::Gallery));
}

#[test]
fn full_document_with_room_object_and_scenery() {
    let mut buf = Vec::new();
    push_map_data(&mut buf, 1); // registers the gallery class
    push_room(&mut buf, 12, true);
    push_u32(&mut buf, 1); // one object
    push_object(&mut buf, true, 0); // gallery already registered: tag branch
    push_u32(&mut buf, 1); // one scenery record
    push_simple_object(&mut buf, true, false);
    let mut registry = ClassRegistry::empty();
    let (doc, trailing) = Doc::parse(&buf, &mut registry).unwrap();
    assert_eq!(trailing, 0);
    assert_eq!(doc.map.rooms.count, 1);
    assert_eq!(doc.map.rooms.rooms[0].room_id, 12);
    assert_eq!(doc.num_objects, 1);
    assert_eq!(doc.objects[0].id, 42);
    match &doc.objects[0].obj_gallery.header_or_tag {
        HeaderOrTag::Tag(t) => assert_eq!(t.tag, 0x2222),
        HeaderOrTag::Header(_) => panic!("a registered gallery class must take the tag branch"),
    }
    assert_eq!(doc.num_scenery, 1);
    assert_eq!(doc.simple_object_pointer[0].click, (1, 2, 3));
    assert!(registry.contains(ClassId::Room));
    assert!(registry.contains(ClassId::Object));
    assert!(registry.contains(ClassId::SimpleObject));
    assert!(registry.contains(ClassId::Entity));
    assert!(registry.contains(ClassId::Gallery));
    assert!(!registry.contains(ClassId::Door));
}

#[test]
fn door_items_share_the_registry_across_arrays() {
    let mut buf = Vec::new();
    push_u16(&mut buf, 2); // two doors in this array
    push_header(&mut buf, b"CDoor"); // first door: full header
    buf.push(128); // amount open
    push_u32(&mut buf, 7); // target room id
    push_u16(&mut buf, 0x0505); // second door: compact tag
    buf.push(255);
    push_u32(&mut buf, 8);
    let mut registry = ClassRegistry::empty();
    let (array, end) = sfc::room::DoorPointerArray::parse(&buf, 0, &mut registry).unwrap();
    assert_eq!(end, buf.len());
    assert_eq!(array.size, 2);
    assert_eq!(array.doors.len(), 2);
    match &array.doors[0].header_or_tag {
        HeaderOrTag::Header(a) => assert_eq!(a.class_name, "CDoor"),
        HeaderOrTag::Tag(_) => panic!("first door must carry a full header"),
    }
    assert_eq!(array.doors[0].amount_open, 128);
    assert_eq!(array.doors[0].room_id, 7);
    match &array.doors[1].header_or_tag {
        HeaderOrTag::Tag(t) => assert_eq!(t.tag, 0x0505),
        HeaderOrTag::Header(_) => panic!("second door must take the tag branch"),
    }
    assert_eq!(array.doors[1].amount_open, 255);
    assert_eq!(array.doors[1].room_id, 8);
    assert!(registry.contains(ClassId::Door));
}

#[test]
fn gallery_images_decode_in_order() {
    let mut buf = Vec::new();
    push_header(&mut buf, b"CGallery");
    push_u32(&mut buf, 2); // image count
    buf.extend_from_slice(b"BLK ");
    push_u32(&mut buf, 64); // file position
    push_u32(&mut buf, 1); // reference count
    // First image record.
    push_u16(&mut buf, 1); // gallery class index
    buf.push(0); // status
    push_u32(&mut buf, 320); // width
    push_u32(&mut buf, 200); // height
    push_u32(&mut buf, 1024); // source offset
    // Second image record.
    push_u16(&mut buf, 2);
    buf.push(1);
    push_u32(&mut buf, 32);
    push_u32(&mut buf, 16);
    push_u32(&mut buf, 2048);
    let mut registry = ClassRegistry::empty();
    let (gallery, end) = CGallery::parse(&buf, 0, &mut registry).unwrap();
    assert_eq!(end, buf.len());
    assert_eq!(gallery.flags.num_images, 2);
    assert_eq!(gallery.flags.file_pos, 64);
    assert_eq!(gallery.images.len(), 2);
    assert_eq!(gallery.images[0].flags.width, 320);
    assert_eq!(gallery.images[0].flags.height, 200);
    assert_eq!(gallery.images[0].flags.offset, 1024);
    assert_eq!(gallery.images[1].flags.gallery_class_index, 2);
    assert_eq!(gallery.images[1].flags.offset, 2048);
}

#[test]
fn registry_is_a_membership_set() {
    let mut registry = ClassRegistry::empty();
    assert!(!registry.contains(ClassId::Room));
    registry.register(ClassId::Room);
    assert!(registry.contains(ClassId::Room));
    registry.register(ClassId::Room); // idempotent
    assert!(registry.contains(ClassId::Room));
    assert!(!registry.contains(ClassId::Door));
}
