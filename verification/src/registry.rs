//! The class registry: the set of record classes whose full archive header
//! has already been decoded during the current parse.

use vstd::prelude::*;

verus! {

/// The record classes that take part in the header/tag archive protocol,
/// plus the map-data class whose header opens every document.
#[derive(Clone, Copy, Debug, PartialEq, Eq, Structural)]
pub enum ClassId {
    MapData,
    Gallery,
    Door,
    Room,
    Object,
    Entity,
    SimpleObject,
}

/// The class name that the stream spells for each class, as raw bytes
/// (ASCII codes: "MapData", "CGallery", "CDoor", "CRoom", "Object",
/// "Entity", "SimpleObject").
pub open spec fn spec_class_name(c: ClassId) -> Seq<u8> {
    match c {
        ClassId::MapData => seq![77u8, 97u8, 112u8, 68u8, 97u8, 116u8, 97u8],
        ClassId::Gallery => seq![67u8, 71u8, 97u8, 108u8, 108u8, 101u8, 114u8, 121u8],
        ClassId::Door => seq![67u8, 68u8, 111u8, 111u8, 114u8],
        ClassId::Room => seq![67u8, 82u8, 111u8, 111u8, 109u8],
        ClassId::Object => seq![79u8, 98u8, 106u8, 101u8, 99u8, 116u8],
        ClassId::Entity => seq![69u8, 110u8, 116u8, 105u8, 116u8, 121u8],
        ClassId::SimpleObject => seq![
            83u8, 105u8, 109u8, 112u8, 108u8, 101u8, 79u8, 98u8, 106u8, 101u8, 99u8, 116u8,
        ],
    }
}

/// The class name that the stream spells for each class, as a byte vector.
pub fn class_name_bytes(c: ClassId) -> (r: Vec<u8>)
    ensures
        r@ == spec_class_name(c),
{
    let mut v: Vec<u8> = Vec::new();
    match c {
        ClassId::MapData => {
            v.push(77);
            v.push(97);
            v.push(112);
            v.push(68);
            v.push(97);
            v.push(116);
            v.push(97);
        },
        ClassId::Gallery => {
            v.push(67);
            v.push(71);
            v.push(97);
            v.push(108);
            v.push(108);
            v.push(101);
            v.push(114);
            v.push(121);
        },
        ClassId::Door => {
            v.push(67);
            v.push(68);
            v.push(111);
            v.push(111);
            v.push(114);
        },
        ClassId::Room => {
            v.push(67);
            v.push(82);
            v.push(111);
            v.push(111);
            v.push(109);
        },
        ClassId::Object => {
            v.push(79);
            v.push(98);
            v.push(106);
            v.push(101);
            v.push(99);
            v.push(116);
        },
        ClassId::Entity => {
            v.push(69);
            v.push(110);
            v.push(116);
            v.push(105);
            v.push(116);
            v.push(121);
        },
        ClassId::SimpleObject => {
            v.push(83);
            v.push(105);
            v.push(109);
            v.push(112);
            v.push(108);
            v.push(101);
            v.push(79);
            v.push(98);
            v.push(106);
            v.push(101);
            v.push(99);
            v.push(116);
        },
    }
    proof {
        assert(v@ =~= spec_class_name(c));
    }
    v
}

/// Tracks which classes have already emitted a full archive header during the
/// current parse. A pure membership set: entries are never removed, and
/// registration is idempotent. One instance is scoped to exactly one parse.
#[derive(Debug)]
pub struct ClassRegistry {
    seen: Vec<ClassId>,
}

impl View for ClassRegistry {
    type V = Set<ClassId>;

    closed spec fn view(&self) -> Set<ClassId> {
        Set::new(|c: ClassId| self.seen@.contains(c))
    }
}

impl ClassRegistry {
    /// A registry in which no class has been seen yet.
    pub fn empty() -> (r: Self)
        ensures
            r@ == Set::<ClassId>::empty(),
    {
        let r = ClassRegistry { seen: Vec::new() };
        proof {
            assert(r@ =~= Set::<ClassId>::empty());
        }
        r
    }

    /// True iff a full header for `c` has already been decoded this parse.
    pub fn contains(&self, c: ClassId) -> (r: bool)
        ensures
            r == self@.contains(c),
    {
        let mut i: usize = 0;
        while i < self.seen.len()
            invariant
                i <= self.seen@.len(),
                forall|j: int| 0 <= j < i ==> self.seen@[j] != c,
            decreases self.seen@.len() - i,
        {
            if self.seen[i] == c {
                return true;
            }
            i += 1;
        }
        false
    }

    /// Marks the header of `c` as seen. Idempotent.
    pub fn register(&mut self, c: ClassId)
        ensures
            final(self)@ == old(self)@.insert(c),
    {
        if !self.contains(c) {
            self.seen.push(c);
            proof {
                assert forall|x: ClassId|
                    self.seen@.contains(x) <==> (old(self).seen@.contains(x) || x == c) by {
                    if self.seen@.contains(x) {
                        let i = choose|i: int|
                            0 <= i < self.seen@.len() && self.seen@[i] == x;
                        if i < old(self).seen@.len() {
                            assert(old(self).seen@[i] == x);
                        }
                    }
                    if old(self).seen@.contains(x) {
                        let i = choose|i: int|
                            0 <= i < old(self).seen@.len() && old(self).seen@[i] == x;
                        assert(self.seen@[i] == x);
                    }
                    if x == c {
                        assert(self.seen@[self.seen@.len() - 1] == c);
                    }
                }
            }
        }
        proof {
            assert(self@ =~= old(self)@.insert(c));
        }
    }
}

} // verus!
