//! Decoder for the legacy serialized-object-graph save format of a vintage
//! life-simulation game.
//!
//! The format is a little-endian byte stream holding a world document: map
//! metadata, a sprite gallery, rooms with doors and environmental state, and
//! two lists of in-world agents. Polymorphic records share an archive
//! convention that writes a full class header only on a class's first
//! occurrence and a compact two-byte tag afterwards; a [`registry::ClassRegistry`]
//! threaded through the decode tracks which classes have been seen.
//!
//! Every decoder is specified against a mathematical parser over `Seq<u8>`,
//! so the byte-level meaning of each record is pinned down exactly, and all
//! decoding is proved free of panics and of unbounded allocation: every
//! length-prefixed count is rejected above a fixed ceiling before any
//! proportional work.

pub mod err;
pub mod prim;
pub mod registry;
pub mod archive;
pub mod structural;
pub mod gallery;
pub mod room;
pub mod object;
pub mod entity;
pub mod doc;
pub mod pixel;
pub mod laws;
