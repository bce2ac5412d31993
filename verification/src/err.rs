//! Error taxonomy of the decoder and the result shapes of the
//! specification-level parsers.

use vstd::prelude::*;

use crate::registry::ClassId;

verus! {

/// The ways a decode can fail. Any malformed input is reported through one of
/// these; the decoder never panics.
#[derive(Clone, Copy, Debug, PartialEq, Eq, Structural)]
pub enum ErrorKind {
    /// The buffer was exhausted in the middle of a fixed-size field.
    StructuralUnderrun,
    /// A length-prefixed count exceeded the ceiling of `COUNT_CEILING`.
    CountOutOfBounds,
    /// An archive header's class name is not the one expected at that position.
    UnexpectedClassName,
    /// A discriminant maps to no known enumerator.
    InvalidEnumValue,
    /// An archive object tag is missing its high-bit marker.
    InvalidArchiveTag,
}

/// A decode failure: what went wrong, and the byte offset at which it was
/// detected. Failures propagate unchanged up to the document assembler.
#[derive(Clone, Copy, Debug, PartialEq, Eq, Structural)]
pub struct ParseError {
    pub kind: ErrorKind,
    pub offset: usize,
}

/// Outcome of a specification-level decoder that does not consult the class
/// registry: either a value with the position just past it, or a failure.
#[verifier::ext_equal]
pub enum SpecParse<T> {
    Parsed { v: T, end: int },
    Failed { kind: ErrorKind, at: int },
}

/// Outcome of a specification-level decoder that threads the class registry:
/// on success it also carries the registry contents after the decode.
#[verifier::ext_equal]
pub enum SpecParseReg<T> {
    Parsed { v: T, end: int, reg: Set<ClassId> },
    Failed { kind: ErrorKind, at: int },
}

/// The specification outcome `s` is a success yielding exactly `v` and ending
/// at position `end`.
pub open spec fn parsed_to<T>(s: SpecParse<T>, v: T, end: usize) -> bool {
    s =~= (SpecParse::Parsed { v, end: end as int })
}

/// The specification outcome `s` is exactly the failure `e`.
pub open spec fn failed_to<T>(s: SpecParse<T>, e: ParseError) -> bool {
    s =~= (SpecParse::Failed::<T> { kind: e.kind, at: e.offset as int })
}

/// Registry-threading analogue of [`parsed_to`]: success with value `v`,
/// final position `end` and registry contents `reg`.
pub open spec fn parsed_to_reg<T>(s: SpecParseReg<T>, v: T, end: usize, reg: Set<ClassId>) -> bool {
    s =~= (SpecParseReg::Parsed { v, end: end as int, reg })
}

/// Registry-threading analogue of [`failed_to`].
pub open spec fn failed_to_reg<T>(s: SpecParseReg<T>, e: ParseError) -> bool {
    s =~= (SpecParseReg::Failed::<T> { kind: e.kind, at: e.offset as int })
}

/// Prefixes a decoded sequence with already-decoded items; failures pass
/// through. This is the shape of the loop invariants that relate an exec loop
/// over record items to the recursive specification parser.
pub open spec fn prepend<T>(prefix: Seq<T>, r: SpecParse<Seq<T>>) -> SpecParse<Seq<T>> {
    match r {
        SpecParse::Parsed { v, end } => SpecParse::Parsed { v: prefix + v, end },
        SpecParse::Failed { kind, at } => SpecParse::Failed { kind, at },
    }
}

/// Registry-threading analogue of [`prepend`].
pub open spec fn prepend_reg<T>(prefix: Seq<T>, r: SpecParseReg<Seq<T>>) -> SpecParseReg<Seq<T>> {
    match r {
        SpecParseReg::Parsed { v, end, reg } => SpecParseReg::Parsed { v: prefix + v, end, reg },
        SpecParseReg::Failed { kind, at } => SpecParseReg::Failed { kind, at },
    }
}

} // verus!
