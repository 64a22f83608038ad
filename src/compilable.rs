//! Host constants that can be lifted into values of a function.
use vstd::prelude::*;
use crate::types::Kind;

verus! {

/// A host value that has a kind and a 64-bit encoding.
pub trait Compilable {
    spec fn spec_kind() -> Kind;

    spec fn spec_bits(&self) -> u64;

    /// The kind of the lifted value.
    fn kind() -> (r: Kind)
        ensures
            r == Self::spec_kind(),
    ;

    /// The bits of the lifted value: the integer, sign- or zero-extended.
    fn bits(&self) -> (r: u64)
        ensures
            r == self.spec_bits(),
    ;
}

impl Compilable for i8 {
    open spec fn spec_kind() -> Kind { Kind::Int8 }
    open spec fn spec_bits(&self) -> u64 { *self as u64 }
    fn kind() -> (r: Kind) { Kind::Int8 }
    fn bits(&self) -> (r: u64) { *self as u64 }
}

impl Compilable for u8 {
    open spec fn spec_kind() -> Kind { Kind::UInt8 }
    open spec fn spec_bits(&self) -> u64 { *self as u64 }
    fn kind() -> (r: Kind) { Kind::UInt8 }
    fn bits(&self) -> (r: u64) { *self as u64 }
}

impl Compilable for i16 {
    open spec fn spec_kind() -> Kind { Kind::Int16 }
    open spec fn spec_bits(&self) -> u64 { *self as u64 }
    fn kind() -> (r: Kind) { Kind::Int16 }
    fn bits(&self) -> (r: u64) { *self as u64 }
}

impl Compilable for u16 {
    open spec fn spec_kind() -> Kind { Kind::UInt16 }
    open spec fn spec_bits(&self) -> u64 { *self as u64 }
    fn kind() -> (r: Kind) { Kind::UInt16 }
    fn bits(&self) -> (r: u64) { *self as u64 }
}

impl Compilable for i32 {
    open spec fn spec_kind() -> Kind { Kind::Int32 }
    open spec fn spec_bits(&self) -> u64 { *self as u64 }
    fn kind() -> (r: Kind) { Kind::Int32 }
    fn bits(&self) -> (r: u64) { *self as u64 }
}

impl Compilable for u32 {
    open spec fn spec_kind() -> Kind { Kind::UInt32 }
    open spec fn spec_bits(&self) -> u64 { *self as u64 }
    fn kind() -> (r: Kind) { Kind::UInt32 }
    fn bits(&self) -> (r: u64) { *self as u64 }
}

impl Compilable for i64 {
    open spec fn spec_kind() -> Kind { Kind::Int64 }
    open spec fn spec_bits(&self) -> u64 { *self as u64 }
    fn kind() -> (r: Kind) { Kind::Int64 }
    fn bits(&self) -> (r: u64) { *self as u64 }
}

impl Compilable for u64 {
    open spec fn spec_kind() -> Kind { Kind::UInt64 }
    open spec fn spec_bits(&self) -> u64 { *self }
    fn kind() -> (r: Kind) { Kind::UInt64 }
    fn bits(&self) -> (r: u64) { *self }
}

impl Compilable for bool {
    open spec fn spec_kind() -> Kind { Kind::UInt8 }
    open spec fn spec_bits(&self) -> u64 { if *self { 1 } else { 0 } }
    fn kind() -> (r: Kind) { Kind::UInt8 }
    fn bits(&self) -> (r: u64) { if *self { 1 } else { 0 } }
}

} // verus!
