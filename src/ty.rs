//! The shapes of the language's types that the analyses read.
use vstd::prelude::*;

verus! {

/// A primitive type.
#[derive(Clone, Copy, Debug, PartialEq, Eq, Structural)]
pub enum Prim {
    BigInt,
    Bool,
    Double,
    Int,
    Pauli,
    Qubit,
    Range,
    RangeTo,
    RangeFrom,
    RangeFull,
    Result,
    String,
}

/// A type of the lowered program. Identifiers of type parameters, inference variables and
/// user-defined types are dense integers.
#[derive(Debug, PartialEq, Eq)]
pub enum Ty {
    /// An array type.
    Array(Box<Ty>),
    /// A function or operation type.
    Arrow,
    /// A placeholder type variable used during type inference.
    Infer(usize),
    /// A type parameter.
    Param(usize),
    /// A primitive type.
    Prim(Prim),
    /// A tuple type; the empty tuple is the unit type.
    Tuple(Vec<Ty>),
    /// A user-defined type.
    Udt(usize),
    /// An invalid type.
    Invalid,
}

impl Ty {
    /// Whether this is the unit type.
    pub open spec fn is_unit(&self) -> bool {
        match self {
            Ty::Tuple(items) => items@.len() == 0,
            _ => false,
        }
    }

    /// Whether this is an array type.
    pub open spec fn is_array(&self) -> bool {
        self is Array
    }

    /// The unit type.
    pub fn unit() -> (r: Ty)
        ensures
            r.is_unit(),
    {
        Ty::Tuple(Vec::new())
    }
}

} // verus!
