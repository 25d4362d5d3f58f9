//! Identifiers of packages and of the elements of a package.
use vstd::prelude::*;

verus! {

/// The identifier of a package in a store.
#[derive(Clone, Copy, Debug, PartialEq, Eq, Structural, PartialOrd, Ord, Hash)]
pub struct PackageId(pub usize);

/// The identifier of an item, local to its package.
#[derive(Clone, Copy, Debug, PartialEq, Eq, Structural, PartialOrd, Ord, Hash)]
pub struct LocalItemId(pub usize);

/// The identifier of a block, local to its package.
#[derive(Clone, Copy, Debug, PartialEq, Eq, Structural, PartialOrd, Ord, Hash)]
pub struct BlockId(pub usize);

/// The identifier of a statement, local to its package.
#[derive(Clone, Copy, Debug, PartialEq, Eq, Structural, PartialOrd, Ord, Hash)]
pub struct StmtId(pub usize);

/// The identifier of an expression, local to its package.
#[derive(Clone, Copy, Debug, PartialEq, Eq, Structural, PartialOrd, Ord, Hash)]
pub struct ExprId(pub usize);

/// An item addressed within a store.
#[derive(Clone, Copy, Debug, PartialEq, Eq, Structural, Hash)]
pub struct StoreItemId {
    pub package: PackageId,
    pub item: LocalItemId,
}

/// A block addressed within a store.
#[derive(Clone, Copy, Debug, PartialEq, Eq, Structural, Hash)]
pub struct StoreBlockId {
    pub package: PackageId,
    pub block: BlockId,
}

/// A statement addressed within a store.
#[derive(Clone, Copy, Debug, PartialEq, Eq, Structural, Hash)]
pub struct StoreStmtId {
    pub package: PackageId,
    pub stmt: StmtId,
}

/// An expression addressed within a store.
#[derive(Clone, Copy, Debug, PartialEq, Eq, Structural, Hash)]
pub struct StoreExprId {
    pub package: PackageId,
    pub expr: ExprId,
}

} // verus!
