//! Runtime capabilities analysis: which capabilities a quantum target needs to run each element
//! of a program, and which values are known before runtime.
//!
//! - `lattice`: runtime kinds, value kinds and compute kinds, with their joins.
//! - `features`: runtime features and the coarse capabilities they require.
//! - `applications`: generator sets that yield the compute kind of any call application.
//! - `store`: the compute properties of every element of a package store.
//! - `render`: multi-line text renderings of compute properties.
//! - `circuit` and `lints`: circuit entry expressions and syntax lints.
pub mod applications;
pub mod circuit;
pub mod features;
pub mod ids;
pub mod index_map;
pub mod lattice;
pub mod lints;
pub mod render;
pub mod store;
pub mod text;
pub mod ty;
