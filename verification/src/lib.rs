//! Per-function analysis targets for a bytecode-level prover pipeline.
//!
//! A [`function_target::FunctionTarget`](crate::function_target::FunctionTarget)
//! combines the immutable, source-declared metadata of one function (its
//! [`env::FunctionEnv`](crate::env::FunctionEnv)) with the mutable payload that
//! each analysis pass replaces wholesale (a
//! [`target_data::FunctionTargetData`](crate::target_data::FunctionTargetData)):
//! bytecode, local and return types, the reference-aliasing map, per-instruction
//! locations, heterogeneous per-pass annotations, and the two
//! specification-block maps.  The target exposes the unified read-only query
//! surface that passes and the debug renderer build on.

use vstd::prelude::*;

pub mod annotations;
pub mod bytecode;
pub mod env;
pub mod function_target;
pub mod render;
pub mod spec_ast;
pub mod symbols;
pub mod table;
pub mod target_data;
pub mod ty;

verus! {

/// Failures of the target's programming contract: a pass or driver handed the
/// view an index or identifier it was never allowed to.  These are never
/// user-facing errors.
#[derive(Clone, Copy, Debug, PartialEq, Eq, Structural)]
pub enum TargetError {
    /// A local or return index at or beyond the respective count.
    IndexOutOfRange,
    /// A specification block id resolved by neither the source-anchored nor
    /// the synthesized map.
    BlockNotFound,
    /// An insertion into the reference-aliasing map that conflicts with an
    /// entry already present.
    AliasConflict,
}

} // verus!
