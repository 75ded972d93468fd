//! The model of the specification language at the target's boundary.
//!
//! The semantics of conditions is an external concern; the target only
//! stores, routes and compares specification blocks.  A block is therefore a
//! bag of opaque condition identifiers, plus — for a function's declared
//! specification — the map from original code offsets to the conditions
//! attached there.

use crate::table::{assoc_get, assoc_lookup};
use vstd::prelude::*;

verus! {

/// A specification block: the conditions the source or a transformation
/// attached at one place.  For a function's declared specification, `on_impl`
/// holds the block attached at each original code offset; blocks reached
/// through `on_impl` carry no attachments of their own.
pub struct Spec {
    /// Opaque identifiers of the block's conditions.
    pub conditions: Vec<u64>,
    /// Blocks attached inside the function body, keyed by original code
    /// offset; the latest entry for an offset is the one that counts.
    pub on_impl: Vec<(usize, Spec)>,
}

impl Spec {
    /// The block attached at `offset`, if any.
    pub open spec fn spec_on_impl(&self, offset: usize) -> Option<Spec> {
        assoc_lookup(self.on_impl@, offset)
    }

    /// A block of the given conditions, with nothing attached inside a body.
    pub fn leaf(conditions: Vec<u64>) -> (s: Spec)
        ensures
            s.conditions == conditions,
            forall|offset: usize| s.spec_on_impl(offset) is None,
    {
        Spec { conditions, on_impl: Vec::new() }
    }

    /// The block attached at `offset`, if any.
    pub fn on_impl_get(&self, offset: usize) -> (r: Option<&Spec>)
        ensures
            match r {
                Some(s) => self.spec_on_impl(offset) == Some(*s),
                None => self.spec_on_impl(offset) is None,
            },
    {
        assoc_get(&self.on_impl, offset)
    }
}

} // verus!
