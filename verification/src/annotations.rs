//! The heterogeneous annotation store: one slot per analysis kind.
//!
//! Each dataflow pass is the sole writer of its kind.  A payload lives in the
//! snapshot that a pass wrote it into; it moves to a later snapshot only if
//! the producing pass explicitly copies it — there is no implicit propagation.

use crate::table::Table;
use vstd::prelude::*;

verus! {

/// The analysis kinds this pipeline recognizes, one writer each.
#[derive(Clone, Copy, Debug, PartialEq, Eq, Structural)]
pub enum AnnotationKind {
    /// Live-variable sets per position.
    LiveVar,
    /// Borrow-graph facts per position.
    Borrow,
    /// Write-back obligations.
    WriteBack,
    /// Packed-reference facts.
    PackRef,
    /// Lifetime intervals.
    Lifetime,
    /// Reaching-definition sets.
    ReachingDef,
}

/// One analysis's result payload: what it has to say at each code offset,
/// already rendered to the text its formatter prints.
pub struct AnnotationData {
    /// The per-offset facts; offsets without a fact are absent.
    pub per_offset: Table<String>,
}

/// The type-keyed store of analysis results: at most one payload per kind.
pub struct Annotations {
    live_var: Option<AnnotationData>,
    borrow: Option<AnnotationData>,
    write_back: Option<AnnotationData>,
    pack_ref: Option<AnnotationData>,
    lifetime: Option<AnnotationData>,
    reaching_def: Option<AnnotationData>,
}

impl Annotations {
    /// The payload stored for `kind`, if any.
    pub closed spec fn spec_get(&self, kind: AnnotationKind) -> Option<AnnotationData> {
        match kind {
            AnnotationKind::LiveVar => self.live_var,
            AnnotationKind::Borrow => self.borrow,
            AnnotationKind::WriteBack => self.write_back,
            AnnotationKind::PackRef => self.pack_ref,
            AnnotationKind::Lifetime => self.lifetime,
            AnnotationKind::ReachingDef => self.reaching_def,
        }
    }

    /// The empty store.
    pub fn new() -> (a: Annotations)
        ensures
            forall|k: AnnotationKind| a.spec_get(k) is None,
    {
        Annotations {
            live_var: None,
            borrow: None,
            write_back: None,
            pack_ref: None,
            lifetime: None,
            reaching_def: None,
        }
    }

    /// Stores `value` for `kind`, overwriting only this snapshot's entry for
    /// that kind and no other.
    pub fn set(&mut self, kind: AnnotationKind, value: AnnotationData)
        ensures
            final(self).spec_get(kind) == Some(value),
            forall|k: AnnotationKind|
                k != kind ==> #[trigger] final(self).spec_get(k) == old(self).spec_get(k),
    {
        match kind {
            AnnotationKind::LiveVar => self.live_var = Some(value),
            AnnotationKind::Borrow => self.borrow = Some(value),
            AnnotationKind::WriteBack => self.write_back = Some(value),
            AnnotationKind::PackRef => self.pack_ref = Some(value),
            AnnotationKind::Lifetime => self.lifetime = Some(value),
            AnnotationKind::ReachingDef => self.reaching_def = Some(value),
        }
    }

    /// The payload stored for `kind`, if any.
    pub fn get(&self, kind: AnnotationKind) -> (r: Option<&AnnotationData>)
        ensures
            match r {
                Some(v) => self.spec_get(kind) == Some(*v),
                None => self.spec_get(kind) is None,
            },
    {
        match kind {
            AnnotationKind::LiveVar => self.live_var.as_ref(),
            AnnotationKind::Borrow => self.borrow.as_ref(),
            AnnotationKind::WriteBack => self.write_back.as_ref(),
            AnnotationKind::PackRef => self.pack_ref.as_ref(),
            AnnotationKind::Lifetime => self.lifetime.as_ref(),
            AnnotationKind::ReachingDef => self.reaching_def.as_ref(),
        }
    }
}

} // verus!
