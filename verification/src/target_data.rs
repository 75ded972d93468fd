//! The mutable analysis payload of one function at one pipeline stage.
//!
//! A snapshot is created once per function at pipeline start and then
//! superseded, never mutated in place, by each pass.  The mutators here are
//! the whole write surface, and each one's contract keeps the transformation
//! rules: locals only grow, the aliasing map only gains fresh entries, the
//! source-anchored specification-block map is never touched, and the
//! synthesized one only grows with ids the source-anchored map does not hold.

use crate::TargetError;
use crate::annotations::{AnnotationData, AnnotationKind, Annotations};
use crate::bytecode::{Bytecode, SpecBlockId};
use crate::env::{Loc, StructId};
use crate::spec_ast::Spec;
use crate::table::Table;
use crate::ty::Type;
use vstd::prelude::*;

verus! {

/// The owned payload of a [`crate::function_target::FunctionTarget`]:
/// bytecode, local and return types, the reference-aliasing map, acquired
/// resources, per-instruction locations, the annotation store, and the two
/// specification-block maps.
pub struct FunctionTargetData {
    /// The current instruction sequence.
    pub code: Vec<Bytecode>,
    /// Types of all locals; parameters first, then source locals, then
    /// pass-introduced temporaries.
    pub local_types: Vec<Type>,
    /// The function's return types.
    pub return_types: Vec<Type>,
    /// Maps a mutable-reference parameter slot to the return slot that keeps
    /// its value alive; entries are never overwritten or removed.
    pub ref_param_map: Table<usize>,
    /// The global resources the function acquires, from source declarations.
    pub acquires_global_resources: Vec<StructId>,
    /// Source location of an instruction, keyed by its stable tag's index.
    pub locations: Table<Loc>,
    /// The per-pass analysis results.
    pub annotations: Annotations,
    /// Source-anchored specification blocks: block id to the original code
    /// offset whose attached conditions it names.  Fixed at the snapshot that
    /// first materializes it; no mutator here touches it.
    pub given_spec_blocks: Table<usize>,
    /// Synthesized specification blocks: block id to the conditions a
    /// transformation generated.  Grow-only.
    pub generated_spec_blocks: Table<Spec>,
}

/// The transformation contract as one relation: what any single pass may do
/// to a snapshot.  Locals only grow and are never renumbered, return types
/// and acquired resources stay, the aliasing map and the synthesized
/// specification-block map only gain entries, and the source-anchored
/// specification-block map is identical — write-once.
pub open spec fn evolves(pre: FunctionTargetData, post: FunctionTargetData) -> bool {
    &&& pre.local_types@.is_prefix_of(post.local_types@)
    &&& post.return_types == pre.return_types
    &&& pre.ref_param_map@.submap_of(post.ref_param_map@)
    &&& post.acquires_global_resources == pre.acquires_global_resources
    &&& post.given_spec_blocks == pre.given_spec_blocks
    &&& pre.generated_spec_blocks@.submap_of(post.generated_spec_blocks@)
}

/// The transformation contract composes: what each pass keeps, a whole
/// lineage keeps.  In particular, the source-anchored specification-block map
/// is identical across every snapshot in one function's lineage.
pub proof fn lemma_evolves_trans(
    a: FunctionTargetData,
    b: FunctionTargetData,
    c: FunctionTargetData,
)
    requires
        evolves(a, b),
        evolves(b, c),
    ensures
        evolves(a, c),
{
    assert(a.local_types@.is_prefix_of(c.local_types@)) by {
        assert(a.local_types@ =~= c.local_types@.subrange(0, a.local_types@.len() as int));
    }
    vstd::map_lib::lemma_submap_of_trans(a.ref_param_map@, b.ref_param_map@, c.ref_param_map@);
    vstd::map_lib::lemma_submap_of_trans(
        a.generated_spec_blocks@,
        b.generated_spec_blocks@,
        c.generated_spec_blocks@,
    );
}

/// Every snapshot trivially evolves from itself: a pass that changes nothing
/// keeps the contract.
pub proof fn lemma_evolves_refl(d: FunctionTargetData)
    ensures
        evolves(d, d),
{
    assert(d.local_types@.is_prefix_of(d.local_types@)) by {
        assert(d.local_types@ =~= d.local_types@.subrange(0, d.local_types@.len() as int));
    }
}

impl FunctionTargetData {
    /// The two specification-block maps are mutually exclusive: a block id is
    /// bound by at most one of them.
    pub open spec fn spec_blocks_exclusive(&self) -> bool {
        forall|id: usize|
            !(self.given_spec_blocks@.contains_key(id)
                && self.generated_spec_blocks@.contains_key(id))
    }

    /// Builds the initial snapshot from the source-declared instructions,
    /// types, acquired resources, locations, and the source-anchored
    /// specification-block map.  Aliasing map, annotation store and
    /// synthesized block map start empty.
    pub fn new(
        code: Vec<Bytecode>,
        local_types: Vec<Type>,
        return_types: Vec<Type>,
        acquires_global_resources: Vec<StructId>,
        locations: Table<Loc>,
        given_spec_blocks: Table<usize>,
    ) -> (data: FunctionTargetData)
        ensures
            data.code == code,
            data.local_types == local_types,
            data.return_types == return_types,
            data.acquires_global_resources == acquires_global_resources,
            data.locations == locations,
            data.given_spec_blocks == given_spec_blocks,
            data.ref_param_map@ == Map::<usize, usize>::empty(),
            data.generated_spec_blocks@ == Map::<usize, Spec>::empty(),
            forall|k: AnnotationKind| data.annotations.spec_get(k) is None,
            data.spec_blocks_exclusive(),
    {
        FunctionTargetData {
            code,
            local_types,
            return_types,
            ref_param_map: Table::new(),
            acquires_global_resources,
            locations,
            annotations: Annotations::new(),
            given_spec_blocks,
            generated_spec_blocks: Table::new(),
        }
    }

    /// Grows the local-type sequence by one pass-introduced temporary; no
    /// existing slot is renumbered and nothing else changes.
    pub fn add_local(&mut self, ty: Type)
        ensures
            final(self).local_types@ == old(self).local_types@.push(ty),
            final(self).code == old(self).code,
            final(self).return_types == old(self).return_types,
            final(self).ref_param_map == old(self).ref_param_map,
            final(self).acquires_global_resources == old(self).acquires_global_resources,
            final(self).locations == old(self).locations,
            final(self).annotations == old(self).annotations,
            final(self).given_spec_blocks == old(self).given_spec_blocks,
            final(self).generated_spec_blocks == old(self).generated_spec_blocks,
            evolves(*old(self), *final(self)),
    {
        self.local_types.push(ty);
        proof {
            lemma_evolves_refl(*old(self));
            assert(old(self).local_types@.is_prefix_of(self.local_types@)) by {
                assert(old(self).local_types@ =~= self.local_types@.subrange(
                    0,
                    old(self).local_types@.len() as int,
                ));
            }
        }
    }

    /// Replaces the instruction sequence and the per-instruction location map,
    /// as a pass does when it rewrites the bytecode; nothing else changes.
    pub fn replace_code(&mut self, code: Vec<Bytecode>, locations: Table<Loc>)
        ensures
            final(self).code == code,
            final(self).locations == locations,
            final(self).local_types == old(self).local_types,
            final(self).return_types == old(self).return_types,
            final(self).ref_param_map == old(self).ref_param_map,
            final(self).acquires_global_resources == old(self).acquires_global_resources,
            final(self).annotations == old(self).annotations,
            final(self).given_spec_blocks == old(self).given_spec_blocks,
            final(self).generated_spec_blocks == old(self).generated_spec_blocks,
            evolves(*old(self), *final(self)),
    {
        self.code = code;
        self.locations = locations;
        proof {
            lemma_evolves_refl(*old(self));
        }
    }

    /// Binds the mutable-reference parameter slot `param_idx` to the return
    /// slot `return_idx`.  An entry, once inserted, is never overwritten: a
    /// conflicting re-insertion is a contract violation and fails fast,
    /// leaving the snapshot unchanged.
    pub fn add_ref_param(&mut self, param_idx: usize, return_idx: usize) -> (r: Result<
        (),
        TargetError,
    >)
        requires
            param_idx < old(self).local_types@.len(),
            old(self).local_types@[param_idx as int].spec_is_mut_reference(),
            return_idx < old(self).return_types@.len(),
        ensures
            match r {
                Ok(()) => !old(self).ref_param_map@.contains_key(param_idx) && final(self).ref_param_map@ == old(self).ref_param_map@.insert(param_idx, return_idx),
                Err(e) => e == TargetError::AliasConflict && old(self).ref_param_map@.contains_key(
                    param_idx,
                ) && final(self).ref_param_map == old(self).ref_param_map,
            },
            final(self).code == old(self).code,
            final(self).local_types == old(self).local_types,
            final(self).return_types == old(self).return_types,
            final(self).acquires_global_resources == old(self).acquires_global_resources,
            final(self).locations == old(self).locations,
            final(self).annotations == old(self).annotations,
            final(self).given_spec_blocks == old(self).given_spec_blocks,
            final(self).generated_spec_blocks == old(self).generated_spec_blocks,
            evolves(*old(self), *final(self)),
    {
        proof {
            lemma_evolves_refl(*old(self));
        }
        if self.ref_param_map.contains_key(param_idx) {
            Err(TargetError::AliasConflict)
        } else {
            self.ref_param_map.insert(param_idx, return_idx);
            proof {
                assert(old(self).ref_param_map@.submap_of(self.ref_param_map@));
            }
            Ok(())
        }
    }

    /// Stores a pass's result payload for its annotation kind, overwriting
    /// only that kind's slot; nothing else changes.
    pub fn set_annotation(&mut self, kind: AnnotationKind, value: AnnotationData)
        ensures
            final(self).annotations.spec_get(kind) == Some(value),
            forall|k: AnnotationKind|
                k != kind ==> #[trigger] final(self).annotations.spec_get(k) == old(self).annotations.spec_get(k),
            final(self).code == old(self).code,
            final(self).local_types == old(self).local_types,
            final(self).return_types == old(self).return_types,
            final(self).ref_param_map == old(self).ref_param_map,
            final(self).acquires_global_resources == old(self).acquires_global_resources,
            final(self).locations == old(self).locations,
            final(self).given_spec_blocks == old(self).given_spec_blocks,
            final(self).generated_spec_blocks == old(self).generated_spec_blocks,
            evolves(*old(self), *final(self)),
    {
        self.annotations.set(kind, value);
        proof {
            lemma_evolves_refl(*old(self));
        }
    }

    /// Adds a synthesized specification block under a fresh id.  An id the
    /// source-anchored map already binds — or one this map already binds —
    /// is a contract violation and fails fast, leaving the snapshot
    /// unchanged; the source-anchored map itself is never written.
    pub fn add_generated_spec_block(&mut self, id: SpecBlockId, conditions: Spec) -> (r: Result<
        (),
        TargetError,
    >)
        ensures
            match r {
                Ok(()) => !old(self).given_spec_blocks@.contains_key(id.0) && !old(self).generated_spec_blocks@.contains_key(id.0) && final(self).generated_spec_blocks@
                    == old(self).generated_spec_blocks@.insert(id.0, conditions),
                Err(e) => e == TargetError::AliasConflict && (old(self).given_spec_blocks@.contains_key(id.0) || old(self).generated_spec_blocks@.contains_key(id.0)) && final(self).generated_spec_blocks
                    == old(self).generated_spec_blocks,
            },
            old(self).spec_blocks_exclusive() ==> final(self).spec_blocks_exclusive(),
            final(self).code == old(self).code,
            final(self).local_types == old(self).local_types,
            final(self).return_types == old(self).return_types,
            final(self).ref_param_map == old(self).ref_param_map,
            final(self).acquires_global_resources == old(self).acquires_global_resources,
            final(self).locations == old(self).locations,
            final(self).annotations == old(self).annotations,
            final(self).given_spec_blocks == old(self).given_spec_blocks,
            evolves(*old(self), *final(self)),
    {
        proof {
            lemma_evolves_refl(*old(self));
        }
        if self.given_spec_blocks.contains_key(id.0) {
            Err(TargetError::AliasConflict)
        } else if self.generated_spec_blocks.contains_key(id.0) {
            Err(TargetError::AliasConflict)
        } else {
            self.generated_spec_blocks.insert(id.0, conditions);
            proof {
                assert(old(self).generated_spec_blocks@.submap_of(self.generated_spec_blocks@));
            }
            Ok(())
        }
    }
}

/// The mutual-exclusion law of the two specification-block maps: in any
/// snapshot keeping the exclusivity invariant, a block id present in the
/// synthesized map is absent from the source-anchored map, and vice versa.
pub proof fn lemma_spec_block_maps_exclusive(data: FunctionTargetData, id: usize)
    requires
        data.spec_blocks_exclusive(),
    ensures
        data.generated_spec_blocks@.contains_key(id) ==> !data.given_spec_blocks@.contains_key(id),
        data.given_spec_blocks@.contains_key(id) ==> !data.generated_spec_blocks@.contains_key(id),
{
}

} // verus!
