//! The composite, read-only query surface over one function at one stage.
//!
//! A `FunctionTarget` binds the function's immutable [`FunctionEnv`] to one
//! [`FunctionTargetData`] snapshot.  It is created fresh for each snapshot,
//! used by exactly one pass or one rendering, and discarded; the derived
//! name-to-index lookup and the appended debug formatters live and die with
//! it.

use crate::TargetError;
use crate::annotations::{AnnotationKind, Annotations};
use crate::bytecode::{AttrId, Bytecode, SpecBlockId};
use crate::env::{FunId, FunctionEnv, GlobalEnv, Loc, ModuleEnv, StructId, TypeParameter};
use crate::env::spec_pragma_value;
use crate::spec_ast::Spec;
use crate::symbols::{Symbol, SymbolPool};
use crate::table::Table;
use crate::target_data::FunctionTargetData;
use crate::ty::Type;
use vstd::prelude::*;

verus! {

/// The name a local answers to: its source name for source-declared locals,
/// a deterministically generated, stable-per-snapshot name for temporaries.
#[derive(Clone, Copy, Debug, PartialEq, Eq, Structural)]
pub enum LocalName {
    /// A source-declared parameter or local, named by its interned symbol.
    Declared(Symbol),
    /// A pass-introduced temporary, named after its slot index.
    Generated(usize),
}

/// A registered debug formatter: the capability to render one annotation
/// kind's fact at a code offset.  Formatters print in registration order.
#[derive(Clone, Copy, Debug, PartialEq, Eq, Structural)]
pub struct AnnotationFormatter {
    /// The annotation kind this formatter reads from the store.
    pub kind: AnnotationKind,
}

/// The read-only facade over one function's static metadata and one analysis
/// snapshot, used by every pass and by the debug renderer.
pub struct FunctionTarget<'env> {
    /// The function's immutable, source-declared metadata.
    pub func_env: &'env FunctionEnv,
    /// The snapshot this target reads.
    pub data: &'env FunctionTargetData,
    /// Derived lookup from a source local's symbol index to its slot.
    pub name_to_index: Table<usize>,
    /// Attached annotation formatters, for debugging and testing; append-only.
    pub annotation_formatters: Vec<AnnotationFormatter>,
}

impl<'env> FunctionTarget<'env> {
    /// The name-to-index lookup agrees with the declared local names: every
    /// source local's symbol resolves to its slot, and nothing else resolves.
    pub open spec fn names_indexed(&self) -> bool {
        &&& forall|j: int|
            0 <= j < self.func_env.local_names@.len() ==> self.name_to_index.spec_get(
                (#[trigger] self.func_env.local_names@[j]).0,
            ) == Some(j as usize)
        &&& forall|k: usize|
            #[trigger] self.name_to_index.spec_contains(k) ==> exists|j: usize|
                j < self.func_env.local_names@.len() && (
                #[trigger] self.func_env.local_names@[j as int]).0 == k
    }

    /// The snapshot is consistent with the declaration: counts nest, every
    /// source-anchored block resolves in the declared specification, the two
    /// block maps are exclusive, and everything renderable resolves through
    /// the pool.
    pub open spec fn data_consistent(&self) -> bool {
        let pool = self.func_env.module_env.env.symbol_pool.texts();
        &&& self.func_env.spec_user_local_count() <= self.data.local_types@.len()
        &&& self.data.spec_blocks_exclusive()
        &&& forall|id: usize|
            #[trigger] self.data.given_spec_blocks@.contains_key(id)
                ==> self.func_env.spec.spec_on_impl(self.data.given_spec_blocks@[id]) is Some
        &&& forall|i: int|
            0 <= i < self.data.local_types@.len() ==> (#[trigger] self.data.local_types@[i]).wf(
                pool,
            )
        &&& forall|i: int|
            0 <= i < self.data.return_types@.len() ==> (#[trigger] self.data.return_types@[i]).wf(
                pool,
            )
        &&& forall|i: int|
            0 <= i < self.data.code@.len() ==> (#[trigger] self.data.code@[i]).op.0 < pool.len()
        &&& forall|i: int, j: int|
            0 <= i < self.data.code@.len() && 0 <= j < self.data.code@[i].args@.len()
                ==> #[trigger] self.data.code@[i].args@[j] < self.data.local_types@.len()
    }

    /// The whole target is well formed: declaration, snapshot and the derived
    /// lookup all agree.
    pub open spec fn wf(&self) -> bool {
        &&& self.func_env.wf()
        &&& self.data_consistent()
        &&& self.names_indexed()
    }

    /// The registered formatters, in registration order.
    pub open spec fn formatters_seq(&self) -> Seq<AnnotationFormatter> {
        self.annotation_formatters@
    }

    /// Binds a static function view to one snapshot, deriving the
    /// name-to-index lookup from the declared local names.  No formatters are
    /// registered yet.
    pub fn new(func_env: &'env FunctionEnv, data: &'env FunctionTargetData) -> (t: FunctionTarget<
        'env,
    >)
        requires
            func_env.wf(),
        ensures
            t.func_env == func_env,
            t.data == data,
            t.formatters_seq() == Seq::<AnnotationFormatter>::empty(),
            t.names_indexed(),
    {
        let n = func_env.local_names.len();
        let mut name_to_index: Table<usize> = Table::new();
        let mut idx: usize = 0;
        while idx < n
            invariant
                func_env.wf(),
                n == func_env.local_names@.len(),
                idx <= n,
                forall|j: int|
                    0 <= j < idx ==> name_to_index.spec_get(
                        (#[trigger] func_env.local_names@[j]).0,
                    ) == Some(j as usize),
                forall|k: usize|
                    #[trigger] name_to_index.spec_contains(k) ==> exists|j: usize|
                        j < idx && (#[trigger] func_env.local_names@[j as int]).0 == k,
            decreases n - idx,
        {
            let ghost prev = name_to_index;
            let key = func_env.local_names[idx].0;
            name_to_index.insert(key, idx);
            proof {
                crate::table::lemma_assoc_lookup_push(prev.entry_seq(), key, idx);
                assert forall|k: usize| #[trigger] name_to_index.spec_contains(k) implies exists|
                    j: usize,
                |
                    j < idx + 1 && (#[trigger] func_env.local_names@[j as int]).0 == k by {
                    if k == key {
                        assert(idx < idx + 1 && (func_env.local_names@[idx as int]).0 == k);
                    } else {
                        assert(prev.spec_contains(k));
                        let j = choose|j: usize|
                            j < idx && (#[trigger] func_env.local_names@[j as int]).0 == k;
                        assert(j < idx + 1 && (func_env.local_names@[j as int]).0 == k);
                    }
                }
            }
            idx = idx + 1;
        }
        FunctionTarget { func_env, data, name_to_index, annotation_formatters: Vec::new() }
    }

    /// The name of this function.
    pub fn get_name(&self) -> (r: Symbol)
        ensures
            r == self.func_env.name,
    {
        self.func_env.name
    }

    /// The id of this function within its module.
    pub fn get_id(&self) -> (r: FunId)
        ensures
            r == self.func_env.id,
    {
        self.func_env.id
    }

    /// Shortcut for accessing the symbol pool.
    pub fn symbol_pool(&self) -> (r: &SymbolPool)
        ensures
            r == &self.func_env.module_env.env.symbol_pool,
    {
        &self.func_env.module_env.env.symbol_pool
    }

    /// Shortcut for accessing the module env of this function.
    pub fn module_env(&self) -> (r: &ModuleEnv)
        ensures
            r == &self.func_env.module_env,
    {
        &self.func_env.module_env
    }

    /// Shortcut for accessing the global env of this function.
    pub fn global_env(&self) -> (r: &GlobalEnv)
        ensures
            r == &self.func_env.module_env.env,
    {
        &self.func_env.module_env.env
    }

    /// The whole function's declared location.
    pub fn get_loc(&self) -> (r: Loc)
        ensures
            r == self.func_env.loc,
    {
        self.func_env.loc
    }

    /// The location recorded for the instruction tagged `attr_id`, falling
    /// back to the whole function's location when unmapped; never fails.
    pub open spec fn spec_bytecode_loc(&self, attr_id: AttrId) -> Loc {
        if self.data.locations@.contains_key(attr_id.0) {
            self.data.locations@[attr_id.0]
        } else {
            self.func_env.loc
        }
    }

    /// The location of the bytecode tagged `attr_id`.
    pub fn get_bytecode_loc(&self, attr_id: AttrId) -> (r: Loc)
        ensures
            r == self.spec_bytecode_loc(attr_id),
    {
        match self.data.locations.get(attr_id.0) {
            Some(loc) => *loc,
            None => self.get_loc(),
        }
    }

    /// Whether this function is native.
    pub fn is_native(&self) -> (r: bool)
        ensures
            r == self.func_env.native,
    {
        self.func_env.native
    }

    /// Whether this function is public.
    pub fn is_public(&self) -> (r: bool)
        ensures
            r == self.func_env.public,
    {
        self.func_env.public
    }

    /// Whether this function mutates any references: true iff it declares at
    /// least one mutable-reference parameter.
    pub fn is_mutating(&self) -> (r: bool)
        ensures
            r == exists|i: int|
                0 <= i < self.func_env.parameter_types@.len() && (
                #[trigger] self.func_env.parameter_types@[i]).spec_is_mut_reference(),
    {
        self.func_env.is_mutating()
    }

    /// The type parameters of this function, in declaration order.
    pub fn get_type_parameters(&self) -> (r: Vec<TypeParameter>)
        ensures
            r@ == self.func_env.type_parameters@,
    {
        let n = self.func_env.type_parameters.len();
        let mut r: Vec<TypeParameter> = Vec::new();
        let mut i: usize = 0;
        while i < n
            invariant
                n == self.func_env.type_parameters@.len(),
                i <= n,
                r@ == self.func_env.type_parameters@.take(i as int),
            decreases n - i,
        {
            r.push(self.func_env.type_parameters[i]);
            proof {
                assert(r@ =~= self.func_env.type_parameters@.take(i + 1));
            }
            i = i + 1;
        }
        proof {
            assert(r@ =~= self.func_env.type_parameters@);
        }
        r
    }

    /// The return type at `idx`; an index at or beyond the return count is a
    /// contract violation.
    pub fn get_return_type(&self, idx: usize) -> (r: Result<&Type, TargetError>)
        ensures
            match r {
                Ok(t) => idx < self.data.return_types@.len()
                    && *t == self.data.return_types@[idx as int],
                Err(e) => e == TargetError::IndexOutOfRange && idx >= self.data.return_types@.len(),
            },
    {
        if idx < self.data.return_types.len() {
            Ok(&self.data.return_types[idx])
        } else {
            Err(TargetError::IndexOutOfRange)
        }
    }

    /// The return types of this function.
    pub fn get_return_types(&self) -> (r: &Vec<Type>)
        ensures
            r == &self.data.return_types,
    {
        &self.data.return_types
    }

    /// The number of return values of this function.
    pub fn get_return_count(&self) -> (r: usize)
        ensures
            r == self.data.return_types@.len(),
    {
        self.data.return_types.len()
    }

    /// The number of declared parameters.
    pub fn get_parameter_count(&self) -> (r: usize)
        ensures
            r == self.func_env.parameter_types@.len(),
    {
        self.func_env.parameter_types.len()
    }

    /// The name of the local at `idx`: the source name for a source-declared
    /// parameter or local, a generated stable name for a pass-introduced
    /// temporary.
    pub fn get_local_name(&self, idx: usize) -> (r: LocalName)
        ensures
            r == if idx < self.func_env.local_names@.len() {
                LocalName::Declared(self.func_env.local_names@[idx as int])
            } else {
                LocalName::Generated(idx)
            },
    {
        if idx < self.func_env.local_names.len() {
            LocalName::Declared(self.func_env.local_names[idx])
        } else {
            LocalName::Generated(idx)
        }
    }

    /// The slot of the source-declared local named `name`, if any.
    pub fn get_local_index(&self, name: Symbol) -> (r: Option<usize>)
        requires
            self.wf(),
        ensures
            match r {
                Some(i) => i < self.func_env.local_names@.len()
                    && self.func_env.local_names@[i as int] == name,
                None => forall|j: int|
                    0 <= j < self.func_env.local_names@.len()
                        ==> #[trigger] self.func_env.local_names@[j] != name,
            },
    {
        match self.name_to_index.get(name.0) {
            Some(i) => {
                proof {
                    self.name_to_index.lemma_view_get(name.0);
                    assert(self.name_to_index.spec_contains(name.0));
                    let j = choose|j: usize|
                        j < self.func_env.local_names@.len() && (
                        #[trigger] self.func_env.local_names@[j as int]).0 == name.0;
                    assert(self.name_to_index.spec_get(
                        self.func_env.local_names@[j as int].0,
                    ) == Some(j));
                    assert(*i == j);
                    assert(self.func_env.local_names@[j as int] == name);
                }
                Some(*i)
            },
            None => {
                proof {
                    self.name_to_index.lemma_view_get(name.0);
                    assert forall|j: int|
                        0 <= j < self.func_env.local_names@.len() implies #[trigger] self.func_env
                        .local_names@[j] != name by {
                        if self.func_env.local_names@[j] == name {
                            assert(self.name_to_index.spec_get(self.func_env.local_names@[j].0)
                                == Some(j as usize));
                        }
                    }
                }
                None
            },
        }
    }

    /// The number of locals of this function, temporaries included.
    pub fn get_local_count(&self) -> (r: usize)
        ensures
            r == self.data.local_types@.len(),
    {
        self.data.local_types.len()
    }

    /// The number of source-declared locals, excluding locals introduced by
    /// transformations.
    pub fn get_user_local_count(&self) -> (r: usize)
        ensures
            r == self.func_env.local_names@.len(),
    {
        self.func_env.local_names.len()
    }

    /// The type installed for the local at `idx` in the current snapshot; an
    /// index at or beyond the local count is a contract violation.
    pub fn get_local_type(&self, idx: usize) -> (r: Result<&Type, TargetError>)
        ensures
            match r {
                Ok(t) => idx < self.data.local_types@.len()
                    && *t == self.data.local_types@[idx as int],
                Err(e) => e == TargetError::IndexOutOfRange && idx >= self.data.local_types@.len(),
            },
    {
        if idx < self.data.local_types.len() {
            Ok(&self.data.local_types[idx])
        } else {
            Err(TargetError::IndexOutOfRange)
        }
    }

    /// The full source-level specification of this function.
    pub fn get_spec(&self) -> (r: &Spec)
        ensures
            r == &self.func_env.spec,
    {
        &self.func_env.spec
    }

    /// How `block_id` resolves: through the source-anchored map into the
    /// declared specification, else through the synthesized map, else not at
    /// all.
    pub open spec fn spec_block_at(&self, block_id: SpecBlockId) -> Option<Spec> {
        if self.data.given_spec_blocks@.contains_key(block_id.0) {
            self.func_env.spec.spec_on_impl(self.data.given_spec_blocks@[block_id.0])
        } else if self.data.generated_spec_blocks@.contains_key(block_id.0) {
            Some(self.data.generated_spec_blocks@[block_id.0])
        } else {
            None
        }
    }

    /// The specification block behind `block_id`: source-anchored blocks
    /// resolve first, synthesized blocks second; a block id that neither map
    /// binds is a contract violation.
    pub fn get_spec_on_impl(&self, block_id: SpecBlockId) -> (r: Result<&Spec, TargetError>)
        requires
            self.wf(),
        ensures
            match r {
                Ok(s) => self.spec_block_at(block_id) == Some(*s),
                Err(e) => e == TargetError::BlockNotFound && self.spec_block_at(block_id) is None,
            },
    {
        match self.data.given_spec_blocks.get(block_id.0) {
            Some(code_offset) => match self.func_env.spec.on_impl_get(*code_offset) {
                Some(s) => Ok(s),
                None => Err(TargetError::BlockNotFound),
            },
            None => match self.data.generated_spec_blocks.get(block_id.0) {
                Some(s) => Ok(s),
                None => Err(TargetError::BlockNotFound),
            },
        }
    }

    /// The value of the boolean pragma `name` for this function: looked up at
    /// function scope first, then module scope, then `default`.
    pub fn is_pragma_true(&self, name: &String, default: bool) -> (r: bool)
        requires
            self.func_env.module_env.env.symbol_pool.wf(),
        ensures
            r == spec_pragma_value(*self.func_env, name@, default),
    {
        self.func_env.is_pragma_true(name, default)
    }

    /// The current bytecode.
    pub fn get_bytecode(&self) -> (r: &Vec<Bytecode>)
        ensures
            r == &self.data.code,
    {
        &self.data.code
    }

    /// The annotation store of the current snapshot.
    pub fn get_annotations(&self) -> (r: &Annotations)
        ensures
            r == &self.data.annotations,
    {
        &self.data.annotations
    }

    /// The global resources this function acquires.
    pub fn get_acquires_global_resources(&self) -> (r: &Vec<StructId>)
        ensures
            r == &self.data.acquires_global_resources,
    {
        &self.data.acquires_global_resources
    }

    /// The return slot aliased to the mutable-reference parameter `idx`, if
    /// one was recorded.
    pub fn get_return_index(&self, idx: usize) -> (r: Option<usize>)
        ensures
            match r {
                Some(ret) => self.data.ref_param_map@.contains_key(idx)
                    && self.data.ref_param_map@[idx] == ret,
                None => !self.data.ref_param_map@.contains_key(idx),
            },
    {
        match self.data.ref_param_map.get(idx) {
            Some(ret) => Some(*ret),
            None => None,
        }
    }

    /// Whether a call to this function ends the lifetime of every borrow
    /// rooted in its arguments: true iff the function is public and no return
    /// type is a reference.  A reference-returning call could keep a borrow
    /// alive through its result; non-public functions are conservatively
    /// excluded.
    pub fn call_ends_lifetime(&self) -> (r: bool)
        ensures
            r == (self.func_env.public && forall|i: int|
                0 <= i < self.data.return_types@.len() ==> !(
                #[trigger] self.data.return_types@[i]).spec_is_reference()),
    {
        if !self.is_public() {
            return false;
        }
        let n = self.data.return_types.len();
        let mut i: usize = 0;
        while i < n
            invariant
                n == self.data.return_types@.len(),
                i <= n,
                forall|j: int|
                    0 <= j < i ==> !(#[trigger] self.data.return_types@[j]).spec_is_reference(),
            decreases n - i,
        {
            if self.data.return_types[i].is_reference() {
                return false;
            }
            i = i + 1;
        }
        true
    }

    /// The registered formatters, in registration order.
    pub fn formatters(&self) -> (r: &Vec<AnnotationFormatter>)
        ensures
            r@ == self.formatters_seq(),
    {
        &self.annotation_formatters
    }

    /// Appends a formatter to the registry.  Each pass that introduces a new
    /// annotation kind registers one so that its facts print when a target is
    /// displayed for debugging or testing.
    pub fn register_annotation_formatter(&mut self, formatter: AnnotationFormatter)
        ensures
            final(self).formatters_seq() == old(self).formatters_seq().push(formatter),
            final(self).func_env == old(self).func_env,
            final(self).data == old(self).data,
            final(self).name_to_index == old(self).name_to_index,
    {
        self.annotation_formatters.push(formatter);
    }

    /// Registers the canonical formatter set that tests render with: the six
    /// pipeline kinds, in this fixed order.
    pub fn register_annotation_formatters_for_test(&mut self)
        ensures
            final(self).formatters_seq() == old(self).formatters_seq() + seq![
                AnnotationFormatter { kind: AnnotationKind::LiveVar },
                AnnotationFormatter { kind: AnnotationKind::Borrow },
                AnnotationFormatter { kind: AnnotationKind::WriteBack },
                AnnotationFormatter { kind: AnnotationKind::PackRef },
                AnnotationFormatter { kind: AnnotationKind::Lifetime },
                AnnotationFormatter { kind: AnnotationKind::ReachingDef },
            ],
            final(self).func_env == old(self).func_env,
            final(self).data == old(self).data,
            final(self).name_to_index == old(self).name_to_index,
    {
        self.register_annotation_formatter(
            AnnotationFormatter { kind: AnnotationKind::LiveVar },
        );
        self.register_annotation_formatter(AnnotationFormatter { kind: AnnotationKind::Borrow });
        self.register_annotation_formatter(
            AnnotationFormatter { kind: AnnotationKind::WriteBack },
        );
        self.register_annotation_formatter(AnnotationFormatter { kind: AnnotationKind::PackRef });
        self.register_annotation_formatter(
            AnnotationFormatter { kind: AnnotationKind::Lifetime },
        );
        self.register_annotation_formatter(
            AnnotationFormatter { kind: AnnotationKind::ReachingDef },
        );
        proof {
            assert(self.formatters_seq() =~= old(self).formatters_seq() + seq![
                AnnotationFormatter { kind: AnnotationKind::LiveVar },
                AnnotationFormatter { kind: AnnotationKind::Borrow },
                AnnotationFormatter { kind: AnnotationKind::WriteBack },
                AnnotationFormatter { kind: AnnotationKind::PackRef },
                AnnotationFormatter { kind: AnnotationKind::Lifetime },
                AnnotationFormatter { kind: AnnotationKind::ReachingDef },
            ]);
        }
    }
}

/// The name-to-index law: for every source-declared parameter or local —
/// whose names are distinct by well-formedness — looking the local's own name
/// up yields exactly its slot, so `get_local_index` inverts `get_local_name`
/// on declared locals.
pub proof fn lemma_local_name_index_roundtrip(t: FunctionTarget, idx: usize)
    requires
        t.wf(),
        idx < t.func_env.local_names@.len(),
    ensures
        t.name_to_index.spec_get(t.func_env.local_names@[idx as int].0) == Some(idx),
{
}

/// What the formatter for `kind` has to say at `offset`: the text its
/// analysis stored there, if the analysis ran and stored one.
pub open spec fn spec_annotation_text(
    t: FunctionTarget,
    kind: AnnotationKind,
    offset: usize,
) -> Option<Seq<char>> {
    match t.data.annotations.spec_get(kind) {
        Some(data) => if data.per_offset@.contains_key(offset) {
            Some(data.per_offset@[offset]@)
        } else {
            None
        },
        None => None,
    }
}

impl AnnotationFormatter {
    /// Renders this formatter's annotation kind at `offset`, or nothing if
    /// the kind's analysis stored no fact there.
    pub fn format(&self, target: &FunctionTarget<'_>, offset: usize) -> (r: Option<String>)
        ensures
            match r {
                Some(s) => spec_annotation_text(*target, self.kind, offset) == Some(s@),
                None => spec_annotation_text(*target, self.kind, offset) is None,
            },
    {
        match target.get_annotations().get(self.kind) {
            Some(data) => match data.per_offset.get(offset) {
                Some(s) => Some(s.clone()),
                None => None,
            },
            None => None,
        }
    }
}

} // verus!
