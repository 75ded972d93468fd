//! The source environment a target reads through: the immutable, per-function
//! metadata the front end declared, shared by every snapshot of the function.

use crate::spec_ast::Spec;
use crate::symbols::{Symbol, SymbolPool};
use crate::table::Table;
use crate::ty::Type;
use vstd::prelude::*;

verus! {

/// Identifies a function within its module.
#[derive(Clone, Copy, Debug, PartialEq, Eq, Structural)]
pub struct FunId(pub usize);

/// Identifies a struct whose global resource a function may acquire.
#[derive(Clone, Copy, Debug, PartialEq, Eq, Structural)]
pub struct StructId(pub usize);

/// A source location: a file and a character span within it.
#[derive(Clone, Copy, Debug, PartialEq, Eq, Structural)]
pub struct Loc {
    /// Identifies the source file.
    pub file: usize,
    /// First character of the span.
    pub start: usize,
    /// One past the last character of the span.
    pub end: usize,
}

/// A declared type parameter, known to the target by its name alone.
#[derive(Clone, Copy, Debug, PartialEq, Eq, Structural)]
pub struct TypeParameter(pub Symbol);

/// The global environment: what outlives every module, here the symbol pool
/// that resolves interned names.
pub struct GlobalEnv {
    /// Resolves every interned symbol of the program.
    pub symbol_pool: SymbolPool,
}

/// The module that owns a function: its name and its module-scope pragmas.
pub struct ModuleEnv {
    /// The module's interned name.
    pub name: Symbol,
    /// Module-scope pragma values, keyed by the pragma name's symbol index.
    pub pragmas: Table<bool>,
    /// The enclosing global environment.
    pub env: GlobalEnv,
}

/// The immutable, source-declared metadata of one function.  It is shared by
/// every snapshot of the function and outlives all of them.
pub struct FunctionEnv {
    /// The owning module.
    pub module_env: ModuleEnv,
    /// The function's interned name.
    pub name: Symbol,
    /// The function's id within its module.
    pub id: FunId,
    /// The whole function's declared location.
    pub loc: Loc,
    /// Whether the function is native.
    pub native: bool,
    /// Whether the function is public.
    pub public: bool,
    /// The declared type parameters, in order.
    pub type_parameters: Vec<TypeParameter>,
    /// The declared parameter types; their count is the parameter count.
    pub parameter_types: Vec<Type>,
    /// Names of the source-declared locals; the first `parameter_types.len()`
    /// are the parameters.
    pub local_names: Vec<Symbol>,
    /// Function-scope pragma values, keyed by the pragma name's symbol index.
    pub pragmas: Table<bool>,
    /// The function's declared specification.
    pub spec: Spec,
}

/// The value the pragma chain resolves `name` to: the function scope first,
/// then the module scope, then the caller's default.
pub open spec fn spec_pragma_value(fe: FunctionEnv, name: Seq<char>, default: bool) -> bool {
    let pool = fe.module_env.env.symbol_pool.texts();
    if exists|i: int| 0 <= i < pool.len() && pool[i] == name {
        let i = choose|i: int| 0 <= i < pool.len() && pool[i] == name;
        if fe.pragmas@.contains_key(i as usize) {
            fe.pragmas@[i as usize]
        } else if fe.module_env.pragmas@.contains_key(i as usize) {
            fe.module_env.pragmas@[i as usize]
        } else {
            default
        }
    } else {
        default
    }
}

impl FunctionEnv {
    /// The number of declared parameters.
    pub open spec fn spec_parameter_count(&self) -> int {
        self.parameter_types@.len() as int
    }

    /// The number of source-declared locals, parameters included.
    pub open spec fn spec_user_local_count(&self) -> int {
        self.local_names@.len() as int
    }

    /// The declaration is internally consistent and every symbol it mentions
    /// is interned: parameters are a prefix of the declared locals, their
    /// names are distinct, and names and types resolve through the pool.
    pub open spec fn wf(&self) -> bool {
        let pool = self.module_env.env.symbol_pool;
        &&& pool.wf()
        &&& self.spec_parameter_count() <= self.spec_user_local_count()
        &&& pool.spec_has(self.name)
        &&& pool.spec_has(self.module_env.name)
        &&& forall|i: int|
            0 <= i < self.local_names@.len() ==> pool.spec_has(#[trigger] self.local_names@[i])
        &&& forall|i: int, j: int|
            0 <= i < j < self.local_names@.len() ==> self.local_names@[i] != self.local_names@[j]
        &&& forall|i: int|
            0 <= i < self.type_parameters@.len() ==> pool.spec_has(
                #[trigger] self.type_parameters@[i].0,
            )
        &&& forall|i: int|
            0 <= i < self.parameter_types@.len() ==> (#[trigger] self.parameter_types@[i]).wf(
                pool.texts(),
            )
    }

    /// Whether the function mutates through any of its parameters: true iff
    /// some declared parameter type is a mutable reference.
    pub fn is_mutating(&self) -> (r: bool)
        ensures
            r == exists|i: int|
                0 <= i < self.parameter_types@.len() && (#[trigger] self.parameter_types@[i])
                    .spec_is_mut_reference(),
    {
        let n = self.parameter_types.len();
        let mut i: usize = 0;
        while i < n
            invariant
                n == self.parameter_types@.len(),
                i <= n,
                forall|j: int|
                    0 <= j < i ==> !(#[trigger] self.parameter_types@[j]).spec_is_mut_reference(),
            decreases n - i,
        {
            if self.parameter_types[i].is_mut_reference() {
                return true;
            }
            i = i + 1;
        }
        false
    }

    /// Resolves the boolean pragma `name`: at function scope first, then at
    /// module scope, and to `default` where neither scope sets it.  This
    /// always produces a concrete value; an unknown name simply falls through.
    pub fn is_pragma_true(&self, name: &String, default: bool) -> (r: bool)
        requires
            self.module_env.env.symbol_pool.wf(),
        ensures
            r == spec_pragma_value(*self, name@, default),
    {
        let pool = &self.module_env.env.symbol_pool;
        match pool.find(name) {
            Some(sym) => {
                proof {
                    let i = choose|i: int|
                        0 <= i < pool.texts().len() && pool.texts()[i] == name@;
                    assert(pool.texts()[sym.0 as int] == name@);
                    assert(i == sym.0 as int);
                }
                match self.pragmas.get(sym.0) {
                    Some(b) => *b,
                    None => match self.module_env.pragmas.get(sym.0) {
                        Some(b) => *b,
                        None => default,
                    },
                }
            },
            None => default,
        }
    }
}

} // verus!
