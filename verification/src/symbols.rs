//! Interned identifiers and the pool that resolves them to text.

use vstd::prelude::*;

verus! {

/// An interned identifier: an index into the owning module's [`SymbolPool`].
/// Symbols compare by interned identity, not by text.
#[derive(Clone, Copy, Debug, PartialEq, Eq, Structural)]
pub struct Symbol(pub usize);

/// Resolves interned symbols to their text.  Interning guarantees that no two
/// pool entries share a text, so a text determines at most one symbol.
pub struct SymbolPool {
    names: Vec<String>,
}

impl SymbolPool {
    /// The pooled texts, in interning order.
    pub closed spec fn texts(&self) -> Seq<Seq<char>> {
        self.names@.map(|i: int, s: String| s@)
    }

    /// Whether `s` was interned in this pool.
    pub open spec fn spec_has(&self, s: Symbol) -> bool {
        s.0 < self.texts().len()
    }

    /// No two entries share a text: the uniqueness that interning provides.
    pub open spec fn wf(&self) -> bool {
        forall|i: int, j: int|
            0 <= i < j < self.texts().len() ==> self.texts()[i] != self.texts()[j]
    }

    /// Builds a pool from already-interned texts.
    pub fn new(names: Vec<String>) -> (pool: SymbolPool)
        ensures
            pool.texts() == names@.map(|i: int, s: String| s@),
    {
        SymbolPool { names }
    }

    /// The text of an interned symbol.
    pub fn string(&self, s: Symbol) -> (r: &String)
        requires
            self.spec_has(s),
        ensures
            r@ == self.texts()[s.0 as int],
    {
        &self.names[s.0]
    }

    /// The symbol interned for `name`, if any.
    pub fn find(&self, name: &String) -> (r: Option<Symbol>)
        ensures
            match r {
                Some(s) => self.spec_has(s) && self.texts()[s.0 as int] == name@,
                None => forall|i: int| 0 <= i < self.texts().len() ==> self.texts()[i] != name@,
            },
    {
        let n = self.names.len();
        let mut i: usize = 0;
        while i < n
            invariant
                n == self.texts().len(),
                i <= n,
                forall|j: int| 0 <= j < i ==> self.texts()[j] != name@,
            decreases n - i,
        {
            if self.names[i] == *name {
                return Some(Symbol(i));
            }
            i = i + 1;
        }
        None
    }
}

} // verus!
