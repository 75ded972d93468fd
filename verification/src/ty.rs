//! The model of bytecode-level types: what the target's queries read of a
//! type is whether it is a reference and how it prints.

use crate::symbols::{Symbol, SymbolPool};
use vstd::prelude::*;

verus! {

/// A local, parameter or return type as the analyses see it: a named base
/// type, or an immutable or mutable reference to a type.
pub enum Type {
    /// A non-reference type, displayed by the interned name.
    Base(Symbol),
    /// A reference; the flag is true for a mutable reference.
    Reference(bool, Box<Type>),
}

impl Type {
    /// Whether the type is a reference, mutable or not.
    pub open spec fn spec_is_reference(&self) -> bool {
        self is Reference
    }

    /// Whether the type is a mutable reference.
    pub open spec fn spec_is_mut_reference(&self) -> bool {
        match *self {
            Type::Reference(is_mut, _) => is_mut,
            _ => false,
        }
    }

    /// Every named base type is interned in the pool with texts `pool`.
    pub open spec fn wf(&self, pool: Seq<Seq<char>>) -> bool
        decreases *self,
    {
        match *self {
            Type::Base(s) => s.0 < pool.len(),
            Type::Reference(_, t) => t.wf(pool),
        }
    }

    /// Whether the type is a reference, mutable or not.
    pub fn is_reference(&self) -> (r: bool)
        ensures
            r == self.spec_is_reference(),
    {
        match self {
            Type::Reference(_, _) => true,
            _ => false,
        }
    }

    /// Whether the type is a mutable reference.
    pub fn is_mut_reference(&self) -> (r: bool)
        ensures
            r == self.spec_is_mut_reference(),
    {
        match self {
            Type::Reference(is_mut, _) => *is_mut,
            _ => false,
        }
    }
}

/// The text a type displays as, against the pool texts `pool`.
pub open spec fn type_text(t: Type, pool: Seq<Seq<char>>) -> Seq<char>
    decreases t,
{
    match t {
        Type::Base(s) => pool[s.0 as int],
        Type::Reference(is_mut, inner) => if is_mut {
            "&mut "@ + type_text(*inner, pool)
        } else {
            "&"@ + type_text(*inner, pool)
        },
    }
}

/// Renders a type against the pool that interned its base-type names.
pub fn type_display(t: &Type, pool: &SymbolPool) -> (r: String)
    requires
        t.wf(pool.texts()),
    ensures
        r@ == type_text(*t, pool.texts()),
    decreases *t,
{
    match t {
        Type::Base(s) => pool.string(*s).clone(),
        Type::Reference(is_mut, inner) => {
            let mut r = if *is_mut {
                proof {
                    reveal_strlit("&mut ");
                }
                String::from_str("&mut ")
            } else {
                proof {
                    reveal_strlit("&");
                }
                String::from_str("&")
            };
            let rest = type_display(inner, pool);
            r.append(rest.as_str());
            r
        },
    }
}

} // verus!
