//! Instructions and the identifiers that anchor analysis facts to them.

use crate::symbols::Symbol;
use vstd::prelude::*;

verus! {

/// A stable per-instruction identifier, independent of the instruction's
/// position, used to recover source locations across transformations.
#[derive(Clone, Copy, Debug, PartialEq, Eq, Structural)]
pub struct AttrId(pub usize);

/// Identifies a specification block, whether source-anchored or synthesized.
#[derive(Clone, Copy, Debug, PartialEq, Eq, Structural)]
pub struct SpecBlockId(pub usize);

/// One instruction of the bytecode sequence.  Its semantics is an external
/// concern; the target only stores it, tracks its tag, and renders it by
/// resolving the locals it mentions through the owning view.
pub struct Bytecode {
    /// The stable tag under which locations are recorded.
    pub attr: AttrId,
    /// The operation's interned name.
    pub op: Symbol,
    /// Indices of the locals the instruction reads or writes, in operand order.
    pub args: Vec<usize>,
}

impl Bytecode {
    /// The stable tag under which locations are recorded.
    pub fn get_attr_id(&self) -> (r: AttrId)
        ensures
            r == self.attr,
    {
        self.attr
    }
}

} // verus!
