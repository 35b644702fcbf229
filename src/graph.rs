use vstd::prelude::*;
use solang_parser::pt::Loc;
use crate::elem::{Elem, ElemV, NodeIdx, rank, well_formed};
use crate::lit::Concrete;

verus! {

/// The known bounds of a variable.
#[derive(Debug)]
pub struct VarRange {
    pub min: Elem,
    pub max: Elem,
}

/// What the analysis knows of a variable's type.
#[derive(Debug)]
pub enum VarType {
    /// A builtin type, with the range computed for it so far, if any.
    BuiltIn(Option<VarRange>),
    /// A type that is itself a single literal value.
    Concrete(Concrete),
    /// Any other type: its bounds are not tracked.
    Other,
}

/// One variable of the graph.
#[derive(Debug)]
pub struct VarNode {
    pub ty: VarType,
    pub loc: Option<Loc>,
    /// The variable is free: nothing constrains it yet.
    pub symbolic: bool,
}

/// The variables under analysis, indexed by `NodeIdx`.
#[derive(Debug)]
pub struct VarGraph {
    pub vars: Vec<VarNode>,
}

/// A node may stand at index `i`: its bounds are well formed and refer only
/// to variables with a smaller index, so that resolution terminates.
pub open spec fn node_fits(n: VarNode, i: nat) -> bool {
    match n.ty {
        VarType::BuiltIn(Some(r)) => {
            &&& rank(r.min@) <= i
            &&& rank(r.max@) <= i
            &&& well_formed(r.min@)
            &&& well_formed(r.max@)
        },
        _ => true,
    }
}

/// Where a resolved literal is said to come from.
pub open spec fn loc_or_implicit(l: Option<Loc>) -> Loc {
    match l {
        Some(l) => l,
        None => Loc::Implicit,
    }
}

impl VarGraph {
    /// The graph is acyclic, in the form this model keeps it: variables are
    /// numbered in an order in which each bound refers only to variables
    /// numbered before it. Any acyclic graph has such a numbering, and
    /// `add_var` refuses a variable that would break it.
    pub open spec fn wf(&self) -> bool {
        forall|i: int| 0 <= i < self.vars.len() ==> node_fits(#[trigger] self.vars@[i], i as nat)
    }

    pub fn new() -> (r: VarGraph)
        ensures
            r.wf(),
            r.vars@.len() == 0,
    {
        VarGraph { vars: Vec::new() }
    }

    /// Adds a variable and returns its index; refuses one whose bounds refer
    /// to itself or to a later variable, or hold a malformed negation.
    pub fn add_var(&mut self, node: VarNode) -> (r: Option<NodeIdx>)
        requires
            old(self).wf(),
        ensures
            final(self).wf(),
            node_fits(node, old(self).vars@.len()) ==> r == Some(old(self).vars@.len() as NodeIdx)
                && final(self).vars@ == old(self).vars@.push(node),
            !node_fits(node, old(self).vars@.len()) ==> r is None && final(self).vars@ == old(self).vars@,
    {
        let n = self.vars.len();
        let fits = match &node.ty {
            VarType::BuiltIn(Some(r)) => refs_below(&r.min, n) && refs_below(&r.max, n)
                && is_well_formed(&r.min) && is_well_formed(&r.max),
            _ => true,
        };
        if fits {
            self.vars.push(node);
            assert(self.vars@[n as int] == node);
            Some(n)
        } else {
            None
        }
    }
}

/// Whether every variable that `e` refers to has an index below `n`.
pub fn refs_below(e: &Elem, n: usize) -> (r: bool)
    ensures
        r == (rank(e@) <= n),
    decreases e,
{
    match e {
        Elem::Dynamic(d) => d.idx < n,
        Elem::Expr(x) => refs_below(&x.lhs, n) && refs_below(&x.rhs, n),
        _ => true,
    }
}

/// Whether every negation node in `e` has `Null` as its right operand.
pub fn is_well_formed(e: &Elem) -> (r: bool)
    ensures
        r == well_formed(e@),
    decreases e,
{
    match e {
        Elem::Expr(x) => {
            let rhs_null = match &*x.rhs {
                Elem::Null => true,
                _ => false,
            };
            is_well_formed(&x.lhs) && is_well_formed(&x.rhs) && (match x.op {
                crate::elem::RangeOp::Not => rhs_null,
                _ => true,
            })
        },
        _ => true,
    }
}

} // verus!
