use vstd::prelude::*;
use vstd::utf8::encode_utf8;
use core::cmp::Ordering;
use crate::elem::{ElemV, NodeIdx, RangeOp, deps, node, renamed, rewrite};
use crate::eval::{RangeKernels, evaluated};
use crate::graph::VarGraph;
use crate::lit::{LitV, lit_eq, lit_ord, to_u256};

verus! {

/// Evaluating the literal that an element evaluated to gives back that same
/// literal, in either mode.
pub proof fn lemma_eval_idempotent<K: RangeKernels>(e: ElemV, g: VarGraph, k: &K, simp: bool)
    requires
        evaluated(e, g, k, simp) is Concrete,
    ensures
        evaluated(evaluated(e, g, k, simp), g, k, simp) == evaluated(e, g, k, simp),
{
}

/// An expression node whose operands do not reduce to what its kernel takes
/// (two literals; one literal for a negation) evaluates to itself, unchanged.
pub proof fn lemma_fallback_safety<K: RangeKernels>(
    lhs: ElemV,
    op: RangeOp,
    rhs: ElemV,
    g: VarGraph,
    k: &K,
    simp: bool,
)
    requires
        !(evaluated(lhs, g, k, simp) is Concrete) || (op != RangeOp::Not && !(evaluated(
            rhs,
            g,
            k,
            simp,
        ) is Concrete)),
    ensures
        evaluated(node(lhs, op, rhs), g, k, simp) == node(lhs, op, rhs),
{
}

/// No variable that `e` refers to directly is free in `g`.
pub open spec fn no_free_leaf(e: ElemV, g: VarGraph) -> bool
    decreases e,
{
    match e {
        ElemV::Dynamic(d) => d.idx >= g.vars.len() || !g.vars@[d.idx as int].symbolic,
        ElemV::Expr(l, _, r) => no_free_leaf(*l, g) && no_free_leaf(*r, g),
        _ => true,
    }
}

/// The two modes differ only at free variables: where the tree refers to
/// none, simplifying gives what evaluating gives.
pub proof fn lemma_simplify_is_eval_without_free_leaf<K: RangeKernels>(e: ElemV, g: VarGraph, k: &K)
    requires
        no_free_leaf(e, g),
    ensures
        evaluated(e, g, k, true) == evaluated(e, g, k, false),
    decreases e,
{
    match e {
        ElemV::Expr(l, _, r) => {
            lemma_simplify_is_eval_without_free_leaf(*l, g, k);
            lemma_simplify_is_eval_without_free_leaf(*r, g, k);
        },
        _ => {},
    }
}

/// Renaming variables and then collecting the dependencies gives the original
/// dependencies, each renamed: the image where the mapping has one, else the
/// variable itself, and nothing else.
pub proof fn lemma_rewrite_deps(e: ElemV, m: Map<NodeIdx, NodeIdx>)
    ensures
        deps(rewrite(e, m)) == deps(e).map_values(|v: NodeIdx| renamed(m, v)),
    decreases e,
{
    match e {
        ElemV::Expr(l, op, r) => {
            lemma_rewrite_deps(*l, m);
            lemma_rewrite_deps(*r, m);
            assert(deps(e).map_values(|v: NodeIdx| renamed(m, v)) =~= deps(*l).map_values(
                |v: NodeIdx| renamed(m, v),
            ) + deps(*r).map_values(|v: NodeIdx| renamed(m, v)));
        },
        ElemV::Dynamic(d) => {
            assert(deps(e).map_values(|v: NodeIdx| renamed(m, v)) =~= seq![renamed(m, d.idx)]);
        },
        _ => {
            assert(deps(e).map_values(|v: NodeIdx| renamed(m, v)) =~= Seq::<NodeIdx>::empty());
        },
    }
}

/// A negative integer (one with no unsigned reading) is ordered strictly
/// below any literal that has an unsigned reading, whatever the magnitudes.
pub proof fn lemma_negative_orders_first(neg: LitV, other: LitV)
    requires
        neg is Int,
        to_u256(neg) is None,
        to_u256(other) is Some,
    ensures
        lit_ord(neg, other) == Some(Ordering::Less),
        lit_ord(other, neg) == Some(Ordering::Greater),
{
}

/// A byte string and a text string are equal exactly when the bytes are the
/// UTF-8 encoding of the text, whichever side each stands on.
pub proof fn lemma_bytes_text_eq(b: Seq<u8>, s: Seq<char>)
    ensures
        lit_eq(LitV::DynBytes(b), LitV::Str(s)) == (b == encode_utf8(s)),
        lit_eq(LitV::Str(s), LitV::DynBytes(b)) == lit_eq(LitV::DynBytes(b), LitV::Str(s)),
{
}

/// Arrays of different lengths are never equal; arrays of one length are
/// equal exactly when each pair of elements is equal under the same
/// comparator.
pub proof fn lemma_array_eq(x: Seq<LitV>, y: Seq<LitV>)
    ensures
        x.len() != y.len() ==> !lit_eq(LitV::Array(x), LitV::Array(y)),
        x.len() == y.len() ==> (lit_eq(LitV::Array(x), LitV::Array(y)) <==> forall|i: int|
            0 <= i < x.len() ==> lit_eq(#[trigger] x[i], y[i])),
{
}

} // verus!
