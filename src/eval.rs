use vstd::prelude::*;
use solang_parser::pt::Loc;
use crate::elem::{Dynamic, DynSide, Elem, ElemV, RangeConcrete, RangeExpr, RangeOp, rank, size, well_formed};
use crate::graph::{VarGraph, VarType, loc_or_implicit};
use crate::lit::{lit_eq, lit_ord};
use core::cmp::Ordering;

verus! {

/// The numeric kernels: one computation per operator on literal operands.
/// `None` means that the kernel cannot give a concrete answer for them.
pub trait RangeKernels {
    /// What the kernel for `op` answers on the operands `lhs` and `rhs`
    /// (`rhs` is `Null` for a negation). A verified implementation states its
    /// kernels here; the default is kernels that never answer.
    open spec fn answer(&self, op: RangeOp, lhs: ElemV, rhs: ElemV) -> Option<ElemV> {
        None
    }

    fn exec(&self, op: RangeOp, lhs: &Elem, rhs: &Elem) -> (r: Option<Elem>)
        ensures
            match r {
                Some(c) => self.answer(op, lhs@, rhs@) == Some(c@),
                None => self.answer(op, lhs@, rhs@) is None,
            },
    ;

    fn exec_not(&self, val: &Elem) -> (r: Option<Elem>)
        ensures
            match r {
                Some(c) => self.answer(RangeOp::Not, val@, ElemV::Null) == Some(c@),
                None => self.answer(RangeOp::Not, val@, ElemV::Null) is None,
            },
    ;
}

/// The reduced operands are what a kernel accepts: literals, with `Null` on
/// the right of a negation.
pub open spec fn kernel_ready(op: RangeOp, a: ElemV, b: ElemV) -> bool {
    &&& a is Concrete
    &&& if op == RangeOp::Not {
        b is Null
    } else {
        b is Concrete
    }
}

/// One step of the operator executor: the node `orig` whose operands reduced
/// to `a` and `b` becomes the kernel's answer when the operands are ready and
/// the kernel answers, and stays `orig`, unchanged, otherwise.
pub open spec fn exec_step<K: RangeKernels>(k: &K, orig: ElemV, op: RangeOp, a: ElemV, b: ElemV) -> ElemV {
    if kernel_ready(op, a, b) {
        match k.answer(op, a, b) {
            Some(c) => c,
            None => orig,
        }
    } else {
        orig
    }
}

/// What `e` evaluates to against the graph `g` with the kernels `k`; `simp`
/// selects the mode that keeps free variables symbolic. A resolved bound is
/// always evaluated in full.
pub open spec fn evaluated<K: RangeKernels>(e: ElemV, g: VarGraph, k: &K, simp: bool) -> ElemV
    decreases rank(e), size(e),
{
    match e {
        ElemV::Dynamic(d) => {
            if d.idx >= g.vars.len() || (simp && g.vars@[d.idx as int].symbolic) {
                e
            } else {
                match g.vars@[d.idx as int].ty {
                    VarType::BuiltIn(Some(rg)) => {
                        let b = if d.side == DynSide::Min {
                            rg.min@
                        } else {
                            rg.max@
                        };
                        if rank(b) <= d.idx {
                            evaluated(b, g, k, false)
                        } else {
                            e
                        }
                    },
                    VarType::Concrete(c) => ElemV::Concrete(
                        c@,
                        loc_or_implicit(g.vars@[d.idx as int].loc),
                    ),
                    _ => e,
                }
            }
        },
        ElemV::Expr(l, op, rr) => exec_step(
            k,
            e,
            op,
            evaluated(*l, g, k, simp),
            evaluated(*rr, g, k, simp),
        ),
        _ => e,
    }
}

fn implicit_or(l: Option<Loc>) -> (r: Loc)
    ensures
        r == loc_or_implicit(l),
{
    match l {
        Some(l) => l,
        None => Loc::Implicit,
    }
}

/// Hands ready operands to the kernel for `op`, and returns its answer.
fn run_kernel<K: RangeKernels>(k: &K, op: RangeOp, a: &Elem, b: &Elem) -> (r: Option<Elem>)
    ensures
        kernel_ready(op, a@, b@) ==> match r {
            Some(c) => k.answer(op, a@, b@) == Some(c@),
            None => k.answer(op, a@, b@) is None,
        },
        !kernel_ready(op, a@, b@) ==> r is None,
{
    match (a, b) {
        (Elem::Concrete(_), Elem::Null) => {
            match op {
                RangeOp::Not => k.exec_not(a),
                _ => None,
            }
        },
        (Elem::Concrete(_), Elem::Concrete(_)) => {
            match op {
                RangeOp::Not => None,
                _ => k.exec(op, a, b),
            }
        },
        _ => None,
    }
}

/// Resolves or reduces `e`, the single walker behind both modes.
fn reduce<K: RangeKernels>(e: &Elem, g: &VarGraph, k: &K, simp: bool) -> (r: Elem)
    requires
        g.wf(),
        well_formed(e@),
    ensures
        r@ == evaluated(e@, *g, k, simp),
    decreases rank(e@), size(e@),
{
    match e {
        Elem::Dynamic(d) => {
            let i = d.idx;
            if i >= g.vars.len() {
                return Elem::Dynamic(*d);
            }
            let node = &g.vars[i];
            if simp && node.symbolic {
                return Elem::Dynamic(*d);
            }
            assert(crate::graph::node_fits(g.vars@[i as int], i as nat));
            match &node.ty {
                VarType::BuiltIn(Some(rg)) => {
                    let b = match d.side {
                        DynSide::Min => &rg.min,
                        DynSide::Max => &rg.max,
                    };
                    reduce(b, g, k, false)
                },
                VarType::Concrete(c) => Elem::Concrete(RangeConcrete { val: c.dup(), loc: implicit_or(node.loc) }),
                _ => Elem::Dynamic(*d),
            }
        },
        Elem::Concrete(c) => Elem::Concrete(c.dup()),
        Elem::Expr(x) => {
            let a = reduce(&x.lhs, g, k, simp);
            let b = reduce(&x.rhs, g, k, simp);
            let out = run_kernel(k, x.op, &a, &b);
            x.apply_kernel_result(out)
        },
        Elem::Null => Elem::Null,
    }
}

impl RangeExpr {
    /// What the node becomes once its kernel has answered `out`: the element
    /// it gave, or the node itself, unchanged, when it gave none.
    pub fn apply_kernel_result(&self, out: Option<Elem>) -> (r: Elem)
        ensures
            match out {
                Some(c) => r@ == c@,
                None => r@ == self@,
            },
    {
        match out {
            Some(c) => c,
            None => Elem::Expr(self.dup()),
        }
    }

    /// Evaluates both operands and runs the operator.
    pub fn exec_op<K: RangeKernels>(&self, g: &VarGraph, k: &K) -> (r: Elem)
        requires
            g.wf(),
            well_formed(self@),
        ensures
            r@ == evaluated(self@, *g, k, false),
    {
        let e = Elem::Expr(self.dup());
        reduce(&e, g, k, false)
    }

    /// Simplifies both operands and runs the operator.
    pub fn simplify_exec_op<K: RangeKernels>(&self, g: &VarGraph, k: &K) -> (r: Elem)
        requires
            g.wf(),
            well_formed(self@),
        ensures
            r@ == evaluated(self@, *g, k, true),
    {
        let e = Elem::Expr(self.dup());
        reduce(&e, g, k, true)
    }
}

/// Order of two elements: defined only between two literals, and without
/// evaluating anything.
pub open spec fn elem_ord(a: ElemV, b: ElemV) -> Option<Ordering> {
    match (a, b) {
        (ElemV::Concrete(x, _), ElemV::Concrete(y, _)) => lit_ord(x, y),
        _ => None,
    }
}

/// Two evaluated elements are equal: both are literals, and equal ones.
pub open spec fn evaluated_eq(a: ElemV, b: ElemV) -> bool {
    match (a, b) {
        (ElemV::Concrete(x, _), ElemV::Concrete(y, _)) => lit_eq(x, y),
        _ => false,
    }
}

impl Elem {
    /// Evaluates the element against the graph, collapsing as far as the
    /// kernels allow.
    pub fn eval<K: RangeKernels>(&self, g: &VarGraph, k: &K) -> (r: Elem)
        requires
            g.wf(),
            well_formed(self@),
        ensures
            r@ == evaluated(self@, *g, k, false),
            self@ is Concrete ==> r@ == self@,
            self@ is Null ==> r@ is Null,
    {
        reduce(self, g, k, false)
    }

    /// Like `eval`, but free variables stay symbolic.
    pub fn simplify<K: RangeKernels>(&self, g: &VarGraph, k: &K) -> (r: Elem)
        requires
            g.wf(),
            well_formed(self@),
        ensures
            r@ == evaluated(self@, *g, k, true),
            self@ is Concrete ==> r@ == self@,
            self@ is Null ==> r@ is Null,
    {
        reduce(self, g, k, true)
    }

    /// Evaluates both elements; they are equal when both become literals that
    /// the comparator finds equal.
    pub fn range_eq<K: RangeKernels>(&self, other: &Elem, g: &VarGraph, k: &K) -> (r: bool)
        requires
            g.wf(),
            well_formed(self@),
            well_formed(other@),
        ensures
            r == evaluated_eq(evaluated(self@, *g, k, false), evaluated(other@, *g, k, false)),
    {
        let a = self.eval(g, k);
        let b = other.eval(g, k);
        match (&a, &b) {
            (Elem::Concrete(x), Elem::Concrete(y)) => x.range_eq(y),
            _ => false,
        }
    }

    /// Order of two elements that are already literals; `None` otherwise.
    pub fn range_ord(&self, other: &Elem) -> (r: Option<Ordering>)
        ensures
            r == elem_ord(self@, other@),
    {
        match (self, other) {
            (Elem::Concrete(x), Elem::Concrete(y)) => x.range_ord(y),
            _ => None,
        }
    }
}

impl RangeConcrete {
    /// A literal evaluates to itself.
    pub fn eval(&self) -> (r: Elem)
        ensures
            r@ == self@,
    {
        Elem::Concrete(self.dup())
    }

    /// A literal simplifies to itself.
    pub fn simplify(&self) -> (r: Elem)
        ensures
            r@ == self@,
    {
        Elem::Concrete(self.dup())
    }

    pub fn range_eq(&self, other: &RangeConcrete) -> (r: bool)
        ensures
            r == lit_eq(self.val@, other.val@),
    {
        self.val.equals(&other.val)
    }

    pub fn range_ord(&self, other: &RangeConcrete) -> (r: Option<Ordering>)
        ensures
            r == lit_ord(self.val@, other.val@),
    {
        self.val.order(&other.val)
    }
}

impl Dynamic {
    /// The referenced bound, evaluated, or the reference itself while the
    /// graph cannot resolve it.
    pub fn eval<K: RangeKernels>(&self, g: &VarGraph, k: &K) -> (r: Elem)
        requires
            g.wf(),
        ensures
            r@ == evaluated(ElemV::Dynamic(*self), *g, k, false),
    {
        reduce(&Elem::Dynamic(*self), g, k, false)
    }

    /// Like `eval`, but a free variable stays a reference.
    pub fn simplify<K: RangeKernels>(&self, g: &VarGraph, k: &K) -> (r: Elem)
        requires
            g.wf(),
        ensures
            r@ == evaluated(ElemV::Dynamic(*self), *g, k, true),
    {
        reduce(&Elem::Dynamic(*self), g, k, true)
    }
}

impl RangeExpr {
    pub fn eval<K: RangeKernels>(&self, g: &VarGraph, k: &K) -> (r: Elem)
        requires
            g.wf(),
            well_formed(self@),
        ensures
            r@ == evaluated(self@, *g, k, false),
    {
        self.exec_op(g, k)
    }

    pub fn simplify<K: RangeKernels>(&self, g: &VarGraph, k: &K) -> (r: Elem)
        requires
            g.wf(),
            well_formed(self@),
        ensures
            r@ == evaluated(self@, *g, k, true),
    {
        self.simplify_exec_op(g, k)
    }
}

} // verus!
