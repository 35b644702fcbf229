use vstd::prelude::*;
use std::collections::BTreeMap;
use solang_parser::pt::Loc;
use crate::lit::{Concrete, LitV};

verus! {

/// Index of a variable in the variable graph.
pub type NodeIdx = usize;

/// Which bound of a variable's range is referenced.
#[derive(Clone, Copy, Debug, PartialEq, Eq, PartialOrd, Ord, Hash)]
pub enum DynSide {
    Min,
    Max,
}

pub open spec fn side_name(side: DynSide) -> Seq<char> {
    match side {
        DynSide::Min => "range_min"@,
        DynSide::Max => "range_max"@,
    }
}

impl DynSide {
    /// Name of the bound.
    pub fn to_string(&self) -> (r: String)
        ensures
            r@ == side_name(*self),
    {
        match self {
            DynSide::Min => {
                let s = String::from_str("range_min");
                proof {
                    reveal_strlit("range_min");
                }
                s
            },
            DynSide::Max => {
                let s = String::from_str("range_max");
                proof {
                    reveal_strlit("range_max");
                }
                s
            },
        }
    }
}

/// Reference to the current lower or upper bound of another variable.
#[derive(Clone, Copy, Debug, PartialEq, Eq, PartialOrd, Ord, Hash)]
pub struct Dynamic {
    pub idx: NodeIdx,
    pub side: DynSide,
    pub loc: Loc,
}

impl Dynamic {
    pub fn new(idx: NodeIdx, side: DynSide, loc: Loc) -> (r: Dynamic)
        ensures
            r == (Dynamic { idx, side, loc }),
    {
        Dynamic { idx, side, loc }
    }
}

/// A literal together with where it came from.
#[derive(Debug, PartialEq, Eq, PartialOrd, Ord, Hash)]
pub struct RangeConcrete {
    pub val: Concrete,
    pub loc: Loc,
}

/// Operator of an expression node.
#[derive(Clone, Copy, Debug, PartialEq, Eq, PartialOrd, Ord, Hash)]
pub enum RangeOp {
    Add,
    Sub,
    Mul,
    Div,
    Mod,
    Min,
    Max,
    Gt,
    Lt,
    Gte,
    Lte,
    Eq,
    Neq,
    Shl,
    Shr,
    And,
    /// Logical negation: the right operand is always `Elem::Null`.
    Not,
    Cast,
}

/// A deferred binary operation over two owned elements.
#[derive(Debug, PartialEq, Eq, PartialOrd, Ord, Hash)]
pub struct RangeExpr {
    pub lhs: Box<Elem>,
    pub op: RangeOp,
    pub rhs: Box<Elem>,
}

/// An element of a range bound.
#[derive(Debug, PartialEq, Eq, PartialOrd, Ord, Hash)]
pub enum Elem {
    Dynamic(Dynamic),
    Concrete(RangeConcrete),
    Expr(RangeExpr),
    Null,
}

/// The mathematical form of an element.
pub enum ElemV {
    Dynamic(Dynamic),
    Concrete(LitV, Loc),
    Expr(Box<ElemV>, RangeOp, Box<ElemV>),
    Null,
}

impl RangeConcrete {
    pub open spec fn view(&self) -> ElemV {
        ElemV::Concrete(self.val@, self.loc)
    }
}

impl Elem {
    pub open spec fn view(&self) -> ElemV
        decreases self,
    {
        match self {
            Elem::Dynamic(d) => ElemV::Dynamic(*d),
            Elem::Concrete(c) => ElemV::Concrete(c.val@, c.loc),
            Elem::Expr(x) => ElemV::Expr(Box::new(x.lhs.view()), x.op, Box::new(x.rhs.view())),
            Elem::Null => ElemV::Null,
        }
    }
}

impl RangeExpr {
    pub open spec fn view(&self) -> ElemV {
        ElemV::Expr(Box::new(self.lhs@), self.op, Box::new(self.rhs@))
    }
}

/// Number of nodes of a tree.
pub open spec fn size(e: ElemV) -> nat
    decreases e,
{
    match e {
        ElemV::Expr(l, _, r) => 1 + size(*l) + size(*r),
        _ => 1,
    }
}

/// One more than the largest variable index that the tree refers to; zero
/// when it refers to none.
pub open spec fn rank(e: ElemV) -> nat
    decreases e,
{
    match e {
        ElemV::Dynamic(d) => d.idx as nat + 1,
        ElemV::Expr(l, _, r) => if rank(*l) >= rank(*r) {
            rank(*l)
        } else {
            rank(*r)
        },
        _ => 0,
    }
}

/// A negation node always has `Null` as its right operand.
pub open spec fn well_formed(e: ElemV) -> bool
    decreases e,
{
    match e {
        ElemV::Expr(l, op, r) => {
            &&& well_formed(*l)
            &&& well_formed(*r)
            &&& (op == RangeOp::Not ==> *r == ElemV::Null)
        },
        _ => true,
    }
}

/// The variables a tree refers to, left to right.
pub open spec fn deps(e: ElemV) -> Seq<NodeIdx>
    decreases e,
{
    match e {
        ElemV::Dynamic(d) => seq![d.idx],
        ElemV::Expr(l, _, r) => deps(*l) + deps(*r),
        _ => Seq::empty(),
    }
}

/// A variable after renaming by `m`: its image where `m` has one, else itself.
pub open spec fn renamed(m: Map<NodeIdx, NodeIdx>, v: NodeIdx) -> NodeIdx {
    if m.contains_key(v) {
        m[v]
    } else {
        v
    }
}

/// The tree with every variable reference renamed by `m`.
pub open spec fn rewrite(e: ElemV, m: Map<NodeIdx, NodeIdx>) -> ElemV
    decreases e,
{
    match e {
        ElemV::Dynamic(d) => ElemV::Dynamic(Dynamic { idx: renamed(m, d.idx), ..d }),
        ElemV::Expr(l, op, r) => ElemV::Expr(Box::new(rewrite(*l, m)), op, Box::new(rewrite(*r, m))),
        _ => e,
    }
}

impl Dynamic {
    pub fn dependent_on(&self) -> (r: Vec<NodeIdx>)
        ensures
            r@ == deps(ElemV::Dynamic(*self)),
    {
        let mut v: Vec<NodeIdx> = Vec::new();
        v.push(self.idx);
        v
    }

    pub fn update_deps(&mut self, mapping: &BTreeMap<NodeIdx, NodeIdx>)
        ensures
            ElemV::Dynamic(*final(self)) == rewrite(ElemV::Dynamic(*old(self)), mapping@),
    {
        match mapping.get(&self.idx) {
            Some(new) => {
                self.idx = *new;
            },
            None => {},
        }
    }
}

impl RangeConcrete {
    pub fn dependent_on(&self) -> (r: Vec<NodeIdx>)
        ensures
            r@ == deps(self@),
    {
        Vec::new()
    }

    /// A literal refers to no variable: renaming leaves it as it is.
    pub fn update_deps(&mut self, mapping: &BTreeMap<NodeIdx, NodeIdx>)
        ensures
            final(self)@ == old(self)@,
    {
    }

    pub fn dup(&self) -> (r: RangeConcrete)
        ensures
            r@ == self@,
    {
        RangeConcrete { val: self.val.dup(), loc: self.loc }
    }
}

impl RangeExpr {
    pub fn new(lhs: Elem, op: RangeOp, rhs: Elem) -> (r: RangeExpr)
        ensures
            r.lhs@ == lhs@,
            r.op == op,
            r.rhs@ == rhs@,
    {
        RangeExpr { lhs: Box::new(lhs), op, rhs: Box::new(rhs) }
    }

    pub fn dependent_on(&self) -> (r: Vec<NodeIdx>)
        ensures
            r@ == deps(self@),
    {
        let mut d = self.lhs.dependent_on();
        let mut e = self.rhs.dependent_on();
        d.append(&mut e);
        d
    }

    pub fn update_deps(&mut self, mapping: &BTreeMap<NodeIdx, NodeIdx>)
        ensures
            final(self)@ == rewrite(old(self)@, mapping@),
    {
        self.lhs.update_deps(mapping);
        self.rhs.update_deps(mapping);
    }

    pub fn dup(&self) -> (r: RangeExpr)
        ensures
            r@ == self@,
    {
        RangeExpr { lhs: Box::new(self.lhs.dup()), op: self.op, rhs: Box::new(self.rhs.dup()) }
    }
}

impl Elem {
    /// The variables this element refers to, left to right.
    pub fn dependent_on(&self) -> (r: Vec<NodeIdx>)
        ensures
            r@ == deps(self@),
        decreases self,
    {
        match self {
            Elem::Dynamic(d) => d.dependent_on(),
            Elem::Concrete(_) => Vec::new(),
            Elem::Expr(x) => {
                let mut d = x.lhs.dependent_on();
                let mut e = x.rhs.dependent_on();
                d.append(&mut e);
                d
            },
            Elem::Null => Vec::new(),
        }
    }

    /// Renames every variable that `mapping` has a key for.
    pub fn update_deps(&mut self, mapping: &BTreeMap<NodeIdx, NodeIdx>)
        ensures
            final(self)@ == rewrite(old(self)@, mapping@),
        decreases size(old(self)@),
    {
        match self {
            Elem::Dynamic(d) => d.update_deps(mapping),
            Elem::Concrete(_) => {},
            Elem::Expr(x) => {
                x.lhs.update_deps(mapping);
                x.rhs.update_deps(mapping);
            },
            Elem::Null => {},
        }
    }

    /// A deep copy of the element.
    pub fn dup(&self) -> (r: Elem)
        ensures
            r@ == self@,
        decreases self,
    {
        match self {
            Elem::Dynamic(d) => Elem::Dynamic(*d),
            Elem::Concrete(c) => Elem::Concrete(c.dup()),
            Elem::Expr(x) => Elem::Expr(
                RangeExpr { lhs: Box::new(x.lhs.dup()), op: x.op, rhs: Box::new(x.rhs.dup()) },
            ),
            Elem::Null => Elem::Null,
        }
    }
}

/// The expression node `lhs op rhs`.
pub open spec fn node(lhs: ElemV, op: RangeOp, rhs: ElemV) -> ElemV {
    ElemV::Expr(Box::new(lhs), op, Box::new(rhs))
}

impl Elem {
    /// The deferred conversion of `self` to the type of `other`.
    pub fn cast(self, other: Elem) -> (r: Elem)
        ensures
            r@ == node(self@, RangeOp::Cast, other@),
    {
        Elem::Expr(RangeExpr { lhs: Box::new(self), op: RangeOp::Cast, rhs: Box::new(other) })
    }

    /// The deferred smaller of the two.
    pub fn min(self, other: Elem) -> (r: Elem)
        ensures
            r@ == node(self@, RangeOp::Min, other@),
    {
        Elem::Expr(RangeExpr { lhs: Box::new(self), op: RangeOp::Min, rhs: Box::new(other) })
    }

    /// The deferred larger of the two.
    pub fn max(self, other: Elem) -> (r: Elem)
        ensures
            r@ == node(self@, RangeOp::Max, other@),
    {
        Elem::Expr(RangeExpr { lhs: Box::new(self), op: RangeOp::Max, rhs: Box::new(other) })
    }

    /// The deferred `self == other`.
    pub fn eq(self, other: Elem) -> (r: Elem)
        ensures
            r@ == node(self@, RangeOp::Eq, other@),
    {
        Elem::Expr(RangeExpr { lhs: Box::new(self), op: RangeOp::Eq, rhs: Box::new(other) })
    }

    /// The deferred `self != other`.
    pub fn neq(self, other: Elem) -> (r: Elem)
        ensures
            r@ == node(self@, RangeOp::Neq, other@),
    {
        Elem::Expr(RangeExpr { lhs: Box::new(self), op: RangeOp::Neq, rhs: Box::new(other) })
    }

    /// The deferred `self + other`.
    pub fn add(self, other: Elem) -> (r: Elem)
        ensures
            r@ == node(self@, RangeOp::Add, other@),
    {
        Elem::Expr(RangeExpr { lhs: Box::new(self), op: RangeOp::Add, rhs: Box::new(other) })
    }

    /// The deferred `self - other`.
    pub fn sub(self, other: Elem) -> (r: Elem)
        ensures
            r@ == node(self@, RangeOp::Sub, other@),
    {
        Elem::Expr(RangeExpr { lhs: Box::new(self), op: RangeOp::Sub, rhs: Box::new(other) })
    }

    /// The deferred `self * other`.
    pub fn mul(self, other: Elem) -> (r: Elem)
        ensures
            r@ == node(self@, RangeOp::Mul, other@),
    {
        Elem::Expr(RangeExpr { lhs: Box::new(self), op: RangeOp::Mul, rhs: Box::new(other) })
    }

    /// The deferred `self / other`.
    pub fn div(self, other: Elem) -> (r: Elem)
        ensures
            r@ == node(self@, RangeOp::Div, other@),
    {
        Elem::Expr(RangeExpr { lhs: Box::new(self), op: RangeOp::Div, rhs: Box::new(other) })
    }

    /// The deferred `self << other`.
    pub fn shl(self, other: Elem) -> (r: Elem)
        ensures
            r@ == node(self@, RangeOp::Shl, other@),
    {
        Elem::Expr(RangeExpr { lhs: Box::new(self), op: RangeOp::Shl, rhs: Box::new(other) })
    }

    /// The deferred `self >> other`.
    pub fn shr(self, other: Elem) -> (r: Elem)
        ensures
            r@ == node(self@, RangeOp::Shr, other@),
    {
        Elem::Expr(RangeExpr { lhs: Box::new(self), op: RangeOp::Shr, rhs: Box::new(other) })
    }

    /// The deferred `self % other`.
    pub fn rem(self, other: Elem) -> (r: Elem)
        ensures
            r@ == node(self@, RangeOp::Mod, other@),
    {
        Elem::Expr(RangeExpr { lhs: Box::new(self), op: RangeOp::Mod, rhs: Box::new(other) })
    }
}

impl From<Dynamic> for Elem {
    fn from(dy: Dynamic) -> (r: Elem) {
        Elem::Dynamic(dy)
    }
}

impl vstd::std_specs::convert::FromSpecImpl<Dynamic> for Elem {
    open spec fn obeys_from_spec() -> bool {
        true
    }

    open spec fn from_spec(dy: Dynamic) -> Elem {
        Elem::Dynamic(dy)
    }
}

impl From<RangeConcrete> for Elem {
    fn from(c: RangeConcrete) -> (r: Elem) {
        Elem::Concrete(c)
    }
}

impl vstd::std_specs::convert::FromSpecImpl<RangeConcrete> for Elem {
    open spec fn obeys_from_spec() -> bool {
        true
    }

    open spec fn from_spec(c: RangeConcrete) -> Elem {
        Elem::Concrete(c)
    }
}

impl Clone for RangeConcrete {
    fn clone(&self) -> (r: RangeConcrete) {
        self.dup()
    }
}

impl Clone for RangeExpr {
    fn clone(&self) -> (r: RangeExpr) {
        self.dup()
    }
}

impl Clone for Elem {
    fn clone(&self) -> (r: Elem) {
        self.dup()
    }
}

} // verus!
