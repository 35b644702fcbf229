use std::cmp::Ordering;
use std::collections::BTreeMap;

use range_elem::elem::{DynSide, Dynamic, Elem, RangeConcrete, RangeExpr, RangeOp};
use range_elem::eval::RangeKernels;
use range_elem::graph::{VarGraph, VarNode, VarRange, VarType};
use range_elem::lit::{Concrete, I256, U256};
use solang_parser::pt::Loc;

/// Kernels that add small unsigned integers and negate booleans.
struct SmallArith;

impl RangeKernels for SmallArith {
    fn exec(&self, op: RangeOp, lhs: &Elem, rhs: &Elem) -> Option<Elem> {
        match (op, lhs, rhs) {
            (
                RangeOp::Add,
                Elem::Concrete(RangeConcrete { val: Concrete::Uint(w, a), loc }),
                Elem::Concrete(RangeConcrete { val: Concrete::Uint(_, b), .. }),
            ) if a.hi == 0 && b.hi == 0 => {
                let sum = a.lo.checked_add(b.lo)?;
                Some(Elem::Concrete(RangeConcrete { val: Concrete::Uint(*w, U256::from_u128(sum)), loc: *loc }))
            }
            _ => None,
        }
    }

    fn exec_not(&self, val: &Elem) -> Option<Elem> {
        match val {
            Elem::Concrete(RangeConcrete { val: Concrete::Bool(b), loc }) => {
                Some(Elem::Concrete(RangeConcrete { val: Concrete::Bool(!b), loc: *loc }))
            }
            _ => None,
        }
    }
}

fn uint(v: u128) -> Concrete {
    Concrete::Uint(256, U256::from_u128(v))
}

fn signed(v: i128) -> Concrete {
    Concrete::Int(256, I256::from_i128(v))
}

fn lit(c: Concrete) -> Elem {
    Elem::Concrete(RangeConcrete { val: c, loc: Loc::Implicit })
}

fn dynamic(idx: usize, side: DynSide) -> Elem {
    Elem::Dynamic(Dynamic::new(idx, side, Loc::File(0, 1, 2)))
}

fn as_uint(e: &Elem) -> Option<u128> {
    match e {
        Elem::Concrete(RangeConcrete { val: Concrete::Uint(_, v), .. }) if v.hi == 0 => Some(v.lo),
        _ => None,
    }
}

fn free_var(symbolic: bool) -> VarNode {
    VarNode { ty: VarType::BuiltIn(None), loc: None, symbolic }
}

fn ranged_var(min: u128, max: u128, symbolic: bool) -> VarNode {
    VarNode {
        ty: VarType::BuiltIn(Some(VarRange { min: lit(uint(min)), max: lit(uint(max)) })),
        loc: None,
        symbolic,
    }
}

/// Shape of an element: variables by index, literals as unsigned values.
fn shape(e: &Elem) -> String {
    match e {
        Elem::Dynamic(d) => format!("v{}.{}", d.idx, d.side.to_string()),
        Elem::Concrete(c) => match &c.val {
            Concrete::Uint(_, v) => format!("{}:{}", v.hi, v.lo),
            other => format!("{:?}", other),
        },
        Elem::Expr(x) => format!("({} {:?} {})", shape(&x.lhs), x.op, shape(&x.rhs)),
        Elem::Null => "null".to_string(),
    }
}

#[test]
fn literal_sum_evaluates() {
    let g = VarGraph::new();
    let e = lit(uint(5)).add(lit(uint(7)));
    assert_eq!(as_uint(&e.eval(&g, &SmallArith)), Some(12));
}

#[test]
fn symbolic_reference_falls_back() {
    let mut g = VarGraph::new();
    let x = g.add_var(free_var(true)).unwrap();
    let e = dynamic(x, DynSide::Max).add(lit(uint(1)));
    let r = e.eval(&g, &SmallArith);
    assert_eq!(shape(&r), shape(&e));
    assert_eq!(shape(&r), "(v0.range_max Add 0:1)");
    assert_eq!(e.dependent_on(), vec![x]);
}

#[test]
fn bytes_equal_text() {
    let g = VarGraph::new();
    let b = lit(Concrete::DynBytes(vec![0x61, 0x62]));
    let s = lit(Concrete::String("ab".to_string()));
    assert!(b.range_eq(&s, &g, &SmallArith));
    assert!(s.range_eq(&b, &g, &SmallArith));
    let other = lit(Concrete::String("ac".to_string()));
    assert!(!b.range_eq(&other, &g, &SmallArith));
    assert!(!other.range_eq(&b, &g, &SmallArith));
}

#[test]
fn negative_orders_below_unsigned() {
    let a = lit(signed(-3));
    let b = lit(uint(5));
    assert_eq!(a.range_ord(&b), Some(Ordering::Less));
    assert_eq!(b.range_ord(&a), Some(Ordering::Greater));
    let big_negative = lit(signed(i128::MIN));
    assert_eq!(big_negative.range_ord(&lit(uint(0))), Some(Ordering::Less));
}

#[test]
fn arrays_have_no_order() {
    let g = VarGraph::new();
    let a = lit(Concrete::Array(vec![uint(1), uint(2)]));
    let b = lit(Concrete::Array(vec![uint(1), uint(2), uint(3)]));
    assert_eq!(a.range_ord(&b), None);
    assert!(!a.range_eq(&b, &g, &SmallArith));
    let c = lit(Concrete::Array(vec![uint(1), uint(2)]));
    assert_eq!(a.range_ord(&c), None);
}

#[test]
fn rewrite_retargets_references() {
    let mut e = dynamic(0, DynSide::Min).sub(dynamic(1, DynSide::Max));
    let mut m = BTreeMap::new();
    m.insert(0usize, 7usize);
    e.update_deps(&m);
    assert_eq!(shape(&e), "(v7.range_min Sub v1.range_max)");
    assert_eq!(e.dependent_on(), vec![7, 1]);
}

#[test]
fn unmapped_rewrite_is_noop() {
    let mut e = dynamic(3, DynSide::Min).max(lit(uint(2)));
    let m: BTreeMap<usize, usize> = BTreeMap::new();
    e.update_deps(&m);
    assert_eq!(shape(&e), "(v3.range_min Max 0:2)");
}

#[test]
fn reference_resolves_through_range() {
    let mut g = VarGraph::new();
    let x = g.add_var(ranged_var(2, 9, false)).unwrap();
    let e = dynamic(x, DynSide::Max).add(lit(uint(1)));
    assert_eq!(as_uint(&e.eval(&g, &SmallArith)), Some(10));
    let lo = dynamic(x, DynSide::Min);
    assert_eq!(as_uint(&lo.eval(&g, &SmallArith)), Some(2));
}

#[test]
fn simplify_keeps_symbolic_variable() {
    let mut g = VarGraph::new();
    let x = g.add_var(ranged_var(2, 9, true)).unwrap();
    let e = dynamic(x, DynSide::Max).add(lit(uint(1)));
    assert_eq!(shape(&e.simplify(&g, &SmallArith)), shape(&e));
    assert_eq!(as_uint(&e.eval(&g, &SmallArith)), Some(10));
    let y = g.add_var(ranged_var(4, 4, false)).unwrap();
    let f = dynamic(y, DynSide::Min).add(lit(uint(1)));
    assert_eq!(as_uint(&f.simplify(&g, &SmallArith)), Some(5));
}

#[test]
fn chained_references_resolve() {
    let mut g = VarGraph::new();
    let x = g.add_var(ranged_var(1, 3, false)).unwrap();
    let y = g
        .add_var(VarNode {
            ty: VarType::BuiltIn(Some(VarRange {
                min: dynamic(x, DynSide::Min),
                max: dynamic(x, DynSide::Max).add(lit(uint(1))),
            })),
            loc: None,
            symbolic: false,
        })
        .unwrap();
    assert_eq!(as_uint(&dynamic(y, DynSide::Max).eval(&g, &SmallArith)), Some(4));
    assert_eq!(as_uint(&dynamic(y, DynSide::Min).eval(&g, &SmallArith)), Some(1));
}

#[test]
fn literal_typed_variable_resolves_to_value() {
    let mut g = VarGraph::new();
    let x = g
        .add_var(VarNode { ty: VarType::Concrete(uint(42)), loc: None, symbolic: false })
        .unwrap();
    let d = Dynamic::new(x, DynSide::Min, Loc::File(0, 0, 1));
    match d.eval(&g, &SmallArith) {
        Elem::Concrete(c) => {
            assert_eq!(c.loc, Loc::Implicit);
            assert!(c.val.equals(&uint(42)));
        }
        other => panic!("unexpected {:?}", other),
    }
    let y = g
        .add_var(VarNode { ty: VarType::Concrete(uint(8)), loc: Some(Loc::File(1, 2, 3)), symbolic: false })
        .unwrap();
    match Dynamic::new(y, DynSide::Max, Loc::Implicit).eval(&g, &SmallArith) {
        Elem::Concrete(c) => assert_eq!(c.loc, Loc::File(1, 2, 3)),
        other => panic!("unexpected {:?}", other),
    }
}

#[test]
fn unknown_variable_stays_unresolved() {
    let g = VarGraph::new();
    let e = dynamic(5, DynSide::Min);
    assert_eq!(shape(&e.eval(&g, &SmallArith)), "v5.range_min");
}

#[test]
fn graph_refuses_forward_reference() {
    let mut g = VarGraph::new();
    let bad = VarNode {
        ty: VarType::BuiltIn(Some(VarRange { min: dynamic(0, DynSide::Min), max: lit(uint(1)) })),
        loc: None,
        symbolic: false,
    };
    assert_eq!(g.add_var(bad), None);
    assert_eq!(g.vars.len(), 0);
    let malformed = VarNode {
        ty: VarType::BuiltIn(Some(VarRange {
            min: Elem::Expr(RangeExpr::new(lit(Concrete::Bool(true)), RangeOp::Not, lit(uint(1)))),
            max: lit(uint(1)),
        })),
        loc: None,
        symbolic: false,
    };
    assert_eq!(g.add_var(malformed), None);
    assert_eq!(g.add_var(free_var(false)), Some(0));
}

#[test]
fn kernel_refusal_keeps_node() {
    let g = VarGraph::new();
    let e = lit(uint(5)).mul(lit(uint(7)));
    assert_eq!(shape(&e.eval(&g, &SmallArith)), "(0:5 Mul 0:7)");
    let overflow = lit(Concrete::Uint(256, U256 { hi: 0, lo: u128::MAX })).add(lit(uint(1)));
    assert_eq!(shape(&overflow.eval(&g, &SmallArith)), shape(&overflow));
}

#[test]
fn fallback_keeps_original_operands() {
    let mut g = VarGraph::new();
    let x = g.add_var(free_var(false)).unwrap();
    let inner = lit(uint(1)).add(lit(uint(2)));
    let e = dynamic(x, DynSide::Min).add(inner);
    assert_eq!(shape(&e.eval(&g, &SmallArith)), "(v0.range_min Add (0:1 Add 0:2))");
}

#[test]
fn negation_uses_unary_kernel() {
    let g = VarGraph::new();
    let e = Elem::Expr(RangeExpr::new(lit(Concrete::Bool(true)), RangeOp::Not, Elem::Null));
    match e.eval(&g, &SmallArith) {
        Elem::Concrete(RangeConcrete { val: Concrete::Bool(b), .. }) => assert!(!b),
        other => panic!("unexpected {:?}", other),
    }
}

#[test]
fn exec_op_modes() {
    let mut g = VarGraph::new();
    let x = g.add_var(ranged_var(3, 3, true)).unwrap();
    let x_node = RangeExpr::new(dynamic(x, DynSide::Min), RangeOp::Add, lit(uint(1)));
    assert_eq!(as_uint(&x_node.exec_op(&g, &SmallArith)), Some(4));
    assert_eq!(shape(&x_node.simplify_exec_op(&g, &SmallArith)), "(v0.range_min Add 0:1)");
}

#[test]
fn kernel_result_applied_or_node_kept() {
    let node = RangeExpr::new(lit(uint(1)), RangeOp::Add, lit(uint(2)));
    let some = node.apply_kernel_result(Some(lit(uint(3))));
    assert_eq!(as_uint(&some), Some(3));
    let none = node.apply_kernel_result(None);
    assert_eq!(shape(&none), "(0:1 Add 0:2)");
}

#[test]
fn literal_evaluation_is_idempotent() {
    let g = VarGraph::new();
    let l = lit(uint(5)).add(lit(uint(6))).eval(&g, &SmallArith);
    let again = l.eval(&g, &SmallArith);
    assert_eq!(shape(&again), shape(&l));
    assert_eq!(as_uint(&again), Some(11));
    assert_eq!(shape(&Elem::Null.eval(&g, &SmallArith)), "null");
}

#[test]
fn order_is_not_evaluating() {
    let a = lit(uint(1)).add(lit(uint(1)));
    assert_eq!(a.range_ord(&lit(uint(2))), None);
    assert_eq!(dynamic(0, DynSide::Min).range_ord(&lit(uint(2))), None);
}

#[test]
fn equality_evaluates_first() {
    let g = VarGraph::new();
    let a = lit(uint(1)).add(lit(uint(1)));
    assert!(a.range_eq(&lit(uint(2)), &g, &SmallArith));
    assert!(!a.range_eq(&lit(uint(3)), &g, &SmallArith));
    assert!(!dynamic(0, DynSide::Min).range_eq(&dynamic(0, DynSide::Min), &g, &SmallArith));
}

#[test]
fn numeric_literal_comparisons() {
    assert_eq!(uint(3).order(&uint(9)), Some(Ordering::Less));
    assert_eq!(uint(9).order(&signed(9)), Some(Ordering::Equal));
    assert!(uint(9).equals(&signed(9)));
    assert_eq!(signed(-9).order(&signed(-3)), Some(Ordering::Less));
    assert!(signed(-4).equals(&signed(-4)));
    assert!(!signed(-4).equals(&signed(-5)));
    assert!(!signed(-4).equals(&uint(4)));
    let wide = Concrete::Uint(256, U256 { hi: 1, lo: 0 });
    assert_eq!(wide.order(&uint(u128::MAX)), Some(Ordering::Greater));
    let wide_neg = Concrete::Int(256, I256 { hi: -2, lo: u128::MAX });
    assert_eq!(wide_neg.order(&signed(i128::MIN)), Some(Ordering::Less));
}

#[test]
fn byte_and_text_order() {
    let b = Concrete::DynBytes(vec![0x61, 0x62]);
    assert_eq!(b.order(&Concrete::String("ab".to_string())), Some(Ordering::Equal));
    assert_eq!(b.order(&Concrete::String("b".to_string())), Some(Ordering::Less));
    assert_eq!(Concrete::String("abc".to_string()).order(&b), Some(Ordering::Greater));
    assert_eq!(Concrete::String("é".to_string()).order(&Concrete::DynBytes(vec![0xc3, 0xa9])), Some(Ordering::Equal));
    assert!(Concrete::String("é".to_string()).equals(&Concrete::DynBytes(vec![0xc3, 0xa9])));
    assert!(!Concrete::String("é".to_string()).equals(&Concrete::DynBytes(vec![0xe9])));
}

#[test]
fn unrelated_kinds_do_not_compare() {
    let t = Concrete::Bool(true);
    assert!(!t.equals(&Concrete::Bool(true)));
    assert_eq!(t.order(&Concrete::Bool(true)), None);
    assert!(!t.equals(&Concrete::Array(vec![])));
    assert_eq!(uint(1).order(&Concrete::String("1".to_string())), None);
    assert!(!uint(1).equals(&Concrete::String("1".to_string())));
}

#[test]
fn arrays_compare_elementwise() {
    let a = Concrete::Array(vec![uint(1), Concrete::String("x".to_string())]);
    let b = Concrete::Array(vec![signed(1), Concrete::DynBytes(vec![0x78])]);
    let c = Concrete::Array(vec![uint(1), Concrete::String("y".to_string())]);
    assert!(a.equals(&b));
    assert!(b.equals(&a));
    assert!(!a.equals(&c));
    assert!(Concrete::Array(vec![]).equals(&Concrete::Array(vec![])));
    let nested = Concrete::Array(vec![Concrete::Array(vec![uint(2)])]);
    assert!(nested.equals(&Concrete::Array(vec![Concrete::Array(vec![signed(2)])])));
}

#[test]
fn deep_copy_matches() {
    let a = Concrete::Array(vec![uint(1), Concrete::String("x".to_string())]);
    assert!(a.dup().equals(&a));
    let e = dynamic(2, DynSide::Max).min(lit(uint(4)));
    assert_eq!(shape(&e.dup()), shape(&e));
}

#[test]
fn builders_set_operator() {
    let cases: Vec<(Elem, &str)> = vec![
        (lit(uint(1)).cast(lit(uint(2))), "Cast"),
        (lit(uint(1)).min(lit(uint(2))), "Min"),
        (lit(uint(1)).max(lit(uint(2))), "Max"),
        (lit(uint(1)).eq(lit(uint(2))), "Eq"),
        (lit(uint(1)).neq(lit(uint(2))), "Neq"),
        (lit(uint(1)).add(lit(uint(2))), "Add"),
        (lit(uint(1)).sub(lit(uint(2))), "Sub"),
        (lit(uint(1)).mul(lit(uint(2))), "Mul"),
        (lit(uint(1)).div(lit(uint(2))), "Div"),
        (lit(uint(1)).shl(lit(uint(2))), "Shl"),
        (lit(uint(1)).shr(lit(uint(2))), "Shr"),
        (lit(uint(1)).rem(lit(uint(2))), "Mod"),
    ];
    for (e, op) in cases {
        assert_eq!(shape(&e), format!("(0:1 {} 0:2)", op));
    }
}

#[test]
fn side_names() {
    assert_eq!(DynSide::Min.to_string(), "range_min");
    assert_eq!(DynSide::Max.to_string(), "range_max");
}

#[test]
fn wide_integer_conversions() {
    assert_eq!(I256::from_i128(-1), I256 { hi: -1, lo: u128::MAX });
    assert_eq!(I256::from_i128(i128::MIN), I256 { hi: -1, lo: 1u128 << 127 });
    assert_eq!(I256::from_i128(7).to_unsigned(), Some(U256 { hi: 0, lo: 7 }));
    assert_eq!(I256::from_i128(-7).to_unsigned(), None);
    assert_eq!(signed(-1).into_u256(), None);
    assert_eq!(uint(6).into_u256(), Some(U256 { hi: 0, lo: 6 }));
}

#[test]
fn fixed_bytes_and_addresses_read_as_numbers() {
    let mut addr = vec![0u8; 20];
    addr[19] = 5;
    addr[18] = 1;
    let a = Concrete::Address(addr);
    assert_eq!(a.into_u256(), Some(U256 { hi: 0, lo: 261 }));
    assert!(a.equals(&uint(261)));
    assert_eq!(a.order(&uint(300)), Some(Ordering::Less));
    assert_eq!(signed(-1).order(&a), Some(Ordering::Less));
    let mut word = vec![0u8; 32];
    word[0] = 0x80;
    word[31] = 2;
    let b = Concrete::Bytes(1, word);
    assert_eq!(b.into_u256(), Some(U256 { hi: 1u128 << 127, lo: 2 }));
    assert_eq!(b.order(&uint(u128::MAX)), Some(Ordering::Greater));
    assert!(!b.equals(&Concrete::DynBytes(vec![0x80])));
    assert_eq!(Concrete::DynBytes(vec![1; 33]).into_u256(), None);
    assert_eq!(Concrete::Bytes(32, vec![1; 33]).into_u256(), None);
    assert!(b.dup().equals(&b));
}

#[test]
fn elements_from_parts() {
    let d: Elem = Elem::from(Dynamic::new(4, DynSide::Max, Loc::Implicit));
    assert_eq!(shape(&d), "v4.range_max");
    let c: Elem = RangeConcrete { val: uint(9), loc: Loc::Implicit }.into();
    assert_eq!(as_uint(&c), Some(9));
    let mut lit_only = RangeConcrete { val: uint(9), loc: Loc::Implicit };
    let mut m = BTreeMap::new();
    m.insert(9usize, 1usize);
    lit_only.update_deps(&m);
    assert!(lit_only.val.equals(&uint(9)));
    assert!(lit_only.dependent_on().is_empty());
    assert_eq!(as_uint(&lit_only.eval()), Some(9));
    assert_eq!(as_uint(&lit_only.simplify()), Some(9));
}

#[test]
fn clones_are_deep() {
    let e = dynamic(1, DynSide::Min).add(lit(Concrete::Array(vec![uint(3)])));
    let c = e.clone();
    assert_eq!(shape(&c), shape(&e));
    let v = Concrete::String("abc".to_string());
    assert!(v.clone().equals(&v));
}

#[test]
fn derived_comparisons() {
    let a = dynamic(1, DynSide::Min);
    let b = dynamic(1, DynSide::Min);
    assert_eq!(a, b);
    assert!(DynSide::Min < DynSide::Max);
    assert!(uint(1) != signed(1));
    assert_eq!(lit(uint(2)).add(lit(uint(3))), lit(uint(2)).add(lit(uint(3))));
    assert!(U256 { hi: 1, lo: 0 } > U256 { hi: 0, lo: u128::MAX });
}

#[test]
fn same_tree_evaluates_alike() {
    let mut g = VarGraph::new();
    let x = g.add_var(ranged_var(2, 9, false)).unwrap();
    let e = dynamic(x, DynSide::Max).add(lit(uint(1)));
    assert_eq!(e.eval(&g, &SmallArith), e.eval(&g, &SmallArith));
    assert_eq!(e.simplify(&g, &SmallArith), e.eval(&g, &SmallArith));
    let d = Dynamic::new(x, DynSide::Min, Loc::Implicit);
    assert_eq!(d.simplify(&g, &SmallArith), d.eval(&g, &SmallArith));
}
