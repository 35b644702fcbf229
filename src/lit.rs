use vstd::prelude::*;
use vstd::utf8::encode_utf8;
use core::cmp::Ordering;

verus! {

/// 2^128, the weight of the high half of a wide integer.
pub open spec fn pow2_128() -> int {
    0x1_0000_0000_0000_0000_0000_0000_0000_0000int
}

/// Unsigned 256-bit integer, held as two 128-bit halves.
#[derive(Clone, Copy, Debug, PartialEq, Eq, PartialOrd, Ord, Hash)]
pub struct U256 {
    pub hi: u128,
    pub lo: u128,
}

/// Signed 256-bit integer in two's complement: `hi` carries the sign.
#[derive(Clone, Copy, Debug, PartialEq, Eq, PartialOrd, Ord, Hash)]
pub struct I256 {
    pub hi: i128,
    pub lo: u128,
}

impl U256 {
    pub open spec fn value(&self) -> int {
        self.hi as int * pow2_128() + self.lo as int
    }

    pub fn from_u128(v: u128) -> (r: U256)
        ensures
            r.value() == v as int,
    {
        U256 { hi: 0, lo: v }
    }
}

impl I256 {
    pub open spec fn value(&self) -> int {
        self.hi as int * pow2_128() + self.lo as int
    }

    pub fn from_i128(v: i128) -> (r: I256)
        ensures
            r.value() == v as int,
    {
        if v < 0 {
            // the low half is v + 2^128, computed without leaving the range of either type
            let lo: u128 = (v + 1 + i128::MAX) as u128 + (i128::MAX as u128) + 1;
            I256 { hi: -1, lo }
        } else {
            I256 { hi: 0, lo: v as u128 }
        }
    }
}

/// Three-way comparison of mathematical integers.
pub open spec fn cmp_int(x: int, y: int) -> Ordering {
    if x < y {
        Ordering::Less
    } else if x == y {
        Ordering::Equal
    } else {
        Ordering::Greater
    }
}

proof fn lemma_halves_order(a: int, b: int, c: int, d: int)
    requires
        0 <= b < pow2_128(),
        0 <= d < pow2_128(),
    ensures
        cmp_int(a * pow2_128() + b, c * pow2_128() + d) == (if a == c {
            cmp_int(b, d)
        } else {
            cmp_int(a, c)
        }),
{
    let k = pow2_128();
    if a < c {
        assert(a * k + k <= c * k) by (nonlinear_arith)
            requires
                a < c,
                k > 0,
        ;
    } else if a > c {
        assert(c * k + k <= a * k) by (nonlinear_arith)
            requires
                a > c,
                k > 0,
        ;
    }
}

fn cmp_u128(x: u128, y: u128) -> (r: Ordering)
    ensures
        r == cmp_int(x as int, y as int),
{
    if x < y {
        Ordering::Less
    } else if x == y {
        Ordering::Equal
    } else {
        Ordering::Greater
    }
}

impl U256 {
    /// Numeric equality.
    pub fn same(&self, other: &U256) -> (r: bool)
        ensures
            r == (self.value() == other.value()),
    {
        proof {
            lemma_halves_order(self.hi as int, self.lo as int, other.hi as int, other.lo as int);
        }
        self.hi == other.hi && self.lo == other.lo
    }

    /// Numeric comparison.
    pub fn compare(&self, other: &U256) -> (r: Ordering)
        ensures
            r == cmp_int(self.value(), other.value()),
    {
        proof {
            lemma_halves_order(self.hi as int, self.lo as int, other.hi as int, other.lo as int);
        }
        if self.hi == other.hi {
            cmp_u128(self.lo, other.lo)
        } else {
            cmp_u128(self.hi, other.hi)
        }
    }
}

impl I256 {
    /// Numeric equality.
    pub fn same(&self, other: &I256) -> (r: bool)
        ensures
            r == (self.value() == other.value()),
    {
        proof {
            lemma_halves_order(self.hi as int, self.lo as int, other.hi as int, other.lo as int);
        }
        self.hi == other.hi && self.lo == other.lo
    }

    /// Numeric comparison.
    pub fn compare(&self, other: &I256) -> (r: Ordering)
        ensures
            r == cmp_int(self.value(), other.value()),
    {
        proof {
            lemma_halves_order(self.hi as int, self.lo as int, other.hi as int, other.lo as int);
        }
        if self.hi == other.hi {
            cmp_u128(self.lo, other.lo)
        } else if self.hi < other.hi {
            Ordering::Less
        } else {
            Ordering::Greater
        }
    }

    /// The same number as an unsigned value, when it is not negative.
    pub fn to_unsigned(&self) -> (r: Option<U256>)
        ensures
            self.value() >= 0 ==> (r matches Some(u) && u.value() == self.value()),
            self.value() < 0 ==> r is None,
    {
        proof {
            lemma_halves_order(self.hi as int, self.lo as int, 0, 0);
        }
        if self.hi >= 0 {
            Some(U256 { hi: self.hi as u128, lo: self.lo })
        } else {
            None
        }
    }
}

/// Lexicographic order of two byte strings.
pub open spec fn seq_cmp(x: Seq<u8>, y: Seq<u8>) -> Ordering
    decreases x.len(),
{
    if x.len() == 0 {
        if y.len() == 0 {
            Ordering::Equal
        } else {
            Ordering::Less
        }
    } else if y.len() == 0 {
        Ordering::Greater
    } else if x[0] < y[0] {
        Ordering::Less
    } else if x[0] > y[0] {
        Ordering::Greater
    } else {
        seq_cmp(x.drop_first(), y.drop_first())
    }
}

/// Unsigned big-endian value of a byte string.
pub open spec fn be_value(s: Seq<u8>) -> nat
    decreases s.len(),
{
    if s.len() == 0 {
        0
    } else {
        be_value(s.drop_last()) * 256 + s.last() as nat
    }
}

pub open spec fn pow256(n: nat) -> nat
    decreases n,
{
    if n == 0 {
        1
    } else {
        256 * pow256((n - 1) as nat)
    }
}

proof fn lemma_be_bound(s: Seq<u8>)
    ensures
        be_value(s) < pow256(s.len()),
    decreases s.len(),
{
    if s.len() > 0 {
        lemma_be_bound(s.drop_last());
        let p = pow256((s.len() - 1) as nat);
        let v = be_value(s.drop_last());
        let l = s.last() as nat;
        assert(v * 256 + l < 256 * p) by (nonlinear_arith)
            requires
                v < p,
                l < 256,
        ;
    }
}

proof fn lemma_be_split(s: Seq<u8>, k: int)
    requires
        0 <= k <= s.len(),
    ensures
        be_value(s) == be_value(s.subrange(0, k)) * pow256((s.len() - k) as nat) + be_value(
            s.subrange(k, s.len() as int),
        ),
    decreases s.len() - k,
{
    let n = s.len() as int;
    if k == n {
        assert(s.subrange(0, k) == s);
        assert(s.subrange(k, n).len() == 0);
        assert(pow256(0) == 1);
        assert(be_value(s.subrange(k, n)) == 0);
    } else {
        lemma_be_split(s.drop_last(), k);
        assert(s.drop_last().subrange(0, k) == s.subrange(0, k));
        let t = s.subrange(k, n);
        assert(t.drop_last() == s.drop_last().subrange(k, n - 1));
        assert(t.last() == s.last());
        let a = be_value(s.subrange(0, k));
        let p = pow256((n - 1 - k) as nat);
        let b = be_value(s.drop_last().subrange(k, n - 1));
        assert(be_value(t) == b * 256 + s.last() as nat);
        assert(pow256((n - k) as nat) == 256 * p);
        assert(be_value(s) == be_value(s.drop_last()) * 256 + s.last() as nat);
        assert((a * p + b) * 256 + s.last() as nat == a * (256 * p) + (b * 256 + s.last() as nat))
            by (nonlinear_arith);
        assert(be_value(s.drop_last()) == a * p + b);
    }
}

/// Reads `s[start..end]`, at most 16 bytes, as a big-endian number.
fn be_u128(s: &[u8], start: usize, end: usize) -> (r: u128)
    requires
        start <= end <= s@.len(),
        end - start <= 16,
    ensures
        r as nat == be_value(s@.subrange(start as int, end as int)),
{
    let mut acc: u128 = 0;
    let mut i: usize = start;
    proof {
        reveal_with_fuel(pow256, 17);
    }
    while i < end
        invariant
            start <= i <= end <= s@.len(),
            end - start <= 16,
            acc as nat == be_value(s@.subrange(start as int, i as int)),
            pow256(16) == pow2_128(),
        decreases end - i,
    {
        proof {
            let t = s@.subrange(start as int, i as int + 1);
            assert(t.drop_last() == s@.subrange(start as int, i as int));
            lemma_be_bound(t);
            assert(pow256(t.len()) <= pow256(16)) by {
                lemma_pow256_mono(t.len(), 16);
            }
        }
        acc = acc * 256 + s[i] as u128;
        i = i + 1;
    }
    acc
}

proof fn lemma_pow256_mono(a: nat, b: nat)
    requires
        a <= b,
    ensures
        pow256(a) <= pow256(b),
    decreases b,
{
    if a < b {
        lemma_pow256_mono(a, (b - 1) as nat);
    }
}

/// The big-endian value of at most 32 bytes; `None` for a longer string.
fn from_big_endian(s: &[u8]) -> (r: Option<U256>)
    ensures
        s@.len() <= 32 ==> (r matches Some(u) && u.value() == be_value(s@)),
        s@.len() > 32 ==> r is None,
{
    let n = s.len();
    if n > 32 {
        return None;
    }
    let k: usize = if n > 16 {
        n - 16
    } else {
        0
    };
    let hi = be_u128(s, 0, k);
    let lo = be_u128(s, k, n);
    proof {
        lemma_be_split(s@, k as int);
        assert(s@.subrange(0, n as int) == s@);
        reveal_with_fuel(pow256, 17);
        if k == 0 {
            assert(s@.subrange(0, 0).len() == 0);
        }
    }
    Some(U256 { hi, lo })
}

/// Mathematical value of a literal.
pub enum LitV {
    Uint(u16, int),
    Int(u16, int),
    Bool(bool),
    Bytes(u8, Seq<u8>),
    Address(Seq<u8>),
    DynBytes(Seq<u8>),
    Str(Seq<char>),
    Array(Seq<LitV>),
}

/// A literal value of the analysed language.
#[derive(Debug, PartialEq, Eq, PartialOrd, Ord, Hash)]
pub enum Concrete {
    /// Unsigned integer with its bit width.
    Uint(u16, U256),
    /// Signed integer with its bit width.
    Int(u16, I256),
    Bool(bool),
    /// Fixed-size byte string: its width in bytes and its 32-byte word.
    Bytes(u8, Vec<u8>),
    /// Account address: its 20 bytes.
    Address(Vec<u8>),
    /// Dynamically sized byte string.
    DynBytes(Vec<u8>),
    String(String),
    Array(Vec<Concrete>),
}

impl Concrete {
    pub open spec fn view(&self) -> LitV
        decreases self,
    {
        match self {
            Concrete::Uint(w, v) => LitV::Uint(*w, v.value()),
            Concrete::Int(w, v) => LitV::Int(*w, v.value()),
            Concrete::Bool(b) => LitV::Bool(*b),
            Concrete::Bytes(w, b) => LitV::Bytes(*w, b@),
            Concrete::Address(a) => LitV::Address(a@),
            Concrete::DynBytes(b) => LitV::DynBytes(b@),
            Concrete::String(s) => LitV::Str(s@),
            Concrete::Array(v) => LitV::Array(
                Seq::new(
                    v.len() as nat,
                    |i: int|
                        if 0 <= i < v.len() {
                            v[i].view()
                        } else {
                            LitV::Bool(false)
                        },
                ),
            ),
        }
    }
}

/// The canonical unsigned 256-bit reading of a literal, where it has one.
pub open spec fn to_u256(a: LitV) -> Option<int> {
    match a {
        LitV::Uint(_, v) => Some(v),
        LitV::Bytes(_, b) => if b.len() <= 32 {
            Some(be_value(b) as int)
        } else {
            None
        },
        LitV::Address(a) => if a.len() <= 32 {
            Some(be_value(a) as int)
        } else {
            None
        },
        LitV::Int(_, v) => if v >= 0 {
            Some(v)
        } else {
            None
        },
        _ => None,
    }
}

/// The raw bytes of a byte string, or the UTF-8 encoding of a text string.
pub open spec fn byte_form(a: LitV) -> Option<Seq<u8>> {
    match a {
        LitV::DynBytes(b) => Some(b),
        LitV::Str(s) => Some(encode_utf8(s)),
        _ => None,
    }
}

/// Equality of two literals, across kinds where a coercion exists.
pub open spec fn lit_eq(a: LitV, b: LitV) -> bool
    decreases a,
{
    if to_u256(a) is Some && to_u256(b) is Some {
        to_u256(a) == to_u256(b)
    } else if a is Int && b is Int {
        a->Int_1 == b->Int_1
    } else if byte_form(a) is Some && byte_form(b) is Some {
        byte_form(a) == byte_form(b)
    } else if a is Array && b is Array {
        &&& a->Array_0.len() == b->Array_0.len()
        &&& forall|i: int|
            0 <= i < a->Array_0.len() ==> lit_eq(#[trigger] a->Array_0[i], b->Array_0[i])
    } else {
        false
    }
}

/// Order of two literals, where one is defined.
pub open spec fn lit_ord(a: LitV, b: LitV) -> Option<Ordering> {
    match (to_u256(a), to_u256(b)) {
        (Some(x), Some(y)) => Some(cmp_int(x, y)),
        (Some(_), None) => if b is Int {
            Some(Ordering::Greater)
        } else {
            None
        },
        (None, Some(_)) => if a is Int {
            Some(Ordering::Less)
        } else {
            None
        },
        (None, None) => if a is Int && b is Int {
            Some(cmp_int(a->Int_1, b->Int_1))
        } else if byte_form(a) is Some && byte_form(b) is Some {
            Some(seq_cmp(byte_form(a)->0, byte_form(b)->0))
        } else {
            None
        },
    }
}

fn bytes_eq(a: &[u8], b: &[u8]) -> (r: bool)
    ensures
        r == (a@ == b@),
{
    if a.len() != b.len() {
        return false;
    }
    let mut i: usize = 0;
    while i < a.len()
        invariant
            i <= a.len() == b.len(),
            a@.subrange(0, i as int) == b@.subrange(0, i as int),
        decreases a.len() - i,
    {
        if a[i] != b[i] {
            assert(a@[i as int] != b@[i as int]);
            return false;
        }
        assert(a@.subrange(0, i + 1) == a@.subrange(0, i as int).push(a@[i as int]));
        assert(b@.subrange(0, i + 1) == b@.subrange(0, i as int).push(b@[i as int]));
        i = i + 1;
    }
    assert(a@ == a@.subrange(0, i as int));
    assert(b@ == b@.subrange(0, i as int));
    true
}

fn bytes_cmp(a: &[u8], b: &[u8]) -> (r: Ordering)
    ensures
        r == seq_cmp(a@, b@),
{
    let mut i: usize = 0;
    assert(a@.subrange(0, a@.len() as int) == a@);
    assert(b@.subrange(0, b@.len() as int) == b@);
    while i < a.len() && i < b.len()
        invariant
            i <= a.len(),
            i <= b.len(),
            seq_cmp(a@, b@) == seq_cmp(a@.subrange(i as int, a@.len() as int), b@.subrange(i as int, b@.len() as int)),
        decreases a.len() - i,
    {
        if a[i] < b[i] {
            return Ordering::Less;
        } else if a[i] > b[i] {
            return Ordering::Greater;
        }
        assert(a@.subrange(i as int, a@.len() as int).drop_first() == a@.subrange(i + 1, a@.len() as int));
        assert(b@.subrange(i as int, b@.len() as int).drop_first() == b@.subrange(i + 1, b@.len() as int));
        i = i + 1;
    }
    if i == a.len() {
        if i == b.len() {
            Ordering::Equal
        } else {
            Ordering::Less
        }
    } else {
        Ordering::Greater
    }
}

impl Concrete {
    /// The canonical unsigned 256-bit reading: unsigned integers, and signed
    /// ones that are not negative.
    pub fn into_u256(&self) -> (r: Option<U256>)
        ensures
            match r {
                Some(u) => to_u256(self@) == Some(u.value()),
                None => to_u256(self@) is None,
            },
    {
        match self {
            Concrete::Uint(_, v) => Some(*v),
            Concrete::Int(_, v) => v.to_unsigned(),
            Concrete::Bytes(_, b) => from_big_endian(b.as_slice()),
            Concrete::Address(a) => from_big_endian(a.as_slice()),
            _ => None,
        }
    }

    fn byte_slice(&self) -> (r: Option<&[u8]>)
        ensures
            match r {
                Some(s) => byte_form(self@) == Some(s@),
                None => byte_form(self@) is None,
            },
    {
        match self {
            Concrete::DynBytes(b) => Some(b.as_slice()),
            Concrete::String(s) => Some(s.as_str().as_bytes()),
            _ => None,
        }
    }

    /// Whether two literals are equal, coercing between kinds where the
    /// comparator defines it.
    pub fn equals(&self, other: &Concrete) -> (r: bool)
        ensures
            r == lit_eq(self@, other@),
        decreases self,
    {
        match (self.into_u256(), other.into_u256()) {
            (Some(x), Some(y)) => {
                return x.same(&y);
            },
            _ => {},
        }
        match (self, other) {
            (Concrete::Int(_, x), Concrete::Int(_, y)) => {
                return x.same(y);
            },
            _ => {},
        }
        match (self.byte_slice(), other.byte_slice()) {
            (Some(x), Some(y)) => {
                return bytes_eq(x, y);
            },
            _ => {},
        }
        match self {
            Concrete::Array(x) => {
                let y = match other {
                    Concrete::Array(y) => y,
                    _ => {
                        return false;
                    },
                };
                if x.len() != y.len() {
                    return false;
                }
                let mut i: usize = 0;
                while i < x.len()
                    invariant
                        i <= x.len() == y.len(),
                        self is Array && self->Array_0 == *x,
                        forall|j: int| 0 <= j < x.len() ==> #[trigger] self@->Array_0[j] == x@[j]@,
                        forall|j: int| 0 <= j < y.len() ==> #[trigger] other@->Array_0[j] == y@[j]@,
                        self@ is Array && self@->Array_0.len() == x.len(),
                        other@ is Array && other@->Array_0.len() == y.len(),
                        forall|j: int| 0 <= j < i ==> lit_eq(#[trigger] x@[j]@, y@[j]@),
                    decreases x.len() - i,
                {
                    proof {
                        vstd::std_specs::vec::axiom_vec_index_decreases(*x, i as int);
                        assert(decreases_to!(*self => self->Array_0));
                    }
                    if !x[i].equals(&y[i]) {
                        assert(!lit_eq(self@->Array_0[i as int], other@->Array_0[i as int]));
                        return false;
                    }
                    i = i + 1;
                }
                true
            },
            _ => false,
        }
    }
}

impl Concrete {
    /// Order of two literals; `None` where the kinds have no order.
    pub fn order(&self, other: &Concrete) -> (r: Option<Ordering>)
        ensures
            r == lit_ord(self@, other@),
    {
        match (self.into_u256(), other.into_u256()) {
            (Some(x), Some(y)) => Some(x.compare(&y)),
            (Some(_), None) => match other {
                // an integer that has no unsigned reading is negative
                Concrete::Int(_, _) => Some(Ordering::Greater),
                _ => None,
            },
            (None, Some(_)) => match self {
                Concrete::Int(_, _) => Some(Ordering::Less),
                _ => None,
            },
            (None, None) => {
                match (self, other) {
                    (Concrete::Int(_, x), Concrete::Int(_, y)) => {
                        return Some(x.compare(y));
                    },
                    _ => {},
                }
                match (self.byte_slice(), other.byte_slice()) {
                    (Some(x), Some(y)) => Some(bytes_cmp(x, y)),
                    _ => None,
                }
            },
        }
    }

    /// A deep copy of the literal.
    pub fn dup(&self) -> (r: Concrete)
        ensures
            r@ == self@,
        decreases self,
    {
        match self {
            Concrete::Uint(w, v) => Concrete::Uint(*w, *v),
            Concrete::Int(w, v) => Concrete::Int(*w, *v),
            Concrete::Bool(b) => Concrete::Bool(*b),
            Concrete::Bytes(w, b) => {
                let c = b.clone();
                assert(c@ == b@);
                Concrete::Bytes(*w, c)
            },
            Concrete::Address(b) => {
                let c = b.clone();
                assert(c@ == b@);
                Concrete::Address(c)
            },
            Concrete::DynBytes(b) => {
                let c = b.clone();
                assert(c@ == b@);
                Concrete::DynBytes(c)
            },
            Concrete::String(s) => Concrete::String(s.clone()),
            Concrete::Array(x) => {
                let mut out: Vec<Concrete> = Vec::new();
                let mut i: usize = 0;
                while i < x.len()
                    invariant
                        i <= x.len(),
                        self is Array && self->Array_0 == *x,
                        out.len() == i,
                        forall|j: int| 0 <= j < i ==> (#[trigger] out@[j])@ == x@[j]@,
                    decreases x.len() - i,
                {
                    proof {
                        assert(decreases_to!(*self => self->Array_0));
                    }
                    let c = x[i].dup();
                    out.push(c);
                    i = i + 1;
                }
                let r = Concrete::Array(out);
                assert(r@->Array_0 == self@->Array_0);
                r
            },
        }
    }
}

impl Clone for Concrete {
    fn clone(&self) -> (r: Concrete) {
        self.dup()
    }
}

} // verus!
