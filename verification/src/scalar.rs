//! The scalar capability: the numeric interface a vector's component type
//! must supply, together with the algebraic laws the vector layer relies on.

use vstd::arithmetic::div_mod::{lemma_div_multiples_vanish, lemma_fundamental_div_mod};
use vstd::prelude::*;

verus! {

/// The numeric capability of a vector's component type: a zero value, the
/// four arithmetic operations, and a total ordering.
///
/// Each operation comes in three parts: a domain predicate (`add_ok` and
/// friends) saying on which pairs the operation is defined, a spec-level
/// function giving its value there, and an executable form proved to return
/// that value.  The `law_*` proof obligations are the algebraic facts the
/// derived vector operations rely on; every implementor discharges them once.
pub trait SpadeNum: Sized + Copy {
    /// The additive identity.
    spec fn zero_spec() -> Self;

    /// True where `self + o` is defined (for machine integers: no overflow).
    spec fn add_ok(self, o: Self) -> bool;

    /// The value of `self + o`, meaningful where `add_ok` holds.
    spec fn add_spec(self, o: Self) -> Self;

    /// True where `self - o` is defined.
    spec fn sub_ok(self, o: Self) -> bool;

    /// The value of `self - o`, meaningful where `sub_ok` holds.
    spec fn sub_spec(self, o: Self) -> Self;

    /// True where `self * o` is defined.
    spec fn mul_ok(self, o: Self) -> bool;

    /// The value of `self * o`, meaningful where `mul_ok` holds.
    spec fn mul_spec(self, o: Self) -> Self;

    /// True where `self / o` is defined (for machine integers: the divisor
    /// is not zero and the quotient does not overflow).
    spec fn div_ok(self, o: Self) -> bool;

    /// The value of `self / o`, meaningful where `div_ok` holds.
    spec fn div_spec(self, o: Self) -> Self;

    /// The total ordering on scalars.
    spec fn le_spec(self, o: Self) -> bool;

    /// Returns the additive identity.
    fn zero() -> (r: Self)
        ensures
            r == Self::zero_spec(),
    ;

    /// Adds two scalars.
    fn add_val(self, o: Self) -> (r: Self)
        requires
            self.add_ok(o),
        ensures
            r == self.add_spec(o),
    ;

    /// Subtracts a scalar from this one.
    fn sub_val(self, o: Self) -> (r: Self)
        requires
            self.sub_ok(o),
        ensures
            r == self.sub_spec(o),
    ;

    /// Multiplies two scalars.
    fn mul_val(self, o: Self) -> (r: Self)
        requires
            self.mul_ok(o),
        ensures
            r == self.mul_spec(o),
    ;

    /// Divides this scalar by another.
    fn div_val(self, o: Self) -> (r: Self)
        requires
            self.div_ok(o),
        ensures
            r == self.div_spec(o),
    ;

    /// Compares two scalars by the total ordering.
    fn le_val(self, o: Self) -> (r: bool)
        ensures
            r == self.le_spec(o),
    ;

    /// The ordering is total.
    proof fn law_le_total(a: Self, b: Self)
        ensures
            a.le_spec(b) || b.le_spec(a),
    ;

    /// Subtraction undoes addition: `(a + b) - b == a`.
    proof fn law_add_sub(a: Self, b: Self)
        requires
            a.add_ok(b),
            a.add_spec(b).sub_ok(b),
        ensures
            a.add_spec(b).sub_spec(b) == a,
    ;

    /// Division undoes multiplication by a nonzero scalar: `(a * s) / s == a`.
    proof fn law_mul_div(a: Self, s: Self)
        requires
            s != Self::zero_spec(),
            a.mul_ok(s),
            a.mul_spec(s).div_ok(s),
        ensures
            a.mul_spec(s).div_spec(s) == a,
    ;

    /// Multiplication is commutative where defined.
    proof fn law_mul_comm(a: Self, b: Self)
        requires
            a.mul_ok(b),
        ensures
            b.mul_ok(a),
            a.mul_spec(b) == b.mul_spec(a),
    ;

    /// A square is never below zero.
    proof fn law_square_nonneg(a: Self)
        requires
            a.mul_ok(a),
        ensures
            Self::zero_spec().le_spec(a.mul_spec(a)),
    ;

    /// A sum of scalars at or above zero stays at or above zero.
    proof fn law_add_nonneg(a: Self, b: Self)
        requires
            Self::zero_spec().le_spec(a),
            Self::zero_spec().le_spec(b),
            a.add_ok(b),
        ensures
            Self::zero_spec().le_spec(a.add_spec(b)),
    ;

    /// Zero is defined under addition and multiplication with itself and
    /// absorbs both.
    proof fn law_zero()
        ensures
            Self::zero_spec().add_ok(Self::zero_spec()),
            Self::zero_spec().add_spec(Self::zero_spec()) == Self::zero_spec(),
            Self::zero_spec().mul_ok(Self::zero_spec()),
            Self::zero_spec().mul_spec(Self::zero_spec()) == Self::zero_spec(),
            Self::zero_spec().le_spec(Self::zero_spec()),
    ;

    /// Subtracting a scalar from itself gives zero.
    proof fn law_sub_self(a: Self)
        requires
            a.sub_ok(a),
        ensures
            a.sub_spec(a) == Self::zero_spec(),
    ;

    /// Swapping the operands of a subtraction negates it:
    /// `a - b == 0 - (b - a)`.
    proof fn law_sub_swap(a: Self, b: Self)
        requires
            a.sub_ok(b),
            b.sub_ok(a),
            Self::zero_spec().sub_ok(b.sub_spec(a)),
        ensures
            a.sub_spec(b) == Self::zero_spec().sub_spec(b.sub_spec(a)),
    ;
}

/// The smaller of two scalars by the scalar ordering, the left one on ties.
pub open spec fn scalar_min<S: SpadeNum>(a: S, b: S) -> S {
    if a.le_spec(b) {
        a
    } else {
        b
    }
}

/// The larger of two scalars by the scalar ordering, the left one on ties.
pub open spec fn scalar_max<S: SpadeNum>(a: S, b: S) -> S {
    if b.le_spec(a) {
        a
    } else {
        b
    }
}

/// Dividing an exact product by its nonzero factor recovers the other factor.
proof fn lemma_exact_div(a: int, s: int)
    requires
        s != 0,
    ensures
        (a * s) / s == a,
{
    if s > 0 {
        lemma_div_multiples_vanish(a, s);
        assert(a * s == s * a) by (nonlinear_arith);
    } else {
        let p = a * s;
        lemma_fundamental_div_mod(p, s);
        let q = p / s;
        let r = p % s;
        assert(p == s * q + r);
        assert(0 <= r < -s);
        assert(s * a == s * q + r);
        assert(s * (a - q) == r) by (nonlinear_arith)
            requires
                s * a == s * q + r,
        ;
        if a != q {
            assert(false) by (nonlinear_arith)
                requires
                    s < 0,
                    0 <= r < -s,
                    s * (a - q) == r,
                    a != q,
            ;
        }
    }
}

impl SpadeNum for i64 {
    open spec fn zero_spec() -> Self {
        0i64
    }

    open spec fn add_ok(self, o: Self) -> bool {
        i64::MIN <= self + o <= i64::MAX
    }

    open spec fn add_spec(self, o: Self) -> Self {
        (self + o) as i64
    }

    open spec fn sub_ok(self, o: Self) -> bool {
        i64::MIN <= self - o <= i64::MAX
    }

    open spec fn sub_spec(self, o: Self) -> Self {
        (self - o) as i64
    }

    open spec fn mul_ok(self, o: Self) -> bool {
        i64::MIN <= self * o <= i64::MAX
    }

    open spec fn mul_spec(self, o: Self) -> Self {
        (self * o) as i64
    }

    open spec fn div_ok(self, o: Self) -> bool {
        o != 0 && !(self == i64::MIN && o == -1)
    }

    open spec fn div_spec(self, o: Self) -> Self {
        if self >= 0 {
            (self / o) as i64
        } else {
            (-((-self) / (o as int))) as i64
        }
    }

    open spec fn le_spec(self, o: Self) -> bool {
        self <= o
    }

    fn zero() -> (r: Self) {
        0i64
    }

    fn add_val(self, o: Self) -> (r: Self) {
        self + o
    }

    fn sub_val(self, o: Self) -> (r: Self) {
        self - o
    }

    fn mul_val(self, o: Self) -> (r: Self) {
        self * o
    }

    fn div_val(self, o: Self) -> (r: Self) {
        self / o
    }

    fn le_val(self, o: Self) -> (r: bool) {
        self <= o
    }

    proof fn law_le_total(a: Self, b: Self) {
    }

    proof fn law_add_sub(a: Self, b: Self) {
    }

    proof fn law_mul_div(a: Self, s: Self) {
        let p = a.mul_spec(s);
        assert(p == a * s);
        lemma_exact_div(a as int, s as int);
        if p >= 0 {
            assert((p as int) / (s as int) == a);
        } else {
            assert((-(p as int)) == (-(a as int)) * (s as int)) by (nonlinear_arith)
                requires
                    p == a * s,
            ;
            lemma_exact_div(-(a as int), s as int);
            assert((-(p as int)) / (s as int) == -(a as int));
        }
    }

    proof fn law_mul_comm(a: Self, b: Self) {
        assert(a * b == b * a) by (nonlinear_arith);
    }

    proof fn law_square_nonneg(a: Self) {
        assert(a * a >= 0) by (nonlinear_arith);
    }

    proof fn law_add_nonneg(a: Self, b: Self) {
    }

    proof fn law_zero() {
    }

    proof fn law_sub_self(a: Self) {
    }

    proof fn law_sub_swap(a: Self, b: Self) {
    }
}

impl SpadeNum for i32 {
    open spec fn zero_spec() -> Self {
        0i32
    }

    open spec fn add_ok(self, o: Self) -> bool {
        i32::MIN <= self + o <= i32::MAX
    }

    open spec fn add_spec(self, o: Self) -> Self {
        (self + o) as i32
    }

    open spec fn sub_ok(self, o: Self) -> bool {
        i32::MIN <= self - o <= i32::MAX
    }

    open spec fn sub_spec(self, o: Self) -> Self {
        (self - o) as i32
    }

    open spec fn mul_ok(self, o: Self) -> bool {
        i32::MIN <= self * o <= i32::MAX
    }

    open spec fn mul_spec(self, o: Self) -> Self {
        (self * o) as i32
    }

    open spec fn div_ok(self, o: Self) -> bool {
        o != 0 && !(self == i32::MIN && o == -1)
    }

    open spec fn div_spec(self, o: Self) -> Self {
        if self >= 0 {
            (self / o) as i32
        } else {
            (-((-self) / (o as int))) as i32
        }
    }

    open spec fn le_spec(self, o: Self) -> bool {
        self <= o
    }

    fn zero() -> (r: Self) {
        0i32
    }

    fn add_val(self, o: Self) -> (r: Self) {
        self + o
    }

    fn sub_val(self, o: Self) -> (r: Self) {
        self - o
    }

    fn mul_val(self, o: Self) -> (r: Self) {
        self * o
    }

    fn div_val(self, o: Self) -> (r: Self) {
        self / o
    }

    fn le_val(self, o: Self) -> (r: bool) {
        self <= o
    }

    proof fn law_le_total(a: Self, b: Self) {
    }

    proof fn law_add_sub(a: Self, b: Self) {
    }

    proof fn law_mul_div(a: Self, s: Self) {
        let p = a.mul_spec(s);
        assert(p == a * s);
        lemma_exact_div(a as int, s as int);
        if p >= 0 {
            assert((p as int) / (s as int) == a);
        } else {
            assert((-(p as int)) == (-(a as int)) * (s as int)) by (nonlinear_arith)
                requires
                    p == a * s,
            ;
            lemma_exact_div(-(a as int), s as int);
            assert((-(p as int)) / (s as int) == -(a as int));
        }
    }

    proof fn law_mul_comm(a: Self, b: Self) {
        assert(a * b == b * a) by (nonlinear_arith);
    }

    proof fn law_square_nonneg(a: Self) {
        assert(a * a >= 0) by (nonlinear_arith);
    }

    proof fn law_add_nonneg(a: Self, b: Self) {
    }

    proof fn law_zero() {
    }

    proof fn law_sub_self(a: Self) {
    }

    proof fn law_sub_swap(a: Self, b: Self) {
    }
}

} // verus!
