//! The vector capability, its derived operations, and the dimensional
//! marker capabilities, together with bindings for fixed-size arrays.

use crate::scalar::SpadeNum;
use vstd::prelude::*;

verus! {

/// Abstraction over vectors with a fixed number of dimensions.
///
/// A vector is modelled by the sequence `cs()` of its components; every
/// implementor fixes a component count `dim()` at the type level and proves
/// (`law_dims`) that each value carries exactly that many components.
///
/// Implement this to use your own vector types with the derived operations
/// of [`crate::VectorNExtensions`]; also consider implementing
/// [`crate::TwoDimensional`] or [`crate::ThreeDimensional`] if appropriate.
pub trait VectorN: Sized + Clone {
    /// The vector's internal scalar type.
    type Scalar: SpadeNum;

    /// The (fixed) number of dimensions of this vector type.
    spec fn dim() -> nat;

    /// The components of this vector, in index order.
    spec fn cs(&self) -> Seq<Self::Scalar>;

    /// Every value of the type carries exactly `dim()` components.
    proof fn law_dims(&self)
        ensures
            self.cs().len() == Self::dim(),
    ;

    /// The (fixed) number of dimensions of this vector type.
    fn dimensions() -> (r: usize)
        ensures
            r == Self::dim(),
    ;

    /// Creates a new vector with all components set to a certain value.
    fn from_value(value: Self::Scalar) -> (r: Self)
        ensures
            r.cs().len() == Self::dim(),
            forall|i: int| 0 <= i < Self::dim() ==> r.cs()[i] == value,
    ;

    /// Returns the nth component of this vector.
    fn nth(&self, index: usize) -> (r: &Self::Scalar)
        requires
            index < Self::dim(),
        ensures
            *r == self.cs()[index as int],
    ;

    /// Replaces the nth component of this vector.
    fn set_nth(&mut self, index: usize, value: Self::Scalar)
        requires
            index < Self::dim(),
        ensures
            final(self).cs() == old(self).cs().update(index as int, value),
    ;
}

/// The component sequence of the sum of two vectors.
pub open spec fn vec_add_spec<S: SpadeNum>(a: Seq<S>, b: Seq<S>) -> Seq<S> {
    Seq::new(a.len(), |i: int| a[i].add_spec(b[i]))
}

/// True where every component pair of two vectors may be added.
pub open spec fn vec_add_ok<S: SpadeNum>(a: Seq<S>, b: Seq<S>) -> bool {
    forall|i: int| 0 <= i < a.len() ==> a[i].add_ok(b[i])
}

/// The component sequence of the difference of two vectors.
pub open spec fn vec_sub_spec<S: SpadeNum>(a: Seq<S>, b: Seq<S>) -> Seq<S> {
    Seq::new(a.len(), |i: int| a[i].sub_spec(b[i]))
}

/// True where every component pair of two vectors may be subtracted.
pub open spec fn vec_sub_ok<S: SpadeNum>(a: Seq<S>, b: Seq<S>) -> bool {
    forall|i: int| 0 <= i < a.len() ==> a[i].sub_ok(b[i])
}

/// The component sequence of a vector multiplied by a scalar.
pub open spec fn vec_scale_spec<S: SpadeNum>(a: Seq<S>, s: S) -> Seq<S> {
    Seq::new(a.len(), |i: int| a[i].mul_spec(s))
}

/// True where every component of a vector may be multiplied by a scalar.
pub open spec fn vec_scale_ok<S: SpadeNum>(a: Seq<S>, s: S) -> bool {
    forall|i: int| 0 <= i < a.len() ==> a[i].mul_ok(s)
}

/// The component sequence of a vector divided by a scalar.
pub open spec fn vec_div_spec<S: SpadeNum>(a: Seq<S>, s: S) -> Seq<S> {
    Seq::new(a.len(), |i: int| a[i].div_spec(s))
}

/// True where every component of a vector may be divided by a scalar.
pub open spec fn vec_div_ok<S: SpadeNum>(a: Seq<S>, s: S) -> bool {
    forall|i: int| 0 <= i < a.len() ==> a[i].div_ok(s)
}

/// The component-wise minimum of two vectors.
pub open spec fn vec_min_spec<S: SpadeNum>(a: Seq<S>, b: Seq<S>) -> Seq<S> {
    Seq::new(a.len(), |i: int| crate::scalar::scalar_min(a[i], b[i]))
}

/// The component-wise maximum of two vectors.
pub open spec fn vec_max_spec<S: SpadeNum>(a: Seq<S>, b: Seq<S>) -> Seq<S> {
    Seq::new(a.len(), |i: int| crate::scalar::scalar_max(a[i], b[i]))
}

/// True where a left-to-right fold of `f` over `s` starting from `acc` can
/// make every call: the first call is permitted, and whatever it may return,
/// the rest of the fold can go on from there.
pub open spec fn fold_callable<A, S, F: Fn(A, S) -> A>(f: F, s: Seq<S>, acc: A) -> bool
    decreases s.len(),
{
    s.len() > 0 ==> {
        &&& call_requires(f, (acc, s[0]))
        &&& forall|mid: A|
            #[trigger] call_ensures(f, (acc, s[0]), mid) ==> fold_callable(f, s.drop_first(), mid)
    }
}

/// True where `res` is a possible result of folding `f` left-to-right over
/// `s` starting from `acc`: some value returnable by `f` at each step links
/// the accumulator chain from `acc` to `res`.
pub open spec fn fold_chain<A, S, F: Fn(A, S) -> A>(f: F, s: Seq<S>, acc: A, res: A) -> bool
    decreases s.len(),
{
    if s.len() == 0 {
        res == acc
    } else {
        exists|mid: A|
            #[trigger] call_ensures(f, (acc, s[0]), mid) && fold_chain(f, s.drop_first(), mid, res)
    }
}

/// The accumulated dot product of the first `n` component pairs: a sum-fold
/// from zero, in index order, of the component products.
pub open spec fn dot_partial<S: SpadeNum>(a: Seq<S>, b: Seq<S>, n: int) -> S
    decreases n,
{
    if n <= 0 {
        S::zero_spec()
    } else {
        dot_partial(a, b, n - 1).add_spec(a[n - 1].mul_spec(b[n - 1]))
    }
}

/// True where every product and every running sum of the dot product of the
/// first `n` component pairs is defined.
pub open spec fn dot_ok<S: SpadeNum>(a: Seq<S>, b: Seq<S>, n: int) -> bool
    decreases n,
{
    n > 0 ==> {
        &&& dot_ok(a, b, n - 1)
        &&& a[n - 1].mul_ok(b[n - 1])
        &&& dot_partial(a, b, n - 1).add_ok(a[n - 1].mul_spec(b[n - 1]))
    }
}

/// A defined dot product stays defined on fewer components.
pub proof fn lemma_dot_ok_prefix<S: SpadeNum>(a: Seq<S>, b: Seq<S>, k: int, n: int)
    requires
        dot_ok(a, b, n),
        k <= n,
    ensures
        dot_ok(a, b, k),
    decreases n - k,
{
    if k < n {
        lemma_dot_ok_prefix(a, b, k, n - 1);
    }
}

/// Adds some derived methods to the [`VectorN`] trait.
///
/// Every operation is defined once, purely in terms of the [`VectorN`]
/// primitives, and applies automatically to every implementor through a
/// blanket implementation.
pub trait VectorNExtensions: VectorN {
    /// Creates a new vector with all components initialized to zero.
    fn new() -> (r: Self)
        ensures
            r.cs().len() == Self::dim(),
            forall|i: int| 0 <= i < Self::dim() ==> r.cs()[i] == Self::Scalar::zero_spec(),
    {
        Self::from_value(Self::Scalar::zero())
    }

    /// Applies a binary operation component wise.
    fn component_wise<F: Fn(Self::Scalar, Self::Scalar) -> Self::Scalar>(
        &self,
        rhs: &Self,
        f: F,
    ) -> (r: Self)
        requires
            forall|i: int|
                0 <= i < Self::dim() ==> call_requires(f, (self.cs()[i], rhs.cs()[i])),
        ensures
            r.cs().len() == Self::dim(),
            forall|i: int|
                0 <= i < Self::dim() ==> call_ensures(
                    f,
                    (self.cs()[i], rhs.cs()[i]),
                    #[trigger] r.cs()[i],
                ),
    {
        let mut result = self.clone();
        proof {
            result.law_dims();
            self.law_dims();
            rhs.law_dims();
        }
        let n = Self::dimensions();
        let mut i: usize = 0;
        while i < n
            invariant
                n == Self::dim(),
                i <= n,
                result.cs().len() == Self::dim(),
                forall|j: int|
                    0 <= j < Self::dim() ==> call_requires(f, (self.cs()[j], rhs.cs()[j])),
                forall|j: int|
                    0 <= j < i ==> call_ensures(
                        f,
                        (self.cs()[j], rhs.cs()[j]),
                        #[trigger] result.cs()[j],
                    ),
            decreases n - i,
        {
            let v = f(*self.nth(i), *rhs.nth(i));
            result.set_nth(i, v);
            i += 1;
        }
        result
    }

    /// Adds two vectors.
    fn add(&self, rhs: &Self) -> (r: Self)
        requires
            vec_add_ok(self.cs(), rhs.cs()),
        ensures
            r.cs() == vec_add_spec(self.cs(), rhs.cs()),
    {
        proof {
            self.law_dims();
            rhs.law_dims();
        }
        let f = |l: Self::Scalar, r2: Self::Scalar| -> (o: Self::Scalar)
            requires
                l.add_ok(r2),
            ensures
                o == l.add_spec(r2),
            {
                l.add_val(r2)
            };
        let res = self.component_wise(rhs, f);
        proof {
            res.law_dims();
            assert(res.cs() =~= vec_add_spec(self.cs(), rhs.cs()));
        }
        res
    }

    /// Subtracts two vectors.
    fn sub(&self, rhs: &Self) -> (r: Self)
        requires
            vec_sub_ok(self.cs(), rhs.cs()),
        ensures
            r.cs() == vec_sub_spec(self.cs(), rhs.cs()),
    {
        proof {
            self.law_dims();
            rhs.law_dims();
        }
        let f = |l: Self::Scalar, r2: Self::Scalar| -> (o: Self::Scalar)
            requires
                l.sub_ok(r2),
            ensures
                o == l.sub_spec(r2),
            {
                l.sub_val(r2)
            };
        let res = self.component_wise(rhs, f);
        proof {
            res.law_dims();
            assert(res.cs() =~= vec_sub_spec(self.cs(), rhs.cs()));
        }
        res
    }

    /// Divides this vector by a scalar value.
    fn div(&self, scalar: Self::Scalar) -> (r: Self)
        requires
            vec_div_ok(self.cs(), scalar),
        ensures
            r.cs() == vec_div_spec(self.cs(), scalar),
    {
        proof {
            self.law_dims();
        }
        let f = |x: Self::Scalar| -> (o: Self::Scalar)
            requires
                x.div_ok(scalar),
            ensures
                o == x.div_spec(scalar),
            {
                x.div_val(scalar)
            };
        let res: Self = self.map(f);
        proof {
            res.law_dims();
            assert(res.cs() =~= vec_div_spec(self.cs(), scalar));
        }
        res
    }

    /// Multiplies this vector by a scalar value.
    fn mul(&self, scalar: Self::Scalar) -> (r: Self)
        requires
            vec_scale_ok(self.cs(), scalar),
        ensures
            r.cs() == vec_scale_spec(self.cs(), scalar),
    {
        proof {
            self.law_dims();
        }
        let f = |x: Self::Scalar| -> (o: Self::Scalar)
            requires
                x.mul_ok(scalar),
            ensures
                o == x.mul_spec(scalar),
            {
                x.mul_val(scalar)
            };
        let res: Self = self.map(f);
        proof {
            res.law_dims();
            assert(res.cs() =~= vec_scale_spec(self.cs(), scalar));
        }
        res
    }

    /// Maps a unary operation over all components, producing a (possibly
    /// different) vector type of the same dimension.
    fn map<F: Fn(Self::Scalar) -> O::Scalar, O: VectorN>(&self, f: F) -> (r: O)
        requires
            O::dim() == Self::dim(),
            forall|i: int| 0 <= i < Self::dim() ==> call_requires(f, (self.cs()[i],)),
        ensures
            r.cs().len() == Self::dim(),
            forall|i: int|
                0 <= i < Self::dim() ==> call_ensures(f, (self.cs()[i],), #[trigger] r.cs()[i]),
    {
        proof {
            self.law_dims();
        }
        let mut result: O = O::from_value(<O::Scalar as SpadeNum>::zero());
        let n = Self::dimensions();
        let mut i: usize = 0;
        while i < n
            invariant
                n == Self::dim(),
                O::dim() == Self::dim(),
                i <= n,
                self.cs().len() == Self::dim(),
                result.cs().len() == Self::dim(),
                forall|j: int| 0 <= j < Self::dim() ==> call_requires(f, (self.cs()[j],)),
                forall|j: int|
                    0 <= j < i ==> call_ensures(f, (self.cs()[j],), #[trigger] result.cs()[j]),
            decreases n - i,
        {
            let v = f(*self.nth(i));
            result.set_nth(i, v);
            i += 1;
        }
        result
    }

    /// Returns a new vector containing the minimum values of this and
    /// another vector (componentwise).
    fn min_vec(&self, rhs: &Self) -> (r: Self)
        ensures
            r.cs() == vec_min_spec(self.cs(), rhs.cs()),
    {
        proof {
            self.law_dims();
            rhs.law_dims();
        }
        let f = |l: Self::Scalar, r2: Self::Scalar| -> (o: Self::Scalar)
            ensures
                o == crate::scalar::scalar_min(l, r2),
            {
                if l.le_val(r2) {
                    l
                } else {
                    r2
                }
            };
        let res = self.component_wise(rhs, f);
        proof {
            res.law_dims();
            assert(res.cs() =~= vec_min_spec(self.cs(), rhs.cs()));
        }
        res
    }

    /// Returns a new vector containing the maximum values of this and
    /// another vector (componentwise).
    fn max_vec(&self, rhs: &Self) -> (r: Self)
        ensures
            r.cs() == vec_max_spec(self.cs(), rhs.cs()),
    {
        proof {
            self.law_dims();
            rhs.law_dims();
        }
        let f = |l: Self::Scalar, r2: Self::Scalar| -> (o: Self::Scalar)
            ensures
                o == crate::scalar::scalar_max(l, r2),
            {
                if r2.le_val(l) {
                    l
                } else {
                    r2
                }
            };
        let res = self.component_wise(rhs, f);
        proof {
            res.law_dims();
            assert(res.cs() =~= vec_max_spec(self.cs(), rhs.cs()));
        }
        res
    }

    /// Fold operation over all vector components, left to right in index
    /// order.
    fn fold<A, F: Fn(A, Self::Scalar) -> A>(&self, acc: A, f: F) -> (r: A)
        requires
            fold_callable(f, self.cs(), acc),
        ensures
            fold_chain(f, self.cs(), acc, r),
    {
        proof {
            self.law_dims();
        }
        let n = Self::dimensions();
        let mut cur = acc;
        let mut i: usize = 0;
        proof {
            assert(self.cs().skip(0) =~= self.cs());
        }
        while i < n
            invariant
                n == Self::dim(),
                i <= n,
                self.cs().len() == n,
                fold_callable(f, self.cs().skip(i as int), cur),
                forall|fin: A|
                    fold_chain(f, self.cs().skip(i as int), cur, fin) ==> fold_chain(
                        f,
                        self.cs(),
                        acc,
                        fin,
                    ),
            decreases n - i,
        {
            let ghost c0 = cur;
            let ghost rest = self.cs().skip(i as int);
            proof {
                assert(rest.len() > 0);
                assert(rest[0] == self.cs()[i as int]);
            }
            let v = f(cur, *self.nth(i));
            proof {
                assert(rest.drop_first() =~= self.cs().skip(i as int + 1));
                assert(fold_callable(f, self.cs().skip(i as int + 1), v));
                assert forall|fin: A|
                    fold_chain(f, self.cs().skip(i as int + 1), v, fin) implies fold_chain(
                    f,
                    self.cs(),
                    acc,
                    fin,
                ) by {
                    assert(call_ensures(f, (c0, rest[0]), v) && fold_chain(
                        f,
                        rest.drop_first(),
                        v,
                        fin,
                    ));
                    assert(fold_chain(f, rest, c0, fin));
                }
            }
            cur = v;
            i += 1;
        }
        proof {
            assert(self.cs().skip(n as int) =~= Seq::<Self::Scalar>::empty());
            assert(fold_chain(f, self.cs().skip(n as int), cur, cur));
        }
        cur
    }

    /// Checks if a property holds for all components of this and another
    /// vector, stopping at the first index where it fails.
    fn all_comp_wise<F: Fn(Self::Scalar, Self::Scalar) -> bool>(&self, rhs: &Self, f: F) -> (r:
        bool)
        requires
            forall|i: int|
                0 <= i < Self::dim() ==> call_requires(f, (self.cs()[i], rhs.cs()[i])),
        ensures
            r ==> forall|i: int|
                0 <= i < Self::dim() ==> call_ensures(f, (self.cs()[i], rhs.cs()[i]), true),
            !r ==> exists|i: int|
                0 <= i < Self::dim() && call_ensures(f, (self.cs()[i], rhs.cs()[i]), false),
    {
        proof {
            self.law_dims();
            rhs.law_dims();
        }
        let n = Self::dimensions();
        let mut i: usize = 0;
        while i < n
            invariant
                n == Self::dim(),
                i <= n,
                self.cs().len() == n,
                rhs.cs().len() == n,
                forall|j: int|
                    0 <= j < Self::dim() ==> call_requires(f, (self.cs()[j], rhs.cs()[j])),
                forall|j: int|
                    0 <= j < i ==> call_ensures(f, (self.cs()[j], rhs.cs()[j]), true),
            decreases n - i,
        {
            if !f(*self.nth(i), *rhs.nth(i)) {
                return false;
            }
            i += 1;
        }
        true
    }

    /// Returns the vector's dot product with another: the sum-fold from zero,
    /// in index order, of the component products.
    fn dot(&self, rhs: &Self) -> (r: Self::Scalar)
        requires
            dot_ok(self.cs(), rhs.cs(), Self::dim() as int),
        ensures
            r == dot_partial(self.cs(), rhs.cs(), Self::dim() as int),
    {
        proof {
            self.law_dims();
            rhs.law_dims();
        }
        let n = Self::dimensions();
        let mut acc = <Self::Scalar as SpadeNum>::zero();
        let mut i: usize = 0;
        while i < n
            invariant
                n == Self::dim(),
                i <= n,
                self.cs().len() == n,
                rhs.cs().len() == n,
                dot_ok(self.cs(), rhs.cs(), n as int),
                acc == dot_partial(self.cs(), rhs.cs(), i as int),
            decreases n - i,
        {
            proof {
                lemma_dot_ok_prefix(self.cs(), rhs.cs(), i as int + 1, n as int);
            }
            let p = (*self.nth(i)).mul_val(*rhs.nth(i));
            acc = acc.add_val(p);
            i += 1;
        }
        acc
    }

    /// Returns the vector's squared length: the dot product with itself.
    fn length2(&self) -> (r: Self::Scalar)
        requires
            dot_ok(self.cs(), self.cs(), Self::dim() as int),
        ensures
            r == dot_partial(self.cs(), self.cs(), Self::dim() as int),
    {
        self.dot(self)
    }
}

impl<T: VectorN> VectorNExtensions for T {
}

/// The component sequence of the cross product of two three-dimensional
/// vectors, by the standard right-hand rule.
pub open spec fn cross_spec<S: SpadeNum>(a: Seq<S>, b: Seq<S>) -> Seq<S> {
    seq![
        a[1].mul_spec(b[2]).sub_spec(a[2].mul_spec(b[1])),
        a[2].mul_spec(b[0]).sub_spec(a[0].mul_spec(b[2])),
        a[0].mul_spec(b[1]).sub_spec(a[1].mul_spec(b[0])),
    ]
}

/// True where every product and difference of the cross product is defined.
pub open spec fn cross_ok<S: SpadeNum>(a: Seq<S>, b: Seq<S>) -> bool {
    &&& a[1].mul_ok(b[2])
    &&& a[2].mul_ok(b[1])
    &&& a[1].mul_spec(b[2]).sub_ok(a[2].mul_spec(b[1]))
    &&& a[2].mul_ok(b[0])
    &&& a[0].mul_ok(b[2])
    &&& a[2].mul_spec(b[0]).sub_ok(a[0].mul_spec(b[2]))
    &&& a[0].mul_ok(b[1])
    &&& a[1].mul_ok(b[0])
    &&& a[0].mul_spec(b[1]).sub_ok(a[1].mul_spec(b[0]))
}

/// A two dimensional vector.
///
/// Some data structures will only work if two dimensional vectors are given;
/// this capability makes sure that only such vectors can be passed: an
/// implementor proves once that its fixed dimension really is two.
pub trait TwoDimensional: VectorN {
    /// The implementing vector type has exactly two components.
    proof fn law_two_dimensional()
        ensures
            Self::dim() == 2,
    ;
}

/// A three dimensional vector.
///
/// Some algorithms will only work with three dimensional vectors; this
/// capability makes sure that only such vectors can be used, and unlocks the
/// cross product: an implementor proves once that its fixed dimension really
/// is three.
pub trait ThreeDimensional: VectorN {
    /// The implementing vector type has exactly three components.
    proof fn law_three_dimensional()
        ensures
            Self::dim() == 3,
    ;

    /// The cross product of this vector and another.
    fn cross(&self, other: &Self) -> (r: Self)
        requires
            cross_ok(self.cs(), other.cs()),
        ensures
            r.cs() == cross_spec(self.cs(), other.cs()),
    {
        proof {
            Self::law_three_dimensional();
            self.law_dims();
            other.law_dims();
        }
        let mut result: Self = VectorNExtensions::new();
        let v0 = (*self.nth(1)).mul_val(*other.nth(2)).sub_val(
            (*self.nth(2)).mul_val(*other.nth(1)),
        );
        result.set_nth(0, v0);
        let v1 = (*self.nth(2)).mul_val(*other.nth(0)).sub_val(
            (*self.nth(0)).mul_val(*other.nth(2)),
        );
        result.set_nth(1, v1);
        let v2 = (*self.nth(0)).mul_val(*other.nth(1)).sub_val(
            (*self.nth(1)).mul_val(*other.nth(0)),
        );
        result.set_nth(2, v2);
        proof {
            assert(result.cs() =~= cross_spec(self.cs(), other.cs()));
        }
        result
    }
}

impl<S: SpadeNum> TwoDimensional for [S; 2] {
    proof fn law_two_dimensional() {
    }
}

impl<S: SpadeNum> ThreeDimensional for [S; 3] {
    proof fn law_three_dimensional() {
    }
}

impl<S: SpadeNum> VectorN for [S; 2] {
    type Scalar = S;

    open spec fn dim() -> nat {
        2
    }

    open spec fn cs(&self) -> Seq<S> {
        self@
    }

    proof fn law_dims(&self) {
    }

    fn dimensions() -> (r: usize) {
        2
    }

    fn from_value(value: S) -> (r: Self) {
        [value; 2]
    }

    fn nth(&self, index: usize) -> (r: &S) {
        &self[index]
    }

    fn set_nth(&mut self, index: usize, value: S) {
        self[index] = value;
    }
}

impl<S: SpadeNum> VectorN for [S; 3] {
    type Scalar = S;

    open spec fn dim() -> nat {
        3
    }

    open spec fn cs(&self) -> Seq<S> {
        self@
    }

    proof fn law_dims(&self) {
    }

    fn dimensions() -> (r: usize) {
        3
    }

    fn from_value(value: S) -> (r: Self) {
        [value; 3]
    }

    fn nth(&self, index: usize) -> (r: &S) {
        &self[index]
    }

    fn set_nth(&mut self, index: usize, value: S) {
        self[index] = value;
    }
}

impl<S: SpadeNum> VectorN for [S; 4] {
    type Scalar = S;

    open spec fn dim() -> nat {
        4
    }

    open spec fn cs(&self) -> Seq<S> {
        self@
    }

    proof fn law_dims(&self) {
    }

    fn dimensions() -> (r: usize) {
        4
    }

    fn from_value(value: S) -> (r: Self) {
        [value; 4]
    }

    fn nth(&self, index: usize) -> (r: &S) {
        &self[index]
    }

    fn set_nth(&mut self, index: usize, value: S) {
        self[index] = value;
    }
}

} // verus!
