//! Algebraic laws of the derived vector operations, stated over the
//! component-sequence models that the operations' contracts use.

use crate::scalar::SpadeNum;
use crate::vector_traits::{
    cross_ok, cross_spec, dot_ok, dot_partial, vec_add_ok, vec_add_spec, vec_div_ok, vec_div_spec,
    vec_scale_ok, vec_scale_spec, vec_sub_ok, vec_sub_spec,
};
use vstd::prelude::*;

verus! {

/// Subtracting a vector undoes adding it: `a.add(b).sub(b) == a`, wherever
/// the scalar arithmetic is defined along the way.
pub proof fn lemma_add_sub_inverse<S: SpadeNum>(a: Seq<S>, b: Seq<S>)
    requires
        b.len() == a.len(),
        vec_add_ok(a, b),
        vec_sub_ok(vec_add_spec(a, b), b),
    ensures
        vec_sub_spec(vec_add_spec(a, b), b) == a,
{
    let sum = vec_add_spec(a, b);
    assert forall|i: int| 0 <= i < a.len() implies vec_sub_spec(sum, b)[i] == a[i] by {
        S::law_add_sub(a[i], b[i]);
    }
    assert(vec_sub_spec(sum, b) =~= a);
}

/// Dividing by a nonzero scalar undoes multiplying by it:
/// `a.mul(s).div(s) == a`, wherever the scalar arithmetic is defined.
pub proof fn lemma_mul_div_inverse<S: SpadeNum>(a: Seq<S>, s: S)
    requires
        s != S::zero_spec(),
        vec_scale_ok(a, s),
        vec_div_ok(vec_scale_spec(a, s), s),
    ensures
        vec_div_spec(vec_scale_spec(a, s), s) == a,
{
    let scaled = vec_scale_spec(a, s);
    assert forall|i: int| 0 <= i < a.len() implies vec_div_spec(scaled, s)[i] == a[i] by {
        assert(scaled[i].div_ok(s));
        S::law_mul_div(a[i], s);
    }
    assert(vec_div_spec(scaled, s) =~= a);
}

/// A component-wise combination by an operation whose result is pinned to a
/// spec-level function matches the direct per-index application of that
/// function.
pub proof fn lemma_component_wise_pointwise<S: SpadeNum, F: Fn(S, S) -> S>(
    f: F,
    a: Seq<S>,
    b: Seq<S>,
    r: Seq<S>,
    g: spec_fn(S, S) -> S,
)
    requires
        forall|x: S, y: S, o: S| call_ensures(f, (x, y), o) ==> o == g(x, y),
        forall|i: int| 0 <= i < a.len() ==> call_ensures(f, (a[i], b[i]), #[trigger] r[i]),
    ensures
        forall|i: int| 0 <= i < a.len() ==> r[i] == g(a[i], b[i]),
{
    assert forall|i: int| 0 <= i < a.len() implies r[i] == g(a[i], b[i]) by {
        assert(call_ensures(f, (a[i], b[i]), r[i]));
    }
}

/// The dot product is symmetric: `a.dot(b) == b.dot(a)`, and is defined in
/// one order wherever it is defined in the other.
pub proof fn lemma_dot_symmetric<S: SpadeNum>(a: Seq<S>, b: Seq<S>, n: int)
    requires
        dot_ok(a, b, n),
    ensures
        dot_ok(b, a, n),
        dot_partial(a, b, n) == dot_partial(b, a, n),
    decreases n,
{
    if n > 0 {
        lemma_dot_symmetric(a, b, n - 1);
        S::law_mul_comm(a[n - 1], b[n - 1]);
    }
}

/// A squared length is never below zero, whenever the scalar ordering treats
/// squares and sums of non-negatives as non-negative.
pub proof fn lemma_length2_nonneg<S: SpadeNum>(a: Seq<S>, n: int)
    requires
        dot_ok(a, a, n),
    ensures
        S::zero_spec().le_spec(dot_partial(a, a, n)),
    decreases n,
{
    if n <= 0 {
        S::law_zero();
    } else {
        lemma_length2_nonneg(a, n - 1);
        S::law_square_nonneg(a[n - 1]);
        S::law_add_nonneg(dot_partial(a, a, n - 1), a[n - 1].mul_spec(a[n - 1]));
    }
}

/// The squared length of the all-zero vector is defined and is zero.
pub proof fn lemma_zero_vector_length2<S: SpadeNum>(a: Seq<S>, n: int)
    requires
        forall|i: int| 0 <= i < n ==> a[i] == S::zero_spec(),
    ensures
        dot_ok(a, a, n),
        dot_partial(a, a, n) == S::zero_spec(),
    decreases n,
{
    if n > 0 {
        lemma_zero_vector_length2(a, n - 1);
        S::law_zero();
    }
}

/// A component-wise check against a predicate that always holds returns true.
pub proof fn lemma_all_comp_wise_const_true<S: SpadeNum, F: Fn(S, S) -> bool>(
    f: F,
    a: Seq<S>,
    b: Seq<S>,
    n: int,
    r: bool,
)
    requires
        forall|x: S, y: S, o: bool| call_ensures(f, (x, y), o) ==> o == true,
        !r ==> exists|i: int| 0 <= i < n && call_ensures(f, (#[trigger] a[i], b[i]), false),
    ensures
        r,
{
    if !r {
        let i = choose|i: int| 0 <= i < n && call_ensures(f, (#[trigger] a[i], b[i]), false);
        assert(call_ensures(f, (a[i], b[i]), false));
    }
}

/// A component-wise check against a predicate pinned to a spec-level
/// function that fails at some index returns false.
pub proof fn lemma_all_comp_wise_pointwise_false<S: SpadeNum, F: Fn(S, S) -> bool>(
    f: F,
    a: Seq<S>,
    b: Seq<S>,
    n: int,
    r: bool,
    g: spec_fn(S, S) -> bool,
    k: int,
)
    requires
        forall|x: S, y: S, o: bool| call_ensures(f, (x, y), o) ==> o == g(x, y),
        r ==> forall|i: int| 0 <= i < n ==> call_ensures(f, (#[trigger] a[i], b[i]), true),
        0 <= k < n,
        !g(a[k], b[k]),
    ensures
        !r,
{
    if r {
        assert(call_ensures(f, (a[k], b[k]), true));
    }
}

/// The cross product is anti-commutative: each component of `a.cross(b)` is
/// the negation (zero minus the value) of the same component of
/// `b.cross(a)`.
pub proof fn lemma_cross_anti_commutative<S: SpadeNum>(a: Seq<S>, b: Seq<S>)
    requires
        cross_ok(a, b),
        cross_ok(b, a),
        forall|i: int| 0 <= i < 3 ==> S::zero_spec().sub_ok(#[trigger] cross_spec(b, a)[i]),
    ensures
        forall|i: int|
            0 <= i < 3 ==> #[trigger] cross_spec(a, b)[i] == S::zero_spec().sub_spec(
                cross_spec(b, a)[i],
            ),
{
    assert(S::zero_spec().sub_ok(cross_spec(b, a)[0]));
    assert(S::zero_spec().sub_ok(cross_spec(b, a)[1]));
    assert(S::zero_spec().sub_ok(cross_spec(b, a)[2]));
    S::law_mul_comm(b[1], a[2]);
    S::law_mul_comm(b[2], a[1]);
    assert(cross_spec(b, a)[0] == a[2].mul_spec(b[1]).sub_spec(a[1].mul_spec(b[2])));
    S::law_sub_swap(a[1].mul_spec(b[2]), a[2].mul_spec(b[1]));
    S::law_mul_comm(b[2], a[0]);
    S::law_mul_comm(b[0], a[2]);
    assert(cross_spec(b, a)[1] == a[0].mul_spec(b[2]).sub_spec(a[2].mul_spec(b[0])));
    S::law_sub_swap(a[2].mul_spec(b[0]), a[0].mul_spec(b[2]));
    S::law_mul_comm(b[0], a[1]);
    S::law_mul_comm(b[1], a[0]);
    assert(cross_spec(b, a)[2] == a[1].mul_spec(b[0]).sub_spec(a[0].mul_spec(b[1])));
    S::law_sub_swap(a[0].mul_spec(b[1]), a[1].mul_spec(b[0]));
}

/// The cross product of a vector with itself is the zero vector.
pub proof fn lemma_cross_self_zero<S: SpadeNum>(a: Seq<S>)
    requires
        cross_ok(a, a),
    ensures
        forall|i: int| 0 <= i < 3 ==> #[trigger] cross_spec(a, a)[i] == S::zero_spec(),
{
    S::law_mul_comm(a[1], a[2]);
    S::law_sub_self(a[1].mul_spec(a[2]));
    S::law_mul_comm(a[2], a[0]);
    S::law_sub_self(a[2].mul_spec(a[0]));
    S::law_mul_comm(a[0], a[1]);
    S::law_sub_self(a[0].mul_spec(a[1]));
}

} // verus!
