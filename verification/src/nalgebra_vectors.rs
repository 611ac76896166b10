//! Bindings of the vector capability for the 2-, 3- and 4-component column
//! vector types of the nalgebra crate, with `i64` components.
//!
//! nalgebra keeps a matrix's components in a private storage layout, so a
//! vector value is opaque to the verifier.  Each vector type gets a named
//! component sequence (`na_vector2_comps` and friends), and the three
//! operations the bindings need - building a vector from one repeated
//! element, reading a component, and replacing a component - are trusted
//! wrappers whose contracts speak over that name.

use crate::scalar::SpadeNum;
use crate::vector_traits::{ThreeDimensional, TwoDimensional, VectorN};
use vstd::prelude::*;

verus! {

/// Declares nalgebra's matrix struct, of which the vector types are
/// aliases; its storage is opaque to the verifier.
#[verifier::external_type_specification]
#[verifier::external_body]
#[verifier::reject_recursive_types(T)]
#[verifier::reject_recursive_types(R)]
#[verifier::reject_recursive_types(C)]
#[verifier::reject_recursive_types(S)]
pub struct ExNaMatrix<T, R, C, S>(nalgebra::Matrix<T, R, C, S>);

/// Declares nalgebra's type-level dimension marker.
#[verifier::external_type_specification]
#[verifier::external_body]
pub struct ExNaConst<const R: usize>(nalgebra::Const<R>);

/// Declares nalgebra's fixed-size array storage.
#[verifier::external_type_specification]
#[verifier::external_body]
#[verifier::reject_recursive_types(T)]
pub struct ExNaArrayStorage<T, const R: usize, const C: usize>(nalgebra::ArrayStorage<T, R, C>);

/// The components of a two-component nalgebra vector, in index order.
pub uninterp spec fn na_vector2_comps(v: nalgebra::Vector2<i64>) -> Seq<i64>;

/// The components of a three-component nalgebra vector, in index order.
pub uninterp spec fn na_vector3_comps(v: nalgebra::Vector3<i64>) -> Seq<i64>;

/// The components of a four-component nalgebra vector, in index order.
pub uninterp spec fn na_vector4_comps(v: nalgebra::Vector4<i64>) -> Seq<i64>;

/// Relies on nalgebra's `Vector2::repeat`: every component of the built
/// vector is the given element.
#[verifier::external_body]
fn na_vector2_repeat(value: i64) -> (r: nalgebra::Vector2<i64>)
    ensures
        forall|i: int| 0 <= i < 2 ==> na_vector2_comps(r)[i] == value,
{
    nalgebra::Vector2::repeat(value)
}

/// Relies on nalgebra's `Index<usize>` impl for matrices: on a column
/// vector, linear index `i` reads the `i`-th component.
#[verifier::external_body]
fn na_vector2_index(v: &nalgebra::Vector2<i64>, index: usize) -> (r: &i64)
    requires
        index < 2,
    ensures
        *r == na_vector2_comps(*v)[index as int],
{
    &v[index]
}

/// Relies on nalgebra's `IndexMut<usize>` impl for matrices: on a column
/// vector, writing linear index `i` replaces the `i`-th component and
/// leaves every other component unchanged.
#[verifier::external_body]
fn na_vector2_set(v: &mut nalgebra::Vector2<i64>, index: usize, value: i64)
    requires
        index < 2,
    ensures
        na_vector2_comps(*final(v))[index as int] == value,
        forall|j: int|
            0 <= j < 2 && j != index ==> na_vector2_comps(*final(v))[j] == na_vector2_comps(
                *old(v),
            )[j],
{
    v[index] = value;
}

/// Relies on nalgebra's `Vector3::repeat`: every component of the built
/// vector is the given element.
#[verifier::external_body]
fn na_vector3_repeat(value: i64) -> (r: nalgebra::Vector3<i64>)
    ensures
        forall|i: int| 0 <= i < 3 ==> na_vector3_comps(r)[i] == value,
{
    nalgebra::Vector3::repeat(value)
}

/// Relies on nalgebra's `Index<usize>` impl for matrices: on a column
/// vector, linear index `i` reads the `i`-th component.
#[verifier::external_body]
fn na_vector3_index(v: &nalgebra::Vector3<i64>, index: usize) -> (r: &i64)
    requires
        index < 3,
    ensures
        *r == na_vector3_comps(*v)[index as int],
{
    &v[index]
}

/// Relies on nalgebra's `IndexMut<usize>` impl for matrices: on a column
/// vector, writing linear index `i` replaces the `i`-th component and
/// leaves every other component unchanged.
#[verifier::external_body]
fn na_vector3_set(v: &mut nalgebra::Vector3<i64>, index: usize, value: i64)
    requires
        index < 3,
    ensures
        na_vector3_comps(*final(v))[index as int] == value,
        forall|j: int|
            0 <= j < 3 && j != index ==> na_vector3_comps(*final(v))[j] == na_vector3_comps(
                *old(v),
            )[j],
{
    v[index] = value;
}

/// Relies on nalgebra's `Vector4::repeat`: every component of the built
/// vector is the given element.
#[verifier::external_body]
fn na_vector4_repeat(value: i64) -> (r: nalgebra::Vector4<i64>)
    ensures
        forall|i: int| 0 <= i < 4 ==> na_vector4_comps(r)[i] == value,
{
    nalgebra::Vector4::repeat(value)
}

/// Relies on nalgebra's `Index<usize>` impl for matrices: on a column
/// vector, linear index `i` reads the `i`-th component.
#[verifier::external_body]
fn na_vector4_index(v: &nalgebra::Vector4<i64>, index: usize) -> (r: &i64)
    requires
        index < 4,
    ensures
        *r == na_vector4_comps(*v)[index as int],
{
    &v[index]
}

/// Relies on nalgebra's `IndexMut<usize>` impl for matrices: on a column
/// vector, writing linear index `i` replaces the `i`-th component and
/// leaves every other component unchanged.
#[verifier::external_body]
fn na_vector4_set(v: &mut nalgebra::Vector4<i64>, index: usize, value: i64)
    requires
        index < 4,
    ensures
        na_vector4_comps(*final(v))[index as int] == value,
        forall|j: int|
            0 <= j < 4 && j != index ==> na_vector4_comps(*final(v))[j] == na_vector4_comps(
                *old(v),
            )[j],
{
    v[index] = value;
}

impl VectorN for nalgebra::Vector2<i64> {
    type Scalar = i64;

    open spec fn dim() -> nat {
        2
    }

    open spec fn cs(&self) -> Seq<i64> {
        Seq::new(2, |i: int| na_vector2_comps(*self)[i])
    }

    proof fn law_dims(&self) {
    }

    fn dimensions() -> (r: usize) {
        2
    }

    fn from_value(value: i64) -> (r: Self) {
        let r = na_vector2_repeat(value);
        proof {
            assert forall|i: int| 0 <= i < 2 implies r.cs()[i] == value by {}
        }
        r
    }

    fn nth(&self, index: usize) -> (r: &i64) {
        na_vector2_index(self, index)
    }

    fn set_nth(&mut self, index: usize, value: i64) {
        na_vector2_set(self, index, value);
        proof {
            assert(self.cs() =~= old(self).cs().update(index as int, value));
        }
    }
}

impl VectorN for nalgebra::Vector3<i64> {
    type Scalar = i64;

    open spec fn dim() -> nat {
        3
    }

    open spec fn cs(&self) -> Seq<i64> {
        Seq::new(3, |i: int| na_vector3_comps(*self)[i])
    }

    proof fn law_dims(&self) {
    }

    fn dimensions() -> (r: usize) {
        3
    }

    fn from_value(value: i64) -> (r: Self) {
        let r = na_vector3_repeat(value);
        proof {
            assert forall|i: int| 0 <= i < 3 implies r.cs()[i] == value by {}
        }
        r
    }

    fn nth(&self, index: usize) -> (r: &i64) {
        na_vector3_index(self, index)
    }

    fn set_nth(&mut self, index: usize, value: i64) {
        na_vector3_set(self, index, value);
        proof {
            assert(self.cs() =~= old(self).cs().update(index as int, value));
        }
    }
}

impl VectorN for nalgebra::Vector4<i64> {
    type Scalar = i64;

    open spec fn dim() -> nat {
        4
    }

    open spec fn cs(&self) -> Seq<i64> {
        Seq::new(4, |i: int| na_vector4_comps(*self)[i])
    }

    proof fn law_dims(&self) {
    }

    fn dimensions() -> (r: usize) {
        4
    }

    fn from_value(value: i64) -> (r: Self) {
        let r = na_vector4_repeat(value);
        proof {
            assert forall|i: int| 0 <= i < 4 implies r.cs()[i] == value by {}
        }
        r
    }

    fn nth(&self, index: usize) -> (r: &i64) {
        na_vector4_index(self, index)
    }

    fn set_nth(&mut self, index: usize, value: i64) {
        na_vector4_set(self, index, value);
        proof {
            assert(self.cs() =~= old(self).cs().update(index as int, value));
        }
    }
}

impl TwoDimensional for nalgebra::Vector2<i64> {
    proof fn law_two_dimensional() {
    }
}

impl ThreeDimensional for nalgebra::Vector3<i64> {
    proof fn law_three_dimensional() {
    }
}

} // verus!
