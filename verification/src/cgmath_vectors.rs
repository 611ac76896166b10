//! Bindings of the vector capability for the 2-, 3- and 4-component vector
//! types of the cgmath crate.
//!
//! The cgmath vector structs expose their components as plain public
//! fields, so the capability is implemented directly over those fields and
//! verified like any other code; only the type declarations are taken on
//! trust.

use crate::scalar::SpadeNum;
use crate::vector_traits::{ThreeDimensional, TwoDimensional, VectorN};
use vstd::prelude::*;

verus! {

/// Declares cgmath's two-component vector struct, exposing its `x` and `y`
/// fields to the verifier.
#[verifier::external_type_specification]
#[verifier::reject_recursive_types(S)]
pub struct ExCgVector2<S>(cgmath::Vector2<S>);

/// Declares cgmath's three-component vector struct, exposing its `x`, `y`
/// and `z` fields to the verifier.
#[verifier::external_type_specification]
#[verifier::reject_recursive_types(S)]
pub struct ExCgVector3<S>(cgmath::Vector3<S>);

/// Declares cgmath's four-component vector struct, exposing its `x`, `y`,
/// `z` and `w` fields to the verifier.
#[verifier::external_type_specification]
#[verifier::reject_recursive_types(S)]
pub struct ExCgVector4<S>(cgmath::Vector4<S>);

impl<S: SpadeNum> VectorN for cgmath::Vector2<S> {
    type Scalar = S;

    open spec fn dim() -> nat {
        2
    }

    open spec fn cs(&self) -> Seq<S> {
        seq![self.x, self.y]
    }

    proof fn law_dims(&self) {
    }

    fn dimensions() -> (r: usize) {
        2
    }

    fn from_value(value: S) -> (r: Self) {
        cgmath::Vector2 { x: value, y: value }
    }

    fn nth(&self, index: usize) -> (r: &S) {
        if index == 0 {
            &self.x
        } else {
            &self.y
        }
    }

    fn set_nth(&mut self, index: usize, value: S) {
        if index == 0 {
            self.x = value;
        } else {
            self.y = value;
        }
        proof {
            assert(self.cs() =~= old(self).cs().update(index as int, value));
        }
    }
}

impl<S: SpadeNum> VectorN for cgmath::Vector3<S> {
    type Scalar = S;

    open spec fn dim() -> nat {
        3
    }

    open spec fn cs(&self) -> Seq<S> {
        seq![self.x, self.y, self.z]
    }

    proof fn law_dims(&self) {
    }

    fn dimensions() -> (r: usize) {
        3
    }

    fn from_value(value: S) -> (r: Self) {
        cgmath::Vector3 { x: value, y: value, z: value }
    }

    fn nth(&self, index: usize) -> (r: &S) {
        if index == 0 {
            &self.x
        } else if index == 1 {
            &self.y
        } else {
            &self.z
        }
    }

    fn set_nth(&mut self, index: usize, value: S) {
        if index == 0 {
            self.x = value;
        } else if index == 1 {
            self.y = value;
        } else {
            self.z = value;
        }
        proof {
            assert(self.cs() =~= old(self).cs().update(index as int, value));
        }
    }
}

impl<S: SpadeNum> VectorN for cgmath::Vector4<S> {
    type Scalar = S;

    open spec fn dim() -> nat {
        4
    }

    open spec fn cs(&self) -> Seq<S> {
        seq![self.x, self.y, self.z, self.w]
    }

    proof fn law_dims(&self) {
    }

    fn dimensions() -> (r: usize) {
        4
    }

    fn from_value(value: S) -> (r: Self) {
        cgmath::Vector4 { x: value, y: value, z: value, w: value }
    }

    fn nth(&self, index: usize) -> (r: &S) {
        if index == 0 {
            &self.x
        } else if index == 1 {
            &self.y
        } else if index == 2 {
            &self.z
        } else {
            &self.w
        }
    }

    fn set_nth(&mut self, index: usize, value: S) {
        if index == 0 {
            self.x = value;
        } else if index == 1 {
            self.y = value;
        } else if index == 2 {
            self.z = value;
        } else {
            self.w = value;
        }
        proof {
            assert(self.cs() =~= old(self).cs().update(index as int, value));
        }
    }
}

impl<S: SpadeNum> TwoDimensional for cgmath::Vector2<S> {
    proof fn law_two_dimensional() {
    }
}

impl<S: SpadeNum> ThreeDimensional for cgmath::Vector3<S> {
    proof fn law_three_dimensional() {
    }
}

} // verus!
