use spade_vectors::{ThreeDimensional, VectorN, VectorNExtensions};

#[test]
fn cgmath_dimensions() {
    assert_eq!(<cgmath::Vector2<i64> as VectorN>::dimensions(), 2);
    assert_eq!(<cgmath::Vector3<i64> as VectorN>::dimensions(), 3);
    assert_eq!(<cgmath::Vector4<i64> as VectorN>::dimensions(), 4);
}

#[test]
fn cgmath_from_value_and_nth() {
    let v = <cgmath::Vector2<i64> as VectorN>::from_value(7);
    assert_eq!(v, cgmath::Vector2::new(7, 7));
    let w = cgmath::Vector3::new(1i64, 2, 3);
    assert_eq!(*VectorN::nth(&w, 0), 1);
    assert_eq!(*VectorN::nth(&w, 1), 2);
    assert_eq!(*VectorN::nth(&w, 2), 3);
}

#[test]
fn cgmath_set_nth() {
    let mut v = cgmath::Vector4::new(1i64, 2, 3, 4);
    VectorN::set_nth(&mut v, 3, 9);
    assert_eq!(v, cgmath::Vector4::new(1, 2, 3, 9));
}

#[test]
fn cgmath_arithmetic() {
    let a = cgmath::Vector3::new(1i64, 2, 3);
    let b = cgmath::Vector3::new(4i64, 5, 6);
    assert_eq!(VectorNExtensions::add(&a, &b), cgmath::Vector3::new(5, 7, 9));
    assert_eq!(VectorNExtensions::sub(&b, &a), cgmath::Vector3::new(3, 3, 3));
    assert_eq!(VectorNExtensions::dot(&a, &b), 32);
    assert_eq!(VectorNExtensions::length2(&a), 14);
    assert_eq!(
        VectorNExtensions::min_vec(&a, &cgmath::Vector3::new(3i64, 0, 9)),
        cgmath::Vector3::new(1, 0, 3)
    );
}

#[test]
fn cgmath_cross() {
    let x = cgmath::Vector3::new(1i64, 0, 0);
    let y = cgmath::Vector3::new(0i64, 1, 0);
    assert_eq!(ThreeDimensional::cross(&x, &y), cgmath::Vector3::new(0, 0, 1));
}

#[test]
fn nalgebra_dimensions() {
    assert_eq!(<nalgebra::Vector2<i64> as VectorN>::dimensions(), 2);
    assert_eq!(<nalgebra::Vector3<i64> as VectorN>::dimensions(), 3);
    assert_eq!(<nalgebra::Vector4<i64> as VectorN>::dimensions(), 4);
}

#[test]
fn nalgebra_from_value_and_nth() {
    let v = <nalgebra::Vector2<i64> as VectorN>::from_value(7);
    assert_eq!(*VectorN::nth(&v, 0), 7);
    assert_eq!(*VectorN::nth(&v, 1), 7);
    let w = nalgebra::Vector3::new(1i64, 2, 3);
    assert_eq!(*VectorN::nth(&w, 0), 1);
    assert_eq!(*VectorN::nth(&w, 1), 2);
    assert_eq!(*VectorN::nth(&w, 2), 3);
}

#[test]
fn nalgebra_set_nth() {
    let mut v = nalgebra::Vector4::new(1i64, 2, 3, 4);
    VectorN::set_nth(&mut v, 0, -6);
    VectorN::set_nth(&mut v, 3, 9);
    assert_eq!(v, nalgebra::Vector4::new(-6, 2, 3, 9));
}

#[test]
fn nalgebra_arithmetic() {
    let a = nalgebra::Vector3::new(1i64, 2, 3);
    let b = nalgebra::Vector3::new(4i64, 5, 6);
    assert_eq!(VectorNExtensions::add(&a, &b), nalgebra::Vector3::new(5, 7, 9));
    assert_eq!(VectorNExtensions::dot(&a, &b), 32);
    assert_eq!(VectorNExtensions::length2(&b), 77);
    assert_eq!(
        VectorNExtensions::max_vec(&a, &nalgebra::Vector3::new(3i64, 0, 9)),
        nalgebra::Vector3::new(3, 2, 9)
    );
}

#[test]
fn nalgebra_cross() {
    let x = nalgebra::Vector3::new(1i64, 0, 0);
    let y = nalgebra::Vector3::new(0i64, 1, 0);
    assert_eq!(ThreeDimensional::cross(&x, &y), nalgebra::Vector3::new(0, 0, 1));
    let a = nalgebra::Vector3::new(2i64, -1, 4);
    let b = nalgebra::Vector3::new(7i64, 3, -5);
    assert_eq!(
        ThreeDimensional::cross(&a, &b),
        VectorNExtensions::mul(&ThreeDimensional::cross(&b, &a), -1)
    );
}
