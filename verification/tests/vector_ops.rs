use spade_vectors::{SpadeNum, ThreeDimensional, VectorN, VectorNExtensions};

#[test]
fn new_is_all_zero() {
    let z: [i64; 3] = VectorNExtensions::new();
    assert_eq!(z, [0, 0, 0]);
    let z2: [i32; 2] = VectorNExtensions::new();
    assert_eq!(z2, [0, 0]);
}

#[test]
fn dimensions_match_type() {
    assert_eq!(<[i64; 2] as VectorN>::dimensions(), 2);
    assert_eq!(<[i64; 3] as VectorN>::dimensions(), 3);
    assert_eq!(<[i64; 4] as VectorN>::dimensions(), 4);
}

#[test]
fn from_value_broadcasts() {
    let v = <[i64; 4] as VectorN>::from_value(7);
    assert_eq!(v, [7, 7, 7, 7]);
}

#[test]
fn nth_reads_components() {
    let v = [10i64, 20, 30];
    assert_eq!(*v.nth(0), 10);
    assert_eq!(*v.nth(1), 20);
    assert_eq!(*v.nth(2), 30);
}

#[test]
fn set_nth_replaces_one_component() {
    let mut v = [1i64, 2, 3];
    v.set_nth(0, 9);
    assert_eq!(v, [9, 2, 3]);
    v.set_nth(2, -4);
    assert_eq!(v, [9, 2, -4]);
}

#[test]
fn add_componentwise() {
    assert_eq!([1i64, 2, 3].add(&[4, 5, 6]), [5, 7, 9]);
}

#[test]
fn sub_componentwise() {
    assert_eq!([5i64, 7, 9].sub(&[4, 5, 6]), [1, 2, 3]);
}

#[test]
fn add_then_sub_returns_start() {
    let a = [3i64, -8, 12];
    let b = [100i64, 41, -7];
    assert_eq!(a.add(&b).sub(&b), a);
}

#[test]
fn div_componentwise() {
    assert_eq!([2i64, 4, 6].div(2), [1, 2, 3]);
}

#[test]
fn mul_componentwise() {
    assert_eq!([1i64, 2, 3].mul(3), [3, 6, 9]);
}

#[test]
fn mul_then_div_returns_start() {
    let a = [4i64, -9, 0];
    assert_eq!(a.mul(5).div(5), a);
    assert_eq!(a.mul(-3).div(-3), a);
}

#[test]
fn component_wise_applies_per_index() {
    let r = [1i64, 2, 3].component_wise(&[4, 5, 6], |l: i64, r: i64| l * r);
    assert_eq!(r, [4, 10, 18]);
}

#[test]
fn map_applies_per_component() {
    let a = [1i64, 2, 3];
    let r: [i64; 3] = VectorNExtensions::map(&a, |x: i64| x * x);
    assert_eq!(r, [1, 4, 9]);
}

#[test]
fn min_vec_picks_smaller_components() {
    assert_eq!([1i64, 5, 2].min_vec(&[3, 0, 9]), [1, 0, 2]);
}

#[test]
fn max_vec_picks_larger_components() {
    assert_eq!([1i64, 5, 2].max_vec(&[3, 0, 9]), [3, 5, 9]);
}

#[test]
fn fold_runs_left_to_right() {
    let sum = [1i64, 2, 3].fold(0i64, |acc: i64, v: i64| acc + v);
    assert_eq!(sum, 6);
    // an order-sensitive fold: ((0 * 2 + 1) * 2 + 2) * 2 + 3
    let coded = [1i64, 2, 3].fold(0i64, |acc: i64, v: i64| acc * 2 + v);
    assert_eq!(coded, 11);
}

#[test]
fn all_comp_wise_trivially_true_predicate() {
    assert!([1i64, 2, 3].all_comp_wise(&[4, 5, 6], |_l: i64, _r: i64| true));
    assert!([0i64, 0].all_comp_wise(&[9, -9], |_l: i64, _r: i64| true));
}

#[test]
fn all_comp_wise_predicate_false_at_one_index() {
    // the predicate fails exactly at index 1
    assert!(![1i64, 2, 3].all_comp_wise(&[1, 5, 3], |l: i64, r: i64| l == r));
}

#[test]
fn all_comp_wise_le_comparison() {
    assert!([1i64, 2, 3].all_comp_wise(&[4, 5, 6], |l: i64, r: i64| l <= r));
    assert!(![4i64, 5, 6].all_comp_wise(&[1, 9, 9], |l: i64, r: i64| l <= r));
}

#[test]
fn dot_concrete_value() {
    assert_eq!([1i64, 2, 3].dot(&[4, 5, 6]), 32);
}

#[test]
fn dot_is_symmetric() {
    let a = [2i64, -7, 11];
    let b = [-5i64, 3, 8];
    assert_eq!(a.dot(&b), b.dot(&a));
}

#[test]
fn length2_concrete_value() {
    assert_eq!([1i64, 2, 3].length2(), 14);
    assert_eq!([-3i64, 4, 0].length2(), 25);
}

#[test]
fn length2_nonnegative_and_zero_on_zero_vector() {
    assert!([-9i64, 1, -2].length2() >= 0);
    let z: [i64; 3] = VectorNExtensions::new();
    assert_eq!(z.length2(), 0);
}

#[test]
fn cross_of_unit_axes() {
    let r = [1i64, 0, 0].cross(&[0, 1, 0]);
    assert_eq!(r, [0, 0, 1]);
}

#[test]
fn cross_is_anti_commutative() {
    let a = [2i64, -1, 4];
    let b = [7i64, 3, -5];
    assert_eq!(a.cross(&b), b.cross(&a).mul(-1));
}

#[test]
fn cross_with_self_is_zero() {
    let a = [6i64, -2, 9];
    assert_eq!(a.cross(&a), [0, 0, 0]);
}

#[test]
fn scalar_ops_on_i32_vectors() {
    assert_eq!([1i32, 2].add(&[3, 4]), [4, 6]);
    assert_eq!([5i32, -8].min_vec(&[2, -3]), [2, -8]);
    assert_eq!([3i32, 4].length2(), 25);
}

#[test]
fn scalar_capability_values() {
    assert_eq!(<i64 as SpadeNum>::zero(), 0);
    assert_eq!(7i64.add_val(5), 12);
    assert_eq!(7i64.sub_val(5), 2);
    assert_eq!(7i64.mul_val(-5), -35);
    assert_eq!((-35i64).div_val(5), -7);
    assert!((-1i64).le_val(1));
    assert!(!1i64.le_val(-1));
}
