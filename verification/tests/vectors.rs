use gust_math::arithmetic::Op;
use gust_math::scalar::Scalar;
use gust_math::vectors::vect3::Vect3;
use gust_math::vectors::vect4::Vect4;

fn s(x: f32) -> Scalar {
    Scalar::from_bits(x.to_bits())
}

fn f(x: Scalar) -> f32 {
    f32::from_bits(x.to_bits())
}

fn ieee(op: Op, a: Scalar, b: Scalar) -> Scalar {
    let (x, y) = (f(a), f(b));
    s(match op {
        Op::Add => x + y,
        Op::Sub => x - y,
        Op::Mul => x * y,
        Op::Div => x / y,
        Op::Sqrt => x.sqrt(),
        Op::Sin => x.sin(),
        Op::Cos => x.cos(),
    })
}

fn v3(x: f32, y: f32, z: f32) -> Vect3 {
    Vect3::new(s(x), s(y), s(z))
}

fn v4(x: f32, y: f32, z: f32, w: f32) -> Vect4 {
    Vect4::from((s(x), s(y), s(z), s(w)))
}

fn floats3(v: Vect3) -> [f32; 3] {
    [f(v.x), f(v.y), f(v.z)]
}

fn floats4(v: Vect4) -> [f32; 4] {
    [f(v.x), f(v.y), f(v.z), f(v.w)]
}

#[test]
fn cross_of_x_and_y_is_z() {
    let r = v3(1.0, 0.0, 0.0).cross(&v3(0.0, 1.0, 0.0), &ieee);
    assert_eq!(floats3(r), [0.0, 0.0, 1.0]);
}

#[test]
fn cross_follows_the_right_hand_rule() {
    let r = v3(1.0, 2.0, 3.0).cross(&v3(4.0, 5.0, 6.0), &ieee);
    assert_eq!(floats3(r), [-3.0, 6.0, -3.0]);
    let back = v3(4.0, 5.0, 6.0).cross(&v3(1.0, 2.0, 3.0), &ieee);
    assert_eq!(floats3(back), [3.0, -6.0, 3.0]);
}

#[test]
fn vect4_cross_forces_w_to_zero() {
    let r = v4(1.0, 0.0, 0.0, 7.0).cross(&v4(0.0, 1.0, 0.0, 9.0), &ieee);
    assert_eq!(floats4(r), [0.0, 0.0, 1.0, 0.0]);
    assert_eq!(r.w.to_bits(), 0);
    let r = v4(1.0, 2.0, 3.0, 1.0).cross(&v4(4.0, 5.0, 6.0, 1.0), &ieee);
    assert_eq!(floats4(r), [-3.0, 6.0, -3.0, 0.0]);
}

#[test]
fn vect4_new_is_all_zero() {
    let v = Vect4::new();
    assert_eq!([v.x.to_bits(), v.y.to_bits(), v.z.to_bits(), v.w.to_bits()], [0, 0, 0, 0]);
}

#[test]
fn vect4_array_and_vec_keep_the_order() {
    let v = Vect4::from_slice(&[s(1.0), s(2.0), s(3.0), s(4.0)]);
    assert_eq!(floats4(v), [1.0, 2.0, 3.0, 4.0]);
    let a = v.to_array();
    assert_eq!([f(a[0]), f(a[1]), f(a[2]), f(a[3])], [1.0, 2.0, 3.0, 4.0]);
    let w = v.to_vec();
    assert_eq!(w.len(), 4);
    assert_eq!([f(w[0]), f(w[1]), f(w[2]), f(w[3])], [1.0, 2.0, 3.0, 4.0]);
    let from_array = Vect4::from([s(1.0), s(2.0), s(3.0), s(4.0)]);
    assert_eq!(floats4(from_array), [1.0, 2.0, 3.0, 4.0]);
}

#[test]
fn vect3_array_keeps_the_order() {
    let v = Vect3::from_slice(&[s(1.0), s(2.0), s(3.0)]);
    assert_eq!(floats3(v), [1.0, 2.0, 3.0]);
    let a = v.to_array();
    assert_eq!([f(a[0]), f(a[1]), f(a[2])], [1.0, 2.0, 3.0]);
}

#[test]
fn vect4_from_vect3_zero_fills_w() {
    let v = Vect4::from(v3(1.0, 2.0, 3.0));
    assert_eq!(floats4(v), [1.0, 2.0, 3.0, 0.0]);
    assert_eq!(v.w.to_bits(), 0);
}

#[test]
fn index_maps_to_components() {
    let v = v4(1.0, 2.0, 3.0, 4.0);
    assert_eq!([f(v.at(0)), f(v.at(1)), f(v.at(2)), f(v.at(3))], [1.0, 2.0, 3.0, 4.0]);
    let u = v3(5.0, 6.0, 7.0);
    assert_eq!([f(u.at(0)), f(u.at(1)), f(u.at(2))], [5.0, 6.0, 7.0]);
}

#[test]
fn set_replaces_one_component() {
    let mut v = v4(1.0, 2.0, 3.0, 4.0);
    v.set(2, s(9.0));
    assert_eq!(floats4(v), [1.0, 2.0, 9.0, 4.0]);
    v.set(3, s(8.0));
    v.set(0, s(7.0));
    v.set(1, s(6.0));
    assert_eq!(floats4(v), [7.0, 6.0, 9.0, 8.0]);
    let mut u = v3(1.0, 2.0, 3.0);
    u.set(0, s(4.0));
    assert_eq!(floats3(u), [4.0, 2.0, 3.0]);
    u.set(1, s(5.0));
    u.set(2, s(6.0));
    assert_eq!(floats3(u), [4.0, 5.0, 6.0]);
}

#[test]
fn vector_sum_difference_and_scaling() {
    let a = v3(1.0, 2.0, 3.0);
    let b = v3(10.0, 20.0, 30.0);
    assert_eq!(floats3(a.add(&b, &ieee)), [11.0, 22.0, 33.0]);
    assert_eq!(floats3(a.sub(&b, &ieee)), [-9.0, -18.0, -27.0]);
    assert_eq!(floats3(a.mul(s(2.0), &ieee)), [2.0, 4.0, 6.0]);
    assert_eq!(floats3(a.neg()), [-1.0, -2.0, -3.0]);
    let c = v4(1.0, 2.0, 3.0, 4.0);
    let d = v4(0.5, 0.5, 0.5, 0.5);
    assert_eq!(floats4(c.add(&d, &ieee)), [1.5, 2.5, 3.5, 4.5]);
    assert_eq!(floats4(c.sub(&d, &ieee)), [0.5, 1.5, 2.5, 3.5]);
    assert_eq!(floats4(c.mul(s(-2.0), &ieee)), [-2.0, -4.0, -6.0, -8.0]);
    assert_eq!(floats4(c.neg()), [-1.0, -2.0, -3.0, -4.0]);
}

#[test]
fn dot_products() {
    assert_eq!(f(v3(1.0, 2.0, 3.0).dot(&v3(4.0, 5.0, 6.0), &ieee)), 32.0);
    assert_eq!(f(v4(1.0, 2.0, 3.0, 4.0).dot(&v4(5.0, 6.0, 7.0, 8.0), &ieee)), 70.0);
}

#[test]
fn dot_adds_from_left_to_right() {
    // With these terms the order of the additions shows in the result.
    let a = v3(1.0e30, -1.0e30, 1.0);
    let b = v3(1.0, 1.0, 1.0);
    assert_eq!(f(a.dot(&b, &ieee)), 1.0);
    let a = v3(1.0, 1.0e30, -1.0e30);
    assert_eq!(f(a.dot(&b, &ieee)), 0.0);
}

#[test]
fn norms() {
    assert_eq!(f(v3(3.0, 4.0, 0.0).norm(&ieee)), 5.0);
    assert_eq!(f(v3(2.0, 3.0, 6.0).norm(&ieee)), 7.0);
    assert_eq!(f(v4(1.0, 1.0, 1.0, 1.0).norm(&ieee)), 2.0);
    assert_eq!(f(v4(0.0, 0.0, 0.0, 0.0).norm(&ieee)), 0.0);
}

#[test]
fn normalize_changes_the_vector_and_returns_it() {
    let mut v = v3(3.0, 4.0, 0.0);
    let r = v.normalize(&ieee);
    assert_eq!(floats3(v), [3.0 / 5.0, 4.0 / 5.0, 0.0]);
    assert_eq!(floats3(r), floats3(v));
    let mut w = v4(0.0, 0.0, 0.0, 2.0);
    let r = w.normalize(&ieee);
    assert_eq!(floats4(w), [0.0, 0.0, 0.0, 1.0]);
    assert_eq!(floats4(r), [0.0, 0.0, 0.0, 1.0]);
}

#[test]
fn normalized_vectors_have_unit_length() {
    let samples = [
        [1.0f32, 2.0, 3.0],
        [-7.5, 0.25, 100.0],
        [1.0e-3, 2.0e-3, -3.0e-3],
        [0.0, 0.0, -9.0],
        [123.0, -456.0, 789.0],
    ];
    for [x, y, z] in samples {
        let mut v = v3(x, y, z);
        v.normalize(&ieee);
        assert!((f(v.norm(&ieee)) - 1.0).abs() < 1.0e-6);
        let mut w = v4(x, y, z, 1.0);
        w.normalize(&ieee);
        assert!((f(w.norm(&ieee)) - 1.0).abs() < 1.0e-6);
    }
}

#[test]
fn normalize_keeps_a_vector_of_length_zero() {
    let mut v = v3(0.0, -0.0, 0.0);
    let r = v.normalize(&ieee);
    assert_eq!([v.x.to_bits(), v.y.to_bits(), v.z.to_bits()], [0, 0x8000_0000, 0]);
    assert_eq!([r.x.to_bits(), r.y.to_bits(), r.z.to_bits()], [0, 0x8000_0000, 0]);
    let mut w = Vect4::new();
    let r = w.normalize(&ieee);
    assert_eq!(floats4(w), [0.0, 0.0, 0.0, 0.0]);
    assert_eq!(floats4(r), [0.0, 0.0, 0.0, 0.0]);
}

#[test]
fn normalize_keeps_a_vector_whose_squares_underflow() {
    // The length is computed as zero, so the vector stays as it is.
    let mut v = v3(1.0e-30, 0.0, 0.0);
    v.normalize(&ieee);
    assert_eq!(floats3(v), [1.0e-30, 0.0, 0.0]);
}
