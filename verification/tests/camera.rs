use gust_math::arithmetic::Op;
use gust_math::camera::{view_from_basis, view_matrix};
use gust_math::matrices::mat4::Mat4;
use gust_math::scalar::Scalar;
use gust_math::scene::{GameObject, Light, SceneObject};
use gust_math::vectors::vect3::Vect3;
use gust_math::vectors::vect4::Vect4;

fn s(x: f32) -> Scalar {
    Scalar::from_bits(x.to_bits())
}

fn f(x: Scalar) -> f32 {
    f32::from_bits(x.to_bits())
}

fn ieee(op: Op, a: Scalar, b: Scalar) -> Scalar {
    let (x, y) = (f(a), f(b));
    s(match op {
        Op::Add => x + y,
        Op::Sub => x - y,
        Op::Mul => x * y,
        Op::Div => x / y,
        Op::Sqrt => x.sqrt(),
        Op::Sin => x.sin(),
        Op::Cos => x.cos(),
    })
}

fn triple(x: f32, y: f32, z: f32) -> [Scalar; 3] {
    [s(x), s(y), s(z)]
}

fn v3(x: f32, y: f32, z: f32) -> Vect3 {
    Vect3::new(s(x), s(y), s(z))
}

fn floats(m: [[Scalar; 4]; 4]) -> [[f32; 4]; 4] {
    m.map(|row| row.map(f))
}

/// The view matrix as a `Mat4` that acts on a point from the left: its rows
/// are the columns of the assembled matrix.
fn acting(m: [[Scalar; 4]; 4]) -> Mat4 {
    Mat4::from_cols(
        Vect4::from(m[0]),
        Vect4::from(m[1]),
        Vect4::from(m[2]),
        Vect4::from(m[3]),
    )
}

#[test]
fn view_from_basis_lays_out_the_frame() {
    let m = view_from_basis(
        v3(1.0, 2.0, 3.0),
        v3(4.0, 5.0, 6.0),
        v3(7.0, 8.0, 9.0),
        v3(10.0, 11.0, 12.0),
    );
    assert_eq!(
        floats(m),
        [[1.0, 4.0, 7.0, 0.0], [2.0, 5.0, 8.0, 0.0], [3.0, 6.0, 9.0, 0.0], [10.0, 11.0, 12.0, 1.0]]
    );
}

#[test]
fn camera_looking_down_negative_z() {
    let m = floats(view_matrix(
        &triple(0.0, 0.0, 5.0),
        &triple(0.0, 0.0, -1.0),
        &triple(0.0, 1.0, 0.0),
        &ieee,
    ));
    assert_eq!([m[0][2], m[1][2], m[2][2]], [0.0, 0.0, -1.0]);
    assert_eq!(
        m,
        [[-1.0, 0.0, 0.0, 0.0], [0.0, 1.0, 0.0, 0.0], [0.0, 0.0, -1.0, 0.0], [0.0, 0.0, 5.0, 1.0]]
    );
}

#[test]
fn view_matrix_normalises_the_direction() {
    let m = floats(view_matrix(
        &triple(1.0, 2.0, 3.0),
        &triple(0.0, 0.0, -4.0),
        &triple(0.0, 2.0, 0.0),
        &ieee,
    ));
    assert_eq!(
        m,
        [[-1.0, 0.0, 0.0, 0.0], [0.0, 1.0, 0.0, 0.0], [0.0, 0.0, -1.0, 0.0], [1.0, -2.0, 3.0, 1.0]]
    );
}

#[test]
fn view_matrix_takes_the_camera_to_the_origin() {
    let poses = [
        ([0.0f32, 0.0, 5.0], [0.0f32, 0.0, -1.0]),
        ([1.0, 2.0, 3.0], [1.0, 0.0, 1.0]),
        ([-4.0, 0.5, 2.0], [0.3, -0.2, 0.9]),
        ([10.0, -7.0, 0.25], [-1.0, 0.1, 0.0]),
    ];
    for (p, d) in poses {
        let m = view_matrix(
            &triple(p[0], p[1], p[2]),
            &triple(d[0], d[1], d[2]),
            &triple(0.0, 1.0, 0.0),
            &ieee,
        );
        let at = acting(m).mul_point(&v3(p[0], p[1], p[2]), &ieee);
        assert!(f(at.x).abs() < 1.0e-5 && f(at.y).abs() < 1.0e-5 && f(at.z).abs() < 1.0e-5);
    }
}

#[test]
fn view_matrix_frame_is_orthonormal() {
    let m = floats(view_matrix(
        &triple(0.0, 0.0, 0.0),
        &triple(0.3, -0.2, 0.9),
        &triple(0.0, 1.0, 0.0),
        &ieee,
    ));
    let col = |j: usize| [m[0][j], m[1][j], m[2][j]];
    let dot = |a: [f32; 3], b: [f32; 3]| a[0] * b[0] + a[1] * b[1] + a[2] * b[2];
    for i in 0..3 {
        for j in 0..3 {
            let expected = if i == j { 1.0 } else { 0.0 };
            assert!((dot(col(i), col(j)) - expected).abs() < 1.0e-6);
        }
    }
}

#[test]
fn view_matrix_keeps_a_direction_of_length_zero() {
    let m = floats(view_matrix(
        &triple(1.0, 2.0, 3.0),
        &triple(0.0, 0.0, 0.0),
        &triple(0.0, 1.0, 0.0),
        &ieee,
    ));
    for row in m {
        for x in row {
            assert!(!x.is_nan());
        }
    }
    assert_eq!([m[0][2], m[1][2], m[2][2]], [0.0, 0.0, 0.0]);
    assert_eq!(m[3][3], 1.0);
}

#[test]
fn scene_objects_hold_lights_and_game_objects() {
    let light = SceneObject::Light(Light { direction: v3(1.4, 0.4, -0.7) });
    let object = SceneObject::GameObject(GameObject {
        positions: vec![v3(0.0, 0.0, 0.0), v3(1.0, 0.0, 0.0), v3(0.0, 1.0, 0.0)],
        placement: Mat4::identity(),
    });
    match light {
        SceneObject::Light(l) => assert_eq!(f(l.direction.z), -0.7),
        SceneObject::GameObject(_) => panic!("a light was stored"),
    }
    match object {
        SceneObject::GameObject(g) => {
            assert_eq!(g.positions.len(), 3);
            assert!(g.placement == Mat4::identity());
        }
        SceneObject::Light(_) => panic!("a game object was stored"),
    }
}
