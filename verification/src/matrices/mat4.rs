use vstd::prelude::*;
use vstd::std_specs::cmp::PartialEqSpecImpl;
use crate::scalar::Scalar;
use crate::arithmetic::{
    Op, is_arithmetic, sum, difference, product, sine, cosine, sum_of_products, plus, minus,
    times, sin, cos, dot4,
};
use crate::vectors::vect3::Vect3;
use crate::vectors::vect4::Vect4;

verus! {

/// The rows of a matrix: four sequences of four scalars each.
pub type Rows = Seq<Seq<Scalar>>;

/// The matrix whose element in row `i`, column `j` is `f(i, j)`.
pub open spec fn rows_of(f: spec_fn(int, int) -> Scalar) -> Rows {
    Seq::new(4, |i: int| Seq::new(4, |j: int| f(i, j)))
}

/// Four rows of four positive zeros.
pub open spec fn zero_rows() -> Rows {
    rows_of(|i: int, j: int| Scalar::spec_zero())
}

/// Ones on the diagonal, positive zeros elsewhere.
pub open spec fn identity_rows() -> Rows {
    rows_of(|i: int, j: int| if i == j { Scalar::spec_one() } else { Scalar::spec_zero() })
}

/// Row-major reading of a flat sequence: entry `k` lands in row `k / 4`,
/// column `k % 4`. Entries from the sixteenth on are ignored.
pub open spec fn rows_from_flat(flat: Seq<Scalar>) -> Rows {
    rows_of(|i: int, j: int| flat[4 * i + j])
}

/// The sixteen elements row after row.
pub open spec fn flat_from_rows(m: Rows) -> Seq<Scalar> {
    Seq::new(16, |k: int| m[k / 4][k % 4])
}

/// Rows and columns exchanged.
pub open spec fn transposed(m: Rows) -> Rows {
    rows_of(|i: int, j: int| m[j][i])
}

/// The matrix whose column `j` is `cols[j]`.
pub open spec fn rows_from_cols(cols: Seq<Seq<Scalar>>) -> Rows {
    rows_of(|i: int, j: int| cols[j][i])
}

/// The canonical scale: `v` on the first three places of the diagonal and one
/// on the fourth.
pub open spec fn scaling_rows(v: Seq<Scalar>) -> Rows {
    rows_of(
        |i: int, j: int|
            if i != j {
                Scalar::spec_zero()
            } else if i < 3 {
                v[i]
            } else {
                Scalar::spec_one()
            },
    )
}

/// The canonical translation: the identity with `v` in row 3, columns 0 to 2.
pub open spec fn translation_rows(v: Seq<Scalar>) -> Rows {
    rows_of(
        |i: int, j: int|
            if i == 3 && j < 3 {
                v[j]
            } else if i == j {
                Scalar::spec_one()
            } else {
                Scalar::spec_zero()
            },
    )
}

/// The identity with its upper left 3x3 block replaced by `block`.
pub open spec fn linear_rows(block: Seq<Seq<Scalar>>) -> Rows {
    rows_of(
        |i: int, j: int|
            if i < 3 && j < 3 {
                block[i][j]
            } else if i == j {
                Scalar::spec_one()
            } else {
                Scalar::spec_zero()
            },
    )
}

/// The change of basis to a local frame: the columns are `right`, `forward`
/// and `up`, each with a fourth component of positive zero, and then
/// (0, 0, 0, 1).
pub open spec fn basis_rows(right: Seq<Scalar>, forward: Seq<Scalar>, up: Seq<Scalar>) -> Rows {
    rows_of(
        |i: int, j: int|
            if i == 3 || j == 3 {
                if i == j {
                    Scalar::spec_one()
                } else {
                    Scalar::spec_zero()
                }
            } else if j == 0 {
                right[i]
            } else if j == 1 {
                forward[i]
            } else {
                up[i]
            },
    )
}

/// Column `j` of a matrix, from the top.
pub open spec fn column(m: Rows, j: int) -> Seq<Scalar> {
    Seq::new(4, |k: int| m[k][j])
}

/// The matrix product `a * b` under the arithmetic `f`: the element in row
/// `i`, column `j` is the sum of the products of row `i` of `a` with column
/// `j` of `b`, added from left to right.
pub open spec fn product_rows<F: Fn(Op, Scalar, Scalar) -> Scalar>(f: &F, a: Rows, b: Rows) -> Rows {
    rows_of(|i: int, j: int| sum_of_products(f, a[i], column(b, j)))
}

/// Element by element: `a` plus `b`.
pub open spec fn sum_rows<F: Fn(Op, Scalar, Scalar) -> Scalar>(f: &F, a: Rows, b: Rows) -> Rows {
    rows_of(|i: int, j: int| sum(f, a[i][j], b[i][j]))
}

/// Element by element: `a` minus `b`.
pub open spec fn difference_rows<F: Fn(Op, Scalar, Scalar) -> Scalar>(f: &F, a: Rows, b: Rows) -> Rows {
    rows_of(|i: int, j: int| difference(f, a[i][j], b[i][j]))
}

/// Every element times `k`, the element being the first operand.
pub open spec fn rows_times_scalar<F: Fn(Op, Scalar, Scalar) -> Scalar>(f: &F, a: Rows, k: Scalar) -> Rows {
    rows_of(|i: int, j: int| product(f, a[i][j], k))
}

/// `k` times every element, `k` being the first operand.
pub open spec fn scalar_times_rows<F: Fn(Op, Scalar, Scalar) -> Scalar>(f: &F, k: Scalar, a: Rows) -> Rows {
    rows_of(|i: int, j: int| product(f, k, a[i][j]))
}

/// One component of a transformed point: the first three elements of `row`
/// times the point's components, added from left to right, and then the
/// fourth element of `row` added as it is.
pub open spec fn affine_component<F: Fn(Op, Scalar, Scalar) -> Scalar>(f: &F, row: Seq<Scalar>, v: Vect3) -> Scalar {
    sum(
        f,
        sum(f, sum(f, product(f, row[0], v.x), product(f, row[1], v.y)), product(f, row[2], v.z)),
        row[3],
    )
}

/// The point `v`, taken with an implied fourth component of one, under the
/// first three rows of `m`.
pub open spec fn transformed_point<F: Fn(Op, Scalar, Scalar) -> Scalar>(f: &F, m: Rows, v: Vect3) -> Vect3 {
    Vect3 {
        x: affine_component(f, m[0], v),
        y: affine_component(f, m[1], v),
        z: affine_component(f, m[2], v),
    }
}

/// The vector `v` under `m`: component `i` is the sum of the products of row
/// `i` with `v`, all four components taking part.
pub open spec fn transformed_vector<F: Fn(Op, Scalar, Scalar) -> Scalar>(f: &F, m: Rows, v: Vect4) -> Vect4 {
    Vect4 {
        x: sum_of_products(f, m[0], v@),
        y: sum_of_products(f, m[1], v@),
        z: sum_of_products(f, m[2], v@),
        w: sum_of_products(f, m[3], v@),
    }
}

/// The nine coefficients of the rotation by `angle` radians about `axis`,
/// with `c` the cosine and `s` the sine of the angle and `t = 1 - c`:
///
/// ```text
/// t*x*x + c     t*x*y - s*z   t*x*z + s*y
/// t*x*y + s*z   t*y*y + c     t*y*z - s*x
/// t*x*z - s*y   t*y*z + s*x   t*z*z + c
/// ```
///
/// Products are taken from left to right. The axis goes in as it is: the
/// coefficients describe a rotation only where its length is one.
pub open spec fn rotation_block<F: Fn(Op, Scalar, Scalar) -> Scalar>(f: &F, angle: Scalar, axis: Vect3) -> Seq<Seq<Scalar>> {
    let c = cosine(f, angle);
    let s = sine(f, angle);
    let t = difference(f, Scalar::spec_one(), c);
    let x = axis.x;
    let y = axis.y;
    let z = axis.z;
    let txx = product(f, product(f, t, x), x);
    let txy = product(f, product(f, t, x), y);
    let txz = product(f, product(f, t, x), z);
    let tyy = product(f, product(f, t, y), y);
    let tyz = product(f, product(f, t, y), z);
    let tzz = product(f, product(f, t, z), z);
    let sx = product(f, s, x);
    let sy = product(f, s, y);
    let sz = product(f, s, z);
    seq![
        seq![sum(f, txx, c), difference(f, txy, sz), sum(f, txz, sy)],
        seq![sum(f, txy, sz), sum(f, tyy, c), difference(f, tyz, sx)],
        seq![difference(f, txz, sy), sum(f, tyz, sx), sum(f, tzz, c)],
    ]
}

/// The frame that `rotate_with_dir_and_up` aligns with: `forward` brought to
/// unit length, `right` as the unit vector along `up` cross `forward`, and
/// the up vector recomputed as the unit vector along `forward` cross `right`.
pub open spec fn frame_rows<F: Fn(Op, Scalar, Scalar) -> Scalar>(f: &F, forward: Vect3, up: Vect3) -> Rows {
    let forward = forward.spec_normalize(f);
    let right = up.spec_cross(forward, f).spec_normalize(f);
    let up = forward.spec_cross(right, f).spec_normalize(f);
    basis_rows(right@, forward@, up@)
}

/// Every element with its sign flipped.
pub open spec fn negated_rows(m: Rows) -> Rows {
    rows_of(|i: int, j: int| m[i][j].negated())
}

/// The rows of a nested array.
pub open spec fn rows_of_array(a: [[Scalar; 4]; 4]) -> Rows {
    rows_of(|i: int, j: int| a[i][j])
}

/// Numeric equality of two matrices: every pair of elements in the same place
/// compares equal as IEEE-754 numbers. No tolerance is applied.
pub open spec fn rows_num_eq(a: Rows, b: Rows) -> bool {
    forall|i: int, j: int| 0 <= i < 4 && 0 <= j < 4 ==> (#[trigger] a[i][j]).num_eq(b[i][j])
}

/// True when no element of `m` is a NaN.
pub open spec fn rows_all_numbers(m: Rows) -> bool {
    forall|i: int, j: int| 0 <= i < 4 && 0 <= j < 4 ==> !(#[trigger] m[i][j]).is_nan()
}

/// A 4x4 matrix of scalars; `self@[i][j]` is the element in row `i`, column `j`.
#[derive(Clone, Copy, Debug)]
pub struct Mat4 {
    data: [[Scalar; 4]; 4],
}

impl View for Mat4 {
    type V = Rows;

    open spec fn view(&self) -> Rows {
        rows_of(|i: int, j: int| self.elem(i, j))
    }
}

impl Mat4 {
    /// The element in row `i`, column `j`.
    pub closed spec fn elem(&self, i: int, j: int) -> Scalar {
        self.data[i][j]
    }

    /// The matrix of sixteen positive zeros.
    pub fn new() -> (r: Mat4)
        ensures
            r@ == zero_rows(),
    {
        let r = Mat4 { data: [[Scalar::zero(); 4]; 4] };
        assert(r@ =~~= zero_rows());
        r
    }

    /// Replaces row `i` and leaves the other rows as they were.
    fn put_row(&mut self, i: usize, row: [Scalar; 4])
        requires
            i < 4,
        ensures
            forall|a: int, b: int|
                0 <= a < 4 && 0 <= b < 4 ==> #[trigger] final(self).elem(a, b) == if a == i {
                    row[b]
                } else {
                    old(self).elem(a, b)
                },
    {
        self.data[i] = row;
        assert forall|a: int, b: int| 0 <= a < 4 && 0 <= b < 4 implies #[trigger] self.elem(a, b)
            == if a == i {
            row[b]
        } else {
            old(self).elem(a, b)
        } by {
            if a == i {
                assert(self.data[a] == row);
            } else {
                assert(self.data[a] == old(self).data[a]);
            }
        }
    }

    /// Reads the first sixteen entries of `data` row by row.
    pub fn from_vec(data: Vec<Scalar>) -> (r: Mat4)
        requires
            data.len() >= 16,
        ensures
            r@ == rows_from_flat(data@),
    {
        Mat4::from_slice(data.as_slice())
    }

    /// Reads the first sixteen entries of `data` row by row.
    pub fn from_slice(data: &[Scalar]) -> (r: Mat4)
        requires
            data.len() >= 16,
        ensures
            r@ == rows_from_flat(data@),
    {
        let mut mat = Mat4::new();
        for i in 0..4usize
            invariant
                data.len() >= 16,
                forall|a: int, b: int|
                    0 <= a < i && 0 <= b < 4 ==> #[trigger] mat.elem(a, b) == data@[4 * a + b],
        {
            mat.put_row(i, [data[i * 4], data[i * 4 + 1], data[i * 4 + 2], data[i * 4 + 3]]);
        }
        assert(mat@ =~~= rows_from_flat(data@));
        mat
    }

    /// The matrix whose rows are the four arrays of `slices`, all sixteen
    /// entries taken as they are.
    pub fn from_slices(slices: [[Scalar; 4]; 4]) -> (r: Mat4)
        ensures
            r@ == rows_of_array(slices),
    {
        let mut mat = Mat4::new();
        for i in 0..4usize
            invariant
                forall|a: int, b: int|
                    0 <= a < i && 0 <= b < 4 ==> #[trigger] mat.elem(a, b) == slices[a][b],
        {
            mat.put_row(i, slices[i]);
        }
        assert(mat@ =~~= rows_of_array(slices));
        mat
    }

    /// The matrix whose column `j` is `vects[j]`.
    pub fn from_vects(vects: [Vect4; 4]) -> (r: Mat4)
        ensures
            r@ == rows_from_cols(seq![vects[0]@, vects[1]@, vects[2]@, vects[3]@]),
    {
        Mat4::from_cols(vects[0], vects[1], vects[2], vects[3])
    }

    /// The matrix whose columns are `col1` to `col4`, in this order.
    pub fn from_cols(col1: Vect4, col2: Vect4, col3: Vect4, col4: Vect4) -> (r: Mat4)
        ensures
            r@ == rows_from_cols(seq![col1@, col2@, col3@, col4@]),
    {
        let ghost cols = seq![col1@, col2@, col3@, col4@];
        let mut mat = Mat4::new();
        for i in 0..4usize
            invariant
                cols == seq![col1@, col2@, col3@, col4@],
                forall|a: int, b: int|
                    0 <= a < i && 0 <= b < 4 ==> #[trigger] mat.elem(a, b) == cols[b][a],
        {
            mat.put_row(i, [col1.at(i), col2.at(i), col3.at(i), col4.at(i)]);
        }
        assert(mat@ =~~= rows_from_cols(cols));
        mat
    }

    /// Ones on the diagonal, positive zeros elsewhere.
    pub fn identity() -> (r: Mat4)
        ensures
            r@ == identity_rows(),
    {
        let o = Scalar::zero();
        let l = Scalar::one();
        let mut mat = Mat4::new();
        mat.put_row(0, [l, o, o, o]);
        mat.put_row(1, [o, l, o, o]);
        mat.put_row(2, [o, o, l, o]);
        mat.put_row(3, [o, o, o, l]);
        assert(mat@ =~~= identity_rows());
        mat
    }

    /// The sixteen elements row after row.
    pub fn to_vec(&self) -> (r: Vec<Scalar>)
        ensures
            r@ == flat_from_rows(self@),
    {
        let mut vec: Vec<Scalar> = Vec::with_capacity(16);
        for i in 0..4usize
            invariant
                vec.len() == 4 * i,
                forall|k: int| 0 <= k < 4 * i ==> #[trigger] vec@[k] == self.elem(k / 4, k % 4),
        {
            vec.push(self.data[i][0]);
            vec.push(self.data[i][1]);
            vec.push(self.data[i][2]);
            vec.push(self.data[i][3]);
        }
        assert(vec@ =~= flat_from_rows(self@));
        vec
    }

    /// The sixteen elements row after row.
    pub fn to_slice(&self) -> (r: [Scalar; 16])
        ensures
            r@ == flat_from_rows(self@),
    {
        let mut slice = [Scalar::zero(); 16];
        for i in 0..4usize
            invariant
                forall|k: int| 0 <= k < 4 * i ==> #[trigger] slice@[k] == self.elem(k / 4, k % 4),
        {
            slice[i * 4] = self.data[i][0];
            slice[i * 4 + 1] = self.data[i][1];
            slice[i * 4 + 2] = self.data[i][2];
            slice[i * 4 + 3] = self.data[i][3];
        }
        assert(slice@ =~= flat_from_rows(self@));
        slice
    }

    /// The four rows as a nested array.
    pub fn to_slices(&self) -> (r: [[Scalar; 4]; 4])
        ensures
            rows_of_array(r) == self@,
    {
        assert(rows_of_array(self.data) =~~= self@);
        self.data
    }

    /// Rows and columns exchanged.
    pub fn transpose(&self) -> (r: Mat4)
        ensures
            r@ == transposed(self@),
    {
        let mut mat = Mat4::new();
        for i in 0..4usize
            invariant
                forall|a: int, b: int|
                    0 <= a < i && 0 <= b < 4 ==> #[trigger] mat.elem(a, b) == self.elem(b, a),
        {
            mat.put_row(i, [self.data[0][i], self.data[1][i], self.data[2][i], self.data[3][i]]);
        }
        assert(mat@ =~~= transposed(self@));
        mat
    }

    /// The canonical scale matrix of `scale`. Scaling a matrix `m` is the
    /// product of `m` on the left and this matrix on the right.
    pub fn scaling(scale: Vect3) -> (r: Mat4)
        ensures
            r@ == scaling_rows(scale@),
    {
        let o = Scalar::zero();
        let mut mat = Mat4::new();
        mat.put_row(0, [scale.at(0), o, o, o]);
        mat.put_row(1, [o, scale.at(1), o, o]);
        mat.put_row(2, [o, o, scale.at(2), o]);
        mat.put_row(3, [o, o, o, Scalar::one()]);
        assert(mat@ =~~= scaling_rows(scale@));
        mat
    }

    /// The canonical translation matrix of `translation`: the identity with
    /// the vector in row 3, columns 0 to 2. Translating a matrix `m` is the
    /// product of `m` on the left and this matrix on the right.
    pub fn translation(translation: Vect3) -> (r: Mat4)
        ensures
            r@ == translation_rows(translation@),
            r@[3].subrange(0, 3) == translation@,
    {
        let o = Scalar::zero();
        let l = Scalar::one();
        let mut mat = Mat4::new();
        mat.put_row(0, [l, o, o, o]);
        mat.put_row(1, [o, l, o, o]);
        mat.put_row(2, [o, o, l, o]);
        mat.put_row(3, [translation.at(0), translation.at(1), translation.at(2), l]);
        assert(mat@ =~~= translation_rows(translation@));
        assert(mat@[3].subrange(0, 3) =~= translation@);
        mat
    }

    /// The canonical matrix of a linear map: the identity with its upper left
    /// 3x3 block replaced by `block`. A rotation about an axis is built this
    /// way from its nine coefficients, and rotating a matrix `m` is the
    /// product of `m` on the left and this matrix on the right.
    pub fn linear(block: [[Scalar; 3]; 3]) -> (r: Mat4)
        ensures
            r@ == linear_rows(seq![block[0]@, block[1]@, block[2]@]),
    {
        let o = Scalar::zero();
        let mut mat = Mat4::new();
        for i in 0..3usize
            invariant
                o == Scalar::spec_zero(),
                forall|a: int, b: int|
                    0 <= a < i && 0 <= b < 4 ==> #[trigger] mat.elem(a, b) == if b < 3 {
                        block[a][b]
                    } else {
                        Scalar::spec_zero()
                    },
        {
            mat.put_row(i, [block[i][0], block[i][1], block[i][2], o]);
        }
        mat.put_row(3, [o, o, o, Scalar::one()]);
        assert(mat@ =~~= linear_rows(seq![block[0]@, block[1]@, block[2]@]));
        mat
    }

    /// The canonical matrix that aligns local axes with a frame: its columns
    /// are `right`, `forward`, `up` and (0, 0, 0, 1), in this order. The three
    /// vectors are taken as they are.
    pub fn basis(right: Vect3, forward: Vect3, up: Vect3) -> (r: Mat4)
        ensures
            r@ == basis_rows(right@, forward@, up@),
    {
        let o = Scalar::zero();
        let last = Vect4 { x: o, y: o, z: o, w: Scalar::one() };
        let mat = Mat4::from_cols(Vect4::from(right), Vect4::from(forward), Vect4::from(up), last);
        assert(mat@ =~~= basis_rows(right@, forward@, up@));
        mat
    }

    /// The product of one row with every column of a matrix, given that
    /// matrix transposed.
    fn row_times<F: Fn(Op, Scalar, Scalar) -> Scalar>(row: &[Scalar; 4], cols: &Mat4, f: &F) -> (r: [Scalar; 4])
        requires
            is_arithmetic(f),
        ensures
            forall|j: int|
                0 <= j < 4 ==> #[trigger] r[j] == sum_of_products(f, row@, column(transposed(cols@), j)),
    {
        let r = [
            dot4(f, row, &cols.data[0]),
            dot4(f, row, &cols.data[1]),
            dot4(f, row, &cols.data[2]),
            dot4(f, row, &cols.data[3]),
        ];
        assert forall|j: int| 0 <= j < 4 implies #[trigger] r[j] == sum_of_products(
            f,
            row@,
            column(transposed(cols@), j),
        ) by {
            assert(cols.data[j]@ =~= column(transposed(cols@), j));
        }
        r
    }

    /// The matrix product `self * other`.
    pub fn dot<F: Fn(Op, Scalar, Scalar) -> Scalar>(&self, other: &Mat4, f: &F) -> (r: Mat4)
        requires
            is_arithmetic(f),
        ensures
            r@ == product_rows(f, self@, other@),
    {
        let cols = other.transpose();
        assert(transposed(cols@) =~~= other@);
        let mut mat = Mat4::new();
        for i in 0..4usize
            invariant
                is_arithmetic(f),
                transposed(cols@) == other@,
                forall|a: int, b: int|
                    0 <= a < i && 0 <= b < 4 ==> #[trigger] mat.elem(a, b) == sum_of_products(
                        f,
                        self@[a],
                        column(other@, b),
                    ),
        {
            assert(self.data[i as int]@ =~= self@[i as int]);
            let row = Mat4::row_times(&self.data[i], &cols, f);
            mat.put_row(i, row);
        }
        assert(mat@ =~~= product_rows(f, self@, other@));
        mat
    }

    /// The matrix product `self * other`: the same as [`Mat4::dot`].
    pub fn mul<F: Fn(Op, Scalar, Scalar) -> Scalar>(&self, other: &Mat4, f: &F) -> (r: Mat4)
        requires
            is_arithmetic(f),
        ensures
            r@ == product_rows(f, self@, other@),
    {
        self.dot(other, f)
    }

    /// Transforms a point. The point is taken with an implied fourth
    /// component of one: the fourth element of each of the first three rows
    /// is added to the products as it is. The fourth row takes no part.
    pub fn mul_point<F: Fn(Op, Scalar, Scalar) -> Scalar>(&self, v: &Vect3, f: &F) -> (r: Vect3)
        requires
            is_arithmetic(f),
        ensures
            r == transformed_point(f, self@, *v),
    {
        let mut out = [Scalar::zero(); 3];
        for i in 0..3usize
            invariant
                is_arithmetic(f),
                forall|a: int| 0 <= a < i ==> #[trigger] out[a] == affine_component(f, self@[a], *v),
        {
            let row = self.data[i];
            assert(row@ =~= self@[i as int]);
            let p0 = times(f, row[0], v.x);
            let p1 = times(f, row[1], v.y);
            let p2 = times(f, row[2], v.z);
            out[i] = plus(f, plus(f, plus(f, p0, p1), p2), row[3]);
        }
        Vect3 { x: out[0], y: out[1], z: out[2] }
    }

    /// Transforms a vector of four components, all four taking part.
    pub fn mul_vector<F: Fn(Op, Scalar, Scalar) -> Scalar>(&self, v: &Vect4, f: &F) -> (r: Vect4)
        requires
            is_arithmetic(f),
        ensures
            r == transformed_vector(f, self@, *v),
    {
        let col = v.to_array();
        let mut out = [Scalar::zero(); 4];
        for i in 0..4usize
            invariant
                is_arithmetic(f),
                col@ == v@,
                forall|a: int| 0 <= a < i ==> #[trigger] out[a] == sum_of_products(f, self@[a], v@),
        {
            assert(self.data[i as int]@ =~= self@[i as int]);
            out[i] = dot4(f, &self.data[i], &col);
        }
        Vect4 { x: out[0], y: out[1], z: out[2], w: out[3] }
    }

    /// Every element times `k`.
    pub fn mul_scalar<F: Fn(Op, Scalar, Scalar) -> Scalar>(&self, k: Scalar, f: &F) -> (r: Mat4)
        requires
            is_arithmetic(f),
        ensures
            r@ == rows_times_scalar(f, self@, k),
    {
        let mut mat = Mat4::new();
        for i in 0..4usize
            invariant
                is_arithmetic(f),
                forall|a: int, b: int|
                    0 <= a < i && 0 <= b < 4 ==> #[trigger] mat.elem(a, b) == product(
                        f,
                        self.elem(a, b),
                        k,
                    ),
        {
            let row = self.data[i];
            mat.put_row(
                i,
                [times(f, row[0], k), times(f, row[1], k), times(f, row[2], k), times(f, row[3], k)],
            );
        }
        assert(mat@ =~~= rows_times_scalar(f, self@, k));
        mat
    }

    /// `k` times every element of `m`.
    pub fn scalar_mul<F: Fn(Op, Scalar, Scalar) -> Scalar>(k: Scalar, m: &Mat4, f: &F) -> (r: Mat4)
        requires
            is_arithmetic(f),
        ensures
            r@ == scalar_times_rows(f, k, m@),
    {
        let mut mat = Mat4::new();
        for i in 0..4usize
            invariant
                is_arithmetic(f),
                forall|a: int, b: int|
                    0 <= a < i && 0 <= b < 4 ==> #[trigger] mat.elem(a, b) == product(
                        f,
                        k,
                        m.elem(a, b),
                    ),
        {
            let row = m.data[i];
            mat.put_row(
                i,
                [times(f, k, row[0]), times(f, k, row[1]), times(f, k, row[2]), times(f, k, row[3])],
            );
        }
        assert(mat@ =~~= scalar_times_rows(f, k, m@));
        mat
    }

    /// Element by element: `self` plus `other`.
    pub fn add<F: Fn(Op, Scalar, Scalar) -> Scalar>(&self, other: &Mat4, f: &F) -> (r: Mat4)
        requires
            is_arithmetic(f),
        ensures
            r@ == sum_rows(f, self@, other@),
    {
        let mut mat = Mat4::new();
        for i in 0..4usize
            invariant
                is_arithmetic(f),
                forall|a: int, b: int|
                    0 <= a < i && 0 <= b < 4 ==> #[trigger] mat.elem(a, b) == sum(
                        f,
                        self.elem(a, b),
                        other.elem(a, b),
                    ),
        {
            let p = self.data[i];
            let q = other.data[i];
            mat.put_row(
                i,
                [plus(f, p[0], q[0]), plus(f, p[1], q[1]), plus(f, p[2], q[2]), plus(f, p[3], q[3])],
            );
        }
        assert(mat@ =~~= sum_rows(f, self@, other@));
        mat
    }

    /// Element by element: `self` minus `other`.
    pub fn sub<F: Fn(Op, Scalar, Scalar) -> Scalar>(&self, other: &Mat4, f: &F) -> (r: Mat4)
        requires
            is_arithmetic(f),
        ensures
            r@ == difference_rows(f, self@, other@),
    {
        let mut mat = Mat4::new();
        for i in 0..4usize
            invariant
                is_arithmetic(f),
                forall|a: int, b: int|
                    0 <= a < i && 0 <= b < 4 ==> #[trigger] mat.elem(a, b) == difference(
                        f,
                        self.elem(a, b),
                        other.elem(a, b),
                    ),
        {
            let p = self.data[i];
            let q = other.data[i];
            mat.put_row(
                i,
                [
                    minus(f, p[0], q[0]),
                    minus(f, p[1], q[1]),
                    minus(f, p[2], q[2]),
                    minus(f, p[3], q[3]),
                ],
            );
        }
        assert(mat@ =~~= difference_rows(f, self@, other@));
        mat
    }

    /// Scales in the frame that `self` has already set up: `self` times the
    /// canonical scale matrix of `scale`.
    pub fn scale<F: Fn(Op, Scalar, Scalar) -> Scalar>(&self, scale: Vect3, f: &F) -> (r: Mat4)
        requires
            is_arithmetic(f),
        ensures
            r@ == product_rows(f, self@, scaling_rows(scale@)),
    {
        self.dot(&Mat4::scaling(scale), f)
    }

    /// Rotates by `angle` radians about `axis`, in the frame that `self` has
    /// already set up: `self` times the rotation matrix. The axis is taken as
    /// it is; the caller passes one of unit length.
    pub fn rotate<F: Fn(Op, Scalar, Scalar) -> Scalar>(&self, angle: Scalar, axis: Vect3, f: &F) -> (r: Mat4)
        requires
            is_arithmetic(f),
        ensures
            r@ == product_rows(f, self@, linear_rows(rotation_block(f, angle, axis))),
    {
        let c = cos(f, angle);
        let s = sin(f, angle);
        let t = minus(f, Scalar::one(), c);
        let x = axis.x;
        let y = axis.y;
        let z = axis.z;
        let txx = times(f, times(f, t, x), x);
        let txy = times(f, times(f, t, x), y);
        let txz = times(f, times(f, t, x), z);
        let tyy = times(f, times(f, t, y), y);
        let tyz = times(f, times(f, t, y), z);
        let tzz = times(f, times(f, t, z), z);
        let sx = times(f, s, x);
        let sy = times(f, s, y);
        let sz = times(f, s, z);
        let block = [
            [plus(f, txx, c), minus(f, txy, sz), plus(f, txz, sy)],
            [plus(f, txy, sz), plus(f, tyy, c), minus(f, tyz, sx)],
            [minus(f, txz, sy), plus(f, tyz, sx), plus(f, tzz, c)],
        ];
        assert(seq![block[0]@, block[1]@, block[2]@] =~~= rotation_block(f, angle, axis));
        self.dot(&Mat4::linear(block), f)
    }

    /// Aligns the local axes with a viewing direction: `self` times the
    /// matrix whose columns are the right, forward and recomputed up vectors
    /// of the frame, each of unit length, and (0, 0, 0, 1).
    pub fn rotate_with_dir_and_up<F: Fn(Op, Scalar, Scalar) -> Scalar>(&self, forward: Vect3, up: Vect3, f: &F) -> (r: Mat4)
        requires
            is_arithmetic(f),
        ensures
            r@ == product_rows(f, self@, frame_rows(f, forward, up)),
    {
        let mut forward = forward;
        forward.normalize(f);
        let mut right = up.cross(&forward, f);
        right.normalize(f);
        let mut up = forward.cross(&right, f);
        up.normalize(f);
        self.dot(&Mat4::basis(right, forward, up), f)
    }

    /// Translates in the frame that `self` has already set up: `self` times
    /// the canonical translation matrix of `translation`.
    pub fn translate<F: Fn(Op, Scalar, Scalar) -> Scalar>(&self, translation: Vect3, f: &F) -> (r: Mat4)
        requires
            is_arithmetic(f),
        ensures
            r@ == product_rows(f, self@, translation_rows(translation@)),
    {
        self.dot(&Mat4::translation(translation), f)
    }

    /// Every element with its sign flipped.
    pub fn neg(&self) -> (r: Mat4)
        ensures
            r@ == negated_rows(self@),
    {
        let mut mat = Mat4::new();
        for i in 0..4usize
            invariant
                forall|a: int, b: int|
                    0 <= a < i && 0 <= b < 4 ==> #[trigger] mat.elem(a, b) == self.elem(
                        a,
                        b,
                    ).negated(),
        {
            mat.put_row(
                i,
                [
                    self.data[i][0].neg(),
                    self.data[i][1].neg(),
                    self.data[i][2].neg(),
                    self.data[i][3].neg(),
                ],
            );
        }
        assert(mat@ =~~= negated_rows(self@));
        mat
    }

    /// The element in row `i`, column `j`.
    pub fn at(&self, i: usize, j: usize) -> (r: Scalar)
        requires
            i < 4,
            j < 4,
        ensures
            r == self@[i as int][j as int],
    {
        self.data[i][j]
    }

    /// Row `i`.
    pub fn row(&self, i: usize) -> (r: [Scalar; 4])
        requires
            i < 4,
        ensures
            r@ == self@[i as int],
    {
        assert(self.data[i as int]@ =~= self@[i as int]);
        self.data[i]
    }

    /// Replaces the element in row `i`, column `j` and leaves the other
    /// fifteen as they were.
    pub fn set(&mut self, i: usize, j: usize, value: Scalar)
        requires
            i < 4,
            j < 4,
        ensures
            final(self)@ == old(self)@.update(i as int, old(self)@[i as int].update(j as int, value)),
    {
        let mut row = self.data[i];
        row[j] = value;
        self.put_row(i, row);
        assert(self@ =~~= old(self)@.update(
            i as int,
            old(self)@[i as int].update(j as int, value),
        ));
    }
}

/// `==` on matrices is numeric equality, element by element.
impl PartialEq for Mat4 {
    fn eq(&self, other: &Mat4) -> (r: bool) {
        for i in 0..4usize
            invariant
                forall|a: int, b: int|
                    0 <= a < i && 0 <= b < 4 ==> (#[trigger] self.elem(a, b)).num_eq(
                        other.elem(a, b),
                    ),
        {
            for j in 0..4usize
                invariant
                    i < 4,
                    forall|a: int, b: int|
                        0 <= a < i && 0 <= b < 4 ==> (#[trigger] self.elem(a, b)).num_eq(
                            other.elem(a, b),
                        ),
                    forall|b: int|
                        0 <= b < j ==> (#[trigger] self.elem(i as int, b)).num_eq(
                            other.elem(i as int, b),
                        ),
            {
                if !(self.data[i][j] == other.data[i][j]) {
                    assert(!self@[i as int][j as int].num_eq(other@[i as int][j as int]));
                    return false;
                }
            }
        }
        assert forall|a: int, b: int| 0 <= a < 4 && 0 <= b < 4 implies (#[trigger] self@[a][b]).num_eq(
            other@[a][b],
        ) by {
            assert(self.elem(a, b).num_eq(other.elem(a, b)));
        }
        true
    }
}

impl PartialEqSpecImpl for Mat4 {
    open spec fn obeys_eq_spec() -> bool {
        true
    }

    open spec fn eq_spec(&self, other: &Mat4) -> bool {
        rows_num_eq(self@, other@)
    }
}

/// Two matrices with the same rows are the same matrix.
pub proof fn lemma_rows_determine(a: Mat4, b: Mat4)
    requires
        a@ == b@,
    ensures
        a == b,
{
    assert forall|i: int| 0 <= i < 4 implies a.data[i] == b.data[i] by {
        assert forall|j: int| 0 <= j < 4 implies a.data[i][j] == b.data[i][j] by {
            assert(a@[i][j] == a.elem(i, j));
            assert(b@[i][j] == b.elem(i, j));
        }
        assert(a.data[i] =~= b.data[i]);
    }
    assert(a.data =~= b.data);
}

/// Transposing twice gives the matrix back, bit for bit: if `once` is the
/// transpose of `a` and `twice` the transpose of `once`, then `twice` is `a`.
pub proof fn lemma_transpose_involution(a: Mat4, once: Mat4, twice: Mat4)
    requires
        once@ == transposed(a@),
        twice@ == transposed(once@),
    ensures
        twice == a,
        transposed(transposed(a@)) == a@,
{
    assert(transposed(transposed(a@)) =~~= a@);
    lemma_rows_determine(twice, a);
}

/// A matrix compares equal to itself exactly when none of its elements is a
/// NaN. So `==` holds between a matrix and its double transpose exactly when
/// the matrix holds no NaN.
pub proof fn lemma_num_eq_reflexive(a: Mat4)
    ensures
        rows_num_eq(a@, a@) <==> rows_all_numbers(a@),
        rows_num_eq(transposed(transposed(a@)), a@) <==> rows_all_numbers(a@),
{
    assert(transposed(transposed(a@)) =~~= a@);
    if rows_num_eq(a@, a@) {
        assert forall|i: int, j: int| 0 <= i < 4 && 0 <= j < 4 implies !(#[trigger] a@[i][j]).is_nan() by {
            assert(a@[i][j].num_eq(a@[i][j]));
        }
    }
}

} // verus!
