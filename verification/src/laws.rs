use vstd::prelude::*;
use crate::scalar::Scalar;
use crate::arithmetic::{Op, sum, product, sum_of_products};
use crate::vectors::vect3::Vect3;
use crate::matrices::mat4::{
    Mat4, Rows, column, identity_rows, product_rows, rows_num_eq, rows_times_scalar, scalar_times_rows,
    transformed_point, translation_rows, transposed,
};

verus! {

/// The arithmetic `f` treats `x` as exact arithmetic would when it meets zero
/// and one: a product with one compares equal to `x`, and a product with
/// positive zero is a zero. IEEE-754 arithmetic does so for every finite `x`,
/// and for no other.
pub open spec fn respects_zero_and_one<F: Fn(Op, Scalar, Scalar) -> Scalar>(
    f: &F,
    x: Scalar,
) -> bool {
    &&& product(f, x, Scalar::spec_one()).num_eq(x)
    &&& product(f, Scalar::spec_one(), x).num_eq(x)
    &&& product(f, x, Scalar::spec_zero()).is_zero()
    &&& product(f, Scalar::spec_zero(), x).is_zero()
}

/// Adding a zero of either sign, on either side, to a number gives a scalar
/// that compares equal to that number. IEEE-754 addition does so.
pub open spec fn zero_is_neutral<F: Fn(Op, Scalar, Scalar) -> Scalar>(f: &F) -> bool {
    forall|y: Scalar, z: Scalar|
        !y.is_nan() && z.is_zero() ==> (#[trigger] sum(f, y, z)).num_eq(y) && sum(f, z, y).num_eq(y)
}

/// Every element of `m` is treated as [`respects_zero_and_one`] says.
pub open spec fn rows_respect_zero_and_one<F: Fn(Op, Scalar, Scalar) -> Scalar>(
    f: &F,
    m: Rows,
) -> bool {
    forall|i: int, j: int|
        0 <= i < 4 && 0 <= j < 4 ==> respects_zero_and_one(f, #[trigger] m[i][j])
}

/// The laws of the arithmetic `f` at zero and one: adding a zero changes no
/// number, and every finite scalar is treated as [`respects_zero_and_one`]
/// says. IEEE-754 arithmetic obeys them.
pub open spec fn exact_at_zero_and_one<F: Fn(Op, Scalar, Scalar) -> Scalar>(f: &F) -> bool {
    &&& zero_is_neutral(f)
    &&& forall|x: Scalar| #[trigger] x.is_finite() ==> respects_zero_and_one(f, x)
}

/// Every element of `m` is finite.
pub open spec fn rows_all_finite(m: Rows) -> bool {
    forall|i: int, j: int| 0 <= i < 4 && 0 <= j < 4 ==> (#[trigger] m[i][j]).is_finite()
}

/// Zero and one are finite.
proof fn lemma_zero_and_one_finite()
    ensures
        Scalar::spec_zero().is_finite(),
        Scalar::spec_one().is_finite(),
{
    assert(0u32 & 0x7fff_ffffu32 < 0x7f80_0000u32) by (bit_vector);
    assert(0x3f80_0000u32 & 0x7fff_ffffu32 < 0x7f80_0000u32) by (bit_vector);
}

/// A sum of four terms of which all but the one at place `k` are zeros
/// compares equal to whatever that term compares equal to.
proof fn lemma_sum_with_zeros<F: Fn(Op, Scalar, Scalar) -> Scalar>(
    f: &F,
    p0: Scalar,
    p1: Scalar,
    p2: Scalar,
    p3: Scalar,
    k: int,
    x: Scalar,
)
    requires
        zero_is_neutral(f),
        0 <= k < 4,
        k == 0 ==> p0.num_eq(x),
        k == 1 ==> p1.num_eq(x),
        k == 2 ==> p2.num_eq(x),
        k == 3 ==> p3.num_eq(x),
        k != 0 ==> p0.is_zero(),
        k != 1 ==> p1.is_zero(),
        k != 2 ==> p2.is_zero(),
        k != 3 ==> p3.is_zero(),
    ensures
        sum(f, sum(f, sum(f, p0, p1), p2), p3).num_eq(x),
{
    let s1 = sum(f, p0, p1);
    let s2 = sum(f, s1, p2);
    let s3 = sum(f, s2, p3);
    // After the first sum: equal to x if the term has passed, a zero if not.
    assert(if k <= 1 { s1.num_eq(x) } else { s1.is_zero() }) by {
        if k == 0 {
            assert(sum(f, p0, p1).num_eq(p0));
        } else if k == 1 {
            assert(sum(f, p1, p0).num_eq(p1));
        } else {
            assert(sum(f, p0, p1).num_eq(p0));
        }
    }
    assert(if k <= 2 { s2.num_eq(x) } else { s2.is_zero() }) by {
        if k <= 1 {
            assert(sum(f, s1, p2).num_eq(s1));
        } else if k == 2 {
            assert(sum(f, p2, s1).num_eq(p2));
        } else {
            assert(sum(f, s1, p2).num_eq(s1));
        }
    }
    assert(s3.num_eq(x)) by {
        if k <= 2 {
            assert(sum(f, s2, p3).num_eq(s2));
        } else {
            assert(sum(f, p3, s2).num_eq(p3));
        }
    }
}

/// The identity is neutral for the matrix product, on either side: for every
/// matrix `a` of finite elements, `a * I` and `I * a` compare equal to `a`,
/// element by element, under an arithmetic that obeys the laws at zero and
/// one. A matrix with an infinite element or a NaN is left out: there
/// a product with zero is no zero.
pub proof fn lemma_identity_neutral<F: Fn(Op, Scalar, Scalar) -> Scalar>(f: &F, a: Mat4)
    requires
        exact_at_zero_and_one(f),
        rows_all_finite(a@),
    ensures
        rows_num_eq(product_rows(f, a@, identity_rows()), a@),
        rows_num_eq(product_rows(f, identity_rows(), a@), a@),
{
    assert forall|i: int, j: int| 0 <= i < 4 && 0 <= j < 4 implies respects_zero_and_one(
        f,
        #[trigger] a@[i][j],
    ) by {
        assert(a@[i][j].is_finite());
    }
    lemma_identity_neutral_rows(f, a@);
}

/// The same for any four rows of four scalars.
proof fn lemma_identity_neutral_rows<F: Fn(Op, Scalar, Scalar) -> Scalar>(f: &F, a: Rows)
    requires
        a.len() == 4,
        forall|i: int| 0 <= i < 4 ==> (#[trigger] a[i]).len() == 4,
        zero_is_neutral(f),
        rows_respect_zero_and_one(f, a),
    ensures
        rows_num_eq(product_rows(f, a, identity_rows()), a),
        rows_num_eq(product_rows(f, identity_rows(), a), a),
{
    let id = identity_rows();
    let right = product_rows(f, a, id);
    let left = product_rows(f, id, a);
    assert forall|i: int, j: int| 0 <= i < 4 && 0 <= j < 4 implies (#[trigger] right[i][j]).num_eq(
        a[i][j],
    ) by {
        let col = column(id, j);
        assert(respects_zero_and_one(f, a[i][0]));
        assert(respects_zero_and_one(f, a[i][1]));
        assert(respects_zero_and_one(f, a[i][2]));
        assert(respects_zero_and_one(f, a[i][3]));
        lemma_sum_with_zeros(
            f,
            product(f, a[i][0], col[0]),
            product(f, a[i][1], col[1]),
            product(f, a[i][2], col[2]),
            product(f, a[i][3], col[3]),
            j,
            a[i][j],
        );
        assert(right[i][j] == sum_of_products(f, a[i], col));
    }
    assert forall|i: int, j: int| 0 <= i < 4 && 0 <= j < 4 implies (#[trigger] left[i][j]).num_eq(
        a[i][j],
    ) by {
        let col = column(a, j);
        assert(respects_zero_and_one(f, a[0][j]));
        assert(respects_zero_and_one(f, a[1][j]));
        assert(respects_zero_and_one(f, a[2][j]));
        assert(respects_zero_and_one(f, a[3][j]));
        lemma_sum_with_zeros(
            f,
            product(f, id[i][0], col[0]),
            product(f, id[i][1], col[1]),
            product(f, id[i][2], col[2]),
            product(f, id[i][3], col[3]),
            i,
            a[i][j],
        );
        assert(left[i][j] == sum_of_products(f, id[i], col));
    }
}

/// The translation lands in row 3: for every `v` of finite components, the
/// identity translated by `v` compares equal to the canonical translation
/// matrix in all sixteen places, under an arithmetic that obeys the laws at
/// zero and one. So its row 3 holds `v` in columns 0 to 2 and one in column
/// 3, and its first three rows are those of the identity: column 3 stays
/// zero above the last row.
pub proof fn lemma_translation_lands_in_row_3<F: Fn(Op, Scalar, Scalar) -> Scalar>(f: &F, v: Vect3)
    requires
        exact_at_zero_and_one(f),
        v.x.is_finite(),
        v.y.is_finite(),
        v.z.is_finite(),
    ensures
        translation_rows(v@)[3].subrange(0, 3) == v@,
        rows_num_eq(
            product_rows(f, identity_rows(), translation_rows(v@)),
            translation_rows(v@),
        ),
        ({
            let moved = product_rows(f, identity_rows(), translation_rows(v@));
            &&& forall|j: int| 0 <= j < 3 ==> (#[trigger] moved[3][j]).num_eq(v@[j])
            &&& moved[3][3].num_eq(Scalar::spec_one())
            &&& forall|i: int, j: int|
                0 <= i < 3 && 0 <= j < 4 ==> (#[trigger] moved[i][j]).num_eq(identity_rows()[i][j])
        }),
{
    let t = translation_rows(v@);
    assert(t[3].subrange(0, 3) =~= v@);
    lemma_zero_and_one_finite();
    assert forall|i: int, j: int| 0 <= i < 4 && 0 <= j < 4 implies respects_zero_and_one(
        f,
        #[trigger] t[i][j],
    ) by {
        if i == 3 && j < 3 {
            assert(t[i][j] == v@[j]);
        }
        assert(t[i][j].is_finite());
    }
    lemma_identity_neutral_rows(f, t);
    let moved = product_rows(f, identity_rows(), t);
    assert forall|j: int| 0 <= j < 3 implies (#[trigger] moved[3][j]).num_eq(v@[j]) by {
        assert(moved[3][j].num_eq(t[3][j]));
    }
    assert(moved[3][3].num_eq(t[3][3]));
    assert forall|i: int, j: int| 0 <= i < 3 && 0 <= j < 4 implies (#[trigger] moved[i][j]).num_eq(
        identity_rows()[i][j],
    ) by {
        assert(moved[i][j].num_eq(t[i][j]));
    }
}

/// A translation matrix keeps its vector in row 3, so it moves a point that
/// stands to its left. Transforming a point multiplies from the right:
/// applied as it stands the matrix sends the origin to a zero vector, and it
/// is the transposed matrix that sends the origin to `v`.
pub proof fn lemma_translation_moves_origin<F: Fn(Op, Scalar, Scalar) -> Scalar>(f: &F, v: Vect3)
    requires
        exact_at_zero_and_one(f),
        !v.x.is_nan(),
        !v.y.is_nan(),
        !v.z.is_nan(),
    ensures
        ({
            let origin = Vect3 {
                x: Scalar::spec_zero(),
                y: Scalar::spec_zero(),
                z: Scalar::spec_zero(),
            };
            let moved = transformed_point(f, transposed(translation_rows(v@)), origin);
            let kept = transformed_point(f, translation_rows(v@), origin);
            &&& moved.x.num_eq(v.x)
            &&& moved.y.num_eq(v.y)
            &&& moved.z.num_eq(v.z)
            &&& kept.x.is_zero()
            &&& kept.y.is_zero()
            &&& kept.z.is_zero()
        }),
{
    let o = Scalar::spec_zero();
    let l = Scalar::spec_one();
    lemma_zero_and_one_finite();
    assert(respects_zero_and_one(f, o));
    let zz = product(f, o, o);
    let lz = product(f, l, o);
    assert(zz.is_zero());
    assert(lz.is_zero()) by {
        assert(0u32 & 0x7fff_ffffu32 == 0) by (bit_vector);
    }
    // Two zeros add up to a zero, and so do three.
    assert(sum(f, zz, zz).num_eq(zz));
    assert(sum(f, lz, zz).num_eq(lz));
    assert(sum(f, zz, lz).num_eq(zz));
    assert(sum(f, sum(f, zz, zz), zz).num_eq(sum(f, zz, zz)));
    assert(sum(f, sum(f, lz, zz), zz).num_eq(sum(f, lz, zz)));
    assert(sum(f, sum(f, zz, lz), zz).num_eq(sum(f, zz, lz)));
    assert(sum(f, sum(f, zz, zz), lz).num_eq(sum(f, zz, zz)));
    // The fourth element of the row is added last.
    assert(sum(f, v.x, sum(f, sum(f, lz, zz), zz)).num_eq(v.x));
    assert(sum(f, v.y, sum(f, sum(f, zz, lz), zz)).num_eq(v.y));
    assert(sum(f, v.z, sum(f, sum(f, zz, zz), lz)).num_eq(v.z));
    assert(sum(f, sum(f, sum(f, lz, zz), zz), o).num_eq(sum(f, sum(f, lz, zz), zz)));
    assert(sum(f, sum(f, sum(f, zz, lz), zz), o).num_eq(sum(f, sum(f, zz, lz), zz)));
    assert(sum(f, sum(f, sum(f, zz, zz), lz), o).num_eq(sum(f, sum(f, zz, zz), lz)));
}

/// A scalar times a matrix is the same from either side wherever the
/// arithmetic's product does not depend on the order of its operands.
pub proof fn lemma_scalar_product_commutes<F: Fn(Op, Scalar, Scalar) -> Scalar>(
    f: &F,
    k: Scalar,
    a: Mat4,
)
    requires
        forall|x: Scalar, y: Scalar| #[trigger] product(f, x, y) == product(f, y, x),
    ensures
        rows_times_scalar(f, a@, k) == scalar_times_rows(f, k, a@),
{
    assert(rows_times_scalar(f, a@, k) =~~= scalar_times_rows(f, k, a@));
}

/// A reading of scalars as integers under which the arithmetic `f` is exact:
/// `holds` says which scalars stand for an integer and `val` for which one.
/// Where both operands stand for integers and the true sum or product lies
/// within `limit` of zero, the result stands for that sum or product; and
/// two scalars that stand for the same integer compare equal. IEEE-754
/// single precision is exact in this way on the integers up to 2^24.
pub open spec fn exact_on_integers<F: Fn(Op, Scalar, Scalar) -> Scalar>(
    f: &F,
    holds: spec_fn(Scalar) -> bool,
    val: spec_fn(Scalar) -> int,
    limit: int,
) -> bool {
    &&& forall|a: Scalar, b: Scalar|
        holds(a) && holds(b) && -limit <= val(a) + val(b) <= limit ==> holds(
            #[trigger] sum(f, a, b),
        ) && val(sum(f, a, b)) == val(a) + val(b)
    &&& forall|a: Scalar, b: Scalar|
        holds(a) && holds(b) && -limit <= val(a) * val(b) <= limit ==> holds(
            #[trigger] product(f, a, b),
        ) && val(product(f, a, b)) == val(a) * val(b)
    &&& forall|a: Scalar, b: Scalar|
        holds(a) && holds(b) && val(a) == val(b) ==> #[trigger] a.num_eq(b)
}

/// The first four entries of `s` stand for integers within `bound` of zero.
pub open spec fn integers_within(
    holds: spec_fn(Scalar) -> bool,
    val: spec_fn(Scalar) -> int,
    s: Seq<Scalar>,
    bound: int,
) -> bool {
    forall|k: int| 0 <= k < 4 ==> holds(#[trigger] s[k]) && -bound <= val(s[k]) <= bound
}

/// Every element of `m` stands for an integer within `bound` of zero.
pub open spec fn rows_integers_within(
    holds: spec_fn(Scalar) -> bool,
    val: spec_fn(Scalar) -> int,
    m: Rows,
    bound: int,
) -> bool {
    forall|i: int, j: int|
        0 <= i < 4 && 0 <= j < 4 ==> holds(#[trigger] m[i][j]) && -bound <= val(m[i][j]) <= bound
}

proof fn lemma_product_bound(x: int, y: int, bx: int, by: int)
    requires
        -bx <= x <= bx,
        -by <= y <= by,
    ensures
        -(bx * by) <= x * y <= bx * by,
{
    assert(-(bx * by) <= x * y <= bx * by) by (nonlinear_arith)
        requires
            -bx <= x <= bx,
            -by <= y <= by,
    ;
}

proof fn lemma_distribute_over_first(
    a0: int,
    a1: int,
    a2: int,
    a3: int,
    b0: int,
    b1: int,
    b2: int,
    b3: int,
    c: int,
)
    ensures
        (a0 * b0 + a1 * b1 + a2 * b2 + a3 * b3) * c == a0 * (b0 * c) + a1 * (b1 * c) + a2 * (b2
            * c) + a3 * (b3 * c),
{
    assert((a0 * b0) * c == a0 * (b0 * c)) by (nonlinear_arith);
    assert((a1 * b1) * c == a1 * (b1 * c)) by (nonlinear_arith);
    assert((a2 * b2) * c == a2 * (b2 * c)) by (nonlinear_arith);
    assert((a3 * b3) * c == a3 * (b3 * c)) by (nonlinear_arith);
    let p0 = a0 * b0;
    let p1 = a1 * b1;
    let p2 = a2 * b2;
    let p3 = a3 * b3;
    assert((p0 + p1 + p2 + p3) * c == p0 * c + p1 * c + p2 * c + p3 * c) by (nonlinear_arith);
}

proof fn lemma_distribute_over_second(
    a: int,
    q0: int,
    q1: int,
    q2: int,
    q3: int,
)
    ensures
        a * (q0 + q1 + q2 + q3) == a * q0 + a * q1 + a * q2 + a * q3,
{
    assert(a * (q0 + q1 + q2 + q3) == a * q0 + a * q1 + a * q2 + a * q3) by (nonlinear_arith);
}

/// Under an arithmetic that is exact on integers, a sum of four products of
/// integers is the integer that the formula gives, as long as four times the
/// product of the bounds stays within the limit.
proof fn lemma_exact_sum_of_products<F: Fn(Op, Scalar, Scalar) -> Scalar>(
    f: &F,
    holds: spec_fn(Scalar) -> bool,
    val: spec_fn(Scalar) -> int,
    limit: int,
    a: Seq<Scalar>,
    b: Seq<Scalar>,
    ba: int,
    bb: int,
)
    requires
        exact_on_integers(f, holds, val, limit),
        0 <= ba,
        0 <= bb,
        4 * (ba * bb) <= limit,
        integers_within(holds, val, a, ba),
        integers_within(holds, val, b, bb),
    ensures
        holds(sum_of_products(f, a, b)),
        val(sum_of_products(f, a, b)) == val(a[0]) * val(b[0]) + val(a[1]) * val(b[1]) + val(a[2])
            * val(b[2]) + val(a[3]) * val(b[3]),
        -(4 * (ba * bb)) <= val(sum_of_products(f, a, b)) <= 4 * (ba * bb),
{
    let m = ba * bb;
    assert(0 <= m) by (nonlinear_arith)
        requires
            0 <= ba,
            0 <= bb,
            m == ba * bb,
    ;
    assert(holds(a[0]) && holds(a[1]) && holds(a[2]) && holds(a[3]));
    assert(holds(b[0]) && holds(b[1]) && holds(b[2]) && holds(b[3]));
    lemma_product_bound(val(a[0]), val(b[0]), ba, bb);
    lemma_product_bound(val(a[1]), val(b[1]), ba, bb);
    lemma_product_bound(val(a[2]), val(b[2]), ba, bb);
    lemma_product_bound(val(a[3]), val(b[3]), ba, bb);
    let p0 = product(f, a[0], b[0]);
    let p1 = product(f, a[1], b[1]);
    let p2 = product(f, a[2], b[2]);
    let p3 = product(f, a[3], b[3]);
    assert(holds(p0) && val(p0) == val(a[0]) * val(b[0]));
    assert(holds(p1) && val(p1) == val(a[1]) * val(b[1]));
    assert(holds(p2) && val(p2) == val(a[2]) * val(b[2]));
    assert(holds(p3) && val(p3) == val(a[3]) * val(b[3]));
    let s1 = sum(f, p0, p1);
    assert(holds(s1) && val(s1) == val(p0) + val(p1));
    let s2 = sum(f, s1, p2);
    assert(holds(s2) && val(s2) == val(s1) + val(p2));
    let s3 = sum(f, s2, p3);
    assert(holds(s3) && val(s3) == val(s2) + val(p3));
    assert(s3 == sum_of_products(f, a, b));
}

/// The matrix product is associative wherever the arithmetic is exact: for
/// matrices whose elements stand for integers within `bound` of zero, with
/// sixteen times the cube of `bound` within the limit of exactness,
/// `(a * b) * c` and `a * (b * c)` compare equal, element by element. Where
/// the arithmetic rounds, the two agree only within a tolerance.
pub proof fn lemma_product_associative_on_integers<F: Fn(Op, Scalar, Scalar) -> Scalar>(
    f: &F,
    holds: spec_fn(Scalar) -> bool,
    val: spec_fn(Scalar) -> int,
    limit: int,
    bound: int,
    a: Mat4,
    b: Mat4,
    c: Mat4,
)
    requires
        exact_on_integers(f, holds, val, limit),
        0 <= bound,
        16 * (bound * bound * bound) <= limit,
        rows_integers_within(holds, val, a@, bound),
        rows_integers_within(holds, val, b@, bound),
        rows_integers_within(holds, val, c@, bound),
    ensures
        rows_num_eq(
            product_rows(f, product_rows(f, a@, b@), c@),
            product_rows(f, a@, product_rows(f, b@, c@)),
        ),
{
    let ab = product_rows(f, a@, b@);
    let bc = product_rows(f, b@, c@);
    let left = product_rows(f, ab, c@);
    let right = product_rows(f, a@, bc);
    let square = bound * bound;
    let inner = 4 * square;
    assert(0 <= square && 4 * square <= limit && 4 * (inner * bound) <= limit && 4 * (bound
        * inner) <= limit) by (nonlinear_arith)
        requires
            0 <= bound,
            16 * (bound * bound * bound) <= limit,
            square == bound * bound,
            inner == 4 * square,
    ;
    assert forall|i: int, j: int| 0 <= i < 4 && 0 <= j < 4 implies (#[trigger] left[i][j]).num_eq(
        right[i][j],
    ) by {
        let row = a@[i];
        let col = column(c@, j);
        assert(integers_within(holds, val, row, bound)) by {
            assert forall|k: int| 0 <= k < 4 implies holds(#[trigger] row[k]) && -bound <= val(
                row[k],
            ) <= bound by {
                assert(row[k] == a@[i][k]);
            }
        }
        assert(integers_within(holds, val, col, bound)) by {
            assert forall|k: int| 0 <= k < 4 implies holds(#[trigger] col[k]) && -bound <= val(
                col[k],
            ) <= bound by {
                assert(col[k] == c@[k][j]);
            }
        }
        // Row i of a * b, element by element.
        assert forall|k: int| 0 <= k < 4 implies holds(#[trigger] ab[i][k]) && -inner <= val(
            ab[i][k],
        ) <= inner && val(ab[i][k]) == val(a@[i][0]) * val(b@[0][k]) + val(a@[i][1]) * val(
            b@[1][k],
        ) + val(a@[i][2]) * val(b@[2][k]) + val(a@[i][3]) * val(b@[3][k]) by {
            let bcol = column(b@, k);
            assert forall|l: int| 0 <= l < 4 implies holds(#[trigger] bcol[l]) && -bound <= val(
                bcol[l],
            ) <= bound by {
                assert(bcol[l] == b@[l][k]);
            }
            lemma_exact_sum_of_products(f, holds, val, limit, row, bcol, bound, bound);
            assert(ab[i][k] == sum_of_products(f, row, bcol));
        }
        // Column j of b * c, element by element.
        assert forall|l: int| 0 <= l < 4 implies holds(#[trigger] bc[l][j]) && -inner <= val(
            bc[l][j],
        ) <= inner && val(bc[l][j]) == val(b@[l][0]) * val(c@[0][j]) + val(b@[l][1]) * val(
            c@[1][j],
        ) + val(b@[l][2]) * val(c@[2][j]) + val(b@[l][3]) * val(c@[3][j]) by {
            let brow = b@[l];
            assert forall|k: int| 0 <= k < 4 implies holds(#[trigger] brow[k]) && -bound <= val(
                brow[k],
            ) <= bound by {
                assert(brow[k] == b@[l][k]);
            }
            lemma_exact_sum_of_products(f, holds, val, limit, brow, col, bound, bound);
            assert(bc[l][j] == sum_of_products(f, brow, col));
        }
        let abrow = ab[i];
        let bccol = column(bc, j);
        assert(integers_within(holds, val, abrow, inner)) by {
            assert forall|k: int| 0 <= k < 4 implies holds(#[trigger] abrow[k]) && -inner <= val(
                abrow[k],
            ) <= inner by {
                assert(abrow[k] == ab[i][k]);
            }
        }
        assert(integers_within(holds, val, bccol, inner)) by {
            assert forall|l: int| 0 <= l < 4 implies holds(#[trigger] bccol[l]) && -inner <= val(
                bccol[l],
            ) <= inner by {
                assert(bccol[l] == bc[l][j]);
            }
        }
        lemma_exact_sum_of_products(f, holds, val, limit, abrow, col, inner, bound);
        lemma_exact_sum_of_products(f, holds, val, limit, row, bccol, bound, inner);
        assert(left[i][j] == sum_of_products(f, abrow, col));
        assert(right[i][j] == sum_of_products(f, row, bccol));
        let a0 = val(a@[i][0]);
        let a1 = val(a@[i][1]);
        let a2 = val(a@[i][2]);
        let a3 = val(a@[i][3]);
        let c0 = val(c@[0][j]);
        let c1 = val(c@[1][j]);
        let c2 = val(c@[2][j]);
        let c3 = val(c@[3][j]);
        lemma_distribute_over_first(
            a0, a1, a2, a3,
            val(b@[0][0]), val(b@[1][0]), val(b@[2][0]), val(b@[3][0]),
            c0,
        );
        lemma_distribute_over_first(
            a0, a1, a2, a3,
            val(b@[0][1]), val(b@[1][1]), val(b@[2][1]), val(b@[3][1]),
            c1,
        );
        lemma_distribute_over_first(
            a0, a1, a2, a3,
            val(b@[0][2]), val(b@[1][2]), val(b@[2][2]), val(b@[3][2]),
            c2,
        );
        lemma_distribute_over_first(
            a0, a1, a2, a3,
            val(b@[0][3]), val(b@[1][3]), val(b@[2][3]), val(b@[3][3]),
            c3,
        );
        lemma_distribute_over_second(
            a0,
            val(b@[0][0]) * c0, val(b@[0][1]) * c1, val(b@[0][2]) * c2, val(b@[0][3]) * c3,
        );
        lemma_distribute_over_second(
            a1,
            val(b@[1][0]) * c0, val(b@[1][1]) * c1, val(b@[1][2]) * c2, val(b@[1][3]) * c3,
        );
        lemma_distribute_over_second(
            a2,
            val(b@[2][0]) * c0, val(b@[2][1]) * c1, val(b@[2][2]) * c2, val(b@[2][3]) * c3,
        );
        lemma_distribute_over_second(
            a3,
            val(b@[3][0]) * c0, val(b@[3][1]) * c1, val(b@[3][2]) * c2, val(b@[3][3]) * c3,
        );
        assert(abrow[0] == ab[i][0] && abrow[1] == ab[i][1] && abrow[2] == ab[i][2] && abrow[3]
            == ab[i][3]);
        assert(bccol[0] == bc[0][j] && bccol[1] == bc[1][j] && bccol[2] == bc[2][j] && bccol[3]
            == bc[3][j]);
        assert(col[0] == c@[0][j] && col[1] == c@[1][j] && col[2] == c@[2][j] && col[3]
            == c@[3][j]);
        assert(row[0] == a@[i][0] && row[1] == a@[i][1] && row[2] == a@[i][2] && row[3]
            == a@[i][3]);
        assert(val(left[i][j]) == val(right[i][j]));
    }
}

} // verus!
