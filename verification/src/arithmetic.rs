use vstd::prelude::*;
use crate::scalar::Scalar;

verus! {

/// The rounded operations on scalars that the kernel is built from.
#[derive(Clone, Copy, Debug)]
pub enum Op {
    /// First operand plus second.
    Add,
    /// First operand minus second.
    Sub,
    /// First operand times second.
    Mul,
    /// First operand divided by second.
    Div,
    /// Square root of the first operand.
    Sqrt,
    /// Sine of the first operand, an angle in radians.
    Sin,
    /// Cosine of the first operand, an angle in radians.
    Cos,
}

/// What this crate asks of the function that performs the arithmetic: it
/// accepts every operation on every pair of scalars, and its result is
/// determined by the operation and the operands.
pub open spec fn is_arithmetic<F: Fn(Op, Scalar, Scalar) -> Scalar>(f: &F) -> bool {
    &&& forall|op: Op, a: Scalar, b: Scalar| #[trigger] f.requires((op, a, b))
    &&& forall|op: Op, a: Scalar, b: Scalar, r1: Scalar, r2: Scalar|
        #[trigger] f.ensures((op, a, b), r1) && #[trigger] f.ensures((op, a, b), r2) ==> r1 == r2
}

/// The result of `op` on `a` and `b` under the arithmetic `f`.
pub open spec fn value<F: Fn(Op, Scalar, Scalar) -> Scalar>(
    f: &F,
    op: Op,
    a: Scalar,
    b: Scalar,
) -> Scalar {
    choose|r: Scalar| f.ensures((op, a, b), r)
}

/// The rounded sum `a + b`.
pub open spec fn sum<F: Fn(Op, Scalar, Scalar) -> Scalar>(f: &F, a: Scalar, b: Scalar) -> Scalar {
    value(f, Op::Add, a, b)
}

/// The rounded difference `a - b`.
pub open spec fn difference<F: Fn(Op, Scalar, Scalar) -> Scalar>(
    f: &F,
    a: Scalar,
    b: Scalar,
) -> Scalar {
    value(f, Op::Sub, a, b)
}

/// The rounded product `a * b`.
pub open spec fn product<F: Fn(Op, Scalar, Scalar) -> Scalar>(
    f: &F,
    a: Scalar,
    b: Scalar,
) -> Scalar {
    value(f, Op::Mul, a, b)
}

/// The rounded quotient `a / b`.
pub open spec fn quotient<F: Fn(Op, Scalar, Scalar) -> Scalar>(
    f: &F,
    a: Scalar,
    b: Scalar,
) -> Scalar {
    value(f, Op::Div, a, b)
}

/// The rounded square root of `a`. A unary operation is asked for with
/// positive zero as its second operand.
pub open spec fn square_root<F: Fn(Op, Scalar, Scalar) -> Scalar>(f: &F, a: Scalar) -> Scalar {
    value(f, Op::Sqrt, a, Scalar::spec_zero())
}

/// The sine of the angle `a`, in radians.
pub open spec fn sine<F: Fn(Op, Scalar, Scalar) -> Scalar>(f: &F, a: Scalar) -> Scalar {
    value(f, Op::Sin, a, Scalar::spec_zero())
}

/// The cosine of the angle `a`, in radians.
pub open spec fn cosine<F: Fn(Op, Scalar, Scalar) -> Scalar>(f: &F, a: Scalar) -> Scalar {
    value(f, Op::Cos, a, Scalar::spec_zero())
}

/// The sum of four products, added from left to right:
/// `((a0*b0 + a1*b1) + a2*b2) + a3*b3`.
pub open spec fn sum_of_products<F: Fn(Op, Scalar, Scalar) -> Scalar>(
    f: &F,
    a: Seq<Scalar>,
    b: Seq<Scalar>,
) -> Scalar {
    sum(
        f,
        sum(f, sum(f, product(f, a[0], b[0]), product(f, a[1], b[1])), product(f, a[2], b[2])),
        product(f, a[3], b[3]),
    )
}

/// Whatever the arithmetic can return for an operation is the value of that
/// operation.
pub proof fn lemma_value<F: Fn(Op, Scalar, Scalar) -> Scalar>(
    f: &F,
    op: Op,
    a: Scalar,
    b: Scalar,
    r: Scalar,
)
    requires
        is_arithmetic(f),
        f.ensures((op, a, b), r),
    ensures
        value(f, op, a, b) == r,
{
}

/// Performs one operation and says which value came back.
pub fn apply<F: Fn(Op, Scalar, Scalar) -> Scalar>(f: &F, op: Op, a: Scalar, b: Scalar) -> (r:
    Scalar)
    requires
        is_arithmetic(f),
    ensures
        r == value(f, op, a, b),
        f.ensures((op, a, b), r),
{
    let r = f(op, a, b);
    proof {
        lemma_value(f, op, a, b, r);
    }
    r
}

/// Adds `b` to `a`.
pub fn plus<F: Fn(Op, Scalar, Scalar) -> Scalar>(f: &F, a: Scalar, b: Scalar) -> (r: Scalar)
    requires
        is_arithmetic(f),
    ensures
        r == sum(f, a, b),
        f.ensures((Op::Add, a, b), r),
{
    apply(f, Op::Add, a, b)
}

/// Subtracts `b` from `a`.
pub fn minus<F: Fn(Op, Scalar, Scalar) -> Scalar>(f: &F, a: Scalar, b: Scalar) -> (r: Scalar)
    requires
        is_arithmetic(f),
    ensures
        r == difference(f, a, b),
        f.ensures((Op::Sub, a, b), r),
{
    apply(f, Op::Sub, a, b)
}

/// Multiplies `a` by `b`.
pub fn times<F: Fn(Op, Scalar, Scalar) -> Scalar>(f: &F, a: Scalar, b: Scalar) -> (r: Scalar)
    requires
        is_arithmetic(f),
    ensures
        r == product(f, a, b),
        f.ensures((Op::Mul, a, b), r),
{
    apply(f, Op::Mul, a, b)
}

/// Divides `a` by `b`.
pub fn divide<F: Fn(Op, Scalar, Scalar) -> Scalar>(f: &F, a: Scalar, b: Scalar) -> (r: Scalar)
    requires
        is_arithmetic(f),
    ensures
        r == quotient(f, a, b),
        f.ensures((Op::Div, a, b), r),
{
    apply(f, Op::Div, a, b)
}

/// Takes the square root of `a`.
pub fn sqrt<F: Fn(Op, Scalar, Scalar) -> Scalar>(f: &F, a: Scalar) -> (r: Scalar)
    requires
        is_arithmetic(f),
    ensures
        r == square_root(f, a),
        f.ensures((Op::Sqrt, a, Scalar::spec_zero()), r),
{
    apply(f, Op::Sqrt, a, Scalar::zero())
}

/// Takes the sine of the angle `a`.
pub fn sin<F: Fn(Op, Scalar, Scalar) -> Scalar>(f: &F, a: Scalar) -> (r: Scalar)
    requires
        is_arithmetic(f),
    ensures
        r == sine(f, a),
        f.ensures((Op::Sin, a, Scalar::spec_zero()), r),
{
    apply(f, Op::Sin, a, Scalar::zero())
}

/// Takes the cosine of the angle `a`.
pub fn cos<F: Fn(Op, Scalar, Scalar) -> Scalar>(f: &F, a: Scalar) -> (r: Scalar)
    requires
        is_arithmetic(f),
    ensures
        r == cosine(f, a),
        f.ensures((Op::Cos, a, Scalar::spec_zero()), r),
{
    apply(f, Op::Cos, a, Scalar::zero())
}

/// The sum of four products, added from left to right.
pub fn dot4<F: Fn(Op, Scalar, Scalar) -> Scalar>(f: &F, a: &[Scalar; 4], b: &[Scalar; 4]) -> (r: Scalar)
    requires
        is_arithmetic(f),
    ensures
        r == sum_of_products(f, a@, b@),
{
    let p0 = times(f, a[0], b[0]);
    let p1 = times(f, a[1], b[1]);
    let p2 = times(f, a[2], b[2]);
    let p3 = times(f, a[3], b[3]);
    plus(f, plus(f, plus(f, p0, p1), p2), p3)
}

} // verus!
