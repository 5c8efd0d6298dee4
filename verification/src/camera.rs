use vstd::prelude::*;
use crate::scalar::Scalar;
use crate::arithmetic::{Op, is_arithmetic, difference, product, minus, times};
use crate::vectors::vect3::Vect3;
use crate::matrices::mat4::{Rows, rows_of, rows_of_array};

verus! {

/// The view matrix of a camera frame, as rows: in each of the first three
/// rows stand the matching components of `side`, `up` and `forward` and a
/// positive zero; the fourth row is `offset` followed by one.
pub open spec fn view_rows(
    side: Seq<Scalar>,
    up: Seq<Scalar>,
    forward: Seq<Scalar>,
    offset: Seq<Scalar>,
) -> Rows {
    rows_of(
        |i: int, j: int|
            if i == 3 {
                if j < 3 {
                    offset[j]
                } else {
                    Scalar::spec_one()
                }
            } else if j == 0 {
                side[i]
            } else if j == 1 {
                up[i]
            } else if j == 2 {
                forward[i]
            } else {
                Scalar::spec_zero()
            },
    )
}

/// Assembles the view matrix of a camera from its frame.
///
/// `forward` is the unit viewing direction, `side` the unit vector across
/// (world-up cross `forward`), `up` the recomputed up vector (`forward` cross
/// `side`), and `offset` holds the negated projections of the camera's
/// position onto `side`, `up` and `forward`, in this order. The frame is put
/// in directly: no rotation or translation matrix is multiplied.
pub fn view_from_basis(side: Vect3, up: Vect3, forward: Vect3, offset: Vect3) -> (r: [[Scalar; 4]; 4])
    ensures
        rows_of_array(r) == view_rows(side@, up@, forward@, offset@),
{
    let o = Scalar::zero();
    let r = [
        [side.x, up.x, forward.x, o],
        [side.y, up.y, forward.y, o],
        [side.z, up.z, forward.z, o],
        [offset.x, offset.y, offset.z, Scalar::one()],
    ];
    assert(rows_of_array(r) =~~= view_rows(side@, up@, forward@, offset@));
    r
}

/// The third column of a view matrix holds the viewing direction, and its
/// fourth row the offset.
pub proof fn lemma_view_columns(
    side: Seq<Scalar>,
    up: Seq<Scalar>,
    forward: Seq<Scalar>,
    offset: Seq<Scalar>,
)
    requires
        side.len() == 3,
        up.len() == 3,
        forward.len() == 3,
        offset.len() == 3,
    ensures
        forall|i: int|
            0 <= i < 3 ==> {
                let row = #[trigger] view_rows(side, up, forward, offset)[i];
                row == seq![side[i], up[i], forward[i], Scalar::spec_zero()]
            },
        view_rows(side, up, forward, offset)[3].subrange(0, 3) == offset,
{
    let m = view_rows(side, up, forward, offset);
    assert forall|i: int| 0 <= i < 3 implies #[trigger] m[i] == seq![
        side[i],
        up[i],
        forward[i],
        Scalar::spec_zero(),
    ] by {
        assert(m[i] =~= seq![side[i], up[i], forward[i], Scalar::spec_zero()]);
    }
    assert(m[3].subrange(0, 3) =~= offset);
}

/// The negated projection of `position` onto `axis`, in the order in which it
/// is computed: `-position.x * axis.x - position.y * axis.y - position.z * axis.z`,
/// where the sign of `position.x` is flipped before the first product.
pub open spec fn offset_along<F: Fn(Op, Scalar, Scalar) -> Scalar>(f: &F, position: Vect3, axis: Vect3) -> Scalar {
    difference(
        f,
        difference(
            f,
            product(f, position.x.negated(), axis.x),
            product(f, position.y, axis.y),
        ),
        product(f, position.z, axis.z),
    )
}

/// The view matrix of a camera at `position` that looks along `direction`,
/// with `up` as the world's up vector:
///
/// 1. `forward` is `direction` brought to unit length;
/// 2. `side` is `up` cross `forward`, brought to unit length;
/// 3. `above` is `forward` cross `side`, taken as it is;
/// 4. the offset holds the negated projections of `position` onto `side`,
///    `above` and `forward`;
/// 5. the four are assembled as [`view_rows`] says.
///
/// A vector whose length is zero is kept as it is where the steps ask for
/// unit length.
pub open spec fn view_matrix_rows<F: Fn(Op, Scalar, Scalar) -> Scalar>(
    f: &F,
    position: Vect3,
    direction: Vect3,
    up: Vect3,
) -> Rows {
    let forward = direction.spec_normalize(f);
    let side = up.spec_cross(forward, f).spec_normalize(f);
    let above = forward.spec_cross(side, f);
    let offset = Vect3 {
        x: offset_along(f, position, side),
        y: offset_along(f, position, above),
        z: offset_along(f, position, forward),
    };
    view_rows(side@, above@, forward@, offset@)
}

/// The negated projection of `position` onto `axis`.
fn project_negated<F: Fn(Op, Scalar, Scalar) -> Scalar>(position: &Vect3, axis: &Vect3, f: &F) -> (r: Scalar)
    requires
        is_arithmetic(f),
    ensures
        r == offset_along(f, *position, *axis),
{
    let a = times(f, position.x.neg(), axis.x);
    let b = times(f, position.y, axis.y);
    let c = times(f, position.z, axis.z);
    minus(f, minus(f, a, b), c)
}

/// Builds the view matrix of a camera from its pose. The camera's frame is
/// derived directly from `direction` and `up`; no rotation or translation
/// matrix is multiplied.
pub fn view_matrix<F: Fn(Op, Scalar, Scalar) -> Scalar>(
    position: &[Scalar; 3],
    direction: &[Scalar; 3],
    up: &[Scalar; 3],
    f: &F,
) -> (r: [[Scalar; 4]; 4])
    requires
        is_arithmetic(f),
    ensures
        rows_of_array(r) == view_matrix_rows(
            f,
            Vect3 { x: position[0], y: position[1], z: position[2] },
            Vect3 { x: direction[0], y: direction[1], z: direction[2] },
            Vect3 { x: up[0], y: up[1], z: up[2] },
        ),
{
    let position = Vect3::new(position[0], position[1], position[2]);
    let up = Vect3::new(up[0], up[1], up[2]);
    let mut forward = Vect3::new(direction[0], direction[1], direction[2]);
    forward.normalize(f);
    let mut side = up.cross(&forward, f);
    side.normalize(f);
    let above = forward.cross(&side, f);
    let offset = Vect3::new(
        project_negated(&position, &side, f),
        project_negated(&position, &above, f),
        project_negated(&position, &forward, f),
    );
    view_from_basis(side, above, forward, offset)
}

} // verus!
