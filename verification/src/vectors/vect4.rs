use vstd::prelude::*;
use vstd::std_specs::convert::FromSpecImpl;
use crate::scalar::Scalar;
use crate::arithmetic::{
    Op, is_arithmetic, sum, difference, product, quotient, square_root, plus, minus, times,
    divide, sqrt,
};
use crate::vectors::vect3::Vect3;

verus! {

/// A vector of four scalars in homogeneous coordinates: `w` is zero for a
/// direction and one for a position.
#[derive(Clone, Copy, Debug)]
pub struct Vect4 {
    pub x: Scalar,
    pub y: Scalar,
    pub z: Scalar,
    pub w: Scalar,
}

impl View for Vect4 {
    type V = Seq<Scalar>;

    /// The components in the order x, y, z, w.
    open spec fn view(&self) -> Seq<Scalar> {
        seq![self.x, self.y, self.z, self.w]
    }
}

impl Vect4 {
    /// The vector of four positive zeros.
    pub fn new() -> (r: Vect4)
        ensures
            r@ == Seq::new(4, |i: int| Scalar::spec_zero()),
    {
        let r = Vect4 { x: Scalar::zero(), y: Scalar::zero(), z: Scalar::zero(), w: Scalar::zero() };
        assert(r@ =~= Seq::new(4, |i: int| Scalar::spec_zero()));
        r
    }

    /// The vector whose components are the entries of `slice`, in order.
    pub fn from_slice(slice: &[Scalar; 4]) -> (r: Vect4)
        ensures
            r@ == slice@,
    {
        let r = Vect4 { x: slice[0], y: slice[1], z: slice[2], w: slice[3] };
        assert(r@ =~= slice@);
        r
    }

    /// The components in the order x, y, z, w.
    pub fn to_array(&self) -> (r: [Scalar; 4])
        ensures
            r@ == self@,
    {
        let r = [self.x, self.y, self.z, self.w];
        assert(r@ =~= self@);
        r
    }

    /// The components in the order x, y, z, w.
    pub fn to_vec(&self) -> (r: Vec<Scalar>)
        ensures
            r@ == self@,
    {
        let mut r: Vec<Scalar> = Vec::new();
        r.push(self.x);
        r.push(self.y);
        r.push(self.z);
        r.push(self.w);
        assert(r@ =~= self@);
        r
    }

    /// Component `index`, counted from zero.
    pub fn at(&self, index: usize) -> (r: Scalar)
        requires
            index < 4,
        ensures
            r == self@[index as int],
    {
        let components = self.to_array();
        components[index]
    }

    /// Replaces component `index` and leaves the others as they were.
    pub fn set(&mut self, index: usize, value: Scalar)
        requires
            index < 4,
        ensures
            final(self)@ == old(self)@.update(index as int, value),
    {
        let mut components = self.to_array();
        components[index] = value;
        *self = Vect4::from_slice(&components);
    }

    /// The vector with the sign of every component flipped.
    pub fn neg(&self) -> (r: Vect4)
        ensures
            r.x == self.x.negated(),
            r.y == self.y.negated(),
            r.z == self.z.negated(),
            r.w == self.w.negated(),
    {
        Vect4 { x: self.x.neg(), y: self.y.neg(), z: self.z.neg(), w: self.w.neg() }
    }
}

impl From<[Scalar; 4]> for Vect4 {
    fn from(slice: [Scalar; 4]) -> (r: Vect4) {
        Vect4 { x: slice[0], y: slice[1], z: slice[2], w: slice[3] }
    }
}

impl FromSpecImpl<[Scalar; 4]> for Vect4 {
    open spec fn obeys_from_spec() -> bool {
        true
    }

    open spec fn from_spec(slice: [Scalar; 4]) -> Vect4 {
        Vect4 { x: slice[0], y: slice[1], z: slice[2], w: slice[3] }
    }
}

impl From<(Scalar, Scalar, Scalar, Scalar)> for Vect4 {
    fn from(data: (Scalar, Scalar, Scalar, Scalar)) -> (r: Vect4) {
        Vect4 { x: data.0, y: data.1, z: data.2, w: data.3 }
    }
}

impl FromSpecImpl<(Scalar, Scalar, Scalar, Scalar)> for Vect4 {
    open spec fn obeys_from_spec() -> bool {
        true
    }

    open spec fn from_spec(data: (Scalar, Scalar, Scalar, Scalar)) -> Vect4 {
        Vect4 { x: data.0, y: data.1, z: data.2, w: data.3 }
    }
}

/// A three-component vector becomes a direction: `w` is positive zero.
impl From<Vect3> for Vect4 {
    fn from(v: Vect3) -> (r: Vect4) {
        Vect4 { x: v.x, y: v.y, z: v.z, w: Scalar::zero() }
    }
}

impl FromSpecImpl<Vect3> for Vect4 {
    open spec fn obeys_from_spec() -> bool {
        true
    }

    open spec fn from_spec(v: Vect3) -> Vect4 {
        Vect4 { x: v.x, y: v.y, z: v.z, w: Scalar::spec_zero() }
    }
}

impl Vect4 {
    /// Component by component: `self` plus `other`.
    pub open spec fn spec_add<F: Fn(Op, Scalar, Scalar) -> Scalar>(self, other: Vect4, f: &F) -> Vect4 {
        Vect4 {
            x: sum(f, self.x, other.x),
            y: sum(f, self.y, other.y),
            z: sum(f, self.z, other.z),
            w: sum(f, self.w, other.w),
        }
    }

    /// Component by component: `self` minus `other`.
    pub open spec fn spec_sub<F: Fn(Op, Scalar, Scalar) -> Scalar>(self, other: Vect4, f: &F) -> Vect4 {
        Vect4 {
            x: difference(f, self.x, other.x),
            y: difference(f, self.y, other.y),
            z: difference(f, self.z, other.z),
            w: difference(f, self.w, other.w),
        }
    }

    /// Every component times `k`, the component being the first operand.
    pub open spec fn spec_mul<F: Fn(Op, Scalar, Scalar) -> Scalar>(self, k: Scalar, f: &F) -> Vect4 {
        Vect4 {
            x: product(f, self.x, k),
            y: product(f, self.y, k),
            z: product(f, self.z, k),
            w: product(f, self.w, k),
        }
    }

    /// Every component divided by `k`.
    pub open spec fn spec_div<F: Fn(Op, Scalar, Scalar) -> Scalar>(self, k: Scalar, f: &F) -> Vect4 {
        Vect4 {
            x: quotient(f, self.x, k),
            y: quotient(f, self.y, k),
            z: quotient(f, self.z, k),
            w: quotient(f, self.w, k),
        }
    }

    /// The products of matching components, added from left to right.
    pub open spec fn spec_dot<F: Fn(Op, Scalar, Scalar) -> Scalar>(self, other: Vect4, f: &F) -> Scalar {
        sum(f, sum(f, sum(f, product(f, self.x, other.x), product(f, self.y, other.y)), product(f, self.z, other.z)), product(f, self.w, other.w))
    }

    /// The cross product of the x, y and z parts; `w` of the result is positive
    /// zero whatever the operands hold in `w`.
    pub open spec fn spec_cross<F: Fn(Op, Scalar, Scalar) -> Scalar>(self, other: Vect4, f: &F) -> Vect4 {
        Vect4 {
            x: difference(f, product(f, self.y, other.z), product(f, self.z, other.y)),
            y: difference(f, product(f, self.z, other.x), product(f, self.x, other.z)),
            z: difference(f, product(f, self.x, other.y), product(f, self.y, other.x)),
            w: Scalar::spec_zero(),
        }
    }

    /// The Euclidean length: the square root of the squares added from left
    /// to right.
    pub open spec fn spec_norm<F: Fn(Op, Scalar, Scalar) -> Scalar>(self, f: &F) -> Scalar {
        square_root(f, sum(f, sum(f, sum(f, product(f, self.x, self.x), product(f, self.y, self.y)), product(f, self.z, self.z)), product(f, self.w, self.w)))
    }

    /// The vector divided by its length; a vector whose length is a zero of
    /// either sign is kept as it is.
    pub open spec fn spec_normalize<F: Fn(Op, Scalar, Scalar) -> Scalar>(self, f: &F) -> Vect4 {
        if self.spec_norm(f).is_zero() {
            self
        } else {
            self.spec_div(self.spec_norm(f), f)
        }
    }

    /// Component by component: `self` plus `other`.
    pub fn add<F: Fn(Op, Scalar, Scalar) -> Scalar>(&self, other: &Vect4, f: &F) -> (r: Vect4)
        requires
            is_arithmetic(f),
        ensures
            r == self.spec_add(*other, f),
    {
        Vect4 {
            x: plus(f, self.x, other.x),
            y: plus(f, self.y, other.y),
            z: plus(f, self.z, other.z),
            w: plus(f, self.w, other.w),
        }
    }

    /// Component by component: `self` minus `other`.
    pub fn sub<F: Fn(Op, Scalar, Scalar) -> Scalar>(&self, other: &Vect4, f: &F) -> (r: Vect4)
        requires
            is_arithmetic(f),
        ensures
            r == self.spec_sub(*other, f),
    {
        Vect4 {
            x: minus(f, self.x, other.x),
            y: minus(f, self.y, other.y),
            z: minus(f, self.z, other.z),
            w: minus(f, self.w, other.w),
        }
    }

    /// Every component times `k`.
    pub fn mul<F: Fn(Op, Scalar, Scalar) -> Scalar>(&self, k: Scalar, f: &F) -> (r: Vect4)
        requires
            is_arithmetic(f),
        ensures
            r == self.spec_mul(k, f),
    {
        Vect4 {
            x: times(f, self.x, k),
            y: times(f, self.y, k),
            z: times(f, self.z, k),
            w: times(f, self.w, k),
        }
    }

    /// The dot product: the products of matching components, added from left
    /// to right.
    pub fn dot<F: Fn(Op, Scalar, Scalar) -> Scalar>(&self, other: &Vect4, f: &F) -> (r: Scalar)
        requires
            is_arithmetic(f),
        ensures
            r == self.spec_dot(*other, f),
    {
        plus(f, plus(f, plus(f, times(f, self.x, other.x), times(f, self.y, other.y)), times(f, self.z, other.z)), times(f, self.w, other.w))
    }

    /// The cross product of the x, y and z parts, with `w` set to positive
    /// zero: it is meant for directions.
    pub fn cross<F: Fn(Op, Scalar, Scalar) -> Scalar>(&self, other: &Vect4, f: &F) -> (r: Vect4)
        requires
            is_arithmetic(f),
        ensures
            r == self.spec_cross(*other, f),
    {
        let x = minus(f, times(f, self.y, other.z), times(f, self.z, other.y));
        let y = minus(f, times(f, self.z, other.x), times(f, self.x, other.z));
        let z = minus(f, times(f, self.x, other.y), times(f, self.y, other.x));
        Vect4 { x, y, z, w: Scalar::zero() }
    }

    /// The Euclidean length.
    pub fn norm<F: Fn(Op, Scalar, Scalar) -> Scalar>(&self, f: &F) -> (r: Scalar)
        requires
            is_arithmetic(f),
        ensures
            r == self.spec_norm(f),
    {
        sqrt(f, plus(f, plus(f, plus(f, times(f, self.x, self.x), times(f, self.y, self.y)), times(f, self.z, self.z)), times(f, self.w, self.w)))
    }

    /// Brings the vector to unit length in place and returns the new value.
    /// A vector whose length is a zero of either sign stays as it is.
    pub fn normalize<F: Fn(Op, Scalar, Scalar) -> Scalar>(&mut self, f: &F) -> (r: Vect4)
        requires
            is_arithmetic(f),
        ensures
            *final(self) == old(self).spec_normalize(f),
            r == *final(self),
    {
        let norm = self.norm(f);
        if norm.check_zero() {
            return *self;
        }
        self.x = divide(f, self.x, norm);
        self.y = divide(f, self.y, norm);
        self.z = divide(f, self.z, norm);
        self.w = divide(f, self.w, norm);
        *self
    }
}

} // verus!
