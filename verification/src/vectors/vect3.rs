use vstd::prelude::*;
use crate::scalar::Scalar;
use crate::arithmetic::{
    Op, is_arithmetic, sum, difference, product, quotient, square_root, plus, minus, times,
    divide, sqrt,
};

verus! {

/// A vector of three scalars: a position, a direction or a scale.
#[derive(Clone, Copy, Debug)]
pub struct Vect3 {
    pub x: Scalar,
    pub y: Scalar,
    pub z: Scalar,
}

impl View for Vect3 {
    type V = Seq<Scalar>;

    /// The components in the order x, y, z.
    open spec fn view(&self) -> Seq<Scalar> {
        seq![self.x, self.y, self.z]
    }
}

impl Vect3 {
    /// The vector with the given components.
    pub fn new(x: Scalar, y: Scalar, z: Scalar) -> (r: Vect3)
        ensures
            r.x == x,
            r.y == y,
            r.z == z,
    {
        Vect3 { x, y, z }
    }

    /// The vector whose components are the entries of `slice`, in order.
    pub fn from_slice(slice: &[Scalar; 3]) -> (r: Vect3)
        ensures
            r@ == slice@,
    {
        let r = Vect3 { x: slice[0], y: slice[1], z: slice[2] };
        assert(r@ =~= slice@);
        r
    }

    /// The components in the order x, y, z.
    pub fn to_array(&self) -> (r: [Scalar; 3])
        ensures
            r@ == self@,
    {
        let r = [self.x, self.y, self.z];
        assert(r@ =~= self@);
        r
    }

    /// Component `index`, counted from zero.
    pub fn at(&self, index: usize) -> (r: Scalar)
        requires
            index < 3,
        ensures
            r == self@[index as int],
    {
        let components = self.to_array();
        components[index]
    }

    /// Replaces component `index` and leaves the others as they were.
    pub fn set(&mut self, index: usize, value: Scalar)
        requires
            index < 3,
        ensures
            final(self)@ == old(self)@.update(index as int, value),
    {
        let mut components = self.to_array();
        components[index] = value;
        *self = Vect3::from_slice(&components);
    }

    /// The vector with the sign of every component flipped.
    pub fn neg(&self) -> (r: Vect3)
        ensures
            r.x == self.x.negated(),
            r.y == self.y.negated(),
            r.z == self.z.negated(),
    {
        Vect3 { x: self.x.neg(), y: self.y.neg(), z: self.z.neg() }
    }
}

impl Vect3 {
    /// Component by component: `self` plus `other`.
    pub open spec fn spec_add<F: Fn(Op, Scalar, Scalar) -> Scalar>(self, other: Vect3, f: &F) -> Vect3 {
        Vect3 {
            x: sum(f, self.x, other.x),
            y: sum(f, self.y, other.y),
            z: sum(f, self.z, other.z),
        }
    }

    /// Component by component: `self` minus `other`.
    pub open spec fn spec_sub<F: Fn(Op, Scalar, Scalar) -> Scalar>(self, other: Vect3, f: &F) -> Vect3 {
        Vect3 {
            x: difference(f, self.x, other.x),
            y: difference(f, self.y, other.y),
            z: difference(f, self.z, other.z),
        }
    }

    /// Every component times `k`, the component being the first operand.
    pub open spec fn spec_mul<F: Fn(Op, Scalar, Scalar) -> Scalar>(self, k: Scalar, f: &F) -> Vect3 {
        Vect3 {
            x: product(f, self.x, k),
            y: product(f, self.y, k),
            z: product(f, self.z, k),
        }
    }

    /// Every component divided by `k`.
    pub open spec fn spec_div<F: Fn(Op, Scalar, Scalar) -> Scalar>(self, k: Scalar, f: &F) -> Vect3 {
        Vect3 {
            x: quotient(f, self.x, k),
            y: quotient(f, self.y, k),
            z: quotient(f, self.z, k),
        }
    }

    /// The products of matching components, added from left to right.
    pub open spec fn spec_dot<F: Fn(Op, Scalar, Scalar) -> Scalar>(self, other: Vect3, f: &F) -> Scalar {
        sum(f, sum(f, product(f, self.x, other.x), product(f, self.y, other.y)), product(f, self.z, other.z))
    }

    /// The cross product, by the right-hand rule.
    pub open spec fn spec_cross<F: Fn(Op, Scalar, Scalar) -> Scalar>(self, other: Vect3, f: &F) -> Vect3 {
        Vect3 {
            x: difference(f, product(f, self.y, other.z), product(f, self.z, other.y)),
            y: difference(f, product(f, self.z, other.x), product(f, self.x, other.z)),
            z: difference(f, product(f, self.x, other.y), product(f, self.y, other.x)),
        }
    }

    /// The Euclidean length: the square root of the squares added from left
    /// to right.
    pub open spec fn spec_norm<F: Fn(Op, Scalar, Scalar) -> Scalar>(self, f: &F) -> Scalar {
        square_root(f, sum(f, sum(f, product(f, self.x, self.x), product(f, self.y, self.y)), product(f, self.z, self.z)))
    }

    /// The vector divided by its length; a vector whose length is a zero of
    /// either sign is kept as it is.
    pub open spec fn spec_normalize<F: Fn(Op, Scalar, Scalar) -> Scalar>(self, f: &F) -> Vect3 {
        if self.spec_norm(f).is_zero() {
            self
        } else {
            self.spec_div(self.spec_norm(f), f)
        }
    }

    /// Component by component: `self` plus `other`.
    pub fn add<F: Fn(Op, Scalar, Scalar) -> Scalar>(&self, other: &Vect3, f: &F) -> (r: Vect3)
        requires
            is_arithmetic(f),
        ensures
            r == self.spec_add(*other, f),
    {
        Vect3 {
            x: plus(f, self.x, other.x),
            y: plus(f, self.y, other.y),
            z: plus(f, self.z, other.z),
        }
    }

    /// Component by component: `self` minus `other`.
    pub fn sub<F: Fn(Op, Scalar, Scalar) -> Scalar>(&self, other: &Vect3, f: &F) -> (r: Vect3)
        requires
            is_arithmetic(f),
        ensures
            r == self.spec_sub(*other, f),
    {
        Vect3 {
            x: minus(f, self.x, other.x),
            y: minus(f, self.y, other.y),
            z: minus(f, self.z, other.z),
        }
    }

    /// Every component times `k`.
    pub fn mul<F: Fn(Op, Scalar, Scalar) -> Scalar>(&self, k: Scalar, f: &F) -> (r: Vect3)
        requires
            is_arithmetic(f),
        ensures
            r == self.spec_mul(k, f),
    {
        Vect3 {
            x: times(f, self.x, k),
            y: times(f, self.y, k),
            z: times(f, self.z, k),
        }
    }

    /// The dot product: the products of matching components, added from left
    /// to right.
    pub fn dot<F: Fn(Op, Scalar, Scalar) -> Scalar>(&self, other: &Vect3, f: &F) -> (r: Scalar)
        requires
            is_arithmetic(f),
        ensures
            r == self.spec_dot(*other, f),
    {
        plus(f, plus(f, times(f, self.x, other.x), times(f, self.y, other.y)), times(f, self.z, other.z))
    }

    /// The cross product, by the right-hand rule.
    pub fn cross<F: Fn(Op, Scalar, Scalar) -> Scalar>(&self, other: &Vect3, f: &F) -> (r: Vect3)
        requires
            is_arithmetic(f),
        ensures
            r == self.spec_cross(*other, f),
    {
        let x = minus(f, times(f, self.y, other.z), times(f, self.z, other.y));
        let y = minus(f, times(f, self.z, other.x), times(f, self.x, other.z));
        let z = minus(f, times(f, self.x, other.y), times(f, self.y, other.x));
        Vect3 { x, y, z }
    }

    /// The Euclidean length.
    pub fn norm<F: Fn(Op, Scalar, Scalar) -> Scalar>(&self, f: &F) -> (r: Scalar)
        requires
            is_arithmetic(f),
        ensures
            r == self.spec_norm(f),
    {
        sqrt(f, plus(f, plus(f, times(f, self.x, self.x), times(f, self.y, self.y)), times(f, self.z, self.z)))
    }

    /// Brings the vector to unit length in place and returns the new value.
    /// A vector whose length is a zero of either sign stays as it is.
    pub fn normalize<F: Fn(Op, Scalar, Scalar) -> Scalar>(&mut self, f: &F) -> (r: Vect3)
        requires
            is_arithmetic(f),
        ensures
            *final(self) == old(self).spec_normalize(f),
            r == *final(self),
    {
        let norm = self.norm(f);
        if norm.check_zero() {
            return *self;
        }
        self.x = divide(f, self.x, norm);
        self.y = divide(f, self.y, norm);
        self.z = divide(f, self.z, norm);
        *self
    }
}

} // verus!
