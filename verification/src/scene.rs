use vstd::prelude::*;
use crate::vectors::vect3::Vect3;
use crate::matrices::mat4::Mat4;

verus! {

/// A light, given by the direction in which it shines.
#[derive(Clone, Copy, Debug)]
pub struct Light {
    pub direction: Vect3,
}

/// A renderable object: the corners of its triangles, three per triangle,
/// and the matrix that places it in the world.
#[derive(Debug)]
pub struct GameObject {
    pub positions: Vec<Vect3>,
    pub placement: Mat4,
}

/// What a scene is made of.
#[derive(Debug)]
pub enum SceneObject {
    Light(Light),
    GameObject(GameObject),
}

} // verus!
