pub mod vect3;
pub mod vect4;
