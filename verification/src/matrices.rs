pub mod mat4;
