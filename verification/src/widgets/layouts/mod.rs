pub mod frame;
pub mod linear;
