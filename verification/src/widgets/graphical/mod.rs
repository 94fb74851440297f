pub mod checkbox;
pub mod radio;
