//! A composable GUI toolkit: layout containers, base widgets and the input handling
//! framework, with every operation specified and proved.

pub mod chain;
pub mod data;
pub mod geometry;
pub mod input;
pub mod rendering;
pub mod state;
pub mod widgets;
