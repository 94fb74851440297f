pub mod background;
pub mod border;
pub mod spacing;
pub mod visibility;
