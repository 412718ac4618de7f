pub mod background;
pub mod character;
pub mod render;
