pub mod interaction;
pub mod pixels;
pub mod screen;
