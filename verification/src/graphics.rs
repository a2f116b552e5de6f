//! Graphics: shader modules for Vulkan, the choices made from what the driver reports, and
//! the keys of window input.

pub mod color;
pub mod font;
pub mod glyph;
pub mod icons;
pub mod keycode;
pub mod vulkan;
pub mod window;

pub use keycode::KeyCode;
