//! Swiftlet media library: SPIR-V shader module generation, audio and font data handling.

pub mod audio;
pub mod binaural;
pub mod byte_order;
pub mod graphics;
