//! Texture resources.

pub mod mipmap;
pub mod pixels;
pub mod sampling;
pub mod texture_manager;
