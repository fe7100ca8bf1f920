//! Textures: how they are sampled, the mip chain built on upload, the cache
//! that hands them out by name, the pipelines of post-processing effects,
//! the input-method events of a window and the decisions of its main loop.

pub mod event;
pub mod post_processing;
pub mod resource;
pub mod window;
