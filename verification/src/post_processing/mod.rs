//! Post-processing effects.

pub mod post_processing_effect;
