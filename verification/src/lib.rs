//! Verified core of a wgpu renderer that drives Linux DRM/KMS directly.

pub mod backend;
pub mod errors;
pub mod examples_api;
pub mod input;
pub mod kms;
pub mod run;
pub mod select;
pub mod surface;
pub mod text;
