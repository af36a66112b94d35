//! Core of a data-driven forward renderer: shader descriptions with
//! byte-exact uniform-block layouts, texture binding-slot assignment,
//! material instances backed by raw uniform byte buffers, raster/blend
//! state parsing, and the environment-map precomputation schedule
//! (mip chains, irradiance and specular prefilter passes).
//!
//! GPU device work (resource creation, draw submission) is a collaborator
//! outside this crate; everything here computes plain data that such a
//! device consumes.

pub mod bytes;
pub mod description;
pub mod env_map;
pub mod graphics;
pub mod image_data;
pub mod inner_pipelines;
pub mod json;
pub mod keyed;
pub mod material;
pub mod pipeline;
pub mod registry;
pub mod shader;
pub mod state;
pub mod texture;
pub mod vertex;
