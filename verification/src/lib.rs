//! Shared configuration, control-surface and error types for an image
//! generation and editing system built on a Multimodal Diffusion
//! Transformer, and the shape rule for latents observed at each
//! denoising step.
pub mod config;
pub mod error;
pub mod latent;
pub mod request;

pub use config::ModelConfig;
pub use error::{AarambhVisionError, VisionResult};
pub use latent::{latent_grid_dims, LatentShapeError};
pub use request::{
    AdapterRef, DrishtiMode, ImageOutputFormat, ImageRef, MaskRef, ReferenceMode, SolverKind,
    StructuralKind, StructuralRef,
};
