//! The control-surface types that a generation request is made of: the
//! mode, the conditioning references, the solver and the output format.
use vstd::prelude::*;

verus! {

/// `std::path::PathBuf`, the path of an on-disk input.
#[verifier::external_type_specification]
#[verifier::external_body]
pub struct ExPathBuf(std::path::PathBuf);

/// `PathBuf::clone` (std): the clone is a copy of the same path.
pub assume_specification[ <std::path::PathBuf as Clone>::clone ](p: &std::path::PathBuf) -> (r:
    std::path::PathBuf)
    ensures
        r == *p,
;

/// The four top-level capabilities the system can execute.
#[derive(Debug, Clone, Copy, PartialEq, Eq, Structural)]
pub enum DrishtiMode {
    /// Text-to-image: generate a new image from the prompt.
    Generate,
    /// Instruction-based editing of the reference image.
    Edit,
    /// Masked / inpainting editing inside the mask.
    Inpaint,
    /// Super-resolution refinement of the reference image.
    Upscale,
}

/// How the reference image of a request is interpreted.
#[derive(Debug, Clone, Copy, PartialEq, Eq, Structural)]
pub enum ReferenceMode {
    /// The reference image is the editing source (instruction editing).
    Edit,
    /// The reference image is a style/subject prompt (zero-shot, no training).
    Prompt,
}

/// A reference to an on-disk image used as input conditioning.
#[derive(Debug, Clone, PartialEq, Eq)]
pub struct ImageRef {
    /// Path to the image file on disk.
    pub path: std::path::PathBuf,
}

/// A reference to an on-disk binary mask for inpainting: white marks the
/// region to regenerate, black the region to keep.
#[derive(Debug, Clone, PartialEq, Eq)]
pub struct MaskRef {
    /// Path to the mask image file on disk.
    pub path: std::path::PathBuf,
}

/// The type of structural map used for spatial conditioning.
#[derive(Debug, Clone, Copy, PartialEq, Eq, Structural)]
pub enum StructuralKind {
    /// A binary edge map extracted from the source image.
    Edge,
    /// A grayscale depth map (darker = closer to camera).
    Depth,
    /// A pose skeleton map (joints and limbs).
    Pose,
}

/// A reference to an on-disk structural map plus its kind.
#[derive(Debug, Clone, PartialEq, Eq)]
pub struct StructuralRef {
    /// Path to the map image file on disk.
    pub map_path: std::path::PathBuf,
    /// Which preprocessing / conditioning branch the map feeds into.
    pub kind: StructuralKind,
}

/// A reference to a learned style or subject adapter, by identifier.
#[derive(Debug, Clone, PartialEq, Eq)]
pub struct AdapterRef {
    /// The adapter's identifier.
    pub id: String,
}

/// The ODE solver used by the sampling engine.
#[derive(Debug, Clone, Copy, PartialEq, Eq, Structural)]
pub enum SolverKind {
    /// First-order Euler steps (fast, the default).
    Euler,
    /// Second-order Heun steps (more accurate per step).
    Heun,
    /// The distilled few-step sampler.
    Distilled,
}

/// The container / codec format for generated image output.
#[derive(Debug, Clone, Copy, PartialEq, Eq, Structural)]
pub enum ImageOutputFormat {
    /// Lossless PNG, the default output format.
    Png,
    /// Lossy JPEG with the given quality (0–100).
    Jpeg { quality: u8 },
    /// Lossy WebP with the given quality (0–100).
    WebP { quality: u8 },
}

impl Default for ImageOutputFormat {
    /// PNG, the lossless format.
    fn default() -> (fmt: Self)
        ensures
            fmt == ImageOutputFormat::Png,
    {
        ImageOutputFormat::Png
    }
}

} // verus!
