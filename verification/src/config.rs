//! Multimodal Diffusion Transformer (MMDiT) hyper-parameters with four
//! preset scales.
//!
//! | Scale  | `d_model` | `n_dual_layers` | `n_single_layers` | `n_heads` |
//! |--------|-----------|-----------------|-------------------|-----------|
//! | Tiny   | 384       | 4               | 8                 | 6         |
//! | Small  | 512       | 6               | 12                | 8         |
//! | Medium | 768       | 8               | 16                | 12        |
//! | Large  | 1024      | 12              | 24                | 16        |
//!
//! All scales share `latent_channels = 16` and `patch_size = 2`, which are
//! fixed by the scale-independent image VAE, not by the MMDiT scale.
use vstd::prelude::*;

verus! {

/// Hyper-parameters that fully describe an MMDiT model.
///
/// `d_model` must be divisible by `n_heads`; `is_well_formed` states this
/// constraint, and every preset meets it.
#[derive(Debug, Clone, PartialEq, Eq, Structural)]
pub struct ModelConfig {
    /// Embedding dimension (width of every hidden state and attention output).
    pub d_model: usize,
    /// Number of dual-stream transformer blocks.
    pub n_dual_layers: usize,
    /// Number of single-stream transformer blocks after the dual blocks.
    pub n_single_layers: usize,
    /// Number of attention heads per block; head dimension is `d_model / n_heads`.
    pub n_heads: usize,
    /// Number of channels of the VAE latent grid (fixed at 16).
    pub latent_channels: usize,
    /// Side length of the square latent patch that becomes one token (fixed at 2).
    pub patch_size: usize,
}

impl ModelConfig {
    /// The Tiny preset as a value.
    pub open spec fn spec_tiny() -> ModelConfig {
        ModelConfig {
            d_model: 384,
            n_dual_layers: 4,
            n_single_layers: 8,
            n_heads: 6,
            latent_channels: 16,
            patch_size: 2,
        }
    }

    /// The Small preset as a value.
    pub open spec fn spec_small() -> ModelConfig {
        ModelConfig {
            d_model: 512,
            n_dual_layers: 6,
            n_single_layers: 12,
            n_heads: 8,
            latent_channels: 16,
            patch_size: 2,
        }
    }

    /// The Medium preset as a value.
    pub open spec fn spec_medium() -> ModelConfig {
        ModelConfig {
            d_model: 768,
            n_dual_layers: 8,
            n_single_layers: 16,
            n_heads: 12,
            latent_channels: 16,
            patch_size: 2,
        }
    }

    /// The Large preset as a value.
    pub open spec fn spec_large() -> ModelConfig {
        ModelConfig {
            d_model: 1024,
            n_dual_layers: 12,
            n_single_layers: 24,
            n_heads: 16,
            latent_channels: 16,
            patch_size: 2,
        }
    }

    /// Whether `self` is one of the four presets.
    pub open spec fn is_preset(self) -> bool {
        ||| self == Self::spec_tiny()
        ||| self == Self::spec_small()
        ||| self == Self::spec_medium()
        ||| self == Self::spec_large()
    }

    /// The documented constraint: at least one head, and `d_model` divisible
    /// by `n_heads`.
    pub open spec fn is_well_formed(self) -> bool {
        &&& self.n_heads > 0
        &&& self.d_model % self.n_heads == 0
    }

    /// Width of one attention head.
    pub open spec fn head_dim(self) -> int
        recommends
            self.n_heads > 0,
    {
        self.d_model as int / self.n_heads as int
    }

    /// Returns the Tiny preset: 384-dim, 4 dual + 8 single layers, 6 heads.
    pub fn tiny() -> (cfg: Self)
        ensures
            cfg == Self::spec_tiny(),
    {
        ModelConfig {
            d_model: 384,
            n_dual_layers: 4,
            n_single_layers: 8,
            n_heads: 6,
            latent_channels: 16,
            patch_size: 2,
        }
    }

    /// Returns the Small preset: 512-dim, 6 dual + 12 single layers, 8 heads.
    pub fn small() -> (cfg: Self)
        ensures
            cfg == Self::spec_small(),
    {
        ModelConfig {
            d_model: 512,
            n_dual_layers: 6,
            n_single_layers: 12,
            n_heads: 8,
            latent_channels: 16,
            patch_size: 2,
        }
    }

    /// Returns the Medium preset: 768-dim, 8 dual + 16 single layers, 12 heads.
    pub fn medium() -> (cfg: Self)
        ensures
            cfg == Self::spec_medium(),
    {
        ModelConfig {
            d_model: 768,
            n_dual_layers: 8,
            n_single_layers: 16,
            n_heads: 12,
            latent_channels: 16,
            patch_size: 2,
        }
    }

    /// Returns the Large preset: 1024-dim, 12 dual + 24 single layers, 16 heads.
    pub fn large() -> (cfg: Self)
        ensures
            cfg == Self::spec_large(),
    {
        ModelConfig {
            d_model: 1024,
            n_dual_layers: 12,
            n_single_layers: 24,
            n_heads: 16,
            latent_channels: 16,
            patch_size: 2,
        }
    }
}

/// Every preset meets the divisibility constraint, and its attention heads
/// are all 64 wide.
pub proof fn lemma_presets_are_well_formed(cfg: ModelConfig)
    requires
        cfg.is_preset(),
    ensures
        cfg.is_well_formed(),
        cfg.head_dim() == 64,
{
}

/// The VAE-fixed fields do not depend on the scale: every preset has 16
/// latent channels and a patch size of 2.
pub proof fn lemma_vae_fields_are_scale_independent(cfg: ModelConfig)
    requires
        cfg.is_preset(),
    ensures
        cfg.latent_channels == 16,
        cfg.patch_size == 2,
{
}

/// Each larger preset is strictly wider and deeper than the one before it:
/// `d_model`, both layer counts and the head count all grow from Tiny to
/// Small to Medium to Large.
pub proof fn lemma_presets_grow_with_scale()
    ensures
        ModelConfig::spec_tiny().strictly_below(ModelConfig::spec_small()),
        ModelConfig::spec_small().strictly_below(ModelConfig::spec_medium()),
        ModelConfig::spec_medium().strictly_below(ModelConfig::spec_large()),
{
}

impl ModelConfig {
    /// `self` is narrower and shallower than `other` in every scale field.
    pub open spec fn strictly_below(self, other: ModelConfig) -> bool {
        &&& self.d_model < other.d_model
        &&& self.n_dual_layers < other.n_dual_layers
        &&& self.n_single_layers < other.n_single_layers
        &&& self.n_heads < other.n_heads
    }
}

} // verus!
