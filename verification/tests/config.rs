use aarambh_vision::ModelConfig;

#[test]
fn test_tiny() {
    let cfg = ModelConfig::tiny();
    assert_eq!(cfg.d_model, 384);
    assert_eq!(cfg.n_dual_layers, 4);
    assert_eq!(cfg.n_single_layers, 8);
    assert_eq!(cfg.n_heads, 6);
    assert_eq!(cfg.latent_channels, 16);
    assert_eq!(cfg.patch_size, 2);
}

#[test]
fn test_small() {
    let cfg = ModelConfig::small();
    assert_eq!(cfg.d_model, 512);
    assert_eq!(cfg.n_dual_layers, 6);
    assert_eq!(cfg.n_single_layers, 12);
    assert_eq!(cfg.n_heads, 8);
}

#[test]
fn test_medium() {
    let cfg = ModelConfig::medium();
    assert_eq!(cfg.d_model, 768);
    assert_eq!(cfg.n_dual_layers, 8);
    assert_eq!(cfg.n_single_layers, 16);
    assert_eq!(cfg.n_heads, 12);
}

#[test]
fn test_large() {
    let cfg = ModelConfig::large();
    assert_eq!(cfg.d_model, 1024);
    assert_eq!(cfg.n_dual_layers, 12);
    assert_eq!(cfg.n_single_layers, 24);
    assert_eq!(cfg.n_heads, 16);
}

#[test]
fn test_vae_fields_are_scale_independent() {
    for cfg in [
        ModelConfig::tiny(),
        ModelConfig::small(),
        ModelConfig::medium(),
        ModelConfig::large(),
    ] {
        assert_eq!(cfg.latent_channels, 16);
        assert_eq!(cfg.patch_size, 2);
    }
}

#[test]
fn presets_have_64_wide_heads() {
    for cfg in [
        ModelConfig::tiny(),
        ModelConfig::small(),
        ModelConfig::medium(),
        ModelConfig::large(),
    ] {
        assert!(cfg.n_heads > 0);
        assert_eq!(cfg.d_model % cfg.n_heads, 0);
        assert_eq!(cfg.d_model / cfg.n_heads, 64);
    }
}

#[test]
fn presets_grow_with_scale() {
    let scales = [
        ModelConfig::tiny(),
        ModelConfig::small(),
        ModelConfig::medium(),
        ModelConfig::large(),
    ];
    for pair in scales.windows(2) {
        assert!(pair[0].d_model < pair[1].d_model);
        assert!(pair[0].n_dual_layers < pair[1].n_dual_layers);
        assert!(pair[0].n_single_layers < pair[1].n_single_layers);
        assert!(pair[0].n_heads < pair[1].n_heads);
    }
}

#[test]
fn presets_are_distinct_and_clone_equal() {
    let tiny = ModelConfig::tiny();
    assert_eq!(tiny.clone(), tiny);
    assert_ne!(ModelConfig::tiny(), ModelConfig::small());
    assert_ne!(ModelConfig::medium(), ModelConfig::large());
}
