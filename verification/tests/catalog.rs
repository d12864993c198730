use dictum_core::catalog::{
    catalog_descriptor_id, is_catalog_model, legacy_size_bytes, rank_of, CatalogEntry, ModelCatalog,
};

fn sample_catalog() -> ModelCatalog {
    ModelCatalog::new(vec![
        CatalogEntry {
            id: catalog_descriptor_id("handy-computer/whisper-small-gguf", "whisper-small-q8_0.gguf"),
            recommended_rank: Some(2),
        },
        CatalogEntry {
            id: catalog_descriptor_id("handy-computer/parakeet-tdt-gguf", "parakeet-q4_k.gguf"),
            recommended_rank: Some(1),
        },
        CatalogEntry {
            id: catalog_descriptor_id("handy-computer/moonshine-gguf", "moonshine-f16.gguf"),
            recommended_rank: None,
        },
    ])
}

#[test]
fn is_catalog_model_matches_catalog_ids() {
    let catalog = sample_catalog();
    for id in [
        "handy-computer/whisper-small-gguf/whisper-small-q8_0.gguf",
        "handy-computer/parakeet-tdt-gguf/parakeet-q4_k.gguf",
        "handy-computer/moonshine-gguf/moonshine-f16.gguf",
    ] {
        assert!(is_catalog_model(&catalog, id), "{} should be a catalog model", id);
    }
    assert!(!is_catalog_model(&catalog, "someorg/some-repo/some-file.gguf"));
    assert!(!is_catalog_model(&catalog, "small"));
    assert_eq!(catalog.len(), 3);
}

#[test]
fn rank_of_unknown_or_unranked_sorts_last() {
    let catalog = sample_catalog();
    assert_eq!(rank_of(&catalog, "handy-computer/parakeet-tdt-gguf/parakeet-q4_k.gguf"), 1);
    assert_eq!(rank_of(&catalog, "handy-computer/whisper-small-gguf/whisper-small-q8_0.gguf"), 2);
    assert_eq!(rank_of(&catalog, "handy-computer/moonshine-gguf/moonshine-f16.gguf"), u32::MAX);
    assert_eq!(rank_of(&catalog, "small"), u32::MAX);
}

#[test]
fn legacy_sizes_round_trip_through_mib() {
    assert_eq!(legacy_size_bytes(487), 487 * 1024 * 1024);
    assert_eq!(legacy_size_bytes(487) / (1024 * 1024), 487);
    assert_eq!(legacy_size_bytes(0), 0);
}
