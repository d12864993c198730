use dictum_core::dictum_config::{post_process_model, server_base_url, build_config, DictumConfig};

#[test]
fn endpoints_derive_from_the_shared_base_url() {
    let base = server_base_url();
    assert!(!base.ends_with('/'), "base url must not end with a slash");
    let config = build_config();
    assert_eq!(config.model_mirror_endpoint(), format!("{base}/api/hf"));
    assert_eq!(config.post_process_base_url(), format!("{base}/api/post-process"));
}

#[test]
fn post_process_model_is_configured() {
    assert!(!post_process_model().is_empty());
}

#[test]
fn trailing_slashes_are_normalised_away() {
    let config = DictumConfig::new("https://example.com/dictum///", "m");
    assert_eq!(config.server_base_url(), "https://example.com/dictum");
    assert_eq!(config.model_mirror_endpoint(), "https://example.com/dictum/api/hf");
    assert_eq!(config.post_process_model(), "m");
    assert_eq!(server_base_url(), "http://localhost:8000/dictum");
}
