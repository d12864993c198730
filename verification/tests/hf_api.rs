use dictum_core::hf_api::{
    collection_model_ids, collection_url, repo_gguf_files, repo_tree_url, tree_entry_to_gguf,
    CollectionItem, Lfs, RepoFile, TreeEntry,
};

fn item(t: &str, id: Option<&str>) -> CollectionItem {
    CollectionItem { item_type: t.to_string(), id: id.map(|s| s.to_string()) }
}

fn entry(t: &str, path: &str, size: u64, lfs: Option<u64>) -> TreeEntry {
    TreeEntry {
        entry_type: t.to_string(),
        path: path.to_string(),
        size,
        lfs: lfs.map(|size| Lfs { size }),
    }
}

#[test]
fn parses_collection_models_only() {
    let items = vec![
        item("model", Some("handy-computer/parakeet")),
        item("dataset", Some("handy-computer/some-data")),
        item("paper", None),
        item("model", Some("handy-computer/whisper")),
    ];
    let ids = collection_model_ids(items);
    assert_eq!(
        ids,
        vec![
            "handy-computer/parakeet".to_string(),
            "handy-computer/whisper".to_string()
        ]
    );
}

#[test]
fn picks_gguf_files_with_lfs_size() {
    let entries = vec![
        entry("file", "model-q8.gguf", 135, Some(123_456_789)),
        entry("file", "README.md", 100, None),
        entry("directory", "sub", 0, None),
        entry("file", "model-q4.gguf", 50_000_000, None),
    ];
    let files: Vec<RepoFile> = repo_gguf_files(entries);
    assert_eq!(files.len(), 2);
    assert_eq!(files[0].path, "model-q8.gguf");
    assert_eq!(files[0].size, 123_456_789);
    assert_eq!(files[1].path, "model-q4.gguf");
    assert_eq!(files[1].size, 50_000_000);
}

#[test]
fn zero_lfs_size_falls_back_to_pointer_size() {
    let f = tree_entry_to_gguf(entry("file", "a.gguf", 77, Some(0))).unwrap();
    assert_eq!(f.size, 77);
    assert!(tree_entry_to_gguf(entry("file", "gguf", 77, None)).is_none());
    assert!(tree_entry_to_gguf(entry("directory", "x.gguf", 77, None)).is_none());
}

#[test]
fn urls_are_built_from_the_endpoint() {
    assert_eq!(collection_url("org/slug-1"), "https://huggingface.co/api/collections/org/slug-1");
    assert_eq!(
        repo_tree_url("org/repo"),
        "https://huggingface.co/api/models/org/repo/tree/main?recursive=true"
    );
}
