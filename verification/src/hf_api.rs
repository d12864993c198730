//! The Hugging Face Hub metadata the app reads beyond downloads: which
//! models a collection lists, and which GGUF files a repository holds with
//! their real sizes. Fetching and JSON decoding are the caller's; these
//! functions build the request URLs and pick from the decoded listings.

use vstd::prelude::*;
use vstd::string::*;
use crate::text::{chars_of, chars_eq, str_eq};

verus! {

/// The Hub the metadata comes from.
pub const HF_ENDPOINT: &'static str = "https://huggingface.co";

/// A downloadable file within a repo.
#[derive(Debug)]
pub struct RepoFile {
    pub path: String,
    pub size: u64,
}

/// One item of a collection listing.
#[derive(Debug)]
pub struct CollectionItem {
    /// The item's type (`model`, `dataset`, `paper`, ...); empty when absent.
    pub item_type: String,
    pub id: Option<String>,
}

/// The LFS pointer of a tree entry.
#[derive(Debug, Clone, Copy)]
pub struct Lfs {
    pub size: u64,
}

/// One entry of a repository tree listing.
#[derive(Debug)]
pub struct TreeEntry {
    /// `file` or `directory`; empty when absent.
    pub entry_type: String,
    pub path: String,
    pub size: u64,
    pub lfs: Option<Lfs>,
}

/// URL of a collection's listing.
pub fn collection_url(slug: &str) -> (res: String)
    ensures
        res@ == HF_ENDPOINT@ + "/api/collections/"@ + slug@,
{
    let mut s = String::from_str(HF_ENDPOINT);
    s.append("/api/collections/");
    s.append(slug);
    s
}

/// URL of a repository's recursive file tree on `main`.
pub fn repo_tree_url(repo_id: &str) -> (res: String)
    ensures
        res@ == HF_ENDPOINT@ + "/api/models/"@ + repo_id@ + "/tree/main?recursive=true"@,
{
    let mut s = String::from_str(HF_ENDPOINT);
    s.append("/api/models/");
    s.append(repo_id);
    s.append("/tree/main?recursive=true");
    s
}

/// The model ids of a collection listing: the ids of its `model` items, in
/// order (other item types, and items without an id, are skipped).
pub open spec fn collection_models(items: Seq<CollectionItem>) -> Seq<Seq<char>>
    decreases items.len(),
{
    if items.len() == 0 {
        Seq::empty()
    } else {
        let last = items.last();
        let rest = collection_models(items.drop_last());
        if last.item_type@ == "model"@ && last.id is Some {
            rest.push(last.id->0@)
        } else {
            rest
        }
    }
}

/// The model repo ids listed by a collection.
pub fn collection_model_ids(items: Vec<CollectionItem>) -> (res: Vec<String>)
    ensures
        res@.map_values(|s: String| s@) == collection_models(items@),
{
    let mut out: Vec<String> = Vec::new();
    let mut i: usize = 0;
    while i < items.len()
        invariant
            0 <= i <= items@.len(),
            out@.map_values(|s: String| s@) == collection_models(items@.take(i as int)),
        decreases items@.len() - i,
    {
        proof {
            assert(items@.take(i + 1).drop_last() == items@.take(i as int));
            assert(items@.take(i + 1).last() == items@[i as int]);
        }
        let item = &items[i];
        if str_eq(item.item_type.as_str(), "model") {
            match &item.id {
                Some(id) => {
                    let ghost before = out@.map_values(|s: String| s@);
                    out.push(id.clone());
                    assert(out@.map_values(|s: String| s@) =~= before.push(id@));
                },
                None => {},
            }
        }
        i = i + 1;
    }
    assert(items@.take(items@.len() as int) == items@);
    out
}

/// Whether a path names a GGUF file.
pub open spec fn is_gguf_path(path: Seq<char>) -> bool {
    path.len() >= 5 && path.subrange(path.len() - 5, path.len() as int) == ".gguf"@
}

fn ends_with_gguf(path: &str) -> (res: bool)
    ensures
        res == is_gguf_path(path@),
{
    let cs = chars_of(path);
    let suffix = chars_of(".gguf");
    proof {
        reveal_strlit(".gguf");
    }
    if cs.len() < 5 {
        return false;
    }
    let tail = cs.as_slice().split_at(cs.len() - 5).1;
    chars_eq(tail, suffix.as_slice())
}

/// The size of a file: its LFS size when the entry has a non-zero one (GGUF
/// files are stored in LFS), else the entry's own size.
pub open spec fn real_size(entry: TreeEntry) -> u64 {
    match entry.lfs {
        Some(l) => if l.size > 0 { l.size } else { entry.size },
        None => entry.size,
    }
}

/// A tree entry as a downloadable GGUF file: only files whose path ends in
/// `.gguf`, with their real size.
pub fn tree_entry_to_gguf(entry: TreeEntry) -> (res: Option<RepoFile>)
    ensures
        (entry.entry_type@ == "file"@ && is_gguf_path(entry.path@)) ==> (res matches Some(f) && f.path@
            == entry.path@ && f.size == real_size(entry)),
        !(entry.entry_type@ == "file"@ && is_gguf_path(entry.path@)) ==> res is None,
{
    if str_eq(entry.entry_type.as_str(), "file") && ends_with_gguf(entry.path.as_str()) {
        let size = match entry.lfs {
            Some(l) => if l.size > 0 { l.size } else { entry.size },
            None => entry.size,
        };
        Some(RepoFile { path: entry.path, size })
    } else {
        None
    }
}

/// The GGUF files of a tree listing, in order.
pub open spec fn gguf_files(entries: Seq<TreeEntry>) -> Seq<(Seq<char>, u64)>
    decreases entries.len(),
{
    if entries.len() == 0 {
        Seq::empty()
    } else {
        let last = entries.last();
        let rest = gguf_files(entries.drop_last());
        if last.entry_type@ == "file"@ && is_gguf_path(last.path@) {
            rest.push((last.path@, real_size(last)))
        } else {
            rest
        }
    }
}

/// The GGUF files (path and real size) of a repository tree listing.
pub fn repo_gguf_files(entries: Vec<TreeEntry>) -> (res: Vec<RepoFile>)
    ensures
        res@.map_values(|f: RepoFile| (f.path@, f.size)) == gguf_files(entries@),
{
    let ghost all = entries@;
    let mut out: Vec<RepoFile> = Vec::new();
    let mut rest = entries;
    let ghost mut done: int = 0;
    assert(all.skip(0) == all);
    while rest.len() > 0
        invariant
            0 <= done <= all.len(),
            rest@ == all.skip(done),
            out@.map_values(|f: RepoFile| (f.path@, f.size)) == gguf_files(all.take(done)),
        decreases rest@.len(),
    {
        let entry = rest.remove(0);
        proof {
            assert(entry == all[done]);
            assert(all.take(done + 1).drop_last() == all.take(done));
            assert(all.take(done + 1).last() == all[done]);
            assert(rest@ =~= all.skip(done + 1));
        }
        let ghost before = out@.map_values(|f: RepoFile| (f.path@, f.size));
        match tree_entry_to_gguf(entry) {
            Some(f) => {
                out.push(f);
                assert(out@.map_values(|f: RepoFile| (f.path@, f.size)) =~= before.push(
                    (all[done].path@, real_size(all[done])),
                ));
            },
            None => {},
        }
        proof {
            done = done + 1;
        }
    }
    proof {
        assert(all.skip(done).len() == all.len() - done);
        assert(all.take(done) == all);
    }
    out
}

} // verus!
