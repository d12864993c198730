//! The bundled model catalog, as the registry queries it: which ids were
//! seeded from the catalog, and the editorial rank that orders the model
//! list. The catalog's entries are decoded by the caller from the bundled
//! catalog file.

use vstd::prelude::*;
use vstd::string::*;
use crate::text::str_eq;

verus! {

/// One catalog model as the registry sees it.
#[derive(Debug)]
pub struct CatalogEntry {
    /// Descriptor id: `{repo_id}/{default file name}`.
    pub id: String,
    /// Editorial rank (lower = higher priority), when ranked.
    pub recommended_rank: Option<u32>,
}

/// The catalog's entries.
pub struct ModelCatalog {
    entries: Vec<CatalogEntry>,
}

/// Abstract entry: `(id, rank)`.
pub type EntryView = (Seq<char>, Option<u32>);

impl View for ModelCatalog {
    type V = Seq<EntryView>;

    closed spec fn view(&self) -> Seq<EntryView> {
        self.entries@.map_values(|e: CatalogEntry| (e.id@, e.recommended_rank))
    }
}

/// Whether `id` is one of the catalog's ids.
pub open spec fn in_catalog(entries: Seq<EntryView>, id: Seq<char>) -> bool {
    exists|i: int| 0 <= i < entries.len() && #[trigger] entries[i].0 == id
}

/// The rank recorded for `id`: that of the last ranked entry with the id.
pub open spec fn rank_in(entries: Seq<EntryView>, id: Seq<char>) -> Option<u32>
    decreases entries.len(),
{
    if entries.len() == 0 {
        None
    } else if entries.last().0 == id && entries.last().1 is Some {
        entries.last().1
    } else {
        rank_in(entries.drop_last(), id)
    }
}

impl ModelCatalog {
    /// The catalog of these entries, in file order.
    pub fn new(entries: Vec<CatalogEntry>) -> (res: ModelCatalog)
        ensures
            res@ == entries@.map_values(|e: CatalogEntry| (e.id@, e.recommended_rank)),
    {
        ModelCatalog { entries }
    }

    /// Number of models in the catalog.
    pub fn len(&self) -> (res: usize)
        ensures
            res == self@.len(),
    {
        self.entries.len()
    }
}

/// The id a catalog model's descriptor gets: its repository id and default
/// file name, so it coincides with the same file found in the model cache.
pub fn catalog_descriptor_id(repo_id: &str, default_filename: &str) -> (res: String)
    ensures
        res@ == repo_id@ + "/"@ + default_filename@,
{
    let mut s = String::from_str(repo_id);
    s.append("/");
    s.append(default_filename);
    s
}

/// Whether a registry id was seeded from the bundled catalog.
pub fn is_catalog_model(catalog: &ModelCatalog, model_id: &str) -> (res: bool)
    ensures
        res == in_catalog(catalog@, model_id@),
{
    let mut i: usize = 0;
    while i < catalog.entries.len()
        invariant
            0 <= i <= catalog.entries@.len(),
            catalog@.len() == catalog.entries@.len(),
            forall|k: int| 0 <= k < i ==> catalog@[k].0 != model_id@,
        decreases catalog.entries@.len() - i,
    {
        if str_eq(catalog.entries[i].id.as_str(), model_id) {
            assert(catalog@[i as int].0 == model_id@);
            return true;
        }
        i = i + 1;
    }
    false
}

/// Recommended rank of a model id; `u32::MAX` for unranked or unknown ids,
/// so they sort last in an ascending sort.
pub fn rank_of(catalog: &ModelCatalog, model_id: &str) -> (res: u32)
    ensures
        res == match rank_in(catalog@, model_id@) {
            Some(r) => r,
            None => u32::MAX,
        },
{
    let mut n: usize = catalog.entries.len();
    assert(catalog@.take(n as int) == catalog@);
    while n > 0
        invariant
            0 <= n <= catalog.entries@.len(),
            catalog@.len() == catalog.entries@.len(),
            rank_in(catalog@, model_id@) == rank_in(catalog@.take(n as int), model_id@),
        decreases n,
    {
        proof {
            assert(catalog@.take(n as int).drop_last() == catalog@.take(n - 1));
            assert(catalog@.take(n as int).last() == catalog@[n - 1]);
        }
        let e = &catalog.entries[n - 1];
        if str_eq(e.id.as_str(), model_id) {
            match e.recommended_rank {
                Some(r) => {
                    return r;
                },
                None => {},
            }
        }
        n = n - 1;
    }
    u32::MAX
}

/// A legacy model's download size in bytes from its size in MiB (the exact
/// inverse of rendering a size in MiB).
pub fn legacy_size_bytes(size_mb: u64) -> (res: u64)
    requires
        size_mb * 1048576 <= u64::MAX,
    ensures
        res == size_mb * 1048576,
        res / 1048576 == size_mb,
{
    size_mb * 1048576
}

/// Law: a ranked catalog model reports its rank, and a model outside the
/// catalog sorts last.
pub proof fn law_rank_of_unknown_sorts_last(entries: Seq<EntryView>, id: Seq<char>)
    ensures
        !in_catalog(entries, id) ==> rank_in(entries, id) is None,
        rank_in(entries, id) is Some ==> in_catalog(entries, id),
    decreases entries.len(),
{
    if entries.len() > 0 {
        law_rank_of_unknown_sorts_last(entries.drop_last(), id);
        if in_catalog(entries.drop_last(), id) {
            let k = choose|k: int| 0 <= k < entries.drop_last().len() && #[trigger] entries.drop_last()[k].0 == id;
            assert(entries[k].0 == id);
        }
        if !in_catalog(entries, id) {
            assert(!(entries[entries.len() - 1].0 == id));
            if in_catalog(entries.drop_last(), id) {
                let k = choose|k: int| 0 <= k < entries.drop_last().len() && #[trigger] entries.drop_last()[k].0 == id;
                assert(entries[k].0 == id);
            }
        }
        if rank_in(entries, id) is Some && entries.last().0 == id {
            assert(entries[entries.len() - 1].0 == id);
        }
    }
}

} // verus!
