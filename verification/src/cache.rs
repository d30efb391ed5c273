use vstd::prelude::*;

use dashmap::DashMap;

use crate::text::{chars_vec, is_whitespace, is_ws};
use crate::track::{TrackMetadata, TrackMetadataView};

verus! {

/// The directory of the track cache.
pub const CACHE_DIR: &'static str = ".track_cache";

/// The file of the track cache's index.
pub const CACHE_INDEX_FILE: &'static str = "metadata_index.json";

/// The path that `std::path::Path::join` makes of `base` and `part`.
pub uninterp spec fn path_joined(base: Seq<char>, part: Seq<char>) -> Seq<char>;

/// Joins two path pieces with `std::path::PathBuf::join`, as text.
///
/// Claimed of it: the result is the name `path_joined` of the two pieces; the
/// platform's separator rules are not restated.
#[verifier::external_body]
fn join_path(base: &str, part: &str) -> (r: String)
    ensures
        r@ == path_joined(base@, part@),
{
    std::path::PathBuf::from(base).join(part).to_string_lossy().into_owned()
}

/// The path of the track cache's index file.
pub fn get_cache_file_path() -> (p: String)
    ensures
        p@ == path_joined(CACHE_DIR@, CACHE_INDEX_FILE@),
{
    join_path(CACHE_DIR, CACHE_INDEX_FILE)
}

/// Whether a text is empty once its leading and trailing whitespace is removed.
pub fn is_blank(content: &str) -> (b: bool)
    ensures
        b == forall|i: int| 0 <= i < content@.len() ==> is_ws(#[trigger] content@[i]),
{
    let chars = chars_vec(content);
    let mut i: usize = 0;
    while i < chars.len()
        invariant
            chars@ == content@,
            i <= chars@.len(),
            forall|j: int| 0 <= j < i ==> is_ws(#[trigger] chars@[j]),
        decreases chars@.len() - i,
    {
        if !is_whitespace(chars[i]) {
            return false;
        }
        i = i + 1;
    }
    true
}

/// The metadata stored for `url` in a list of entries: the last entry for it.
pub open spec fn lookup(entries: Seq<(String, TrackMetadata)>, url: Seq<char>) -> Option<
    TrackMetadataView,
>
    decreases entries.len(),
{
    if entries.len() == 0 {
        None
    } else if entries.last().0@ == url {
        Some(entries.last().1@)
    } else {
        lookup(entries.drop_last(), url)
    }
}

/// No two entries are for the same link.
pub open spec fn keys_unique(entries: Seq<(String, TrackMetadata)>) -> bool {
    forall|i: int, j: int|
        0 <= i < j < entries.len() ==> (#[trigger] entries[i]).0@ != (#[trigger] entries[j]).0@
}

proof fn lemma_lookup_absent(entries: Seq<(String, TrackMetadata)>, url: Seq<char>)
    requires
        forall|j: int| 0 <= j < entries.len() ==> (#[trigger] entries[j]).0@ != url,
    ensures
        lookup(entries, url) is None,
    decreases entries.len(),
{
    if entries.len() > 0 {
        lemma_lookup_absent(entries.drop_last(), url);
    }
}

proof fn lemma_lookup_at(entries: Seq<(String, TrackMetadata)>, i: int)
    requires
        keys_unique(entries),
        0 <= i < entries.len(),
    ensures
        lookup(entries, entries[i].0@) == Some(entries[i].1@),
    decreases entries.len(),
{
    if i < entries.len() - 1 {
        assert(entries.drop_last()[i] == entries[i]);
        lemma_lookup_at(entries.drop_last(), i);
    }
}

/// The concurrent map of the `dashmap` crate.
#[verifier::external_type_specification]
#[verifier::external_body]
#[verifier::reject_recursive_types(K)]
#[verifier::reject_recursive_types(V)]
#[verifier::reject_recursive_types(S)]
pub struct ExDashMap<K, V, S>(DashMap<K, V, S>);

/// What a `dashmap::DashMap` of track metadata holds: the metadata of each link.
pub uninterp spec fn index_contents(m: DashMap<String, TrackMetadata>) -> Map<
    Seq<char>,
    TrackMetadataView,
>;

/// A new, empty map (`DashMap::new`).
#[verifier::external_body]
fn index_new() -> (m: DashMap<String, TrackMetadata>)
    ensures
        index_contents(m).dom() == Set::<Seq<char>>::empty(),
{
    DashMap::new()
}

/// The metadata that the map holds for `url` (`DashMap::get`), cloned; `None` where it
/// holds none.
#[verifier::external_body]
fn index_get(m: &DashMap<String, TrackMetadata>, url: &str) -> (r: Option<TrackMetadata>)
    ensures
        match r {
            Some(x) => index_contents(*m).contains_key(url@) && index_contents(*m)[url@] == x@,
            None => !index_contents(*m).contains_key(url@),
        },
{
    match m.get(url) {
        Some(entry) => Some(entry.value().clone()),
        None => None,
    }
}

/// Stores `metadata` for `url`, replacing what was stored for it (`DashMap::insert`).
/// The map is taken by `&mut` here, though `insert` needs only `&`, so that its change
/// is seen.
#[verifier::external_body]
fn index_insert(m: &mut DashMap<String, TrackMetadata>, url: String, metadata: TrackMetadata)
    ensures
        index_contents(*final(m)) == index_contents(*old(m)).insert(url@, metadata@),
{
    m.insert(url, metadata);
}

/// The entries of the map (`DashMap::iter`), each cloned: each link once, with its
/// metadata. The order in which they come is left unsaid.
#[verifier::external_body]
fn index_entries(m: &DashMap<String, TrackMetadata>) -> (r: Vec<(String, TrackMetadata)>)
    ensures
        keys_unique(r@),
        forall|i: int|
            0 <= i < r@.len() ==> index_contents(*m).contains_key((#[trigger] r@[i]).0@)
                && index_contents(*m)[r@[i].0@] == r@[i].1@,
        forall|u: Seq<char>| #[trigger]
            index_contents(*m).contains_key(u) ==> exists|i: int|
                0 <= i < r@.len() && (#[trigger] r@[i]).0@ == u,
{
    m.iter().map(|entry| (entry.key().clone(), entry.value().clone())).collect()
}

/// The metadata of tracks already looked up, by the track's link.
pub struct TrackCache {
    index: DashMap<String, TrackMetadata>,
}

impl TrackCache {
    /// The metadata stored for `url`, if any.
    pub closed spec fn get(&self, url: Seq<char>) -> Option<TrackMetadataView> {
        if index_contents(self.index).contains_key(url) {
            Some(index_contents(self.index)[url])
        } else {
            None
        }
    }

    /// An empty cache.
    pub fn new() -> (c: Self)
        ensures
            forall|url: Seq<char>| #[trigger] c.get(url) is None,
    {
        TrackCache { index: index_new() }
    }

    /// The metadata cached for `url`, if any.
    pub fn get_cached_metadata(&self, url: &str) -> (r: Option<TrackMetadata>)
        ensures
            match r {
                Some(m) => self.get(url@) == Some(m@),
                None => self.get(url@) is None,
            },
    {
        index_get(&self.index, url)
    }

    /// Stores `metadata` for `url`, replacing what was stored for it, when the
    /// metadata has a title and a link; gives back whether it was stored (and the cache
    /// is to be saved).
    pub fn cache_metadata(&mut self, url: &str, metadata: TrackMetadata) -> (stored: bool)
        ensures
            stored == (metadata.title@.len() > 0 && metadata.url is Some),
            stored ==> forall|u: Seq<char>|
                #[trigger] final(self).get(u) == if u == url@ {
                    Some(metadata@)
                } else {
                    old(self).get(u)
                },
            !stored ==> forall|u: Seq<char>| #[trigger] final(self).get(u) == old(self).get(u),
    {
        if metadata.title.as_str().is_empty() || metadata.url.is_none() {
            return false;
        }
        index_insert(&mut self.index, url.to_string(), metadata);
        true
    }

    /// The cached entries, for saving: each link once, with its metadata.
    pub fn snapshot(&self) -> (r: Vec<(String, TrackMetadata)>)
        ensures
            keys_unique(r@),
            forall|u: Seq<char>| #[trigger] lookup(r@, u) == self.get(u),
    {
        let r = index_entries(&self.index);
        proof {
            assert forall|u: Seq<char>| #[trigger] lookup(r@, u) == self.get(u) by {
                if index_contents(self.index).contains_key(u) {
                    let i = choose|i: int| 0 <= i < r@.len() && (#[trigger] r@[i]).0@ == u;
                    lemma_lookup_at(r@, i);
                } else {
                    assert forall|j: int| 0 <= j < r@.len() implies (#[trigger] r@[j]).0@ != u by {
                        assert(index_contents(self.index).contains_key(r@[j].0@));
                    }
                    lemma_lookup_absent(r@, u);
                }
            }
        }
        r
    }

    /// A cache of the entries read back from disk; a later entry for a link replaces an
    /// earlier one.
    pub fn from_entries(entries: Vec<(String, TrackMetadata)>) -> (c: Self)
        ensures
            forall|u: Seq<char>| #[trigger] c.get(u) == lookup(entries@, u),
    {
        let mut c = TrackCache::new();
        let mut i: usize = 0;
        while i < entries.len()
            invariant
                i <= entries@.len(),
                forall|u: Seq<char>| #[trigger] c.get(u) == lookup(entries@.take(i as int), u),
            decreases entries@.len() - i,
        {
            let url = entries[i].0.clone();
            let meta = entries[i].1.copy();
            let ghost before = c;
            index_insert(&mut c.index, url, meta);
            proof {
                let pre = entries@.take(i as int);
                let now = entries@.take(i + 1);
                assert(now.drop_last() =~= pre);
                assert(now.last() == entries@[i as int]);
                assert forall|u: Seq<char>| #[trigger] c.get(u) == lookup(now, u) by {
                    assert(before.get(u) == lookup(pre, u));
                }
            }
            i = i + 1;
        }
        proof {
            assert(entries@.take(entries@.len() as int) =~= entries@);
        }
        c
    }
}

} // verus!
