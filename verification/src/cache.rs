//! Caches that keep batches between the moment they arrive and the moment
//! they have been consumed: a directory on disk, or a map in memory.
use crate::batch::{MediaDataBatchResponse, MediaDataBatchView};
use vstd::hash_map::StringHashMap;
use vstd::prelude::*;

verus! {

/// A cache rooted at a directory; each batch lives in the sub-directory
/// named by its identifier.
pub struct FSCache {
    path: String,
}

impl View for FSCache {
    type V = Seq<char>;

    closed spec fn view(&self) -> Seq<char> {
        self.path@
    }
}

impl FSCache {
    /// A cache rooted at `path`.
    pub fn new(path: &str) -> (r: Self)
        ensures
            r@ == path@,
    {
        FSCache { path: path.to_owned() }
    }

    /// The root directory of the cache.
    pub fn root(&self) -> (r: &str)
        ensures
            r@ == self@,
    {
        self.path.as_str()
    }
}

/// The message of a read that finds no batch `id`.
pub open spec fn not_found_message(id: Seq<char>) -> Seq<char> {
    seq!['d', 'a', 't', 'a', ' '] + id + seq![' ', 'n', 'o', 't', ' ', 'f', 'o', 'u', 'd']
}

/// A cache that keeps batches in memory, keyed by their identifier.
pub struct MemCache {
    store: StringHashMap<MediaDataBatchResponse>,
}

impl View for MemCache {
    type V = Map<Seq<char>, MediaDataBatchView>;

    closed spec fn view(&self) -> Map<Seq<char>, MediaDataBatchView> {
        self.store@.map_values(|b: MediaDataBatchResponse| b@)
    }
}

impl MemCache {
    /// An empty cache.
    pub fn new() -> (r: Self)
        ensures
            r@ == Map::<Seq<char>, MediaDataBatchView>::empty(),
    {
        let r = MemCache { store: StringHashMap::new() };
        assert(r@ =~= Map::<Seq<char>, MediaDataBatchView>::empty());
        r
    }

    /// Stores `batch` under its identifier, replacing any batch stored there.
    pub fn write(&mut self, batch: MediaDataBatchResponse) -> (r: Result<(), String>)
        ensures
            r is Ok,
            final(self)@ == old(self)@.insert(batch@.id, batch@),
    {
        let id = batch.id.clone();
        self.store.insert(id, batch);
        assert(self@ =~= old(self)@.insert(batch@.id, batch@));
        Ok(())
    }

    /// A copy of the batch stored under `id`, or an error naming `id`.
    pub fn read(&self, id: &str) -> (r: Result<MediaDataBatchResponse, String>)
        ensures
            match r {
                Ok(b) => self@.contains_key(id@) && b@ == self@[id@],
                Err(msg) => !self@.contains_key(id@) && msg@ == not_found_message(id@),
            },
    {
        match self.store.get(id) {
            Some(val) => Ok(val.duplicate()),
            None => {
                let msg = String::from_str("data ");
                let msg = msg.concat(id);
                proof {
                    reveal_strlit("data ");
                    reveal_strlit(" not foud");
                }
                let msg = msg.concat(" not foud");
                Err(msg)
            },
        }
    }

    /// Drops the batch stored under `id`, if any.
    pub fn remove(&mut self, id: &str) -> (r: Result<(), String>)
        ensures
            r is Ok,
            final(self)@ == old(self)@.remove(id@),
    {
        self.store.remove(id);
        assert(self@ =~= old(self)@.remove(id@));
        Ok(())
    }
}

/// Law of the cache: reading a batch just written gives it back, and a write
/// leaves every other identifier as it was.
pub proof fn lemma_read_after_write(
    m: Map<Seq<char>, MediaDataBatchView>,
    b: MediaDataBatchView,
    other: Seq<char>,
)
    ensures
        m.insert(b.id, b).contains_key(b.id),
        m.insert(b.id, b)[b.id] == b,
        other != b.id ==> (m.insert(b.id, b).contains_key(other) == m.contains_key(other)),
        other != b.id && m.contains_key(other) ==> m.insert(b.id, b)[other] == m[other],
{
}

/// Law of the cache: after a remove, the identifier is no longer found, and
/// every other identifier is as it was.
pub proof fn lemma_read_after_remove(m: Map<Seq<char>, MediaDataBatchView>, id: Seq<char>, other: Seq<char>)
    ensures
        !m.remove(id).contains_key(id),
        other != id ==> (m.remove(id).contains_key(other) == m.contains_key(other)),
        other != id && m.contains_key(other) ==> m.remove(id)[other] == m[other],
{
}

} // verus!
