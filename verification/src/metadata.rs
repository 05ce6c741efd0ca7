//! Naming convention for metadata batches: a batch whose identifier ends
//! with `metadata` carries labels rather than plain data.
use vstd::prelude::*;

verus! {

/// The suffix that marks a metadata batch.
pub open spec fn metadata_suffix() -> Seq<char> {
    seq!['m', 'e', 't', 'a', 'd', 'a', 't', 'a']
}

/// `s` ends with `suffix`.
pub open spec fn ends_with(s: Seq<char>, suffix: Seq<char>) -> bool {
    suffix.len() <= s.len() && s.subrange(s.len() - suffix.len(), s.len() as int) == suffix
}

/// Whether the batch identifier `id` names a metadata batch.
pub fn is_metadata(id: &str) -> (r: bool)
    ensures
        r == ends_with(id@, metadata_suffix()),
{
    let suffix = "metadata";
    proof {
        reveal_strlit("metadata");
    }
    assert(suffix@ == metadata_suffix());
    let n = id.unicode_len();
    let m = suffix.unicode_len();
    if n < m {
        return false;
    }
    let start = n - m;
    let mut i: usize = 0;
    while i < m
        invariant
            m == 8,
            suffix@ == metadata_suffix(),
            n == id@.len(),
            start == n - m,
            i <= m,
            forall|j: int| 0 <= j < i ==> id@[start + j] == suffix@[j],
        decreases m - i,
    {
        if id.get_char(start + i) != suffix.get_char(i) {
            assert(id@.subrange(start as int, n as int)[i as int] != metadata_suffix()[i as int]);
            return false;
        }
        i = i + 1;
    }
    assert(id@.subrange(start as int, n as int) =~= metadata_suffix());
    true
}

/// The identifier of the metadata batch that belongs to the node `node_name`.
pub fn to_metadata(node_name: &str) -> (r: String)
    ensures
        r@ == node_name@ + metadata_suffix(),
{
    let s = node_name.to_owned();
    proof {
        reveal_strlit("metadata");
    }
    s.concat("metadata")
}

/// Every identifier built by `to_metadata` is recognised by `is_metadata`.
pub proof fn lemma_to_metadata_is_metadata(node_name: Seq<char>)
    ensures
        ends_with(node_name + metadata_suffix(), metadata_suffix()),
{
    let s = node_name + metadata_suffix();
    assert(s.subrange(s.len() - 8, s.len() as int) =~= metadata_suffix());
}

/// Law of metadata identifiers: an identifier names a metadata batch
/// exactly when it is some text followed by `metadata`; so every name with
/// `metadata` appended is one, and an identifier whose last character
/// differs from that of `metadata` is not.
pub proof fn lemma_metadata_ids(id: Seq<char>, prefix: Seq<char>)
    ensures
        metadata_suffix() == "metadata"@,
        ends_with(prefix + "metadata"@, metadata_suffix()),
        ends_with(id, metadata_suffix()) ==> id == id.subrange(0, id.len() - 8) + "metadata"@,
        id.len() > 0 && id.last() != 'a' ==> !ends_with(id, metadata_suffix()),
        id.len() < 8 ==> !ends_with(id, metadata_suffix()),
{
    reveal_strlit("metadata");
    assert(metadata_suffix() =~= "metadata"@);
    lemma_to_metadata_is_metadata(prefix);
    if ends_with(id, metadata_suffix()) {
        assert(id =~= id.subrange(0, id.len() - 8) + id.subrange(id.len() - 8, id.len() as int));
        assert(id.last() == id.subrange(id.len() - 8, id.len() as int)[7]);
    }
}

} // verus!
