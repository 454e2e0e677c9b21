//! An append-only, string-keyed table of GPU object handles.
//!
//! Both caches of the pipeline — uniform locations per program and vertex
//! arrays per mesh identity — only ever grow: an entry, once created, is
//! reused for the process lifetime (eviction is an explicit non-goal of this
//! design). Handles are assigned densely, so the handle of a key is its
//! insertion index, and the host's replay side can keep its own table of real
//! GPU objects indexed the same way.

use vstd::prelude::*;

verus! {

/// The mathematical value of a cache: keys in insertion order, each with its
/// handle.
pub open spec fn entries_view(entries: Seq<(String, usize)>) -> Seq<(Seq<char>, usize)> {
    Seq::new(entries.len(), |i: int| (entries[i].0@, entries[i].1))
}

/// The handle of the first entry with this key, if any.
pub open spec fn cache_find(entries: Seq<(Seq<char>, usize)>, key: Seq<char>) -> Option<usize>
    decreases entries.len(),
{
    if entries.len() == 0 {
        None
    } else if entries[0].0 == key {
        Some(entries[0].1)
    } else {
        cache_find(entries.subrange(1, entries.len() as int), key)
    }
}

/// Well-formed: keys are distinct and the handle of each entry is its index.
pub open spec fn cache_wf(entries: Seq<(Seq<char>, usize)>) -> bool {
    &&& forall|i: int, j: int|
        0 <= i < j < entries.len() ==> (#[trigger] entries[i]).0 != (#[trigger] entries[j]).0
    &&& forall|i: int| 0 <= i < entries.len() ==> (#[trigger] entries[i]).1 == i
}

/// A find over a cache whose prefix misses the key resolves at the first hit.
pub proof fn lemma_cache_find_hit(entries: Seq<(Seq<char>, usize)>, key: Seq<char>, k: int)
    requires
        0 <= k < entries.len(),
        entries[k].0 == key,
        forall|j: int| 0 <= j < k ==> (#[trigger] entries[j]).0 != key,
    ensures
        cache_find(entries, key) == Some(entries[k].1),
    decreases k,
{
    if k > 0 {
        let rest = entries.subrange(1, entries.len() as int);
        lemma_cache_find_hit(rest, key, k - 1);
    }
}

/// A find over a cache none of whose keys matches returns nothing.
pub proof fn lemma_cache_find_miss(entries: Seq<(Seq<char>, usize)>, key: Seq<char>)
    requires
        forall|j: int| 0 <= j < entries.len() ==> (#[trigger] entries[j]).0 != key,
    ensures
        cache_find(entries, key) is None,
    decreases entries.len(),
{
    if entries.len() > 0 {
        let rest = entries.subrange(1, entries.len() as int);
        lemma_cache_find_miss(rest, key);
    }
}

/// Conversely, a miss means no key of the cache matches.
pub proof fn lemma_cache_miss_no_key(entries: Seq<(Seq<char>, usize)>, key: Seq<char>)
    requires
        cache_find(entries, key) is None,
    ensures
        forall|j: int| 0 <= j < entries.len() ==> (#[trigger] entries[j]).0 != key,
    decreases entries.len(),
{
    if entries.len() > 0 {
        let rest = entries.subrange(1, entries.len() as int);
        lemma_cache_miss_no_key(rest, key);
        assert(forall|j: int| 0 <= j < rest.len() ==> (#[trigger] rest[j]).0 != key);
        assert forall|j: int| 0 <= j < entries.len() implies (#[trigger] entries[j]).0 != key by {
            if j > 0 {
                assert(rest[j - 1] == entries[j]);
            }
        }
    }
}

/// Appending an entry under a key the cache misses makes that key resolve to
/// the new handle.
pub proof fn lemma_cache_find_push_same(
    entries: Seq<(Seq<char>, usize)>,
    key: Seq<char>,
    handle: usize,
)
    requires
        cache_find(entries, key) is None,
    ensures
        cache_find(entries.push((key, handle)), key) == Some(handle),
{
    lemma_cache_miss_no_key(entries, key);
    let pushed = entries.push((key, handle));
    assert(pushed[entries.len() as int].0 == key);
    lemma_cache_find_hit(pushed, key, entries.len() as int);
}

/// Appending an entry leaves every other key's resolution unchanged.
pub proof fn lemma_cache_find_push_other(
    entries: Seq<(Seq<char>, usize)>,
    key: Seq<char>,
    handle: usize,
    other: Seq<char>,
)
    requires
        other != key,
    ensures
        cache_find(entries.push((key, handle)), other) == cache_find(entries, other),
    decreases entries.len(),
{
    let pushed = entries.push((key, handle));
    assert(pushed.len() == entries.len() + 1);
    if entries.len() == 0 {
        assert(pushed[0] == (key, handle));
        assert(pushed.subrange(1, pushed.len() as int) =~= Seq::<(Seq<char>, usize)>::empty());
        assert(cache_find(pushed.subrange(1, pushed.len() as int), other) is None);
        assert(cache_find(pushed, other) is None);
    } else {
        assert(pushed[0] == entries[0]);
        let rest = entries.subrange(1, entries.len() as int);
        lemma_cache_find_push_other(rest, key, handle, other);
        assert(pushed.subrange(1, pushed.len() as int) =~= rest.push((key, handle)));
        assert(cache_find(pushed.subrange(1, pushed.len() as int), other) == cache_find(
            rest.push((key, handle)),
            other,
        ));
    }
}

/// The vertex-array capability of the context: vertex-array objects are not
/// part of the baseline context interface and are reached through a named,
/// optional extension, looked up at construction (its absence is fatal). The
/// handles it creates are cached per mesh identity, and only grow.
pub struct VaoExtension {
    pub vaos: Vec<(String, usize)>,
}

impl VaoExtension {
    /// The cache as a mathematical value: identities with their handles, in
    /// creation order.
    pub open spec fn view_entries(self) -> Seq<(Seq<char>, usize)> {
        entries_view(self.vaos@)
    }

    /// Identities are distinct and handles dense.
    pub open spec fn wf(self) -> bool {
        cache_wf(self.view_entries())
    }

    /// An empty cache, made when the extension is found at construction.
    pub fn new() -> (ext: VaoExtension)
        ensures
            ext.wf(),
            ext.view_entries() == Seq::<(Seq<char>, usize)>::empty(),
    {
        let ext = VaoExtension { vaos: Vec::new() };
        proof {
            assert(ext.view_entries() =~= Seq::<(Seq<char>, usize)>::empty());
        }
        ext
    }
}

/// Scan the table for a key; the result is exactly what [`cache_find`] says.
pub fn cache_lookup(entries: &Vec<(String, usize)>, key: &String) -> (r: Option<usize>)
    ensures
        r == cache_find(entries_view(entries@), key@),
{
    let ghost model = entries_view(entries@);
    let n = entries.len();
    let mut i: usize = 0;
    while i < n
        invariant
            0 <= i <= n,
            n == entries@.len(),
            model == entries_view(entries@),
            forall|j: int| 0 <= j < i ==> (#[trigger] model[j]).0 != key@,
        decreases n - i,
    {
        if entries[i].0 == *key {
            proof {
                lemma_cache_find_hit(model, key@, i as int);
            }
            return Some(entries[i].1);
        }
        i = i + 1;
    }
    proof {
        lemma_cache_find_miss(model, key@);
    }
    None
}

} // verus!
