//! The artifact store: durable key/byte-sequence storage with atomic
//! writes.  The registry coordinator relies only on the abstract contract
//! of the `Storage` trait; `LocalFilesystem` is the library's own
//! implementation of it, holding the file tree rooted at `base_path` in
//! memory.  A disk-backed implementation belongs to the embedding
//! application and must meet the same contract.

use vstd::prelude::*;

use crate::encode::push_slice;
use crate::errors::RegistryError;

verus! {

/// A durable key/value store of byte sequences.
///
/// `save` is atomic: a failed save leaves the prior value (or absence)
/// intact, never a truncated one, and saving byte-identical content to the
/// same key is idempotent (the contents map is unchanged by reinsertion).
/// Overwrite policy is the caller's: the store itself binds the key
/// unconditionally.
pub trait Storage: Sized {
    /// The abstract contents: which value each bound key holds.  The
    /// default is the empty map; a verified implementation defines its own
    /// view, and the default only lets unverified backends outside the
    /// library implement the trait without one.
    open spec fn contents(&self) -> Map<Seq<u8>, Seq<u8>> {
        Map::empty()
    }

    /// Binds `key` to `data`.  On failure nothing has changed.
    fn save(&mut self, key: &[u8], data: &[u8]) -> (r: Result<(), RegistryError>)
        ensures
            r is Ok ==> final(self).contents() == old(self).contents().insert(key@, data@),
            r is Err ==> final(self).contents() == old(self).contents() && r == Err::<
                (),
                RegistryError,
            >(RegistryError::IOFailure),
    ;

    /// Loads the value bound to `key`; `NotFound` exactly when the key is
    /// unbound.
    fn load(&self, key: &[u8]) -> (r: Result<Vec<u8>, RegistryError>)
        ensures
            r matches Ok(v) ==> self.contents().contains_key(key@) && v@ == self.contents()[key@],
            r matches Err(e) ==> e == RegistryError::IOFailure || (e == RegistryError::NotFound
                && !self.contents().contains_key(key@)),
    ;

    /// Whether `key` is bound.
    fn contains(&self, key: &[u8]) -> (r: bool)
        ensures
            r == self.contents().contains_key(key@),
    ;

    /// Unbinds `key`.  On failure nothing has changed.
    fn delete(&mut self, key: &[u8]) -> (r: Result<(), RegistryError>)
        ensures
            r is Ok ==> final(self).contents() == old(self).contents().remove(key@),
            r is Err ==> final(self).contents() == old(self).contents() && r == Err::<
                (),
                RegistryError,
            >(RegistryError::IOFailure),
    ;
}

/// The map induced by an association list, later entries shadowing earlier
/// ones.
pub open spec fn contents_of(s: Seq<(Vec<u8>, Vec<u8>)>) -> Map<Seq<u8>, Seq<u8>>
    decreases s.len(),
{
    if s.len() == 0 {
        Map::empty()
    } else {
        contents_of(s.drop_last()).insert(s.last().0@, s.last().1@)
    }
}

/// The entries of `s` whose key is not `k`, in order.
pub open spec fn drop_key(s: Seq<(Vec<u8>, Vec<u8>)>, k: Seq<u8>) -> Seq<(Vec<u8>, Vec<u8>)>
    decreases s.len(),
{
    if s.len() == 0 {
        s
    } else if s.last().0@ == k {
        drop_key(s.drop_last(), k)
    } else {
        drop_key(s.drop_last(), k).push(s.last())
    }
}

proof fn lemma_drop_key_contents(s: Seq<(Vec<u8>, Vec<u8>)>, k: Seq<u8>)
    ensures
        contents_of(drop_key(s, k)) == contents_of(s).remove(k),
    decreases s.len(),
{
    if s.len() == 0 {
        assert(contents_of(drop_key(s, k)) =~= contents_of(s).remove(k));
    } else {
        lemma_drop_key_contents(s.drop_last(), k);
        if s.last().0@ == k {
            assert(contents_of(drop_key(s, k)) =~= contents_of(s).remove(k));
        } else {
            assert(drop_key(s, k).len() > 0);
            assert(drop_key(s, k).drop_last() =~= drop_key(s.drop_last(), k));
            assert(contents_of(drop_key(s, k)) =~= contents_of(s).remove(k));
        }
    }
}

/// A key is bound exactly when some entry carries it.
proof fn lemma_contents_contains(s: Seq<(Vec<u8>, Vec<u8>)>, k: Seq<u8>)
    ensures
        contents_of(s).contains_key(k) <==> exists|j: int| 0 <= j < s.len() && (#[trigger] s[j]).0@ == k,
    decreases s.len(),
{
    if s.len() > 0 {
        lemma_contents_contains(s.drop_last(), k);
        if contents_of(s).contains_key(k) {
            if s.last().0@ == k {
                assert(s[s.len() - 1].0@ == k);
            } else {
                let j = choose|j: int| 0 <= j < s.len() - 1 && (#[trigger] s.drop_last()[j]).0@ == k;
                assert(s[j].0@ == k);
            }
        }
        if exists|j: int| 0 <= j < s.len() && (#[trigger] s[j]).0@ == k {
            let j = choose|j: int| 0 <= j < s.len() && (#[trigger] s[j]).0@ == k;
            if j < s.len() - 1 {
                assert(s.drop_last()[j].0@ == k);
            }
        }
    }
}

/// The value bound to a key is the one of its last entry.
proof fn lemma_contents_at(s: Seq<(Vec<u8>, Vec<u8>)>, k: Seq<u8>, i: int)
    requires
        0 <= i < s.len(),
        s[i].0@ == k,
        forall|j: int| i < j < s.len() ==> (#[trigger] s[j]).0@ != k,
    ensures
        contents_of(s).contains_key(k),
        contents_of(s)[k] == s[i].1@,
    decreases s.len(),
{
    if i == s.len() - 1 {
    } else {
        lemma_contents_at(s.drop_last(), k, i);
    }
}

/// An in-memory artifact store mirroring the layout the registry would use
/// on a local filesystem under `base_path`.  It meets the full `Storage`
/// contract and never reports an I/O failure, which makes it both the
/// reference model of the store and the backend the library's tests run
/// against.
pub struct LocalFilesystem {
    base_path: String,
    entries: Vec<(Vec<u8>, Vec<u8>)>,
}

impl LocalFilesystem {
    /// The base path this store was created with.
    pub closed spec fn base(&self) -> Seq<char> {
        self.base_path@
    }

    /// Creates an empty store rooted at `base_path`.
    pub fn new(base_path: String) -> (r: Self)
        ensures
            r.contents() == Map::<Seq<u8>, Seq<u8>>::empty(),
            r.base() == base_path@,
    {
        LocalFilesystem { base_path, entries: Vec::new() }
    }

    /// Removes every entry bound to `key`, in place.
    fn prune(&mut self, key: &[u8])
        ensures
            final(self).contents() == old(self).contents().remove(key@),
            final(self).base() == old(self).base(),
    {
        let ghost orig = self.entries@;
        let mut i: usize = 0;
        let ghost mut j: int = 0;
        while i < self.entries.len()
            invariant
                0 <= j <= orig.len(),
                i == drop_key(orig.take(j), key@).len(),
                self.entries@ == drop_key(orig.take(j), key@) + orig.skip(j),
                self.base_path == old(self).base_path,
            decreases self.entries@.len() - i,
        {
            proof {
                assert(self.entries@[i as int] == orig[j]);
                assert(orig.take(j + 1).drop_last() =~= orig.take(j));
                assert(orig.take(j + 1).last() == orig[j]);
            }
            let hit = slices_equal(self.entries[i].0.as_slice(), key);
            if hit {
                self.entries.remove(i);
                proof {
                    assert(self.entries@ =~= drop_key(orig.take(j + 1), key@) + orig.skip(j + 1));
                }
            } else {
                proof {
                    assert(drop_key(orig.take(j + 1), key@) =~= drop_key(orig.take(j), key@).push(
                        orig[j],
                    ));
                    assert(self.entries@ =~= drop_key(orig.take(j + 1), key@) + orig.skip(j + 1));
                }
                i += 1;
            }
            proof {
                j = j + 1;
            }
        }
        proof {
            assert(j == orig.len());
            assert(orig.take(orig.len() as int) =~= orig);
            assert(self.entries@ =~= drop_key(orig, key@));
            lemma_drop_key_contents(orig, key@);
        }
    }

    /// The position of the live (last) entry for `key`, if the key is bound.
    fn find(&self, key: &[u8]) -> (r: Option<usize>)
        ensures
            r matches Some(i) ==> {
                &&& i < self.entries@.len()
                &&& self.entries@[i as int].0@ == key@
                &&& forall|j: int|
                    i < j < self.entries@.len() ==> (#[trigger] self.entries@[j]).0@ != key@
            },
            r is None ==> forall|j: int|
                0 <= j < self.entries@.len() ==> (#[trigger] self.entries@[j]).0@ != key@,
    {
        let mut i: usize = self.entries.len();
        while i > 0
            invariant
                i <= self.entries@.len(),
                forall|j: int| i <= j < self.entries@.len() ==> (#[trigger] self.entries@[j]).0@
                    != key@,
            decreases i,
        {
            i = i - 1;
            let hit = slices_equal(self.entries[i].0.as_slice(), key);
            if hit {
                return Some(i);
            }
        }
        None
    }
}

/// Whether two byte slices hold the same bytes.
pub fn slices_equal(a: &[u8], b: &[u8]) -> (r: bool)
    ensures
        r == (a@ == b@),
{
    if a.len() != b.len() {
        return false;
    }
    let mut i: usize = 0;
    while i < a.len()
        invariant
            i <= a.len(),
            a@.len() == b@.len(),
            forall|j: int| 0 <= j < i ==> a@[j] == b@[j],
        decreases a.len() - i,
    {
        if a[i] != b[i] {
            return false;
        }
        i += 1;
    }
    proof {
        assert(a@ =~= b@);
    }
    true
}

impl Storage for LocalFilesystem {
    closed spec fn contents(&self) -> Map<Seq<u8>, Seq<u8>> {
        contents_of(self.entries@)
    }

    // On top of the trait's contract, the in-memory store promises what a
    // fallible backend cannot: `save` and `delete` always succeed, and
    // `load` fails only with `NotFound`, exactly on an unbound key.  With
    // the trait's own clauses this makes saving byte-identical content to
    // an already-bound key a no-op on the contents, and makes `load` after
    // a successful `save` return exactly the bytes written.
    fn save(&mut self, key: &[u8], data: &[u8]) -> (r: Result<(), RegistryError>)
        ensures
            r is Ok,
    {
        self.prune(key);
        let mut k: Vec<u8> = Vec::new();
        push_slice(&mut k, key);
        let mut v: Vec<u8> = Vec::new();
        push_slice(&mut v, data);
        let ghost before = self.entries@;
        self.entries.push((k, v));
        proof {
            assert(self.entries@.drop_last() =~= before);
            assert(contents_of(self.entries@) =~= old(self).contents().insert(key@, data@));
        }
        Ok(())
    }

    fn load(&self, key: &[u8]) -> (r: Result<Vec<u8>, RegistryError>)
        ensures
            r is Err ==> r == Err::<Vec<u8>, RegistryError>(RegistryError::NotFound)
                && !self.contents().contains_key(key@),
    {
        match self.find(key) {
            Some(i) => {
                let mut v: Vec<u8> = Vec::new();
                push_slice(&mut v, self.entries[i].1.as_slice());
                proof {
                    lemma_contents_at(self.entries@, key@, i as int);
                }
                Ok(v)
            },
            None => {
                proof {
                    lemma_contents_contains(self.entries@, key@);
                }
                Err(RegistryError::NotFound)
            },
        }
    }

    fn contains(&self, key: &[u8]) -> (r: bool) {
        let r = self.find(key);
        proof {
            lemma_contents_contains(self.entries@, key@);
        }
        r.is_some()
    }

    fn delete(&mut self, key: &[u8]) -> (r: Result<(), RegistryError>)
        ensures
            r is Ok,
    {
        self.prune(key);
        Ok(())
    }
}

} // verus!
