//! The filename-keyed byte store: the service's only stateful component.
//!
//! A `Store` holds each filename's bytes. Writing an existing filename
//! overwrites it — last writer wins — and there is no deletion. The store
//! is viewed as a map from filename (a character sequence) to byte
//! sequence, and every operation's contract is stated over that map.
//!
//! The filename is used verbatim as the key: nothing rejects or
//! normalizes path separators or parent-directory segments. A backing
//! store that turns keys into filesystem paths therefore inherits a
//! path-traversal hazard — a known gap of this service, kept, not fixed.

use vstd::prelude::*;
use vstd::pervasive::VecAdditionalExecFns;

verus! {

/// One stored file: the client-supplied name keying the bytes.
pub struct StoredEntry {
    pub name: String,
    pub data: Vec<u8>,
}

/// The map denoted by a sequence of entries: each entry binds its name to
/// its bytes, later entries winning on a repeated name.
spec fn map_of(s: Seq<StoredEntry>) -> Map<Seq<char>, Seq<u8>>
    decreases s.len(),
{
    if s.len() == 0 {
        Map::empty()
    } else {
        map_of(s.drop_last()).insert(s.last().name@, s.last().data@)
    }
}

/// No two entries share a name.
spec fn unique_names(s: Seq<StoredEntry>) -> bool {
    forall|i: int, j: int| 0 <= i < j < s.len() ==> s[i].name@ != s[j].name@
}

/// A name is a key of `map_of(s)` exactly when some entry carries it.
proof fn lemma_map_of_contains(s: Seq<StoredEntry>, k: Seq<char>)
    ensures
        map_of(s).contains_key(k) <==> exists|i: int| 0 <= i < s.len() && s[i].name@ == k,
    decreases s.len(),
{
    if s.len() > 0 {
        lemma_map_of_contains(s.drop_last(), k);
        if s.last().name@ == k {
            assert(s[s.len() - 1].name@ == k);
        } else {
            if map_of(s).contains_key(k) {
                let i = choose|i: int| 0 <= i < s.drop_last().len() && s.drop_last()[i].name@
                    == k;
                assert(s[i].name@ == k);
            }
            if exists|i: int| 0 <= i < s.len() && s[i].name@ == k {
                let i = choose|i: int| 0 <= i < s.len() && s[i].name@ == k;
                assert(i < s.len() - 1);
                assert(s.drop_last()[i].name@ == k);
            }
        }
    }
}

/// With unique names, each entry's name maps to that entry's bytes.
proof fn lemma_map_of_value(s: Seq<StoredEntry>, i: int)
    requires
        unique_names(s),
        0 <= i < s.len(),
    ensures
        map_of(s).contains_key(s[i].name@),
        map_of(s)[s[i].name@] == s[i].data@,
    decreases s.len(),
{
    if i == s.len() - 1 {
    } else {
        assert(unique_names(s.drop_last())) by {
            assert(forall|a: int, b: int|
                0 <= a < b < s.drop_last().len() ==> s.drop_last()[a] == s[a]
                    && s.drop_last()[b] == s[b]);
        }
        lemma_map_of_value(s.drop_last(), i);
        assert(s.drop_last()[i] == s[i]);
        assert(s[i].name@ != s.last().name@);
    }
}

/// Replacing the entry at `i` by one with the same name turns the map into
/// an insert of the new bytes at that name.
proof fn lemma_map_of_update(s: Seq<StoredEntry>, i: int, e: StoredEntry)
    requires
        unique_names(s),
        0 <= i < s.len(),
        e.name@ == s[i].name@,
    ensures
        map_of(s.update(i, e)) == map_of(s).insert(e.name@, e.data@),
    decreases s.len(),
{
    let s2 = s.update(i, e);
    if i == s.len() - 1 {
        assert(s2.drop_last() =~= s.drop_last());
        assert(s2.last() == e);
        assert(map_of(s.drop_last()).insert(e.name@, e.data@) =~= map_of(s).insert(
            e.name@,
            e.data@,
        ));
    } else {
        assert(unique_names(s.drop_last())) by {
            assert(forall|a: int, b: int|
                0 <= a < b < s.drop_last().len() ==> s.drop_last()[a] == s[a]
                    && s.drop_last()[b] == s[b]);
        }
        assert(s2.drop_last() =~= s.drop_last().update(i, e));
        lemma_map_of_update(s.drop_last(), i, e);
        assert(s2.last() == s.last());
        // The final inserts are at distinct names, so they commute.
        assert(s.last().name@ != e.name@);
        assert(map_of(s.drop_last()).insert(e.name@, e.data@).insert(
            s.last().name@,
            s.last().data@,
        ) =~= map_of(s.drop_last()).insert(s.last().name@, s.last().data@).insert(
            e.name@,
            e.data@,
        ));
    }
}

/// Appending an entry turns the map into an insert of its name and bytes.
proof fn lemma_map_of_push(s: Seq<StoredEntry>, e: StoredEntry)
    ensures
        map_of(s.push(e)) == map_of(s).insert(e.name@, e.data@),
{
    assert(s.push(e).drop_last() =~= s);
    assert(s.push(e).last() == e);
}

/// A filename-keyed byte store. Its view is the map from each stored
/// filename to the bytes last written under it.
pub struct Store {
    entries: Vec<StoredEntry>,
}

impl View for Store {
    type V = Map<Seq<char>, Seq<u8>>;

    closed spec fn view(&self) -> Map<Seq<char>, Seq<u8>> {
        map_of(self.entries@)
    }
}

impl Store {
    /// Well-formed: no filename occurs twice among the entries.
    pub closed spec fn wf(&self) -> bool {
        unique_names(self.entries@)
    }

    /// An empty store.
    pub fn new() -> (s: Store)
        ensures
            s.wf(),
            s@ == Map::<Seq<char>, Seq<u8>>::empty(),
    {
        Store { entries: Vec::new() }
    }

    /// The index of the entry named `name`, if any.
    fn find(&self, name: &String) -> (r: Option<usize>)
        ensures
            match r {
                Some(i) => i < self.entries@.len() && self.entries@[i as int].name@ == name@,
                None => forall|j: int|
                    0 <= j < self.entries@.len() ==> self.entries@[j].name@ != name@,
            },
    {
        let mut i: usize = 0;
        while i < self.entries.len()
            invariant
                i <= self.entries@.len(),
                forall|j: int| 0 <= j < i ==> self.entries@[j].name@ != name@,
            decreases self.entries@.len() - i,
        {
            if self.entries[i].name == *name {
                return Some(i);
            }
            i += 1;
        }
        None
    }

    /// Creates or overwrites the entry named `name` with `data`: afterwards
    /// the store maps `name` to `data` and every other name to what it held
    /// before.
    pub fn write(&mut self, name: String, data: Vec<u8>)
        requires
            old(self).wf(),
        ensures
            final(self).wf(),
            final(self)@ == old(self)@.insert(name@, data@),
    {
        let ghost gname = name@;
        match self.find(&name) {
            Some(i) => {
                self.entries.set(i, StoredEntry { name, data });
                proof {
                    lemma_map_of_update(
                        old(self).entries@,
                        i as int,
                        self.entries@[i as int],
                    );
                    assert(unique_names(self.entries@)) by {
                        assert(forall|a: int|
                            0 <= a < self.entries@.len() ==> self.entries@[a].name@ == old(
                                self,
                            ).entries@[a].name@);
                    }
                }
            },
            None => {
                self.entries.push(StoredEntry { name, data });
                proof {
                    lemma_map_of_push(old(self).entries@, self.entries@.last());
                    assert(self.entries@.drop_last() =~= old(self).entries@);
                    assert(unique_names(self.entries@)) by {
                        assert(forall|a: int|
                            0 <= a < old(self).entries@.len() ==> self.entries@[a] == old(
                                self,
                            ).entries@[a]);
                        assert(self.entries@[self.entries@.len() - 1].name@ == gname);
                    }
                }
            },
        }
    }

    /// Reads the bytes stored under `name`: the full content if the name is
    /// present, nothing if it is absent.
    pub fn read(&self, name: &String) -> (r: Option<Vec<u8>>)
        requires
            self.wf(),
        ensures
            match r {
                Some(d) => self@.contains_key(name@) && d@ == self@[name@],
                None => !self@.contains_key(name@),
            },
    {
        match self.find(name) {
            Some(i) => {
                proof {
                    lemma_map_of_value(self.entries@, i as int);
                }
                Some(copy_bytes(&self.entries[i].data))
            },
            None => {
                proof {
                    lemma_map_of_contains(self.entries@, name@);
                }
                None
            },
        }
    }

    /// Lists every stored filename, each exactly once, in unspecified order.
    pub fn list(&self) -> (names: Vec<String>)
        requires
            self.wf(),
        ensures
            forall|i: int| 0 <= i < names@.len() ==> self@.contains_key(names@[i]@),
            forall|k: Seq<char>|
                self@.contains_key(k) ==> exists|i: int|
                    0 <= i < names@.len() && names@[i]@ == k,
            forall|i: int, j: int| 0 <= i < j < names@.len() ==> names@[i]@ != names@[j]@,
    {
        let mut names: Vec<String> = Vec::new();
        let mut i: usize = 0;
        while i < self.entries.len()
            invariant
                self.wf(),
                i <= self.entries@.len(),
                names@.len() == i,
                forall|j: int| 0 <= j < i ==> names@[j] == self.entries@[j].name,
            decreases self.entries@.len() - i,
        {
            names.push(self.entries[i].name.clone());
            i += 1;
        }
        proof {
            assert forall|i2: int| 0 <= i2 < names@.len() implies self@.contains_key(
                names@[i2]@,
            ) by {
                lemma_map_of_contains(self.entries@, names@[i2]@);
            }
            assert forall|k: Seq<char>| self@.contains_key(k) implies exists|i2: int|
                0 <= i2 < names@.len() && names@[i2]@ == k by {
                lemma_map_of_contains(self.entries@, k);
                let w = choose|w: int| 0 <= w < self.entries@.len() && self.entries@[w].name@
                    == k;
                assert(names@[w]@ == k);
            }
        }
        names
    }
}

/// A fresh vector holding exactly the bytes of `src`.
fn copy_bytes(src: &Vec<u8>) -> (out: Vec<u8>)
    ensures
        out@ == src@,
{
    let mut out: Vec<u8> = Vec::new();
    let mut i: usize = 0;
    while i < src.len()
        invariant
            i <= src@.len(),
            out@ =~= src@.subrange(0, i as int),
        decreases src@.len() - i,
    {
        out.push(src[i]);
        i += 1;
    }
    proof {
        assert(out@ =~= src@);
    }
    out
}

} // verus!
