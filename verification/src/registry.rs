//! Rendezvous registry: maps a logical peer name to its most recently
//! observed public endpoint. Registration is an unconditional upsert — a
//! new announcement for an existing name overwrites the prior endpoint —
//! and entries are never deleted or expired.

use vstd::prelude::*;
use vstd::slice::slice_to_vec;
use crate::endpoint::Endpoint;

verus! {

/// Whether no two entries carry the same name.
spec fn unique_keys(entries: Seq<(Vec<u8>, Endpoint)>) -> bool {
    forall|i: int, j: int|
        0 <= i < j < entries.len() ==> entries[i].0@ != entries[j].0@
}

/// The mapping an entry list denotes: each entry binds its name to its
/// endpoint, a later entry overriding an earlier one.
spec fn map_of(entries: Seq<(Vec<u8>, Endpoint)>) -> Map<Seq<u8>, Endpoint>
    decreases entries.len(),
{
    if entries.len() == 0 {
        Map::empty()
    } else {
        map_of(entries.drop_last()).insert(entries.last().0@, entries.last().1)
    }
}

proof fn lemma_map_of_absent(entries: Seq<(Vec<u8>, Endpoint)>, name: Seq<u8>)
    requires
        forall|j: int| 0 <= j < entries.len() ==> entries[j].0@ != name,
    ensures
        !map_of(entries).contains_key(name),
    decreases entries.len(),
{
    if entries.len() > 0 {
        lemma_map_of_absent(entries.drop_last(), name);
    }
}

proof fn lemma_map_of_index(entries: Seq<(Vec<u8>, Endpoint)>, i: int)
    requires
        0 <= i < entries.len(),
        unique_keys(entries),
    ensures
        map_of(entries).contains_key(entries[i].0@),
        map_of(entries)[entries[i].0@] == entries[i].1,
    decreases entries.len(),
{
    let l = entries.len() - 1;
    if i < l {
        lemma_map_of_index(entries.drop_last(), i);
        assert(entries[i].0@ != entries[l].0@);
    }
}

proof fn lemma_map_of_update(
    entries: Seq<(Vec<u8>, Endpoint)>,
    i: int,
    pair: (Vec<u8>, Endpoint),
)
    requires
        0 <= i < entries.len(),
        entries[i].0@ == pair.0@,
        unique_keys(entries),
    ensures
        map_of(entries.update(i, pair)) == map_of(entries).insert(pair.0@, pair.1),
    decreases entries.len(),
{
    let l = entries.len() - 1;
    let updated = entries.update(i, pair);
    if i == l {
        assert(updated.drop_last() =~= entries.drop_last());
        assert(map_of(updated) == map_of(entries.drop_last()).insert(pair.0@, pair.1));
        assert(map_of(entries.drop_last()).insert(entries[l].0@, entries[l].1).insert(
            pair.0@,
            pair.1,
        ) =~= map_of(entries.drop_last()).insert(pair.0@, pair.1));
    } else {
        assert(updated.drop_last() =~= entries.drop_last().update(i, pair));
        assert(updated.last() == entries.last());
        lemma_map_of_update(entries.drop_last(), i, pair);
        assert(entries[i].0@ != entries[l].0@);
        assert(map_of(entries.drop_last()).insert(pair.0@, pair.1).insert(
            entries[l].0@,
            entries[l].1,
        ) =~= map_of(entries.drop_last()).insert(entries[l].0@, entries[l].1).insert(
            pair.0@,
            pair.1,
        ));
    }
}

/// Compares two byte slices for equality.
fn bytes_eq(a: &[u8], b: &[u8]) -> (r: bool)
    ensures
        r == (a@ == b@),
{
    if a.len() != b.len() {
        return false;
    }
    let mut i: usize = 0;
    while i < a.len()
        invariant
            i <= a@.len(),
            a@.len() == b@.len(),
            forall|j: int| 0 <= j < i ==> a@[j] == b@[j],
        decreases a@.len() - i,
    {
        if a[i] != b[i] {
            return false;
        }
        i = i + 1;
    }
    assert(a@ =~= b@);
    true
}

/// The name-to-endpoint registry. Its abstract value is a map from name
/// bytes to the endpoint most recently registered under them.
pub struct Registry {
    entries: Vec<(Vec<u8>, Endpoint)>,
}

impl View for Registry {
    type V = Map<Seq<u8>, Endpoint>;

    closed spec fn view(&self) -> Map<Seq<u8>, Endpoint> {
        map_of(self.entries@)
    }
}

impl Registry {
    /// Well-formed: at most one live entry per name.
    pub closed spec fn wf(&self) -> bool {
        unique_keys(self.entries@)
    }

    /// An empty registry.
    pub fn new() -> (r: Registry)
        ensures
            r.wf(),
            r@ == Map::<Seq<u8>, Endpoint>::empty(),
    {
        Registry { entries: Vec::new() }
    }

    /// The position of the live entry for `name`, if there is one.
    fn find_index(&self, name: &[u8]) -> (r: Option<usize>)
        ensures
            match r {
                Some(i) => i < self.entries@.len() && self.entries@[i as int].0@ == name@,
                None => forall|j: int|
                    0 <= j < self.entries@.len() ==> self.entries@[j].0@ != name@,
            },
    {
        let mut i: usize = 0;
        while i < self.entries.len()
            invariant
                i <= self.entries@.len(),
                forall|j: int| 0 <= j < i ==> self.entries@[j].0@ != name@,
            decreases self.entries@.len() - i,
        {
            let entry = &self.entries[i];
            if bytes_eq(entry.0.as_slice(), name) {
                return Some(i);
            }
            i = i + 1;
        }
        None
    }

    /// Unconditional upsert: binds `name` to `endpoint`, overwriting any
    /// prior endpoint registered under that name.
    pub fn register(&mut self, name: &[u8], endpoint: Endpoint)
        requires
            old(self).wf(),
        ensures
            final(self).wf(),
            final(self)@ == old(self)@.insert(name@, endpoint),
    {
        let owned: Vec<u8> = slice_to_vec(name);
        match self.find_index(name) {
            Some(i) => {
                let ghost before = self.entries@;
                self.entries[i] = (owned, endpoint);
                proof {
                    assert(self.entries@ =~= before.update(i as int, self.entries@[i as int]));
                    lemma_map_of_update(before, i as int, self.entries@[i as int]);
                    assert(unique_keys(self.entries@));
                }
            },
            None => {
                let ghost before = self.entries@;
                self.entries.push((owned, endpoint));
                proof {
                    assert(self.entries@.drop_last() =~= before);
                    assert(unique_keys(self.entries@));
                }
            },
        }
    }

    /// The endpoint most recently registered under `name`, or `None` when
    /// the name was never announced.
    pub fn lookup(&self, name: &[u8]) -> (r: Option<Endpoint>)
        requires
            self.wf(),
        ensures
            match r {
                Some(e) => self@.contains_key(name@) && self@[name@] == e,
                None => !self@.contains_key(name@),
            },
    {
        match self.find_index(name) {
            Some(i) => {
                proof {
                    lemma_map_of_index(self.entries@, i as int);
                }
                let entry = &self.entries[i];
                Some(entry.1)
            },
            None => {
                proof {
                    lemma_map_of_absent(self.entries@, name@);
                }
                None
            },
        }
    }
}

/// Last write wins: after a name is bound twice, the map holds the second
/// endpoint, exactly as if the first binding had never happened.
pub proof fn lemma_last_write_wins(
    m: Map<Seq<u8>, Endpoint>,
    name: Seq<u8>,
    first: Endpoint,
    second: Endpoint,
)
    ensures
        m.insert(name, first).insert(name, second) == m.insert(name, second),
        m.insert(name, first).insert(name, second)[name] == second,
{
    assert(m.insert(name, first).insert(name, second) =~= m.insert(name, second));
}

} // verus!
