//! The connections that are open, each under its id.

use vstd::prelude::*;

use crate::connection::{ConnectionView, QdrantConnection};
use crate::text;

verus! {

/// The connections that are open. No two have the same id.
pub struct Connections {
    entries: Vec<(String, QdrantConnection)>,
}

/// Whether an entry has the given id.
spec fn listed(entries: Seq<(String, QdrantConnection)>, id: Seq<char>) -> bool {
    exists|i: int| 0 <= i < entries.len() && (#[trigger] entries[i]).0@ == id
}

/// The place of an id, which is the only one where ids are distinct.
spec fn place(entries: Seq<(String, QdrantConnection)>, id: Seq<char>) -> int {
    choose|i: int| 0 <= i < entries.len() && (#[trigger] entries[i]).0@ == id
}

spec fn entries_map(entries: Seq<(String, QdrantConnection)>) -> Map<Seq<char>, ConnectionView> {
    Map::new(|id: Seq<char>| listed(entries, id), |id: Seq<char>| entries[place(entries, id)].1@)
}

spec fn distinct(entries: Seq<(String, QdrantConnection)>) -> bool {
    forall|i: int, j: int|
        0 <= i < j < entries.len() ==> (#[trigger] entries[i]).0@ != (#[trigger] entries[j]).0@
}

proof fn lemma_place(entries: Seq<(String, QdrantConnection)>, i: int)
    requires
        distinct(entries),
        0 <= i < entries.len(),
    ensures
        listed(entries, entries[i].0@),
        place(entries, entries[i].0@) == i,
{
    let found = place(entries, entries[i].0@);
    assert(entries[found].0@ == entries[i].0@);
}

proof fn lemma_removed(entries: Seq<(String, QdrantConnection)>, n: int)
    requires
        distinct(entries),
        0 <= n < entries.len(),
    ensures
        distinct(entries.remove(n)),
        entries_map(entries.remove(n)) == entries_map(entries).remove(entries[n].0@),
{
    let rest = entries.remove(n);
    let id = entries[n].0@;
    assert forall|i: int, j: int| 0 <= i < j < rest.len() implies (#[trigger] rest[i]).0@ != (
    #[trigger] rest[j]).0@ by {
        let a = if i < n { i } else { i + 1 };
        let b = if j < n { j } else { j + 1 };
        assert(entries[a].0@ != entries[b].0@);
    }
    lemma_place(entries, n);
    assert forall|key: Seq<char>| #[trigger] listed(rest, key) == (listed(entries, key) && key
        != id) by {
        if listed(rest, key) {
            let i = place(rest, key);
            let a = if i < n { i } else { i + 1 };
            assert(entries[a] == rest[i]);
            if key == id {
                lemma_place(entries, a);
            }
        }
        if listed(entries, key) && key != id {
            let a = place(entries, key);
            let i = if a < n { a } else { a - 1 };
            assert(rest[i] == entries[a]);
        }
    }
    assert forall|key: Seq<char>| #[trigger] listed(rest, key) implies rest[place(rest, key)]
        == entries[place(entries, key)] by {
        let i = place(rest, key);
        let a = if i < n { i } else { i + 1 };
        assert(entries[a] == rest[i]);
        lemma_place(entries, a);
    }
    assert(entries_map(rest) =~= entries_map(entries).remove(id));
}

proof fn lemma_pushed(
    entries: Seq<(String, QdrantConnection)>,
    entry: (String, QdrantConnection),
)
    requires
        distinct(entries),
        !listed(entries, entry.0@),
    ensures
        distinct(entries.push(entry)),
        entries_map(entries.push(entry)) == entries_map(entries).insert(entry.0@, entry.1@),
{
    let longer = entries.push(entry);
    let n = entries.len() as int;
    assert forall|i: int, j: int| 0 <= i < j < longer.len() implies (#[trigger] longer[i]).0@ != (
    #[trigger] longer[j]).0@ by {
        assert(longer[i] == entries[i]);
    }
    assert(longer[n] == entry);
    lemma_place(longer, n);
    assert forall|key: Seq<char>| #[trigger] listed(longer, key) == (listed(entries, key) || key
        == entry.0@) by {
        if listed(longer, key) {
            let i = place(longer, key);
            if i < n {
                assert(entries[i] == longer[i]);
            }
        }
        if listed(entries, key) {
            let i = place(entries, key);
            assert(longer[i] == entries[i]);
        }
    }
    assert forall|key: Seq<char>| #[trigger] listed(entries, key) implies longer[place(
        longer,
        key,
    )] == entries[place(entries, key)] by {
        let i = place(entries, key);
        assert(longer[i] == entries[i]);
        lemma_place(longer, i);
    }
    assert(entries_map(longer) =~= entries_map(entries).insert(entry.0@, entry.1@));
}

impl Connections {
    /// The open connections as a map from their ids.
    pub closed spec fn view(&self) -> Map<Seq<char>, ConnectionView> {
        entries_map(self.entries@)
    }

    #[verifier::type_invariant]
    spec fn inv(self) -> bool {
        distinct(self.entries@)
    }

    /// No connection open.
    pub fn new() -> (connections: Connections)
        ensures
            connections@ == Map::<Seq<char>, ConnectionView>::empty(),
    {
        let connections = Connections { entries: Vec::new() };
        assert(connections@ =~= Map::<Seq<char>, ConnectionView>::empty());
        connections
    }

    fn position(&self, id: &str) -> (position: Option<usize>)
        ensures
            match position {
                Some(i) => i < self.entries@.len() && self.entries@[i as int].0@ == id@,
                None => !listed(self.entries@, id@),
            },
    {
        let mut i: usize = 0;
        while i < self.entries.len()
            invariant
                i <= self.entries@.len(),
                forall|k: int| 0 <= k < i ==> (#[trigger] self.entries@[k]).0@ != id@,
            decreases self.entries@.len() - i,
        {
            if text::same(self.entries[i].0.as_str(), id) {
                return Some(i);
            }
            i += 1;
        }
        None
    }

    /// The connection open under `id`.
    pub fn get(&self, id: &str) -> (connection: Option<&QdrantConnection>)
        ensures
            match connection {
                Some(found) => self@.contains_key(id@) && self@[id@] == found@,
                None => !self@.contains_key(id@),
            },
    {
        proof {
            use_type_invariant(self);
        }
        match self.position(id) {
            Some(i) => {
                proof {
                    lemma_place(self.entries@, i as int);
                }
                Some(&self.entries[i].1)
            },
            None => None,
        }
    }

    /// Takes the connection under `id` out; tells whether there was one.
    pub fn remove(&mut self, id: &str) -> (existed: bool)
        ensures
            existed == old(self)@.contains_key(id@),
            final(self)@ == old(self)@.remove(id@),
    {
        proof {
            use_type_invariant(&*self);
        }
        match self.position(id) {
            Some(i) => {
                let ghost before = self.entries@;
                let mut entries: Vec<(String, QdrantConnection)> = Vec::new();
                std::mem::swap(&mut entries, &mut self.entries);
                entries.remove(i);
                proof {
                    lemma_removed(before, i as int);
                }
                self.entries = entries;
                true
            },
            None => {
                assert(self@ =~= self@.remove(id@));
                false
            },
        }
    }

    /// Opens `connection` under `id`, in place of one that was open under it.
    pub fn insert(&mut self, id: &str, connection: QdrantConnection)
        ensures
            final(self)@ == old(self)@.insert(id@, connection@),
    {
        self.remove(id);
        proof {
            use_type_invariant(&*self);
        }
        let ghost before = self.entries@;
        assert(!entries_map(before).contains_key(id@));
        let mut entries: Vec<(String, QdrantConnection)> = Vec::new();
        std::mem::swap(&mut entries, &mut self.entries);
        entries.push((id.to_owned(), connection));
        proof {
            lemma_pushed(before, entries@.last());
        }
        self.entries = entries;
    }
}

/// What is found under an id is what is open under it.
pub proof fn found_is_what_is_open(
    connections: &Connections,
    id: &str,
    found: Option<&QdrantConnection>,
)
    requires
        call_ensures(Connections::get, (connections, id), found),
    ensures
        connections@.contains_key(id@) <==> found is Some,
        found matches Some(connection) ==> connection@ == connections@[id@],
{
}

/// Under an id stands what was opened last under it, as it was opened, and other
/// ids are not affected.
pub proof fn last_opened_stands(id: &str, connection: QdrantConnection, other: Seq<char>)
    ensures
        forall|connections: &mut Connections| #[trigger]
            call_ensures(Connections::insert, (connections, id, connection), ()) ==> {
                &&& final(connections)@.contains_key(id@)
                &&& final(connections)@[id@] == connection@
                &&& other != id@ ==> (final(connections)@.contains_key(other)
                    <==> connections@.contains_key(other))
                &&& other != id@ && connections@.contains_key(other) ==> final(connections)@[other]
                    == connections@[other]
            },
{
}

/// What is taken away under an id is there no more, whether it was there is told,
/// and other ids are not affected.
pub proof fn removed_is_gone(id: &str, existed: bool, other: Seq<char>)
    ensures
        forall|connections: &mut Connections| #[trigger]
            call_ensures(Connections::remove, (connections, id), existed) ==> {
                &&& existed <==> connections@.contains_key(id@)
                &&& !final(connections)@.contains_key(id@)
                &&& other != id@ ==> (final(connections)@.contains_key(other)
                    <==> connections@.contains_key(other))
                &&& other != id@ && connections@.contains_key(other) ==> final(connections)@[other]
                    == connections@[other]
            },
{
}

}
