//! The table from network name to the verifier that answers for it.

use vstd::prelude::*;
use crate::text::same_text;

verus! {

/// The chain integrations the engine has.
#[derive(Clone, Copy, Debug, PartialEq, Eq, Structural)]
pub enum VerifierKind {
    /// Native SOL transfers on Solana.
    Solana,
    /// Native and ERC20 transfers on Ethereum, Sepolia and Polygon.
    Evm,
}

/// Network name to verifier.  Each name occurs once.
pub struct VerifierRegistry {
    entries: Vec<(String, VerifierKind)>,
}

spec fn names_distinct(entries: Seq<(String, VerifierKind)>) -> bool {
    forall|i: int, j: int|
        0 <= i < entries.len() && 0 <= j < entries.len() && i != j ==> #[trigger] entries[i].0@
            != #[trigger] entries[j].0@
}

spec fn name_at(entries: Seq<(String, VerifierKind)>, i: int, name: Seq<char>) -> bool {
    0 <= i < entries.len() && entries[i].0@ == name
}

spec fn entries_map(entries: Seq<(String, VerifierKind)>) -> Map<Seq<char>, VerifierKind> {
    Map::new(
        |name: Seq<char>| exists|i: int| name_at(entries, i, name),
        |name: Seq<char>| entries[choose|i: int| name_at(entries, i, name)].1,
    )
}

/// In a table whose names are distinct, a name stands at one place only,
/// and maps to what stands there.
proof fn lemma_entry_found(entries: Seq<(String, VerifierKind)>, i: int)
    requires
        names_distinct(entries),
        0 <= i < entries.len(),
    ensures
        entries_map(entries).contains_key(entries[i].0@),
        entries_map(entries)[entries[i].0@] == entries[i].1,
{
    let name = entries[i].0@;
    assert(name_at(entries, i, name));
    let c = choose|j: int| name_at(entries, j, name);
    assert(c == i);
}

proof fn lemma_replace(entries: Seq<(String, VerifierKind)>, i: int, e: (String, VerifierKind))
    requires
        names_distinct(entries),
        0 <= i < entries.len(),
        entries[i].0@ == e.0@,
    ensures
        names_distinct(entries.update(i, e)),
        entries_map(entries.update(i, e)) =~= entries_map(entries).insert(e.0@, e.1),
{
    let after = entries.update(i, e);
    assert(names_distinct(after)) by {
        assert forall|a: int, b: int|
            0 <= a < after.len() && 0 <= b < after.len() && a != b implies #[trigger] after[a].0@
            != #[trigger] after[b].0@ by {
            assert(entries[a].0@ != entries[b].0@);
        }
    }
    assert forall|n: Seq<char>| #[trigger]
        entries_map(after).contains_key(n) == entries_map(entries).insert(e.0@, e.1).contains_key(
            n,
        ) by {
        if exists|j: int| name_at(after, j, n) {
            let j = choose|j: int| name_at(after, j, n);
            if j != i {
                assert(name_at(entries, j, n));
            }
        }
        if exists|j: int| name_at(entries, j, n) {
            let j = choose|j: int| name_at(entries, j, n);
            assert(name_at(after, j, n));
        }
        if n == e.0@ {
            assert(name_at(after, i, n));
        }
    }
    assert forall|n: Seq<char>| #[trigger] entries_map(after).contains_key(n) implies entries_map(
        after,
    )[n] == entries_map(entries).insert(e.0@, e.1)[n] by {
        let j = choose|j: int| name_at(after, j, n);
        lemma_entry_found(after, j);
        if n != e.0@ {
            assert(j != i);
            lemma_entry_found(entries, j);
        }
    }
}

proof fn lemma_append(entries: Seq<(String, VerifierKind)>, e: (String, VerifierKind))
    requires
        names_distinct(entries),
        forall|i: int| !name_at(entries, i, e.0@),
    ensures
        names_distinct(entries.push(e)),
        entries_map(entries.push(e)) =~= entries_map(entries).insert(e.0@, e.1),
{
    let after = entries.push(e);
    assert(names_distinct(after)) by {
        assert forall|a: int, b: int|
            0 <= a < after.len() && 0 <= b < after.len() && a != b implies #[trigger] after[a].0@
            != #[trigger] after[b].0@ by {
            if a == entries.len() {
                assert(!name_at(entries, b, e.0@));
            } else if b == entries.len() {
                assert(!name_at(entries, a, e.0@));
            } else {
                assert(entries[a].0@ != entries[b].0@);
            }
        }
    }
    assert forall|n: Seq<char>| #[trigger]
        entries_map(after).contains_key(n) == entries_map(entries).insert(e.0@, e.1).contains_key(
            n,
        ) by {
        if exists|j: int| name_at(after, j, n) {
            let j = choose|j: int| name_at(after, j, n);
            if j != entries.len() {
                assert(name_at(entries, j, n));
            }
        }
        if exists|j: int| name_at(entries, j, n) {
            let j = choose|j: int| name_at(entries, j, n);
            assert(name_at(after, j, n));
        }
        if n == e.0@ {
            assert(name_at(after, entries.len() as int, n));
        }
    }
    assert forall|n: Seq<char>| #[trigger] entries_map(after).contains_key(n) implies entries_map(
        after,
    )[n] == entries_map(entries).insert(e.0@, e.1)[n] by {
        let j = choose|j: int| name_at(after, j, n);
        lemma_entry_found(after, j);
        if n != e.0@ {
            assert(j != entries.len());
            lemma_entry_found(entries, j);
        } else {
            assert(!name_at(entries, j, e.0@));
        }
    }
}

impl VerifierRegistry {
    #[verifier::type_invariant]
    spec fn wf(self) -> bool {
        names_distinct(self.entries@)
    }
}

impl View for VerifierRegistry {
    type V = Map<Seq<char>, VerifierKind>;

    closed spec fn view(&self) -> Map<Seq<char>, VerifierKind> {
        entries_map(self.entries@)
    }
}

impl VerifierRegistry {
    /// An empty table.
    pub fn new() -> (registry: Self)
        ensures
            registry@ == Map::<Seq<char>, VerifierKind>::empty(),
    {
        let registry = VerifierRegistry { entries: Vec::new() };
        assert(registry@ =~= Map::<Seq<char>, VerifierKind>::empty());
        registry
    }

    /// Where `name` stands in the table, if it does.
    fn position(&self, name: &str) -> (pos: Option<usize>)
        ensures
            match pos {
                Some(i) => name_at(self.entries@, i as int, name@),
                None => forall|i: int| !name_at(self.entries@, i, name@),
            },
    {
        let mut i: usize = 0;
        while i < self.entries.len()
            invariant
                i <= self.entries@.len(),
                forall|j: int| 0 <= j < i ==> !name_at(self.entries@, j, name@),
            decreases self.entries@.len() - i,
        {
            if same_text(self.entries[i].0.as_str(), name) {
                return Some(i);
            }
            i = i + 1;
        }
        None
    }

    /// The verifier registered under `name`.
    pub fn get(&self, name: &str) -> (kind: Option<VerifierKind>)
        ensures
            kind == self@.get(name@),
    {
        proof {
            use_type_invariant(self);
        }
        match self.position(name) {
            Some(i) => {
                proof {
                    lemma_entry_found(self.entries@, i as int);
                }
                Some(self.entries[i].1)
            },
            None => {
                assert(!self@.contains_key(name@));
                None
            },
        }
    }

    /// Registers `kind` under `name`, replacing what stood there.
    pub fn insert(&mut self, name: String, kind: VerifierKind)
        ensures
            final(self)@ == old(self)@.insert(name@, kind),
    {
        proof {
            use_type_invariant(&*self);
        }
        let pos = self.position(name.as_str());
        let mut entries: Vec<(String, VerifierKind)> = Vec::new();
        std::mem::swap(&mut entries, &mut self.entries);
        let ghost old_entries = entries@;
        let ghost key = name@;
        match pos {
            Some(i) => {
                proof {
                    lemma_replace(old_entries, i as int, (name, kind));
                }
                entries.set(i, (name, kind));
            },
            None => {
                proof {
                    lemma_append(old_entries, (name, kind));
                }
                entries.push((name, kind));
            },
        }
        self.entries = entries;
    }

    /// The names in the table.
    pub fn names(&self) -> (names: Vec<String>)
        ensures
            names@.len() == self@.dom().len(),
            forall|n: Seq<char>|
                self@.contains_key(n) <==> exists|i: int|
                    0 <= i < names@.len() && (#[trigger] names@[i])@ == n,
    {
        proof {
            use_type_invariant(self);
        }
        let mut names: Vec<String> = Vec::new();
        let mut i: usize = 0;
        while i < self.entries.len()
            invariant
                i <= self.entries@.len(),
                names@.len() == i,
                forall|j: int| 0 <= j < i ==> (#[trigger] names@[j])@ == self.entries@[j].0@,
            decreases self.entries@.len() - i,
        {
            names.push(self.entries[i].0.clone());
            i = i + 1;
        }
        proof {
            lemma_dom_len(self.entries@);
            assert forall|n: Seq<char>| self@.contains_key(n) implies exists|i: int|
                0 <= i < names@.len() && (#[trigger] names@[i])@ == n by {
                let j = choose|j: int| name_at(self.entries@, j, n);
                assert(names@[j]@ == n);
            }
            assert forall|n: Seq<char>|
                (exists|i: int| 0 <= i < names@.len() && (#[trigger] names@[i])@ == n) implies self@.contains_key(n) by {
                let j = choose|j: int| 0 <= j < names@.len() && (#[trigger] names@[j])@ == n;
                assert(name_at(self.entries@, j, n));
            }
        }
        names
    }
}

/// A name looked up right after it was registered gives what was
/// registered; every other name gives what it gave before.
pub proof fn law_lookup_after_register(
    before: VerifierRegistry,
    after: VerifierRegistry,
    name: Seq<char>,
    kind: VerifierKind,
    other: Seq<char>,
)
    requires
        after@ == before@.insert(name, kind),
    ensures
        after@.get(name) == Some(kind),
        other != name ==> after@.get(other) == before@.get(other),
{
}

/// Registering a name twice keeps only the second verifier.
pub proof fn law_register_overwrites(
    first: VerifierRegistry,
    second: VerifierRegistry,
    third: VerifierRegistry,
    name: Seq<char>,
    kind1: VerifierKind,
    kind2: VerifierKind,
)
    requires
        second@ == first@.insert(name, kind1),
        third@ == second@.insert(name, kind2),
    ensures
        third@ == first@.insert(name, kind2),
{
    assert(third@ =~= first@.insert(name, kind2));
}

proof fn lemma_dom_len(entries: Seq<(String, VerifierKind)>)
    requires
        names_distinct(entries),
    ensures
        entries_map(entries).dom().len() == entries.len(),
{
    let keys = entries.map_values(|e: (String, VerifierKind)| e.0@);
    assert(entries_map(entries).dom() =~= keys.to_set()) by {
        assert forall|n: Seq<char>| entries_map(entries).dom().contains(n) implies keys.to_set().contains(n) by {
            let j = choose|j: int| name_at(entries, j, n);
            assert(keys[j] == n);
        }
        assert forall|n: Seq<char>| keys.to_set().contains(n) implies entries_map(entries).dom().contains(n) by {
            let j = choose|j: int| 0 <= j < keys.len() && keys[j] == n;
            assert(name_at(entries, j, n));
        }
    }
    assert(keys.no_duplicates()) by {
        assert forall|i: int, j: int|
            0 <= i < keys.len() && 0 <= j < keys.len() && i != j implies keys[i] != keys[j] by {
            assert(entries[i].0@ != entries[j].0@);
        }
    }
    keys.unique_seq_to_set();
}

} // verus!
