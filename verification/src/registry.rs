//! The user registry: a persistent key/value relation over user records,
//! keyed by a unique numeric identifier. Its abstract state is a map from
//! identifier to display name; the uniqueness of identifiers is the store's
//! standing invariant.

use vstd::prelude::*;

use crate::errors::BotError;

verus! {

/// One registry record: a unique numeric identifier and a display name.
/// The name is not unique and is immutable once recorded.
pub struct User {
    pub id: u64,
    pub name: String,
}

/// No two records of the relation share an identifier.
pub open spec fn unique_ids(s: Seq<User>) -> bool {
    forall|i: int, j: int| 0 <= i < j < s.len() ==> s[i].id != s[j].id
}

/// Some record of `s` carries the identifier `id`.
pub open spec fn has_id(s: Seq<User>, id: u64) -> bool {
    exists|i: int| 0 <= i < s.len() && s[i].id == id
}

/// The index of the record carrying `id`; meaningful when `has_id` holds
/// and `unique_ids` makes it the only such index.
pub open spec fn id_index(s: Seq<User>, id: u64) -> int {
    choose|i: int| 0 <= i < s.len() && s[i].id == id
}

/// The relation as a map from identifier to display name.
pub open spec fn map_of(s: Seq<User>) -> Map<u64, Seq<char>> {
    Map::new(|id: u64| has_id(s, id), |id: u64| s[id_index(s, id)].name@)
}

proof fn lemma_id_index(s: Seq<User>, id: u64)
    requires
        unique_ids(s),
        has_id(s, id),
    ensures
        0 <= id_index(s, id) < s.len(),
        s[id_index(s, id)].id == id,
        forall|j: int| 0 <= j < s.len() && s[j].id == id ==> j == id_index(s, id),
{
    let i = id_index(s, id);
    assert(0 <= i < s.len() && s[i].id == id);
    assert forall|j: int| 0 <= j < s.len() && s[j].id == id implies j == i by {
        if j != i {
            if j < i {
                assert(s[j].id != s[i].id);
            } else {
                assert(s[i].id != s[j].id);
            }
        }
    }
}

proof fn lemma_map_of_push(s: Seq<User>, u: User)
    requires
        unique_ids(s),
        !has_id(s, u.id),
    ensures
        unique_ids(s.push(u)),
        map_of(s.push(u)) =~= map_of(s).insert(u.id, u.name@),
{
    let t = s.push(u);
    assert forall|i: int, j: int| 0 <= i < j < t.len() implies t[i].id != t[j].id by {
        if j == s.len() {
            assert(t[i] == s[i]);
            assert(!has_id(s, u.id));
            assert(s[i].id != u.id);
        } else {
            assert(t[i] == s[i] && t[j] == s[j]);
        }
    }
    assert forall|k: u64| has_id(t, k) implies has_id(s, k) || k == u.id by {
        let i = choose|i: int| 0 <= i < t.len() && t[i].id == k;
        if i < s.len() {
            assert(s[i].id == k);
        }
    }
    assert forall|k: u64| has_id(s, k) implies has_id(t, k) by {
        let i = choose|i: int| 0 <= i < s.len() && s[i].id == k;
        assert(t[i].id == k);
    }
    assert(t[s.len() as int].id == u.id);
    assert(has_id(t, u.id));
    assert forall|k: u64| has_id(t, k) implies
        (map_of(t)[k] == map_of(s).insert(u.id, u.name@)[k]) by {
        lemma_id_index(t, k);
        let i = id_index(t, k);
        if k == u.id {
            assert(t[s.len() as int].id == u.id);
            assert(i == s.len());
            assert(t[i].name@ == u.name@);
        } else {
            assert(i < s.len());
            assert(s[i].id == k);
            lemma_id_index(s, k);
            assert(id_index(s, k) == i);
            assert(map_of(s)[k] == s[i].name@);
        }
    }
}

proof fn lemma_map_of_remove(s: Seq<User>, i: int)
    requires
        unique_ids(s),
        0 <= i < s.len(),
    ensures
        unique_ids(s.remove(i)),
        map_of(s.remove(i)) =~= map_of(s).remove(s[i].id),
{
    let t = s.remove(i);
    s.remove_ensures(i);
    assert forall|p: int, q: int| 0 <= p < q < t.len() implies t[p].id != t[q].id by {
        let sp: int = if p < i { p } else { p + 1 };
        let sq: int = if q < i { q } else { q + 1 };
        assert(t[p] == s[sp] && t[q] == s[sq]);
        assert(sp < sq);
    }
    assert forall|k: u64| has_id(t, k) implies has_id(s, k) && k != s[i].id by {
        let j = choose|j: int| 0 <= j < t.len() && t[j].id == k;
        let sj: int = if j < i { j } else { j + 1 };
        assert(t[j] == s[sj]);
        assert(s[sj].id == k);
        if k == s[i].id {
            lemma_id_index(s, k);
            assert(sj == id_index(s, k) && i == id_index(s, k));
        }
    }
    assert forall|k: u64| has_id(s, k) && k != s[i].id implies has_id(t, k) by {
        let j = choose|j: int| 0 <= j < s.len() && s[j].id == k;
        if j < i {
            assert(t[j].id == k);
        } else {
            assert(j != i);
            assert(t[j - 1] == s[j]);
            assert(t[j - 1].id == k);
        }
    }
    assert forall|k: u64| has_id(t, k) implies
        (map_of(t)[k] == map_of(s).remove(s[i].id)[k]) by {
        lemma_id_index(t, k);
        lemma_id_index(s, k);
        let j = id_index(t, k);
        let sj: int = if j < i { j } else { j + 1 };
        assert(t[j] == s[sj]);
        assert(id_index(s, k) == sj);
        assert(map_of(t)[k] == t[j].name@);
        assert(map_of(s)[k] == s[sj].name@);
    }
}

/// The registry itself. The abstract view `self@` is the map from
/// identifier to display name described by `map_of`.
pub struct Registry {
    users: Vec<User>,
}

impl View for Registry {
    type V = Map<u64, Seq<char>>;

    closed spec fn view(&self) -> Map<u64, Seq<char>> {
        map_of(self.users@)
    }
}

impl Registry {
    /// The standing invariant: record identifiers are pairwise distinct.
    pub closed spec fn wf(self) -> bool {
        unique_ids(self.users@)
    }

    /// An empty registry.
    pub fn new() -> (r: Registry)
        ensures
            r.wf(),
            r@ =~= Map::<u64, Seq<char>>::empty(),
    {
        Registry { users: Vec::new() }
    }

    /// Whether a record with this identifier is present.
    pub fn contains(&self, id: u64) -> (r: bool)
        requires
            self.wf(),
        ensures
            r == self@.contains_key(id),
    {
        let n = self.users.len();
        let mut i: usize = 0;
        while i < n
            invariant
                n == self.users@.len(),
                i <= n,
                forall|j: int| 0 <= j < i ==> self.users@[j].id != id,
            decreases n - i,
        {
            if self.users[i].id == id {
                proof {
                    assert(has_id(self.users@, id));
                }
                return true;
            }
            i = i + 1;
        }
        proof {
            assert(!has_id(self.users@, id));
        }
        false
    }

    /// Looks a record up by identifier. Absence is a normal result, not a
    /// failure: the result is `Some` exactly when the identifier is bound,
    /// and then carries that identifier and its recorded name.
    pub fn lookup(&self, id: u64) -> (r: Option<User>)
        requires
            self.wf(),
        ensures
            match r {
                Some(u) => self@.contains_key(id) && u.id == id && u.name@ == self@[id],
                None => !self@.contains_key(id),
            },
    {
        let n = self.users.len();
        let mut i: usize = 0;
        while i < n
            invariant
                self.wf(),
                n == self.users@.len(),
                i <= n,
                forall|j: int| 0 <= j < i ==> self.users@[j].id != id,
            decreases n - i,
        {
            if self.users[i].id == id {
                proof {
                    assert(has_id(self.users@, id));
                    lemma_id_index(self.users@, id);
                    assert(id_index(self.users@, id) == i);
                }
                let found = &self.users[i];
                return Some(User { id: found.id, name: found.name.clone() });
            }
            i = i + 1;
        }
        proof {
            assert(!has_id(self.users@, id));
        }
        None
    }

    /// Inserts a fresh record. Succeeds exactly when the identifier is not
    /// yet bound; a second insert of the same identifier reports
    /// `AlreadyExists` and leaves the relation unchanged.
    pub fn insert(&mut self, id: u64, name: String) -> (r: Result<(), BotError>)
        requires
            old(self).wf(),
        ensures
            final(self).wf(),
            old(self)@.contains_key(id) ==> r == Err::<(), BotError>(BotError::AlreadyExists(id))
                && final(self)@ == old(self)@,
            !old(self)@.contains_key(id) ==> r == Ok::<(), BotError>(())
                && final(self)@ == old(self)@.insert(id, name@),
    {
        if self.contains(id) {
            return Err(BotError::AlreadyExists(id));
        }
        let record = User { id, name };
        proof {
            lemma_map_of_push(self.users@, record);
        }
        self.users.push(record);
        Ok(())
    }

    /// Deletes the record bound to an identifier. Existence is confirmed
    /// first: deleting an absent identifier reports `NotFound` and changes
    /// nothing; deleting a present one removes exactly that binding.
    pub fn delete(&mut self, id: u64) -> (r: Result<(), BotError>)
        requires
            old(self).wf(),
        ensures
            final(self).wf(),
            !old(self)@.contains_key(id) ==> r == Err::<(), BotError>(BotError::NotFound(id))
                && final(self)@ == old(self)@,
            old(self)@.contains_key(id) ==> r == Ok::<(), BotError>(())
                && final(self)@ == old(self)@.remove(id),
    {
        let n = self.users.len();
        let mut i: usize = 0;
        while i < n
            invariant
                *self == *old(self),
                self.wf(),
                n == self.users@.len(),
                i <= n,
                forall|j: int| 0 <= j < i ==> self.users@[j].id != id,
            decreases n - i,
        {
            if self.users[i].id == id {
                proof {
                    assert(has_id(self.users@, id));
                    lemma_id_index(self.users@, id);
                    lemma_map_of_remove(self.users@, i as int);
                }
                self.users.remove(i);
                return Ok(());
            }
            i = i + 1;
        }
        proof {
            assert(!has_id(self.users@, id));
        }
        Err(BotError::NotFound(id))
    }
}

/// Law: inserting a record under a fresh identifier and then looking that
/// identifier up finds exactly the inserted record. `insert` ensures the
/// new state is `m.insert(id, name)`; `lookup` then returns `Some` of this
/// identifier and name.
pub proof fn lemma_insert_then_lookup(m: Map<u64, Seq<char>>, id: u64, name: Seq<char>)
    requires
        !m.contains_key(id),
    ensures
        m.insert(id, name).contains_key(id),
        m.insert(id, name)[id] == name,
{
}

/// Law: after a first insert of an identifier, the identifier is bound, so
/// a second insert of it reports `AlreadyExists` and leaves the relation
/// unchanged; the relation still binds the identifier to the first name
/// and the domain has grown by exactly that one identifier.
pub proof fn lemma_repeated_insert_keeps_record(
    m: Map<u64, Seq<char>>,
    id: u64,
    first_name: Seq<char>,
)
    requires
        !m.contains_key(id),
    ensures
        m.insert(id, first_name).contains_key(id),
        m.insert(id, first_name)[id] == first_name,
        m.insert(id, first_name).dom() =~= m.dom().insert(id),
{
}

} // verus!
