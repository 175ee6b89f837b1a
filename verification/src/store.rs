//! The shared in-memory event store: a mapping from event identifier to the
//! most recently accepted event under that identifier (last-write-wins).

use vstd::prelude::*;
use vstd::map::*;
use crate::event::{EventView, NostrEvent};

verus! {

/// No two records carry the same identifier.
pub open spec fn distinct_ids(s: Seq<NostrEvent>) -> bool {
    forall|i: int, j: int| 0 <= i < j < s.len() ==> s[i]@.id != s[j]@.id
}

/// The mapping that a sequence of records denotes: later records overwrite
/// earlier ones with the same identifier.
pub open spec fn store_model(s: Seq<NostrEvent>) -> Map<Seq<char>, EventView>
    decreases s.len(),
{
    if s.len() == 0 {
        Map::empty()
    } else {
        store_model(s.drop_last()).insert(s.last()@.id, s.last()@)
    }
}

/// The store holds an identifier exactly when some record carries it.
pub proof fn lemma_model_contains(s: Seq<NostrEvent>, id: Seq<char>)
    ensures
        store_model(s).contains_key(id) <==> exists|i: int| 0 <= i < s.len() && s[i]@.id == id,
    decreases s.len(),
{
    if s.len() > 0 {
        lemma_model_contains(s.drop_last(), id);
        if store_model(s).contains_key(id) {
            if id == s.last()@.id {
                assert(s[s.len() - 1]@.id == id);
            } else {
                let i = choose|i: int| 0 <= i < s.drop_last().len() && s.drop_last()[i]@.id == id;
                assert(s[i]@.id == id);
            }
        }
        if exists|i: int| 0 <= i < s.len() && s[i]@.id == id {
            let i = choose|i: int| 0 <= i < s.len() && s[i]@.id == id;
            if i < s.len() - 1 {
                assert(s.drop_last()[i]@.id == id);
            }
        }
    }
}

/// With distinct identifiers, each record is retrievable under its own
/// identifier.
pub proof fn lemma_model_get(s: Seq<NostrEvent>, k: int)
    requires
        distinct_ids(s),
        0 <= k < s.len(),
    ensures
        store_model(s).contains_key(s[k]@.id),
        store_model(s)[s[k]@.id] == s[k]@,
    decreases s.len(),
{
    if k == s.len() - 1 {
    } else {
        assert(distinct_ids(s.drop_last()));
        assert(s.drop_last()[k] == s[k]);
        lemma_model_get(s.drop_last(), k);
        assert(s[k]@.id != s.last()@.id);
    }
}

/// With distinct identifiers, the mapping holds exactly one entry per record.
pub proof fn lemma_model_card(s: Seq<NostrEvent>)
    requires
        distinct_ids(s),
    ensures
        store_model(s).dom().finite(),
        store_model(s).dom().len() == s.len(),
    decreases s.len(),
{
    if s.len() > 0 {
        assert(distinct_ids(s.drop_last()));
        lemma_model_card(s.drop_last());
        lemma_model_contains(s.drop_last(), s.last()@.id);
        assert(forall|i: int| 0 <= i < s.drop_last().len() ==> s.drop_last()[i]@.id != s.last()@.id);
    }
}

/// Replacing the one record that carries an identifier is an overwrite of
/// that identifier in the mapping.
pub proof fn lemma_model_update(s: Seq<NostrEvent>, k: int, ev: NostrEvent)
    requires
        distinct_ids(s),
        0 <= k < s.len(),
        s[k]@.id == ev@.id,
    ensures
        store_model(s.update(k, ev)) == store_model(s).insert(ev@.id, ev@),
    decreases s.len(),
{
    let su = s.update(k, ev);
    if k == s.len() - 1 {
        assert(su.drop_last() =~= s.drop_last());
        assert(su.last() == ev);
        assert_maps_equal!(
            store_model(s.drop_last()).insert(s.last()@.id, s.last()@).insert(ev@.id, ev@),
            store_model(s.drop_last()).insert(ev@.id, ev@)
        );
    } else {
        assert(distinct_ids(s.drop_last()));
        assert(s.drop_last()[k] == s[k]);
        lemma_model_update(s.drop_last(), k, ev);
        assert(su.drop_last() =~= s.drop_last().update(k, ev));
        assert(su.last() == s.last());
        assert(ev@.id != s.last()@.id);
        assert_maps_equal!(
            store_model(s.drop_last()).insert(ev@.id, ev@).insert(s.last()@.id, s.last()@),
            store_model(s.drop_last()).insert(s.last()@.id, s.last()@).insert(ev@.id, ev@)
        );
    }
}

/// Appending a record with a fresh identifier inserts it into the mapping.
pub proof fn lemma_model_push(s: Seq<NostrEvent>, ev: NostrEvent)
    ensures
        store_model(s.push(ev)) == store_model(s).insert(ev@.id, ev@),
{
    assert(s.push(ev).drop_last() =~= s);
    assert(s.push(ev).last() == ev);
}

/// Overwriting one identifier twice keeps only the later record: the store
/// resolves duplicate submissions last-write-wins.
pub proof fn lemma_last_write_wins(
    m: Map<Seq<char>, EventView>,
    id: Seq<char>,
    first: EventView,
    second: EventView,
)
    ensures
        m.insert(id, first).insert(id, second) == m.insert(id, second),
        m.insert(id, second)[id] == second,
{
    assert_maps_equal!(m.insert(id, first).insert(id, second), m.insert(id, second));
}

/// Shared mapping from event identifier to event record. Insertion order is
/// irrelevant to the mapping; a second record under an identifier replaces
/// the first.
pub struct EventStore {
    entries: Vec<NostrEvent>,
}

impl View for EventStore {
    type V = Map<Seq<char>, EventView>;

    closed spec fn view(&self) -> Map<Seq<char>, EventView> {
        store_model(self.entries@)
    }
}

impl EventStore {
    /// The store's internal invariant: at most one record per identifier.
    pub closed spec fn wf(&self) -> bool {
        distinct_ids(self.entries@)
    }

    pub fn new() -> (r: Self)
        ensures
            r.wf(),
            r@ == Map::<Seq<char>, EventView>::empty(),
    {
        EventStore { entries: Vec::new() }
    }

    /// Insert or overwrite the record under its identifier.
    pub fn insert(&mut self, ev: NostrEvent)
        requires
            old(self).wf(),
        ensures
            final(self).wf(),
            final(self)@ == old(self)@.insert(ev@.id, ev@),
    {
        let ghost s0 = self.entries@;
        let ghost evv = ev@;
        let mut j: usize = 0;
        while j < self.entries.len()
            invariant
                j <= self.entries@.len(),
                self.entries@ == s0,
                old(self).entries@ == s0,
                distinct_ids(s0),
                ev@ == evv,
                forall|i: int| 0 <= i < j ==> s0[i]@.id != evv.id,
            decreases self.entries@.len() - j,
        {
            if self.entries[j].id == ev.id {
                let ghost target = s0.update(j as int, ev);
                proof {
                    lemma_model_update(s0, j as int, ev);
                }
                self.entries[j] = ev;
                proof {
                    assert(self.entries@ =~= target);
                    assert(store_model(target) == store_model(s0).insert(evv.id, evv));
                    assert forall|a: int, b: int|
                        0 <= a < b < self.entries@.len() implies self.entries@[a]@.id
                        != self.entries@[b]@.id by {
                        assert(s0[a]@.id != s0[b]@.id);
                        if a == j as int {
                            assert(self.entries@[a]@.id == s0[a]@.id);
                        }
                        if b == j as int {
                            assert(self.entries@[b]@.id == s0[b]@.id);
                        }
                    }
                }
                return ;
            }
            j = j + 1;
        }
        proof {
            lemma_model_push(s0, ev);
        }
        self.entries.push(ev);
        proof {
            assert forall|a: int, b: int|
                0 <= a < b < self.entries@.len() implies self.entries@[a]@.id
                != self.entries@[b]@.id by {
                if b < s0.len() {
                    assert(s0[a]@.id != s0[b]@.id);
                } else {
                    assert(self.entries@[b]@.id == evv.id);
                    assert(s0[a]@.id != evv.id);
                }
            }
        }
    }

    /// Look up the record stored under an identifier, if any.
    pub fn get(&self, id: &str) -> (r: Option<&NostrEvent>)
        requires
            self.wf(),
        ensures
            match r {
                Some(e) => self@.contains_key(id@) && e@ == self@[id@] && e@.id == id@,
                None => !self@.contains_key(id@),
            },
    {
        let key: String = id.to_owned();
        let mut j: usize = 0;
        while j < self.entries.len()
            invariant
                self.wf(),
                key@ == id@,
                j <= self.entries@.len(),
                forall|i: int| 0 <= i < j ==> self.entries@[i]@.id != id@,
            decreases self.entries@.len() - j,
        {
            if self.entries[j].id == key {
                proof {
                    lemma_model_get(self.entries@, j as int);
                    assert(self.entries@[j as int]@.id == id@);
                }
                return Some(&self.entries[j]);
            }
            j = j + 1;
        }
        proof {
            lemma_model_contains(self.entries@, id@);
        }
        None
    }

    /// Whether any record is stored under an identifier.
    pub fn contains(&self, id: &str) -> (r: bool)
        requires
            self.wf(),
        ensures
            r == self@.contains_key(id@),
    {
        self.get(id).is_some()
    }

    /// How many identifiers the store holds.
    pub fn len(&self) -> (n: usize)
        requires
            self.wf(),
        ensures
            n == self@.dom().len(),
    {
        proof {
            lemma_model_card(self.entries@);
        }
        self.entries.len()
    }
}

} // verus!
