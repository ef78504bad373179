//! A map from account ids, kept in the order of the ids.
use crate::text;
use vstd::prelude::*;

verus! {

/// Every text of `order` comes before those behind it.
pub open spec fn increasing(order: Seq<Seq<char>>) -> bool {
    forall|i: int, j: int|
        0 <= i < j < order.len() ==> text::precedes(#[trigger] order[i], #[trigger] order[j])
}

/// `order` lists the ids of `ids`, each once, in their order.
pub open spec fn lists(order: Seq<Seq<char>>, ids: Set<Seq<char>>) -> bool {
    &&& increasing(order)
    &&& forall|id: Seq<char>| #[trigger] ids.contains(id) <==> order.contains(id)
}

/// The ids of a finite set in their order.
pub open spec fn key_order(ids: Set<Seq<char>>) -> Seq<Seq<char>> {
    choose|order: Seq<Seq<char>>| #[trigger] lists(order, ids)
}

/// A set of ids has one order only.
pub proof fn key_order_is_unique(a: Seq<Seq<char>>, b: Seq<Seq<char>>, ids: Set<Seq<char>>)
    requires
        lists(a, ids),
        lists(b, ids),
    ensures
        a == b,
{
    lemma_shorter_agrees(a, b, ids, a.len() as int);
    lemma_shorter_agrees(b, a, ids, b.len() as int);
    assert(a =~= b);
}

/// One more text of a sequence is taken.
pub proof fn take_next(order: Seq<Seq<char>>, i: int)
    requires
        0 <= i < order.len(),
    ensures
        order.take(i + 1) == order.take(i).push(order[i]),
        order.take(i + 1).drop_last() == order.take(i),
        order.take(i + 1).last() == order[i],
        forall|id: Seq<char>| #[trigger]
            order.take(i + 1).contains(id) <==> order.take(i).contains(id) || id == order[i],
{
    let next = order.take(i + 1);
    assert(next =~= order.take(i).push(order[i]));
    assert(next.drop_last() =~= order.take(i));
    assert forall|id: Seq<char>| #[trigger]
        next.contains(id) <==> order.take(i).contains(id) || id == order[i] by {
        if order.take(i).contains(id) {
            let k = order.take(i).index_of(id);
            assert(next[k] == id);
        }
        if id == order[i] {
            assert(next[i] == id);
        }
        if next.contains(id) && id != order[i] {
            let k = next.index_of(id);
            assert(order.take(i)[k] == id);
        }
    }
}

proof fn lemma_shorter_agrees(a: Seq<Seq<char>>, b: Seq<Seq<char>>, ids: Set<Seq<char>>, n: int)
    requires
        lists(a, ids),
        lists(b, ids),
        0 <= n <= a.len(),
    ensures
        n <= b.len(),
        forall|i: int| 0 <= i < n ==> a[i] == b[i],
    decreases n,
{
    if n > 0 {
        let k = n - 1;
        lemma_shorter_agrees(a, b, ids, k);
        assert(a.contains(a[k]));
        assert(ids.contains(a[k]));
        let p = choose|p: int| 0 <= p < b.len() && b[p] == a[k];
        if p < k {
            assert(a[p] == b[p]);
            text::order_is_irreflexive(a[k]);
            assert(false);
        }
        if p > k {
            assert(text::precedes(b[k], b[p]));
            assert(b.contains(b[k]));
            assert(ids.contains(b[k]));
            let q = choose|q: int| 0 <= q < a.len() && a[q] == b[k];
            if q < k {
                assert(b[q] == a[q]);
                text::order_is_irreflexive(b[k]);
                assert(false);
            }
            if q == k {
                text::order_is_irreflexive(b[k]);
                assert(false);
            }
            text::order_is_transitive(a[k], a[q], a[k]);
            text::order_is_irreflexive(a[k]);
            assert(false);
        }
    }
}

/// Every finite set of ids has an order.
pub proof fn key_order_exists(ids: Set<Seq<char>>)
    requires
        ids.finite(),
    ensures
        lists(key_order(ids), ids),
    decreases ids.len(),
{
    if ids.is_empty() {
        assert(lists(Seq::empty(), ids));
    } else {
        let id = ids.choose();
        let rest = ids.remove(id);
        key_order_exists(rest);
        let order = key_order(rest);
        assert forall|i: int| 0 <= i < order.len() implies #[trigger] order[i] != id by {
            assert(order.contains(order[i]));
            assert(rest.contains(order[i]));
        }
        let at = lemma_place(order, id, order.len() as int);
        let longer = order.insert(at, id);
        assert forall|i: int, j: int| 0 <= i < j < longer.len() implies text::precedes(
            #[trigger] longer[i],
            #[trigger] longer[j],
        ) by {}
        assert forall|other: Seq<char>| #[trigger] ids.contains(other) implies longer.contains(
            other,
        ) by {
            if other == id {
                assert(longer[at] == id);
            } else {
                assert(rest.contains(other));
                let i = order.index_of(other);
                assert(longer[if i < at {
                    i
                } else {
                    i + 1
                }] == other);
            }
        }
        assert forall|other: Seq<char>| longer.contains(other) implies #[trigger] ids.contains(
            other,
        ) by {
            let i = longer.index_of(other);
            if i != at {
                let k = if i < at {
                    i
                } else {
                    i - 1
                };
                assert(order.contains(order[k]));
                assert(rest.contains(order[k]));
            }
        }
        assert(lists(longer, ids));
    }
}

proof fn lemma_place(order: Seq<Seq<char>>, id: Seq<char>, n: int) -> (at: int)
    requires
        increasing(order),
        forall|i: int| 0 <= i < order.len() ==> #[trigger] order[i] != id,
        0 <= n <= order.len(),
        forall|i: int| n <= i < order.len() ==> text::precedes(id, #[trigger] order[i]),
    ensures
        0 <= at <= n,
        forall|i: int| 0 <= i < at ==> text::precedes(#[trigger] order[i], id),
        forall|i: int| at <= i < order.len() ==> text::precedes(id, #[trigger] order[i]),
    decreases n,
{
    if n == 0 {
        0
    } else {
        text::order_is_total(order[n - 1], id);
        if text::precedes(order[n - 1], id) {
            assert forall|i: int| 0 <= i < n implies text::precedes(#[trigger] order[i], id) by {
                if i < n - 1 {
                    text::order_is_transitive(order[i], order[n - 1], id);
                }
            }
            n
        } else {
            lemma_place(order, id, n - 1)
        }
    }
}

/// A map from ids to values.
pub struct IdMap<V> {
    entries: Vec<(String, V)>,
}

impl<V> View for IdMap<V> {
    type V = Map<Seq<char>, V>;

    closed spec fn view(&self) -> Map<Seq<char>, V> {
        Map::new(
            |id: Seq<char>| self.ids().contains(id),
            |id: Seq<char>| self.entries@[self.ids().index_of(id)].1,
        )
    }
}

impl<V> IdMap<V> {
    closed spec fn ids(&self) -> Seq<Seq<char>> {
        self.entries@.map_values(|entry: (String, V)| entry.0@)
    }

    #[verifier::type_invariant]
    closed spec fn sorted(&self) -> bool {
        increasing(self.ids())
    }

    proof fn lemma_entry(&self, i: int)
        requires
            self.sorted(),
            0 <= i < self.entries@.len(),
        ensures
            self.ids()[i] == self.entries@[i].0@,
            self@.contains_key(self.ids()[i]),
            self@[self.ids()[i]] == self.entries@[i].1,
    {
        let id = self.ids()[i];
        assert(self.ids().contains(id));
        let k = self.ids().index_of(id);
        if k < i {
            text::order_is_irreflexive(id);
        }
        if i < k {
            text::order_is_irreflexive(id);
        }
    }

    proof fn lemma_order(&self)
        requires
            self.sorted(),
        ensures
            lists(self.ids(), self@.dom()),
            self.ids() == key_order(self@.dom()),
    {
        assert(lists(self.ids(), self@.dom()));
        key_order_is_unique(self.ids(), key_order(self@.dom()), self@.dom());
    }

    /// A map without ids.
    pub fn new() -> (r: Self)
        ensures
            r@ == Map::<Seq<char>, V>::empty(),
    {
        let r = IdMap { entries: Vec::new() };
        assert(r@ =~= Map::<Seq<char>, V>::empty());
        r
    }

    /// The number of ids.
    pub fn len(&self) -> (n: usize)
        ensures
            n == key_order(self@.dom()).len(),
            lists(key_order(self@.dom()), self@.dom()),
    {
        proof {
            use_type_invariant(self);
            self.lemma_order();
        }
        self.entries.len()
    }

    /// The id at a place in the order of the ids.
    pub fn id_at(&self, i: usize) -> (id: &String)
        requires
            i < key_order(self@.dom()).len(),
        ensures
            id@ == key_order(self@.dom())[i as int],
            self@.contains_key(id@),
    {
        proof {
            use_type_invariant(self);
            self.lemma_order();
            self.lemma_entry(i as int);
        }
        &self.entries[i].0
    }

    /// The value at a place in the order of the ids.
    pub fn value_at(&self, i: usize) -> (value: &V)
        requires
            i < key_order(self@.dom()).len(),
        ensures
            *value == self@[key_order(self@.dom())[i as int]],
            self@.contains_key(key_order(self@.dom())[i as int]),
    {
        proof {
            use_type_invariant(self);
            self.lemma_order();
            self.lemma_entry(i as int);
        }
        &self.entries[i].1
    }

    /// The place where an id stands, or where it would have to be put in.
    fn locate(&self, id: &str) -> (r: (usize, bool))
        ensures
            r.0 <= self.entries@.len(),
            r.1 == self@.contains_key(id@),
            r.1 ==> r.0 < self.entries@.len() && self.ids()[r.0 as int] == id@,
            forall|i: int| 0 <= i < r.0 ==> text::precedes(#[trigger] self.ids()[i], id@),
            !r.1 ==> forall|i: int|
                r.0 <= i < self.entries@.len() ==> text::precedes(id@, #[trigger] self.ids()[i]),
    {
        proof {
            use_type_invariant(self);
        }
        let mut i: usize = 0;
        while i < self.entries.len()
            invariant
                self.sorted(),
                i <= self.entries@.len(),
                forall|k: int| 0 <= k < i ==> text::precedes(#[trigger] self.ids()[k], id@),
            decreases self.entries@.len() - i,
        {
            assert(self.ids()[i as int] == self.entries@[i as int].0@);
            if text::same(&self.entries[i].0, id) {
                proof {
                    self.lemma_entry(i as int);
                }
                return (i, true);
            }
            if !text::comes_before(&self.entries[i].0, id) {
                proof {
                    text::order_is_total(self.ids()[i as int], id@);
                    self.lemma_between(id@, i as int);
                }
                return (i, false);
            }
            i += 1;
        }
        proof {
            self.lemma_between(id@, i as int);
        }
        (i, false)
    }

    proof fn lemma_between(&self, id: Seq<char>, at: int)
        requires
            self.sorted(),
            0 <= at <= self.entries@.len(),
            forall|k: int| 0 <= k < at ==> text::precedes(#[trigger] self.ids()[k], id),
            at < self.entries@.len() ==> text::precedes(id, self.ids()[at]),
        ensures
            !self@.contains_key(id),
            forall|i: int|
                at <= i < self.entries@.len() ==> text::precedes(id, #[trigger] self.ids()[i]),
    {
        assert forall|i: int| at <= i < self.entries@.len() implies text::precedes(
            id,
            #[trigger] self.ids()[i],
        ) by {
            if at < i {
                text::order_is_transitive(id, self.ids()[at], self.ids()[i]);
            }
        }
        text::order_is_irreflexive(id);
    }

    /// Whether there is a value for the id.
    pub fn contains_key(&self, id: &str) -> (r: bool)
        ensures
            r == self@.contains_key(id@),
    {
        self.locate(id).1
    }

    /// The value for an id.
    pub fn get(&self, id: &str) -> (r: Option<&V>)
        ensures
            r == (if self@.contains_key(id@) {
                Some(&self@[id@])
            } else {
                None
            }),
    {
        let (at, found) = self.locate(id);
        if found {
            proof {
                use_type_invariant(self);
                self.lemma_entry(at as int);
            }
            Some(&self.entries[at].1)
        } else {
            None
        }
    }

    /// Sets the value for an id.
    pub fn insert(&mut self, id: String, value: V)
        ensures
            final(self)@ == old(self)@.insert(id@, value),
    {
        let (at, found) = self.locate(&id);
        proof {
            use_type_invariant(&*self);
        }
        let ghost before = *self;
        let ghost entry = (id, value);
        let mut entries: Vec<(String, V)> = Vec::new();
        core::mem::swap(&mut entries, &mut self.entries);
        if found {
            entries.remove(at);
        }
        entries.insert(at, (id, value));
        let ghost after = IdMap { entries };
        proof {
            Self::lemma_put(before, after, at as int, found, entry);
        }
        self.entries = entries;
    }

    proof fn lemma_put(before: Self, after: Self, at: int, found: bool, entry: (String, V))
        requires
            before.sorted(),
            0 <= at <= before.entries@.len(),
            found ==> at < before.entries@.len() && before.ids()[at] == entry.0@,
            !found ==> !before@.contains_key(entry.0@),
            forall|i: int| 0 <= i < at ==> text::precedes(#[trigger] before.ids()[i], entry.0@),
            !found ==> forall|i: int|
                at <= i < before.entries@.len() ==> text::precedes(
                    entry.0@,
                    #[trigger] before.ids()[i],
                ),
            after.entries@ == (if found {
                before.entries@.remove(at)
            } else {
                before.entries@
            }).insert(at, entry),
        ensures
            after.sorted(),
            after@ == before@.insert(entry.0@, entry.1),
    {
        let old_ids = before.ids();
        let new_ids = after.ids();
        let shift: int = if found {
            0
        } else {
            1
        };
        assert(new_ids.len() == old_ids.len() + shift);
        assert forall|i: int| 0 <= i < new_ids.len() implies #[trigger] new_ids[i] == (if i < at {
            old_ids[i]
        } else if i == at {
            entry.0@
        } else {
            old_ids[i - shift]
        }) by {}
        assert(increasing(new_ids)) by {
            assert forall|i: int, j: int| 0 <= i < j < new_ids.len() implies text::precedes(
                #[trigger] new_ids[i],
                #[trigger] new_ids[j],
            ) by {}
        }
        assert forall|id: Seq<char>| #[trigger]
            after@.contains_key(id) <==> before@.insert(entry.0@, entry.1).contains_key(id) by {
            if after@.contains_key(id) {
                let i = new_ids.index_of(id);
                if i != at {
                    let k = if i < at {
                        i
                    } else {
                        i - shift
                    };
                    assert(old_ids[k] == id);
                }
            }
            if before@.insert(entry.0@, entry.1).contains_key(id) {
                if id == entry.0@ {
                    assert(new_ids[at] == id);
                } else {
                    let i = old_ids.index_of(id);
                    let k = if i < at {
                        i
                    } else {
                        i + shift
                    };
                    assert(new_ids[k] == id);
                }
            }
        }
        assert forall|id: Seq<char>| #[trigger] after@.contains_key(id) implies after@[id]
            == before@.insert(entry.0@, entry.1)[id] by {
            let i = new_ids.index_of(id);
            after.lemma_entry(i);
            if i != at {
                let k = if i < at {
                    i
                } else {
                    i - shift
                };
                assert(old_ids[k] == id);
                before.lemma_entry(k);
                assert(after.entries@[i] == before.entries@[k]);
                if id == entry.0@ {
                    text::order_is_irreflexive(id);
                }
            }
        }
        assert(after@ =~= before@.insert(entry.0@, entry.1));
    }

    /// Takes an id out of the map.
    pub fn remove(&mut self, id: &str) -> (r: Option<V>)
        ensures
            final(self)@ == old(self)@.remove(id@),
            r == (if old(self)@.contains_key(id@) {
                Some(old(self)@[id@])
            } else {
                None
            }),
    {
        let (at, found) = self.locate(id);
        if !found {
            assert(self@.remove(id@) =~= self@);
            return None;
        }
        proof {
            use_type_invariant(&*self);
            self.lemma_entry(at as int);
        }
        let ghost before = *self;
        let mut entries: Vec<(String, V)> = Vec::new();
        core::mem::swap(&mut entries, &mut self.entries);
        let entry = entries.remove(at);
        let ghost after = IdMap { entries };
        proof {
            Self::lemma_taken(before, after, at as int);
        }
        self.entries = entries;
        Some(entry.1)
    }

    proof fn lemma_taken(before: Self, after: Self, at: int)
        requires
            before.sorted(),
            0 <= at < before.entries@.len(),
            after.entries@ == before.entries@.remove(at),
        ensures
            after.sorted(),
            after@ == before@.remove(before.ids()[at]),
    {
        let old_ids = before.ids();
        let new_ids = after.ids();
        let gone = old_ids[at];
        assert forall|i: int| 0 <= i < new_ids.len() implies #[trigger] new_ids[i] == (if i < at {
            old_ids[i]
        } else {
            old_ids[i + 1]
        }) by {}
        assert(increasing(new_ids)) by {
            assert forall|i: int, j: int| 0 <= i < j < new_ids.len() implies text::precedes(
                #[trigger] new_ids[i],
                #[trigger] new_ids[j],
            ) by {}
        }
        assert forall|id: Seq<char>| #[trigger]
            after@.contains_key(id) <==> before@.remove(gone).contains_key(id) by {
            if after@.contains_key(id) {
                let i = new_ids.index_of(id);
                let k = if i < at {
                    i
                } else {
                    i + 1
                };
                assert(old_ids[k] == id);
                text::order_is_irreflexive(id);
            }
            if before@.remove(gone).contains_key(id) {
                let i = old_ids.index_of(id);
                assert(i != at);
                let k = if i < at {
                    i
                } else {
                    i - 1
                };
                assert(new_ids[k] == id);
            }
        }
        assert forall|id: Seq<char>| #[trigger] after@.contains_key(id) implies after@[id]
            == before@.remove(gone)[id] by {
            let i = new_ids.index_of(id);
            after.lemma_entry(i);
            let k = if i < at {
                i
            } else {
                i + 1
            };
            assert(old_ids[k] == id);
            before.lemma_entry(k);
        }
        assert(after@ =~= before@.remove(gone));
    }
}

} // verus!
