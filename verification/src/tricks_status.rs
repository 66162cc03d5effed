//! What is shown of every trick: for each action, whether it can be taken, is
//! under way, or is done. Tricks are kept in order of their IDs, grouped by
//! category on demand.
use crate::actions::{spec_all_variants, SpecificActionID};
use crate::providers::dyn_provider::DynTrickProvider;
use crate::text::{contains_str, lemma_lt_asymmetric, lemma_lt_irreflexive, lemma_lt_total,
    lemma_lt_transitive, owned, seq_lt, str_eq, str_lt, vec_contains_str};
use crate::tricks_config::{same_trick, Trick};
use std::rc::Rc;
use vstd::prelude::*;

verus! {

/// How one action of a trick is shown.
#[derive(Debug)]
pub struct ActionDisplayStatus {
    pub trick: Rc<Trick>,
    pub action_id: SpecificActionID,
    pub is_available: bool,
    pub is_ongoing: bool,
    pub is_completed: bool,
}

impl ActionDisplayStatus {
    pub fn duplicate(&self) -> (r: Self)
        ensures
            r == *self,
    {
        ActionDisplayStatus {
            trick: self.trick.clone(),
            action_id: self.action_id,
            is_available: self.is_available,
            is_ongoing: self.is_ongoing,
            is_completed: self.is_completed,
        }
    }
}

/// How a trick is shown: the trick, and each of its actions in the order in which
/// actions are shown.
#[derive(Debug)]
pub struct TrickStatus {
    pub trick: Rc<Trick>,
    pub actions: Vec<ActionDisplayStatus>,
}

/// Two statuses show the same.
pub open spec fn same_status(a: TrickStatus, b: TrickStatus) -> bool {
    a.trick == b.trick && a.actions@ == b.actions@
}

impl TrickStatus {
    pub fn duplicate(&self) -> (r: Self)
        ensures
            same_status(r, *self),
    {
        let mut actions: Vec<ActionDisplayStatus> = Vec::new();
        let mut i: usize = 0;
        while i < self.actions.len()
            invariant
                i <= self.actions@.len(),
                actions@ == self.actions@.subrange(0, i as int),
            decreases self.actions@.len() - i,
        {
            actions.push(self.actions[i].duplicate());
            assert(self.actions@.subrange(0, i + 1) =~= self.actions@.subrange(0, i as int).push(
                self.actions@[i as int],
            ));
            i = i + 1;
        }
        assert(self.actions@.subrange(0, self.actions@.len() as int) =~= self.actions@);
        TrickStatus { trick: self.trick.clone(), actions }
    }
}

/// Whether the status shows what the provider says of its trick: every action in
/// the order in which actions are shown, available when the provider allows it,
/// under way when the trick is being installed (for installing) or runs (for
/// running), and done when the trick was added to Steam (for adding it to Steam).
pub open spec fn shows(ts: TrickStatus, p: DynTrickProvider) -> bool {
    &&& same_trick(*ts.trick, p.spec_ctx().trick)
    &&& ts.actions@.len() == spec_all_variants().len()
    &&& forall|j: int|
        0 <= j < ts.actions@.len() ==> {
            let a = #[trigger] ts.actions@[j];
            &&& a.trick == ts.trick
            &&& a.action_id == spec_all_variants()[j]
            &&& a.is_available == p.spec_checks().allows(a.action_id)
            &&& a.is_ongoing == ((a.action_id == SpecificActionID::Install
                && p.spec_ctx().is_installing) || (a.action_id == SpecificActionID::Run
                && p.spec_checks().running))
            &&& a.is_completed == (a.action_id == SpecificActionID::AddToSteam
                && p.spec_ctx().is_added_to_steam)
        }
}

/// The status of a provider's trick.
pub fn status_of(p: &DynTrickProvider) -> (r: TrickStatus)
    ensures
        shows(r, *p),
{
    let trick = Rc::new(p.get_trick().duplicate());
    let is_installing = p.is_installing();
    let is_running = p.is_running();
    let is_added_to_steam = p.is_added_to_steam();
    let all_actions = p.get_all_actions();
    let mut actions: Vec<ActionDisplayStatus> = Vec::new();
    let mut i: usize = 0;
    while i < all_actions.len()
        invariant
            i <= all_actions@.len(),
            all_actions@ == spec_all_variants(),
            same_trick(*trick, p.spec_ctx().trick),
            is_installing == p.spec_ctx().is_installing,
            is_running == p.spec_checks().running,
            is_added_to_steam == p.spec_ctx().is_added_to_steam,
            actions@.len() == i,
            forall|j: int|
                0 <= j < i ==> {
                    let a = #[trigger] actions@[j];
                    &&& a.trick == trick
                    &&& a.action_id == spec_all_variants()[j]
                    &&& a.is_available == p.spec_checks().allows(a.action_id)
                    &&& a.is_ongoing == ((a.action_id == SpecificActionID::Install
                        && p.spec_ctx().is_installing) || (a.action_id == SpecificActionID::Run
                        && p.spec_checks().running))
                    &&& a.is_completed == (a.action_id == SpecificActionID::AddToSteam
                        && p.spec_ctx().is_added_to_steam)
                },
        decreases all_actions@.len() - i,
    {
        let action_id = all_actions[i];
        let is_ongoing = match action_id {
            SpecificActionID::Install => is_installing,
            SpecificActionID::Run => is_running,
            _ => false,
        };
        let is_completed = match action_id {
            SpecificActionID::AddToSteam => is_added_to_steam,
            _ => false,
        };
        let is_available = p.can_id(&action_id);
        actions.push(
            ActionDisplayStatus { trick: trick.clone(), action_id, is_available, is_ongoing, is_completed },
        );
        i = i + 1;
    }
    TrickStatus { trick, actions }
}

/// The keys are in strictly increasing order.
pub open spec fn sorted_keys<V>(v: Seq<(String, V)>) -> bool {
    forall|i: int, j: int| 0 <= i < j < v.len() ==> seq_lt(v[i].0@, v[j].0@)
}

/// The entries hold exactly the map, one entry per key.
pub open spec fn lists_entries<V>(v: Seq<(String, V)>, m: Map<Seq<char>, V>) -> bool {
    &&& forall|i: int| 0 <= i < v.len() ==> #[trigger] m.contains_key(v[i].0@) && m[v[i].0@]
        == v[i].1
    &&& forall|k: Seq<char>| #[trigger]
        m.contains_key(k) ==> exists|i: int| 0 <= i < v.len() && v[i].0@ == k
}

/// Puts a value under a key, in order of the keys; a value already there is
/// replaced.
pub fn insert_sorted<V>(entries: &mut Vec<(String, V)>, key: String, value: V, Ghost(m): Ghost<Map<Seq<char>, V>>)
    requires
        sorted_keys(old(entries)@),
        lists_entries(old(entries)@, m),
    ensures
        sorted_keys(final(entries)@),
        lists_entries(final(entries)@, m.insert(key@, value)),
{
    let ghost old_v = entries@;
    let ghost m2 = m.insert(key@, value);
    let mut k: usize = 0;
    while k < entries.len() && str_lt(entries[k].0.as_str(), key.as_str())
        invariant
            k <= entries@.len(),
            entries@ == old_v,
            forall|j: int| 0 <= j < k ==> seq_lt(entries@[j].0@, key@),
        decreases entries@.len() - k,
    {
        k = k + 1;
    }
    assert forall|j: int| k <= j < entries@.len() implies !seq_lt(entries@[j].0@, key@) by {
        if j > k {
            if seq_lt(entries@[j].0@, key@) {
                lemma_lt_asymmetric(entries@[k as int].0@, entries@[j].0@);
                lemma_lt_total(entries@[k as int].0@, key@);
                if seq_lt(key@, entries@[k as int].0@) {
                    lemma_lt_transitive(key@, entries@[k as int].0@, entries@[j].0@);
                    lemma_lt_asymmetric(key@, entries@[j].0@);
                } else if entries@[k as int].0@ == key@ {
                    lemma_lt_asymmetric(key@, entries@[j].0@);
                }
            }
        }
    }
    if k < entries.len() && str_eq(entries[k].0.as_str(), key.as_str()) {
        entries.set(k, (key, value));
        proof {
            assert forall|i: int| 0 <= i < entries@.len() implies #[trigger] m2.contains_key(
                entries@[i].0@,
            ) && m2[entries@[i].0@] == entries@[i].1 by {
                if i != k {
                    assert(old_v[i].0@ != key@) by {
                        if i > k {
                            assert(seq_lt(old_v[k as int].0@, old_v[i].0@));
                        } else {
                            assert(seq_lt(old_v[i].0@, key@));
                        }
                        lemma_lt_irreflexive(key@);
                    }
                    assert(entries@[i] == old_v[i]);
                    assert(m.contains_key(old_v[i].0@));
                }
            }
            assert forall|q: Seq<char>| #[trigger] m2.contains_key(q) implies exists|i: int|
                0 <= i < entries@.len() && entries@[i].0@ == q by {
                if q == key@ {
                    assert(entries@[k as int].0@ == q);
                } else {
                    let i = choose|i: int| 0 <= i < old_v.len() && old_v[i].0@ == q;
                    assert(entries@[i].0@ == q);
                }
            }
            assert forall|i: int, j: int| 0 <= i < j < entries@.len() implies seq_lt(
                entries@[i].0@,
                entries@[j].0@,
            ) by {
                assert(entries@[i].0@ == old_v[i].0@);
                assert(entries@[j].0@ == old_v[j].0@);
            }
        }
    } else {
        proof {
            if m.contains_key(key@) {
                let i = choose|i: int| 0 <= i < old_v.len() && old_v[i].0@ == key@;
                if i < k {
                    lemma_lt_irreflexive(key@);
                } else if i > k {
                    lemma_lt_total(old_v[k as int].0@, key@);
                    lemma_lt_transitive(key@, old_v[k as int].0@, old_v[i].0@);
                    lemma_lt_irreflexive(key@);
                }
            }
            if k < old_v.len() {
                lemma_lt_total(old_v[k as int].0@, key@);
            }
        }
        entries.insert(k, (key, value));
        proof {
            assert forall|i: int, j: int| 0 <= i < j < entries@.len() implies seq_lt(
                entries@[i].0@,
                entries@[j].0@,
            ) by {
                if i < k && j == k {
                } else if i < k && j > k {
                    lemma_lt_transitive(old_v[i].0@, key@, old_v[k as int].0@);
                    if j - 1 > k {
                        lemma_lt_transitive(old_v[i].0@, old_v[k as int].0@, old_v[j - 1].0@);
                    }
                } else if i == k {
                    if j - 1 > k {
                        lemma_lt_transitive(key@, old_v[k as int].0@, old_v[j - 1].0@);
                    }
                } else {
                }
            }
            assert forall|i: int| 0 <= i < entries@.len() implies #[trigger] m2.contains_key(
                entries@[i].0@,
            ) && m2[entries@[i].0@] == entries@[i].1 by {
                if i < k {
                    assert(old_v[i].0@ != key@) by {
                        lemma_lt_irreflexive(key@);
                    }
                } else if i > k {
                    assert(old_v[i - 1].0@ != key@) by {
                        lemma_lt_irreflexive(key@);
                    }
                }
            }
            assert forall|q: Seq<char>| #[trigger] m2.contains_key(q) implies exists|i: int|
                0 <= i < entries@.len() && entries@[i].0@ == q by {
                if q == key@ {
                    assert(entries@[k as int].0@ == q);
                } else {
                    let i = choose|i: int| 0 <= i < old_v.len() && old_v[i].0@ == q;
                    if i < k {
                        assert(entries@[i].0@ == q);
                    } else {
                        assert(entries@[i + 1].0@ == q);
                    }
                }
            }
        }
    }
}

/// The trick that a provider is for, by its ID.
pub open spec fn trick_key(p: DynTrickProvider) -> Seq<char> {
    p.spec_ctx().trick.id@
}

/// The position of the last provider for the trick with the given ID, or -1.
pub open spec fn last_index(ps: Seq<DynTrickProvider>, k: Seq<char>) -> int
    decreases ps.len(),
{
    if ps.len() == 0 {
        -1
    } else if trick_key(ps.last()) == k {
        ps.len() - 1
    } else {
        last_index(ps.drop_last(), k)
    }
}

pub proof fn lemma_last_index(ps: Seq<DynTrickProvider>, k: Seq<char>)
    ensures
        -1 <= last_index(ps, k) < ps.len(),
        last_index(ps, k) >= 0 ==> trick_key(ps[last_index(ps, k)]) == k,
        forall|j: int| 0 <= j < ps.len() && trick_key(#[trigger] ps[j]) == k ==> j <= last_index(ps, k),
    decreases ps.len(),
{
    if ps.len() > 0 {
        lemma_last_index(ps.drop_last(), k);
        if trick_key(ps.last()) != k {
            assert forall|j: int| 0 <= j < ps.len() && trick_key(#[trigger] ps[j]) == k implies j
                <= last_index(ps, k) by {
                assert(ps.drop_last()[j] == ps[j]);
            }
        }
    }
}

/// One of the entries is under the key.
pub open spec fn has_key(entries: Seq<(String, TrickStatus)>, k: Seq<char>) -> bool {
    exists|i: int| 0 <= i < entries.len() && #[trigger] entries[i].0@ == k
}

/// Entry `i` is the first one under the key.
pub open spec fn first_with_key<V>(entries: Seq<(String, V)>, k: Seq<char>, i: int) -> bool {
    &&& 0 <= i < entries.len()
    &&& entries[i].0@ == k
    &&& forall|j: int| 0 <= j < i ==> #[trigger] entries[j].0@ != k
}

/// The copies hold the same keys and show the same, in the same order.
pub open spec fn copies(a: Seq<(String, TrickStatus)>, b: Seq<(String, TrickStatus)>) -> bool {
    &&& a.len() == b.len()
    &&& forall|i: int| 0 <= i < a.len() ==> #[trigger] a[i].0@ == b[i].0@ && same_status(a[i].1, b[i].1)
}

/// The trick of an entry is in the category.
pub open spec fn in_category(e: (String, TrickStatus), category: Seq<char>) -> bool {
    contains_str(e.1.trick.categories@, category)
}

/// How every trick is shown, one entry per trick ID in order of the IDs.
pub struct AllTricksStatus {
    entries: Vec<(String, TrickStatus)>,
}

impl AllTricksStatus {
    pub closed spec fn spec_entries(self) -> Seq<(String, TrickStatus)> {
        self.entries@
    }

    /// The status of every provider's trick; when two providers are for the same
    /// trick ID, the later one is shown. Tricks are in order of their IDs.
    pub fn new(providers: Vec<DynTrickProvider>) -> (r: Self)
        ensures
            sorted_keys(r.spec_entries()),
            forall|i: int|
                0 <= i < r.spec_entries().len() ==> {
                    let k = (#[trigger] r.spec_entries()[i]).0@;
                    0 <= last_index(providers@, k) && shows(
                        r.spec_entries()[i].1,
                        providers@[last_index(providers@, k)],
                    )
                },
            forall|j: int|
                0 <= j < providers@.len() ==> has_key(r.spec_entries(), trick_key(#[trigger] providers@[j])),
    {
        let ghost ps = providers@;
        let mut entries: Vec<(String, TrickStatus)> = Vec::new();
        let ghost mut m: Map<Seq<char>, TrickStatus> = Map::empty();
        let mut n: usize = 0;
        while n < providers.len()
            invariant
                n <= ps.len(),
                providers@ == ps,
                sorted_keys(entries@),
                lists_entries(entries@, m),
                forall|q: Seq<char>| #[trigger]
                    m.contains_key(q) ==> 0 <= last_index(ps.subrange(0, n as int), q) && shows(
                        m[q],
                        ps[last_index(ps.subrange(0, n as int), q)],
                    ),
                forall|j: int| 0 <= j < n ==> #[trigger] m.contains_key(trick_key(ps[j])),
            decreases ps.len() - n,
        {
            let p = &providers[n];
            let ts = status_of(p);
            let key = p.get_trick().id.clone();
            let ghost sub = ps.subrange(0, n + 1);
            let ghost prev = ps.subrange(0, n as int);
            proof {
                assert(sub.drop_last() =~= prev);
                assert(sub.last() == ps[n as int]);
                assert(key@ == trick_key(ps[n as int]));
                assert forall|q: Seq<char>| q != key@ implies last_index(sub, q) == last_index(prev, q) by {}
                assert(last_index(sub, key@) == n);
                assert forall|q: Seq<char>| #[trigger] m.contains_key(q) && 0 <= last_index(prev, q) implies
                    ps[last_index(prev, q)] == prev[last_index(prev, q)] by {
                    lemma_last_index(prev, q);
                }
            }
            insert_sorted(&mut entries, key, ts, Ghost(m));
            proof {
                let m2 = m.insert(key@, ts);
                assert forall|q: Seq<char>| #[trigger] m2.contains_key(q) implies 0 <= last_index(sub, q)
                    && shows(m2[q], ps[last_index(sub, q)]) by {
                    if q != key@ {
                        lemma_last_index(prev, q);
                    }
                }
                assert forall|j: int| 0 <= j < n + 1 implies #[trigger] m2.contains_key(trick_key(ps[j])) by {
                }
                m = m2;
            }
            n = n + 1;
        }
        proof {
            assert(ps.subrange(0, n as int) =~= ps);
            assert forall|i: int| 0 <= i < entries@.len() implies {
                let k = (#[trigger] entries@[i]).0@;
                0 <= last_index(ps, k) && shows(entries@[i].1, ps[last_index(ps, k)])
            } by {
                assert(m.contains_key(entries@[i].0@));
            }
            assert forall|j: int| 0 <= j < ps.len() implies has_key(entries@, trick_key(#[trigger] ps[j])) by {
                assert(m.contains_key(trick_key(ps[j])));
            }
        }
        AllTricksStatus { entries }
    }

    /// How the trick with the given ID is shown, if it is known.
    pub fn get(&self, trick_id: &str) -> (r: Option<&TrickStatus>)
        ensures
            match r {
                Some(ts) => exists|i: int|
                    #[trigger] first_with_key(self.spec_entries(), trick_id@, i) && self.spec_entries()[i].1 == *ts,
                None => forall|i: int|
                    0 <= i < self.spec_entries().len() ==> #[trigger] self.spec_entries()[i].0@
                        != trick_id@,
            },
    {
        let mut i: usize = 0;
        while i < self.entries.len()
            invariant
                i <= self.entries@.len(),
                forall|j: int| 0 <= j < i ==> #[trigger] self.entries@[j].0@ != trick_id@,
            decreases self.entries@.len() - i,
        {
            if str_eq(self.entries[i].0.as_str(), trick_id) {
                assert(first_with_key(self.spec_entries(), trick_id@, i as int));
                return Some(&self.entries[i].1);
            }
            i = i + 1;
        }
        None
    }

    /// Every trick with how it is shown, in order of the trick IDs.
    pub fn get_all_tricks(&self) -> (r: Vec<(String, TrickStatus)>)
        ensures
            copies(r@, self.spec_entries()),
    {
        let mut r: Vec<(String, TrickStatus)> = Vec::new();
        let mut i: usize = 0;
        while i < self.entries.len()
            invariant
                i <= self.entries@.len(),
                copies(r@, self.entries@.subrange(0, i as int)),
            decreases self.entries@.len() - i,
        {
            let e = &self.entries[i];
            r.push((e.0.clone(), e.1.duplicate()));
            i = i + 1;
        }
        assert(self.entries@.subrange(0, self.entries@.len() as int) =~= self.entries@);
        r
    }

    /// The tricks of a category with how they are shown, in order of the trick IDs.
    pub fn get_all_tricks_in_category(&self, category_id: &str) -> (r: Vec<(String, TrickStatus)>)
        ensures
            copies(r@, self.spec_entries().filter(|e: (String, TrickStatus)| in_category(e, category_id@))),
    {
        let ghost pred = |e: (String, TrickStatus)| in_category(e, category_id@);
        let mut r: Vec<(String, TrickStatus)> = Vec::new();
        let mut i: usize = 0;
        while i < self.entries.len()
            invariant
                i <= self.entries@.len(),
                pred == (|e: (String, TrickStatus)| in_category(e, category_id@)),
                copies(r@, self.entries@.subrange(0, i as int).filter(pred)),
            decreases self.entries@.len() - i,
        {
            let e = &self.entries[i];
            proof {
                let sub = self.entries@.subrange(0, i + 1);
                assert(sub.drop_last() =~= self.entries@.subrange(0, i as int));
                assert(sub.last() == *e);
                reveal(Seq::filter);
            }
            if vec_contains_str(&e.1.trick.categories, category_id) {
                r.push((e.0.clone(), e.1.duplicate()));
            }
            i = i + 1;
        }
        assert(self.entries@.subrange(0, self.entries@.len() as int) =~= self.entries@);
        r
    }

    /// All tricks under `all`, then the tricks of each category in turn.
    pub fn get_full_map_for_categories(&self, categories: Vec<String>) -> (r: Vec<(String, Vec<(String, TrickStatus)>)>)
        ensures
            r@.len() == categories@.len() + 1,
            r@[0].0@ == "all"@,
            copies(r@[0].1@, self.spec_entries()),
            forall|c: int|
                0 <= c < categories@.len() ==> (#[trigger] r@[c + 1]).0@ == categories@[c]@
                    && copies(
                    r@[c + 1].1@,
                    self.spec_entries().filter(
                        |e: (String, TrickStatus)| in_category(e, categories@[c]@),
                    ),
                ),
    {
        let mut r: Vec<(String, Vec<(String, TrickStatus)>)> = Vec::new();
        r.push((owned("all"), self.get_all_tricks()));
        let mut c: usize = 0;
        while c < categories.len()
            invariant
                c <= categories@.len(),
                r@.len() == c + 1,
                r@[0].0@ == "all"@,
                copies(r@[0].1@, self.spec_entries()),
                forall|d: int|
                    0 <= d < c ==> (#[trigger] r@[d + 1]).0@ == categories@[d]@ && copies(
                        r@[d + 1].1@,
                        self.spec_entries().filter(
                            |e: (String, TrickStatus)| in_category(e, categories@[d]@),
                        ),
                    ),
            decreases categories@.len() - c,
        {
            let tricks = self.get_all_tricks_in_category(categories[c].as_str());
            r.push((categories[c].clone(), tricks));
            c = c + 1;
        }
        r
    }
}

} // verus!
