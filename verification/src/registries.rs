//! Registries: maps from an entry id to an entry that can be switched on and
//! off. They are kept in insertion order, and no id occurs twice.
use vstd::prelude::*;
use crate::text::{is_listed, lemma_sorted_texts_unique, lemma_text_lt_transitive, lemma_text_lt_trichotomy, str_eq, text_less, text_lt};

pub mod configs_registry;
pub mod encrypted_configs_registry;
pub mod package_registry;

verus! {

/// An entry of a registry: something that is enabled or disabled and can be copied.
pub trait RegistryItem: Sized {
    /// Whether the entry is enabled.
    spec fn enabled_spec(&self) -> bool;

    /// The same entry with its enabled flag set to `on`, nothing else changed.
    spec fn with_enabled_spec(&self, on: bool) -> Self;

    /// Setting the flag sets the flag, and setting it back gives the entry back.
    proof fn lemma_with_enabled(&self, on: bool)
        ensures
            self.with_enabled_spec(on).enabled_spec() == on,
            self.with_enabled_spec(on).with_enabled_spec(self.enabled_spec()) == *self,
            self.with_enabled_spec(on).with_enabled_spec(on) == self.with_enabled_spec(on),
    ;

    /// Reads the enabled flag.
    fn is_enabled(&self) -> (b: bool)
        ensures
            b == self.enabled_spec(),
    ;

    /// Sets the enabled flag.
    fn set_enabled(&mut self, on: bool)
        ensures
            *final(self) == old(self).with_enabled_spec(on),
    ;

    /// Whether `other` holds the same contents as this entry.
    spec fn same_as(&self, other: &Self) -> bool;

    /// A copy of the entry.
    fn duplicate(&self) -> (r: Self)
        ensures
            r.same_as(self),
            r.enabled_spec() == self.enabled_spec(),
    ;
}

/// `a` is a copy of `b`: the same ids, with entries of the same contents.
pub open spec fn copies<E: RegistryItem>(a: Seq<(String, E)>, b: Seq<(String, E)>) -> bool {
    a.len() == b.len() && forall|i: int| 0 <= i < a.len() ==> #[trigger] same_pair(a[i], b[i])
}

/// The same id, and an entry of the same contents.
pub open spec fn same_pair<E: RegistryItem>(p: (String, E), q: (String, E)) -> bool {
    p.0@ == q.0@ && p.1.same_as(&q.1)
}

/// Copies extend by copies.
pub proof fn lemma_copies_push<E: RegistryItem>(
    a: Seq<(String, E)>,
    b: Seq<(String, E)>,
    x: (String, E),
    y: (String, E),
)
    requires
        copies(a, b),
        x.0@ == y.0@,
        x.1.same_as(&y.1),
    ensures
        copies(a.push(x), b.push(y)),
{
    assert forall|i: int| 0 <= i < a.push(x).len() implies #[trigger] same_pair(a.push(x)[i], b.push(y)[i]) by {
        if i < a.len() {
            assert(a.push(x)[i] == a[i]);
            assert(b.push(y)[i] == b[i]);
            assert(same_pair(a[i], b[i]));
        }
    }
}

/// The map that a list of `(id, entry)` pairs stands for; a later pair wins.
pub open spec fn to_map<E>(s: Seq<(String, E)>) -> Map<Seq<char>, E>
    decreases s.len(),
{
    if s.len() == 0 {
        Map::empty()
    } else {
        to_map(s.drop_last()).insert(s.last().0@, s.last().1)
    }
}

/// No id occurs twice.
pub open spec fn distinct_ids<E>(s: Seq<(String, E)>) -> bool {
    forall|i: int, j: int| 0 <= i < j < s.len() ==> s[i].0@ != s[j].0@
}

/// The ids of the enabled entries, in order, with their entries.
pub open spec fn enabled_pairs<E: RegistryItem>(s: Seq<(String, E)>) -> Seq<(String, E)>
    decreases s.len(),
{
    if s.len() == 0 {
        Seq::empty()
    } else if s.last().1.enabled_spec() {
        enabled_pairs(s.drop_last()).push(s.last())
    } else {
        enabled_pairs(s.drop_last())
    }
}

/// An id is in the map exactly when some pair carries it.
pub proof fn lemma_to_map_dom<E>(s: Seq<(String, E)>, k: Seq<char>)
    ensures
        to_map(s).contains_key(k) <==> exists|i: int| 0 <= i < s.len() && s[i].0@ == k,
    decreases s.len(),
{
    if s.len() > 0 {
        let t = s.drop_last();
        lemma_to_map_dom(t, k);
        if to_map(t).contains_key(k) {
            let i = choose|i: int| 0 <= i < t.len() && t[i].0@ == k;
            assert(s[i] == t[i]);
        }
        if exists|i: int| 0 <= i < s.len() && s[i].0@ == k {
            let i = choose|i: int| 0 <= i < s.len() && s[i].0@ == k;
            if i < t.len() {
                assert(t[i] == s[i]);
            }
        }
    }
}

/// With distinct ids, the map gives each pair's entry for its id.
pub proof fn lemma_to_map_value<E>(s: Seq<(String, E)>, i: int)
    requires
        distinct_ids(s),
        0 <= i < s.len(),
    ensures
        to_map(s).contains_key(s[i].0@),
        to_map(s)[s[i].0@] == s[i].1,
    decreases s.len(),
{
    let t = s.drop_last();
    if i < s.len() - 1 {
        assert(t[i] == s[i]);
        lemma_to_map_value(t, i);
    }
}

/// Replacing the entry of a pair replaces the entry of its id.
pub proof fn lemma_to_map_update<E>(s: Seq<(String, E)>, i: int, p: (String, E))
    requires
        distinct_ids(s),
        0 <= i < s.len(),
        p.0@ == s[i].0@,
    ensures
        to_map(s.update(i, p)) == to_map(s).insert(p.0@, p.1),
        distinct_ids(s.update(i, p)),
    decreases s.len(),
{
    let t = s.drop_last();
    if i == s.len() - 1 {
        assert(s.update(i, p).drop_last() =~= t);
        assert(to_map(s.update(i, p)) =~= to_map(s).insert(p.0@, p.1));
    } else {
        assert(s.update(i, p).drop_last() =~= t.update(i, p));
        lemma_to_map_update(t, i, p);
        assert(s.last().0@ != s[i].0@);
        assert(to_map(s.update(i, p)) =~= to_map(s).insert(p.0@, p.1));
    }
}

/// Dropping a pair drops its id.
pub proof fn lemma_to_map_remove<E>(s: Seq<(String, E)>, i: int)
    requires
        distinct_ids(s),
        0 <= i < s.len(),
    ensures
        to_map(s.remove(i)) == to_map(s).remove(s[i].0@),
        distinct_ids(s.remove(i)),
    decreases s.len(),
{
    let t = s.drop_last();
    if i == s.len() - 1 {
        assert(s.remove(i) =~= t);
        lemma_to_map_dom(t, s[i].0@);
        assert(to_map(s.remove(i)) =~= to_map(s).remove(s[i].0@));
    } else {
        assert(s.remove(i).drop_last() =~= t.remove(i));
        assert(s.remove(i).last() == s.last());
        lemma_to_map_remove(t, i);
        assert(s.last().0@ != s[i].0@);
        assert(to_map(s.remove(i)) =~= to_map(s).remove(s[i].0@));
    }
    assert forall|a: int, b: int| 0 <= a < b < s.remove(i).len() implies s.remove(i)[a].0@
        != s.remove(i)[b].0@ by {
        let a0 = if a < i { a } else { a + 1 };
        let b0 = if b < i { b } else { b + 1 };
        assert(s.remove(i)[a] == s[a0]);
        assert(s.remove(i)[b] == s[b0]);
    }
}

/// A registry of entries keyed by id.
#[derive(Debug, Clone)]
pub struct Registry<E> {
    entries: Vec<(String, E)>,
}

impl<E> Registry<E> {
    /// The pairs, in insertion order.
    pub closed spec fn pairs(&self) -> Seq<(String, E)> {
        self.entries@
    }

    /// The registry as a map from id to entry.
    pub open spec fn view(&self) -> Map<Seq<char>, E> {
        to_map(self.pairs())
    }

    /// No id occurs twice.
    pub open spec fn wf(&self) -> bool {
        distinct_ids(self.pairs())
    }

    /// An empty registry.
    pub fn new() -> (r: Self)
        ensures
            r.wf(),
            r.pairs() == Seq::<(String, E)>::empty(),
            r.view() == Map::<Seq<char>, E>::empty(),
    {
        Registry { entries: Vec::new() }
    }

    /// A registry of the given pairs, a later pair replacing an earlier one with the same id.
    pub fn from_pairs(pairs: Vec<(String, E)>) -> (r: Self)
        ensures
            r.wf(),
            r.view() == to_map(pairs@),
    {
        let mut r = Self::new();
        let mut pairs = pairs;
        let ghost all = pairs@;
        let n = pairs.len();
        let mut i: usize = 0;
        proof {
            assert(all.take(0) =~= Seq::<(String, E)>::empty());
            assert(all.subrange(0, all.len() as int) =~= all);
        }
        while pairs.len() > 0
            invariant
                r.wf(),
                pairs@ == all.subrange(i as int, all.len() as int),
                all.len() == n,
                i <= all.len(),
                r.view() == to_map(all.take(i as int)),
            decreases pairs.len(),
        {
            let p = pairs.remove(0);
            proof {
                assert(p == all[i as int]);
                assert(all.take(i + 1) =~= all.take(i as int).push(p));
                assert(pairs@ =~= all.subrange(i + 1, all.len() as int));
                assert(all.take(i + 1).drop_last() =~= all.take(i as int));
            }
            r.add_entry(p.0, p.1);
            i = i + 1;
        }
        proof {
            assert(all.take(all.len() as int) =~= all);
        }
        r
    }

    /// Number of entries.
    pub fn len(&self) -> (n: usize)
        requires
            self.wf(),
        ensures
            n == self.view().len(),
    {
        proof {
            self.lemma_len();
        }
        self.entries.len()
    }

    proof fn lemma_len(&self)
        requires
            self.wf(),
        ensures
            self.view().len() == self.pairs().len(),
            self.view().dom().finite(),
        decreases self.pairs().len(),
    {
        lemma_len_distinct(self.pairs());
    }

    /// The index of the pair with the given id.
    fn find(&self, id: &str) -> (r: Option<usize>)
        requires
            self.wf(),
        ensures
            r matches Some(i) ==> i < self.pairs().len() && self.pairs()[i as int].0@ == id@,
            r is None ==> !self.view().contains_key(id@),
    {
        let mut i: usize = 0;
        while i < self.entries.len()
            invariant
                i <= self.entries.len(),
                forall|j: int| 0 <= j < i ==> self.entries@[j].0@ != id@,
            decreases self.entries.len() - i,
        {
            if str_eq(self.entries[i].0.as_str(), id) {
                return Some(i);
            }
            i = i + 1;
        }
        proof {
            lemma_to_map_dom(self.pairs(), id@);
        }
        None
    }

    /// The entry with the given id, if any.
    pub fn get_entry(&self, id: &str) -> (r: Option<&E>)
        requires
            self.wf(),
        ensures
            r matches Some(e) ==> self.view().contains_key(id@) && *e == self.view()[id@],
            r is None ==> !self.view().contains_key(id@),
    {
        match self.find(id) {
            Some(i) => {
                proof {
                    lemma_to_map_value(self.pairs(), i as int);
                }
                Some(&self.entries[i].1)
            },
            None => None,
        }
    }

    /// Adds an entry under `id`, replacing any entry already there.
    pub fn add_entry(&mut self, id: String, entry: E)
        requires
            old(self).wf(),
        ensures
            final(self).wf(),
            final(self).view() == old(self).view().insert(id@, entry),
    {
        match self.find(id.as_str()) {
            Some(i) => {
                proof {
                    lemma_to_map_update(self.pairs(), i as int, (id, entry));
                }
                self.entries.set(i, (id, entry));
            },
            None => {
                proof {
                    lemma_to_map_dom(self.pairs(), id@);
                }
                let ghost before = self.pairs();
                self.entries.push((id, entry));
                proof {
                    assert(self.pairs().drop_last() =~= before);
                    assert forall|a: int, b: int| 0 <= a < b < self.pairs().len() implies self.pairs()[a].0@
                        != self.pairs()[b].0@ by {
                        if b == before.len() {
                            assert(self.pairs()[a] == before[a]);
                        } else {
                            assert(self.pairs()[a] == before[a]);
                            assert(self.pairs()[b] == before[b]);
                        }
                    }
                }
            },
        }
    }

    /// Removes the entry under `id`, giving it back.
    pub fn remove_entry(&mut self, id: &str) -> (r: Option<E>)
        requires
            old(self).wf(),
        ensures
            final(self).wf(),
            final(self).view() == old(self).view().remove(id@),
            r matches Some(e) ==> old(self).view().contains_key(id@) && e == old(self).view()[id@],
            r is None ==> !old(self).view().contains_key(id@),
    {
        match self.find(id) {
            Some(i) => {
                proof {
                    lemma_to_map_value(self.pairs(), i as int);
                    lemma_to_map_remove(self.pairs(), i as int);
                }
                let (_, e) = self.entries.remove(i);
                Some(e)
            },
            None => {
                proof {
                    assert(old(self).view().remove(id@) =~= old(self).view());
                }
                None
            },
        }
    }

    /// Adds an entry under an id that is not there yet; an id already
    /// present leaves the registry as it was and gives back `false`.
    pub fn add_new_entry(&mut self, id: String, entry: E) -> (added: bool)
        requires
            old(self).wf(),
        ensures
            final(self).wf(),
            added <==> !old(self).view().contains_key(id@),
            added ==> final(self).view() == old(self).view().insert(id@, entry),
            !added ==> final(self).view() == old(self).view(),
    {
        match self.find(id.as_str()) {
            Some(i) => {
                proof {
                    lemma_to_map_value(self.pairs(), i as int);
                }
                false
            },
            None => {
                self.add_entry(id, entry);
                true
            },
        }
    }

    /// The ids of the registry, in the order of `String`s.
    pub fn sorted_ids(&self) -> (r: Vec<String>)
        requires
            self.wf(),
        ensures
            lists_ids_in_order(strs_of(r@), self.view()),
    {
        let mut r: Vec<String> = Vec::new();
        let mut i: usize = 0;
        proof {
            assert(to_map(self.entries@.take(0)) =~= Map::<Seq<char>, E>::empty());
            assert(strs_of(r@) =~= Seq::<Seq<char>>::empty());
        }
        while i < self.entries.len()
            invariant
                self.wf(),
                i <= self.entries.len(),
                lists_ids_in_order(strs_of(r@), to_map(self.entries@.take(i as int))),
            decreases self.entries.len() - i,
        {
            let ghost before = self.entries@.take(i as int);
            proof {
                assert(self.entries@.take(i + 1).drop_last() =~= before);
                assert(self.entries@.take(i + 1).last() == self.entries@[i as int]);
                lemma_to_map_dom(before, self.entries@[i as int].0@);
                if to_map(before).contains_key(self.entries@[i as int].0@) {
                    let j = choose|j: int| 0 <= j < before.len() && before[j].0@ == self.entries@[i as int].0@;
                    assert(self.entries@[j] == before[j]);
                    assert(false);
                }
            }
            let id = self.entries[i].0.as_str();
            let mut pos: usize = 0;
            let mut found = false;
            while !found && pos < r.len()
                invariant
                    pos <= r.len(),
                    found ==> pos < r.len() && text_lt(id@, r@[pos as int]@),
                    forall|j: int| 0 <= j < pos ==> !text_lt(id@, #[trigger] r@[j]@),
                decreases r.len() + 1 - pos - (if found { 1int } else { 0int }),
            {
                if text_less(id, r[pos].as_str()) {
                    found = true;
                } else {
                    pos = pos + 1;
                }
            }
            let ghost ids = strs_of(r@);
            proof {
                lemma_insert_id_in_order(ids, to_map(before), pos as int, id@, self.entries@[i as int].1);
                assert(to_map(self.entries@.take(i + 1)) == to_map(before).insert(id@, self.entries@[i as int].1));
            }
            r.insert(pos, self.entries[i].0.clone());
            proof {
                assert(strs_of(r@) =~= ids.insert(pos as int, id@));
            }
            i = i + 1;
        }
        proof {
            assert(self.entries@.take(self.entries.len() as int) =~= self.entries@);
        }
        r
    }

    /// Whether no id occurs twice (what [`Registry::wf`] says); every
    /// registry built by this module's functions has it.
    pub fn has_distinct_ids(&self) -> (r: bool)
        ensures
            r == self.wf(),
    {
        let n = self.entries.len();
        let mut i: usize = 0;
        while i < n
            invariant
                n == self.entries@.len(),
                i <= n,
                forall|a: int, b: int| 0 <= a < b < n && a < i ==> self.entries@[a].0@ != self.entries@[b].0@,
            decreases n - i,
        {
            let mut j: usize = i + 1;
            while j < n
                invariant
                    n == self.entries@.len(),
                    i < n,
                    i + 1 <= j <= n,
                    forall|a: int, b: int| 0 <= a < b < n && a < i ==> self.entries@[a].0@ != self.entries@[b].0@,
                    forall|b: int| i < b < j ==> self.entries@[i as int].0@ != self.entries@[b].0@,
                decreases n - j,
            {
                if str_eq(self.entries[i].0.as_str(), self.entries[j].0.as_str()) {
                    return false;
                }
                j = j + 1;
            }
            i = i + 1;
        }
        true
    }

    /// All entries with their ids, in insertion order.
    pub fn entries(&self) -> (r: &Vec<(String, E)>)
        ensures
            r@ == self.pairs(),
    {
        &self.entries
    }
}

impl<E: RegistryItem> Registry<E> {
    /// Enables or disables the entry under `id`; an unknown id is an error
    /// and leaves the registry as it was.
    pub fn set_entry_enabled(&mut self, id: &str, enabled: bool) -> (r: Result<(), String>)
        requires
            old(self).wf(),
        ensures
            final(self).wf(),
            r is Ok <==> old(self).view().contains_key(id@),
            r is Ok ==> final(self).view() == old(self).view().insert(
                id@,
                old(self).view()[id@].with_enabled_spec(enabled),
            ),
            r is Err ==> final(self).view() == old(self).view(),
            r matches Err(msg) ==> msg@ == not_found_message(id@),
    {
        match self.find(id) {
            Some(i) => {
                proof {
                    lemma_to_map_value(self.pairs(), i as int);
                }
                let (k, mut e) = self.entries.remove(i);
                e.set_enabled(enabled);
                self.entries.insert(i, (k, e));
                proof {
                    assert(self.pairs() =~= old(self).pairs().update(i as int, (k, e)));
                    lemma_to_map_update(old(self).pairs(), i as int, (k, e));
                }
                Ok(())
            },
            None => Err(not_found(id)),
        }
    }

    /// The enabled entries with their ids, in insertion order.
    pub fn get_enabled_entries(&self) -> (r: Vec<(String, E)>)
        requires
            self.wf(),
        ensures
            copies(r@, enabled_pairs(self.pairs())),
    {
        let mut r: Vec<(String, E)> = Vec::new();
        let mut i: usize = 0;
        while i < self.entries.len()
            invariant
                i <= self.entries.len(),
                copies(r@, enabled_pairs(self.entries@.take(i as int))),
            decreases self.entries.len() - i,
        {
            proof {
                assert(self.entries@.take(i + 1).drop_last() =~= self.entries@.take(i as int));
            }
            if self.entries[i].1.is_enabled() {
                let k = self.entries[i].0.clone();
                let e = self.entries[i].1.duplicate();
                let ghost before = r@;
                r.push((k, e));
                proof {
                    lemma_copies_push(before, enabled_pairs(self.entries@.take(i as int)), (k, e), self.entries@[i as int]);
                }
            } else {
                proof {
                    assert(enabled_pairs(self.entries@.take(i + 1)) == enabled_pairs(self.entries@.take(i as int)));
                    assert(copies(r@, enabled_pairs(self.entries@.take(i + 1))));
                }
            }
            i = i + 1;
        }
        proof {
            assert(self.entries@.take(self.entries.len() as int) =~= self.entries@);
        }
        r
    }

    /// All entries with their ids, in the order of the ids (the order of
    /// `String`s), each a copy of the registry's entry.
    pub fn sorted_by_id(&self) -> (r: Vec<(String, E)>)
        requires
            self.wf(),
        ensures
            lists_in_id_order(r@, self.view()),
    {
        let mut r: Vec<(String, E)> = Vec::new();
        let mut i: usize = 0;
        proof {
            assert(to_map(self.entries@.take(0)) =~= Map::<Seq<char>, E>::empty());
        }
        while i < self.entries.len()
            invariant
                self.wf(),
                i <= self.entries.len(),
                lists_in_id_order(r@, to_map(self.entries@.take(i as int))),
            decreases self.entries.len() - i,
        {
            let ghost before = self.entries@.take(i as int);
            proof {
                assert(self.entries@.take(i + 1).drop_last() =~= before);
                assert(self.entries@.take(i + 1).last() == self.entries@[i as int]);
                lemma_to_map_dom(before, self.entries@[i as int].0@);
                if to_map(before).contains_key(self.entries@[i as int].0@) {
                    let j = choose|j: int| 0 <= j < before.len() && before[j].0@ == self.entries@[i as int].0@;
                    assert(self.entries@[j] == before[j]);
                    assert(false);
                }
            }
            let id = self.entries[i].0.as_str();
            let mut pos: usize = 0;
            let mut found = false;
            while !found && pos < r.len()
                invariant
                    pos <= r.len(),
                    found ==> pos < r.len() && text_lt(id@, r@[pos as int].0@),
                    forall|j: int| 0 <= j < pos ==> !text_lt(id@, #[trigger] r@[j].0@),
                decreases r.len() + 1 - pos - (if found { 1int } else { 0int }),
            {
                if text_less(id, r[pos].0.as_str()) {
                    found = true;
                } else {
                    pos = pos + 1;
                }
            }
            let p = (self.entries[i].0.clone(), self.entries[i].1.duplicate());
            proof {
                lemma_insert_in_id_order(r@, to_map(before), pos as int, p);
                assert(to_map(self.entries@.take(i + 1)) == to_map(before).insert(p.0@, self.entries@[i as int].1));
            }
            let ghost r0 = r@;
            r.insert(pos, p);
            proof {
                assert(r@ == r0.insert(pos as int, p));
                assert(p.1.same_as(&self.entries@[i as int].1));
                assert(lists_in_id_order(r@, to_map(before).insert(p.0@, self.entries@[i as int].1)));
            }
            i = i + 1;
        }
        proof {
            assert(self.entries@.take(self.entries.len() as int) =~= self.entries@);
        }
        r
    }
}

/// `s` lists the registry `m` in the order of its ids: each id of `m` once,
/// ids increasing, each with a copy of its entry.
pub open spec fn lists_in_id_order<E: RegistryItem>(s: Seq<(String, E)>, m: Map<Seq<char>, E>) -> bool {
    &&& forall|i: int|
        0 <= i < s.len() ==> m.contains_key(#[trigger] s[i].0@) && s[i].1.same_as(&m[s[i].0@])
            && s[i].1.enabled_spec() == m[s[i].0@].enabled_spec()
    &&& forall|k: Seq<char>| #[trigger] m.contains_key(k) ==> exists|i: int| 0 <= i < s.len() && s[i].0@ == k
    &&& forall|i: int, j: int| 0 <= i < j < s.len() ==> text_lt(#[trigger] s[i].0@, #[trigger] s[j].0@)
}

/// Putting a new id where it belongs keeps the listing in order.
proof fn lemma_insert_in_id_order<E: RegistryItem>(s: Seq<(String, E)>, m: Map<Seq<char>, E>, pos: int, p: (String, E))
    requires
        lists_in_id_order(s, m),
        !m.contains_key(p.0@),
        0 <= pos <= s.len(),
        pos < s.len() ==> text_lt(p.0@, s[pos].0@),
        forall|j: int| 0 <= j < pos ==> !text_lt(p.0@, #[trigger] s[j].0@),
    ensures
        forall|e: E| p.1.same_as(&e) && p.1.enabled_spec() == e.enabled_spec() ==> lists_in_id_order(s.insert(pos, p), m.insert(p.0@, e)),
{
    let t = s.insert(pos, p);
    assert forall|e: E| p.1.same_as(&e) && p.1.enabled_spec() == e.enabled_spec() implies lists_in_id_order(t, m.insert(p.0@, e)) by {
        let m2 = m.insert(p.0@, e);
        assert forall|i: int| 0 <= i < t.len() implies m2.contains_key(#[trigger] t[i].0@) && t[i].1.same_as(&m2[t[i].0@])
            && t[i].1.enabled_spec() == m2[t[i].0@].enabled_spec() by {
            if i < pos {
                assert(t[i] == s[i]);
            } else if i > pos {
                assert(t[i] == s[i - 1]);
            }
        }
        assert forall|k: Seq<char>| #[trigger] m2.contains_key(k) implies exists|i: int| 0 <= i < t.len() && t[i].0@ == k by {
            if k == p.0@ {
                assert(t[pos] == p);
            } else {
                assert(m.contains_key(k));
                let i = choose|i: int| 0 <= i < s.len() && s[i].0@ == k;
                if i < pos {
                    assert(t[i] == s[i]);
                } else {
                    assert(t[i + 1] == s[i]);
                }
            }
        }
        assert forall|i: int, j: int| 0 <= i < j < t.len() implies text_lt(#[trigger] t[i].0@, #[trigger] t[j].0@) by {
            if j < pos {
                assert(t[i] == s[i] && t[j] == s[j]);
            } else if i > pos {
                assert(t[i] == s[i - 1] && t[j] == s[j - 1]);
            } else if i < pos && j > pos {
                assert(t[i] == s[i] && t[j] == s[j - 1]);
            } else if i == pos {
                assert(t[j] == s[j - 1]);
                if j - 1 > pos {
                    lemma_text_lt_transitive(p.0@, s[pos].0@, s[j - 1].0@);
                }
            } else {
                assert(t[i] == s[i]);
                assert(m.contains_key(s[i].0@));
                lemma_text_lt_trichotomy(p.0@, s[i].0@);
            }
        }
    }
}

/// A registry has one listing in id order: two listings of it name the same
/// ids at every position.
pub proof fn law_id_order_unique<E: RegistryItem>(s: Seq<(String, E)>, t: Seq<(String, E)>, m: Map<Seq<char>, E>)
    requires
        lists_in_id_order(s, m),
        lists_in_id_order(t, m),
    ensures
        s.len() == t.len(),
        forall|i: int| 0 <= i < s.len() ==> #[trigger] s[i].0@ == t[i].0@,
    decreases s.len() + t.len(),
{
    if s.len() == 0 || t.len() == 0 {
        if t.len() > 0 {
            assert(m.contains_key(t[0].0@));
        }
        if s.len() > 0 {
            assert(m.contains_key(s[0].0@));
        }
    } else {
        let k = s[0].0@;
        assert(m.contains_key(k));
        assert(m.contains_key(t[0].0@));
        let j = choose|j: int| 0 <= j < t.len() && t[j].0@ == k;
        let i = choose|i: int| 0 <= i < s.len() && s[i].0@ == t[0].0@;
        if i > 0 && j > 0 {
            lemma_text_lt_trichotomy(k, t[0].0@);
            assert(text_lt(s[0].0@, s[i].0@));
            assert(text_lt(t[0].0@, t[j].0@));
            assert(false);
        }
        assert(t[0].0@ == k);
        let m2 = m.remove(k);
        lemma_drop_first_in_id_order(s, m);
        lemma_drop_first_in_id_order(t, m);
        law_id_order_unique(s.drop_first(), t.drop_first(), m2);
        assert forall|a: int| 0 <= a < s.len() implies #[trigger] s[a].0@ == t[a].0@ by {
            if a > 0 {
                assert(s.drop_first()[a - 1] == s[a]);
                assert(t.drop_first()[a - 1] == t[a]);
            }
        }
    }
}

/// Without its first id, a listing lists the rest of the registry.
proof fn lemma_drop_first_in_id_order<E: RegistryItem>(s: Seq<(String, E)>, m: Map<Seq<char>, E>)
    requires
        lists_in_id_order(s, m),
        s.len() > 0,
    ensures
        lists_in_id_order(s.drop_first(), m.remove(s[0].0@)),
{
    let k = s[0].0@;
    let d = s.drop_first();
    let m2 = m.remove(k);
    assert forall|i: int| 0 <= i < d.len() implies m2.contains_key(#[trigger] d[i].0@) && d[i].1.same_as(&m2[d[i].0@])
        && d[i].1.enabled_spec() == m2[d[i].0@].enabled_spec() by {
        assert(d[i] == s[i + 1]);
        assert(text_lt(s[0].0@, s[i + 1].0@));
        lemma_text_lt_trichotomy(k, k);
    }
    assert forall|x: Seq<char>| #[trigger] m2.contains_key(x) implies exists|i: int| 0 <= i < d.len() && d[i].0@ == x by {
        assert(m.contains_key(x));
        let i = choose|i: int| 0 <= i < s.len() && s[i].0@ == x;
        assert(i != 0);
        assert(d[i - 1] == s[i]);
    }
    assert forall|a: int, b: int| 0 <= a < b < d.len() implies text_lt(#[trigger] d[a].0@, #[trigger] d[b].0@) by {
        assert(d[a] == s[a + 1] && d[b] == s[b + 1]);
    }
}

/// How many of the listed entries are enabled.
pub open spec fn enabled_count<E: RegistryItem>(s: Seq<(String, E)>) -> nat
    decreases s.len(),
{
    if s.len() == 0 {
        0
    } else {
        enabled_count(s.drop_last()) + if s.last().1.enabled_spec() { 1nat } else { 0nat }
    }
}

/// No more entries are enabled than are listed.
pub proof fn lemma_enabled_count_bound<E: RegistryItem>(s: Seq<(String, E)>)
    ensures
        enabled_count(s) <= s.len(),
    decreases s.len(),
{
    if s.len() > 0 {
        lemma_enabled_count_bound(s.drop_last());
    }
}

/// The texts of a sequence of strings.
pub open spec fn strs_of(v: Seq<String>) -> Seq<Seq<char>> {
    v.map_values(|s: String| s@)
}

/// `ids` are the ids of the registry `m`, each once, in increasing order.
pub open spec fn lists_ids_in_order<E>(ids: Seq<Seq<char>>, m: Map<Seq<char>, E>) -> bool {
    &&& forall|i: int| 0 <= i < ids.len() ==> m.contains_key(#[trigger] ids[i])
    &&& forall|k: Seq<char>| #[trigger] m.contains_key(k) ==> exists|i: int| 0 <= i < ids.len() && ids[i] == k
    &&& forall|i: int, j: int| 0 <= i < j < ids.len() ==> text_lt(#[trigger] ids[i], #[trigger] ids[j])
}

/// A registry has one list of its ids in order.
pub proof fn law_ids_in_order_unique<E>(a: Seq<Seq<char>>, b: Seq<Seq<char>>, m: Map<Seq<char>, E>)
    requires
        lists_ids_in_order(a, m),
        lists_ids_in_order(b, m),
    ensures
        a == b,
{
    assert forall|x: Seq<char>| is_listed(a, x) <==> is_listed(b, x) by {
        if is_listed(a, x) {
            let i = choose|i: int| 0 <= i < a.len() && a[i] == x;
            assert(m.contains_key(a[i]));
        }
        if is_listed(b, x) {
            let i = choose|i: int| 0 <= i < b.len() && b[i] == x;
            assert(m.contains_key(b[i]));
        }
    }
    lemma_sorted_texts_unique(a, b);
}

/// Putting a new id where it belongs keeps the ids in order.
proof fn lemma_insert_id_in_order<E>(ids: Seq<Seq<char>>, m: Map<Seq<char>, E>, pos: int, k: Seq<char>, e: E)
    requires
        lists_ids_in_order(ids, m),
        !m.contains_key(k),
        0 <= pos <= ids.len(),
        pos < ids.len() ==> text_lt(k, ids[pos]),
        forall|j: int| 0 <= j < pos ==> !text_lt(k, #[trigger] ids[j]),
    ensures
        lists_ids_in_order(ids.insert(pos, k), m.insert(k, e)),
{
    let t = ids.insert(pos, k);
    let m2 = m.insert(k, e);
    assert forall|i: int| 0 <= i < t.len() implies m2.contains_key(#[trigger] t[i]) by {
        if i < pos {
            assert(t[i] == ids[i]);
        } else if i > pos {
            assert(t[i] == ids[i - 1]);
        }
    }
    assert forall|x: Seq<char>| #[trigger] m2.contains_key(x) implies exists|i: int| 0 <= i < t.len() && t[i] == x by {
        if x == k {
            assert(t[pos] == k);
        } else {
            assert(m.contains_key(x));
            let i = choose|i: int| 0 <= i < ids.len() && ids[i] == x;
            if i < pos {
                assert(t[i] == ids[i]);
            } else {
                assert(t[i + 1] == ids[i]);
            }
        }
    }
    assert forall|i: int, j: int| 0 <= i < j < t.len() implies text_lt(#[trigger] t[i], #[trigger] t[j]) by {
        if j < pos {
            assert(t[i] == ids[i] && t[j] == ids[j]);
        } else if i > pos {
            assert(t[i] == ids[i - 1] && t[j] == ids[j - 1]);
        } else if i < pos && j > pos {
            assert(t[i] == ids[i] && t[j] == ids[j - 1]);
            assert(m.contains_key(ids[i]));
            lemma_text_lt_trichotomy(k, ids[i]);
            if j - 1 > pos {
                lemma_text_lt_transitive(k, ids[pos], ids[j - 1]);
            }
            lemma_text_lt_transitive(ids[i], k, ids[j - 1]);
        } else if i == pos {
            assert(t[j] == ids[j - 1]);
            if j - 1 > pos {
                lemma_text_lt_transitive(k, ids[pos], ids[j - 1]);
            }
        } else {
            assert(t[i] == ids[i]);
            assert(m.contains_key(ids[i]));
            lemma_text_lt_trichotomy(k, ids[i]);
        }
    }
}

/// With distinct ids, the map has one key per pair.
pub proof fn lemma_len_distinct<E>(s: Seq<(String, E)>)
    requires
        distinct_ids(s),
    ensures
        to_map(s).len() == s.len(),
        to_map(s).dom().finite(),
    decreases s.len(),
{
    if s.len() > 0 {
        let t = s.drop_last();
        assert(distinct_ids(t));
        lemma_len_distinct(t);
        lemma_to_map_dom(t, s.last().0@);
        if to_map(t).contains_key(s.last().0@) {
            let i = choose|i: int| 0 <= i < t.len() && t[i].0@ == s.last().0@;
            assert(s[i] == t[i]);
            assert(false);
        }
    }
}

/// The message for an id that is not in a registry.
pub open spec fn not_found_message(id: Seq<char>) -> Seq<char> {
    "Entry '"@ + id + "' not found"@
}

fn not_found(id: &str) -> (r: String)
    ensures
        r@ == not_found_message(id@),
{
    let mut s = String::from_str("Entry '");
    s.append(id);
    s.append("' not found");
    s
}


/// A change to make to a registry.
#[derive(Debug, Clone)]
pub enum Edit<E> {
    /// Add an entry under a new id.
    Add(String, E),
    /// Remove the entry under an id.
    Remove(String),
    /// Switch the entry under an id on or off.
    Toggle(String, bool),
}

/// What applying an edit did.
#[derive(Debug, Clone)]
pub enum EditOutcome<E> {
    /// The entry was added.
    Added,
    /// The id was taken; nothing changed.
    AlreadyExists,
    /// This entry was removed.
    Removed(E),
    /// The id was not there; nothing changed.
    NotFound,
    /// The entry was switched.
    Switched,
    /// The id was not there, with the registry's message; nothing changed.
    SwitchFailed(String),
}

/// `after` and `out` are what applying `edit` to `before` gives: an add
/// refuses a taken id, a remove or a switch an unknown one, and a refused
/// edit changes nothing.
pub open spec fn edit_applied<E: RegistryItem>(
    before: Map<Seq<char>, E>,
    edit: Edit<E>,
    after: Map<Seq<char>, E>,
    out: EditOutcome<E>,
) -> bool {
    match edit {
        Edit::Add(id, e) => if before.contains_key(id@) {
            out is AlreadyExists && after == before
        } else {
            out is Added && after == before.insert(id@, e)
        },
        Edit::Remove(id) => if before.contains_key(id@) {
            out == EditOutcome::Removed(before[id@]) && after == before.remove(id@)
        } else {
            out is NotFound && after == before
        },
        Edit::Toggle(id, on) => if before.contains_key(id@) {
            out is Switched && after == before.insert(id@, before[id@].with_enabled_spec(on))
        } else {
            after == before && (out matches EditOutcome::SwitchFailed(msg) && msg@ == not_found_message(id@))
        },
    }
}

/// Applies an edit to a registry (see [`edit_applied`]).
pub fn apply_edit<E: RegistryItem>(registry: &mut Registry<E>, edit: Edit<E>) -> (r: EditOutcome<E>)
    requires
        old(registry).wf(),
    ensures
        final(registry).wf(),
        edit_applied(old(registry).view(), edit, final(registry).view(), r),
{
    let ghost before = registry.view();
    let ghost asked = edit;
    let r = match edit {
        Edit::Add(id, e) => {
            if registry.add_new_entry(id, e) {
                EditOutcome::Added
            } else {
                EditOutcome::AlreadyExists
            }
        },
        Edit::Remove(id) => match registry.remove_entry(id.as_str()) {
            Some(e) => EditOutcome::Removed(e),
            None => EditOutcome::NotFound,
        },
        Edit::Toggle(id, on) => match registry.set_entry_enabled(id.as_str(), on) {
            Ok(()) => EditOutcome::Switched,
            Err(msg) => EditOutcome::SwitchFailed(msg),
        },
    };
    proof {
        match asked {
            Edit::Add(id, e) => {
                if before.contains_key(id@) {
                    assert(registry.view() == before);
                } else {
                    assert(registry.view() == before.insert(id@, e));
                }
            },
            Edit::Remove(id) => {
                if before.contains_key(id@) {
                    assert(registry.view() == before.remove(id@));
                } else {
                    assert(registry.view() == before);
                }
            },
            Edit::Toggle(id, on) => {
                if !before.contains_key(id@) {
                    assert(registry.view() == before);
                }
            },
        }
    }
    r
}

/// After an entry is added under an id, looking the id up gives that entry,
/// and every other id keeps what it had.
pub proof fn law_get_after_add<E>(m: Map<Seq<char>, E>, id: Seq<char>, e: E)
    ensures
        m.insert(id, e).contains_key(id),
        m.insert(id, e)[id] == e,
        forall|k: Seq<char>|
            k != id ==> (#[trigger] m.insert(id, e).contains_key(k) == m.contains_key(k) && (m.contains_key(k)
                ==> m.insert(id, e)[k] == m[k])),
{
}

/// After the entry under an id is removed, the id is gone and every other id
/// keeps what it had.
pub proof fn law_get_after_remove<E>(m: Map<Seq<char>, E>, id: Seq<char>)
    ensures
        !m.remove(id).contains_key(id),
        forall|k: Seq<char>|
            k != id ==> (#[trigger] m.remove(id).contains_key(k) == m.contains_key(k) && (m.contains_key(k)
                ==> m.remove(id)[k] == m[k])),
{
}

/// Adding an entry under an id that was not there and then removing that id
/// gives the registry back as it was.
pub proof fn law_remove_undoes_add<E>(m: Map<Seq<char>, E>, id: Seq<char>, e: E)
    requires
        !m.contains_key(id),
    ensures
        m.insert(id, e).remove(id) == m,
{
    assert(m.insert(id, e).remove(id) =~= m);
}

/// Switching an entry to a flag and then back to the flag it had gives the
/// registry back as it was.
pub proof fn law_toggle_back<E: RegistryItem>(m: Map<Seq<char>, E>, id: Seq<char>, on: bool)
    requires
        m.contains_key(id),
    ensures
        ({
            let m1 = m.insert(id, m[id].with_enabled_spec(on));
            m1.insert(id, m1[id].with_enabled_spec(m[id].enabled_spec())) == m
        }),
{
    m[id].lemma_with_enabled(on);
    let m1 = m.insert(id, m[id].with_enabled_spec(on));
    assert(m1.insert(id, m1[id].with_enabled_spec(m[id].enabled_spec())) =~= m);
}

/// Switching an entry to the same flag twice is the same as doing it once.
pub proof fn law_toggle_idempotent<E: RegistryItem>(m: Map<Seq<char>, E>, id: Seq<char>, on: bool)
    requires
        m.contains_key(id),
    ensures
        ({
            let m1 = m.insert(id, m[id].with_enabled_spec(on));
            m1.insert(id, m1[id].with_enabled_spec(on)) == m1
        }),
{
    m[id].lemma_with_enabled(on);
    let m1 = m.insert(id, m[id].with_enabled_spec(on));
    assert(m1.insert(id, m1[id].with_enabled_spec(on)) =~= m1);
}

/// The enabled entries are entries of the registry, each enabled, kept in
/// order, and never more than all entries.
pub proof fn law_enabled_entries<E: RegistryItem>(s: Seq<(String, E)>)
    ensures
        enabled_pairs(s).len() <= s.len(),
        forall|i: int|
            0 <= i < enabled_pairs(s).len() ==> (#[trigger] enabled_pairs(s)[i]).1.enabled_spec() && s.contains(
                enabled_pairs(s)[i],
            ),
        forall|i: int| 0 <= i < s.len() && (#[trigger] s[i]).1.enabled_spec() ==> enabled_pairs(s).contains(s[i]),
    decreases s.len(),
{
    if s.len() > 0 {
        let t = s.drop_last();
        law_enabled_entries(t);
        assert forall|i: int|
            0 <= i < enabled_pairs(s).len() implies (#[trigger] enabled_pairs(s)[i]).1.enabled_spec() && s.contains(
            enabled_pairs(s)[i],
        ) by {
            if i < enabled_pairs(t).len() {
                assert(enabled_pairs(s)[i] == enabled_pairs(t)[i]);
                let j = choose|j: int| 0 <= j < t.len() && t[j] == enabled_pairs(t)[i];
                assert(s[j] == t[j]);
            } else {
                assert(enabled_pairs(s)[i] == s.last());
                assert(s[s.len() - 1] == s.last());
            }
        }
        assert forall|i: int| 0 <= i < s.len() && (#[trigger] s[i]).1.enabled_spec() implies enabled_pairs(
            s,
        ).contains(s[i]) by {
            if i < t.len() {
                assert(t[i] == s[i]);
                let j = choose|j: int| 0 <= j < enabled_pairs(t).len() && enabled_pairs(t)[j] == t[i];
                assert(enabled_pairs(s)[j] == enabled_pairs(t)[j]);
            } else {
                assert(enabled_pairs(s).last() == s.last());
                assert(enabled_pairs(s)[enabled_pairs(s).len() - 1] == s[i]);
            }
        }
    }
}

} // verus!
