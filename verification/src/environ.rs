//! Environment overrides, kept sorted by variable name so that the same
//! mapping is always listed in the same way.

use crate::order::{
    key_lt, key_order, lemma_key_lt_asymmetric, lemma_key_lt_irreflexive,
    lemma_key_lt_transitive, KeyOrder,
};
use vstd::prelude::*;

verus! {

/// One override: the variable's name and its value.
pub type Entry = (Seq<char>, Seq<char>);

/// The names ascend strictly, so none occurs twice.
pub open spec fn sorted_keys(s: Seq<Entry>) -> bool {
    forall|i: int, j: int| 0 <= i < j < s.len() ==> key_lt((#[trigger] s[i]).0, (#[trigger] s[j]).0)
}

/// Some entry of `s` has the name `k`.
pub open spec fn has_key(s: Seq<Entry>, k: Seq<char>) -> bool {
    exists|i: int| 0 <= i < s.len() && (#[trigger] s[i]).0 == k
}

/// The mapping that a list of entries denotes; of two entries with one
/// name the later counts.
pub open spec fn entries_map(s: Seq<Entry>) -> Map<Seq<char>, Seq<char>>
    decreases s.len(),
{
    if s.len() == 0 {
        Map::empty()
    } else {
        entries_map(s.drop_last()).insert(s.last().0, s.last().1)
    }
}

/// The names of the mapping are the names of the entries.
pub proof fn lemma_entries_map_keys(s: Seq<Entry>, k: Seq<char>)
    ensures
        entries_map(s).contains_key(k) <==> has_key(s, k),
    decreases s.len(),
{
    if s.len() > 0 {
        let t = s.drop_last();
        lemma_entries_map_keys(t, k);
        if has_key(t, k) {
            let i = choose|i: int| 0 <= i < t.len() && (#[trigger] t[i]).0 == k;
            assert(s[i].0 == k);
        }
        if s.last().0 == k {
            assert(s[s.len() - 1].0 == k);
        }
        if has_key(s, k) {
            let i = choose|i: int| 0 <= i < s.len() && (#[trigger] s[i]).0 == k;
            if i < s.len() - 1 {
                assert(t[i].0 == k);
            }
        }
    }
}

/// A sorted list gives each of its names the value listed with it.
pub proof fn lemma_entries_map_value(s: Seq<Entry>, i: int)
    requires
        sorted_keys(s),
        0 <= i < s.len(),
    ensures
        entries_map(s).contains_key(s[i].0),
        entries_map(s)[s[i].0] == s[i].1,
    decreases s.len(),
{
    let t = s.drop_last();
    if i < s.len() - 1 {
        assert(sorted_keys(t)) by {
            assert forall|a: int, b: int| 0 <= a < b < t.len() implies key_lt(
                (#[trigger] t[a]).0,
                (#[trigger] t[b]).0,
            ) by {
                assert(t[a] == s[a] && t[b] == s[b]);
            }
        }
        lemma_entries_map_value(t, i);
        assert(t[i] == s[i]);
        assert(key_lt(s[i].0, s[s.len() - 1].0));
        lemma_key_lt_asymmetric(s[i].0, s.last().0);
    }
}

/// What is left of a sorted list without its last entry is sorted, and
/// does not hold the last entry's name.
pub proof fn lemma_sorted_drop_last(s: Seq<Entry>)
    requires
        sorted_keys(s),
        s.len() > 0,
    ensures
        sorted_keys(s.drop_last()),
        !has_key(s.drop_last(), s.last().0),
        entries_map(s.drop_last()) == entries_map(s).remove(s.last().0),
{
    let t = s.drop_last();
    assert forall|a: int, b: int| 0 <= a < b < t.len() implies key_lt(
        (#[trigger] t[a]).0,
        (#[trigger] t[b]).0,
    ) by {
        assert(t[a] == s[a] && t[b] == s[b]);
    }
    if has_key(t, s.last().0) {
        let i = choose|i: int| 0 <= i < t.len() && (#[trigger] t[i]).0 == s.last().0;
        assert(t[i] == s[i]);
        assert(key_lt(s[i].0, s[s.len() - 1].0));
        lemma_key_lt_irreflexive(s.last().0);
    }
    lemma_entries_map_keys(t, s.last().0);
    assert(entries_map(t) =~= entries_map(s).remove(s.last().0));
}

/// A mapping has one sorted list only: two sorted lists that denote the
/// same mapping are the same list.
pub proof fn lemma_sorted_entries_unique(a: Seq<Entry>, b: Seq<Entry>)
    requires
        sorted_keys(a),
        sorted_keys(b),
        entries_map(a) == entries_map(b),
    ensures
        a == b,
    decreases a.len(),
{
    if a.len() == 0 {
        if b.len() > 0 {
            assert(entries_map(b).contains_key(b.last().0));
        }
        assert(a =~= b);
    } else {
        let ka = a.last().0;
        assert(entries_map(a).contains_key(ka));
        let kb = b.last().0;
        assert(entries_map(b).contains_key(kb));
        lemma_entries_map_keys(b, ka);
        lemma_entries_map_keys(a, kb);
        let j = choose|j: int| 0 <= j < b.len() && (#[trigger] b[j]).0 == ka;
        let i = choose|i: int| 0 <= i < a.len() && (#[trigger] a[i]).0 == kb;
        if ka != kb {
            assert(key_lt(b[j].0, b[b.len() - 1].0));
            assert(key_lt(a[i].0, a[a.len() - 1].0));
            lemma_key_lt_asymmetric(ka, kb);
        }
        assert(a.last().1 == entries_map(a)[ka]);
        assert(b.last().1 == entries_map(b)[kb]);
        lemma_sorted_drop_last(a);
        lemma_sorted_drop_last(b);
        lemma_sorted_entries_unique(a.drop_last(), b.drop_last());
        assert(a =~= a.drop_last().push(a.last()));
        assert(b =~= b.drop_last().push(b.last()));
    }
}

/// Putting an entry with a new name anywhere into a list adds it to the
/// mapping.
pub proof fn lemma_entries_map_insert_new(s: Seq<Entry>, i: int, e: Entry)
    requires
        0 <= i <= s.len(),
        !has_key(s, e.0),
    ensures
        entries_map(s.insert(i, e)) == entries_map(s).insert(e.0, e.1),
    decreases s.len() - i,
{
    let u = s.insert(i, e);
    if i == s.len() {
        assert(u.drop_last() =~= s);
    } else {
        let t = s.drop_last();
        assert(u.drop_last() =~= t.insert(i, e));
        assert(u.last() == s.last());
        if has_key(t, e.0) {
            let j = choose|j: int| 0 <= j < t.len() && (#[trigger] t[j]).0 == e.0;
            assert(s[j].0 == e.0);
        }
        assert(s[s.len() - 1].0 != e.0);
        lemma_entries_map_insert_new(t, i, e);
        assert(entries_map(u) =~= entries_map(s).insert(e.0, e.1));
    }
}

/// Giving the entry at `i` of a sorted list a new value gives its name
/// that value in the mapping.
pub proof fn lemma_entries_map_update(s: Seq<Entry>, i: int, v: Seq<char>)
    requires
        sorted_keys(s),
        0 <= i < s.len(),
    ensures
        entries_map(s.update(i, (s[i].0, v))) == entries_map(s).insert(s[i].0, v),
        sorted_keys(s.update(i, (s[i].0, v))),
    decreases s.len(),
{
    let u = s.update(i, (s[i].0, v));
    assert forall|a: int, b: int| 0 <= a < b < u.len() implies key_lt(
        (#[trigger] u[a]).0,
        (#[trigger] u[b]).0,
    ) by {
        assert(u[a].0 == s[a].0 && u[b].0 == s[b].0);
    }
    if i == s.len() - 1 {
        assert(u.drop_last() =~= s.drop_last());
        assert(entries_map(u) =~= entries_map(s).insert(s[i].0, v));
    } else {
        let t = s.drop_last();
        lemma_sorted_drop_last(s);
        assert(t[i] == s[i]);
        assert(u.drop_last() =~= t.update(i, (t[i].0, v)));
        lemma_entries_map_update(t, i, v);
        assert(key_lt(s[i].0, s[s.len() - 1].0));
        lemma_key_lt_asymmetric(s[i].0, s.last().0);
        assert(entries_map(u) =~= entries_map(s).insert(s[i].0, v));
    }
}

/// Environment overrides by variable name, listed in ascending order of
/// the names.
pub struct EnvMap {
    entries: Vec<(String, String)>,
}

/// The names and values that a vector of string pairs holds.
pub open spec fn pairs_view(v: Seq<(String, String)>) -> Seq<Entry> {
    Seq::new(v.len(), |i: int| (v[i].0@, v[i].1@))
}

impl View for EnvMap {
    type V = Map<Seq<char>, Seq<char>>;

    /// The mapping from each name to its value.
    closed spec fn view(&self) -> Map<Seq<char>, Seq<char>> {
        entries_map(self.entries())
    }
}

impl EnvMap {
    /// The entries in the order in which they are listed.
    pub closed spec fn entries(&self) -> Seq<Entry> {
        pairs_view(self.entries@)
    }

    /// The entries are sorted by name. This holds of every value of the
    /// type.
    #[verifier::type_invariant]
    pub open spec fn wf(&self) -> bool {
        sorted_keys(self.entries())
    }

    /// The view is the mapping of the entries.
    pub proof fn lemma_view(&self)
        ensures
            self@ == entries_map(self.entries()),
    {
    }

    /// The same mapping is always listed in the same way, however it
    /// came about.
    pub proof fn lemma_same_mapping_same_listing(a: EnvMap, b: EnvMap)
        requires
            a.wf(),
            b.wf(),
            a@ == b@,
        ensures
            a.entries() == b.entries(),
    {
        lemma_sorted_entries_unique(a.entries(), b.entries());
    }

    /// An empty mapping.
    pub fn new() -> (r: EnvMap)
        ensures
            r.entries() == Seq::<Entry>::empty(),
            r@ == Map::<Seq<char>, Seq<char>>::empty(),
            r.wf(),
    {
        EnvMap { entries: Vec::new() }
    }

    /// The number of variables.
    pub fn len(&self) -> (n: usize)
        ensures
            n == self.entries().len(),
    {
        self.entries.len()
    }

    /// Whether no variable is overridden.
    pub fn is_empty(&self) -> (b: bool)
        ensures
            b == (self.entries().len() == 0),
            b == (self@ == Map::<Seq<char>, Seq<char>>::empty()),
    {
        proof {
            if self.entries().len() > 0 {
                assert(self@.contains_key(self.entries().last().0));
            }
        }
        self.entries.len() == 0
    }

    /// Gives `key` the value `value`, whether or not it had one.
    pub fn insert(&mut self, key: String, value: String)
        ensures
            final(self)@ == old(self)@.insert(key@, value@),
            final(self).wf(),
    {
        proof {
            use_type_invariant(&*self);
        }
        let mut entries: Vec<(String, String)> = Vec::new();
        std::mem::swap(&mut self.entries, &mut entries);
        let ghost before = pairs_view(entries@);
        let n = entries.len();
        let mut i: usize = 0;
        while i < n
            invariant
                i <= n,
                n == entries@.len(),
                before == pairs_view(entries@),
                before == old(self).entries(),
                sorted_keys(before),
                forall|j: int| 0 <= j < i ==> key_lt((#[trigger] before[j]).0, key@),
            ensures
                i < n ==> key_lt(key@, before[i as int].0),
            decreases n - i,
        {
            match key_order(entries[i].0.as_str(), key.as_str()) {
                KeyOrder::Less => {
                    i += 1;
                },
                KeyOrder::Equal => {
                    proof {
                        lemma_entries_map_update(before, i as int, value@);
                    }
                    entries.set(i, (key, value));
                    assert(pairs_view(entries@) =~= before.update(
                        i as int,
                        (before[i as int].0, value@),
                    ));
                    self.entries = entries;
                    return ;
                },
                KeyOrder::Greater => {
                    break ;
                },
            }
        }
        proof {
            if has_key(before, key@) {
                let j = choose|j: int| 0 <= j < before.len() && (#[trigger] before[j]).0 == key@;
                if j < i {
                    lemma_key_lt_irreflexive(key@);
                } else {
                    if j > i {
                        assert(key_lt(before[i as int].0, before[j].0));
                        lemma_key_lt_transitive(key@, before[i as int].0, before[j].0);
                    }
                    lemma_key_lt_irreflexive(key@);
                }
            }
            lemma_entries_map_insert_new(before, i as int, (key@, value@));
        }
        entries.insert(i, (key, value));
        proof {
            let after = pairs_view(entries@);
            assert(after =~= before.insert(i as int, (key@, value@)));
            assert forall|a: int, b: int| 0 <= a < b < after.len() implies key_lt(
                (#[trigger] after[a]).0,
                (#[trigger] after[b]).0,
            ) by {
                let x = if a < i { a } else { a - 1 };
                let y = if b < i { b } else { b - 1 };
                if a == i {
                    assert(after[b] == before[b - 1]);
                    if b - 1 > i {
                        assert(key_lt(before[i as int].0, before[b - 1].0));
                        lemma_key_lt_transitive(key@, before[i as int].0, before[b - 1].0);
                    }
                } else if b == i {
                    assert(after[a] == before[a]);
                } else {
                    assert(after[a] == before[x] && after[b] == before[y]);
                }
            }
        }
        self.entries = entries;
    }

    /// The value of `key`, if it has one.
    pub fn get(&self, key: &str) -> (r: Option<&String>)
        ensures
            r is Some <==> self@.contains_key(key@),
            r matches Some(v) ==> v@ == self@[key@],
    {
        proof {
            use_type_invariant(self);
        }
        let n = self.entries.len();
        let mut i: usize = 0;
        while i < n
            invariant
                i <= n,
                n == self.entries@.len(),
                self.wf(),
                forall|j: int| 0 <= j < i ==> (#[trigger] self.entries()[j]).0 != key@,
            decreases n - i,
        {
            match key_order(self.entries[i].0.as_str(), key) {
                KeyOrder::Equal => {
                    proof {
                        lemma_entries_map_value(self.entries(), i as int);
                    }
                    return Some(&self.entries[i].1);
                },
                _ => {
                    i += 1;
                },
            }
        }
        proof {
            lemma_entries_map_keys(self.entries(), key@);
        }
        None
    }

    /// The entries in ascending order of their names.
    pub fn to_vec(&self) -> (r: Vec<(String, String)>)
        ensures
            pairs_view(r@) == self.entries(),
            self.wf(),
    {
        proof {
            use_type_invariant(self);
        }
        let n = self.entries.len();
        let mut r: Vec<(String, String)> = Vec::new();
        let mut i: usize = 0;
        while i < n
            invariant
                i <= n,
                n == self.entries@.len(),
                r@.len() == i,
                forall|j: int|
                    0 <= j < i ==> (#[trigger] r@[j]).0@ == self.entries@[j].0@ && r@[j].1@
                        == self.entries@[j].1@,
            decreases n - i,
        {
            r.push((self.entries[i].0.clone(), self.entries[i].1.clone()));
            i += 1;
        }
        r
    }
}

} // verus!
