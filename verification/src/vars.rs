//! A table of named string values, kept in the order of the names.
//!
//! A table holds each name once, and its pairs stand in the
//! lexicographic order of the names' characters. So a table is
//! determined by the mapping it stands for: whatever way two tables were
//! built, if they give the same names the same values they are the same
//! table, pair for pair.

use vstd::prelude::*;
use crate::text::{chars_of, pair_views};

verus! {

/// A sequence of `(name, value)` pairs.
pub type Pairs = Seq<(Seq<char>, Seq<char>)>;

/// A mapping from names to values.
pub type Mapping = Map<Seq<char>, Seq<char>>;

/// Whether `a` and `b` agree before position `i`, where `b` goes on and
/// `a` either ends or goes on with a smaller character.
pub open spec fn parts_at(a: Seq<char>, b: Seq<char>, i: int) -> bool {
    &&& 0 <= i <= a.len()
    &&& i < b.len()
    &&& forall|j: int| 0 <= j < i ==> a[j] == b[j]
    &&& (i == a.len() || (a[i] as u32) < (b[i] as u32))
}

/// Whether `a` comes before `b` in lexicographic order.
pub open spec fn precedes(a: Seq<char>, b: Seq<char>) -> bool {
    exists|i: int| parts_at(a, b, i)
}

/// Nothing comes before itself.
pub proof fn lemma_precedes_irreflexive(a: Seq<char>)
    ensures
        !precedes(a, a),
{
}

/// What comes before something that comes before a third comes before
/// the third.
pub proof fn lemma_precedes_transitive(a: Seq<char>, b: Seq<char>, c: Seq<char>)
    requires
        precedes(a, b),
        precedes(b, c),
    ensures
        precedes(a, c),
{
    let i = choose|i: int| parts_at(a, b, i);
    let j = choose|j: int| parts_at(b, c, j);
    let k = if i <= j {
        i
    } else {
        j
    };
    assert(parts_at(a, c, k));
}

/// Whether some pair of `s` has the name `k`.
pub open spec fn has_key(s: Pairs, k: Seq<char>) -> bool {
    exists|i: int| 0 <= i < s.len() && (#[trigger] s[i]).0 == k
}

/// Whether the pairs of `s` stand in the order of their names. No name
/// occurs twice in such a sequence.
pub open spec fn sorted_keys(s: Pairs) -> bool {
    forall|i: int, j: int| 0 <= i < j < s.len() ==> precedes((#[trigger] s[i]).0, (#[trigger] s[j]).0)
}

/// The mapping that results from setting the pairs of `s` in turn: of two
/// pairs with one name the later wins.
pub open spec fn map_of(s: Pairs) -> Mapping
    decreases s.len(),
{
    if s.len() == 0 {
        Map::empty()
    } else {
        map_of(s.drop_last()).insert(s.last().0, s.last().1)
    }
}

/// The table that stands for the mapping `m`: its pairs in the order of
/// the names.
pub open spec fn table_of(m: Mapping) -> Pairs {
    choose|s: Pairs| sorted_keys(s) && map_of(s) == m
}

/// The mapping of a sequence holds exactly the names of its pairs.
pub proof fn lemma_map_of_names(s: Pairs)
    ensures
        forall|k: Seq<char>| map_of(s).dom().contains(k) <==> has_key(s, k),
    decreases s.len(),
{
    if s.len() > 0 {
        let t = s.drop_last();
        lemma_map_of_names(t);
        assert forall|k: Seq<char>| map_of(s).dom().contains(k) <==> has_key(s, k) by {
            if has_key(t, k) {
                let i = choose|i: int| 0 <= i < t.len() && (#[trigger] t[i]).0 == k;
                assert(s[i].0 == k);
            }
            if has_key(s, k) && k != s.last().0 {
                let i = choose|i: int| 0 <= i < s.len() && (#[trigger] s[i]).0 == k;
                assert(t[i].0 == k);
            }
            if k == s.last().0 {
                assert(s[s.len() - 1].0 == k);
            }
        }
    }
}

/// The mapping of a table gives each name the value that stands beside
/// it.
pub proof fn lemma_map_of_values(s: Pairs)
    requires
        sorted_keys(s),
    ensures
        forall|i: int| 0 <= i < s.len() ==> map_of(s)[(#[trigger] s[i]).0] == s[i].1,
    decreases s.len(),
{
    if s.len() > 0 {
        let t = s.drop_last();
        assert(sorted_keys(t)) by {
            assert forall|i: int, j: int| 0 <= i < j < t.len() implies precedes(
                (#[trigger] t[i]).0,
                (#[trigger] t[j]).0,
            ) by {
                assert(t[i] == s[i] && t[j] == s[j]);
            }
        }
        lemma_map_of_values(t);
        assert forall|i: int| 0 <= i < s.len() implies map_of(s)[(#[trigger] s[i]).0] == s[i].1 by {
            if i < s.len() - 1 {
                assert(t[i] == s[i]);
                assert(precedes(s[i].0, s[s.len() - 1].0));
                lemma_precedes_irreflexive(s[i].0);
            }
        }
    }
}

/// A table is the mapping `m` if it holds the names of `m` and gives each
/// the value that `m` gives it.
pub proof fn lemma_is_map_of(s: Pairs, m: Mapping)
    requires
        sorted_keys(s),
        forall|k: Seq<char>| m.dom().contains(k) <==> has_key(s, k),
        forall|i: int| 0 <= i < s.len() ==> m[(#[trigger] s[i]).0] == s[i].1,
    ensures
        map_of(s) == m,
{
    lemma_map_of_names(s);
    lemma_map_of_values(s);
    assert forall|k: Seq<char>| map_of(s).dom().contains(k) implies #[trigger] map_of(s)[k]
        == m[k] by {
        assert(has_key(s, k));
        let i = choose|i: int| 0 <= i < s.len() && (#[trigger] s[i]).0 == k;
        assert(map_of(s)[s[i].0] == s[i].1);
    }
    assert forall|k: Seq<char>| map_of(s).dom().contains(k) == m.dom().contains(k) by {
        assert(map_of(s).dom().contains(k) <==> has_key(s, k));
    }
    assert(map_of(s) =~= m);
}

/// A table is determined by its mapping: two tables that stand for the
/// same mapping are equal, pair for pair.
pub proof fn lemma_table_unique(a: Pairs, b: Pairs)
    requires
        sorted_keys(a),
        sorted_keys(b),
        map_of(a) == map_of(b),
    ensures
        a == b,
    decreases a.len(),
{
    lemma_map_of_names(a);
    lemma_map_of_names(b);
    lemma_map_of_values(a);
    lemma_map_of_values(b);
    if a.len() == 0 {
        if b.len() > 0 {
            assert(has_key(b, b[0].0));
        }
        assert(a =~= b);
    } else {
        if b.len() == 0 {
            assert(has_key(a, a[0].0));
        }
        let n = a.len() - 1;
        let m = b.len() - 1;
        let ka = a[n].0;
        let kb = b[m].0;
        assert(has_key(a, ka));
        assert(has_key(b, kb));
        if ka != kb {
            assert(map_of(a).dom().contains(kb));
            assert(map_of(b).dom().contains(ka));
            assert(has_key(b, ka));
            assert(has_key(a, kb));
            let j = choose|j: int| 0 <= j < b.len() && (#[trigger] b[j]).0 == ka;
            let i = choose|i: int| 0 <= i < a.len() && (#[trigger] a[i]).0 == kb;
            assert(precedes(b[j].0, b[m].0));
            assert(precedes(a[i].0, a[n].0));
            lemma_precedes_transitive(ka, kb, ka);
            lemma_precedes_irreflexive(ka);
        }
        assert(map_of(a)[a[n].0] == a[n].1);
        assert(map_of(b)[b[m].0] == b[m].1);
        let a0 = a.drop_last();
        let b0 = b.drop_last();
        assert(sorted_keys(a0)) by {
            assert forall|i: int, j: int| 0 <= i < j < a0.len() implies precedes(
                (#[trigger] a0[i]).0,
                (#[trigger] a0[j]).0,
            ) by {
                assert(a0[i] == a[i] && a0[j] == a[j]);
            }
        }
        assert(sorted_keys(b0)) by {
            assert forall|i: int, j: int| 0 <= i < j < b0.len() implies precedes(
                (#[trigger] b0[i]).0,
                (#[trigger] b0[j]).0,
            ) by {
                assert(b0[i] == b[i] && b0[j] == b[j]);
            }
        }
        lemma_map_of_names(a0);
        lemma_map_of_names(b0);
        assert(!has_key(a0, ka)) by {
            if has_key(a0, ka) {
                let i = choose|i: int| 0 <= i < a0.len() && (#[trigger] a0[i]).0 == ka;
                assert(a0[i] == a[i]);
                assert(precedes(a[i].0, a[n].0));
                lemma_precedes_irreflexive(ka);
            }
        }
        assert(!has_key(b0, kb)) by {
            if has_key(b0, kb) {
                let i = choose|i: int| 0 <= i < b0.len() && (#[trigger] b0[i]).0 == kb;
                assert(b0[i] == b[i]);
                assert(precedes(b[i].0, b[m].0));
                lemma_precedes_irreflexive(kb);
            }
        }
        assert(map_of(a0) =~= map_of(a).remove(ka));
        assert(map_of(b0) =~= map_of(b).remove(kb));
        lemma_table_unique(a0, b0);
        assert(a =~= a0.push(a[n]));
        assert(b =~= b0.push(b[m]));
    }
}

/// A table is the table of its mapping.
pub proof fn lemma_table_of(s: Pairs)
    requires
        sorted_keys(s),
    ensures
        s == table_of(map_of(s)),
{
    lemma_table_unique(s, table_of(map_of(s)));
}

/// How one text stands to another in lexicographic order.
#[derive(Clone, Copy, PartialEq, Eq, Debug, Structural)]
pub enum Rank {
    Before,
    Same,
    After,
}

/// How `a` stands to `b` in lexicographic order.
pub fn rank(a: &Vec<char>, b: &Vec<char>) -> (r: Rank)
    ensures
        match r {
            Rank::Before => precedes(a@, b@),
            Rank::Same => a@ == b@,
            Rank::After => precedes(b@, a@),
        },
{
    let mut i: usize = 0;
    while i < a.len() && i < b.len()
        invariant
            i <= a.len(),
            i <= b.len(),
            forall|j: int| 0 <= j < i ==> a@[j] == b@[j],
        decreases a.len() - i,
    {
        let ca: char = a[i];
        let cb: char = b[i];
        let x: u32 = ca as u32;
        let y: u32 = cb as u32;
        if x < y {
            assert(parts_at(a@, b@, i as int));
            return Rank::Before;
        }
        if y < x {
            assert(parts_at(b@, a@, i as int));
            return Rank::After;
        }
        proof {
            vstd::utf8::char_u32_cast(ca, x);
            vstd::utf8::char_u32_cast(cb, y);
        }
        i += 1;
    }
    if i < b.len() {
        assert(parts_at(a@, b@, i as int));
        Rank::Before
    } else if i < a.len() {
        assert(parts_at(b@, a@, i as int));
        Rank::After
    } else {
        assert(a@ =~= b@);
        Rank::Same
    }
}

/// A table of named string values, kept in the order of the names.
#[derive(Debug)]
pub struct Variables {
    entries: Vec<(String, String)>,
}

impl View for Variables {
    type V = Pairs;

    closed spec fn view(&self) -> Pairs {
        pair_views(self.entries@)
    }
}

/// Where `key` stands or would stand in a table.
enum Place {
    /// The table holds the name at this position.
    At(usize),
    /// The table does not hold the name; it belongs at this position.
    Gap(usize),
}

impl Variables {
    #[verifier::type_invariant]
    closed spec fn names_in_order(&self) -> bool {
        sorted_keys(pair_views(self.entries@))
    }

    /// The mapping from names to values that the table stands for.
    pub open spec fn map(&self) -> Mapping {
        map_of(self@)
    }

    /// The empty table.
    pub fn new() -> (vars: Variables)
        ensures
            vars@ == Pairs::empty(),
            vars.map() == Mapping::empty(),
    {
        let vars = Variables { entries: Vec::new() };
        assert(pair_views(vars.entries@) =~= Pairs::empty());
        vars
    }

    /// The pairs of a table stand in the order of their names, and the
    /// table is the one that its mapping determines.
    pub fn names_are_ordered(&self)
        ensures
            sorted_keys(self@),
            self@ == table_of(self.map()),
    {
        proof {
            use_type_invariant(self);
            lemma_table_of(self@);
        }
    }

    /// The number of names.
    pub fn len(&self) -> (n: usize)
        ensures
            n == self@.len(),
    {
        self.entries.len()
    }

    /// The name at position `i`.
    pub fn key_at(&self, i: usize) -> (key: &String)
        requires
            i < self@.len(),
        ensures
            key@ == self@[i as int].0,
    {
        &self.entries[i].0
    }

    /// The value at position `i`.
    pub fn value_at(&self, i: usize) -> (value: &String)
        requires
            i < self@.len(),
        ensures
            value@ == self@[i as int].1,
    {
        &self.entries[i].1
    }

    /// Where `key` stands or would stand.
    fn place(&self, key: &str) -> (place: Place)
        ensures
            match place {
                Place::At(i) => i < self@.len() && self@[i as int].0 == key@,
                Place::Gap(i) => {
                    &&& i <= self@.len()
                    &&& forall|j: int| 0 <= j < i ==> precedes((#[trigger] self@[j]).0, key@)
                    &&& forall|j: int| i <= j < self@.len() ==> precedes(key@, (#[trigger] self@[j]).0)
                },
            },
    {
        proof {
            use_type_invariant(self);
        }
        let name = chars_of(key);
        let mut i: usize = 0;
        while i < self.entries.len()
            invariant
                i <= self.entries.len(),
                name@ == key@,
                sorted_keys(self@),
                forall|j: int| 0 <= j < i ==> precedes((#[trigger] self@[j]).0, key@),
            decreases self.entries.len() - i,
        {
            let other = chars_of(self.entries[i].0.as_str());
            assert(other@ == self@[i as int].0);
            match rank(&other, &name) {
                Rank::Before => {
                    i += 1;
                },
                Rank::Same => {
                    return Place::At(i);
                },
                Rank::After => {
                    assert forall|j: int| i <= j < self@.len() implies precedes(
                        key@,
                        (#[trigger] self@[j]).0,
                    ) by {
                        if i < j {
                            assert(precedes(self@[i as int].0, self@[j].0));
                            lemma_precedes_transitive(key@, self@[i as int].0, self@[j].0);
                        }
                    }
                    return Place::Gap(i);
                },
            }
        }
        Place::Gap(i)
    }

    /// The value of `key`, where the table holds it.
    pub fn get(&self, key: &str) -> (value: Option<String>)
        ensures
            match value {
                Some(v) => self.map().dom().contains(key@) && self.map()[key@] == v@,
                None => !self.map().dom().contains(key@),
            },
    {
        proof {
            use_type_invariant(self);
            lemma_map_of_names(self@);
            lemma_map_of_values(self@);
        }
        match self.place(key) {
            Place::At(i) => {
                assert(has_key(self@, self@[i as int].0));
                Some(self.entries[i].1.clone())
            },
            Place::Gap(i) => {
                proof {
                    if has_key(self@, key@) {
                        let j = choose|j: int| 0 <= j < self@.len() && (#[trigger] self@[j]).0 == key@;
                        lemma_precedes_irreflexive(key@);
                    }
                }
                None
            },
        }
    }

    /// Sets `key` to `value`.
    pub fn insert(&mut self, key: String, value: String)
        ensures
            final(self).map() == old(self).map().insert(key@, value@),
            final(self)@ == table_of(old(self).map().insert(key@, value@)),
    {
        proof {
            use_type_invariant(&*self);
            lemma_map_of_names(self@);
            lemma_map_of_values(self@);
        }
        let ghost before = self@;
        let ghost wanted = self.map().insert(key@, value@);
        let place = self.place(key.as_str());
        let mut taken = Variables::new();
        core::mem::swap(self, &mut taken);
        let mut entries = taken.entries;
        match place {
            Place::At(i) => {
                entries.set(i, (key, value));
                proof {
                    let after = pair_views(entries@);
                    assert(after =~= before.update(i as int, (key@, value@)));
                    assert forall|x: int, y: int| 0 <= x < y < after.len() implies precedes(
                        (#[trigger] after[x]).0,
                        (#[trigger] after[y]).0,
                    ) by {
                        assert(after[x].0 == before[x].0 && after[y].0 == before[y].0);
                    }
                    assert forall|k: Seq<char>| wanted.dom().contains(k) <==> has_key(after, k) by {
                        if has_key(before, k) {
                            let j = choose|j: int| 0 <= j < before.len() && (#[trigger] before[j]).0 == k;
                            assert(after[j].0 == k);
                        }
                        if has_key(after, k) {
                            let j = choose|j: int| 0 <= j < after.len() && (#[trigger] after[j]).0 == k;
                            assert(before[j].0 == k);
                        }
                        if k == key@ {
                            assert(after[i as int].0 == k);
                        }
                    }
                    assert forall|j: int| 0 <= j < after.len() implies wanted[(#[trigger] after[j]).0]
                        == after[j].1 by {
                        if j != i {
                            assert(after[j] == before[j]);
                            if j < i {
                                assert(precedes(before[j].0, before[i as int].0));
                            } else {
                                assert(precedes(before[i as int].0, before[j].0));
                            }
                            lemma_precedes_irreflexive(key@);
                        }
                    }
                    lemma_is_map_of(after, wanted);
                }
            },
            Place::Gap(i) => {
                entries.insert(i, (key, value));
                proof {
                    let after = pair_views(entries@);
                    assert(after =~= before.insert(i as int, (key@, value@)));
                    assert forall|x: int, y: int| 0 <= x < y < after.len() implies precedes(
                        (#[trigger] after[x]).0,
                        (#[trigger] after[y]).0,
                    ) by {
                        if y < i {
                            assert(after[x] == before[x] && after[y] == before[y]);
                        } else if y == i {
                            assert(after[x] == before[x]);
                        } else if x < i {
                            assert(after[x] == before[x] && after[y] == before[y - 1]);
                        } else if x == i {
                            assert(after[y] == before[y - 1]);
                        } else {
                            assert(after[x] == before[x - 1] && after[y] == before[y - 1]);
                        }
                    }
                    assert forall|k: Seq<char>| wanted.dom().contains(k) <==> has_key(after, k) by {
                        if has_key(before, k) {
                            let j = choose|j: int| 0 <= j < before.len() && (#[trigger] before[j]).0 == k;
                            if j < i {
                                assert(after[j].0 == k);
                            } else {
                                assert(after[j + 1].0 == k);
                            }
                        }
                        if has_key(after, k) && k != key@ {
                            let j = choose|j: int| 0 <= j < after.len() && (#[trigger] after[j]).0 == k;
                            if j < i {
                                assert(before[j].0 == k);
                            } else {
                                assert(before[j - 1].0 == k);
                            }
                        }
                        if k == key@ {
                            assert(after[i as int].0 == k);
                        }
                    }
                    assert forall|j: int| 0 <= j < after.len() implies wanted[(#[trigger] after[j]).0]
                        == after[j].1 by {
                        if j < i {
                            assert(after[j] == before[j]);
                            assert(precedes(before[j].0, key@));
                            lemma_precedes_irreflexive(key@);
                        } else if j > i {
                            assert(after[j] == before[j - 1]);
                            assert(precedes(key@, before[j - 1].0));
                            lemma_precedes_irreflexive(key@);
                        }
                    }
                    lemma_is_map_of(after, wanted);
                }
            },
        }
        proof {
            lemma_table_of(pair_views(entries@));
        }
        *self = Variables { entries };
    }

    /// Sets each pair of `other`, so that `other` wins.
    pub fn extend(&mut self, other: &Variables)
        ensures
            final(self).map() == old(self).map().union_prefer_right(other.map()),
            final(self)@ == table_of(old(self).map().union_prefer_right(other.map())),
    {
        let mut i: usize = 0;
        assert(other@.take(0) =~= Pairs::empty());
        assert(self.map().union_prefer_right(Mapping::empty()) =~= self.map());
        while i < other.len()
            invariant
                i <= other@.len(),
                self.map() == old(self).map().union_prefer_right(map_of(other@.take(i as int))),
            decreases other@.len() - i,
        {
            let key = other.key_at(i).clone();
            let value = other.value_at(i).clone();
            let ghost done = map_of(other@.take(i as int));
            self.insert(key, value);
            proof {
                assert(other@.take(i + 1).drop_last() =~= other@.take(i as int));
                assert(other@.take(i + 1).last() == other@[i as int]);
                assert(old(self).map().union_prefer_right(done).insert(key@, value@) =~= old(
                    self,
                ).map().union_prefer_right(done.insert(key@, value@)));
            }
            i += 1;
        }
        assert(other@.take(i as int) =~= other@);
        self.names_are_ordered();
    }

    /// The table that results from setting each pair of `pairs` in turn:
    /// of two pairs with one name the later wins.
    pub fn from_pairs(pairs: &Vec<(String, String)>) -> (vars: Variables)
        ensures
            vars.map() == map_of(pair_views(pairs@)),
            vars@ == table_of(map_of(pair_views(pairs@))),
    {
        let mut vars = Variables::new();
        let mut i: usize = 0;
        assert(pair_views(pairs@).take(0) =~= Pairs::empty());
        while i < pairs.len()
            invariant
                i <= pairs.len(),
                vars.map() == map_of(pair_views(pairs@).take(i as int)),
            decreases pairs.len() - i,
        {
            let key = pairs[i].0.clone();
            let value = pairs[i].1.clone();
            vars.insert(key, value);
            proof {
                let all = pair_views(pairs@);
                assert(all.take(i + 1).drop_last() =~= all.take(i as int));
                assert(all.take(i + 1).last() == all[i as int]);
            }
            i += 1;
        }
        assert(pair_views(pairs@).take(i as int) =~= pair_views(pairs@));
        vars.names_are_ordered();
        vars
    }

    /// The pairs of the table, in the order of the names.
    pub fn to_pairs(&self) -> (pairs: Vec<(String, String)>)
        ensures
            pair_views(pairs@) == self@,
    {
        let mut pairs: Vec<(String, String)> = Vec::new();
        let mut i: usize = 0;
        while i < self.entries.len()
            invariant
                i <= self.entries.len(),
                pairs.len() == i,
                forall|j: int|
                    0 <= j < i ==> pairs@[j].0@ == self.entries@[j].0@ && pairs@[j].1@
                        == self.entries@[j].1@,
            decreases self.entries.len() - i,
        {
            pairs.push((self.entries[i].0.clone(), self.entries[i].1.clone()));
            i += 1;
        }
        assert(pair_views(pairs@) =~= pair_views(self.entries@));
        pairs
    }

    /// A copy of the table.
    pub fn duplicate(&self) -> (copy: Variables)
        ensures
            copy@ == self@,
    {
        proof {
            use_type_invariant(self);
        }
        let entries = self.to_pairs();
        Variables { entries }
    }
}

} // verus!
