//! A name-keyed collection, the building block of the store's hierarchy.
//!
//! A [`NameTable`] holds name/value pairs and is viewed as a
//! [`Map`]`<Seq<char>, V>`.  Lookups scan from the most recent pair, so the
//! view's later-insertion-wins reading is matched without any distinctness
//! invariant; the store only ever inserts a name that is not yet present,
//! which keeps names unique.

use vstd::prelude::*;

verus! {

/// A collection of values keyed by name.
#[derive(Debug)]
pub struct NameTable<V> {
    entries: Vec<(String, V)>,
}

/// The map described by a sequence of name/value pairs, later pairs winning.
pub open spec fn map_of<V>(s: Seq<(String, V)>) -> Map<Seq<char>, V>
    decreases s.len(),
{
    if s.len() == 0 {
        Map::empty()
    } else {
        map_of(s.drop_last()).insert(s.last().0@, s.last().1)
    }
}

/// Some pair of the sequence carries the given name.
pub open spec fn has_name<V>(s: Seq<(String, V)>, name: Seq<char>) -> bool {
    exists|j: int| 0 <= j < s.len() && s[j].0@ == name
}

/// The map of a pair sequence holds exactly the names that occur in it.
proof fn lemma_map_of_contains<V>(s: Seq<(String, V)>, name: Seq<char>)
    ensures
        map_of(s).contains_key(name) <==> has_name(s, name),
    decreases s.len(),
{
    if s.len() > 0 {
        lemma_map_of_contains(s.drop_last(), name);
        if s.last().0@ == name {
            assert(s[s.len() - 1].0@ == name);
        } else if has_name(s, name) {
            let j = choose|j: int| 0 <= j < s.len() && s[j].0@ == name;
            assert(s.drop_last()[j].0@ == name);
        }
    }
}

/// The pair whose name has no later duplicate supplies the map's value.
proof fn lemma_map_of_latest<V>(s: Seq<(String, V)>, i: int, name: Seq<char>)
    requires
        0 <= i < s.len(),
        s[i].0@ == name,
        forall|j: int| i < j < s.len() ==> s[j].0@ != name,
    ensures
        map_of(s).contains_key(name),
        map_of(s)[name] == s[i].1,
    decreases s.len(),
{
    if i == s.len() - 1 {
    } else {
        lemma_map_of_latest(s.drop_last(), i, name);
    }
}

/// Replacing the value of the pair whose name has no later duplicate is,
/// on the map side, an insertion for that name.
proof fn lemma_map_of_update<V>(s: Seq<(String, V)>, i: int, name: Seq<char>, v: V)
    requires
        0 <= i < s.len(),
        s[i].0@ == name,
        forall|j: int| i < j < s.len() ==> s[j].0@ != name,
    ensures
        map_of(s.update(i, (s[i].0, v))) == map_of(s).insert(name, v),
    decreases s.len(),
{
    let u = s.update(i, (s[i].0, v));
    if i == s.len() - 1 {
        assert(u.drop_last() =~= s.drop_last());
        assert(map_of(u) == map_of(s.drop_last()).insert(name, v));
        assert(map_of(s.drop_last()).insert(name, s[i].1).insert(name, v) =~= map_of(
            s.drop_last(),
        ).insert(name, v));
    } else {
        assert(u.drop_last() =~= s.drop_last().update(i, (s[i].0, v)));
        assert(u.last() == s.last());
        lemma_map_of_update(s.drop_last(), i, name, v);
        assert(map_of(s.drop_last()).insert(name, v).insert(s.last().0@, s.last().1) =~= map_of(
            s.drop_last(),
        ).insert(s.last().0@, s.last().1).insert(name, v));
    }
}

impl<V> View for NameTable<V> {
    type V = Map<Seq<char>, V>;

    closed spec fn view(&self) -> Map<Seq<char>, V> {
        map_of(self.entries@)
    }
}

impl<V> NameTable<V> {
    /// Creates an empty table.
    pub fn new() -> (r: Self)
        ensures
            r@ == Map::<Seq<char>, V>::empty(),
    {
        NameTable { entries: Vec::new() }
    }

    /// Whether a value is stored under the given name.
    pub fn contains_name(&self, name: &str) -> (r: bool)
        ensures
            r == self@.contains_key(name@),
    {
        let key: String = name.to_owned();
        let mut i: usize = self.entries.len();
        while i > 0
            invariant
                i <= self.entries@.len(),
                key@ == name@,
                forall|j: int| i <= j < self.entries@.len() ==> self.entries@[j].0@ != name@,
            decreases i,
        {
            i = i - 1;
            if self.entries[i].0 == key {
                proof {
                    lemma_map_of_latest(self.entries@, i as int, name@);
                }
                return true;
            }
        }
        proof {
            lemma_map_of_contains(self.entries@, name@);
        }
        false
    }

    /// Looks the given name up, returning a reference to its value.
    pub fn get<'a>(&'a self, name: &str) -> (r: Option<&'a V>)
        ensures
            match r {
                Some(v) => self@.contains_key(name@) && *v == self@[name@],
                None => !self@.contains_key(name@),
            },
    {
        let key: String = name.to_owned();
        let mut i: usize = self.entries.len();
        while i > 0
            invariant
                i <= self.entries@.len(),
                key@ == name@,
                forall|j: int| i <= j < self.entries@.len() ==> self.entries@[j].0@ != name@,
            decreases i,
        {
            i = i - 1;
            if self.entries[i].0 == key {
                proof {
                    lemma_map_of_latest(self.entries@, i as int, name@);
                }
                return Some(&self.entries[i].1);
            }
        }
        proof {
            lemma_map_of_contains(self.entries@, name@);
        }
        None
    }

    /// Looks the given name up, returning an exclusive reference to its
    /// value; whatever the caller writes through it becomes the stored value.
    pub fn get_mut<'a>(&'a mut self, name: &str) -> (r: Option<&'a mut V>)
        ensures
            match r {
                Some(v) => {
                    &&& old(self)@.contains_key(name@)
                    &&& *v == old(self)@[name@]
                    &&& final(self)@ == old(self)@.insert(name@, *final(v))
                },
                None => !old(self)@.contains_key(name@) && *final(self) == *old(self),
            },
    {
        let key: String = name.to_owned();
        let mut i: usize = self.entries.len();
        while i > 0
            invariant
                i <= self.entries@.len(),
                key@ == name@,
                *self == *old(self),
                forall|j: int| i <= j < self.entries@.len() ==> self.entries@[j].0@ != name@,
            decreases i,
        {
            i = i - 1;
            if self.entries[i].0 == key {
                proof {
                    let ghost s = self.entries@;
                    lemma_map_of_latest(s, i as int, name@);
                    assert forall|v: V|
                        map_of(s.update(i as int, (s[i as int].0, v))) == #[trigger] map_of(
                            s,
                        ).insert(name@, v) by {
                        lemma_map_of_update(s, i as int, name@, v);
                    }
                }
                return Some(&mut self.entries[i].1);
            }
        }
        proof {
            lemma_map_of_contains(self.entries@, name@);
        }
        None
    }

    /// Stores a value under a name; a later pair for the same name wins.
    pub fn insert(&mut self, name: String, value: V)
        ensures
            final(self)@ == old(self)@.insert(name@, value),
    {
        let ghost s = self.entries@;
        self.entries.push((name, value));
        proof {
            assert(self.entries@.drop_last() =~= s);
        }
    }
}

} // verus!
