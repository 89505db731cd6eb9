//! A registry of named JSON schemas: what the SQL validation functions look schemas up in.
use vstd::prelude::*;

use crate::text::str_eq;

verus! {

/// Entries by name, each name at most once.
#[derive(Debug)]
pub struct SchemaRegistry<T> {
    entries: Vec<(String, T)>,
}

/// Whether no name occurs twice.
pub open spec fn unique_names<T>(s: Seq<(String, T)>) -> bool {
    forall|i: int, j: int| 0 <= i < j < s.len() ==> (#[trigger] s[i]).0@ != (#[trigger] s[j]).0@
}

/// The map from names to entries.
pub open spec fn map_of<T>(s: Seq<(String, T)>) -> Map<Seq<char>, T>
    decreases s.len(),
{
    if s.len() == 0 {
        Map::empty()
    } else {
        map_of(s.drop_last()).insert(s.last().0@, s.last().1)
    }
}

proof fn lemma_map_of<T>(s: Seq<(String, T)>)
    requires
        unique_names(s),
    ensures
        forall|k: Seq<char>|
            #![trigger map_of(s).contains_key(k)]
            map_of(s).contains_key(k) <==> exists|i: int| 0 <= i < s.len() && (#[trigger] s[i]).0@ == k,
        forall|i: int| 0 <= i < s.len() ==> map_of(s)[(#[trigger] s[i]).0@] == s[i].1,
    decreases s.len(),
{
    if s.len() > 0 {
        let init = s.drop_last();
        assert forall|i: int, j: int| 0 <= i < j < init.len() implies (#[trigger] init[i]).0@ != (
        #[trigger] init[j]).0@ by {
            assert(init[i] == s[i] && init[j] == s[j]);
        }
        lemma_map_of(init);
        assert forall|k: Seq<char>| #![trigger map_of(s).contains_key(k)]
            map_of(s).contains_key(k) <==> exists|i: int| 0 <= i < s.len() && (#[trigger] s[i]).0@ == k by {
            if map_of(s).contains_key(k) && k != s.last().0@ {
                assert(map_of(init).contains_key(k));
                let i = choose|i: int| 0 <= i < init.len() && (#[trigger] init[i]).0@ == k;
                assert(s[i] == init[i]);
            }
            if exists|i: int| 0 <= i < s.len() && (#[trigger] s[i]).0@ == k {
                let i = choose|i: int| 0 <= i < s.len() && (#[trigger] s[i]).0@ == k;
                if i < s.len() - 1 {
                    assert(init[i] == s[i]);
                }
            }
        }
        assert forall|i: int| 0 <= i < s.len() implies map_of(s)[(#[trigger] s[i]).0@] == s[i].1 by {
            if i < s.len() - 1 {
                assert(init[i] == s[i]);
                assert(s[i].0@ != s[s.len() - 1].0@);
            }
        }
    }
}

impl<T> View for SchemaRegistry<T> {
    type V = Map<Seq<char>, T>;

    closed spec fn view(&self) -> Map<Seq<char>, T> {
        map_of(self.entries@)
    }
}

impl<T> SchemaRegistry<T> {
    /// No name occurs twice: every registry keeps this.
    #[verifier::type_invariant]
    spec fn names_unique(self) -> bool {
        unique_names(self.entries@)
    }

    /// The empty registry.
    pub fn new() -> (r: SchemaRegistry<T>)
        ensures
            r@ == Map::<Seq<char>, T>::empty(),
    {
        SchemaRegistry { entries: Vec::new() }
    }

    fn find(&self, name: &str) -> (r: usize)
        ensures
            r <= self.entries@.len(),
            r < self.entries@.len() ==> self.entries@[r as int].0@ == name@,
            r == self.entries@.len() ==> forall|j: int|
                0 <= j < self.entries@.len() ==> (#[trigger] self.entries@[j]).0@ != name@,
    {
        let mut i: usize = 0;
        while i < self.entries.len() && !str_eq(self.entries[i].0.as_str(), name)
            invariant
                i <= self.entries@.len(),
                forall|j: int| 0 <= j < i ==> (#[trigger] self.entries@[j]).0@ != name@,
            decreases self.entries.len() - i,
        {
            i += 1;
        }
        i
    }

    /// The entry registered under `name`, if any.
    pub fn get(&self, name: &str) -> (r: Option<&T>)
        ensures
            match r {
                Some(e) => self@.contains_key(name@) && self@[name@] == *e,
                None => !self@.contains_key(name@),
            },
    {
        proof {
            use_type_invariant(self);
            lemma_map_of(self.entries@);
        }
        let i = self.find(name);
        if i < self.entries.len() {
            Some(&self.entries[i].1)
        } else {
            None
        }
    }

    /// Registers `entry` under `name`, replacing an entry of that name; `None` removes it.
    pub fn set(&mut self, name: &str, entry: Option<T>)
        ensures
            match entry {
                Some(e) => final(self)@ == old(self)@.insert(name@, e),
                None => final(self)@ == old(self)@.remove(name@),
            },
    {
        proof {
            use_type_invariant(&*self);
            lemma_map_of(self.entries@);
        }
        let i = self.find(name);
        let ghost old_entries = self.entries@;
        let mut entries: Vec<(String, T)> = Vec::new();
        std::mem::swap(&mut entries, &mut self.entries);
        match entry {
            Some(e) => {
                let ghost k = name@;
                if i < entries.len() {
                    entries.set(i, (String::from_str(name), e));
                } else {
                    entries.push((String::from_str(name), e));
                }
                proof {
                    let s = entries@;
                    assert forall|a: int, b: int| 0 <= a < b < s.len() implies (#[trigger] s[a]).0@
                        != (#[trigger] s[b]).0@ by {
                        if a != i && b != i {
                            assert(s[a] == old_entries[a] && s[b] == old_entries[b]);
                        } else if a == i {
                            assert(s[b] == old_entries[b]);
                        } else {
                            assert(s[a] == old_entries[a]);
                        }
                    }
                    lemma_map_of(s);
                    assert forall|key: Seq<char>| #[trigger] map_of(s).contains_key(key)
                        == map_of(old_entries).insert(k, e).contains_key(key) by {
                        if map_of(s).contains_key(key) {
                            let j = choose|j: int| 0 <= j < s.len() && (#[trigger] s[j]).0@ == key;
                            if j != i as int {
                                assert(s[j] == old_entries[j]);
                            }
                        }
                        if map_of(old_entries).contains_key(key) && key != k {
                            let j = choose|j: int| 0 <= j < old_entries.len() && (#[trigger] old_entries[j]).0@ == key;
                            assert(s[j] == old_entries[j]);
                        }
                        if key == k {
                            assert(s[i as int].0@ == k);
                        }
                    }
                    assert forall|key: Seq<char>| #[trigger] map_of(s).contains_key(key) implies map_of(s)[key]
                        == map_of(old_entries).insert(k, e)[key] by {
                        let j = choose|j: int| 0 <= j < s.len() && (#[trigger] s[j]).0@ == key;
                        if j != i as int {
                            assert(s[j] == old_entries[j]);
                        }
                    }
                    assert(map_of(s) =~= map_of(old_entries).insert(k, e));
                }
            },
            None => {
                if i < entries.len() {
                    entries.remove(i);
                }
                proof {
                    let s = entries@;
                    let k = name@;
                    assert forall|a: int, b: int| 0 <= a < b < s.len() implies (#[trigger] s[a]).0@
                        != (#[trigger] s[b]).0@ by {
                        if i < old_entries.len() {
                            let a0 = if a < i { a } else { a + 1 };
                            let b0 = if b < i { b } else { b + 1 };
                            assert(s[a] == old_entries[a0] && s[b] == old_entries[b0]);
                        } else {
                            assert(s[a] == old_entries[a] && s[b] == old_entries[b]);
                        }
                    }
                    lemma_map_of(s);
                    assert forall|key: Seq<char>| #[trigger] map_of(s).contains_key(key)
                        == map_of(old_entries).remove(k).contains_key(key) by {
                        if map_of(s).contains_key(key) {
                            let j = choose|j: int| 0 <= j < s.len() && (#[trigger] s[j]).0@ == key;
                            if i < old_entries.len() {
                                let j0 = if j < i { j } else { j + 1 };
                                assert(s[j] == old_entries[j0]);
                            } else {
                                assert(s[j] == old_entries[j]);
                            }
                        }
                        if map_of(old_entries).contains_key(key) && key != k {
                            let j = choose|j: int| 0 <= j < old_entries.len() && (#[trigger] old_entries[j]).0@ == key;
                            if i < old_entries.len() {
                                assert(j != i);
                                let j1 = if j < i { j } else { j - 1 };
                                assert(s[j1] == old_entries[j]);
                            } else {
                                assert(s[j] == old_entries[j]);
                            }
                        }
                    }
                    assert forall|key: Seq<char>| #[trigger] map_of(s).contains_key(key) implies map_of(s)[key]
                        == map_of(old_entries).remove(k)[key] by {
                        let j = choose|j: int| 0 <= j < s.len() && (#[trigger] s[j]).0@ == key;
                        if i < old_entries.len() {
                            let j0 = if j < i { j } else { j + 1 };
                            assert(s[j] == old_entries[j0]);
                        } else {
                            assert(s[j] == old_entries[j]);
                        }
                    }
                    assert(map_of(s) =~= map_of(old_entries).remove(k));
                }
            },
        }
        self.entries = entries;
    }

    /// Every registered name with its entry, each name once.
    pub fn entries(&self) -> (r: &Vec<(String, T)>)
        ensures
            unique_names(r@),
            map_of(r@) == self@,
    {
        proof {
            use_type_invariant(self);
        }
        &self.entries
    }

    /// Replaces all entries with the given ones, registered in order: a later entry of a
    /// name replaces an earlier one.
    pub fn set_all(&mut self, entries: Option<Vec<(String, T)>>)
        ensures
            final(self)@ == match entries {
                Some(es) => map_of(es@),
                None => Map::<Seq<char>, T>::empty(),
            },
    {
        self.entries = Vec::new();
        proof {
            assert(map_of(self.entries@) =~= Map::<Seq<char>, T>::empty());
        }
        match entries {
            Some(es) => {
                let ghost all = es@;
                let total = es.len();
                let mut es = es;
                let mut k: usize = 0;
                proof {
                    assert(all.take(0) =~= Seq::<(String, T)>::empty());
                    assert(all.skip(0) =~= all);
                }
                while es.len() > 0
                    invariant
                        all.len() == total,
                        k + es@.len() == all.len(),
                        es@ == all.skip(k as int),
                        self@ == map_of(all.take(k as int)),
                    decreases es.len(),
                {
                    let (name, e) = es.remove(0);
                    proof {
                        assert((name, e) == all[k as int]);
                        assert(all.take(k + 1).drop_last() =~= all.take(k as int));
                        assert(es@ =~= all.skip(k + 1));
                    }
                    self.set(name.as_str(), Some(e));
                    k += 1;
                }
                proof {
                    assert(all.take(k as int) =~= all);
                }
            },
            None => {},
        }
    }
}

/// A registered entry is what the last registration under its name put there, and a
/// removed name is absent; other names are untouched.
pub proof fn lemma_registry_read_after_write<T>(m: Map<Seq<char>, T>, name: Seq<char>, other: Seq<char>, e: T)
    requires
        other != name,
    ensures
        m.insert(name, e).contains_key(name) && m.insert(name, e)[name] == e,
        !m.remove(name).contains_key(name),
        m.insert(name, e).contains_key(other) == m.contains_key(other),
        m.contains_key(other) ==> m.insert(name, e)[other] == m[other],
        m.remove(name).contains_key(other) == m.contains_key(other),
        m.contains_key(other) ==> m.remove(name)[other] == m[other],
{
}

} // verus!
