//! A mapping from property names to JSON values.

use serde_json::Value;
use vstd::prelude::*;

verus! {

/// The mapping that a list of entries stands for: a later entry wins over an
/// earlier one with the same name.
pub open spec fn entries_map(s: Seq<(String, Value)>) -> Map<Seq<char>, Value>
    decreases s.len(),
{
    if s.len() == 0 {
        Map::empty()
    } else {
        entries_map(s.drop_last()).insert(s.last().0@, s.last().1)
    }
}

/// No name occurs in two entries.
pub open spec fn keys_distinct(s: Seq<(String, Value)>) -> bool {
    forall|i: int, j: int| 0 <= i < j < s.len() ==> (#[trigger] s[i]).0@ != (#[trigger] s[j]).0@
}

proof fn lemma_absent(s: Seq<(String, Value)>, k: Seq<char>)
    requires
        forall|i: int| 0 <= i < s.len() ==> (#[trigger] s[i]).0@ != k,
    ensures
        !entries_map(s).contains_key(k),
    decreases s.len(),
{
    if s.len() > 0 {
        let rest = s.drop_last();
        assert forall|i: int| 0 <= i < rest.len() implies (#[trigger] rest[i]).0@ != k by {
            assert(rest[i] == s[i]);
        }
        lemma_absent(rest, k);
        assert(s.last() == s[s.len() - 1]);
    }
}

proof fn lemma_distinct_prefix(s: Seq<(String, Value)>)
    requires
        keys_distinct(s),
        s.len() > 0,
    ensures
        keys_distinct(s.drop_last()),
        !entries_map(s.drop_last()).contains_key(s.last().0@),
{
    let rest = s.drop_last();
    assert forall|i: int, j: int| 0 <= i < j < rest.len() implies (#[trigger] rest[i]).0@ != (
    #[trigger] rest[j]).0@ by {
        assert(rest[i] == s[i]);
        assert(rest[j] == s[j]);
    }
    assert forall|i: int| 0 <= i < rest.len() implies (#[trigger] rest[i]).0@ != s.last().0@ by {
        assert(rest[i] == s[i]);
        assert(s.last() == s[s.len() - 1]);
    }
    lemma_absent(rest, s.last().0@);
}

proof fn lemma_present(s: Seq<(String, Value)>, i: int)
    requires
        keys_distinct(s),
        0 <= i < s.len(),
    ensures
        entries_map(s).contains_key(s[i].0@),
        entries_map(s)[s[i].0@] == s[i].1,
    decreases s.len(),
{
    let rest = s.drop_last();
    if i < s.len() - 1 {
        lemma_distinct_prefix(s);
        lemma_present(rest, i);
        assert(rest[i] == s[i]);
        assert(s.last() == s[s.len() - 1]);
        assert(s[i].0@ != s[s.len() - 1].0@);
    }
}

proof fn lemma_remove(s: Seq<(String, Value)>, i: int)
    requires
        keys_distinct(s),
        0 <= i < s.len(),
    ensures
        keys_distinct(s.remove(i)),
        entries_map(s.remove(i)) == entries_map(s).remove(s[i].0@),
    decreases s.len(),
{
    let cut = s.remove(i);
    assert forall|a: int, b: int| 0 <= a < b < cut.len() implies (#[trigger] cut[a]).0@ != (
    #[trigger] cut[b]).0@ by {
        let a0 = if a < i { a } else { a + 1 };
        let b0 = if b < i { b } else { b + 1 };
        assert(cut[a] == s[a0]);
        assert(cut[b] == s[b0]);
    }
    lemma_distinct_prefix(s);
    let rest = s.drop_last();
    if i == s.len() - 1 {
        assert(cut =~= rest);
        assert(entries_map(s).remove(s[i].0@) =~= entries_map(rest));
    } else {
        lemma_remove(rest, i);
        assert(cut.drop_last() =~= rest.remove(i));
        assert(cut.last() == s.last());
        assert(rest[i] == s[i]);
        assert(s.last() == s[s.len() - 1]);
        assert(s[i].0@ != s[s.len() - 1].0@);
        assert(entries_map(cut) =~= entries_map(s).remove(s[i].0@));
    }
}

proof fn lemma_size(s: Seq<(String, Value)>)
    requires
        keys_distinct(s),
    ensures
        entries_map(s).dom().finite(),
        entries_map(s).dom().len() == s.len(),
    decreases s.len(),
{
    if s.len() > 0 {
        lemma_distinct_prefix(s);
        lemma_size(s.drop_last());
        assert(entries_map(s).dom() =~= entries_map(s.drop_last()).dom().insert(s.last().0@));
    } else {
        assert(entries_map(s).dom() =~= Set::empty());
    }
}

/// Properties of an event or of a user: each name has one JSON value.
#[derive(Debug)]
pub struct Properties {
    entries: Vec<(String, Value)>,
}

impl View for Properties {
    type V = Map<Seq<char>, Value>;

    closed spec fn view(&self) -> Map<Seq<char>, Value> {
        entries_map(self.entries@)
    }
}

impl Properties {
    #[verifier::type_invariant]
    spec fn wf(&self) -> bool {
        keys_distinct(self.entries@)
    }

    /// The empty mapping.
    pub fn new() -> (r: Self)
        ensures
            r@ == Map::<Seq<char>, Value>::empty(),
    {
        Properties { entries: Vec::new() }
    }

    fn position(&self, key: &String) -> (r: Option<usize>)
        ensures
            match r {
                Some(i) => i < self.entries@.len() && self.entries@[i as int].0@ == key@,
                None => forall|j: int|
                    0 <= j < self.entries@.len() ==> (#[trigger] self.entries@[j]).0@ != key@,
            },
    {
        let mut i: usize = 0;
        while i < self.entries.len()
            invariant
                i <= self.entries@.len(),
                forall|j: int| 0 <= j < i ==> (#[trigger] self.entries@[j]).0@ != key@,
            decreases self.entries@.len() - i,
        {
            if self.entries[i].0 == *key {
                return Some(i);
            }
            i += 1;
        }
        None
    }

    /// Sets the value of `key`, and returns the value that it had before.
    pub fn insert(&mut self, key: String, value: Value) -> (r: Option<Value>)
        ensures
            final(self)@ == old(self)@.insert(key@, value),
            r == if old(self)@.contains_key(key@) {
                Some(old(self)@[key@])
            } else {
                None::<Value>
            },
    {
        proof {
            use_type_invariant(&*self);
        }
        let found = self.position(&key);
        let mut entries: Vec<(String, Value)> = Vec::new();
        core::mem::swap(&mut self.entries, &mut entries);
        let before = match found {
            Some(i) => {
                proof {
                    lemma_present(entries@, i as int);
                    lemma_remove(entries@, i as int);
                }
                let (_, v) = entries.remove(i);
                Some(v)
            },
            None => {
                proof {
                    lemma_absent(entries@, key@);
                }
                None
            },
        };
        proof {
            let s = entries@;
            let t = s.push((key, value));
            lemma_absent(s, key@);
            assert(t.drop_last() =~= s);
            assert forall|a: int, b: int| 0 <= a < b < t.len() implies (#[trigger] t[a]).0@ != (
            #[trigger] t[b]).0@ by {
                if b < s.len() {
                    assert(t[a] == s[a] && t[b] == s[b]);
                } else {
                    assert(t[a] == s[a]);
                }
            }
            assert(entries_map(t) =~= old(self)@.insert(key@, value));
        }
        entries.push((key, value));
        self.entries = entries;
        before
    }

    /// The value of `key`, if it has one.
    pub fn get(&self, key: &str) -> (r: Option<&Value>)
        ensures
            match r {
                Some(v) => self@.contains_key(key@) && self@[key@] == *v,
                None => !self@.contains_key(key@),
            },
    {
        proof {
            use_type_invariant(self);
        }
        let wanted = key.to_owned();
        match self.position(&wanted) {
            Some(i) => {
                proof {
                    lemma_present(self.entries@, i as int);
                }
                Some(&self.entries[i].1)
            },
            None => {
                proof {
                    lemma_absent(self.entries@, key@);
                }
                None
            },
        }
    }

    /// How many names have a value.
    pub fn len(&self) -> (r: usize)
        ensures
            self@.dom().finite(),
            r == self@.len(),
    {
        proof {
            use_type_invariant(self);
            lemma_size(self.entries@);
        }
        self.entries.len()
    }

    /// Whether no name has a value.
    pub fn is_empty(&self) -> (r: bool)
        ensures
            r == (self@ == Map::<Seq<char>, Value>::empty()),
    {
        proof {
            use_type_invariant(self);
            lemma_size(self.entries@);
            if self.entries@.len() == 0 {
                assert(self@ =~= Map::<Seq<char>, Value>::empty());
            }
        }
        self.entries.len() == 0
    }

    /// The names with their values, each name once, in the order in which
    /// the names were last set.
    pub fn entries(&self) -> (r: &Vec<(String, Value)>)
        ensures
            keys_distinct(r@),
            entries_map(r@) == self@,
    {
        proof {
            use_type_invariant(self);
        }
        &self.entries
    }
}

impl Clone for Properties {
    fn clone(&self) -> (r: Self)
        ensures
            r@ == self@,
    {
        proof {
            use_type_invariant(self);
        }
        let mut entries: Vec<(String, Value)> = Vec::new();
        let mut i: usize = 0;
        while i < self.entries.len()
            invariant
                i <= self.entries@.len(),
                entries@ == self.entries@.subrange(0, i as int),
            decreases self.entries@.len() - i,
        {
            let name = self.entries[i].0.clone();
            let value = self.entries[i].1.clone();
            entries.push((name, value));
            proof {
                assert(entries@ =~= self.entries@.subrange(0, i + 1));
            }
            i += 1;
        }
        proof {
            assert(entries@ =~= self.entries@);
        }
        Properties { entries }
    }
}

impl Default for Properties {
    fn default() -> (r: Self)
        ensures
            r@ == Map::<Seq<char>, Value>::empty(),
    {
        Properties::new()
    }
}

} // verus!
