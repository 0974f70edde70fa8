//! A small map from text to text that remembers the order of insertion.
//!
//! It carries labels, headers and attributes: a handful of entries each, so a
//! list that is searched from the front does the job.

use vstd::prelude::*;
use vstd::string::StringExecFns;
use crate::assoc::distinct_keys;
use crate::assoc::lemma_position_is;
use crate::assoc::lemma_put;
use crate::assoc::lookup;
use crate::assoc::position;
use crate::assoc::put;
use crate::text::str_eq;

verus! {

/// One binding of a `StringMap`.
#[derive(Debug)]
pub struct StringPair {
    pub key: String,
    pub value: String,
}

impl View for StringPair {
    type V = (Seq<char>, Seq<char>);

    open spec fn view(&self) -> (Seq<char>, Seq<char>) {
        (self.key@, self.value@)
    }
}

impl Clone for StringPair {
    fn clone(&self) -> (copy: Self)
        ensures
            copy == *self,
    {
        StringPair { key: self.key.clone(), value: self.value.clone() }
    }
}

/// A map from text to text, in order of insertion. No key occurs twice.
#[derive(Debug)]
pub struct StringMap {
    entries: Vec<StringPair>,
}

impl View for StringMap {
    type V = Seq<(Seq<char>, Seq<char>)>;

    closed spec fn view(&self) -> Seq<(Seq<char>, Seq<char>)> {
        Seq::new(self.entries@.len(), |i: int| self.entries@[i]@)
    }
}

impl StringMap {
    #[verifier::type_invariant]
    spec fn keys_are_distinct(self) -> bool {
        distinct_keys(self@)
    }

    /// What the map binds `key` to.
    pub open spec fn spec_get(self, key: Seq<char>) -> Option<Seq<char>> {
        lookup(self@, key)
    }

    /// The empty map.
    pub fn new() -> (map: StringMap)
        ensures
            map@ == Seq::<(Seq<char>, Seq<char>)>::empty(),
    {
        let map = StringMap { entries: Vec::new() };
        map
    }

    /// The number of bindings.
    pub fn len(&self) -> (n: usize)
        ensures
            n == self@.len(),
    {
        self.entries.len()
    }

    /// Whether the map binds nothing.
    pub fn is_empty(&self) -> (empty: bool)
        ensures
            empty == (self@.len() == 0),
    {
        self.entries.len() == 0
    }

    /// The key of the `i`-th binding.
    pub fn key_at(&self, i: usize) -> (key: &str)
        requires
            i < self@.len(),
        ensures
            key@ == self@[i as int].0,
    {
        self.entries[i].key.as_str()
    }

    /// The value of the `i`-th binding.
    pub fn value_at(&self, i: usize) -> (value: &str)
        requires
            i < self@.len(),
        ensures
            value@ == self@[i as int].1,
    {
        self.entries[i].value.as_str()
    }

    /// The index of the binding of `key`, or the number of bindings.
    fn find(&self, key: &str) -> (i: usize)
        ensures
            i == position(self@, key@),
            i <= self@.len(),
    {
        let mut i: usize = 0;
        while i < self.entries.len()
            invariant
                i <= self.entries@.len(),
                forall|j: int| 0 <= j < i ==> (#[trigger] self@[j]).0 != key@,
            decreases self.entries@.len() - i,
        {
            if str_eq(self.entries[i].key.as_str(), key) {
                proof {
                    lemma_position_is(self@, key@, i as int);
                }
                return i;
            }
            i = i + 1;
        }
        proof {
            lemma_position_is(self@, key@, i as int);
        }
        i
    }

    /// What the map binds `key` to, if anything.
    pub fn get(&self, key: &str) -> (value: Option<&str>)
        ensures
            match value {
                Some(v) => self.spec_get(key@) == Some(v@),
                None => self.spec_get(key@) is None,
            },
    {
        let i = self.find(key);
        if i < self.entries.len() {
            Some(self.entries[i].value.as_str())
        } else {
            None
        }
    }

    /// Binds `key` to `value`. A key that is bound already keeps its place and
    /// gets the new value; a new key goes to the end.
    pub fn insert(&mut self, key: &str, value: &str)
        ensures
            final(self)@ == put(old(self)@, key@, value@),
            distinct_keys(final(self)@),
    {
        proof {
            use_type_invariant(&*self);
            lemma_put(self@, key@, value@);
        }
        let i = self.find(key);
        let pair = StringPair { key: String::from_str(key), value: String::from_str(value) };
        let ghost before = self@;
        let mut entries: Vec<StringPair> = Vec::new();
        std::mem::swap(&mut self.entries, &mut entries);
        if i < entries.len() {
            entries.set(i, pair);
        } else {
            entries.push(pair);
        }
        proof {
            let after = Seq::new(entries@.len(), |j: int| entries@[j]@);
            assert(after =~= put(before, key@, value@));
        }
        self.entries = entries;
    }
}

impl Clone for StringMap {
    fn clone(&self) -> (copy: Self)
        ensures
            copy@ == self@,
            distinct_keys(copy@),
    {
        proof {
            use_type_invariant(self);
        }
        let mut entries: Vec<StringPair> = Vec::new();
        let mut i: usize = 0;
        while i < self.entries.len()
            invariant
                i <= self.entries@.len(),
                entries@.len() == i,
                forall|j: int| 0 <= j < i ==> entries@[j] == self.entries@[j],
            decreases self.entries@.len() - i,
        {
            entries.push(self.entries[i].clone());
            i = i + 1;
        }
        assert(entries@ =~= self.entries@);
        StringMap { entries }
    }
}

} // verus!
