//! Custom properties of a telemetry item.
use vstd::prelude::*;

use super::string_map::{distinct_keys, entries_map, sorted_keys, StringMap};
use super::tags::lookup;

verus! {

/// Contains all properties for telemetry to submit.
#[derive(Debug)]
pub struct Properties(StringMap);

impl View for Properties {
    type V = Map<Seq<char>, Seq<char>>;

    closed spec fn view(&self) -> Map<Seq<char>, Seq<char>> {
        self.0@
    }
}

impl Clone for Properties {
    /// A copy of the bag.
    fn clone(&self) -> (r: Self)
        ensures
            r@ == self@,
    {
        Properties(self.0.clone())
    }
}

impl Default for Properties {
    fn default() -> (r: Self)
        ensures
            r@ == Map::<Seq<char>, Seq<char>>::empty(),
    {
        Properties(StringMap::new())
    }
}

impl Properties {
    /// An empty bag of properties.
    pub fn new() -> (r: Self)
        ensures
            r@ == Map::<Seq<char>, Seq<char>>::empty(),
    {
        Properties(StringMap::new())
    }

    /// Combines all properties from two objects. It can override some
    /// properties with values found in the second properties bag.
    pub fn combine(a: Properties, b: Properties) -> (r: Self)
        ensures
            r@ == a@.union_prefer_right(b@),
    {
        Properties(StringMap::combine(a.0, b.0))
    }

    /// Sets the property `key`, and gives back the value it replaced.
    pub fn insert(&mut self, key: String, value: String) -> (r: Option<String>)
        ensures
            final(self)@ == old(self)@.insert(key@, value@),
            match r {
                Some(v) => old(self)@.contains_key(key@) && old(self)@[key@] == v@,
                None => !old(self)@.contains_key(key@),
            },
    {
        self.0.insert(key, value)
    }

    /// Takes the property `key` out, and gives back its value.
    pub fn remove(&mut self, key: &str) -> (r: Option<String>)
        ensures
            final(self)@ == old(self)@.remove(key@),
            match r {
                Some(v) => old(self)@.contains_key(key@) && old(self)@[key@] == v@,
                None => !old(self)@.contains_key(key@),
            },
    {
        self.0.remove(key)
    }

    /// The value of the property `key`, if it is set.
    pub fn get(&self, key: &str) -> (r: Option<&String>)
        ensures
            match r {
                Some(v) => self@.contains_key(key@) && self@[key@] == v@,
                None => !self@.contains_key(key@),
            },
    {
        self.0.get(key)
    }

    /// Whether the property `key` is set.
    pub fn contains_key(&self, key: &str) -> (r: bool)
        ensures
            r == self@.contains_key(key@),
    {
        self.0.contains_key(key)
    }

    /// Number of properties set.
    pub fn len(&self) -> (r: usize)
        ensures
            r == self@.len(),
    {
        self.0.len()
    }

    /// Whether no property is set.
    pub fn is_empty(&self) -> (r: bool)
        ensures
            r == (self@.len() == 0),
    {
        self.0.is_empty()
    }

    /// The properties, each key once, in increasing order of the keys.
    pub fn entries(&self) -> (r: &Vec<(String, String)>)
        ensures
            sorted_keys(r@),
            distinct_keys(r@),
            entries_map(r@) == self@,
    {
        self.0.entries()
    }
}

/// Law: combining keeps every property of the second bag, and those of the
/// first bag that the second does not override.
pub proof fn lemma_combine_prefers_right(
    a: Map<Seq<char>, Seq<char>>,
    b: Map<Seq<char>, Seq<char>>,
    key: Seq<char>,
)
    ensures
        b.contains_key(key) ==> lookup(a.union_prefer_right(b), key) == lookup(b, key),
        !b.contains_key(key) ==> lookup(a.union_prefer_right(b), key) == lookup(a, key),
{
}

} // verus!
