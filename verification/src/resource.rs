//! Typed resource handles and the per-block resource lookup.

pub mod audio;
pub mod stream;
pub mod text;

use vstd::prelude::*;
use crate::error::Error;
use crate::resource::audio::AudioData;

verus! {

/// A typed resource bound to a path key.
#[derive(Debug, PartialEq)]
pub enum ResourceValue {
    Stream(crate::resource::stream::Stream),
    Audio(AudioData),
    Text(String),
}

/// The resources preloaded for one block, keyed by the path string an
/// action names them by.
#[derive(Debug, PartialEq)]
pub struct ResourceMap {
    entries: Vec<(String, ResourceValue)>,
}

impl ResourceMap {
    /// The keys, in insertion order.
    pub closed spec fn keys(&self) -> Seq<Seq<char>> {
        self.entries@.map_values(|e: (String, ResourceValue)| e.0@)
    }

    pub closed spec fn entry_at(&self, i: int) -> ResourceValue {
        self.entries@[i].1
    }

    /// Whether `i` is the index of the first binding that carries `key`.
    pub open spec fn found_at(&self, key: Seq<char>, i: int) -> bool {
        0 <= i < self.keys().len() && self.keys()[i] == key && (forall|j: int|
            0 <= j < i ==> self.keys()[j] != key)
    }

    /// The resource the map resolves `key` to: the first binding carrying
    /// the key, or nothing.
    pub open spec fn lookup_spec(&self, key: Seq<char>) -> Option<ResourceValue> {
        if exists|i: int| self.found_at(key, i) {
            Some(self.entry_at(choose|i: int| self.found_at(key, i)))
        } else {
            None
        }
    }

    pub fn new() -> (r: ResourceMap)
        ensures
            r.keys() == Seq::<Seq<char>>::empty(),
    {
        let r = ResourceMap { entries: Vec::new() };
        proof {
            assert(r.keys() =~= Seq::<Seq<char>>::empty());
        }
        r
    }

    pub fn insert(&mut self, key: String, value: ResourceValue)
        ensures
            final(self).keys() == old(self).keys().push(key@),
            final(self).entry_at(old(self).keys().len() as int) == value,
    {
        self.entries.push((key, value));
        proof {
            assert(self.keys() =~= old(self).keys().push(self.entries@.last().0@));
        }
    }

    /// Looks a resource up by its path key; the first binding wins.
    ///
    /// Fails exactly when no binding carries the key.
    pub fn fetch(&self, key: &String) -> (r: Result<&ResourceValue, Error>)
        ensures
            match r {
                Ok(v) => self.lookup_spec(key@) == Some(*v),
                Err(e) => self.lookup_spec(key@) is None && e is InvalidResourceError,
            },
    {
        let n = self.entries.len();
        let mut i: usize = 0;
        while i < n
            invariant
                n == self.entries@.len(),
                0 <= i <= n,
                forall|j: int| 0 <= j < i ==> self.keys()[j] != key@,
            decreases n - i,
        {
            if self.entries[i].0 == *key {
                let v = &self.entries[i].1;
                proof {
                    assert(self.found_at(key@, i as int));
                    let w = choose|t: int| self.found_at(key@, t);
                    if w < i as int {
                        assert(self.keys()[w] != key@);
                        assert(false);
                    } else if w > i as int {
                        assert(self.keys()[i as int] != key@);
                        assert(false);
                    }
                    assert(self.lookup_spec(key@) == Some(*v));
                }
                return Ok(v);
            }
            i += 1;
        }
        proof {
            if exists|t: int| self.found_at(key@, t) {
                let t = choose|t: int| self.found_at(key@, t);
                assert(self.keys()[t] != key@);
                assert(false);
            }
        }
        Err(
            Error::InvalidResourceError(
                String::from_str("Resource was not preloaded for this block"),
            ),
        )
    }
}

} // verus!
