//! The property store of one request: a small mapping from keys to bytes.
//!
//! The phases of a request pass data to each other through it. A key has at
//! most one value; setting it again replaces the value, and setting it to
//! nothing removes it.

use vstd::prelude::*;
use vstd::slice::*;
use vstd::string::*;

verus! {

/// The mapping that a list of entries stands for: a later entry under a key
/// replaces an earlier one.
spec fn entries_map(entries: Seq<(String, Vec<u8>)>) -> Map<Seq<char>, Seq<u8>>
    decreases entries.len(),
{
    if entries.len() == 0 {
        Map::empty()
    } else {
        entries_map(entries.drop_last()).insert(entries.last().0@, entries.last().1@)
    }
}

/// A list in which no entry carries `key` has no value for it.
proof fn lemma_absent(entries: Seq<(String, Vec<u8>)>, key: Seq<char>)
    requires
        forall|i: int| 0 <= i < entries.len() ==> entries[i].0@ != key,
    ensures
        !entries_map(entries).contains_key(key),
    decreases entries.len(),
{
    if entries.len() > 0 {
        lemma_absent(entries.drop_last(), key);
    }
}

/// The value of a key is that of the last entry that carries it.
proof fn lemma_last_wins(entries: Seq<(String, Vec<u8>)>, key: Seq<char>, at: int)
    requires
        0 <= at < entries.len(),
        entries[at].0@ == key,
        forall|i: int| at < i < entries.len() ==> entries[i].0@ != key,
    ensures
        entries_map(entries).contains_key(key),
        entries_map(entries)[key] == entries[at].1@,
    decreases entries.len(),
{
    if at < entries.len() - 1 {
        lemma_last_wins(entries.drop_last(), key, at);
    }
}

/// The properties of one request.
#[derive(Debug, PartialEq, Eq)]
pub struct PropertyStore {
    entries: Vec<(String, Vec<u8>)>,
}

impl View for PropertyStore {
    type V = Map<Seq<char>, Seq<u8>>;

    closed spec fn view(&self) -> Map<Seq<char>, Seq<u8>> {
        entries_map(self.entries@)
    }
}

impl PropertyStore {
    /// A store without properties.
    pub fn new() -> (store: PropertyStore)
        ensures
            store@ == Map::<Seq<char>, Seq<u8>>::empty(),
    {
        PropertyStore { entries: Vec::new() }
    }

    /// The value under `key`.
    pub fn get(&self, key: &str) -> (value: Option<&[u8]>)
        ensures
            match value {
                Some(bytes) => self@.contains_key(key@) && self@[key@] == bytes@,
                None => !self@.contains_key(key@),
            },
    {
        let wanted = String::from_str(key);
        let mut at: usize = self.entries.len();
        while at > 0
            invariant
                at <= self.entries.len(),
                wanted@ == key@,
                forall|i: int| at <= i < self.entries.len() ==> self.entries@[i].0@ != key@,
            decreases at,
        {
            at = at - 1;
            if self.entries[at].0 == wanted {
                proof {
                    lemma_last_wins(self.entries@, key@, at as int);
                }
                return Some(self.entries[at].1.as_slice());
            }
        }
        proof {
            lemma_absent(self.entries@, key@);
        }
        None
    }

    /// Sets the value under `key`, or removes it where `value` is `None`.
    /// Other keys keep their values.
    pub fn set(&mut self, key: &str, value: Option<&[u8]>)
        ensures
            final(self)@ == match value {
                Some(bytes) => old(self)@.insert(key@, bytes@),
                None => old(self)@.remove(key@),
            },
    {
        let wanted = String::from_str(key);
        let mut kept: Vec<(String, Vec<u8>)> = Vec::new();
        let mut at: usize = 0;
        while at < self.entries.len()
            invariant
                at <= self.entries.len(),
                wanted@ == key@,
                entries_map(kept@) =~= entries_map(self.entries@.take(at as int)).remove(key@),
            decreases self.entries.len() - at,
        {
            proof {
                assert(self.entries@.take(at + 1).drop_last() =~= self.entries@.take(at as int));
            }
            if !(self.entries[at].0 == wanted) {
                let ghost before = kept@;
                kept.push((self.entries[at].0.clone(), self.entries[at].1.clone()));
                assert(kept@.drop_last() =~= before);
            }
            at = at + 1;
        }
        assert(self.entries@.take(at as int) =~= self.entries@);
        match value {
            Some(bytes) => {
                let ghost before = kept@;
                kept.push((wanted, slice_to_vec(bytes)));
                assert(kept@.drop_last() =~= before);
                assert(entries_map(kept@) =~= self@.insert(key@, bytes@));
            },
            None => {},
        }
        self.entries = kept;
    }
}

} // verus!
