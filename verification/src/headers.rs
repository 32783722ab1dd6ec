//! An ordered list of HTTP headers with replace-on-set semantics.
//!
//! A header list keeps its entries in the order in which they arrived and may
//! hold several entries under one name. Reading a name gives the value of its
//! first entry. Setting a name removes every entry under it and appends the
//! new one, so that afterwards the name has exactly that value. Names are
//! compared as they are written.

use vstd::prelude::*;
use vstd::string::*;

verus! {

/// A header list as a mathematical value: pairs of name and value, in order.
pub type HeaderSeq = Seq<(Seq<char>, Seq<char>)>;

/// The entries that are not under `name`.
pub open spec fn not_named(name: Seq<char>) -> spec_fn((Seq<char>, Seq<char>)) -> bool {
    |entry: (Seq<char>, Seq<char>)| entry.0 != name
}

/// The value of the first entry under `name`, or `None` where there is none.
pub open spec fn value_of(headers: HeaderSeq, name: Seq<char>) -> Option<Seq<char>>
    decreases headers.len(),
{
    if headers.len() == 0 {
        None
    } else {
        match value_of(headers.drop_last(), name) {
            Some(value) => Some(value),
            None => if headers.last().0 == name {
                Some(headers.last().1)
            } else {
                None
            },
        }
    }
}

/// The list after `name` is set to `value`: the entries under other names,
/// in their order, and then the new entry.
pub open spec fn with_header(headers: HeaderSeq, name: Seq<char>, value: Seq<char>) -> HeaderSeq {
    headers.filter(not_named(name)).push((name, value))
}

/// The pairs of a vector of headers, as mathematical values.
pub open spec fn pairs_view(pairs: Seq<(String, String)>) -> HeaderSeq {
    Seq::new(pairs.len(), |i: int| (pairs[i].0@, pairs[i].1@))
}

/// A name that no entry carries has no value.
pub proof fn lemma_value_of_absent(headers: HeaderSeq, name: Seq<char>)
    requires
        forall|i: int| 0 <= i < headers.len() ==> headers[i].0 != name,
    ensures
        value_of(headers, name) is None,
    decreases headers.len(),
{
    if headers.len() > 0 {
        lemma_value_of_absent(headers.drop_last(), name);
    }
}

/// The value of a name is that of the first entry that carries it.
pub proof fn lemma_value_of_first(headers: HeaderSeq, name: Seq<char>, at: int)
    requires
        0 <= at < headers.len(),
        headers[at].0 == name,
        forall|i: int| 0 <= i < at ==> headers[i].0 != name,
    ensures
        value_of(headers, name) == Some(headers[at].1),
    decreases headers.len(),
{
    if at == headers.len() - 1 {
        lemma_value_of_absent(headers.drop_last(), name);
    } else {
        lemma_value_of_first(headers.drop_last(), name, at);
    }
}

/// Removing the entries under one name leaves the values of all others.
pub proof fn lemma_value_of_filtered(headers: HeaderSeq, removed: Seq<char>, name: Seq<char>)
    requires
        name != removed,
    ensures
        value_of(headers.filter(not_named(removed)), name) == value_of(headers, name),
    decreases headers.len(),
{
    reveal(Seq::filter);
    if headers.len() > 0 {
        let rest = headers.drop_last();
        lemma_value_of_filtered(rest, removed, name);
        if headers.last().0 != removed {
            let kept = rest.filter(not_named(removed));
            assert(headers.filter(not_named(removed)) == kept.push(headers.last()));
            assert(kept.push(headers.last()).drop_last() =~= kept);
        }
    }
}

/// After a name is set, it has the value that was set, whatever the list
/// held before.
pub proof fn lemma_set_then_get(headers: HeaderSeq, name: Seq<char>, value: Seq<char>)
    ensures
        value_of(with_header(headers, name, value), name) == Some(value),
{
    let kept = headers.filter(not_named(name));
    assert forall|i: int| 0 <= i < kept.len() implies kept[i].0 != name by {
        headers.lemma_filter_pred(not_named(name), i);
    }
    lemma_value_of_absent(kept, name);
    assert(kept.push((name, value)).drop_last() =~= kept);
}

/// Setting one name leaves the value of every other name as it was.
pub proof fn lemma_set_keeps_others(
    headers: HeaderSeq,
    name: Seq<char>,
    value: Seq<char>,
    other: Seq<char>,
)
    requires
        other != name,
    ensures
        value_of(with_header(headers, name, value), other) == value_of(headers, other),
{
    let kept = headers.filter(not_named(name));
    lemma_value_of_filtered(headers, name, other);
    assert(kept.push((name, value)).drop_last() =~= kept);
}

/// The headers of one request or response, in order.
#[derive(Debug, PartialEq, Eq)]
pub struct Headers {
    entries: Vec<(String, String)>,
}

impl View for Headers {
    type V = HeaderSeq;

    closed spec fn view(&self) -> HeaderSeq {
        pairs_view(self.entries@)
    }
}

impl Headers {
    /// A list without entries.
    pub fn new() -> (headers: Headers)
        ensures
            headers@ == HeaderSeq::empty(),
    {
        let headers = Headers { entries: Vec::new() };
        assert(headers@ =~= HeaderSeq::empty());
        headers
    }

    /// The list of the given pairs of name and value, in their order.
    pub fn from_pairs(pairs: Vec<(String, String)>) -> (headers: Headers)
        ensures
            headers@ == pairs_view(pairs@),
    {
        Headers { entries: pairs }
    }

    /// The entries as pairs of name and value, in their order.
    pub fn into_pairs(self) -> (pairs: Vec<(String, String)>)
        ensures
            pairs_view(pairs@) == self@,
    {
        self.entries
    }

    /// The number of entries.
    pub fn len(&self) -> (count: usize)
        ensures
            count == self@.len(),
    {
        self.entries.len()
    }

    /// The value of the first entry under `name`.
    pub fn get(&self, name: &str) -> (value: Option<&str>)
        ensures
            match value {
                Some(text) => value_of(self@, name@) == Some(text@),
                None => value_of(self@, name@) is None,
            },
    {
        let wanted = String::from_str(name);
        let mut at: usize = 0;
        while at < self.entries.len()
            invariant
                at <= self.entries.len(),
                wanted@ == name@,
                forall|i: int| 0 <= i < at ==> self@[i].0 != name@,
            decreases self.entries.len() - at,
        {
            if self.entries[at].0 == wanted {
                proof {
                    lemma_value_of_first(self@, name@, at as int);
                }
                return Some(self.entries[at].1.as_str());
            }
            at = at + 1;
        }
        proof {
            lemma_value_of_absent(self@, name@);
        }
        None
    }

    /// Sets `name` to `value`: every entry under `name` goes, the others stay
    /// in their order, and the new entry comes last.
    pub fn set(&mut self, name: &str, value: &str)
        ensures
            final(self)@ == with_header(old(self)@, name@, value@),
    {
        let wanted = String::from_str(name);
        let mut kept: Vec<(String, String)> = Vec::new();
        let mut at: usize = 0;
        proof {
            reveal(Seq::filter);
            assert(self@.take(0).filter(not_named(name@)) =~= HeaderSeq::empty());
        }
        while at < self.entries.len()
            invariant
                at <= self.entries.len(),
                wanted@ == name@,
                pairs_view(kept@) =~= self@.take(at as int).filter(not_named(name@)),
            decreases self.entries.len() - at,
        {
            proof {
                reveal(Seq::filter);
                assert(self@.take(at + 1).drop_last() =~= self@.take(at as int));
                assert(self@.take(at + 1).last() == self@[at as int]);
            }
            if !(self.entries[at].0 == wanted) {
                let ghost before = pairs_view(kept@);
                kept.push((self.entries[at].0.clone(), self.entries[at].1.clone()));
                assert(pairs_view(kept@) =~= before.push(self@[at as int]));
            }
            at = at + 1;
        }
        let ghost before = pairs_view(kept@);
        kept.push((wanted, String::from_str(value)));
        proof {
            assert(self@.take(at as int) =~= self@);
            assert(pairs_view(kept@) =~= before.push((name@, value@)));
        }
        self.entries = kept;
    }
}

} // verus!
