//! Semi-structured values as far as the store reads them.

use crate::assoc::{lookup, pairs_map};
use crate::views::{lemma_deep_view_push, lemma_take_next};
use vstd::prelude::*;
use vstd::string::{StringExecFns, StringSliceAdditionalSpecFns};
use vstd::utf8::encode_utf8_decode_utf8;

verus! {

/// A JSON value. The store only ever asks whether a value is a string and
/// what its text is, so every value that is neither null nor a string is
/// held as its JSON text.
#[derive(Debug)]
pub enum JsonValue {
    Null,
    Text(String),
    Raw(String),
}

/// What a [`JsonValue`] holds.
pub enum JsonView {
    Null,
    Text(Seq<char>),
    Raw(Seq<char>),
}

impl JsonView {
    /// The string that the value is, if it is one.
    pub open spec fn as_str(self) -> Option<Seq<char>> {
        match self {
            JsonView::Text(s) => Some(s),
            _ => None,
        }
    }

    /// The value as text: nothing for null, a string as it is, any other
    /// value as its JSON text.
    pub open spec fn as_text(self) -> Option<Seq<char>> {
        match self {
            JsonView::Null => None,
            JsonView::Text(s) => Some(s),
            JsonView::Raw(s) => Some(s),
        }
    }
}

impl DeepView for JsonValue {
    type V = JsonView;

    open spec fn deep_view(&self) -> JsonView {
        match self {
            JsonValue::Null => JsonView::Null,
            JsonValue::Text(s) => JsonView::Text(s@),
            JsonValue::Raw(s) => JsonView::Raw(s@),
        }
    }
}

impl Clone for JsonValue {
    fn clone(&self) -> (res: Self)
        ensures
            res.deep_view() == self.deep_view(),
    {
        match self {
            JsonValue::Null => JsonValue::Null,
            JsonValue::Text(s) => JsonValue::Text(s.clone()),
            JsonValue::Raw(s) => JsonValue::Raw(s.clone()),
        }
    }
}

impl JsonValue {
    /// A JSON string.
    pub fn text(s: &str) -> (v: Self)
        ensures
            v.deep_view() == JsonView::Text(s@),
    {
        JsonValue::Text(String::from_str(s))
    }

    /// The JSON object without members.
    pub fn empty_object() -> (v: Self)
        ensures
            v.deep_view() == JsonView::Raw("{}"@),
    {
        JsonValue::Raw(String::from_str("{}"))
    }

    /// The value as text: nothing for null, a string as it is, any other
    /// value as its JSON text.
    pub fn as_text(&self) -> (s: Option<&str>)
        ensures
            s.deep_view() == self.deep_view().as_text(),
    {
        match self {
            JsonValue::Null => None,
            JsonValue::Text(s) => Some(s.as_str()),
            JsonValue::Raw(s) => Some(s.as_str()),
        }
    }

    /// The string that the value is, if it is one.
    pub fn as_str(&self) -> (s: Option<&str>)
        ensures
            s.deep_view() == self.deep_view().as_str(),
    {
        match self {
            JsonValue::Text(s) => Some(s.as_str()),
            _ => None,
        }
    }
}

/// Copies a JSON value that may be absent.
pub fn clone_optional_json(value: &Option<JsonValue>) -> (res: Option<JsonValue>)
    ensures
        res.deep_view() == value.deep_view(),
{
    match value {
        Some(v) => Some(v.clone()),
        None => None,
    }
}

/// Whether two strings hold the same text.
pub fn same_text(a: &str, b: &str) -> (same: bool)
    ensures
        same == (a@ == b@),
{
    let x = a.as_bytes();
    let y = b.as_bytes();
    proof {
        encode_utf8_decode_utf8(a@);
        encode_utf8_decode_utf8(b@);
    }
    if x.len() != y.len() {
        return false;
    }
    let mut i: usize = 0;
    while i < x.len()
        invariant
            i <= x.len(),
            x.len() == y.len(),
            x@ == a.spec_bytes(),
            y@ == b.spec_bytes(),
            forall|j: int| 0 <= j < i ==> x@[j] == y@[j],
        decreases x.len() - i,
    {
        if x[i] != y[i] {
            return false;
        }
        i = i + 1;
    }
    assert(x@ =~= y@);
    true
}

/// Free-form metadata: a map from keys to JSON values.
#[derive(Debug)]
pub struct Metadata {
    pub entries: Vec<(String, JsonValue)>,
}

impl DeepView for Metadata {
    type V = Map<Seq<char>, JsonView>;

    open spec fn deep_view(&self) -> Map<Seq<char>, JsonView> {
        pairs_map(self.entries.deep_view())
    }
}

impl Clone for Metadata {
    fn clone(&self) -> (res: Self)
        ensures
            res.deep_view() == self.deep_view(),
    {
        let mut entries: Vec<(String, JsonValue)> = Vec::new();
        let mut i: usize = 0;
        while i < self.entries.len()
            invariant
                i <= self.entries.len(),
                entries.deep_view() == self.entries.deep_view().take(i as int),
            decreases self.entries.len() - i,
        {
            let entry = &self.entries[i];
            let copy = (entry.0.clone(), entry.1.clone());
            let ghost before = entries;
            entries.push(copy);
            proof {
                lemma_deep_view_push(before, entries, copy);
                lemma_take_next(self.entries.deep_view(), i as int);
            }
            i = i + 1;
        }
        assert(self.entries.deep_view().take(i as int) =~= self.entries.deep_view());
        Metadata { entries }
    }
}

impl Metadata {
    /// Metadata without entries.
    pub fn new() -> (m: Self)
        ensures
            m.deep_view() == Map::<Seq<char>, JsonView>::empty(),
    {
        let m = Metadata { entries: Vec::new() };
        assert(m.entries.deep_view() =~= Seq::empty());
        m
    }

    /// Metadata from a list of entries; of two entries with one key the
    /// later one stays.
    pub fn from_pairs(entries: Vec<(String, JsonValue)>) -> (m: Self)
        ensures
            m.deep_view() == pairs_map(entries.deep_view()),
    {
        Metadata { entries }
    }

    /// Sets the value of a key.
    pub fn insert(&mut self, key: String, value: JsonValue)
        ensures
            final(self).deep_view() == old(self).deep_view().insert(key@, value.deep_view()),
    {
        let ghost k = key@;
        let ghost v = value.deep_view();
        self.entries.push((key, value));
        proof {
            let after = self.entries.deep_view();
            assert(after.drop_last() =~= old(self).entries.deep_view());
            assert(after.last() == (k, v));
        }
    }

    /// The value of a key.
    pub fn get(&self, key: &str) -> (value: Option<&JsonValue>)
        ensures
            value.deep_view() == (if self.deep_view().contains_key(key@) {
                Some(self.deep_view()[key@])
            } else {
                None
            }),
    {
        lookup(&self.entries, key)
    }
}

} // verus!
