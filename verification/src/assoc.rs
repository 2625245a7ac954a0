//! Lists of keyed entries that stand for maps.

use crate::json::same_text;
use crate::views::lemma_take_next;
use vstd::prelude::*;

verus! {

/// The map that a list of entries stands for: a later entry replaces an
/// earlier one with the same key.
pub open spec fn pairs_map<V>(entries: Seq<(Seq<char>, V)>) -> Map<Seq<char>, V>
    decreases entries.len(),
{
    if entries.len() == 0 {
        Map::empty()
    } else {
        pairs_map(entries.drop_last()).insert(entries.last().0, entries.last().1)
    }
}

/// The entry that decides the value of a key: the last one with that key.
pub fn lookup<'a, T: DeepView>(entries: &'a Vec<(String, T)>, key: &str) -> (value: Option<&'a T>)
    ensures
        value.deep_view() == (if pairs_map(entries.deep_view()).contains_key(key@) {
            Some(pairs_map(entries.deep_view())[key@])
        } else {
            None
        }),
{
    let ghost all = entries.deep_view();
    let mut i: usize = entries.len();
    assert(all.take(i as int) =~= all);
    while i > 0
        invariant
            i <= entries.len(),
            all == entries.deep_view(),
            pairs_map(all).contains_key(key@) == pairs_map(all.take(i as int)).contains_key(key@),
            pairs_map(all).contains_key(key@) ==> pairs_map(all)[key@] == pairs_map(
                all.take(i as int),
            )[key@],
        decreases i,
    {
        i = i - 1;
        let entry = &entries[i];
        proof {
            lemma_take_next(all, i as int);
        }
        if same_text(entry.0.as_str(), key) {
            return Some(&entry.1);
        }
    }
    assert(all.take(0) =~= Seq::empty());
    None
}

} // verus!
