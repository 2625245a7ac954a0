//! The completion markers of a content item: for each binding, whether its
//! extractor was applied to the item.

use crate::assoc::{lookup, pairs_map};
use crate::views::{lemma_deep_view_empty, lemma_deep_view_push, lemma_take_all, lemma_take_next};
use vstd::prelude::*;
use vstd::string::StringExecFns;

verus! {

/// The marker of a binding among the markers of a content item: zero where
/// none was set.
pub open spec fn marker_of(markers: Map<Seq<char>, u64>, binding_id: Seq<char>) -> u64 {
    if markers.contains_key(binding_id) {
        markers[binding_id]
    } else {
        0
    }
}

/// Whether the markers say that the binding's extractor was applied.
pub open spec fn is_applied(markers: Map<Seq<char>, u64>, binding_id: Seq<char>) -> bool {
    marker_of(markers, binding_id) >= 1
}

/// The completion markers of one content item, by the identifier of the
/// binding.
#[derive(Debug)]
pub struct ExtractorBindingsState {
    pub state: Vec<(String, u64)>,
}

impl DeepView for ExtractorBindingsState {
    type V = Map<Seq<char>, u64>;

    open spec fn deep_view(&self) -> Map<Seq<char>, u64> {
        pairs_map(self.state.deep_view())
    }
}

impl Clone for ExtractorBindingsState {
    fn clone(&self) -> (res: Self)
        ensures
            res.deep_view() == self.deep_view(),
    {
        let mut state: Vec<(String, u64)> = Vec::new();
        let mut i: usize = 0;
        while i < self.state.len()
            invariant
                i <= self.state.len(),
                state.deep_view() == self.state.deep_view().take(i as int),
            decreases self.state.len() - i,
        {
            let entry = &self.state[i];
            let copy = (entry.0.clone(), entry.1);
            let ghost before = state;
            state.push(copy);
            proof {
                lemma_deep_view_push(before, state, copy);
                lemma_take_next(self.state.deep_view(), i as int);
            }
            i = i + 1;
        }
        proof {
            lemma_take_all(self.state.deep_view());
        }
        ExtractorBindingsState { state }
    }
}

impl Default for ExtractorBindingsState {
    fn default() -> (markers: Self)
        ensures
            markers.deep_view() == Map::<Seq<char>, u64>::empty(),
    {
        let state: Vec<(String, u64)> = Vec::new();
        proof {
            lemma_deep_view_empty(state);
        }
        ExtractorBindingsState { state }
    }
}

impl ExtractorBindingsState {
    /// The marker of a binding: zero where none was set.
    pub fn marker(&self, binding_id: &str) -> (marker: u64)
        ensures
            marker == marker_of(self.deep_view(), binding_id@),
    {
        match lookup(&self.state, binding_id) {
            Some(marker) => *marker,
            None => 0,
        }
    }

    /// Sets the marker of a binding to one, whatever it was, and leaves the
    /// markers of all other bindings as they are.
    pub fn mark(&mut self, binding_id: &str)
        ensures
            final(self).deep_view() == old(self).deep_view().insert(binding_id@, 1),
    {
        if self.marker(binding_id) != 1 {
            let entry = (String::from_str(binding_id), 1u64);
            let ghost before = self.state;
            self.state.push(entry);
            proof {
                lemma_deep_view_push(before, self.state, entry);
                assert(self.state.deep_view().drop_last() =~= before.deep_view());
            }
        } else {
            assert(self.deep_view() =~= old(self).deep_view().insert(binding_id@, 1));
        }
    }
}

} // verus!
