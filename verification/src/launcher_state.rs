//! The launcher's list of programs, the filter typed over it and the selection.
use vstd::prelude::*;

use crate::launch_item::LaunchItem;
use crate::text::{contains_seq, parse_usize, parsed_usize, str_contains, trim_str, trimmed};

verus! {

broadcast use vstd::seq_lib::group_seq_properties;

/// A query matches an item when the query, trimmed of surrounding whitespace,
/// reads as the item's number or occurs in the item's name.
pub open spec fn query_matches(query: Seq<char>, target_index: usize, target_name: Seq<char>) -> bool {
    let q = trimmed(query);
    parsed_usize(q) == Some(target_index) || contains_seq(target_name, q)
}

/// The predicate "the item matches `query`", as a filter over items.
pub open spec fn matches_query(query: Seq<char>) -> spec_fn(LaunchItem) -> bool {
    |item: LaunchItem| query_matches(query, item.id, item.name@)
}

/// The items of `data` that match `query`, in their order in `data`.
pub open spec fn visible_items(data: Seq<LaunchItem>, query: Seq<char>) -> Seq<LaunchItem> {
    data.filter(matches_query(query))
}

/// The selection right after the visible list changed: its first item, if any.
pub open spec fn first_selection(items: Seq<LaunchItem>) -> Option<usize> {
    if items.len() > 0 {
        Some(0)
    } else {
        None
    }
}

/// The state of the launcher.
#[derive(Debug)]
pub struct LauncherState {
    /// Whether the programs have been fetched.
    pub loaded: bool,
    /// Every program found.
    pub data: Vec<LaunchItem>,
    /// The programs shown: those of `data` that the filter lets through.
    pub data_filtered: Vec<LaunchItem>,
    /// The position in `data_filtered` of the selected program, if any.
    pub selected_index: Option<usize>,
    /// The filter text typed so far.
    pub filter_query: String,
}

impl LauncherState {
    /// The program that a call of `get_selected` gives back: the shown program
    /// at the selected position, if the selection lies inside the shown list.
    pub open spec fn selected_item(self) -> Option<LaunchItem> {
        match self.selected_index {
            Some(i) => if i < self.data_filtered@.len() {
                Some(self.data_filtered@[i as int])
            } else {
                None
            },
            None => None,
        }
    }

    /// The shown programs are exactly those of `data` that match the filter text.
    pub open spec fn filter_consistent(self) -> bool {
        self.data_filtered@ == visible_items(self.data@, self.filter_query@)
    }

    /// A state that has fetched nothing yet, with an empty filter and no selection.
    pub open spec fn is_initial(self) -> bool {
        &&& !self.loaded
        &&& self.data@.len() == 0
        &&& self.data_filtered@.len() == 0
        &&& self.selected_index is None
        &&& self.filter_query@.len() == 0
    }

    /// Stores the fetched programs, shows all of them and selects the first.
    pub fn fetch_data(&mut self, items: Vec<LaunchItem>)
        ensures
            final(self).loaded,
            final(self).data@ == items@,
            final(self).data_filtered@ == items@,
            final(self).selected_index == first_selection(items@),
            final(self).filter_query == old(self).filter_query,
    {
        self.data = items;
        self.data_filtered = clone_items(&self.data);
        self.reset_selected();
        self.loaded = true;
    }

    /// Replaces the filter text, shows the programs that match it and selects the first.
    pub fn update_filter(&mut self, new_filter: String)
        ensures
            final(self).filter_query == new_filter,
            final(self).loaded == old(self).loaded,
            final(self).data == old(self).data,
            final(self).data_filtered@ == visible_items(old(self).data@, new_filter@),
            final(self).selected_index == first_selection(final(self).data_filtered@),
    {
        self.filter_query = new_filter;
        let ghost data = self.data@;
        let ghost query = self.filter_query@;
        let mut filtered: Vec<LaunchItem> = Vec::new();
        let n = self.data.len();
        for i in 0..n
            invariant
                n == self.data@.len(),
                data == self.data@,
                query == self.filter_query@,
                filtered@ == data.take(i as int).filter(matches_query(query)),
        {
            let item = &self.data[i];
            let keep = Self::query_matches_index_or_name(
                self.filter_query.as_str(),
                item.id,
                item.name.as_str(),
            );
            proof {
                assert(data.take(i + 1) =~= data.take(i as int).push(data[i as int]));
                data.take(i as int).lemma_filter_push(data[i as int], matches_query(query));
            }
            if keep {
                filtered.push(item.clone());
            }
        }
        proof {
            assert(data.take(n as int) =~= data);
        }
        self.data_filtered = filtered;
        self.reset_selected();
    }

    /// Whether `query`, trimmed of surrounding whitespace, reads as `target_index`
    /// or occurs in `target_name`.
    pub fn query_matches_index_or_name(query: &str, target_index: usize, target_name: &str) -> (r:
        bool)
        ensures
            r == query_matches(query@, target_index, target_name@),
    {
        let query_trimmed = trim_str(query);

        if let Some(query_num) = parse_usize(query_trimmed) {
            if query_num == target_index {
                return true;
            }
        }
        if str_contains(target_name, query_trimmed) {
            return true;
        }
        false
    }

    /// Selects the first shown program, or nothing when none is shown.
    fn reset_selected(&mut self)
        ensures
            final(self).selected_index == first_selection(old(self).data_filtered@),
            final(self).loaded == old(self).loaded,
            final(self).data == old(self).data,
            final(self).data_filtered == old(self).data_filtered,
            final(self).filter_query == old(self).filter_query,
    {
        if self.data_filtered.len() > 0 {
            self.selected_index = Some(0);
        } else {
            self.selected_index = None;
        }
    }

    /// Sets the selection as given, in or out of the shown list.
    pub fn update_selected(&mut self, index: Option<usize>)
        ensures
            final(self).selected_index == index,
            final(self).loaded == old(self).loaded,
            final(self).data == old(self).data,
            final(self).data_filtered == old(self).data_filtered,
            final(self).filter_query == old(self).filter_query,
    {
        self.selected_index = index;
    }

    /// A copy of the selected program, or nothing when the selection is empty
    /// or lies outside the shown list.
    pub fn get_selected(&mut self) -> (r: Option<LaunchItem>)
        ensures
            r == old(self).selected_item(),
            *final(self) == *old(self),
    {
        if let Some(index) = self.selected_index {
            if index < self.data_filtered.len() {
                return Some(self.data_filtered[index].clone());
            }
        }
        None
    }
}

impl Default for LauncherState {
    fn default() -> (r: Self)
        ensures
            r.is_initial(),
    {
        LauncherState {
            loaded: false,
            data: Vec::new(),
            data_filtered: Vec::new(),
            selected_index: None,
            filter_query: String::new(),
        }
    }
}

/// A copy of each item, in order.
fn clone_items(items: &Vec<LaunchItem>) -> (r: Vec<LaunchItem>)
    ensures
        r@ == items@,
{
    let mut out: Vec<LaunchItem> = Vec::new();
    for i in 0..items.len()
        invariant
            out@ == items@.take(i as int),
    {
        out.push(items[i].clone());
        proof {
            assert(items@.take(i + 1) =~= items@.take(i as int).push(items@[i as int]));
        }
    }
    proof {
        assert(items@.take(items@.len() as int) =~= items@);
    }
    out
}

} // verus!
