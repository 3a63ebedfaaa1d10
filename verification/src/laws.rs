//! Properties of the launcher that span its operations.
use vstd::prelude::*;

use crate::launch_item::LaunchItem;
use crate::launch_item_repository::{
    candidate_filter, is_launch_candidate, launch_items_of, FoundEntry,
};
use crate::launcher_state::{
    first_selection, matches_query, query_matches, visible_items, LauncherState,
};
use crate::list_nav::{next_selection, previous_selection};
use crate::text::{
    all_ascii_digits, contains_seq, decimal_text, digit_char, digits_value, is_white_space,
    parsed_usize, trim_end, trim_start, trimmed, unsigned_digits,
};
use crate::tui_app::{erased_last, is_quit_key, row_text, App, KeyCode, KeyInput};

verus! {

broadcast use vstd::seq_lib::group_seq_properties;

/// Filtering with a predicate that holds of every element keeps the sequence.
proof fn lemma_filter_keeps_all<A>(s: Seq<A>, pred: spec_fn(A) -> bool)
    requires
        forall|i: int| 0 <= i < s.len() ==> #[trigger] pred(s[i]),
    ensures
        s.filter(pred) == s,
    decreases s.len(),
{
    reveal(Seq::filter);
    if s.len() > 0 {
        lemma_filter_keeps_all(s.drop_last(), pred);
        assert(s.drop_last().push(s.last()) =~= s);
    }
}

/// A blank filter (empty, or whitespace only) matches every program: the empty
/// text occurs in every name.
pub proof fn lemma_blank_query_matches(query: Seq<char>, target_index: usize, target_name: Seq<char>)
    requires
        trimmed(query).len() == 0,
    ensures
        query_matches(query, target_index, target_name),
{
    let q = trimmed(query);
    assert(target_name.subrange(0, 0 + q.len() as int) =~= q);
    assert(contains_seq(target_name, q));
}

/// With a blank filter every program is shown, in its order.
pub proof fn lemma_blank_query_shows_all(data: Seq<LaunchItem>, query: Seq<char>)
    requires
        trimmed(query).len() == 0,
    ensures
        visible_items(data, query) == data,
{
    assert forall|i: int| 0 <= i < data.len() implies #[trigger] matches_query(query)(data[i]) by {
        lemma_blank_query_matches(query, data[i].id, data[i].name@);
    }
    lemma_filter_keeps_all(data, matches_query(query));
}

/// The decimal text of a number is made of digits, starts with a digit and
/// spells the number.
proof fn lemma_decimal_text(n: nat)
    ensures
        decimal_text(n).len() > 0,
        all_ascii_digits(decimal_text(n)),
        digits_value(decimal_text(n)) == n,
    decreases n,
{
    let d = decimal_text(n);
    if n < 10 {
        assert(d.drop_last() =~= Seq::<char>::empty());
        assert(digit_char(n) as nat == 48 + n);
        assert('0' as nat == 48);
        assert(d.last() == digit_char(n));
        assert(digits_value(d.drop_last()) == 0);
    } else {
        lemma_decimal_text(n / 10);
        let prefix = decimal_text(n / 10);
        assert(d.drop_last() =~= prefix);
        assert(digit_char(n % 10) as nat == 48 + n % 10);
        assert('0' as nat == 48);
        assert(d.last() == digit_char(n % 10));
        assert(n == (n / 10) * 10 + n % 10);
        assert forall|i: int| 0 <= i < d.len() implies crate::text::is_ascii_digit(#[trigger] d[i]) by {
            if i < prefix.len() {
                assert(d[i] == prefix[i]);
            }
        }
    }
}

/// Trimming leaves a text alone when it starts and ends with a character that is
/// not whitespace.
proof fn lemma_trimmed_unchanged(s: Seq<char>)
    requires
        s.len() > 0,
        !is_white_space(s[0]),
        !is_white_space(s.last()),
    ensures
        trimmed(s) == s,
{
    assert(trim_start(s) == s);
    assert(trim_end(s) == s);
}

/// Typing the number that a row shows for a program matches that program,
/// whatever its name.
pub proof fn lemma_number_query_matches(target_index: usize, target_name: Seq<char>)
    ensures
        query_matches(decimal_text(target_index as nat), target_index, target_name),
{
    let d = decimal_text(target_index as nat);
    lemma_decimal_text(target_index as nat);
    assert(crate::text::is_ascii_digit(d[0]));
    assert(crate::text::is_ascii_digit(d[d.len() - 1]));
    lemma_trimmed_unchanged(d);
    assert(unsigned_digits(d) == d);
    assert(parsed_usize(d) == Some(target_index));
}

/// Typing the number that a row shows for a program keeps that program in the list.
pub proof fn lemma_number_query_shows_item(data: Seq<LaunchItem>, i: int)
    requires
        0 <= i < data.len(),
    ensures
        visible_items(data, decimal_text(data[i].id as nat)).contains(data[i]),
{
    let query = decimal_text(data[i].id as nat);
    lemma_number_query_matches(data[i].id, data[i].name@);
    assert(matches_query(query)(data[i]));
    data.lemma_filter_contains(matches_query(query), i);
}

/// The shown list holds exactly the programs that match the filter: each shown
/// program matches and is one of all programs, and each matching program is shown.
pub proof fn lemma_visible_items_exact(data: Seq<LaunchItem>, query: Seq<char>)
    ensures
        visible_items(data, query).len() <= data.len(),
        forall|i: int|
            0 <= i < visible_items(data, query).len() ==> {
                let item = #[trigger] visible_items(data, query)[i];
                query_matches(query, item.id, item.name@) && data.contains(item)
            },
        forall|i: int|
            0 <= i < data.len() && query_matches(query, data[i].id, data[i].name@) ==> visible_items(
                data,
                query,
            ).contains(#[trigger] data[i]),
{
    let pred = matches_query(query);
    let vis = visible_items(data, query);
    data.lemma_filter_len(pred);
    assert forall|i: int| 0 <= i < vis.len() implies {
        let item = #[trigger] vis[i];
        query_matches(query, item.id, item.name@) && data.contains(item)
    } by {
        data.lemma_filter_pred(pred, i);
        data.lemma_filter_contains_rev(pred, vis[i]);
    }
    assert forall|i: int|
        0 <= i < data.len() && query_matches(query, data[i].id, data[i].name@) implies vis.contains(
        #[trigger] data[i],
    ) by {
        assert(pred(data[i]));
        data.lemma_filter_contains(pred, i);
    }
}

/// Right after the list changed, the selected program is the first one shown,
/// or nothing when the list is empty.
pub proof fn lemma_fresh_selection_is_first(s: LauncherState)
    requires
        s.selected_index == first_selection(s.data_filtered@),
    ensures
        s.selected_item() == if s.data_filtered@.len() > 0 {
            Some(s.data_filtered@[0])
        } else {
            None
        },
{
}

/// Typing a character and then pressing Backspace gives back the filter text
/// from before, and the list shows what matches it.
pub proof fn lemma_type_then_erase(a0: App, a1: App, a2: App, c: char, typed: KeyInput, erase: KeyInput)
    requires
        typed.code == KeyCode::Char(c),
        !is_quit_key(typed),
        erase.code == KeyCode::Backspace,
        App::key_step(a0, a1, typed),
        App::key_step(a1, a2, erase),
    ensures
        a2.state.filter_query@ == a0.state.filter_query@,
        a2.state.data_filtered@ == visible_items(a0.state.data@, a0.state.filter_query@),
        a2.state.selected_index == first_selection(a2.state.data_filtered@),
        a2.running == a0.running,
{
    let q = a0.state.filter_query@;
    assert(!crate::tui_app::is_move_key(typed.code));
    assert(!crate::tui_app::is_move_key(erase.code));
    assert(!is_quit_key(erase));
    assert(erased_last(q.push(c)) =~= q);
}

/// Every pressed key keeps the shown list equal to the programs that match the
/// filter text, once it is.
pub proof fn lemma_key_step_keeps_filter_consistent(pre: App, post: App, key: KeyInput)
    requires
        App::key_step(pre, post, key),
        pre.state.filter_consistent(),
    ensures
        post.state.filter_consistent(),
{
}

/// Loading the programs under a blank filter text shows exactly the programs
/// that match it.
pub proof fn lemma_loaded_list_matches_blank_filter(s: LauncherState)
    requires
        s.data_filtered@ == s.data@,
        trimmed(s.filter_query@).len() == 0,
    ensures
        s.filter_consistent(),
{
    lemma_blank_query_shows_all(s.data@, s.filter_query@);
}

/// A program whose name contains the trimmed query matches it, whether or not
/// the query also reads as a number.
pub proof fn lemma_name_containing_query_matches(
    query: Seq<char>,
    target_index: usize,
    target_name: Seq<char>,
)
    requires
        contains_seq(target_name, trimmed(query)),
    ensures
        query_matches(query, target_index, target_name),
{
}

/// A query matches a program only when the trimmed query reads as its number
/// or occurs in its name.
pub proof fn lemma_match_needs_number_or_name(
    query: Seq<char>,
    target_index: usize,
    target_name: Seq<char>,
)
    requires
        parsed_usize(trimmed(query)) != Some(target_index),
        !contains_seq(target_name, trimmed(query)),
    ensures
        !query_matches(query, target_index, target_name),
{
}

/// Every program whose name contains the trimmed query stays in the list,
/// whatever its number.
pub proof fn lemma_name_containing_query_is_shown(data: Seq<LaunchItem>, query: Seq<char>, i: int)
    requires
        0 <= i < data.len(),
        contains_seq(data[i].name@, trimmed(query)),
    ensures
        visible_items(data, query).contains(data[i]),
{
    lemma_name_containing_query_matches(query, data[i].id, data[i].name@);
    assert(matches_query(query)(data[i]));
    data.lemma_filter_contains(matches_query(query), i);
}

/// Typing a character without Control (any character, `q` and `c` included)
/// keeps the launcher running with the same stop reason, and appends the
/// character to the filter text.
pub proof fn lemma_plain_character_is_typed(pre: App, post: App, c: char)
    requires
        App::key_step(pre, post, KeyInput { code: KeyCode::Char(c), control_only: false }),
    ensures
        post.running == pre.running,
        post.stop_reason == pre.stop_reason,
        post.state.filter_query@ == pre.state.filter_query@.push(c),
        post.state.data_filtered@ == visible_items(pre.state.data@, pre.state.filter_query@.push(c)),
{
    let key = KeyInput { code: KeyCode::Char(c), control_only: false };
    assert(!is_quit_key(key));
    assert(!crate::tui_app::is_move_key(key.code));
}

/// Every offered entry becomes a program, however many there are: there are as
/// many programs as offered entries, and the i-th program is the i-th offered
/// entry, numbered i.
pub proof fn lemma_every_offered_entry_is_a_program(entries: Seq<FoundEntry>)
    requires
        entries.len() <= usize::MAX,
    ensures
        launch_items_of(entries).len() == entries.filter(candidate_filter()).len(),
        forall|i: int|
            0 <= i < launch_items_of(entries).len() ==> {
                let item = #[trigger] launch_items_of(entries)[i];
                let entry = entries.filter(candidate_filter())[i];
                &&& item.id == i
                &&& item.name == entry.name
                &&& item.path == entry.path
            },
{
    entries.lemma_filter_len(candidate_filter());
}

/// When every walked entry is offered, each becomes a program in walk order:
/// there are as many programs as entries.
pub proof fn lemma_all_offered_entries_are_kept(entries: Seq<FoundEntry>)
    requires
        forall|i: int| 0 <= i < entries.len() ==> is_launch_candidate(#[trigger] entries[i]),
    ensures
        launch_items_of(entries).len() == entries.len(),
        forall|i: int|
            0 <= i < entries.len() ==> (#[trigger] launch_items_of(entries)[i]).path
                == entries[i].path,
{
    assert forall|i: int| 0 <= i < entries.len() implies #[trigger] candidate_filter()(
        entries[i],
    ) by {
        assert(is_launch_candidate(entries[i]));
    }
    lemma_filter_keeps_all(entries, candidate_filter());
}

/// A row shows the whole name of its program after `[`, the number in decimal
/// and `]: `: it starts with `[`, ends with the full name, and has four
/// characters besides the number's digits and the name.
pub proof fn lemma_row_shows_whole_name(item: LaunchItem)
    ensures
        row_text(item).len() == 4 + decimal_text(item.id as nat).len() + item.name@.len(),
        row_text(item)[0] == '[',
        row_text(item).subrange(1, 1 + decimal_text(item.id as nat).len() as int) == decimal_text(
            item.id as nat,
        ),
        row_text(item).subrange(
            row_text(item).len() - item.name@.len(),
            row_text(item).len() as int,
        ) == item.name@,
{
    let row = row_text(item);
    let d = decimal_text(item.id as nat);
    assert(row.subrange(1, 1 + d.len() as int) =~= d);
    assert(row.subrange(row.len() - item.name@.len(), row.len() as int) =~= item.name@);
}

/// Two programs with different names get different rows, so programs named
/// alike in different folders are told apart.
pub proof fn lemma_rows_tell_names_apart(a: LaunchItem, b: LaunchItem)
    requires
        a.id == b.id,
        a.name@ != b.name@,
    ensures
        row_text(a) != row_text(b),
{
    lemma_row_shows_whole_name(a);
    lemma_row_shows_whole_name(b);
    if row_text(a) == row_text(b) {
        assert(a.name@.len() == b.name@.len());
        assert(a.name@ =~= b.name@);
    }
}

/// Moving down after moving up gives back a selection that was neither the
/// first row nor the last possible one.
pub proof fn lemma_up_then_down(i: usize)
    requires
        0 < i,
    ensures
        next_selection(previous_selection(Some(i))) == Some(i),
{
}

/// Moving up after moving down gives back any selection below the last possible row.
pub proof fn lemma_down_then_up(i: usize)
    requires
        i < usize::MAX,
    ensures
        previous_selection(next_selection(Some(i))) == Some(i),
{
}

} // verus!
