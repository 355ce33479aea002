use vstd::prelude::*;
use crate::bibiman::{
    default_entries, is_base, keyword_filtered, pattern_applied, reset_post, search_aborted, search_confirmed,
    search_entered, Bibiman,
};
use crate::entries::{column_key, is_first_with_key, sorted_from, EntryTable, EntryTableItem};
use crate::search::{
    entry_matches, lemma_rank_contains, lemma_keyword_filter_contains, lemma_matching_contains,
    entries_matching,
};
use crate::sort::{
    in_order, lemma_in_order_unique, lemma_sort_in_order, lemma_sort_keeps_tie_positions,
    lemma_sort_with_key,
    with_key,
};
use crate::keywords::views;
use crate::text::occurs_in;

verus! {

/// What a search keeps from its start while the text is edited: the
/// snapshot of both lists, the record selection, whether it is chained,
/// where it returns to, and the keyword trail.
pub open spec fn search_session_kept(start: Bibiman, now: Bibiman) -> bool {
    &&& now.entry_table.entry_table_at_search_start == start.entry_table.entry_table_at_search_start
    &&& now.entry_table.entry_selected_at_search_start == start.entry_table.entry_selected_at_search_start
    &&& now.tag_list.tag_list_at_search_start == start.tag_list.tag_list_at_search_start
    &&& now.tag_list.tag_selected_at_search_start == start.tag_list.tag_selected_at_search_start
    &&& now.search_struct.inner_search == start.search_struct.inner_search
    &&& now.tag_list.selected_keywords == start.tag_list.selected_keywords
    &&& now.current_area == start.current_area
    &&& now.former_area == start.former_area
    &&& now.main_biblio == start.main_biblio
}

/// Editing the search text keeps what the search started with.
pub proof fn editing_keeps_search_session(start: Bibiman, before: Bibiman, after: Bibiman, p: Seq<char>)
    requires
        search_session_kept(start, before),
        pattern_applied(before, after, p),
    ensures
        search_session_kept(start, after),
{
}

/// In every state the commands reach, each selection names a shown row
/// (none in an empty list) and each scrollbar spans exactly its list.
pub proof fn selections_and_scrollbars_fit(b: Bibiman)
    requires
        b.wf(),
    ensures
        match b.entry_table.entry_table_state.selected {
            Some(i) => i < b.entry_table.entry_table_items@.len(),
            None => true,
        },
        b.entry_table.entry_table_items@.len() == 0 ==> b.entry_table.entry_table_state.selected is None,
        match b.tag_list.tag_list_state.selected {
            Some(i) => i < b.tag_list.tag_list_items@.len(),
            None => true,
        },
        b.tag_list.tag_list_items@.len() == 0 ==> b.tag_list.tag_list_state.selected is None,
        b.entry_table.entry_scroll_state.content_length == b.entry_table.entry_table_items@.len(),
        b.tag_list.tag_scroll_state.content_length == b.tag_list.tag_list_items@.len(),
{
}

/// Resetting the lists a second time changes nothing that the first reset
/// showed: the same records, keywords and selections.
pub proof fn reset_is_idempotent(b0: Bibiman, b1: Bibiman, b2: Bibiman)
    requires
        is_base(b0.current_area),
        reset_post(b0, b1),
        reset_post(b1, b2),
    ensures
        b2.entry_table.entry_table_items@ == b1.entry_table.entry_table_items@,
        b2.tag_list.tag_list_items@ == b1.tag_list.tag_list_items@,
        b2.entry_table.entry_table_state == b1.entry_table.entry_table_state,
        b2.tag_list.tag_list_state == b1.tag_list.tag_list_state,
        b2.tag_list.selected_keywords@ == b1.tag_list.selected_keywords@,
        b2.current_area == b1.current_area,
{
    assert(b2.tag_list.selected_keywords@ =~= b1.tag_list.selected_keywords@);
}

/// Aborting a chained search, whatever was typed, shows again the records,
/// the keywords and both selections of the moment the search started, with
/// the keyword trail unchanged.
pub proof fn aborted_search_restores_view(b0: Bibiman, b1: Bibiman, bk: Bibiman, bn: Bibiman)
    requires
        b0.wf(),
        is_base(b0.current_area),
        search_entered(b0, b1),
        b1.search_struct.inner_search,
        search_session_kept(b1, bk),
        search_aborted(bk, bn),
    ensures
        bn.entry_table.entry_table_items@ == b0.entry_table.entry_table_items@,
        bn.entry_table.entry_table_state.selected == b0.entry_table.entry_table_state.selected,
        bn.tag_list.tag_list_items@ == b0.tag_list.tag_list_items@,
        bn.tag_list.tag_list_state.selected == b0.tag_list.tag_list_state.selected,
        bn.tag_list.selected_keywords == b0.tag_list.selected_keywords,
        bn.current_area == b0.current_area,
{
}

/// Aborting a search over the full, default-sorted lists (one that narrows
/// no keyword filter) shows again the records, the keywords and both
/// selections of the moment the search started, where no two records share
/// a citation key.
pub proof fn aborted_search_on_full_lists_restores_view(b0: Bibiman, b1: Bibiman, bk: Bibiman, bn: Bibiman)
    requires
        b0.wf(),
        is_base(b0.current_area),
        b0.entry_table.entry_table_items@ == default_entries(b0),
        b0.tag_list.tag_list_items@ == b0.main_biblio.keyword_list@,
        forall|i: int, j: int|
            0 <= i < j < b0.entry_table.entry_table_items@.len() ==> (#[trigger] b0.entry_table.entry_table_items@[i]).citekey@
                != (#[trigger] b0.entry_table.entry_table_items@[j]).citekey@,
        search_entered(b0, b1),
        !b1.search_struct.inner_search,
        search_session_kept(b1, bk),
        search_aborted(bk, bn),
    ensures
        bn.entry_table.entry_table_items@ == b0.entry_table.entry_table_items@,
        bn.entry_table.entry_table_state.selected == b0.entry_table.entry_table_state.selected,
        bn.tag_list.tag_list_items@ == b0.tag_list.tag_list_items@,
        bn.tag_list.tag_list_state.selected == b0.tag_list.tag_list_state.selected,
        bn.current_area == b0.current_area,
{
    let s = b0.entry_table.entry_table_items@;
    match b0.entry_table.entry_table_state.selected {
        Some(i) => {
            let k = s[i as int].citekey@;
            assert(is_first_with_key(s, k, i as int));
            let c = choose|c: int| is_first_with_key(s, k, c);
            if c < i {
                assert(s[c].citekey@ != s[i as int].citekey@);
            }
            if c > i {
                assert(s[i as int].citekey@ != s[c].citekey@);
            }
        },
        None => {},
    }
}

/// Deleting a character just typed shows again the list shown before it was
/// typed: matching always starts from the search snapshot, so nothing drifts.
pub proof fn retyping_restores_list(
    b0: Bibiman,
    b1: Bibiman,
    b2: Bibiman,
    b3: Bibiman,
    p: Seq<char>,
    c: char,
)
    requires
        pattern_applied(b0, b1, p),
        pattern_applied(b1, b2, p.push(c)),
        pattern_applied(b2, b3, p),
    ensures
        b3.entry_table.entry_table_items@ == b1.entry_table.entry_table_items@,
        views(b3.tag_list.tag_list_items@) == views(b1.tag_list.tag_list_items@),
        b3.search_struct.search_string@ == b1.search_struct.search_string@,
{
}

/// After a keyword filter, a search typed and confirmed shows exactly the
/// keyword-filtered records that match the search text.
pub proof fn chained_search_composes_with_keyword_filter(
    b0: Bibiman,
    b1: Bibiman,
    b2: Bibiman,
    bk: Bibiman,
    b3: Bibiman,
    b4: Bibiman,
    kw: Seq<char>,
    p: Seq<char>,
    r: EntryTableItem,
)
    requires
        keyword_filtered(b0, b1, kw),
        search_entered(b1, b2),
        search_session_kept(b2, bk),
        pattern_applied(bk, b3, p),
        search_confirmed(b3, b4),
    ensures
        b2.search_struct.inner_search,
        b4.entry_table.entry_table_items@.contains(r) <==> (b0.entry_table.entry_table_items@.contains(
            r,
        ) && occurs_in(kw, r.keywords@) && entry_matches(p, r)),
{
    assert(views(b1.tag_list.selected_keywords@).len() > 0);
    let snap = bk.entry_table.entry_table_at_search_start@;
    assert(snap == b1.entry_table.entry_table_items@);
    lemma_rank_contains(p, entries_matching(p, snap), r);
    lemma_matching_contains(p, snap, r);
    lemma_keyword_filter_contains(kw, b0.entry_table.entry_table_items@, r);
}

/// Sorting by a column keeps the records of equal key in their relative
/// order.
pub proof fn sort_keeps_ties_in_order(t0: EntryTable, t1: EntryTable, toggle: bool, kv: Seq<char>)
    requires
        sorted_from(t0, t1, toggle),
    ensures
        with_key(t1.entry_table_items@, column_key(t0.entry_table_selected_column), kv) == with_key(
            t0.entry_table_items@,
            column_key(t0.entry_table_selected_column),
            kv,
        ),
{
    lemma_sort_with_key(
        t0.entry_table_items@,
        column_key(t0.entry_table_selected_column),
        t1.entry_table_reversed_sort,
        kv,
    );
}

/// Records of equal key at positions `i < j` before a sort by a column stand
/// in that order after it.
pub proof fn sort_keeps_tie_positions(t0: EntryTable, t1: EntryTable, toggle: bool, i: int, j: int)
    requires
        sorted_from(t0, t1, toggle),
        0 <= i < j < t0.entry_table_items@.len(),
        column_key(t0.entry_table_selected_column)(t0.entry_table_items@[i]) == column_key(
            t0.entry_table_selected_column,
        )(t0.entry_table_items@[j]),
    ensures
        exists|p: int, q: int|
            0 <= p < q < t1.entry_table_items@.len() && #[trigger] t1.entry_table_items@[p]
                == t0.entry_table_items@[i] && #[trigger] t1.entry_table_items@[q] == t0.entry_table_items@[j],
{
    let (p, q) = lemma_sort_keeps_tie_positions(
        t0.entry_table_items@,
        column_key(t0.entry_table_selected_column),
        t1.entry_table_reversed_sort,
        i,
        j,
    );
    assert(t1.entry_table_items@[p] == t0.entry_table_items@[i]);
}

/// Sorting twice by the same column with the toggle sorts the second time
/// the other way round; where the column was already the sorted one the
/// direction ends as it began. The records end in their order from before
/// the first sort wherever that order already was the final one.
pub proof fn toggled_sort_twice(t0: EntryTable, t1: EntryTable, t2: EntryTable)
    requires
        sorted_from(t0, t1, true),
        sorted_from(t1, t2, true),
    ensures
        t2.entry_table_reversed_sort == !t1.entry_table_reversed_sort,
        t0.entry_table_selected_column == t0.entry_table_sorted_by_col ==> t2.entry_table_reversed_sort
            == t0.entry_table_reversed_sort,
        in_order(
            t0.entry_table_items@,
            column_key(t0.entry_table_selected_column),
            t2.entry_table_reversed_sort,
        ) ==> t2.entry_table_items@ == t0.entry_table_items@,
{
    let key = column_key(t0.entry_table_selected_column);
    let d2 = t2.entry_table_reversed_sort;
    let s0 = t0.entry_table_items@;
    let s1 = t1.entry_table_items@;
    let s2 = t2.entry_table_items@;
    if in_order(s0, key, d2) {
        lemma_sort_in_order(s1, key, d2);
        assert forall|kv: Seq<char>| #[trigger] with_key(s2, key, kv) == with_key(s0, key, kv) by {
            lemma_sort_with_key(s1, key, d2, kv);
            lemma_sort_with_key(s0, key, t1.entry_table_reversed_sort, kv);
        }
        lemma_in_order_unique(s2, s0, key, d2);
    }
}

} // verus!
