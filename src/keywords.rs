use vstd::prelude::*;
use crate::entries::EntryTableItem;
use crate::scroll::{ListState, ScrollbarState};
use crate::sort::{in_order, insert_sorted, lemma_sort_in_order, sort_by_keys, stable_sort};
use crate::text::{
    chars_of, dedup_seq, dedup_strings, lemma_dedup_contains, lemma_dedup_distinct, lower_of, lowercase, split_at_char, split_on, trim,
    trimmed,
};

verus! {

/// The trimmed pieces that are not empty.
pub open spec fn trim_nonempty(ps: Seq<Seq<char>>) -> Seq<Seq<char>>
    decreases ps.len(),
{
    if ps.len() == 0 {
        Seq::empty()
    } else {
        let r = trim_nonempty(ps.drop_last());
        let t = trimmed(ps.last());
        if t.len() > 0 {
            r.push(t)
        } else {
            r
        }
    }
}

/// The keywords of one keyword field: its comma-separated pieces, trimmed,
/// empty ones left out.
pub open spec fn keyword_pieces(kw: Seq<char>) -> Seq<Seq<char>> {
    trim_nonempty(split_on(kw, ','))
}

/// The keywords of all records, in record order, repeats included.
pub open spec fn all_keywords(items: Seq<EntryTableItem>) -> Seq<Seq<char>>
    decreases items.len(),
{
    if items.len() == 0 {
        Seq::empty()
    } else {
        all_keywords(items.drop_last()) + keyword_pieces(items.last().keywords@)
    }
}

/// Case-insensitive sort key of a keyword.
pub open spec fn lower_key() -> spec_fn(Seq<char>) -> Seq<char> {
    |k: Seq<char>| lower_of(k)
}

/// The keyword list derived from a set of records: all their keywords,
/// sorted case-insensitively (stable), each kept at its first occurrence.
pub open spec fn keyword_list_of(items: Seq<EntryTableItem>) -> Seq<Seq<char>> {
    dedup_seq(stable_sort(all_keywords(items), lower_key(), false))
}

proof fn lemma_dedup_in_order(s: Seq<Seq<char>>)
    requires
        in_order(s, lower_key(), false),
    ensures
        in_order(dedup_seq(s), lower_key(), false),
    decreases s.len(),
{
    if s.len() > 0 {
        let s2 = s.drop_last();
        assert(in_order(s2, lower_key(), false)) by {
            assert forall|i: int, j: int| 0 <= i < j < s2.len() implies crate::sort::goes_before(
                lower_key()(#[trigger] s2[i]),
                lower_key()(#[trigger] s2[j]),
                false,
            ) by {
                assert(s2[i] == s[i] && s2[j] == s[j]);
            }
        }
        lemma_dedup_in_order(s2);
        let r = dedup_seq(s2);
        if !r.contains(s.last()) {
            let t = r.push(s.last());
            assert forall|i: int, j: int| 0 <= i < j < t.len() implies crate::sort::goes_before(
                lower_key()(#[trigger] t[i]),
                lower_key()(#[trigger] t[j]),
                false,
            ) by {
                if j == r.len() {
                    lemma_dedup_contains(s2, t[i]);
                    assert(r.contains(r[i]));
                    let m = choose|m: int| 0 <= m < s2.len() && s2[m] == t[i];
                    assert(s[m] == t[i]);
                    assert(s[s.len() - 1] == t[j]);
                } else {
                    assert(t[i] == r[i] && t[j] == r[j]);
                }
            }
        }
    }
}

/// The keyword list holds each keyword once, in case-insensitive order.
pub proof fn lemma_keyword_list_distinct_sorted(items: Seq<EntryTableItem>)
    ensures
        forall|i: int, j: int|
            0 <= i < j < keyword_list_of(items).len() ==> keyword_list_of(items)[i] != keyword_list_of(items)[j],
        in_order(keyword_list_of(items), lower_key(), false),
{
    let s = stable_sort(all_keywords(items), lower_key(), false);
    lemma_dedup_distinct(s);
    lemma_sort_in_order(all_keywords(items), lower_key(), false);
    lemma_dedup_in_order(s);
}

/// The views of a list of strings.
pub open spec fn views(v: Seq<String>) -> Seq<Seq<char>> {
    v.map_values(|s: String| s@)
}

/// The list of keywords and the state of its widget.
#[derive(Debug)]
pub struct TagList {
    pub tag_list_items: Vec<String>,
    pub tag_list_at_search_start: Vec<String>,
    pub tag_selected_at_search_start: Option<usize>,
    pub tag_list_state: ListState,
    pub tag_scroll_state: ScrollbarState,
    pub selected_keywords: Vec<String>,
}

/// One keyword of the list.
#[derive(Debug)]
pub struct TagListItem {
    pub keyword: String,
}

impl TagListItem {
    pub fn new(info: &str) -> (r: Self)
        ensures
            r.keyword@ == info@,
    {
        TagListItem { keyword: info.to_string() }
    }
}

impl TagList {
    /// A list of the given keywords with nothing selected, no search
    /// snapshot and no keyword filter applied.
    pub fn new(keyword_list: Vec<String>) -> (r: Self)
        ensures
            r.tag_list_items@ == keyword_list@,
            r.tag_list_at_search_start@.len() == 0,
            r.tag_selected_at_search_start is None,
            r.tag_list_state.selected is None,
            r.tag_scroll_state.content_length == keyword_list@.len(),
            r.tag_scroll_state.position == 0,
            r.selected_keywords@.len() == 0,
    {
        let n = keyword_list.len();
        TagList {
            tag_list_items: keyword_list,
            tag_list_at_search_start: Vec::new(),
            tag_selected_at_search_start: None,
            tag_list_state: ListState { selected: None },
            tag_scroll_state: ScrollbarState::new(n),
            selected_keywords: Vec::new(),
        }
    }
}

proof fn lemma_insert_views(t: Seq<String>, x: String)
    ensures
        views(insert_sorted(t, x, |s: String| lower_of(s@), false)) == insert_sorted(
            views(t),
            x@,
            lower_key(),
            false,
        ),
    decreases t.len(),
{
    let kv = |s: String| lower_of(s@);
    if t.len() > 0 {
        lemma_insert_views(t.drop_last(), x);
        assert(views(t.drop_last()) =~= views(t).drop_last());
        if crate::sort::goes_before(kv(t.last()), kv(x), false) {
            assert(views(t.push(x)) =~= views(t).push(x@));
        } else {
            let r = insert_sorted(t.drop_last(), x, kv, false);
            assert(views(r.push(t.last())) =~= views(r).push(t.last()@));
        }
    } else {
        assert(views(seq![x]) =~= seq![x@]);
    }
}

proof fn lemma_sort_views(s: Seq<String>)
    ensures
        views(stable_sort(s, |s: String| lower_of(s@), false)) == stable_sort(views(s), lower_key(), false),
    decreases s.len(),
{
    if s.len() > 0 {
        lemma_sort_views(s.drop_last());
        assert(views(s.drop_last()) =~= views(s).drop_last());
        lemma_insert_views(stable_sort(s.drop_last(), |s: String| lower_of(s@), false), s.last());
    }
}

/// Appends the keywords of one keyword field to `out`.
fn push_keywords(out: &mut Vec<String>, kw: &str)
    ensures
        views(final(out)@) == views(old(out)@) + keyword_pieces(kw@),
{
    let parts = split_at_char(kw, ',');
    let ghost ps = views(parts@);
    let ghost start = views(out@);
    let mut i: usize = 0;
    assert(ps.subrange(0, 0) =~= Seq::<Seq<char>>::empty());
    assert(start + trim_nonempty(ps.subrange(0, 0)) =~= start);
    while i < parts.len()
        invariant
            ps == views(parts@),
            ps == split_on(kw@, ','),
            i <= parts@.len(),
            views(out@) == start + trim_nonempty(ps.subrange(0, i as int)),
        decreases parts@.len() - i,
    {
        let t = trim(parts[i].as_str());
        proof {
            let q = ps.subrange(0, i + 1);
            assert(q.drop_last() =~= ps.subrange(0, i as int));
            assert(q.last() == parts@[i as int]@);
        }
        if t.as_str().unicode_len() > 0 {
            let ghost before = views(out@);
            out.push(t);
            assert(views(out@) =~= before.push(t@));
        }
        i = i + 1;
    }
    assert(ps.subrange(0, parts@.len() as int) =~= ps);
}

/// The keyword list derived from `items` (see `keyword_list_of`): each
/// keyword once, in case-insensitive order.
pub fn collect_keywords(items: &Vec<EntryTableItem>) -> (r: Vec<String>)
    ensures
        views(r@) == keyword_list_of(items@),
        forall|i: int, j: int| 0 <= i < j < r@.len() ==> r@[i]@ != r@[j]@,
        in_order(views(r@), lower_key(), false),
{
    proof {
        lemma_keyword_list_distinct_sorted(items@);
    }
    let mut all: Vec<String> = Vec::new();
    let mut i: usize = 0;
    while i < items.len()
        invariant
            i <= items@.len(),
            views(all@) == all_keywords(items@.subrange(0, i as int)),
        decreases items@.len() - i,
    {
        proof {
            let q = items@.subrange(0, i + 1);
            assert(q.drop_last() =~= items@.subrange(0, i as int));
        }
        push_keywords(&mut all, items[i].keywords.as_str());
        i = i + 1;
    }
    assert(items@.subrange(0, items@.len() as int) =~= items@);
    let mut keys: Vec<Vec<char>> = Vec::new();
    let mut j: usize = 0;
    while j < all.len()
        invariant
            j <= all@.len(),
            keys@.len() == j,
            forall|m: int| 0 <= m < j ==> (#[trigger] keys@[m])@ == lower_of(all@[m]@),
        decreases all@.len() - j,
    {
        let low = lowercase(all[j].as_str());
        keys.push(chars_of(low.as_str()));
        j = j + 1;
    }
    let ghost before = all@;
    sort_by_keys(&mut all, &mut keys, false, Ghost(|s: String| lower_of(s@)));
    proof {
        lemma_sort_views(before);
    }
    let r = dedup_strings(all);
    proof {
        assert forall|i: int, j: int| 0 <= i < j < r@.len() implies r@[i]@ != r@[j]@ by {
            assert(views(r@)[i] == r@[i]@ && views(r@)[j] == r@[j]@);
        }
    }
    r
}

} // verus!
