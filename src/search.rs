use vstd::prelude::*;
use crate::entries::{search_text, EntryTableItem};
use crate::keywords::views;
use crate::sort::lemma_push_contains;
use crate::text::{chars_of, contains_chars, occurs_in};
use nucleo_matcher::pattern::{CaseMatching, Normalization, Pattern};
use nucleo_matcher::{Config, Matcher, Utf32Str};

verus! {

/// The score that nucleo's fuzzy matcher gives `text` for `pattern`, or
/// `None` where it does not match.
pub uninterp spec fn fuzzy_score(pattern: Seq<char>, text: Seq<char>) -> Option<u32>;

/// The longest search pattern the matcher is handed: nucleo scores a word
/// in a 16-bit sum, which a word this long cannot overflow.
pub const MAX_PATTERN_LEN: usize = 2048;

/// Relies on nucleo_matcher's `Pattern::parse` (case ignored, smart
/// normalization) and `Pattern::score` with the default configuration: the
/// score depends on the two texts alone, and a pattern with no word in it
/// matches every text with score 0. Longer patterns can overflow the
/// matcher's 16-bit score of a word, so they are not handed to it.
#[verifier::external_body]
fn fuzzy_match(pattern: &str, text: &str) -> (r: Option<u32>)
    requires
        pattern@.len() <= MAX_PATTERN_LEN,
    ensures
        r == fuzzy_score(pattern@, text@),
        pattern@.len() == 0 ==> r == Some(0u32),
{
    let mut matcher = Matcher::new(Config::DEFAULT);
    let mut buf = Vec::new();
    let needle = Pattern::parse(pattern, CaseMatching::Ignore, Normalization::Smart);
    needle.score(Utf32Str::new(text, &mut buf), &mut matcher)
}

/// A record matches a search pattern when the fuzzy matcher accepts its
/// search text.
pub open spec fn entry_matches(pattern: Seq<char>, e: EntryTableItem) -> bool {
    fuzzy_score(pattern, search_text(e)) is Some
}

/// The records of `s` that match `pattern`, in their order.
pub open spec fn entries_matching(pattern: Seq<char>, s: Seq<EntryTableItem>) -> Seq<EntryTableItem>
    decreases s.len(),
{
    if s.len() == 0 {
        s
    } else {
        let r = entries_matching(pattern, s.drop_last());
        if entry_matches(pattern, s.last()) {
            r.push(s.last())
        } else {
            r
        }
    }
}

/// The score of a record that matches `pattern`.
pub open spec fn score_of(pattern: Seq<char>, e: EntryTableItem) -> u32 {
    fuzzy_score(pattern, search_text(e))->Some_0
}

/// Inserts `x` behind every record scoring at least as well.
pub open spec fn insert_by_score(pattern: Seq<char>, t: Seq<EntryTableItem>, x: EntryTableItem) -> Seq<EntryTableItem>
    decreases t.len(),
{
    if t.len() == 0 {
        seq![x]
    } else if score_of(pattern, t.last()) >= score_of(pattern, x) {
        t.push(x)
    } else {
        insert_by_score(pattern, t.drop_last(), x).push(t.last())
    }
}

/// `s` ordered by descending score, records of equal score in their order.
pub open spec fn rank_by_score(pattern: Seq<char>, s: Seq<EntryTableItem>) -> Seq<EntryTableItem>
    decreases s.len(),
{
    if s.len() == 0 {
        s
    } else {
        insert_by_score(pattern, rank_by_score(pattern, s.drop_last()), s.last())
    }
}

/// The records of `s` that match `pattern`, best match first, records of
/// equal score in their order in `s`.
pub open spec fn ranked_matches(pattern: Seq<char>, s: Seq<EntryTableItem>) -> Seq<EntryTableItem> {
    rank_by_score(pattern, entries_matching(pattern, s))
}

proof fn lemma_insert_score_at(pattern: Seq<char>, t: Seq<EntryTableItem>, x: EntryTableItem, p: int)
    requires
        0 <= p <= t.len(),
        forall|q: int| p <= q < t.len() ==> score_of(pattern, #[trigger] t[q]) < score_of(pattern, x),
        p == 0 || score_of(pattern, t[p - 1]) >= score_of(pattern, x),
    ensures
        insert_by_score(pattern, t, x) == t.subrange(0, p).push(x) + t.subrange(p, t.len() as int),
    decreases t.len(),
{
    if t.len() == p {
        if p == 0 {
            assert(t.subrange(0, p).push(x) + t.subrange(p, t.len() as int) =~= seq![x]);
        } else {
            assert(t.subrange(0, p).push(x) + t.subrange(p, t.len() as int) =~= t.push(x));
        }
    } else {
        let t2 = t.drop_last();
        assert(score_of(pattern, t[t.len() - 1]) < score_of(pattern, x));
        assert forall|q: int| p <= q < t2.len() implies score_of(pattern, #[trigger] t2[q]) < score_of(pattern, x) by {
            assert(t2[q] == t[q]);
        }
        if p > 0 {
            assert(t2[p - 1] == t[p - 1]);
        }
        lemma_insert_score_at(pattern, t2, x, p);
        assert(t2.subrange(0, p).push(x) + t2.subrange(p, t2.len() as int) + seq![t.last()]
            =~= t.subrange(0, p).push(x) + t.subrange(p, t.len() as int));
    }
}

proof fn lemma_insert_score_contains(pattern: Seq<char>, t: Seq<EntryTableItem>, x: EntryTableItem, y: EntryTableItem)
    ensures
        insert_by_score(pattern, t, x).contains(y) <==> (t.contains(y) || y == x),
    decreases t.len(),
{
    if t.len() > 0 {
        let t2 = t.drop_last();
        assert(t =~= t2.push(t.last()));
        lemma_push_contains(t2, t.last(), y);
        lemma_push_contains(t2, x, y);
        if score_of(pattern, t.last()) >= score_of(pattern, x) {
            lemma_push_contains(t, x, y);
        } else {
            lemma_insert_score_contains(pattern, t2, x, y);
            lemma_push_contains(insert_by_score(pattern, t2, x), t.last(), y);
        }
    } else {
        lemma_push_contains(t, x, y);
        assert(t.push(x) =~= seq![x]);
    }
}

/// Ranking keeps exactly the records that were there.
pub proof fn lemma_rank_contains(pattern: Seq<char>, s: Seq<EntryTableItem>, y: EntryTableItem)
    ensures
        rank_by_score(pattern, s).contains(y) <==> s.contains(y),
    decreases s.len(),
{
    if s.len() > 0 {
        let s2 = s.drop_last();
        lemma_rank_contains(pattern, s2, y);
        lemma_insert_score_contains(pattern, rank_by_score(pattern, s2), s.last(), y);
        assert(s =~= s2.push(s.last()));
        lemma_push_contains(s2, s.last(), y);
    }
}

proof fn lemma_rank_equal_scores(pattern: Seq<char>, s: Seq<EntryTableItem>)
    requires
        forall|k: int| 0 <= k < s.len() ==> score_of(pattern, #[trigger] s[k]) == 0,
    ensures
        rank_by_score(pattern, s) == s,
    decreases s.len(),
{
    if s.len() > 0 {
        let s2 = s.drop_last();
        assert forall|k: int| 0 <= k < s2.len() implies score_of(pattern, #[trigger] s2[k]) == 0 by {
            assert(s2[k] == s[k]);
        }
        lemma_rank_equal_scores(pattern, s2);
        assert(score_of(pattern, s[s.len() - 1]) == 0);
        if s2.len() > 0 {
            assert(score_of(pattern, s2[s2.len() - 1]) == 0);
        }
        assert(s2.push(s.last()) =~= s);
        if s2.len() == 0 {
            assert(seq![s.last()] =~= s);
        }
    }
}

/// Orders `items` by descending score (`scores` holds one per item and is
/// moved along), keeping items of equal score in their order.
fn rank_by_score_exec(items: &mut Vec<EntryTableItem>, scores: &mut Vec<u32>, Ghost(pattern): Ghost<Seq<char>>)
    requires
        old(scores)@.len() == old(items)@.len(),
        forall|j: int| 0 <= j < old(items)@.len() ==> #[trigger] old(scores)@[j] == score_of(pattern, old(items)@[j]),
    ensures
        final(items)@ == rank_by_score(pattern, old(items)@),
{
    let ghost orig = items@;
    let n = items.len();
    let mut i: usize = 0;
    assert(orig.subrange(0, 0) =~= Seq::<EntryTableItem>::empty());
    assert(items@.subrange(0, 0) =~= Seq::<EntryTableItem>::empty());
    while i < n
        invariant
            n == items@.len(),
            n == orig.len(),
            scores@.len() == n,
            i <= n,
            forall|j: int| 0 <= j < n ==> #[trigger] scores@[j] == score_of(pattern, items@[j]),
            items@.subrange(0, i as int) == rank_by_score(pattern, orig.subrange(0, i as int)),
            items@.subrange(i as int, n as int) == orig.subrange(i as int, n as int),
        decreases n - i,
    {
        let ghost t = items@.subrange(0, i as int);
        let ghost x = items@[i as int];
        assert(x == orig[i as int]) by {
            assert(items@.subrange(i as int, n as int)[0] == orig.subrange(i as int, n as int)[0]);
        }
        let mut p: usize = i;
        while p > 0 && scores[p - 1] < scores[i]
            invariant
                i < n,
                n == items@.len(),
                scores@.len() == n,
                p <= i,
                t == items@.subrange(0, i as int),
                x == items@[i as int],
                forall|j: int| 0 <= j < n ==> #[trigger] scores@[j] == score_of(pattern, items@[j]),
                forall|q: int| p <= q < i ==> score_of(pattern, #[trigger] t[q]) < score_of(pattern, x),
            decreases p,
        {
            assert(t[p - 1] == items@[p - 1]);
            p = p - 1;
        }
        proof {
            if p > 0 {
                assert(t[p - 1] == items@[p - 1]);
            }
            lemma_insert_score_at(pattern, t, x, p as int);
            let o = orig.subrange(0, i + 1);
            assert(o.drop_last() =~= orig.subrange(0, i as int));
            assert(o.last() == x);
        }
        let ghost before = items@;
        let ghost sbefore = scores@;
        let it = items.remove(i);
        let sc = scores.remove(i);
        items.insert(p, it);
        scores.insert(p, sc);
        proof {
            assert(items@ =~= before.subrange(0, p as int).push(x) + before.subrange(p as int, i as int)
                + before.subrange(i + 1, n as int));
            assert(scores@ =~= sbefore.subrange(0, p as int).push(sbefore[i as int]) + sbefore.subrange(p as int, i as int)
                + sbefore.subrange(i + 1, n as int));
            assert forall|j: int| 0 <= j < n implies #[trigger] scores@[j] == score_of(pattern, items@[j]) by {
                if j < p {
                    assert(scores@[j] == sbefore[j] && items@[j] == before[j]);
                } else if j == p {
                } else if j <= i {
                    assert(scores@[j] == sbefore[j - 1] && items@[j] == before[j - 1]);
                } else {
                    assert(scores@[j] == sbefore[j] && items@[j] == before[j]);
                }
            }
            assert(items@.subrange(0, i + 1) =~= t.subrange(0, p as int).push(x) + t.subrange(p as int, t.len() as int));
            assert(items@.subrange(i + 1, n as int) =~= orig.subrange(i + 1, n as int)) by {
                assert(before.subrange(i as int, n as int).subrange(1, n - i) =~= before.subrange(i + 1, n as int));
                assert(orig.subrange(i as int, n as int).subrange(1, n - i) =~= orig.subrange(i + 1, n as int));
            }
        }
        i = i + 1;
    }
    assert(items@.subrange(0, n as int) =~= items@);
    assert(orig.subrange(0, n as int) =~= orig);
}

/// The keywords of `s` that match `pattern`, in their order.
pub open spec fn keywords_matching(pattern: Seq<char>, s: Seq<Seq<char>>) -> Seq<Seq<char>>
    decreases s.len(),
{
    if s.len() == 0 {
        s
    } else {
        let r = keywords_matching(pattern, s.drop_last());
        if fuzzy_score(pattern, s.last()) is Some {
            r.push(s.last())
        } else {
            r
        }
    }
}

/// The records of `s` whose keyword field holds `keyword` (a case-sensitive
/// substring test on the whole field), in their order.
pub open spec fn entries_with_keyword(keyword: Seq<char>, s: Seq<EntryTableItem>) -> Seq<EntryTableItem>
    decreases s.len(),
{
    if s.len() == 0 {
        s
    } else {
        let r = entries_with_keyword(keyword, s.drop_last());
        if occurs_in(keyword, s.last().keywords@) {
            r.push(s.last())
        } else {
            r
        }
    }
}

/// A record is among the matches exactly when it is in the list and matches.
pub proof fn lemma_matching_contains(pattern: Seq<char>, s: Seq<EntryTableItem>, e: EntryTableItem)
    ensures
        entries_matching(pattern, s).contains(e) <==> (s.contains(e) && entry_matches(pattern, e)),
    decreases s.len(),
{
    if s.len() > 0 {
        let s2 = s.drop_last();
        lemma_matching_contains(pattern, s2, e);
        assert(s =~= s2.push(s.last()));
        lemma_push_contains(s2, s.last(), e);
        lemma_push_contains(entries_matching(pattern, s2), s.last(), e);
    }
}

/// A record is among the filtered ones exactly when it is in the list and
/// its keyword field holds the keyword.
pub proof fn lemma_keyword_filter_contains(keyword: Seq<char>, s: Seq<EntryTableItem>, e: EntryTableItem)
    ensures
        entries_with_keyword(keyword, s).contains(e) <==> (s.contains(e) && occurs_in(
            keyword,
            e.keywords@,
        )),
    decreases s.len(),
{
    if s.len() > 0 {
        let s2 = s.drop_last();
        lemma_keyword_filter_contains(keyword, s2, e);
        assert(s =~= s2.push(s.last()));
        lemma_push_contains(s2, s.last(), e);
        lemma_push_contains(entries_with_keyword(keyword, s2), s.last(), e);
    }
}

/// The text of the search bar, whether the search narrows a keyword-filtered
/// view, and the keywords of the current records.
#[derive(Debug)]
pub struct BibiSearch {
    pub search_string: String,
    pub inner_search: bool,
    pub filtered_tag_list: Vec<String>,
}

impl Default for BibiSearch {
    fn default() -> (r: Self)
        ensures
            r.search_string@.len() == 0,
            !r.inner_search,
            r.filtered_tag_list@.len() == 0,
    {
        BibiSearch { search_string: String::new(), inner_search: false, filtered_tag_list: Vec::new() }
    }
}

impl BibiSearch {
    /// The text a search pattern is matched against.
    pub fn convert_to_string(inner_vec: &EntryTableItem) -> (r: String)
        ensures
            r@ == search_text(*inner_vec),
    {
        inner_vec.search_string()
    }

    /// The records of `orig_list` that match `search_pattern`, best match
    /// first; records of equal score keep their list order.
    pub fn search_entry_list(search_pattern: &str, orig_list: Vec<EntryTableItem>) -> (r: Vec<
        EntryTableItem,
    >)
        requires
            search_pattern@.len() <= MAX_PATTERN_LEN,
        ensures
            r@ == ranked_matches(search_pattern@, orig_list@),
            search_pattern@.len() == 0 ==> r@ == orig_list@,
    {
        let ghost p = search_pattern@;
        let mut r: Vec<EntryTableItem> = Vec::new();
        let mut scores: Vec<u32> = Vec::new();
        let mut i: usize = 0;
        while i < orig_list.len()
            invariant
                p == search_pattern@,
                p.len() <= MAX_PATTERN_LEN,
                i <= orig_list@.len(),
                r@ == entries_matching(p, orig_list@.subrange(0, i as int)),
                scores@.len() == r@.len(),
                forall|k: int| 0 <= k < r@.len() ==> #[trigger] scores@[k] == score_of(p, r@[k]),
                p.len() == 0 ==> r@ == orig_list@.subrange(0, i as int),
                p.len() == 0 ==> forall|k: int| 0 <= k < r@.len() ==> #[trigger] scores@[k] == 0,
            decreases orig_list@.len() - i,
        {
            proof {
                let q = orig_list@.subrange(0, i + 1);
                assert(q.drop_last() =~= orig_list@.subrange(0, i as int));
            }
            let text = Self::convert_to_string(&orig_list[i]);
            match fuzzy_match(search_pattern, text.as_str()) {
                Some(sc) => {
                    r.push(orig_list[i].duplicate());
                    scores.push(sc);
                },
                None => {},
            }
            assert(p.len() == 0 ==> r@ =~= orig_list@.subrange(0, i + 1));
            i = i + 1;
        }
        assert(orig_list@.subrange(0, orig_list@.len() as int) =~= orig_list@);
        let ghost matched = r@;
        let ghost sc0 = scores@;
        rank_by_score_exec(&mut r, &mut scores, Ghost(p));
        proof {
            if p.len() == 0 {
                assert forall|k: int| 0 <= k < matched.len() implies score_of(p, #[trigger] matched[k]) == 0 by {
                    assert(sc0[k] == score_of(p, matched[k]));
                    assert(sc0[k] == 0);
                }
                lemma_rank_equal_scores(p, matched);
            }
        }
        r
    }

    /// The keywords of `orig_list` that match `search_pattern`, in list order.
    pub fn search_tag_list(search_pattern: &str, orig_list: Vec<String>) -> (r: Vec<String>)
        requires
            search_pattern@.len() <= MAX_PATTERN_LEN,
        ensures
            views(r@) == keywords_matching(search_pattern@, views(orig_list@)),
            search_pattern@.len() == 0 ==> r@ == orig_list@,
    {
        let ghost s = views(orig_list@);
        let mut r: Vec<String> = Vec::new();
        let mut i: usize = 0;
        while i < orig_list.len()
            invariant
                s == views(orig_list@),
                search_pattern@.len() <= MAX_PATTERN_LEN,
                i <= orig_list@.len(),
                views(r@) == keywords_matching(search_pattern@, s.subrange(0, i as int)),
                search_pattern@.len() == 0 ==> r@ == orig_list@.subrange(0, i as int),
            decreases orig_list@.len() - i,
        {
            proof {
                let q = s.subrange(0, i + 1);
                assert(q.drop_last() =~= s.subrange(0, i as int));
                assert(q.last() == orig_list@[i as int]@);
            }
            if fuzzy_match(search_pattern, orig_list[i].as_str()).is_some() {
                let ghost before = views(r@);
                r.push(orig_list[i].clone());
                assert(views(r@) =~= before.push(orig_list@[i as int]@));
            }
            assert(search_pattern@.len() == 0 ==> r@ =~= orig_list@.subrange(0, i + 1));
            i = i + 1;
        }
        assert(s.subrange(0, s.len() as int) =~= s);
        r
    }

    /// The records of `orig_list` whose keyword field holds `keyword`.
    pub fn filter_entries_by_tag(keyword: &str, orig_list: &Vec<EntryTableItem>) -> (r: Vec<
        EntryTableItem,
    >)
        ensures
            r@ == entries_with_keyword(keyword@, orig_list@),
    {
        let needle = chars_of(keyword);
        let mut r: Vec<EntryTableItem> = Vec::new();
        let mut i: usize = 0;
        while i < orig_list.len()
            invariant
                needle@ == keyword@,
                i <= orig_list@.len(),
                r@ == entries_with_keyword(keyword@, orig_list@.subrange(0, i as int)),
            decreases orig_list@.len() - i,
        {
            proof {
                let q = orig_list@.subrange(0, i + 1);
                assert(q.drop_last() =~= orig_list@.subrange(0, i as int));
            }
            let hay = chars_of(orig_list[i].keywords.as_str());
            if contains_chars(&hay, &needle) {
                r.push(orig_list[i].duplicate());
            }
            i = i + 1;
        }
        assert(orig_list@.subrange(0, orig_list@.len() as int) =~= orig_list@);
        r
    }
}

} // verus!
