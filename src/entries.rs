use vstd::prelude::*;
use vstd::string::*;
use crate::scroll::{first_row, first_row_exec, selection_fits, thumb_of, thumb_of_exec, ScrollbarState, TableState};
use crate::sort::{sort_by_keys, stable_sort};
use crate::text::{chars_of, contains_chars, lower_of, lowercase, occurs_in, push_char};

verus! {

/// The columns of the record table.
#[derive(Debug, Clone, Copy, PartialEq, Eq, Structural)]
pub enum EntryTableColumn {
    Authors,
    Title,
    Year,
    Pubtype,
}

/// One bibliographic record as the table shows it. The citation key is its
/// identity.
#[derive(Debug, Clone, PartialEq, Eq)]
pub struct EntryTableItem {
    pub authors: String,
    pub short_author: String,
    pub title: String,
    pub year: String,
    pub pubtype: String,
    pub keywords: String,
    pub citekey: String,
    pub abstract_text: String,
    pub doi_url: Option<String>,
    pub filepath: Option<String>,
    pub subtitle: Option<String>,
}

/// The text of a record in a column.
pub open spec fn column_text(e: EntryTableItem, col: EntryTableColumn) -> Seq<char> {
    match col {
        EntryTableColumn::Authors => e.authors@,
        EntryTableColumn::Title => e.title@,
        EntryTableColumn::Year => e.year@,
        EntryTableColumn::Pubtype => e.pubtype@,
    }
}

/// The sort key of a column: its text in lower case.
pub open spec fn column_key(col: EntryTableColumn) -> spec_fn(EntryTableItem) -> Seq<char> {
    |e: EntryTableItem| lower_of(column_text(e, col))
}

/// The text a search pattern is matched against: author, title, year,
/// publication type, keywords and citation key, joined by single spaces.
pub open spec fn search_text(e: EntryTableItem) -> Seq<char> {
    e.authors@ + " "@ + e.title@ + " "@ + e.year@ + " "@ + e.pubtype@ + " "@ + e.keywords@ + " "@
        + e.citekey@
}

/// The first index of a comma in `s`, when there is one.
pub open spec fn is_first_comma(s: Seq<char>, k: int) -> bool {
    0 <= k < s.len() && s[k] == ',' && forall|j: int| 0 <= j < k ==> s[j] != ','
}

/// Author column as shown: with several authors (a comma in the field),
/// the first one followed by `et al.` (and `(ed.)` for editors); empty
/// otherwise.
pub open spec fn short_author_of(a: Seq<char>) -> Seq<char> {
    if exists|k: int| is_first_comma(a, k) {
        let k = choose|k: int| is_first_comma(a, k);
        if occurs_in("(ed.)"@, a) {
            a.subrange(0, k) + " et al. (ed.)"@
        } else {
            a.subrange(0, k) + " et al."@
        }
    } else {
        Seq::empty()
    }
}

fn copy_opt(o: &Option<String>) -> (r: Option<String>)
    ensures
        r == *o,
{
    match o {
        Some(s) => Some(s.clone()),
        None => None,
    }
}

/// Copies a list of strings.
pub fn copy_strings(v: &Vec<String>) -> (r: Vec<String>)
    ensures
        r@ == v@,
{
    let mut r: Vec<String> = Vec::new();
    let mut i: usize = 0;
    while i < v.len()
        invariant
            i <= v@.len(),
            r@ == v@.subrange(0, i as int),
        decreases v@.len() - i,
    {
        r.push(v[i].clone());
        assert(r@ =~= v@.subrange(0, i + 1));
        i = i + 1;
    }
    assert(r@ =~= v@);
    r
}

/// Copies a list of records.
pub fn copy_items(v: &Vec<EntryTableItem>) -> (r: Vec<EntryTableItem>)
    ensures
        r@ == v@,
{
    let mut r: Vec<EntryTableItem> = Vec::new();
    let mut i: usize = 0;
    while i < v.len()
        invariant
            i <= v@.len(),
            r@ == v@.subrange(0, i as int),
        decreases v@.len() - i,
    {
        r.push(v[i].duplicate());
        assert(r@ =~= v@.subrange(0, i + 1));
        i = i + 1;
    }
    assert(r@ =~= v@);
    r
}

/// The sort keys of `items` in column `col`, one per record.
pub fn column_keys(items: &Vec<EntryTableItem>, col: EntryTableColumn) -> (r: Vec<Vec<char>>)
    ensures
        r@.len() == items@.len(),
        forall|j: int| 0 <= j < items@.len() ==> (#[trigger] r@[j])@ == column_key(col)(items@[j]),
{
    let mut r: Vec<Vec<char>> = Vec::new();
    let mut i: usize = 0;
    while i < items.len()
        invariant
            i <= items@.len(),
            r@.len() == i,
            forall|j: int| 0 <= j < i ==> (#[trigger] r@[j])@ == column_key(col)(items@[j]),
        decreases items@.len() - i,
    {
        let low = lowercase(items[i].column_str(col));
        r.push(chars_of(low.as_str()));
        i = i + 1;
    }
    r
}

impl EntryTableItem {
    /// A field-by-field copy.
    pub fn duplicate(&self) -> (r: Self)
        ensures
            r == *self,
    {
        EntryTableItem {
            authors: self.authors.clone(),
            short_author: self.short_author.clone(),
            title: self.title.clone(),
            year: self.year.clone(),
            pubtype: self.pubtype.clone(),
            keywords: self.keywords.clone(),
            citekey: self.citekey.clone(),
            abstract_text: self.abstract_text.clone(),
            doi_url: copy_opt(&self.doi_url),
            filepath: copy_opt(&self.filepath),
            subtitle: copy_opt(&self.subtitle),
        }
    }

    /// The text of the record in column `col`.
    pub fn column_str(&self, col: EntryTableColumn) -> (r: &str)
        ensures
            r@ == column_text(*self, col),
    {
        match col {
            EntryTableColumn::Authors => self.authors.as_str(),
            EntryTableColumn::Title => self.title.as_str(),
            EntryTableColumn::Year => self.year.as_str(),
            EntryTableColumn::Pubtype => self.pubtype.as_str(),
        }
    }

    /// The text a search pattern is matched against.
    pub fn search_string(&self) -> (r: String)
        ensures
            r@ == search_text(*self),
    {
        let mut s = self.authors.clone();
        s.append(" ");
        s.append(self.title.as_str());
        s.append(" ");
        s.append(self.year.as_str());
        s.append(" ");
        s.append(self.pubtype.as_str());
        s.append(" ");
        s.append(self.keywords.as_str());
        s.append(" ");
        s.append(self.citekey.as_str());
        proof {
            reveal_strlit(" ");
        }
        s
    }

    /// The texts of the four table columns; the author column is shortened
    /// to its first author when there are several (see `short_author_of`),
    /// which is also stored in `short_author`.
    pub fn ref_vec(&mut self) -> (r: Vec<String>)
        ensures
            final(self).short_author@ == short_author_of(old(self).authors@),
            *final(self) == (EntryTableItem { short_author: final(self).short_author, ..*old(self) }),
            r@.len() == 4,
            r@[0]@ == (if short_author_of(old(self).authors@).len() == 0 {
                old(self).authors@
            } else {
                short_author_of(old(self).authors@)
            }),
            r@[1]@ == old(self).title@,
            r@[2]@ == old(self).year@,
            r@[3]@ == old(self).pubtype@,
    {
        self.short_author = shorten_authors(self.authors.as_str());
        let mut r: Vec<String> = Vec::new();
        if self.short_author.unicode_len() == 0 {
            r.push(self.authors.clone());
        } else {
            r.push(self.short_author.clone());
        }
        r.push(self.title.clone());
        r.push(self.year.clone());
        r.push(self.pubtype.clone());
        r
    }

    pub fn authors(&self) -> (r: &str)
        ensures
            r@ == self.authors@,
    {
        self.authors.as_str()
    }

    pub fn title(&self) -> (r: &str)
        ensures
            r@ == self.title@,
    {
        self.title.as_str()
    }

    pub fn year(&self) -> (r: &str)
        ensures
            r@ == self.year@,
    {
        self.year.as_str()
    }

    pub fn pubtype(&self) -> (r: &str)
        ensures
            r@ == self.pubtype@,
    {
        self.pubtype.as_str()
    }

    pub fn citekey(&self) -> (r: &str)
        ensures
            r@ == self.citekey@,
    {
        self.citekey.as_str()
    }

    pub fn doi_url(&self) -> (r: &str)
        requires
            self.doi_url is Some,
        ensures
            r@ == self.doi_url->Some_0@,
    {
        match &self.doi_url {
            Some(s) => s.as_str(),
            None => "",
        }
    }

    pub fn filepath(&self) -> (r: &str)
        requires
            self.filepath is Some,
        ensures
            r@ == self.filepath->Some_0@,
    {
        match &self.filepath {
            Some(s) => s.as_str(),
            None => "",
        }
    }

    pub fn subtitle(&self) -> (r: &str)
        requires
            self.subtitle is Some,
        ensures
            r@ == self.subtitle->Some_0@,
    {
        match &self.subtitle {
            Some(s) => s.as_str(),
            None => "",
        }
    }
}

/// The shortened author column of an author field.
pub fn shorten_authors(authors: &str) -> (r: String)
    ensures
        r@ == short_author_of(authors@),
{
    let cs = chars_of(authors);
    let mut k: usize = 0;
    while k < cs.len() && cs[k] != ','
        invariant
            cs@ == authors@,
            k <= cs@.len(),
            forall|j: int| 0 <= j < k ==> cs@[j] != ',',
        decreases cs@.len() - k,
    {
        k = k + 1;
    }
    if k == cs.len() {
        assert(!exists|k: int| is_first_comma(authors@, k));
        return String::new();
    }
    assert(is_first_comma(authors@, k as int));
    proof {
        let c = choose|c: int| is_first_comma(authors@, c);
        if c < k {
            assert(cs@[c] != ',');
        }
        if c > k {
            assert(authors@[k as int] != ',');
        }
        assert(c == k);
    }
    let mut first = String::new();
    let mut i: usize = 0;
    while i < k
        invariant
            cs@ == authors@,
            k < cs@.len(),
            i <= k,
            first@ == authors@.subrange(0, i as int),
        decreases k - i,
    {
        push_char(&mut first, cs[i]);
        assert(first@ =~= authors@.subrange(0, i + 1));
        i = i + 1;
    }
    let ed = chars_of("(ed.)");
    if contains_chars(&cs, &ed) {
        first.append(" et al. (ed.)");
    } else {
        first.append(" et al.");
    }
    first
}

/// `i` is the first position in `s` of a record with citation key `k`.
pub open spec fn is_first_with_key(s: Seq<EntryTableItem>, k: Seq<char>, i: int) -> bool {
    0 <= i < s.len() && s[i].citekey@ == k && forall|j: int| 0 <= j < i ==> s[j].citekey@ != k
}

/// The citation key of the selected record, if a record is selected.
pub open spec fn key_at(s: Seq<EntryTableItem>, sel: Option<usize>) -> Option<Seq<char>> {
    match sel {
        Some(i) => if i < s.len() {
            Some(s[i as int].citekey@)
        } else {
            None
        },
        None => None,
    }
}

/// Where the record of citation key `key` stands in `s` (its first
/// occurrence); the first row where there is no such record.
pub open spec fn position_of_key(s: Seq<EntryTableItem>, key: Option<Seq<char>>) -> Option<usize> {
    match key {
        Some(k) => if exists|i: int| is_first_with_key(s, k, i) {
            Some((choose|i: int| is_first_with_key(s, k, i)) as usize)
        } else {
            first_row(s.len() as usize)
        },
        None => first_row(s.len() as usize),
    }
}

/// The records of the table, its search snapshot, the selected row and
/// column, the sort order and the scrollbars.
#[derive(Debug)]
pub struct EntryTable {
    pub entry_table_items: Vec<EntryTableItem>,
    pub entry_table_at_search_start: Vec<EntryTableItem>,
    pub entry_selected_at_search_start: Option<usize>,
    pub entry_table_selected_column: EntryTableColumn,
    pub entry_table_sorted_by_col: EntryTableColumn,
    pub entry_table_reversed_sort: bool,
    pub entry_table_state: TableState,
    pub entry_scroll_state: ScrollbarState,
    pub entry_info_scroll: u16,
    pub entry_info_scroll_state: ScrollbarState,
}

/// Whether sorting reverses the order: toggling flips it while the column
/// stays the sorted one; a newly chosen column sorts ascending.
pub open spec fn reversed_after(t: &EntryTable, toggle: bool) -> bool {
    if t.entry_table_selected_column != t.entry_table_sorted_by_col {
        false
    } else if toggle {
        !t.entry_table_reversed_sort
    } else {
        t.entry_table_reversed_sort
    }
}

/// `n` is the table `o` sorted by its selected column, with the toggle or
/// without.
pub open spec fn sorted_from(o: EntryTable, n: EntryTable, toggle: bool) -> bool {
    &&& n.entry_table_reversed_sort == reversed_after(&o, toggle)
    &&& n.entry_table_sorted_by_col == o.entry_table_selected_column
    &&& n.entry_table_selected_column == o.entry_table_selected_column
    &&& n.entry_table_items@ == stable_sort(
        o.entry_table_items@,
        column_key(o.entry_table_selected_column),
        n.entry_table_reversed_sort,
    )
}

impl EntryTable {
    /// The scrollbar spans the records and the selection names one of them.
    pub open spec fn wf(&self) -> bool {
        &&& self.entry_scroll_state.content_length == self.entry_table_items@.len()
        &&& selection_fits(self.entry_table_state.selected, self.entry_table_items@.len())
    }

    /// A table of `entry_list` sorted by author, first row selected.
    pub fn new(entry_list: &Vec<EntryTableItem>) -> (r: Self)
        ensures
            r.wf(),
            r.entry_table_items@ == stable_sort(entry_list@, column_key(EntryTableColumn::Authors), false),
            r.entry_table_at_search_start@.len() == 0,
            r.entry_selected_at_search_start is None,
            r.entry_table_selected_column == EntryTableColumn::Authors,
            r.entry_table_sorted_by_col == EntryTableColumn::Authors,
            !r.entry_table_reversed_sort,
            r.entry_table_state.selected == first_row(entry_list@.len() as usize),
            r.entry_scroll_state.position == 0,
            r.entry_info_scroll == 0,
            r.entry_info_scroll_state == (ScrollbarState { content_length: 0, position: 0 }),
    {
        let entry_table_items = Self::set_entry_table(entry_list);
        proof {
            crate::sort::lemma_sort_len(entry_list@, column_key(EntryTableColumn::Authors), false);
        }
        let n = entry_table_items.len();
        EntryTable {
            entry_table_items,
            entry_table_at_search_start: Vec::new(),
            entry_selected_at_search_start: None,
            entry_table_selected_column: EntryTableColumn::Authors,
            entry_table_sorted_by_col: EntryTableColumn::Authors,
            entry_table_reversed_sort: false,
            entry_table_state: TableState { selected: first_row_exec(n) },
            entry_scroll_state: ScrollbarState::new(n),
            entry_info_scroll: 0,
            entry_info_scroll_state: ScrollbarState::new(0),
        }
    }

    /// The records of `entry_list`, sorted by author (case-insensitive, stable).
    pub fn set_entry_table(entry_list: &Vec<EntryTableItem>) -> (r: Vec<EntryTableItem>)
        ensures
            r@ == stable_sort(entry_list@, column_key(EntryTableColumn::Authors), false),
    {
        let mut items = copy_items(entry_list);
        let mut keys = column_keys(&items, EntryTableColumn::Authors);
        sort_by_keys(&mut items, &mut keys, false, Ghost(column_key(EntryTableColumn::Authors)));
        items
    }

    /// Selects the record of citation key `key` (see `position_of_key`) and
    /// moves the scrollbar to it.
    pub fn relocate_selection(&mut self, key: Option<String>)
        requires
            old(self).entry_scroll_state.content_length == old(self).entry_table_items@.len(),
        ensures
            final(self).wf(),
            final(self).entry_table_state.selected == position_of_key(
                old(self).entry_table_items@,
                match key {
                    Some(k) => Some(k@),
                    None => None,
                },
            ),
            final(self).entry_scroll_state == (ScrollbarState {
                position: thumb_of(final(self).entry_table_state.selected),
                ..old(self).entry_scroll_state
            }),
            final(self).entry_table_items == old(self).entry_table_items,
            final(self).entry_table_at_search_start == old(self).entry_table_at_search_start,
            final(self).entry_selected_at_search_start == old(self).entry_selected_at_search_start,
            final(self).entry_table_selected_column == old(self).entry_table_selected_column,
            final(self).entry_table_sorted_by_col == old(self).entry_table_sorted_by_col,
            final(self).entry_table_reversed_sort == old(self).entry_table_reversed_sort,
            final(self).entry_info_scroll == old(self).entry_info_scroll,
            final(self).entry_info_scroll_state == old(self).entry_info_scroll_state,
    {
        let n = self.entry_table_items.len();
        let sel = match &key {
            Some(k) => {
                let mut i: usize = 0;
                while i < n && self.entry_table_items[i].citekey != *k
                    invariant
                        n == self.entry_table_items@.len(),
                        i <= n,
                        forall|j: int| 0 <= j < i ==> self.entry_table_items@[j].citekey@ != k@,
                    decreases n - i,
                {
                    i = i + 1;
                }
                if i < n {
                    proof {
                        let s = self.entry_table_items@;
                        assert(is_first_with_key(s, k@, i as int));
                        let c = choose|c: int| is_first_with_key(s, k@, c);
                        if c < i {
                            assert(s[c].citekey@ != k@);
                        }
                        if c > i {
                            assert(s[i as int].citekey@ != k@);
                        }
                        assert(c == i as int);
                        assert(position_of_key(s, Some(k@)) == Some(i));
                    }
                    Some(i)
                } else {
                    proof {
                        let s = self.entry_table_items@;
                        assert forall|c: int| !is_first_with_key(s, k@, c) by {
                            if 0 <= c < s.len() {
                                assert(s[c].citekey@ != k@);
                            }
                        }
                        assert(position_of_key(s, Some(k@)) == first_row(n));
                    }
                    first_row_exec(n)
                }
            },
            None => first_row_exec(n),
        };
        self.entry_table_state.select(sel);
        self.entry_scroll_state = self.entry_scroll_state.position(thumb_of_exec(sel));
    }

    /// The citation key of the selected record, if one is selected.
    pub fn selected_key(&self) -> (r: Option<String>)
        ensures
            match r {
                Some(k) => key_at(self.entry_table_items@, self.entry_table_state.selected) == Some(k@),
                None => key_at(self.entry_table_items@, self.entry_table_state.selected) is None,
            },
    {
        match self.entry_table_state.selected() {
            Some(i) => if i < self.entry_table_items.len() {
                Some(self.entry_table_items[i].citekey.clone())
            } else {
                None
            },
            None => None,
        }
    }

    /// Sorts the records by the selected column (see `reversed_after` for
    /// the direction), keeping the selected record selected.
    pub fn sort_entry_table(&mut self, toggle: bool)
        requires
            old(self).wf(),
        ensures
            final(self).wf(),
            sorted_from(*old(self), *final(self), toggle),
            final(self).entry_table_state.selected == position_of_key(
                final(self).entry_table_items@,
                key_at(old(self).entry_table_items@, old(self).entry_table_state.selected),
            ),
            final(self).entry_scroll_state.position == thumb_of(final(self).entry_table_state.selected),
            final(self).entry_table_at_search_start == old(self).entry_table_at_search_start,
            final(self).entry_selected_at_search_start == old(self).entry_selected_at_search_start,
            final(self).entry_info_scroll == old(self).entry_info_scroll,
            final(self).entry_info_scroll_state == old(self).entry_info_scroll_state,
    {
        if toggle {
            self.entry_table_reversed_sort = !self.entry_table_reversed_sort;
        }
        if self.entry_table_selected_column != self.entry_table_sorted_by_col {
            self.entry_table_reversed_sort = false;
        }
        self.entry_table_sorted_by_col = self.entry_table_selected_column;
        let key = self.selected_key();
        let col = self.entry_table_selected_column;
        let mut keys = column_keys(&self.entry_table_items, col);
        let ghost before = self.entry_table_items@;
        sort_by_keys(&mut self.entry_table_items, &mut keys, self.entry_table_reversed_sort, Ghost(column_key(col)));
        proof {
            crate::sort::lemma_sort_len(before, column_key(col), self.entry_table_reversed_sort);
        }
        self.relocate_selection(key);
    }
}

} // verus!
