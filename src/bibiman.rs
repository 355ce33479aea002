use vstd::prelude::*;
use vstd::string::*;
use crate::entries::{
    column_key, copy_items, key_at, position_of_key, EntryTable, EntryTableColumn,
    EntryTableItem,
};
use crate::bibisetup::BibiSetup;
use crate::keywords::{collect_keywords, keyword_list_of, lower_key, views, TagList};
use crate::popup::{PopupArea, PopupKind};
use crate::scroll::{
    first_row, first_row_exec, last_row, last_row_exec, row_above, row_above_exec, row_below,
    row_below_exec, selection_fits, thumb_of, thumb_of_exec, ListState, ScrollbarState, TableState,
};
use crate::entries::copy_strings;
use crate::search::{
    entries_with_keyword, keywords_matching, ranked_matches, BibiSearch, MAX_PATTERN_LEN,
};
use crate::sort::{in_order, stable_sort};
use crate::text::{push_char, without_last};

verus! {

/// The area that receives input.
#[derive(Debug, Clone, Copy, PartialEq, Eq, Structural)]
pub enum CurrentArea {
    EntryArea,
    TagArea,
    SearchArea,
    PopupArea,
}

/// The area to return to when a search or an overlay closes.
#[derive(Debug, Clone, Copy, PartialEq, Eq, Structural)]
pub enum FormerArea {
    EntryArea,
    TagArea,
    SearchArea,
}

/// The state of the browser: the loaded records, what of them is visible,
/// what is selected, which area has the input, and the overlay.
#[derive(Debug)]
pub struct Bibiman {
    pub main_biblio: BibiSetup,
    pub search_struct: BibiSearch,
    pub tag_list: TagList,
    pub entry_table: EntryTable,
    pub scroll_info: u16,
    pub current_area: CurrentArea,
    pub former_area: Option<FormerArea>,
    pub popup_area: PopupArea,
}

/// The record selected in `b`, if any.
pub open spec fn selected_entry(b: Bibiman) -> Option<EntryTableItem> {
    match b.entry_table.entry_table_state.selected {
        Some(i) => if i < b.entry_table.entry_table_items@.len() {
            Some(b.entry_table.entry_table_items@[i as int])
        } else {
            None
        },
        None => None,
    }
}

/// The label of the choice that opens a record's web link.
pub open spec fn link_label() -> Seq<char> {
    "Weblink (DOI/URL)"@
}

/// The label of the choice that opens a record's file.
pub open spec fn file_label() -> Seq<char> {
    "File (PDF/EPUB)"@
}

/// The choices offered for a record: its web link and its file, each only
/// where the record has one.
pub open spec fn ressource_labels(e: EntryTableItem) -> Seq<Seq<char>> {
    (if e.doi_url is Some {
        seq![link_label()]
    } else {
        Seq::empty()
    }) + (if e.filepath is Some {
        seq![file_label()]
    } else {
        Seq::empty()
    })
}

/// The records shown after a reset: all of them, sorted by author.
pub open spec fn default_entries(b: Bibiman) -> Seq<EntryTableItem> {
    stable_sort(b.main_biblio.entry_list@, column_key(EntryTableColumn::Authors), false)
}

/// The former area that goes with a base area.
pub open spec fn former_of(a: CurrentArea) -> Option<FormerArea> {
    match a {
        CurrentArea::EntryArea => Some(FormerArea::EntryArea),
        CurrentArea::TagArea => Some(FormerArea::TagArea),
        _ => None,
    }
}

/// The area that a former area returns to.
pub open spec fn area_of(f: FormerArea) -> CurrentArea {
    match f {
        FormerArea::EntryArea => CurrentArea::EntryArea,
        FormerArea::TagArea => CurrentArea::TagArea,
        FormerArea::SearchArea => CurrentArea::SearchArea,
    }
}

/// A base area: the records or the keywords.
pub open spec fn is_base(a: CurrentArea) -> bool {
    a == CurrentArea::EntryArea || a == CurrentArea::TagArea
}

/// `n` is `o` after a reset of both lists to the full, default-sorted
/// records and keywords, with the first record selected, and the first
/// keyword where the keywords have the input.
pub open spec fn reset_post(o: Bibiman, n: Bibiman) -> bool {
    &&& lists_reset(o, n)
    &&& n.entry_table.entry_table_state.selected == first_row(
        n.entry_table.entry_table_items@.len() as usize,
    )
    &&& n.tag_list.tag_list_state.selected == (if o.current_area == CurrentArea::TagArea {
        first_row(n.tag_list.tag_list_items@.len() as usize)
    } else {
        None
    })
}

/// `n` is `o` with both lists back to the full, default-sorted records and
/// keywords and every filter dropped; the selections are not fixed here.
pub open spec fn lists_reset(o: Bibiman, n: Bibiman) -> bool {
    &&& n.entry_table.entry_table_items@ == default_entries(o)
    &&& n.tag_list.tag_list_items@ == o.main_biblio.keyword_list@
    &&& n.entry_table.entry_table_selected_column == EntryTableColumn::Authors
    &&& n.entry_table.entry_table_sorted_by_col == EntryTableColumn::Authors
    &&& !n.entry_table.entry_table_reversed_sort
    &&& n.tag_list.selected_keywords@.len() == 0
    &&& n.entry_table.entry_table_at_search_start@.len() == 0
    &&& n.tag_list.tag_list_at_search_start@.len() == 0
    &&& n.entry_table.entry_selected_at_search_start is None
    &&& n.tag_list.tag_selected_at_search_start is None
    &&& !n.search_struct.inner_search
    &&& n.search_struct.filtered_tag_list@.len() == 0
    &&& n.former_area is None
    &&& n.current_area == o.current_area
    &&& n.main_biblio == o.main_biblio
    &&& n.popup_area == o.popup_area
    &&& n.scroll_info == o.scroll_info
}

/// `o` with the record selection moved to `sel`, its scrollbar following
/// and the detail pane scrolled to the top.
pub open spec fn entries_moved(o: Bibiman, sel: Option<usize>) -> Bibiman {
    Bibiman {
        entry_table: EntryTable {
            entry_table_state: TableState { selected: sel },
            entry_scroll_state: ScrollbarState {
                position: thumb_of(sel),
                ..o.entry_table.entry_scroll_state
            },
            entry_info_scroll: 0,
            entry_info_scroll_state: ScrollbarState {
                position: 0,
                ..o.entry_table.entry_info_scroll_state
            },
            ..o.entry_table
        },
        ..o
    }
}

/// `o` after the input moved between the records and the keywords: the
/// keyword list gets its first row selected on entry and loses its
/// selection on exit, and the records' scrollbar stays on the selected
/// record. Other areas are left as they are.
pub open spec fn toggled(o: Bibiman) -> Bibiman {
    let synced = EntryTable {
        entry_scroll_state: ScrollbarState {
            position: thumb_of(o.entry_table.entry_table_state.selected),
            ..o.entry_table.entry_scroll_state
        },
        ..o.entry_table
    };
    match o.current_area {
        CurrentArea::EntryArea => tags_moved(
            Bibiman { current_area: CurrentArea::TagArea, entry_table: synced, ..o },
            first_row(o.tag_list.tag_list_items@.len() as usize),
        ),
        CurrentArea::TagArea => tags_moved(
            Bibiman { current_area: CurrentArea::EntryArea, entry_table: synced, ..o },
            None,
        ),
        _ => o,
    }
}

/// `o` with the keyword selection moved to `sel` and its scrollbar following.
pub open spec fn tags_moved(o: Bibiman, sel: Option<usize>) -> Bibiman {
    Bibiman {
        tag_list: TagList {
            tag_list_state: ListState { selected: sel },
            tag_scroll_state: ScrollbarState { position: thumb_of(sel), ..o.tag_list.tag_scroll_state },
            ..o.tag_list
        },
        ..o
    }
}

/// `n` is `o` after its overlay closed: every overlay field is cleared and
/// the area it was opened from has the input again.
pub open spec fn popup_closed(o: Bibiman, n: Bibiman) -> bool {
    &&& n.popup_area.is_cleared()
    &&& n.current_area == area_of(o.former_area->Some_0)
    &&& n.former_area is None
    &&& n.entry_table == o.entry_table
    &&& n.tag_list == o.tag_list
    &&& n.search_struct == o.search_struct
    &&& n.main_biblio == o.main_biblio
}

/// `n` is `o` after the selected record `e` was offered for opening: a
/// choice of its web link and file where it has one, else an error message.
pub open spec fn ressources_offered(o: Bibiman, n: Bibiman, e: EntryTableItem) -> bool {
    &&& n.current_area == CurrentArea::PopupArea
    &&& n.former_area == Some(FormerArea::EntryArea)
    &&& n.entry_table == o.entry_table
    &&& n.tag_list == o.tag_list
    &&& (e.doi_url is Some || e.filepath is Some ==> {
        &&& n.popup_area.popup_kind == Some(PopupKind::Selection)
        &&& views(n.popup_area.popup_list@) == ressource_labels(e)
        &&& n.popup_area.popup_state.selected == Some(0usize)
    })
    &&& (!(e.doi_url is Some || e.filepath is Some) ==> {
        &&& n.popup_area.popup_kind == Some(PopupKind::MessageError)
        &&& n.popup_area.popup_message@ == "Selected entry has no connected ressources: "@ + e.citekey@
    })
}

/// `o` with the overlay `kind` opened over its current base area.
pub open spec fn popup_opened(o: Bibiman, n: Bibiman, kind: PopupKind) -> bool {
    &&& n.current_area == CurrentArea::PopupArea
    &&& n.former_area == former_of(o.current_area)
    &&& n.popup_area.popup_kind == Some(kind)
    &&& n.popup_area.is_popup
    &&& n.entry_table == o.entry_table
    &&& n.tag_list == o.tag_list
    &&& n.search_struct == o.search_struct
    &&& n.main_biblio == o.main_biblio
}

/// A selection kept where it still fits, else moved to the last row.
pub open spec fn keep_if_fits(sel: Option<usize>, len: nat) -> Option<usize> {
    if selection_fits(sel, len) {
        sel
    } else {
        last_row(len as usize)
    }
}

/// `n` is `o` with the keyword list rebuilt from the visible records.
pub open spec fn tags_rebuilt(o: Bibiman, n: Bibiman) -> bool {
    &&& views(n.tag_list.tag_list_items@) == keyword_list_of(o.entry_table.entry_table_items@)
    &&& n.search_struct.filtered_tag_list@ == n.tag_list.tag_list_items@
    &&& n.tag_list.tag_list_state.selected == keep_if_fits(
        o.tag_list.tag_list_state.selected,
        n.tag_list.tag_list_items@.len(),
    )
    &&& n.tag_list.tag_scroll_state == (ScrollbarState {
        content_length: n.tag_list.tag_list_items@.len() as usize,
        position: thumb_of(n.tag_list.tag_list_state.selected),
    })
    &&& n.tag_list.tag_list_at_search_start == o.tag_list.tag_list_at_search_start
    &&& n.tag_list.tag_selected_at_search_start == o.tag_list.tag_selected_at_search_start
    &&& n.tag_list.selected_keywords == o.tag_list.selected_keywords
    &&& n.search_struct.search_string == o.search_struct.search_string
    &&& n.search_struct.inner_search == o.search_struct.inner_search
    &&& n.entry_table == o.entry_table
    &&& n.main_biblio == o.main_biblio
    &&& n.popup_area == o.popup_area
    &&& n.current_area == o.current_area
    &&& n.former_area == o.former_area
    &&& n.scroll_info == o.scroll_info
}

impl Bibiman {
    /// The selections name visible rows, the scrollbars span the visible
    /// lists, an overlay or a search has an area to return to, and the
    /// keyword list of the loaded records is derived from them.
    pub open spec fn wf(&self) -> bool {
        &&& self.entry_table.wf()
        &&& self.tag_list.tag_scroll_state.content_length == self.tag_list.tag_list_items@.len()
        &&& selection_fits(self.tag_list.tag_list_state.selected, self.tag_list.tag_list_items@.len())
        &&& self.popup_area.wf()
        &&& (self.current_area == CurrentArea::PopupArea ==> self.popup_area.popup_kind is Some)
        &&& (self.current_area == CurrentArea::PopupArea || self.current_area
            == CurrentArea::SearchArea ==> self.former_area == Some(FormerArea::EntryArea)
            || self.former_area == Some(FormerArea::TagArea))
        &&& (is_base(self.current_area) ==> self.former_area is None)
        &&& self.search_struct.search_string@.len() <= MAX_PATTERN_LEN
        &&& views(self.main_biblio.keyword_list@) == keyword_list_of(self.main_biblio.entry_list@)
    }

    /// The browser over `entry_list`: all records sorted by author, the
    /// first one selected, all keywords, the record table focused.
    pub fn new(entry_list: Vec<EntryTableItem>) -> (r: Self)
        ensures
            r.wf(),
            r.main_biblio.entry_list@ == entry_list@,
            r.entry_table.entry_table_items@ == default_entries(r),
            r.entry_table.entry_table_state.selected == first_row(entry_list@.len() as usize),
            views(r.tag_list.tag_list_items@) == keyword_list_of(entry_list@),
            r.tag_list.tag_list_state.selected is None,
            r.tag_list.selected_keywords@.len() == 0,
            r.current_area == CurrentArea::EntryArea,
            r.former_area is None,
            r.popup_area.is_cleared(),
            r.search_struct.search_string@.len() == 0,
            !r.search_struct.inner_search,
    {
        let main_biblio = BibiSetup::new(entry_list);
        let tag_list = TagList::new(copy_strings(&main_biblio.keyword_list));
        let entry_table = EntryTable::new(&main_biblio.entry_list);
        Bibiman {
            main_biblio,
            search_struct: BibiSearch::default(),
            tag_list,
            entry_table,
            scroll_info: 0,
            current_area: CurrentArea::EntryArea,
            former_area: None,
            popup_area: PopupArea::default(),
        }
    }

    /// Opens an overlay of `kind` over the records or the keywords; does
    /// nothing from another area.
    pub fn open_popup(&mut self, kind: PopupKind)
        requires
            old(self).wf(),
        ensures
            final(self).wf(),
            is_base(old(self).current_area) ==> popup_opened(*old(self), *final(self), kind),
            !is_base(old(self).current_area) ==> *final(self) == *old(self),
    {
        match self.current_area {
            CurrentArea::EntryArea => {
                self.former_area = Some(FormerArea::EntryArea);
            },
            CurrentArea::TagArea => {
                self.former_area = Some(FormerArea::TagArea);
            },
            _ => {
                return ;
            },
        }
        self.popup_area.is_popup = true;
        self.popup_area.popup_kind = Some(kind);
        self.current_area = CurrentArea::PopupArea;
    }

    /// Opens the help overlay.
    pub fn show_help(&mut self)
        requires
            old(self).wf(),
        ensures
            final(self).wf(),
            is_base(old(self).current_area) ==> popup_opened(*old(self), *final(self), PopupKind::Help),
            !is_base(old(self).current_area) ==> *final(self) == *old(self),
    {
        self.open_popup(PopupKind::Help);
    }

    /// Opens the form for adding a record.
    pub fn add_entry(&mut self)
        requires
            old(self).wf(),
        ensures
            final(self).wf(),
            is_base(old(self).current_area) ==> popup_opened(*old(self), *final(self), PopupKind::AddEntry),
            !is_base(old(self).current_area) ==> *final(self) == *old(self),
    {
        self.open_popup(PopupKind::AddEntry);
    }

    /// Shows a message overlay (`message` followed by `object`): over the
    /// base area, or in place of the overlay that is open.
    pub fn show_message(&mut self, message: &str, object: &str, msg_confirm: bool)
        requires
            old(self).wf(),
        ensures
            final(self).wf(),
            old(self).current_area == CurrentArea::SearchArea ==> *final(self) == *old(self),
            old(self).current_area != CurrentArea::SearchArea ==> {
                &&& final(self).current_area == CurrentArea::PopupArea
                &&& final(self).former_area == (if old(self).current_area == CurrentArea::PopupArea {
                    old(self).former_area
                } else {
                    former_of(old(self).current_area)
                })
                &&& final(self).popup_area.popup_kind == Some(
                    if msg_confirm {
                        PopupKind::MessageConfirm
                    } else {
                        PopupKind::MessageError
                    },
                )
                &&& final(self).popup_area.popup_message@ == message@ + object@
                &&& final(self).entry_table == old(self).entry_table
                &&& final(self).tag_list == old(self).tag_list
            },
    {
        match self.current_area {
            CurrentArea::EntryArea => {
                self.former_area = Some(FormerArea::EntryArea);
            },
            CurrentArea::TagArea => {
                self.former_area = Some(FormerArea::TagArea);
            },
            CurrentArea::PopupArea => {},
            CurrentArea::SearchArea => {
                return ;
            },
        }
        self.popup_area.popup_message(message, object, msg_confirm);
        self.current_area = CurrentArea::PopupArea;
    }

    /// Closes the overlay: all its fields are cleared and the area it was
    /// opened from gets the input back. Does nothing when no overlay is open.
    pub fn close_popup(&mut self)
        requires
            old(self).wf(),
        ensures
            final(self).wf(),
            old(self).current_area != CurrentArea::PopupArea ==> *final(self) == *old(self),
            old(self).current_area == CurrentArea::PopupArea ==> popup_closed(*old(self), *final(self)),
    {
        if self.current_area != CurrentArea::PopupArea {
            return ;
        }
        self.popup_area = PopupArea::default();
        match self.former_area {
            Some(FormerArea::TagArea) => {
                self.current_area = CurrentArea::TagArea;
            },
            _ => {
                self.current_area = CurrentArea::EntryArea;
            },
        }
        self.former_area = None;
    }

    /// Dismisses a message overlay on any key; reports whether it did.
    pub fn dismiss_message(&mut self) -> (r: bool)
        requires
            old(self).wf(),
        ensures
            final(self).wf(),
            r == (old(self).current_area == CurrentArea::PopupArea && (old(self).popup_area.popup_kind
                == Some(PopupKind::MessageConfirm) || old(self).popup_area.popup_kind == Some(
                PopupKind::MessageError,
            ))),
            r ==> popup_closed(*old(self), *final(self)),
            !r ==> *final(self) == *old(self),
    {
        if self.current_area == CurrentArea::PopupArea {
            match self.popup_area.popup_kind {
                Some(PopupKind::MessageConfirm) | Some(PopupKind::MessageError) => {
                    self.close_popup();
                    return true;
                },
                _ => {},
            }
        }
        false
    }

    /// Ends the add-entry form with the outcome of adding the record: closes
    /// it on success, turns it into an error message otherwise. Does nothing
    /// unless the form is open.
    pub fn handle_new_entry_submission(&mut self, succeeded: bool)
        requires
            old(self).wf(),
        ensures
            final(self).wf(),
            !(old(self).current_area == CurrentArea::PopupArea && old(self).popup_area.popup_kind
                == Some(PopupKind::AddEntry)) ==> *final(self) == *old(self),
            old(self).current_area == CurrentArea::PopupArea && old(self).popup_area.popup_kind
                == Some(PopupKind::AddEntry) ==> {
                &&& final(self).entry_table == old(self).entry_table
                &&& final(self).tag_list == old(self).tag_list
                &&& (succeeded ==> final(self).popup_area.is_cleared() && final(self).current_area
                    == area_of(old(self).former_area->Some_0) && final(self).former_area is None)
                &&& (!succeeded ==> final(self).current_area == CurrentArea::PopupArea
                    && final(self).former_area == old(self).former_area
                    && final(self).popup_area.popup_kind == Some(PopupKind::MessageError)
                    && final(self).popup_area.popup_message@ == "Failed to add new entry"@)
            },
    {
        if !(self.current_area == CurrentArea::PopupArea && self.popup_area.popup_kind == Some(
            PopupKind::AddEntry,
        )) {
            return ;
        }
        if succeeded {
            self.close_popup();
        } else {
            self.popup_area = PopupArea::default();
            self.popup_area.popup_message("Failed to add new entry", "", false);
            proof {
                reveal_strlit("");
                assert("Failed to add new entry"@ + ""@ =~= "Failed to add new entry"@);
            }
        }
    }

    /// Rebuilds everything from freshly loaded records (after an outside
    /// edit): both lists return to the unfiltered default, keyword filters
    /// are dropped, and the record selected before is selected again.
    pub fn update_lists(&mut self, entry_list: Vec<EntryTableItem>)
        requires
            old(self).wf(),
        ensures
            final(self).wf(),
            final(self).main_biblio.entry_list@ == entry_list@,
            final(self).entry_table.entry_table_items@ == default_entries(*final(self)),
            final(self).entry_table.entry_table_state.selected == position_of_key(
                final(self).entry_table.entry_table_items@,
                key_at(old(self).entry_table.entry_table_items@, old(self).entry_table.entry_table_state.selected),
            ),
            final(self).tag_list.tag_list_items@ == final(self).main_biblio.keyword_list@,
            final(self).tag_list.selected_keywords@.len() == 0,
            !final(self).search_struct.inner_search,
            final(self).current_area == old(self).current_area,
            final(self).former_area == old(self).former_area,
    {
        let key = self.entry_table.selected_key();
        self.main_biblio = BibiSetup::new(entry_list);
        self.tag_list = TagList::new(copy_strings(&self.main_biblio.keyword_list));
        if self.current_area == CurrentArea::TagArea {
            let n = self.tag_list.tag_list_items.len();
            self.tag_list.tag_list_state.select(first_row_exec(n));
        }
        self.entry_table = EntryTable::new(&self.main_biblio.entry_list);
        self.entry_table.relocate_selection(key);
        self.search_struct.inner_search = false;
        self.search_struct.filtered_tag_list = Vec::new();
    }

    /// Switches the input between the records and the keywords; the keyword
    /// list gets its first row selected on entry and loses its selection on
    /// exit. Does nothing from another area.
    pub fn toggle_area(&mut self)
        requires
            old(self).wf(),
        ensures
            final(self).wf(),
            *final(self) == toggled(*old(self)),
    {
        match self.current_area {
            CurrentArea::EntryArea => {
                let esel = self.entry_table.entry_table_state.selected();
                self.entry_table.entry_scroll_state = self.entry_table.entry_scroll_state.position(thumb_of_exec(esel));
                self.current_area = CurrentArea::TagArea;
                let sel = first_row_exec(self.tag_list.tag_list_items.len());
                self.tag_list.tag_list_state.select(sel);
                self.tag_list.tag_scroll_state = self.tag_list.tag_scroll_state.position(thumb_of_exec(sel));
            },
            CurrentArea::TagArea => {
                self.current_area = CurrentArea::EntryArea;
                self.tag_list.tag_list_state.select(None);
                self.tag_list.tag_scroll_state = self.tag_list.tag_scroll_state.position(0);
                let sel = self.entry_table.entry_table_state.selected();
                self.entry_table.entry_scroll_state = self.entry_table.entry_scroll_state.position(thumb_of_exec(sel));
            },
            _ => {},
        }
    }

    /// Restores both lists to all records and keywords, sorted by default,
    /// and drops every filter. Only from the records or the keywords.
    pub fn reset_current_list(&mut self)
        requires
            old(self).wf(),
        ensures
            final(self).wf(),
            is_base(old(self).current_area) ==> reset_post(*old(self), *final(self))
                && final(self).search_struct.search_string == old(self).search_struct.search_string,
            !is_base(old(self).current_area) ==> *final(self) == *old(self),
    {
        if !(self.current_area == CurrentArea::EntryArea || self.current_area == CurrentArea::TagArea) {
            return ;
        }
        self.reset_lists_unchecked();
    }

    fn reset_lists_unchecked(&mut self)
        requires
            old(self).wf(),
            is_base(old(self).current_area),
        ensures
            final(self).wf(),
            reset_post(*old(self), *final(self)),
            final(self).search_struct.search_string == old(self).search_struct.search_string,
    {
        self.entry_table = EntryTable::new(&self.main_biblio.entry_list);
        proof {
            crate::sort::lemma_sort_len(
                self.main_biblio.entry_list@,
                column_key(EntryTableColumn::Authors),
                false,
            );
        }
        self.tag_list = TagList::new(copy_strings(&self.main_biblio.keyword_list));
        if self.current_area == CurrentArea::TagArea {
            let sel = first_row_exec(self.tag_list.tag_list_items.len());
            self.tag_list.tag_list_state.select(sel);
        }
        self.search_struct.filtered_tag_list = Vec::new();
        self.search_struct.inner_search = false;
        self.former_area = None;
    }

    /// Scrolls the detail pane one line down (saturating).
    pub fn scroll_info_down(&mut self)
        requires
            old(self).wf(),
        ensures
            final(self).wf(),
            final(self).entry_table.entry_info_scroll == (if old(self).entry_table.entry_info_scroll
                == u16::MAX {
                u16::MAX
            } else {
                (old(self).entry_table.entry_info_scroll + 1) as u16
            }),
            *final(self) == (Bibiman {
                entry_table: EntryTable {
                    entry_info_scroll: final(self).entry_table.entry_info_scroll,
                    entry_info_scroll_state: ScrollbarState {
                        position: final(self).entry_table.entry_info_scroll as usize,
                        ..old(self).entry_table.entry_info_scroll_state
                    },
                    ..old(self).entry_table
                },
                ..*old(self)
            }),
    {
        self.entry_table.entry_info_scroll = self.entry_table.entry_info_scroll.saturating_add(1);
        self.entry_table.entry_info_scroll_state = self.entry_table.entry_info_scroll_state.position(
            self.entry_table.entry_info_scroll as usize,
        );
    }

    /// Scrolls the detail pane one line up (saturating).
    pub fn scroll_info_up(&mut self)
        requires
            old(self).wf(),
        ensures
            final(self).wf(),
            final(self).entry_table.entry_info_scroll == (if old(self).entry_table.entry_info_scroll
                == 0 {
                0
            } else {
                (old(self).entry_table.entry_info_scroll - 1) as u16
            }),
            *final(self) == (Bibiman {
                entry_table: EntryTable {
                    entry_info_scroll: final(self).entry_table.entry_info_scroll,
                    entry_info_scroll_state: ScrollbarState {
                        position: final(self).entry_table.entry_info_scroll as usize,
                        ..old(self).entry_table.entry_info_scroll_state
                    },
                    ..old(self).entry_table
                },
                ..*old(self)
            }),
    {
        self.entry_table.entry_info_scroll = self.entry_table.entry_info_scroll.saturating_sub(1);
        self.entry_table.entry_info_scroll_state = self.entry_table.entry_info_scroll_state.position(
            self.entry_table.entry_info_scroll as usize,
        );
    }

    /// Keeps the detail pane offset within `max_offset` (the number of lines
    /// of the selected record's details less the height of the pane).
    pub fn clamp_info_scroll(&mut self, max_offset: u16)
        requires
            old(self).wf(),
        ensures
            final(self).wf(),
            final(self).entry_table.entry_info_scroll == (if old(self).entry_table.entry_info_scroll
                > max_offset {
                max_offset
            } else {
                old(self).entry_table.entry_info_scroll
            }),
            *final(self) == (Bibiman {
                entry_table: EntryTable {
                    entry_info_scroll: final(self).entry_table.entry_info_scroll,
                    entry_info_scroll_state: ScrollbarState {
                        position: final(self).entry_table.entry_info_scroll as usize,
                        ..old(self).entry_table.entry_info_scroll_state
                    },
                    ..old(self).entry_table
                },
                ..*old(self)
            }),
    {
        if self.entry_table.entry_info_scroll > max_offset {
            self.entry_table.entry_info_scroll = max_offset;
        }
        self.entry_table.entry_info_scroll_state = self.entry_table.entry_info_scroll_state.position(
            self.entry_table.entry_info_scroll as usize,
        );
    }

    fn move_entry_selection(&mut self, sel: Option<usize>)
        requires
            old(self).wf(),
            selection_fits(sel, old(self).entry_table.entry_table_items@.len()),
        ensures
            final(self).wf(),
            *final(self) == entries_moved(*old(self), sel),
    {
        self.entry_table.entry_info_scroll = 0;
        self.entry_table.entry_info_scroll_state = self.entry_table.entry_info_scroll_state.position(0);
        self.entry_table.entry_table_state.select(sel);
        self.entry_table.entry_scroll_state = self.entry_table.entry_scroll_state.position(thumb_of_exec(sel));
    }

    /// Selects the record `entries` rows further down (the last at most).
    pub fn select_next_entry(&mut self, entries: u16)
        requires
            old(self).wf(),
        ensures
            final(self).wf(),
            *final(self) == entries_moved(
                *old(self),
                row_below(
                    old(self).entry_table.entry_table_state.selected,
                    entries as usize,
                    old(self).entry_table.entry_table_items@.len() as usize,
                ),
            ),
    {
        let sel = row_below_exec(
            self.entry_table.entry_table_state.selected(),
            entries as usize,
            self.entry_table.entry_table_items.len(),
        );
        self.move_entry_selection(sel);
    }

    /// Selects the record `entries` rows further up (the first at least).
    pub fn select_previous_entry(&mut self, entries: u16)
        requires
            old(self).wf(),
        ensures
            final(self).wf(),
            *final(self) == entries_moved(
                *old(self),
                row_above(
                    old(self).entry_table.entry_table_state.selected,
                    entries as usize,
                    old(self).entry_table.entry_table_items@.len() as usize,
                ),
            ),
    {
        let sel = row_above_exec(
            self.entry_table.entry_table_state.selected(),
            entries as usize,
            self.entry_table.entry_table_items.len(),
        );
        self.move_entry_selection(sel);
    }

    /// Selects the first record.
    pub fn select_first_entry(&mut self)
        requires
            old(self).wf(),
        ensures
            final(self).wf(),
            *final(self) == entries_moved(
                *old(self),
                first_row(old(self).entry_table.entry_table_items@.len() as usize),
            ),
    {
        let sel = first_row_exec(self.entry_table.entry_table_items.len());
        self.move_entry_selection(sel);
    }

    /// Selects the last record.
    pub fn select_last_entry(&mut self)
        requires
            old(self).wf(),
        ensures
            final(self).wf(),
            *final(self) == entries_moved(
                *old(self),
                last_row(old(self).entry_table.entry_table_items@.len() as usize),
            ),
    {
        let sel = last_row_exec(self.entry_table.entry_table_items.len());
        self.move_entry_selection(sel);
    }

    /// Selects the column to the right, wrapping round to the first.
    pub fn select_next_column(&mut self)
        requires
            old(self).wf(),
        ensures
            final(self).wf(),
            *final(self) == (Bibiman {
                entry_table: EntryTable {
                    entry_table_selected_column: match old(self).entry_table.entry_table_selected_column {
                        EntryTableColumn::Authors => EntryTableColumn::Title,
                        EntryTableColumn::Title => EntryTableColumn::Year,
                        EntryTableColumn::Year => EntryTableColumn::Pubtype,
                        EntryTableColumn::Pubtype => EntryTableColumn::Authors,
                    },
                    ..old(self).entry_table
                },
                ..*old(self)
            }),
    {
        self.entry_table.entry_table_selected_column = match self.entry_table.entry_table_selected_column {
            EntryTableColumn::Authors => EntryTableColumn::Title,
            EntryTableColumn::Title => EntryTableColumn::Year,
            EntryTableColumn::Year => EntryTableColumn::Pubtype,
            EntryTableColumn::Pubtype => EntryTableColumn::Authors,
        };
    }

    /// Selects the column to the left, wrapping round to the last.
    pub fn select_prev_column(&mut self)
        requires
            old(self).wf(),
        ensures
            final(self).wf(),
            *final(self) == (Bibiman {
                entry_table: EntryTable {
                    entry_table_selected_column: match old(self).entry_table.entry_table_selected_column {
                        EntryTableColumn::Authors => EntryTableColumn::Pubtype,
                        EntryTableColumn::Title => EntryTableColumn::Authors,
                        EntryTableColumn::Year => EntryTableColumn::Title,
                        EntryTableColumn::Pubtype => EntryTableColumn::Year,
                    },
                    ..old(self).entry_table
                },
                ..*old(self)
            }),
    {
        self.entry_table.entry_table_selected_column = match self.entry_table.entry_table_selected_column {
            EntryTableColumn::Authors => EntryTableColumn::Pubtype,
            EntryTableColumn::Title => EntryTableColumn::Authors,
            EntryTableColumn::Year => EntryTableColumn::Title,
            EntryTableColumn::Pubtype => EntryTableColumn::Year,
        };
    }

    /// The citation key of the selected record, if one is selected.
    pub fn get_selected_citekey(&self) -> (r: Option<String>)
        ensures
            match r {
                Some(k) => key_at(self.entry_table.entry_table_items@, self.entry_table.entry_table_state.selected) == Some(k@),
                None => key_at(self.entry_table.entry_table_items@, self.entry_table.entry_table_state.selected) is None,
            },
    {
        self.entry_table.selected_key()
    }

    fn move_tag_selection(&mut self, sel: Option<usize>)
        requires
            old(self).wf(),
            selection_fits(sel, old(self).tag_list.tag_list_items@.len()),
        ensures
            final(self).wf(),
            *final(self) == tags_moved(*old(self), sel),
    {
        self.tag_list.tag_list_state.select(sel);
        self.tag_list.tag_scroll_state = self.tag_list.tag_scroll_state.position(thumb_of_exec(sel));
    }

    /// Selects the keyword `keywords` rows further down (the last at most).
    pub fn select_next_tag(&mut self, keywords: u16)
        requires
            old(self).wf(),
        ensures
            final(self).wf(),
            *final(self) == tags_moved(
                *old(self),
                row_below(
                    old(self).tag_list.tag_list_state.selected,
                    keywords as usize,
                    old(self).tag_list.tag_list_items@.len() as usize,
                ),
            ),
    {
        let sel = row_below_exec(
            self.tag_list.tag_list_state.selected(),
            keywords as usize,
            self.tag_list.tag_list_items.len(),
        );
        self.move_tag_selection(sel);
    }

    /// Selects the keyword `keywords` rows further up (the first at least).
    pub fn select_previous_tag(&mut self, keywords: u16)
        requires
            old(self).wf(),
        ensures
            final(self).wf(),
            *final(self) == tags_moved(
                *old(self),
                row_above(
                    old(self).tag_list.tag_list_state.selected,
                    keywords as usize,
                    old(self).tag_list.tag_list_items@.len() as usize,
                ),
            ),
    {
        let sel = row_above_exec(
            self.tag_list.tag_list_state.selected(),
            keywords as usize,
            self.tag_list.tag_list_items.len(),
        );
        self.move_tag_selection(sel);
    }

    /// Selects the first keyword.
    pub fn select_first_tag(&mut self)
        requires
            old(self).wf(),
        ensures
            final(self).wf(),
            *final(self) == tags_moved(*old(self), first_row(old(self).tag_list.tag_list_items@.len() as usize)),
    {
        let sel = first_row_exec(self.tag_list.tag_list_items.len());
        self.move_tag_selection(sel);
    }

    /// Selects the last keyword.
    pub fn select_last_tag(&mut self)
        requires
            old(self).wf(),
        ensures
            final(self).wf(),
            *final(self) == tags_moved(*old(self), last_row(old(self).tag_list.tag_list_items@.len() as usize)),
    {
        let sel = last_row_exec(self.tag_list.tag_list_items.len());
        self.move_tag_selection(sel);
    }

    /// The selected keyword.
    pub fn get_selected_tag(&self) -> (r: &str)
        requires
            self.wf(),
            self.tag_list.tag_list_state.selected is Some,
        ensures
            r@ == self.tag_list.tag_list_items@[self.tag_list.tag_list_state.selected->Some_0 as int]@,
    {
        let idx = match self.tag_list.tag_list_state.selected() {
            Some(i) => i,
            None => 0,
        };
        self.tag_list.tag_list_items[idx].as_str()
    }

    /// Shows the records of the search snapshot that match the search text,
    /// best match first; the record selected before stays selected where it
    /// is still shown.
    pub fn search_entries(&mut self)
        requires
            old(self).wf(),
        ensures
            final(self).wf(),
            final(self).entry_table.entry_table_items@ == ranked_matches(
                old(self).search_struct.search_string@,
                old(self).entry_table.entry_table_at_search_start@,
            ),
            final(self).entry_table.entry_table_state.selected == position_of_key(
                final(self).entry_table.entry_table_items@,
                key_at(old(self).entry_table.entry_table_items@, old(self).entry_table.entry_table_state.selected),
            ),
            final(self).entry_table.entry_table_at_search_start == old(self).entry_table.entry_table_at_search_start,
            final(self).entry_table.entry_selected_at_search_start == old(self).entry_table.entry_selected_at_search_start,
            final(self).entry_table.entry_table_selected_column == old(self).entry_table.entry_table_selected_column,
            final(self).entry_table.entry_table_sorted_by_col == old(self).entry_table.entry_table_sorted_by_col,
            final(self).entry_table.entry_table_reversed_sort == old(self).entry_table.entry_table_reversed_sort,
            final(self).tag_list == old(self).tag_list,
            final(self).search_struct == old(self).search_struct,
            final(self).main_biblio == old(self).main_biblio,
            final(self).popup_area == old(self).popup_area,
            final(self).current_area == old(self).current_area,
            final(self).former_area == old(self).former_area,
    {
        let key = self.entry_table.selected_key();
        let snapshot = copy_items(&self.entry_table.entry_table_at_search_start);
        let filtered = BibiSearch::search_entry_list(self.search_struct.search_string.as_str(), snapshot);
        let n = filtered.len();
        self.entry_table.entry_table_items = filtered;
        self.entry_table.entry_scroll_state = self.entry_table.entry_scroll_state.content_length(n);
        self.entry_table.relocate_selection(key);
    }

    /// Shows the keywords of the search snapshot that match the search text.
    pub fn search_tags(&mut self)
        requires
            old(self).wf(),
        ensures
            final(self).wf(),
            views(final(self).tag_list.tag_list_items@) == keywords_matching(
                old(self).search_struct.search_string@,
                views(old(self).tag_list.tag_list_at_search_start@),
            ),
            final(self).tag_list.tag_list_state.selected == keep_if_fits(
                old(self).tag_list.tag_list_state.selected,
                final(self).tag_list.tag_list_items@.len(),
            ),
            final(self).tag_list.tag_list_at_search_start == old(self).tag_list.tag_list_at_search_start,
            final(self).tag_list.tag_selected_at_search_start == old(self).tag_list.tag_selected_at_search_start,
            final(self).tag_list.selected_keywords == old(self).tag_list.selected_keywords,
            final(self).entry_table == old(self).entry_table,
            final(self).search_struct == old(self).search_struct,
            final(self).main_biblio == old(self).main_biblio,
            final(self).popup_area == old(self).popup_area,
            final(self).current_area == old(self).current_area,
            final(self).former_area == old(self).former_area,
    {
        let snapshot = copy_strings(&self.tag_list.tag_list_at_search_start);
        let filtered = BibiSearch::search_tag_list(self.search_struct.search_string.as_str(), snapshot);
        self.set_tag_items(filtered);
    }

    fn set_tag_items(&mut self, items: Vec<String>)
        requires
            old(self).wf(),
        ensures
            final(self).wf(),
            final(self).tag_list.tag_list_items@ == items@,
            final(self).tag_list.tag_list_state.selected == keep_if_fits(
                old(self).tag_list.tag_list_state.selected,
                items@.len(),
            ),
            final(self).tag_list.tag_scroll_state == (ScrollbarState {
                content_length: items@.len() as usize,
                position: thumb_of(final(self).tag_list.tag_list_state.selected),
            }),
            final(self).tag_list.tag_list_at_search_start == old(self).tag_list.tag_list_at_search_start,
            final(self).tag_list.tag_selected_at_search_start == old(self).tag_list.tag_selected_at_search_start,
            final(self).tag_list.selected_keywords == old(self).tag_list.selected_keywords,
            final(self).entry_table == old(self).entry_table,
            final(self).search_struct == old(self).search_struct,
            final(self).main_biblio == old(self).main_biblio,
            final(self).popup_area == old(self).popup_area,
            final(self).current_area == old(self).current_area,
            final(self).former_area == old(self).former_area,
            final(self).scroll_info == old(self).scroll_info,
    {
        let n = items.len();
        let old_sel = self.tag_list.tag_list_state.selected();
        let sel = match old_sel {
            Some(i) => if i < n {
                Some(i)
            } else {
                last_row_exec(n)
            },
            None => None,
        };
        self.tag_list.tag_list_items = items;
        self.tag_list.tag_list_state.select(sel);
        self.tag_list.tag_scroll_state = ScrollbarState { content_length: n, position: thumb_of_exec(sel) };
    }

    /// Rebuilds the keyword list from the visible records: each keyword
    /// once, in case-insensitive order.
    pub fn filter_tags_by_entries(&mut self)
        requires
            old(self).wf(),
        ensures
            final(self).wf(),
            tags_rebuilt(*old(self), *final(self)),
            forall|i: int, j: int| 0 <= i < j < final(self).tag_list.tag_list_items@.len()
                ==> final(self).tag_list.tag_list_items@[i]@ != final(self).tag_list.tag_list_items@[j]@,
            in_order(views(final(self).tag_list.tag_list_items@), lower_key(), false),
    {
        let keywords = collect_keywords(&self.entry_table.entry_table_items);
        self.search_struct.filtered_tag_list = copy_strings(&keywords);
        self.set_tag_items(keywords);
    }

    /// Narrows the records to those whose keyword field holds the selected
    /// keyword, records it in the keyword trail, rebuilds the keyword list
    /// and hands the input to the records. Only from the keyword list with a
    /// keyword selected.
    pub fn filter_for_tags(&mut self)
        requires
            old(self).wf(),
        ensures
            final(self).wf(),
            !(old(self).current_area == CurrentArea::TagArea && old(self).tag_list.tag_list_state.selected
                is Some) ==> *final(self) == *old(self),
            old(self).current_area == CurrentArea::TagArea && old(self).tag_list.tag_list_state.selected
                is Some ==> keyword_filtered(
                *old(self),
                *final(self),
                old(self).tag_list.tag_list_items@[old(self).tag_list.tag_list_state.selected->Some_0 as int]@,
            ),
    {
        if !(self.current_area == CurrentArea::TagArea && self.tag_list.tag_list_state.selected().is_some()) {
            return ;
        }
        let keyword = String::from_str(self.get_selected_tag());
        let filtered = BibiSearch::filter_entries_by_tag(keyword.as_str(), &self.entry_table.entry_table_items);
        let ghost kw = keyword@;
        let ghost trail = views(self.tag_list.selected_keywords@);
        self.tag_list.selected_keywords.push(keyword);
        assert(views(self.tag_list.selected_keywords@) =~= trail.push(kw));
        let n = filtered.len();
        self.entry_table.entry_table_items = filtered;
        self.entry_table.entry_scroll_state = self.entry_table.entry_scroll_state.content_length(n);
        let sel = first_row_exec(n);
        self.entry_table.entry_table_state.select(sel);
        self.entry_table.entry_scroll_state = self.entry_table.entry_scroll_state.position(thumb_of_exec(sel));
        self.filter_tags_by_entries();
        self.current_area = CurrentArea::EntryArea;
        self.tag_list.tag_list_state.select(None);
        self.tag_list.tag_scroll_state = self.tag_list.tag_scroll_state.position(0);
    }

    /// Starts a search from the records or the keywords: both lists and the
    /// record selection are kept as the snapshot that the search filters and
    /// an abort restores. A search started from the records right after a
    /// keyword filter narrows the filtered view (chained). Does nothing from
    /// another area.
    pub fn enter_search_area(&mut self)
        requires
            old(self).wf(),
        ensures
            final(self).wf(),
            !is_base(old(self).current_area) ==> *final(self) == *old(self),
            is_base(old(self).current_area) ==> search_entered(*old(self), *final(self)),
    {
        match self.current_area {
            CurrentArea::EntryArea => {
                self.former_area = Some(FormerArea::EntryArea);
            },
            CurrentArea::TagArea => {
                self.former_area = Some(FormerArea::TagArea);
            },
            _ => {
                return ;
            },
        }
        self.entry_table.entry_table_at_search_start = copy_items(&self.entry_table.entry_table_items);
        self.entry_table.entry_selected_at_search_start = self.entry_table.entry_table_state.selected();
        self.tag_list.tag_list_at_search_start = copy_strings(&self.tag_list.tag_list_items);
        self.tag_list.tag_selected_at_search_start = self.tag_list.tag_list_state.selected();
        self.search_struct.inner_search = self.tag_list.selected_keywords.len() > 0;
        self.current_area = CurrentArea::SearchArea;
    }

    /// Confirms the search: the filtered list stays, its first row is
    /// selected, and the area the search started from gets the input back.
    pub fn confirm_search(&mut self)
        requires
            old(self).wf(),
        ensures
            final(self).wf(),
            old(self).current_area != CurrentArea::SearchArea ==> *final(self) == *old(self),
            old(self).current_area == CurrentArea::SearchArea ==> search_confirmed(*old(self), *final(self)),
    {
        if self.current_area != CurrentArea::SearchArea {
            return ;
        }
        if self.former_area == Some(FormerArea::TagArea) {
            self.current_area = CurrentArea::TagArea;
            let sel = first_row_exec(self.tag_list.tag_list_items.len());
            self.tag_list.tag_list_state.select(sel);
            self.tag_list.tag_scroll_state = self.tag_list.tag_scroll_state.position(thumb_of_exec(sel));
        } else {
            self.current_area = CurrentArea::EntryArea;
            let sel = first_row_exec(self.entry_table.entry_table_items.len());
            self.entry_table.entry_table_state.select(sel);
            self.entry_table.entry_scroll_state = self.entry_table.entry_scroll_state.position(thumb_of_exec(sel));
        }
        self.entry_table.entry_table_at_search_start = Vec::new();
        self.entry_table.entry_selected_at_search_start = None;
        self.tag_list.tag_list_at_search_start = Vec::new();
        self.tag_list.tag_selected_at_search_start = None;
        self.former_area = None;
        self.search_struct.inner_search = false;
        self.search_struct.search_string = String::new();
    }

    /// Aborts the search. A chained search restores the lists and both
    /// selections of its start; any other search drops all filtering (as a
    /// reset does) and selects again the record and the keyword selected at
    /// its start. The area the search started from gets the input back.
    pub fn break_search(&mut self)
        requires
            old(self).wf(),
        ensures
            final(self).wf(),
            old(self).current_area != CurrentArea::SearchArea ==> *final(self) == *old(self),
            old(self).current_area == CurrentArea::SearchArea ==> search_aborted(*old(self), *final(self)),
    {
        if self.current_area != CurrentArea::SearchArea {
            return ;
        }
        if self.former_area == Some(FormerArea::TagArea) {
            self.current_area = CurrentArea::TagArea;
        } else {
            self.current_area = CurrentArea::EntryArea;
        }
        self.former_area = None;
        if self.search_struct.inner_search {
            let entries = copy_items(&self.entry_table.entry_table_at_search_start);
            let n = entries.len();
            let saved = self.entry_table.entry_selected_at_search_start;
            let sel = match saved {
                Some(i) => if i < n {
                    Some(i)
                } else {
                    last_row_exec(n)
                },
                None => None,
            };
            self.entry_table.entry_table_items = entries;
            self.entry_table.entry_table_state.select(sel);
            self.entry_table.entry_scroll_state = ScrollbarState { content_length: n, position: thumb_of_exec(sel) };
            let tags = copy_strings(&self.tag_list.tag_list_at_search_start);
            let m = tags.len();
            let tsel = match self.tag_list.tag_selected_at_search_start {
                Some(i) => if i < m {
                    Some(i)
                } else {
                    last_row_exec(m)
                },
                None => None,
            };
            self.tag_list.tag_list_items = tags;
            self.tag_list.tag_list_state.select(tsel);
            self.tag_list.tag_scroll_state = ScrollbarState { content_length: m, position: thumb_of_exec(tsel) };
            self.entry_table.entry_table_at_search_start = Vec::new();
            self.entry_table.entry_selected_at_search_start = None;
            self.tag_list.tag_list_at_search_start = Vec::new();
            self.tag_list.tag_selected_at_search_start = None;
            self.search_struct.inner_search = false;
            self.former_area = None;
        } else {
            let key = match self.entry_table.entry_selected_at_search_start {
                Some(i) => if i < self.entry_table.entry_table_at_search_start.len() {
                    Some(self.entry_table.entry_table_at_search_start[i].citekey.clone())
                } else {
                    None
                },
                None => None,
            };
            let saved_tag = self.tag_list.tag_selected_at_search_start;
            self.reset_lists_unchecked();
            match key {
                Some(k) => self.entry_table.relocate_selection(Some(k)),
                None => {
                    self.entry_table.entry_table_state.select(None);
                    self.entry_table.entry_scroll_state = self.entry_table.entry_scroll_state.position(0);
                },
            }
            let m = self.tag_list.tag_list_items.len();
            let tsel = match saved_tag {
                Some(i) => if i < m {
                    Some(i)
                } else {
                    last_row_exec(m)
                },
                None => None,
            };
            self.tag_list.tag_list_state.select(tsel);
            self.tag_list.tag_scroll_state = self.tag_list.tag_scroll_state.position(thumb_of_exec(tsel));
        }
        self.search_struct.search_string = String::new();
    }

    fn apply_search_string(&mut self, pattern: String)
        requires
            old(self).wf(),
            pattern@.len() <= MAX_PATTERN_LEN,
            old(self).current_area == CurrentArea::SearchArea,
        ensures
            final(self).wf(),
            pattern_applied(*old(self), *final(self), pattern@),
    {
        self.search_struct.search_string = pattern;
        if self.former_area == Some(FormerArea::TagArea) {
            self.search_tags();
        } else {
            self.search_entries();
            self.filter_tags_by_entries();
        }
    }

    /// Types `search_pattern` into the search bar and filters at once; a
    /// search text already `MAX_PATTERN_LEN` long takes no more.
    pub fn search_pattern_push(&mut self, search_pattern: char)
        requires
            old(self).wf(),
        ensures
            final(self).wf(),
            old(self).current_area != CurrentArea::SearchArea
                || old(self).search_struct.search_string@.len() >= MAX_PATTERN_LEN ==> *final(self) == *old(self),
            old(self).current_area == CurrentArea::SearchArea
                && old(self).search_struct.search_string@.len() < MAX_PATTERN_LEN ==> pattern_applied(
                *old(self),
                *final(self),
                old(self).search_struct.search_string@.push(search_pattern),
            ),
    {
        if self.current_area != CurrentArea::SearchArea {
            return ;
        }
        if self.search_struct.search_string.as_str().unicode_len() >= MAX_PATTERN_LEN {
            return ;
        }
        let mut pattern = self.search_struct.search_string.clone();
        push_char(&mut pattern, search_pattern);
        self.apply_search_string(pattern);
    }

    /// Deletes the last character of the search bar and filters at once.
    pub fn search_pattern_pop(&mut self)
        requires
            old(self).wf(),
        ensures
            final(self).wf(),
            old(self).current_area != CurrentArea::SearchArea ==> *final(self) == *old(self),
            old(self).current_area == CurrentArea::SearchArea ==> pattern_applied(
                *old(self),
                *final(self),
                if old(self).search_struct.search_string@.len() == 0 {
                    old(self).search_struct.search_string@
                } else {
                    old(self).search_struct.search_string@.drop_last()
                },
            ),
    {
        if self.current_area != CurrentArea::SearchArea {
            return ;
        }
        let pattern = without_last(self.search_struct.search_string.as_str());
        self.apply_search_string(pattern);
    }

    /// Replaces the text of the search bar and filters at once; a text
    /// longer than `MAX_PATTERN_LEN` is refused.
    pub fn search_list_by_pattern(&mut self, searchpattern: &str)
        requires
            old(self).wf(),
        ensures
            final(self).wf(),
            old(self).current_area != CurrentArea::SearchArea || searchpattern@.len() > MAX_PATTERN_LEN
                ==> *final(self) == *old(self),
            old(self).current_area == CurrentArea::SearchArea && searchpattern@.len() <= MAX_PATTERN_LEN
                ==> pattern_applied(
                *old(self),
                *final(self),
                searchpattern@,
            ),
    {
        if self.current_area != CurrentArea::SearchArea {
            return ;
        }
        if searchpattern.unicode_len() > MAX_PATTERN_LEN {
            return ;
        }
        self.apply_search_string(searchpattern.to_string());
    }

    /// Moves the cursor of the choice popup one choice down.
    pub fn select_next_choice(&mut self)
        requires
            old(self).wf(),
        ensures
            final(self).wf(),
            final(self).popup_area.popup_state.selected == row_below(
                old(self).popup_area.popup_state.selected,
                1,
                old(self).popup_area.popup_list@.len() as usize,
            ),
            final(self).popup_area.popup_list == old(self).popup_area.popup_list,
            final(self).popup_area.popup_kind == old(self).popup_area.popup_kind,
            final(self).entry_table == old(self).entry_table,
            final(self).tag_list == old(self).tag_list,
            final(self).current_area == old(self).current_area,
            final(self).former_area == old(self).former_area,
            final(self).search_struct == old(self).search_struct,
            final(self).main_biblio == old(self).main_biblio,
    {
        let sel = row_below_exec(self.popup_area.popup_state.selected(), 1, self.popup_area.popup_list.len());
        self.popup_area.popup_state.select(sel);
    }

    /// Moves the cursor of the choice popup one choice up.
    pub fn select_previous_choice(&mut self)
        requires
            old(self).wf(),
        ensures
            final(self).wf(),
            final(self).popup_area.popup_state.selected == row_above(
                old(self).popup_area.popup_state.selected,
                1,
                old(self).popup_area.popup_list@.len() as usize,
            ),
            final(self).popup_area.popup_list == old(self).popup_area.popup_list,
            final(self).popup_area.popup_kind == old(self).popup_area.popup_kind,
            final(self).entry_table == old(self).entry_table,
            final(self).tag_list == old(self).tag_list,
            final(self).current_area == old(self).current_area,
            final(self).former_area == old(self).former_area,
            final(self).search_struct == old(self).search_struct,
            final(self).main_biblio == old(self).main_biblio,
    {
        let sel = row_above_exec(self.popup_area.popup_state.selected(), 1, self.popup_area.popup_list.len());
        self.popup_area.popup_state.select(sel);
    }

    /// Offers to open the selected record's web link or file; where it has
    /// neither, says so in an error message. Only from the records, with a
    /// record selected.
    pub fn offer_ressources(&mut self)
        requires
            old(self).wf(),
        ensures
            final(self).wf(),
            !(old(self).current_area == CurrentArea::EntryArea && selected_entry(*old(self)) is Some)
                ==> *final(self) == *old(self),
            old(self).current_area == CurrentArea::EntryArea && selected_entry(*old(self)) is Some
                ==> ressources_offered(*old(self), *final(self), selected_entry(*old(self))->Some_0),
    {
        if self.current_area != CurrentArea::EntryArea {
            return ;
        }
        let idx = match self.entry_table.entry_table_state.selected() {
            Some(i) => if i < self.entry_table.entry_table_items.len() {
                i
            } else {
                return ;
            },
            None => {
                return ;
            },
        };
        let has_link = self.entry_table.entry_table_items[idx].doi_url.is_some();
        let has_file = self.entry_table.entry_table_items[idx].filepath.is_some();
        if has_link || has_file {
            let mut items: Vec<String> = Vec::new();
            if has_link {
                items.push(String::from_str("Weblink (DOI/URL)"));
            }
            if has_file {
                items.push(String::from_str("File (PDF/EPUB)"));
            }
            proof {
                let e = selected_entry(*old(self))->Some_0;
                assert(views(items@) =~= ressource_labels(e));
            }
            self.popup_area.popup_selection(items);
            self.former_area = Some(FormerArea::EntryArea);
            self.current_area = CurrentArea::PopupArea;
        } else {
            let citekey = self.entry_table.entry_table_items[idx].citekey.clone();
            self.show_message("Selected entry has no connected ressources: ", citekey.as_str(), false);
        }
    }
}

/// `n` is `o` after the keyword `kw` narrowed the records.
pub open spec fn keyword_filtered(o: Bibiman, n: Bibiman, kw: Seq<char>) -> bool {
    &&& n.entry_table.entry_table_items@ == entries_with_keyword(kw, o.entry_table.entry_table_items@)
    &&& n.entry_table.entry_table_state.selected == first_row(n.entry_table.entry_table_items@.len() as usize)
    &&& views(n.tag_list.tag_list_items@) == keyword_list_of(n.entry_table.entry_table_items@)
    &&& views(n.tag_list.selected_keywords@) == views(o.tag_list.selected_keywords@).push(kw)
    &&& n.tag_list.tag_list_state.selected is None
    &&& n.current_area == CurrentArea::EntryArea
    &&& n.former_area is None
    &&& n.search_struct.inner_search == o.search_struct.inner_search
    &&& n.main_biblio == o.main_biblio
}

/// `n` is `o` after a search started from its base area.
pub open spec fn search_entered(o: Bibiman, n: Bibiman) -> bool {
    &&& n.current_area == CurrentArea::SearchArea
    &&& n.former_area == former_of(o.current_area)
    &&& n.search_struct.inner_search == (o.tag_list.selected_keywords@.len() > 0)
    &&& n.tag_list.tag_selected_at_search_start == o.tag_list.tag_list_state.selected
    &&& n.entry_table.entry_table_at_search_start@ == o.entry_table.entry_table_items@
    &&& n.entry_table.entry_selected_at_search_start == o.entry_table.entry_table_state.selected
    &&& n.tag_list.tag_list_at_search_start@ == o.tag_list.tag_list_items@
    &&& n.entry_table.entry_table_items == o.entry_table.entry_table_items
    &&& n.entry_table.entry_table_state == o.entry_table.entry_table_state
    &&& n.tag_list.tag_list_items == o.tag_list.tag_list_items
    &&& n.tag_list.tag_list_state == o.tag_list.tag_list_state
    &&& n.tag_list.selected_keywords == o.tag_list.selected_keywords
    &&& n.search_struct.search_string == o.search_struct.search_string
    &&& n.main_biblio == o.main_biblio
}

/// `n` is `o` (searching) after the search text became `p` and the list
/// the search started from was filtered by it.
pub open spec fn pattern_applied(o: Bibiman, n: Bibiman, p: Seq<char>) -> bool {
    &&& n.search_struct.search_string@ == p
    &&& n.search_struct.inner_search == o.search_struct.inner_search
    &&& n.entry_table.entry_table_at_search_start == o.entry_table.entry_table_at_search_start
    &&& n.entry_table.entry_selected_at_search_start == o.entry_table.entry_selected_at_search_start
    &&& n.tag_list.tag_list_at_search_start == o.tag_list.tag_list_at_search_start
    &&& n.tag_list.tag_selected_at_search_start == o.tag_list.tag_selected_at_search_start
    &&& n.tag_list.selected_keywords == o.tag_list.selected_keywords
    &&& n.current_area == o.current_area
    &&& n.former_area == o.former_area
    &&& n.main_biblio == o.main_biblio
    &&& (o.former_area == Some(FormerArea::TagArea) ==> {
        &&& views(n.tag_list.tag_list_items@) == keywords_matching(p, views(o.tag_list.tag_list_at_search_start@))
        &&& n.entry_table == o.entry_table
    })
    &&& (o.former_area != Some(FormerArea::TagArea) ==> {
        &&& n.entry_table.entry_table_items@ == ranked_matches(p, o.entry_table.entry_table_at_search_start@)
        &&& views(n.tag_list.tag_list_items@) == keyword_list_of(n.entry_table.entry_table_items@)
        &&& n.entry_table.entry_table_selected_column == o.entry_table.entry_table_selected_column
        &&& n.entry_table.entry_table_sorted_by_col == o.entry_table.entry_table_sorted_by_col
        &&& n.entry_table.entry_table_reversed_sort == o.entry_table.entry_table_reversed_sort
    })
}

/// `n` is `o` (searching) after the search was confirmed.
pub open spec fn search_confirmed(o: Bibiman, n: Bibiman) -> bool {
    &&& n.current_area == (if o.former_area == Some(FormerArea::TagArea) {
        CurrentArea::TagArea
    } else {
        CurrentArea::EntryArea
    })
    &&& n.former_area is None
    &&& n.search_struct.search_string@.len() == 0
    &&& !n.search_struct.inner_search
    &&& n.entry_table.entry_table_items == o.entry_table.entry_table_items
    &&& n.tag_list.tag_list_items == o.tag_list.tag_list_items
    &&& n.tag_list.selected_keywords == o.tag_list.selected_keywords
    &&& n.entry_table.entry_table_at_search_start@.len() == 0
    &&& n.tag_list.tag_list_at_search_start@.len() == 0
    &&& (o.former_area == Some(FormerArea::TagArea) ==> n.tag_list.tag_list_state.selected == first_row(
        n.tag_list.tag_list_items@.len() as usize,
    ))
    &&& (o.former_area != Some(FormerArea::TagArea) ==> n.entry_table.entry_table_state.selected
        == first_row(n.entry_table.entry_table_items@.len() as usize))
    &&& n.main_biblio == o.main_biblio
}

/// `n` is `o` (searching) after the search was aborted.
pub open spec fn search_aborted(o: Bibiman, n: Bibiman) -> bool {
    let back = if o.former_area == Some(FormerArea::TagArea) {
        CurrentArea::TagArea
    } else {
        CurrentArea::EntryArea
    };
    &&& n.current_area == back
    &&& n.former_area is None
    &&& n.search_struct.search_string@.len() == 0
    &&& !n.search_struct.inner_search
    &&& n.entry_table.entry_table_at_search_start@.len() == 0
    &&& n.entry_table.entry_selected_at_search_start is None
    &&& n.tag_list.tag_list_at_search_start@.len() == 0
    &&& n.tag_list.tag_selected_at_search_start is None
    &&& (o.search_struct.inner_search ==> {
        &&& n.entry_table.entry_table_items@ == o.entry_table.entry_table_at_search_start@
        &&& n.entry_table.entry_table_state.selected == keep_if_fits(
            o.entry_table.entry_selected_at_search_start,
            o.entry_table.entry_table_at_search_start@.len(),
        )
        &&& n.tag_list.tag_list_items@ == o.tag_list.tag_list_at_search_start@
        &&& n.tag_list.tag_list_state.selected == keep_if_fits(
            o.tag_list.tag_selected_at_search_start,
            o.tag_list.tag_list_at_search_start@.len(),
        )
        &&& n.tag_list.selected_keywords == o.tag_list.selected_keywords
        &&& n.main_biblio == o.main_biblio
    })
    &&& (!o.search_struct.inner_search ==> {
        &&& lists_reset(Bibiman { current_area: back, ..o }, n)
        &&& n.entry_table.entry_table_state.selected == match key_at(
            o.entry_table.entry_table_at_search_start@,
            o.entry_table.entry_selected_at_search_start,
        ) {
            Some(k) => position_of_key(n.entry_table.entry_table_items@, Some(k)),
            None => None,
        }
        &&& n.tag_list.tag_list_state.selected == keep_if_fits(
            o.tag_list.tag_selected_at_search_start,
            n.tag_list.tag_list_items@.len(),
        )
    })
}

} // verus!