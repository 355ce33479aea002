use vstd::prelude::*;
use vstd::string::*;
use crate::bibiman::{
    area_of, entries_moved, is_base, keyword_filtered, pattern_applied, popup_closed,
    ressources_offered, toggled, FormerArea, popup_opened, reset_post, search_aborted,
    search_confirmed, search_entered, selected_entry, tags_moved, Bibiman, CurrentArea,
};
use crate::entries::{key_at, position_of_key, sorted_from, EntryTableColumn, EntryTableItem};
use crate::popup::{insert_char, remove_char, PopupKind};
use crate::scroll::{first_row, last_row, row_above, row_below, thumb_of};
use crate::text::{chars_of, contains_chars, occurs_in, trim, trimmed};
use crate::search::MAX_PATTERN_LEN;
use crate::weblink::{prepare_weblink, weblink_of};

verus! {

/// What the search bar does with a key.
#[derive(Debug, Clone, Copy, PartialEq, Eq, Structural)]
pub enum InputCmdAction {
    Nothing,
    Insert(char),
    Delete,
    Enter,
    Confirm,
    Exit,
}

/// A command decoded from a key press or a mouse event.
#[derive(Debug, Clone, Copy, PartialEq, Eq, Structural)]
pub enum CmdAction {
    ToggleArea,
    SelectNextRow(u16),
    SelectPrevRow(u16),
    SelectNextCol,
    SelectPrevCol,
    ScrollInfoDown,
    ScrollInfoUp,
    Top,
    Bottom,
    SearchList,
    Reset,
    Confirm,
    SortList,
    YankItem,
    EditFile,
    Open,
    Input(InputCmdAction),
    Exit,
    ShowHelp,
    AddEntry,
    Nothing,
}

/// The key of a key press, as far as the commands tell keys apart.
#[derive(Debug, Clone, Copy, PartialEq, Eq, Structural)]
pub enum KeyCode {
    Char(char),
    Up,
    Down,
    Left,
    Right,
    Home,
    End,
    PageUp,
    PageDown,
    Tab,
    BackTab,
    Enter,
    Esc,
    Backspace,
    Other,
}

/// A key press: the key and the modifiers held.
#[derive(Debug, Clone, Copy, PartialEq, Eq, Structural)]
pub struct KeyInput {
    pub code: KeyCode,
    pub ctrl: bool,
    pub alt: bool,
    pub shift: bool,
}

/// Control held, and no other modifier.
pub open spec fn ctrl_only(k: KeyInput) -> bool {
    k.ctrl && !k.alt && !k.shift
}

/// Alt held, and no other modifier.
pub open spec fn alt_only(k: KeyInput) -> bool {
    k.alt && !k.ctrl && !k.shift
}

/// What a key does in the search bar.
pub open spec fn input_action_of(key: KeyInput, pattern_empty: bool) -> InputCmdAction {
    match key.code {
        KeyCode::Esc => InputCmdAction::Exit,
        KeyCode::Enter => InputCmdAction::Confirm,
        KeyCode::Backspace => if pattern_empty {
            InputCmdAction::Nothing
        } else {
            InputCmdAction::Delete
        },
        KeyCode::Char(c) => InputCmdAction::Insert(c),
        _ => InputCmdAction::Nothing,
    }
}

/// The key of the add-entry form that a key press stands for.
pub open spec fn form_key_of(key: KeyInput) -> FormKey {
    match key.code {
        KeyCode::Char(c) => FormKey::Char(c),
        KeyCode::Backspace => FormKey::Backspace,
        KeyCode::Left => FormKey::Left,
        KeyCode::Right => FormKey::Right,
        KeyCode::Enter => FormKey::Enter,
        KeyCode::Esc => FormKey::Esc,
        _ => FormKey::Other,
    }
}

/// The command of a key press outside the search bar.
pub open spec fn key_command(key: KeyInput, cmd: CmdAction) -> bool {
    &&& (key.code == KeyCode::Char('g') || key.code == KeyCode::Home ==> cmd == CmdAction::Top)
    &&& (key.code == KeyCode::Char('G') || key.code == KeyCode::End ==> cmd == CmdAction::Bottom)
    &&& (key.code == KeyCode::Char('l') || key.code == KeyCode::Right ==> cmd == CmdAction::SelectNextCol)
    &&& (key.code == KeyCode::Char('h') || key.code == KeyCode::Left ==> cmd == CmdAction::SelectPrevCol)
    &&& (key.code == KeyCode::Char('j') || key.code == KeyCode::Down ==> cmd == (if alt_only(key) {
        CmdAction::ScrollInfoDown
    } else {
        CmdAction::SelectNextRow(1)
    }))
    &&& (key.code == KeyCode::Char('k') || key.code == KeyCode::Up ==> cmd == (if alt_only(key) {
        CmdAction::ScrollInfoUp
    } else {
        CmdAction::SelectPrevRow(1)
    }))
    &&& (key.code == KeyCode::Char('d') ==> cmd == (if ctrl_only(key) {
        CmdAction::SelectNextRow(5)
    } else {
        CmdAction::Nothing
    }))
    &&& (key.code == KeyCode::Char('u') ==> cmd == (if ctrl_only(key) {
        CmdAction::SelectPrevRow(5)
    } else {
        CmdAction::Nothing
    }))
    &&& (key.code == KeyCode::PageDown ==> cmd == CmdAction::ScrollInfoDown)
    &&& (key.code == KeyCode::PageUp ==> cmd == CmdAction::ScrollInfoUp)
    &&& (key.code == KeyCode::Char('q') ==> cmd == CmdAction::Exit)
    &&& (key.code == KeyCode::Char('c') || key.code == KeyCode::Char('C') ==> cmd == (if ctrl_only(key) {
        CmdAction::Exit
    } else {
        CmdAction::Nothing
    }))
    &&& (key.code == KeyCode::Tab || key.code == KeyCode::BackTab ==> cmd == CmdAction::ToggleArea)
    &&& (key.code == KeyCode::Char('/') ==> cmd == CmdAction::Input(InputCmdAction::Enter))
    &&& (key.code == KeyCode::Char('f') ==> cmd == (if ctrl_only(key) {
        CmdAction::Input(InputCmdAction::Enter)
    } else {
        CmdAction::Nothing
    }))
    &&& (key.code == KeyCode::Enter ==> cmd == CmdAction::Confirm)
    &&& (key.code == KeyCode::Esc ==> cmd == CmdAction::Reset)
    &&& (key.code == KeyCode::Char('o') ==> cmd == CmdAction::Open)
    &&& (key.code == KeyCode::Char('e') ==> cmd == CmdAction::EditFile)
    &&& (key.code == KeyCode::Char('y') ==> cmd == CmdAction::YankItem)
    &&& (key.code == KeyCode::Char('s') ==> cmd == CmdAction::SortList)
    &&& (key.code == KeyCode::Char('a') ==> cmd == CmdAction::AddEntry)
    &&& (key.code == KeyCode::Char('?') ==> cmd == CmdAction::ShowHelp)
    &&& (key.code == KeyCode::Backspace || key.code == KeyCode::Other ==> cmd == CmdAction::Nothing)
}

impl InputCmdAction {
    /// What a key does in the search bar: Esc leaves it, Enter confirms,
    /// Backspace deletes (nothing once the text is empty), a character is
    /// typed; other keys do nothing.
    pub fn parse(key: KeyInput, pattern_empty: bool) -> (r: Self)
        ensures
            r == input_action_of(key, pattern_empty),
    {
        match key.code {
            KeyCode::Esc => InputCmdAction::Exit,
            KeyCode::Enter => InputCmdAction::Confirm,
            KeyCode::Backspace => if pattern_empty {
                InputCmdAction::Nothing
            } else {
                InputCmdAction::Delete
            },
            KeyCode::Char(c) => InputCmdAction::Insert(c),
            _ => InputCmdAction::Nothing,
        }
    }
}

impl CmdAction {
    /// The command of a key press outside the search bar.
    pub fn from_key(key: KeyInput) -> (r: Self)
        ensures
            key_command(key, r),
    {
        let ctrl = key.ctrl && !key.alt && !key.shift;
        let alt = key.alt && !key.ctrl && !key.shift;
        match key.code {
            KeyCode::Char('g') | KeyCode::Home => CmdAction::Top,
            KeyCode::Char('G') | KeyCode::End => CmdAction::Bottom,
            KeyCode::Char('l') | KeyCode::Right => CmdAction::SelectNextCol,
            KeyCode::Char('h') | KeyCode::Left => CmdAction::SelectPrevCol,
            KeyCode::Char('j') | KeyCode::Down => if alt {
                CmdAction::ScrollInfoDown
            } else {
                CmdAction::SelectNextRow(1)
            },
            KeyCode::Char('k') | KeyCode::Up => if alt {
                CmdAction::ScrollInfoUp
            } else {
                CmdAction::SelectPrevRow(1)
            },
            KeyCode::Char('d') => if ctrl {
                CmdAction::SelectNextRow(5)
            } else {
                CmdAction::Nothing
            },
            KeyCode::Char('u') => if ctrl {
                CmdAction::SelectPrevRow(5)
            } else {
                CmdAction::Nothing
            },
            KeyCode::PageDown => CmdAction::ScrollInfoDown,
            KeyCode::PageUp => CmdAction::ScrollInfoUp,
            KeyCode::Char('q') => CmdAction::Exit,
            KeyCode::Char('c') | KeyCode::Char('C') => if ctrl {
                CmdAction::Exit
            } else {
                CmdAction::Nothing
            },
            KeyCode::Tab | KeyCode::BackTab => CmdAction::ToggleArea,
            KeyCode::Char('/') => CmdAction::Input(InputCmdAction::Enter),
            KeyCode::Char('f') => if ctrl {
                CmdAction::Input(InputCmdAction::Enter)
            } else {
                CmdAction::Nothing
            },
            KeyCode::Enter => CmdAction::Confirm,
            KeyCode::Esc => CmdAction::Reset,
            KeyCode::Char('o') => CmdAction::Open,
            KeyCode::Char('e') => CmdAction::EditFile,
            KeyCode::Char('y') => CmdAction::YankItem,
            KeyCode::Char('s') => CmdAction::SortList,
            KeyCode::Char('a') => CmdAction::AddEntry,
            KeyCode::Char('?') => CmdAction::ShowHelp,
            _ => CmdAction::Nothing,
        }
    }
}

/// A key of the add-entry form.
#[derive(Debug, Clone, Copy, PartialEq, Eq, Structural)]
pub enum FormKey {
    Char(char),
    Backspace,
    Left,
    Right,
    Enter,
    Esc,
    Other,
}

/// Work outside the state that a command asks for.
#[derive(Debug, Clone, PartialEq, Eq)]
pub enum Effect {
    Nothing,
    Quit,
    OpenLink(String),
    OpenFile(String),
    Yank(String),
    EditFile(String),
    SubmitEntry(String),
}

/// The application: whether it runs, the browser state, and whether key
/// presses go to the search bar.
#[derive(Debug)]
pub struct App {
    pub running: bool,
    pub bibiman: Bibiman,
    pub input_mode: bool,
}

/// What confirming the choice popup of `b` asks for: opening the selected
/// record's web link (prepared by `weblink_of`) or its file, depending on
/// the label chosen.
pub open spec fn ressource_effect(b: Bibiman, r: Effect) -> bool {
    match (b.popup_area.popup_state.selected, selected_entry(b)) {
        (Some(i), Some(e)) => {
            let label = b.popup_area.popup_list@[i as int]@;
            if occurs_in("Weblink"@, label) && e.doi_url is Some {
                match r {
                    Effect::OpenLink(u) => u@ == weblink_of(e.doi_url->Some_0@),
                    _ => false,
                }
            } else if !occurs_in("Weblink"@, label) && occurs_in("File"@, label) && e.filepath is Some {
                r == Effect::OpenFile(e.filepath->Some_0)
            } else {
                r == Effect::Nothing
            }
        },
        _ => r == Effect::Nothing,
    }
}

/// `n` is `o` after `cmd` ran, asking for the outside work `r`.
pub open spec fn command_run(o: App, n: App, cmd: CmdAction, r: Effect) -> bool {
    let ob = o.bibiman;
    let nb = n.bibiman;
    &&& (cmd == CmdAction::Exit ==> !n.running && r == Effect::Quit && nb == ob)
    &&& (cmd != CmdAction::Exit ==> n.running == o.running)
    &&& (!(cmd == CmdAction::YankItem || cmd == CmdAction::EditFile || cmd == CmdAction::Confirm
        || cmd == CmdAction::Exit) ==> r == Effect::Nothing)
    &&& (cmd == CmdAction::Nothing || cmd == CmdAction::SearchList ==> nb == ob)
    &&& (cmd == CmdAction::Input(InputCmdAction::Enter) ==> n.input_mode && (is_base(ob.current_area)
        ==> search_entered(ob, nb)))
    &&& (cmd == CmdAction::Input(InputCmdAction::Confirm) ==> !n.input_mode && (ob.current_area
        == CurrentArea::SearchArea ==> search_confirmed(ob, nb)))
    &&& (cmd == CmdAction::Input(InputCmdAction::Exit) ==> !n.input_mode && (ob.current_area
        == CurrentArea::SearchArea ==> search_aborted(ob, nb)))
    &&& (forall|c: char|
        cmd == CmdAction::Input(InputCmdAction::Insert(c)) && ob.current_area == CurrentArea::SearchArea
            && ob.search_struct.search_string@.len() < MAX_PATTERN_LEN ==> pattern_applied(
            ob,
            nb,
            ob.search_struct.search_string@.push(c),
        ))
    &&& (cmd == CmdAction::Input(InputCmdAction::Delete) && ob.current_area == CurrentArea::SearchArea
        ==> pattern_applied(
        ob,
        nb,
        if ob.search_struct.search_string@.len() == 0 {
            ob.search_struct.search_string@
        } else {
            ob.search_struct.search_string@.drop_last()
        },
    ))
    &&& (forall|m: u16|
        cmd == CmdAction::SelectNextRow(m) && ob.current_area == CurrentArea::EntryArea ==> nb
            == entries_moved(
            ob,
            row_below(
                ob.entry_table.entry_table_state.selected,
                m as usize,
                ob.entry_table.entry_table_items@.len() as usize,
            ),
        ))
    &&& (forall|m: u16|
        cmd == CmdAction::SelectNextRow(m) && ob.current_area == CurrentArea::TagArea ==> nb
            == tags_moved(
            ob,
            row_below(ob.tag_list.tag_list_state.selected, m as usize, ob.tag_list.tag_list_items@.len() as usize),
        ))
    &&& (forall|m: u16|
        cmd == CmdAction::SelectPrevRow(m) && ob.current_area == CurrentArea::EntryArea ==> nb
            == entries_moved(
            ob,
            row_above(
                ob.entry_table.entry_table_state.selected,
                m as usize,
                ob.entry_table.entry_table_items@.len() as usize,
            ),
        ))
    &&& (forall|m: u16|
        cmd == CmdAction::SelectPrevRow(m) && ob.current_area == CurrentArea::TagArea ==> nb
            == tags_moved(
            ob,
            row_above(ob.tag_list.tag_list_state.selected, m as usize, ob.tag_list.tag_list_items@.len() as usize),
        ))
    &&& (forall|m: u16|
        cmd == CmdAction::SelectNextRow(m) && ob.current_area == CurrentArea::PopupArea
            && ob.popup_area.popup_kind == Some(PopupKind::Help) ==> nb.popup_area.popup_scroll_pos == (
        if ob.popup_area.popup_scroll_pos == u16::MAX {
            u16::MAX
        } else {
            (ob.popup_area.popup_scroll_pos + 1) as u16
        }))
    &&& (forall|m: u16|
        cmd == CmdAction::SelectPrevRow(m) && ob.current_area == CurrentArea::PopupArea
            && ob.popup_area.popup_kind == Some(PopupKind::Help) ==> nb.popup_area.popup_scroll_pos == (
        if ob.popup_area.popup_scroll_pos == 0 {
            0
        } else {
            (ob.popup_area.popup_scroll_pos - 1) as u16
        }))
    &&& (forall|m: u16|
        cmd == CmdAction::SelectNextRow(m) && ob.current_area == CurrentArea::PopupArea
            && ob.popup_area.popup_kind == Some(PopupKind::Selection)
            ==> nb.popup_area.popup_state.selected == row_below(
            ob.popup_area.popup_state.selected,
            1,
            ob.popup_area.popup_list@.len() as usize,
        ))
    &&& (forall|m: u16|
        cmd == CmdAction::SelectPrevRow(m) && ob.current_area == CurrentArea::PopupArea
            && ob.popup_area.popup_kind == Some(PopupKind::Selection)
            ==> nb.popup_area.popup_state.selected == row_above(
            ob.popup_area.popup_state.selected,
            1,
            ob.popup_area.popup_list@.len() as usize,
        ))
    &&& (cmd == CmdAction::Top && ob.current_area == CurrentArea::EntryArea ==> nb == entries_moved(
        ob,
        first_row(ob.entry_table.entry_table_items@.len() as usize),
    ))
    &&& (cmd == CmdAction::Bottom && ob.current_area == CurrentArea::EntryArea ==> nb == entries_moved(
        ob,
        last_row(ob.entry_table.entry_table_items@.len() as usize),
    ))
    &&& (cmd == CmdAction::Top && ob.current_area == CurrentArea::TagArea ==> nb == tags_moved(
        ob,
        first_row(ob.tag_list.tag_list_items@.len() as usize),
    ))
    &&& (cmd == CmdAction::Bottom && ob.current_area == CurrentArea::TagArea ==> nb == tags_moved(
        ob,
        last_row(ob.tag_list.tag_list_items@.len() as usize),
    ))
    &&& (cmd == CmdAction::SelectNextCol && ob.current_area == CurrentArea::EntryArea
        ==> nb.entry_table.entry_table_selected_column == match ob.entry_table.entry_table_selected_column {
        EntryTableColumn::Authors => EntryTableColumn::Title,
        EntryTableColumn::Title => EntryTableColumn::Year,
        EntryTableColumn::Year => EntryTableColumn::Pubtype,
        EntryTableColumn::Pubtype => EntryTableColumn::Authors,
    })
    &&& (cmd == CmdAction::SelectPrevCol && ob.current_area == CurrentArea::EntryArea
        ==> nb.entry_table.entry_table_selected_column == match ob.entry_table.entry_table_selected_column {
        EntryTableColumn::Authors => EntryTableColumn::Pubtype,
        EntryTableColumn::Title => EntryTableColumn::Authors,
        EntryTableColumn::Year => EntryTableColumn::Title,
        EntryTableColumn::Pubtype => EntryTableColumn::Year,
    })
    &&& ((cmd == CmdAction::SelectNextCol || cmd == CmdAction::SelectPrevCol) && ob.current_area
        != CurrentArea::EntryArea ==> nb == ob)
    &&& (cmd == CmdAction::ScrollInfoDown ==> nb.entry_table.entry_info_scroll == (
    if ob.entry_table.entry_info_scroll == u16::MAX {
        u16::MAX
    } else {
        (ob.entry_table.entry_info_scroll + 1) as u16
    }))
    &&& (cmd == CmdAction::ScrollInfoUp ==> nb.entry_table.entry_info_scroll == (
    if ob.entry_table.entry_info_scroll == 0 {
        0
    } else {
        (ob.entry_table.entry_info_scroll - 1) as u16
    }))
    &&& (cmd == CmdAction::ToggleArea ==> nb == toggled(ob))
    &&& (cmd == CmdAction::Reset && is_base(ob.current_area) ==> reset_post(ob, nb))
    &&& (cmd == CmdAction::Reset && ob.current_area == CurrentArea::PopupArea && (
    ob.popup_area.popup_kind == Some(PopupKind::Help) || ob.popup_area.popup_kind == Some(
        PopupKind::Selection,
    )) ==> popup_closed(ob, nb))
    &&& (cmd == CmdAction::Reset && ob.current_area == CurrentArea::PopupArea
        && ob.popup_area.popup_kind != Some(PopupKind::Help) && ob.popup_area.popup_kind != Some(
        PopupKind::Selection,
    ) ==> nb == ob)
    &&& (cmd == CmdAction::ShowHelp && is_base(ob.current_area) ==> popup_opened(ob, nb, PopupKind::Help))
    &&& (cmd == CmdAction::AddEntry && is_base(ob.current_area) ==> popup_opened(
        ob,
        nb,
        PopupKind::AddEntry,
    ))
    &&& (cmd == CmdAction::SortList && ob.current_area == CurrentArea::EntryArea ==> {
        &&& sorted_from(ob.entry_table, nb.entry_table, true)
        &&& nb.entry_table.entry_table_state.selected == position_of_key(
            nb.entry_table.entry_table_items@,
            key_at(ob.entry_table.entry_table_items@, ob.entry_table.entry_table_state.selected),
        )
        &&& nb.entry_table.entry_scroll_state.position == thumb_of(nb.entry_table.entry_table_state.selected)
    })
    &&& (cmd == CmdAction::YankItem && ob.current_area == CurrentArea::EntryArea ==> match selected_entry(ob) {
        Some(e) => {
            &&& (match r {
                Effect::Yank(k) => k@ == e.citekey@,
                _ => false,
            })
            &&& nb.current_area == CurrentArea::PopupArea
            &&& nb.former_area == Some(FormerArea::EntryArea)
            &&& nb.popup_area.popup_kind == Some(PopupKind::MessageConfirm)
            &&& nb.popup_area.popup_message@ == "Yanked citekey to clipboard: "@ + e.citekey@
            &&& nb.entry_table == ob.entry_table
            &&& nb.tag_list == ob.tag_list
        },
        None => r == Effect::Nothing && nb == ob,
    })
    &&& (cmd == CmdAction::EditFile && ob.current_area == CurrentArea::EntryArea ==> match selected_entry(ob) {
        Some(e) => nb == ob && match r {
            Effect::EditFile(k) => k@ == e.citekey@,
            _ => false,
        },
        None => r == Effect::Nothing,
    })
    &&& (cmd == CmdAction::Open && ob.current_area == CurrentArea::EntryArea && selected_entry(ob) is Some
        ==> ressources_offered(ob, nb, selected_entry(ob)->Some_0))
    &&& (cmd == CmdAction::Open && !(ob.current_area == CurrentArea::EntryArea && selected_entry(ob) is Some)
        ==> nb == ob)
    &&& (cmd == CmdAction::Confirm && ob.current_area == CurrentArea::TagArea
        && ob.tag_list.tag_list_state.selected is Some ==> keyword_filtered(
        ob,
        nb,
        ob.tag_list.tag_list_items@[ob.tag_list.tag_list_state.selected->Some_0 as int]@,
    ))
    &&& (cmd == CmdAction::Confirm && ob.current_area != CurrentArea::PopupArea ==> r == Effect::Nothing)
    &&& (cmd == CmdAction::Confirm && (ob.current_area == CurrentArea::EntryArea || ob.current_area
        == CurrentArea::SearchArea) ==> nb == ob)
    &&& (cmd == CmdAction::Confirm && ob.current_area == CurrentArea::PopupArea && ob.popup_area.popup_kind
        == Some(PopupKind::Help) ==> popup_closed(ob, nb) && r == Effect::Nothing)
    &&& (cmd == CmdAction::Confirm && ob.current_area == CurrentArea::PopupArea && ob.popup_area.popup_kind
        == Some(PopupKind::Selection) ==> popup_closed(ob, nb) && ressource_effect(ob, r))
    &&& (cmd == CmdAction::Confirm && ob.current_area == CurrentArea::PopupArea && ob.popup_area.popup_kind
        != Some(PopupKind::Help) && ob.popup_area.popup_kind != Some(PopupKind::Selection) ==> nb == ob
        && r == Effect::Nothing)
}

/// `n` is `o` after `key` reached the add-entry form, asking for `r`.
pub open spec fn form_key_handled(o: App, n: App, key: FormKey, r: Effect) -> bool {
    let op = o.bibiman.popup_area;
    let np = n.bibiman.popup_area;
    &&& n.running == o.running
    &&& (!(o.bibiman.current_area == CurrentArea::PopupArea && op.popup_kind == Some(PopupKind::AddEntry))
        ==> n.bibiman == o.bibiman && r == Effect::Nothing)
    &&& (o.bibiman.current_area == CurrentArea::PopupArea && op.popup_kind == Some(PopupKind::AddEntry) ==> {
        &&& (forall|c: char|
            key == FormKey::Char(c) && op.add_entry_input@.len() < usize::MAX ==> np.add_entry_input@
                == insert_char(op.add_entry_input@, op.add_entry_cursor_position as int, c)
                && np.add_entry_cursor_position == op.add_entry_cursor_position + 1)
        &&& (key == FormKey::Backspace && op.add_entry_cursor_position > 0 ==> np.add_entry_input@
            == remove_char(op.add_entry_input@, op.add_entry_cursor_position - 1)
            && np.add_entry_cursor_position == op.add_entry_cursor_position - 1)
        &&& (key == FormKey::Left ==> np.add_entry_input == op.add_entry_input
            && np.add_entry_cursor_position == (if op.add_entry_cursor_position == 0 {
            0
        } else {
            (op.add_entry_cursor_position - 1) as usize
        }))
        &&& (key == FormKey::Right ==> np.add_entry_input == op.add_entry_input
            && np.add_entry_cursor_position == (if op.add_entry_cursor_position < op.add_entry_input@.len() {
            (op.add_entry_cursor_position + 1) as usize
        } else {
            op.add_entry_cursor_position
        }))
        &&& (key == FormKey::Esc ==> np.is_cleared() && n.bibiman.current_area == area_of(
            o.bibiman.former_area->Some_0,
        ) && !n.input_mode)
        &&& (key == FormKey::Enter ==> n.bibiman == o.bibiman && match r {
            Effect::SubmitEntry(t) => t@ == trimmed(op.add_entry_input@),
            _ => false,
        })
        &&& (key != FormKey::Enter ==> r == Effect::Nothing)
    })
}

impl App {
    pub open spec fn wf(&self) -> bool {
        self.bibiman.wf()
    }

    /// A running application over `entry_list`.
    pub fn new(entry_list: Vec<EntryTableItem>) -> (r: Self)
        ensures
            r.wf(),
            r.running,
            !r.input_mode,
            r.bibiman.main_biblio.entry_list@ == entry_list@,
            r.bibiman.current_area == CurrentArea::EntryArea,
    {
        App { running: true, bibiman: Bibiman::new(entry_list), input_mode: false }
    }

    /// Handles the tick event of the terminal.
    pub fn tick(&self) {
    }

    /// Stops the application.
    pub fn quit(&mut self)
        ensures
            !final(self).running,
            final(self).bibiman == old(self).bibiman,
            final(self).input_mode == old(self).input_mode,
    {
        self.running = false;
    }

    /// Runs a command in the area that has the input, and says what work
    /// outside the state it asks for.
    #[verifier::rlimit(60)]
    pub fn run_command(&mut self, cmd: CmdAction) -> (r: Effect)
        requires
            old(self).wf(),
        ensures
            final(self).wf(),
            command_run(*old(self), *final(self), cmd, r),
    {
        match cmd {
            CmdAction::Input(icmd) => {
                match icmd {
                    InputCmdAction::Nothing => {},
                    InputCmdAction::Insert(c) => {
                        self.bibiman.search_pattern_push(c);
                    },
                    InputCmdAction::Delete => {
                        self.bibiman.search_pattern_pop();
                    },
                    InputCmdAction::Enter => {
                        self.input_mode = true;
                        self.bibiman.enter_search_area();
                    },
                    InputCmdAction::Confirm => {
                        self.input_mode = false;
                        self.bibiman.confirm_search();
                    },
                    InputCmdAction::Exit => {
                        self.input_mode = false;
                        self.bibiman.break_search();
                    },
                }
                Effect::Nothing
            },
            CmdAction::SelectNextRow(amount) => {
                match self.bibiman.current_area {
                    CurrentArea::EntryArea => self.bibiman.select_next_entry(amount),
                    CurrentArea::TagArea => self.bibiman.select_next_tag(amount),
                    CurrentArea::PopupArea => {
                        if self.bibiman.popup_area.popup_kind == Some(PopupKind::Help) {
                            self.bibiman.popup_area.popup_scroll_down();
                        } else if self.bibiman.popup_area.popup_kind == Some(PopupKind::Selection) {
                            self.bibiman.select_next_choice();
                        }
                    },
                    _ => {},
                }
                Effect::Nothing
            },
            CmdAction::SelectPrevRow(amount) => {
                match self.bibiman.current_area {
                    CurrentArea::EntryArea => self.bibiman.select_previous_entry(amount),
                    CurrentArea::TagArea => self.bibiman.select_previous_tag(amount),
                    CurrentArea::PopupArea => {
                        if self.bibiman.popup_area.popup_kind == Some(PopupKind::Help) {
                            self.bibiman.popup_area.popup_scroll_up();
                        } else if self.bibiman.popup_area.popup_kind == Some(PopupKind::Selection) {
                            self.bibiman.select_previous_choice();
                        }
                    },
                    _ => {},
                }
                Effect::Nothing
            },
            CmdAction::SelectNextCol => {
                if self.bibiman.current_area == CurrentArea::EntryArea {
                    self.bibiman.select_next_column();
                }
                Effect::Nothing
            },
            CmdAction::SelectPrevCol => {
                if self.bibiman.current_area == CurrentArea::EntryArea {
                    self.bibiman.select_prev_column();
                }
                Effect::Nothing
            },
            CmdAction::ScrollInfoDown => {
                self.bibiman.scroll_info_down();
                Effect::Nothing
            },
            CmdAction::ScrollInfoUp => {
                self.bibiman.scroll_info_up();
                Effect::Nothing
            },
            CmdAction::Bottom => {
                match self.bibiman.current_area {
                    CurrentArea::EntryArea => self.bibiman.select_last_entry(),
                    CurrentArea::TagArea => self.bibiman.select_last_tag(),
                    _ => {},
                }
                Effect::Nothing
            },
            CmdAction::Top => {
                match self.bibiman.current_area {
                    CurrentArea::EntryArea => self.bibiman.select_first_entry(),
                    CurrentArea::TagArea => self.bibiman.select_first_tag(),
                    _ => {},
                }
                Effect::Nothing
            },
            CmdAction::ToggleArea => {
                self.bibiman.toggle_area();
                Effect::Nothing
            },
            CmdAction::SearchList => Effect::Nothing,
            CmdAction::Reset => {
                if self.bibiman.current_area == CurrentArea::PopupArea {
                    if self.bibiman.popup_area.popup_kind == Some(PopupKind::Help)
                        || self.bibiman.popup_area.popup_kind == Some(PopupKind::Selection) {
                        self.bibiman.close_popup();
                    }
                } else {
                    self.bibiman.reset_current_list();
                }
                Effect::Nothing
            },
            CmdAction::Confirm => {
                if self.bibiman.current_area == CurrentArea::TagArea {
                    self.bibiman.filter_for_tags();
                    Effect::Nothing
                } else if self.bibiman.current_area == CurrentArea::PopupArea {
                    if self.bibiman.popup_area.popup_kind == Some(PopupKind::Help) {
                        self.bibiman.close_popup();
                        Effect::Nothing
                    } else if self.bibiman.popup_area.popup_kind == Some(PopupKind::Selection) {
                        let eff = Self::chosen_ressource(&self.bibiman);
                        self.bibiman.close_popup();
                        eff
                    } else {
                        Effect::Nothing
                    }
                } else {
                    Effect::Nothing
                }
            },
            CmdAction::SortList => {
                if self.bibiman.current_area == CurrentArea::EntryArea {
                    self.bibiman.entry_table.sort_entry_table(true);
                }
                Effect::Nothing
            },
            CmdAction::YankItem => {
                if self.bibiman.current_area == CurrentArea::EntryArea {
                    match self.bibiman.get_selected_citekey() {
                        Some(citekey) => {
                            self.bibiman.show_message(
                                "Yanked citekey to clipboard: ",
                                citekey.as_str(),
                                true,
                            );
                            Effect::Yank(citekey)
                        },
                        None => Effect::Nothing,
                    }
                } else {
                    Effect::Nothing
                }
            },
            CmdAction::EditFile => {
                if self.bibiman.current_area == CurrentArea::EntryArea {
                    match self.bibiman.get_selected_citekey() {
                        Some(citekey) => Effect::EditFile(citekey),
                        None => Effect::Nothing,
                    }
                } else {
                    Effect::Nothing
                }
            },
            CmdAction::Open => {
                if self.bibiman.current_area == CurrentArea::EntryArea {
                    self.bibiman.offer_ressources();
                }
                Effect::Nothing
            },
            CmdAction::AddEntry => {
                self.bibiman.add_entry();
                Effect::Nothing
            },
            CmdAction::ShowHelp => {
                self.bibiman.show_help();
                Effect::Nothing
            },
            CmdAction::Exit => {
                self.quit();
                Effect::Quit
            },
            CmdAction::Nothing => Effect::Nothing,
        }
    }

    /// Handles a key while the add-entry form is open: editing keys edit the
    /// text, Esc closes the form, Enter asks for the record of the typed
    /// text (trimmed) to be added. Does nothing unless the form is open.
    pub fn handle_form_key(&mut self, key: FormKey) -> (r: Effect)
        requires
            old(self).wf(),
        ensures
            final(self).wf(),
            form_key_handled(*old(self), *final(self), key, r),
    {
        if !(self.bibiman.current_area == CurrentArea::PopupArea && self.bibiman.popup_area.popup_kind
            == Some(PopupKind::AddEntry)) {
            return Effect::Nothing;
        }
        match key {
            FormKey::Char(c) => {
                if self.bibiman.popup_area.add_entry_input.as_str().unicode_len() < usize::MAX {
                    self.bibiman.popup_area.add_entry_insert(c);
                }
                Effect::Nothing
            },
            FormKey::Backspace => {
                self.bibiman.popup_area.add_entry_backspace();
                Effect::Nothing
            },
            FormKey::Left => {
                self.bibiman.popup_area.add_entry_left();
                Effect::Nothing
            },
            FormKey::Right => {
                self.bibiman.popup_area.add_entry_right();
                Effect::Nothing
            },
            FormKey::Enter => {
                let text = trim(self.bibiman.popup_area.add_entry_input.as_str());
                Effect::SubmitEntry(text)
            },
            FormKey::Esc => {
                self.bibiman.close_popup();
                self.input_mode = false;
                Effect::Nothing
            },
            FormKey::Other => Effect::Nothing,
        }
    }

    /// The work that confirming the choice popup asks for: opening the
    /// selected record's web link (prepared by `weblink_of`) or its file,
    /// depending on the label chosen.
    fn chosen_ressource(b: &Bibiman) -> (r: Effect)
        requires
            b.wf(),
        ensures
            ressource_effect(*b, r),
    {
        let i = match b.popup_area.popup_state.selected() {
            Some(i) => i,
            None => {
                return Effect::Nothing;
            },
        };
        let e = match b.entry_table.entry_table_state.selected() {
            Some(j) => if j < b.entry_table.entry_table_items.len() {
                &b.entry_table.entry_table_items[j]
            } else {
                return Effect::Nothing;
            },
            None => {
                return Effect::Nothing;
            },
        };
        let label = chars_of(b.popup_area.popup_list[i].as_str());
        let link = chars_of("Weblink");
        let file = chars_of("File");
        if contains_chars(&label, &link) {
            match &e.doi_url {
                Some(u) => Effect::OpenLink(prepare_weblink(u.as_str())),
                None => Effect::Nothing,
            }
        } else if contains_chars(&label, &file) {
            match &e.filepath {
                Some(f) => Effect::OpenFile(f.clone()),
                None => Effect::Nothing,
            }
        } else {
            Effect::Nothing
        }
    }

    /// Handles a key press: while a message is shown the key only dismisses
    /// it; while the add-entry form is open the key edits the form;
    /// otherwise it runs the command it stands for (in the search bar, the
    /// search-bar action).
    pub fn handle_key(&mut self, key: KeyInput) -> (r: Effect)
        requires
            old(self).wf(),
        ensures
            final(self).wf(),
            message_shown(old(self).bibiman) ==> popup_closed(old(self).bibiman, final(self).bibiman)
                && r == Effect::Nothing && final(self).running == old(self).running
                && final(self).input_mode == old(self).input_mode,
            !message_shown(old(self).bibiman) && form_shown(old(self).bibiman) ==> form_key_handled(
                *old(self),
                *final(self),
                form_key_of(key),
                r,
            ),
            !message_shown(old(self).bibiman) && !form_shown(old(self).bibiman) ==> exists|cmd: CmdAction|
                #[trigger] command_run(*old(self), *final(self), cmd, r) && (old(self).input_mode ==> cmd
                    == CmdAction::Input(
                    input_action_of(key, old(self).bibiman.search_struct.search_string@.len() == 0),
                )) && (!old(self).input_mode ==> key_command(key, cmd)),
    {
        if self.bibiman.dismiss_message() {
            return Effect::Nothing;
        }
        if self.bibiman.current_area == CurrentArea::PopupArea && self.bibiman.popup_area.popup_kind
            == Some(PopupKind::AddEntry) {
            let fk = match key.code {
                KeyCode::Char(c) => FormKey::Char(c),
                KeyCode::Backspace => FormKey::Backspace,
                KeyCode::Left => FormKey::Left,
                KeyCode::Right => FormKey::Right,
                KeyCode::Enter => FormKey::Enter,
                KeyCode::Esc => FormKey::Esc,
                _ => FormKey::Other,
            };
            return self.handle_form_key(fk);
        }
        let cmd = if self.input_mode {
            let empty = self.bibiman.search_struct.search_string.as_str().unicode_len() == 0;
            CmdAction::Input(InputCmdAction::parse(key, empty))
        } else {
            CmdAction::from_key(key)
        };
        let ghost o = *self;
        let r = self.run_command(cmd);
        assert(command_run(o, *self, cmd, r));
        r
    }
}

/// A message overlay is shown.
pub open spec fn message_shown(b: Bibiman) -> bool {
    b.current_area == CurrentArea::PopupArea && (b.popup_area.popup_kind == Some(PopupKind::MessageConfirm)
        || b.popup_area.popup_kind == Some(PopupKind::MessageError))
}

/// The add-entry form is shown.
pub open spec fn form_shown(b: Bibiman) -> bool {
    b.current_area == CurrentArea::PopupArea && b.popup_area.popup_kind == Some(PopupKind::AddEntry)
}

} // verus!
