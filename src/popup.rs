use vstd::prelude::*;
use vstd::string::*;
use crate::scroll::{first_row, first_row_exec, selection_fits, ListState};
use crate::text::{chars_of, push_char};

verus! {

/// The kinds of modal overlay.
#[derive(Debug, Clone, Copy, PartialEq, Eq, Structural)]
pub enum PopupKind {
    Help,
    MessageConfirm,
    MessageError,
    Selection,
    AddEntry,
}

/// The state of the modal overlay: which one is open, and the message, the
/// choices or the text being typed that it shows.
#[derive(Debug)]
pub struct PopupArea {
    pub is_popup: bool,
    pub popup_kind: Option<PopupKind>,
    pub popup_message: String,
    pub popup_scroll_pos: u16,
    pub popup_list: Vec<String>,
    pub popup_state: ListState,
    pub add_entry_input: String,
    pub add_entry_cursor_position: usize,
}

/// `s` with `c` put in at position `at`.
pub open spec fn insert_char(s: Seq<char>, at: int, c: char) -> Seq<char> {
    s.subrange(0, at).push(c) + s.subrange(at, s.len() as int)
}

/// `s` without its character at position `at`.
pub open spec fn remove_char(s: Seq<char>, at: int) -> Seq<char> {
    s.subrange(0, at) + s.subrange(at + 1, s.len() as int)
}

impl PopupArea {
    /// The choice cursor names a choice, and the form cursor stands within
    /// the typed text.
    pub open spec fn wf(&self) -> bool {
        &&& selection_fits(self.popup_state.selected, self.popup_list@.len())
        &&& self.add_entry_cursor_position <= self.add_entry_input@.len()
    }

    /// No overlay and nothing in any of its fields.
    pub open spec fn is_cleared(&self) -> bool {
        &&& !self.is_popup
        &&& self.popup_kind is None
        &&& self.popup_message@.len() == 0
        &&& self.popup_scroll_pos == 0
        &&& self.popup_list@.len() == 0
        &&& self.popup_state.selected is None
        &&& self.add_entry_input@.len() == 0
        &&& self.add_entry_cursor_position == 0
    }

    /// Shows `message` followed by `object` as a confirmation (`msg_confirm`)
    /// or an error message.
    pub fn popup_message(&mut self, message: &str, object: &str, msg_confirm: bool)
        requires
            old(self).wf(),
        ensures
            final(self).wf(),
            final(self).popup_message@ == message@ + object@,
            final(self).popup_kind == Some(
                if msg_confirm {
                    PopupKind::MessageConfirm
                } else {
                    PopupKind::MessageError
                },
            ),
            final(self).is_popup,
            final(self).popup_scroll_pos == old(self).popup_scroll_pos,
            final(self).popup_list@ == old(self).popup_list@,
            final(self).popup_state == old(self).popup_state,
            final(self).add_entry_input@ == old(self).add_entry_input@,
            final(self).add_entry_cursor_position == old(self).add_entry_cursor_position,
    {
        self.popup_message = String::from_str(message).concat(object);
        if msg_confirm {
            self.popup_kind = Some(PopupKind::MessageConfirm);
        } else {
            self.popup_kind = Some(PopupKind::MessageError);
        }
        self.is_popup = true;
    }

    /// Offers `items` to choose from, the first one selected.
    pub fn popup_selection(&mut self, items: Vec<String>)
        requires
            old(self).wf(),
        ensures
            final(self).wf(),
            final(self).popup_list@ == items@,
            final(self).popup_state.selected == first_row(items@.len() as usize),
            final(self).popup_kind == Some(PopupKind::Selection),
            final(self).is_popup,
            final(self).popup_message@ == old(self).popup_message@,
            final(self).popup_scroll_pos == old(self).popup_scroll_pos,
            final(self).add_entry_input@ == old(self).add_entry_input@,
            final(self).add_entry_cursor_position == old(self).add_entry_cursor_position,
    {
        let n = items.len();
        self.popup_list = items;
        self.popup_state.select(first_row_exec(n));
        self.popup_kind = Some(PopupKind::Selection);
        self.is_popup = true;
    }

    pub fn popup_scroll_down(&mut self)
        ensures
            final(self).popup_scroll_pos == (if old(self).popup_scroll_pos == u16::MAX {
                u16::MAX
            } else {
                (old(self).popup_scroll_pos + 1) as u16
            }),
            final(self).popup_kind == old(self).popup_kind,
            final(self).is_popup == old(self).is_popup,
            final(self).popup_list == old(self).popup_list,
            final(self).popup_state == old(self).popup_state,
            final(self).popup_message == old(self).popup_message,
            final(self).add_entry_input == old(self).add_entry_input,
            final(self).add_entry_cursor_position == old(self).add_entry_cursor_position,
    {
        self.popup_scroll_pos = self.popup_scroll_pos.saturating_add(1);
    }

    pub fn popup_scroll_up(&mut self)
        ensures
            final(self).popup_scroll_pos == (if old(self).popup_scroll_pos == 0 {
                0
            } else {
                (old(self).popup_scroll_pos - 1) as u16
            }),
            final(self).popup_kind == old(self).popup_kind,
            final(self).is_popup == old(self).is_popup,
            final(self).popup_list == old(self).popup_list,
            final(self).popup_state == old(self).popup_state,
            final(self).popup_message == old(self).popup_message,
            final(self).add_entry_input == old(self).add_entry_input,
            final(self).add_entry_cursor_position == old(self).add_entry_cursor_position,
    {
        self.popup_scroll_pos = self.popup_scroll_pos.saturating_sub(1);
    }

    /// Types `c` at the cursor of the add-entry form; the cursor moves on.
    pub fn add_entry_insert(&mut self, c: char)
        requires
            old(self).wf(),
            old(self).add_entry_input@.len() < usize::MAX,
        ensures
            final(self).wf(),
            final(self).add_entry_input@ == insert_char(
                old(self).add_entry_input@,
                old(self).add_entry_cursor_position as int,
                c,
            ),
            final(self).add_entry_cursor_position == old(self).add_entry_cursor_position + 1,
            final(self).popup_kind == old(self).popup_kind,
            final(self).is_popup == old(self).is_popup,
            final(self).popup_list == old(self).popup_list,
            final(self).popup_state == old(self).popup_state,
    {
        let cs = chars_of(self.add_entry_input.as_str());
        let at = self.add_entry_cursor_position;
        let mut s = String::new();
        let mut i: usize = 0;
        while i < cs.len()
            invariant
                cs@ == old(self).add_entry_input@,
                at == old(self).add_entry_cursor_position,
                at <= cs@.len(),
                i <= cs@.len(),
                s@ == (if i <= at {
                    cs@.subrange(0, i as int)
                } else {
                    insert_char(cs@, at as int, c).subrange(0, i + 1)
                }),
            decreases cs@.len() - i,
        {
            if i == at {
                push_char(&mut s, c);
            }
            push_char(&mut s, cs[i]);
            assert(i < at ==> s@ =~= cs@.subrange(0, i + 1));
            assert(i >= at ==> s@ =~= insert_char(cs@, at as int, c).subrange(0, i + 2));
            i = i + 1;
        }
        if at == cs.len() {
            push_char(&mut s, c);
        }
        assert(s@ =~= insert_char(cs@, at as int, c));
        self.add_entry_input = s;
        self.add_entry_cursor_position = at + 1;
    }

    /// Deletes the character before the cursor of the add-entry form, if
    /// there is one.
    pub fn add_entry_backspace(&mut self)
        requires
            old(self).wf(),
        ensures
            final(self).wf(),
            old(self).add_entry_cursor_position == 0 ==> final(self).add_entry_input@ == old(
                self,
            ).add_entry_input@ && final(self).add_entry_cursor_position == 0,
            old(self).add_entry_cursor_position > 0 ==> final(self).add_entry_input@ == remove_char(
                old(self).add_entry_input@,
                old(self).add_entry_cursor_position - 1,
            ) && final(self).add_entry_cursor_position == old(self).add_entry_cursor_position - 1,
            final(self).popup_kind == old(self).popup_kind,
            final(self).is_popup == old(self).is_popup,
            final(self).popup_list == old(self).popup_list,
            final(self).popup_state == old(self).popup_state,
    {
        if self.add_entry_cursor_position == 0 {
            return;
        }
        let at = self.add_entry_cursor_position - 1;
        let cs = chars_of(self.add_entry_input.as_str());
        let mut s = String::new();
        let mut i: usize = 0;
        while i < cs.len()
            invariant
                cs@ == old(self).add_entry_input@,
                at < cs@.len(),
                i <= cs@.len(),
                s@ == (if i <= at {
                    cs@.subrange(0, i as int)
                } else {
                    remove_char(cs@, at as int).subrange(0, i - 1)
                }),
            decreases cs@.len() - i,
        {
            if i != at {
                push_char(&mut s, cs[i]);
            }
            assert(i < at ==> s@ =~= cs@.subrange(0, i + 1));
            assert(i >= at ==> s@ =~= remove_char(cs@, at as int).subrange(0, i as int));
            i = i + 1;
        }
        assert(s@ =~= remove_char(cs@, at as int));
        self.add_entry_input = s;
        self.add_entry_cursor_position = at;
    }

    /// Moves the cursor of the add-entry form one character left, not past
    /// the start.
    pub fn add_entry_left(&mut self)
        requires
            old(self).wf(),
        ensures
            final(self).wf(),
            final(self).add_entry_cursor_position == (if old(self).add_entry_cursor_position == 0 {
                0
            } else {
                (old(self).add_entry_cursor_position - 1) as usize
            }),
            final(self).add_entry_input == old(self).add_entry_input,
            final(self).popup_kind == old(self).popup_kind,
            final(self).is_popup == old(self).is_popup,
            final(self).popup_list == old(self).popup_list,
            final(self).popup_state == old(self).popup_state,
    {
        if self.add_entry_cursor_position > 0 {
            self.add_entry_cursor_position = self.add_entry_cursor_position - 1;
        }
    }

    /// Moves the cursor of the add-entry form one character right, not past
    /// the end of the text.
    pub fn add_entry_right(&mut self)
        requires
            old(self).wf(),
        ensures
            final(self).wf(),
            final(self).add_entry_cursor_position == (if old(self).add_entry_cursor_position
                < old(self).add_entry_input@.len() {
                (old(self).add_entry_cursor_position + 1) as usize
            } else {
                old(self).add_entry_cursor_position
            }),
            final(self).add_entry_input == old(self).add_entry_input,
            final(self).popup_kind == old(self).popup_kind,
            final(self).is_popup == old(self).is_popup,
            final(self).popup_list == old(self).popup_list,
            final(self).popup_state == old(self).popup_state,
    {
        if self.add_entry_cursor_position < self.add_entry_input.as_str().unicode_len() {
            self.add_entry_cursor_position = self.add_entry_cursor_position + 1;
        }
    }
}

impl Default for PopupArea {
    fn default() -> (r: Self)
        ensures
            r.is_cleared(),
            r.wf(),
    {
        PopupArea {
            is_popup: false,
            popup_kind: None,
            popup_message: String::new(),
            popup_scroll_pos: 0,
            popup_list: Vec::new(),
            popup_state: ListState { selected: None },
            add_entry_input: String::new(),
            add_entry_cursor_position: 0,
        }
    }
}

} // verus!
