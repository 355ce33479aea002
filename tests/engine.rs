use bibiman::app::{App, CmdAction, Effect, FormKey, InputCmdAction, KeyCode, KeyInput};
use bibiman::bibiman::{Bibiman, CurrentArea, FormerArea};
use bibiman::entries::{EntryTableColumn, EntryTableItem};
use bibiman::popup::PopupKind;

fn rec(authors: &str, title: &str, year: &str, keywords: &str, citekey: &str) -> EntryTableItem {
    EntryTableItem {
        authors: authors.to_string(),
        short_author: String::new(),
        title: title.to_string(),
        year: year.to_string(),
        pubtype: "article".to_string(),
        keywords: keywords.to_string(),
        citekey: citekey.to_string(),
        abstract_text: String::new(),
        doi_url: None,
        filepath: None,
        subtitle: None,
    }
}

fn five_records() -> Vec<EntryTableItem> {
    vec![
        rec("Adams", "Zebra Migration", "2001", "history, biology", "adams_2001"),
        rec("Baker", "Greek Antiquity", "1999", "history", "baker_1999"),
        rec("Clark", "Quantum Fields", "2010", "physics", "clark_2010"),
        rec("Davis", "Cell Division", "2005", "biology", "davis_2005"),
        rec("Evans", "Planet Orbits", "2012", "astronomy", "evans_2012"),
    ]
}

fn citekeys(b: &Bibiman) -> Vec<String> {
    b.entry_table.entry_table_items.iter().map(|e| e.citekey.clone()).collect()
}

fn select_tag(b: &mut Bibiman, keyword: &str) {
    let idx = b.tag_list.tag_list_items.iter().position(|k| k == keyword).unwrap();
    b.select_first_tag();
    b.select_next_tag(idx as u16);
}

#[test]
fn keyword_filter_then_search_then_abort() {
    let mut b = Bibiman::new(five_records());
    assert_eq!(b.entry_table.entry_table_items.len(), 5);
    b.toggle_area();
    assert_eq!(b.current_area, CurrentArea::TagArea);
    select_tag(&mut b, "history");
    b.filter_for_tags();
    assert_eq!(citekeys(&b), vec!["adams_2001", "baker_1999"]);
    assert_eq!(b.tag_list.selected_keywords, vec!["history".to_string()]);
    assert_eq!(b.current_area, CurrentArea::EntryArea);
    b.enter_search_area();
    assert!(b.search_struct.inner_search);
    for c in "zebra".chars() {
        b.search_pattern_push(c);
    }
    assert_eq!(citekeys(&b), vec!["adams_2001"]);
    b.break_search();
    assert_eq!(citekeys(&b), vec!["adams_2001", "baker_1999"]);
    assert_eq!(b.tag_list.selected_keywords, vec!["history".to_string()]);
    assert_eq!(b.current_area, CurrentArea::EntryArea);
    assert_eq!(b.former_area, None);
}

#[test]
fn error_message_closes_on_any_key() {
    let mut b = Bibiman::new(five_records());
    b.add_entry();
    assert_eq!(b.current_area, CurrentArea::PopupArea);
    b.handle_new_entry_submission(false);
    assert_eq!(b.popup_area.popup_kind, Some(PopupKind::MessageError));
    assert_eq!(b.popup_area.popup_message, "Failed to add new entry");
    assert!(b.dismiss_message());
    assert_eq!(b.current_area, CurrentArea::EntryArea);
    assert_eq!(b.former_area, None);
    assert_eq!(b.popup_area.popup_kind, None);
}

#[test]
fn selection_stays_within_the_list() {
    let mut b = Bibiman::new(five_records());
    b.select_next_entry(100);
    assert_eq!(b.entry_table.entry_table_state.selected, Some(4));
    assert_eq!(b.entry_table.entry_scroll_state.position, 4);
    b.select_previous_entry(2);
    assert_eq!(b.entry_table.entry_table_state.selected, Some(2));
    b.select_previous_entry(100);
    assert_eq!(b.entry_table.entry_table_state.selected, Some(0));
    b.select_last_entry();
    assert_eq!(b.entry_table.entry_table_state.selected, Some(4));
    b.select_first_entry();
    assert_eq!(b.entry_table.entry_table_state.selected, Some(0));
}

#[test]
fn empty_list_has_no_selection() {
    let mut b = Bibiman::new(Vec::new());
    assert_eq!(b.entry_table.entry_table_state.selected, None);
    b.select_next_entry(1);
    assert_eq!(b.entry_table.entry_table_state.selected, None);
    b.select_last_entry();
    assert_eq!(b.entry_table.entry_table_state.selected, None);
    b.toggle_area();
    assert_eq!(b.tag_list.tag_list_state.selected, None);
    b.select_last_tag();
    assert_eq!(b.tag_list.tag_list_state.selected, None);
}

#[test]
fn search_to_nothing_empties_selection_and_scrollbar() {
    let mut b = Bibiman::new(five_records());
    b.select_last_entry();
    b.enter_search_area();
    b.search_list_by_pattern("xqxqxq");
    assert_eq!(b.entry_table.entry_table_items.len(), 0);
    assert_eq!(b.entry_table.entry_table_state.selected, None);
    assert_eq!(b.entry_table.entry_scroll_state.content_length, 0);
    assert_eq!(b.tag_list.tag_list_items.len(), 0);
    assert_eq!(b.tag_list.tag_scroll_state.content_length, 0);
    b.search_list_by_pattern("");
    assert_eq!(b.entry_table.entry_table_items.len(), 5);
    assert_eq!(b.entry_table.entry_scroll_state.content_length, 5);
}

#[test]
fn scrollbar_follows_keyword_filter() {
    let mut b = Bibiman::new(five_records());
    b.toggle_area();
    select_tag(&mut b, "biology");
    b.filter_for_tags();
    assert_eq!(citekeys(&b), vec!["adams_2001", "davis_2005"]);
    assert_eq!(b.entry_table.entry_scroll_state.content_length, 2);
    assert_eq!(b.tag_list.tag_list_items, vec!["biology".to_string(), "history".to_string()]);
    assert_eq!(b.tag_list.tag_scroll_state.content_length, 2);
}

#[test]
fn reset_twice_equals_reset_once() {
    let mut b = Bibiman::new(five_records());
    b.toggle_area();
    select_tag(&mut b, "physics");
    b.filter_for_tags();
    assert_eq!(citekeys(&b), vec!["clark_2010"]);
    b.reset_current_list();
    let once = citekeys(&b);
    let tags_once = b.tag_list.tag_list_items.clone();
    let sel_once = b.entry_table.entry_table_state.selected;
    b.reset_current_list();
    assert_eq!(citekeys(&b), once);
    assert_eq!(b.tag_list.tag_list_items, tags_once);
    assert_eq!(b.entry_table.entry_table_state.selected, sel_once);
    assert_eq!(once.len(), 5);
    assert!(b.tag_list.selected_keywords.is_empty());
}

#[test]
fn chained_abort_restores_selection() {
    let mut b = Bibiman::new(five_records());
    b.toggle_area();
    select_tag(&mut b, "history");
    b.filter_for_tags();
    b.select_next_entry(1);
    let keys = citekeys(&b);
    let tags = b.tag_list.tag_list_items.clone();
    b.enter_search_area();
    b.search_pattern_push('g');
    b.search_pattern_push('r');
    b.search_pattern_pop();
    b.search_pattern_push('q');
    b.break_search();
    assert_eq!(citekeys(&b), keys);
    assert_eq!(b.tag_list.tag_list_items, tags);
    assert_eq!(b.entry_table.entry_table_state.selected, Some(1));
}

#[test]
fn unchained_abort_drops_all_filtering() {
    let mut b = Bibiman::new(five_records());
    b.enter_search_area();
    b.search_list_by_pattern("quantum");
    b.confirm_search();
    assert_eq!(citekeys(&b), vec!["clark_2010"]);
    assert_eq!(b.former_area, None);
    b.enter_search_area();
    assert!(!b.search_struct.inner_search);
    b.search_pattern_push('x');
    b.break_search();
    assert_eq!(citekeys(&b).len(), 5);
}

#[test]
fn chained_search_confirm_composes() {
    let mut b = Bibiman::new(five_records());
    b.toggle_area();
    select_tag(&mut b, "biology");
    b.filter_for_tags();
    b.enter_search_area();
    b.search_list_by_pattern("cell");
    b.confirm_search();
    assert_eq!(citekeys(&b), vec!["davis_2005"]);
    assert_eq!(b.current_area, CurrentArea::EntryArea);
    assert_eq!(b.entry_table.entry_table_state.selected, Some(0));
    assert!(b.search_struct.search_string.is_empty());
}

#[test]
fn keyword_search_from_keyword_list() {
    let mut b = Bibiman::new(five_records());
    b.toggle_area();
    b.enter_search_area();
    assert_eq!(b.former_area, Some(FormerArea::TagArea));
    b.search_list_by_pattern("phys");
    assert_eq!(b.tag_list.tag_list_items, vec!["physics".to_string()]);
    b.confirm_search();
    assert_eq!(b.current_area, CurrentArea::TagArea);
    assert_eq!(b.tag_list.tag_list_state.selected, Some(0));
}

#[test]
fn sorting_by_year_twice_with_toggle() {
    let recs = vec![
        rec("Ames", "T1", "2003", "", "k1"),
        rec("Bell", "T2", "2002", "", "k2"),
        rec("Cole", "T3", "2001", "", "k3"),
    ];
    let mut b = Bibiman::new(recs);
    b.select_next_column();
    b.select_next_column();
    assert_eq!(b.entry_table.entry_table_selected_column, EntryTableColumn::Year);
    b.entry_table.sort_entry_table(true);
    assert_eq!(citekeys(&b), vec!["k3", "k2", "k1"]);
    assert!(!b.entry_table.entry_table_reversed_sort);
    b.entry_table.sort_entry_table(true);
    assert_eq!(citekeys(&b), vec!["k1", "k2", "k3"]);
    assert!(b.entry_table.entry_table_reversed_sort);
}

#[test]
fn sort_is_stable_and_textual() {
    let recs = vec![
        rec("Ames", "T1", "9", "", "k1"),
        rec("Bell", "T2", "10", "", "k2"),
        rec("Cole", "T3", "9", "", "k3"),
        rec("Dunn", "T4", "10", "", "k4"),
    ];
    let mut b = Bibiman::new(recs);
    b.select_next_column();
    b.select_next_column();
    b.entry_table.sort_entry_table(true);
    assert_eq!(citekeys(&b), vec!["k2", "k4", "k1", "k3"]);
    b.entry_table.sort_entry_table(true);
    assert_eq!(citekeys(&b), vec!["k1", "k3", "k2", "k4"]);
}

#[test]
fn sort_keeps_selected_record() {
    let mut b = Bibiman::new(five_records());
    b.select_next_entry(3);
    assert_eq!(b.get_selected_citekey(), Some("davis_2005".to_string()));
    b.select_next_column();
    b.entry_table.sort_entry_table(true);
    assert_eq!(b.get_selected_citekey(), Some("davis_2005".to_string()));
    assert_eq!(b.entry_table.entry_table_state.selected, Some(0));
}

#[test]
fn sort_ignores_case() {
    let recs = vec![rec("Bravo", "T", "1", "", "k1"), rec("alpha", "T", "1", "", "k2"), rec("Charlie", "T", "1", "", "k3")];
    let b = Bibiman::new(recs);
    assert_eq!(citekeys(&b), vec!["k2", "k1", "k3"]);
}

#[test]
fn popup_opens_only_once() {
    let mut b = Bibiman::new(five_records());
    b.show_help();
    assert_eq!(b.former_area, Some(FormerArea::EntryArea));
    b.add_entry();
    assert_eq!(b.popup_area.popup_kind, Some(PopupKind::Help));
    b.close_popup();
    assert_eq!(b.current_area, CurrentArea::EntryArea);
    assert_eq!(b.former_area, None);
}

#[test]
fn app_commands_dispatch() {
    let mut recs = five_records();
    recs[0].doi_url = Some("10.1000/xyz".to_string());
    let mut app = App::new(recs);
    assert_eq!(app.run_command(CmdAction::SelectNextRow(1)), Effect::Nothing);
    assert_eq!(app.bibiman.entry_table.entry_table_state.selected, Some(1));
    assert_eq!(app.run_command(CmdAction::YankItem), Effect::Yank("baker_1999".to_string()));
    assert_eq!(app.bibiman.popup_area.popup_kind, Some(PopupKind::MessageConfirm));
    assert!(app.bibiman.dismiss_message());
    assert_eq!(app.run_command(CmdAction::Top), Effect::Nothing);
    assert_eq!(app.run_command(CmdAction::Open), Effect::Nothing);
    assert_eq!(app.bibiman.popup_area.popup_list, vec!["Weblink (DOI/URL)".to_string()]);
    assert_eq!(
        app.run_command(CmdAction::Confirm),
        Effect::OpenLink("https://doi.org/10.1000/xyz".to_string())
    );
    assert_eq!(app.bibiman.current_area, CurrentArea::EntryArea);
    assert_eq!(app.run_command(CmdAction::SelectNextRow(1)), Effect::Nothing);
    assert_eq!(app.run_command(CmdAction::Open), Effect::Nothing);
    assert_eq!(app.bibiman.popup_area.popup_kind, Some(PopupKind::MessageError));
    assert_eq!(
        app.bibiman.popup_area.popup_message,
        "Selected entry has no connected ressources: baker_1999"
    );
    assert!(app.bibiman.dismiss_message());
    assert_eq!(app.run_command(CmdAction::EditFile), Effect::EditFile("baker_1999".to_string()));
    app.run_command(CmdAction::Input(InputCmdAction::Enter));
    assert!(app.input_mode);
    for c in "division".chars() {
        app.run_command(CmdAction::Input(InputCmdAction::Insert(c)));
    }
    app.run_command(CmdAction::Input(InputCmdAction::Confirm));
    assert!(!app.input_mode);
    assert_eq!(citekeys(&app.bibiman), vec!["davis_2005"]);
    assert_eq!(app.run_command(CmdAction::Exit), Effect::Quit);
    assert!(!app.running);
}

#[test]
fn add_entry_form_editing() {
    let mut app = App::new(five_records());
    app.run_command(CmdAction::AddEntry);
    for c in "10.1/a".chars() {
        app.handle_form_key(FormKey::Char(c));
    }
    app.handle_form_key(FormKey::Left);
    app.handle_form_key(FormKey::Left);
    app.handle_form_key(FormKey::Char('x'));
    assert_eq!(app.bibiman.popup_area.add_entry_input, "10.1x/a");
    app.handle_form_key(FormKey::Backspace);
    app.handle_form_key(FormKey::Right);
    app.handle_form_key(FormKey::Right);
    app.handle_form_key(FormKey::Right);
    assert_eq!(app.bibiman.popup_area.add_entry_cursor_position, 6);
    app.handle_form_key(FormKey::Char(' '));
    assert_eq!(app.handle_form_key(FormKey::Enter), Effect::SubmitEntry("10.1/a".to_string()));
    app.bibiman.handle_new_entry_submission(true);
    assert_eq!(app.bibiman.current_area, CurrentArea::EntryArea);
    assert!(app.bibiman.popup_area.add_entry_input.is_empty());
}

#[test]
fn edit_round_trip_relocates_record() {
    let mut b = Bibiman::new(five_records());
    b.select_next_entry(2);
    let mut recs = five_records();
    recs.insert(0, rec("Aaron", "New", "2020", "new", "aaron_2020"));
    b.update_lists(recs);
    assert_eq!(b.get_selected_citekey(), Some("clark_2010".to_string()));
    assert_eq!(b.entry_table.entry_table_state.selected, Some(3));
    assert_eq!(b.entry_table.entry_scroll_state.content_length, 6);
    assert!(b.tag_list.tag_list_items.contains(&"new".to_string()));
}

#[test]
fn keys_decode_to_commands() {
    let plain = |code| KeyInput { code, ctrl: false, alt: false, shift: false };
    let ctrl = |code| KeyInput { code, ctrl: true, alt: false, shift: false };
    let alt = |code| KeyInput { code, ctrl: false, alt: true, shift: false };
    assert_eq!(CmdAction::from_key(plain(KeyCode::Char('j'))), CmdAction::SelectNextRow(1));
    assert_eq!(CmdAction::from_key(alt(KeyCode::Char('j'))), CmdAction::ScrollInfoDown);
    assert_eq!(CmdAction::from_key(ctrl(KeyCode::Char('d'))), CmdAction::SelectNextRow(5));
    assert_eq!(CmdAction::from_key(plain(KeyCode::Char('d'))), CmdAction::Nothing);
    assert_eq!(CmdAction::from_key(ctrl(KeyCode::Char('c'))), CmdAction::Exit);
    assert_eq!(CmdAction::from_key(plain(KeyCode::Esc)), CmdAction::Reset);
    assert_eq!(CmdAction::from_key(plain(KeyCode::Char('/'))), CmdAction::Input(InputCmdAction::Enter));
    assert_eq!(InputCmdAction::parse(plain(KeyCode::Backspace), true), InputCmdAction::Nothing);
    assert_eq!(InputCmdAction::parse(plain(KeyCode::Backspace), false), InputCmdAction::Delete);
    assert_eq!(InputCmdAction::parse(plain(KeyCode::Char('x')), false), InputCmdAction::Insert('x'));
    assert_eq!(InputCmdAction::parse(plain(KeyCode::Esc), false), InputCmdAction::Exit);
}

#[test]
fn search_after_help_popup_stays_chained() {
    let mut b = Bibiman::new(five_records());
    b.toggle_area();
    select_tag(&mut b, "history");
    b.filter_for_tags();
    assert_eq!(b.former_area, None);
    b.show_help();
    b.close_popup();
    b.enter_search_area();
    assert!(b.search_struct.inner_search);
    b.search_list_by_pattern("zebra");
    b.break_search();
    assert_eq!(citekeys(&b), vec!["adams_2001", "baker_1999"]);
}

#[test]
fn confirm_clears_former_area() {
    let mut b = Bibiman::new(five_records());
    b.toggle_area();
    b.select_next_tag(2);
    b.enter_search_area();
    b.search_list_by_pattern("o");
    b.confirm_search();
    assert_eq!(b.current_area, CurrentArea::TagArea);
    assert_eq!(b.former_area, None);
    assert!(b.entry_table.entry_table_at_search_start.is_empty());
}

#[test]
fn chained_abort_restores_keyword_selection() {
    let mut b = Bibiman::new(five_records());
    b.toggle_area();
    select_tag(&mut b, "biology");
    b.filter_for_tags();
    b.toggle_area();
    b.select_next_tag(1);
    let sel = b.tag_list.tag_list_state.selected;
    b.enter_search_area();
    assert!(b.search_struct.inner_search);
    b.search_list_by_pattern("hist");
    b.break_search();
    assert_eq!(b.current_area, CurrentArea::TagArea);
    assert_eq!(b.tag_list.tag_list_state.selected, sel);
    assert_eq!(b.tag_list.tag_list_items, vec!["biology".to_string(), "history".to_string()]);
}

#[test]
fn retyping_gives_the_same_list() {
    let mut b = Bibiman::new(five_records());
    b.enter_search_area();
    b.search_pattern_push('a');
    let before = citekeys(&b);
    b.search_pattern_push('s');
    b.search_pattern_pop();
    assert_eq!(citekeys(&b), before);
}

#[test]
fn popup_commands_close_and_open() {
    let mut recs = five_records();
    recs[1].filepath = Some("/tmp/b.pdf".to_string());
    recs[1].doi_url = Some("www.b.org".to_string());
    let mut app = App::new(recs);
    app.run_command(CmdAction::SelectNextRow(1));
    app.run_command(CmdAction::Open);
    assert_eq!(
        app.bibiman.popup_area.popup_list,
        vec!["Weblink (DOI/URL)".to_string(), "File (PDF/EPUB)".to_string()]
    );
    app.run_command(CmdAction::SelectNextRow(1));
    assert_eq!(app.run_command(CmdAction::Confirm), Effect::OpenFile("/tmp/b.pdf".to_string()));
    assert_eq!(app.bibiman.current_area, CurrentArea::EntryArea);
    assert_eq!(app.bibiman.former_area, None);
    app.run_command(CmdAction::ShowHelp);
    app.run_command(CmdAction::SelectNextRow(1));
    assert_eq!(app.bibiman.popup_area.popup_scroll_pos, 1);
    assert_eq!(app.run_command(CmdAction::Reset), Effect::Nothing);
    assert_eq!(app.bibiman.current_area, CurrentArea::EntryArea);
    assert_eq!(app.bibiman.popup_area.popup_scroll_pos, 0);
}

#[test]
fn unchained_abort_on_full_list_keeps_selection() {
    let mut b = Bibiman::new(five_records());
    b.select_next_entry(1);
    let keys = citekeys(&b);
    b.enter_search_area();
    assert!(!b.search_struct.inner_search);
    b.search_list_by_pattern("quantum");
    b.break_search();
    assert_eq!(citekeys(&b), keys);
    assert_eq!(b.entry_table.entry_table_state.selected, Some(1));
    assert_eq!(b.entry_table.entry_scroll_state.position, 1);
}

#[test]
fn overlong_patterns_are_refused() {
    let mut b = Bibiman::new(five_records());
    b.enter_search_area();
    let long: String = std::iter::repeat('a').take(3000).collect();
    b.search_list_by_pattern(&long);
    assert!(b.search_struct.search_string.is_empty());
    assert_eq!(b.entry_table.entry_table_items.len(), 5);
    let max: String = std::iter::repeat('a').take(2048).collect();
    b.search_list_by_pattern(&max);
    assert_eq!(b.search_struct.search_string.chars().count(), 2048);
    b.search_pattern_push('a');
    assert_eq!(b.search_struct.search_string.chars().count(), 2048);
}

#[test]
fn keys_are_routed() {
    let plain = |code| KeyInput { code, ctrl: false, alt: false, shift: false };
    let mut app = App::new(five_records());
    assert_eq!(app.handle_key(plain(KeyCode::Char('j'))), Effect::Nothing);
    assert_eq!(app.bibiman.entry_table.entry_table_state.selected, Some(1));
    app.handle_key(plain(KeyCode::Char('y')));
    assert_eq!(app.bibiman.popup_area.popup_kind, Some(PopupKind::MessageConfirm));
    app.handle_key(plain(KeyCode::Char('j')));
    assert_eq!(app.bibiman.popup_area.popup_kind, None);
    assert_eq!(app.bibiman.entry_table.entry_table_state.selected, Some(1));
    app.handle_key(plain(KeyCode::Char('a')));
    app.handle_key(plain(KeyCode::Char('q')));
    assert!(app.running);
    assert_eq!(app.bibiman.popup_area.add_entry_input, "q");
    app.handle_key(plain(KeyCode::Esc));
    app.handle_key(plain(KeyCode::Char('/')));
    assert!(app.input_mode);
    app.handle_key(plain(KeyCode::Char('q')));
    assert_eq!(app.bibiman.search_struct.search_string, "q");
    app.handle_key(plain(KeyCode::Esc));
    assert!(!app.input_mode);
    app.handle_key(plain(KeyCode::Char('q')));
    assert!(!app.running);
}

#[test]
fn toggling_keeps_record_thumb_on_selection() {
    let mut b = Bibiman::new(five_records());
    b.select_next_entry(3);
    b.toggle_area();
    assert_eq!(b.entry_table.entry_scroll_state.position, 3);
    assert_eq!(b.tag_list.tag_list_state.selected, Some(0));
    b.toggle_area();
    assert_eq!(b.tag_list.tag_list_state.selected, None);
    assert_eq!(b.entry_table.entry_scroll_state.position, 3);
}
