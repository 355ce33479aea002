use bibiman::app::App;
use bibiman::bibiman::Bibiman;
use bibiman::bibisetup::{BibiSetup, RawEntry};
use bibiman::colors::{AppColorScheme, AppColors};
use bibiman::editor::{citekey_pattern as make_citekey_pattern, file_with_citekey, find_citekey_line};
use bibiman::entries::EntryTableItem;
use bibiman::keywords::{collect_keywords, TagList, TagListItem};
use bibiman::search::BibiSearch;
use bibiman::weblink::prepare_weblink;

fn item(authors: &str, keywords: &str) -> EntryTableItem {
    EntryTableItem {
        authors: authors.to_string(),
        short_author: "".to_string(),
        title: "A title".to_string(),
        year: "2000".to_string(),
        pubtype: "article".to_string(),
        keywords: keywords.to_string(),
        citekey: "miller_2000".to_string(),
        abstract_text: "An abstract".to_string(),
        doi_url: None,
        filepath: None,
        subtitle: None,
    }
}

#[test]
fn citekey_pattern() {
    let citekey = make_citekey_pattern("a_key_2001");

    assert_eq!(citekey, "{a_key_2001,")
}

#[test]
fn search_test_vector_join() {
    let bibvec: EntryTableItem = EntryTableItem {
        authors: "Author".to_string(),
        short_author: "".to_string(),
        title: "Title".to_string(),
        year: "1999".to_string(),
        pubtype: "article".to_string(),
        keywords: "hello, bye".to_string(),
        citekey: "author_1999".to_string(),
        abstract_text: "An abstract with multiple sentences. Here is the second".to_string(),
        doi_url: Some("https://www.bibiman.org".to_string()),
        filepath: Some("/home/file/path.pdf".to_string()),
        subtitle: None,
    };

    let joined_vec = BibiSearch::convert_to_string(&bibvec);

    assert_eq!(
        joined_vec,
        "Author Title 1999 article hello, bye author_1999"
    )
}

#[test]
fn shorten_authors() {
    let mut entry = item("Miller, Schmitz, Bernard", "key1, key2");
    let entry_vec = EntryTableItem::ref_vec(&mut entry);
    let mut entry_editors = item("Miller, Schmitz, Bernard (ed.)", "key1, key2");
    let entry_vec_editors = EntryTableItem::ref_vec(&mut entry_editors);

    assert_eq!(
        entry_vec,
        vec!["Miller et al.", "A title", "2000", "article"]
    );
    assert_eq!(
        entry_vec_editors,
        vec!["Miller et al. (ed.)", "A title", "2000", "article"]
    )
}

#[test]
fn single_author_is_shown_whole() {
    let mut entry = item("Miller", "");
    assert_eq!(entry.ref_vec()[0], "Miller");
    assert_eq!(entry.short_author, "");
}

#[test]
fn weblinks_are_prepared() {
    assert_eq!(prepare_weblink("10.1000/182"), "https://doi.org/10.1000/182");
    assert_eq!(prepare_weblink("www.bibiman.org"), "https://www.bibiman.org");
    assert_eq!(prepare_weblink("https://x.org"), "https://x.org");
    assert_eq!(prepare_weblink(""), "");
}

#[test]
fn keywords_are_split_trimmed_sorted_deduplicated() {
    let items = vec![item("A", " Zeta ,alpha,, beta"), item("B", ""), item("C", "alpha, Beta ,zeta")];
    let kws = collect_keywords(&items);
    assert_eq!(kws, vec!["alpha", "beta", "Beta", "Zeta", "zeta"]);
}

#[test]
fn keywords_are_kept_once() {
    let items = vec![item("A", "a, A"), item("B", "a")];
    assert_eq!(collect_keywords(&items), vec!["a", "A"]);
}

#[test]
fn keyword_filter_is_a_substring_test() {
    let items = vec![item("A", "history, art"), item("B", "prehistory"), item("C", "History")];
    let out = BibiSearch::filter_entries_by_tag("history", &items);
    let authors: Vec<&str> = out.iter().map(|e| e.authors.as_str()).collect();
    assert_eq!(authors, vec!["A", "B"]);
}

#[test]
fn fuzzy_search_ignores_case_and_keeps_order() {
    let mut items = vec![item("Millerand", "x"), item("Smith", "y"), item("Miller", "z")];
    items[1].citekey = "smith_2000".to_string();
    let out = BibiSearch::search_entry_list("MILLER", items.clone());
    let authors: Vec<&str> = out.iter().map(|e| e.authors.as_str()).collect();
    assert_eq!(authors, vec!["Millerand", "Miller"]);
    assert_eq!(BibiSearch::search_entry_list("", items.clone()).len(), 3);
    let tags = BibiSearch::search_tag_list("bio", vec!["biology".to_string(), "art".to_string()]);
    assert_eq!(tags, vec!["biology".to_string()]);
}

#[test]
fn citekey_lines_are_found() {
    let content = "@article{other,\n  crossref = {a_key},\n}\n@book{a_key,\n  title = {T},\n}";
    assert_eq!(find_citekey_line(content, "a_key"), Some(4));
    assert_eq!(find_citekey_line(content, "missing"), None);
    let files = vec!["@book{x,}".to_string(), content.to_string()];
    assert_eq!(file_with_citekey(&files, "a_key"), Some(1));
    assert_eq!(file_with_citekey(&files, "none"), None);
}

#[test]
fn colors_default_and_light() {
    let mut c = AppColors::new();
    assert_eq!(c.main_text_color, 250);
    assert_eq!(c.color_scheme, AppColorScheme::Dark);
    c.light_colors();
    assert_eq!(c.main_text_color, 235);
    assert_eq!(c.selected_row_bg_color, 107);
    assert_eq!(c.warn_color, 124);
    c.toggle_color_scheme();
    assert_eq!(c.color_scheme, AppColorScheme::Light);
    c.warn_color(9);
    assert_eq!(c.warn_color, 9);
}

#[test]
fn tag_list_items() {
    let t = TagListItem::new("history");
    assert_eq!(t.keyword, "history");
    let l = TagList::new(vec!["a".to_string(), "b".to_string()]);
    assert_eq!(l.tag_scroll_state.content_length, 2);
    assert_eq!(l.tag_list_state.selected, None);
}

#[test]
fn app_starts_running() {
    let app = App::new(vec![item("A", "k")]);
    assert!(app.running);
    app.tick();
}

#[test]
fn bibtex_entries_are_laid_out() {
    let raw = "@article{key1, title = {A, B}, author = \"X, Y\", year = 2000}";
    assert_eq!(
        Bibiman::format_bibtex_entry(raw),
        "@article{\n    key1,\n    title = {A, B},\n    author = \"X, Y\",\n    year = 2000\n}"
    );
    assert_eq!(Bibiman::format_bibtex_entry("no braces here"), "no braces here");
    assert_eq!(Bibiman::format_bibtex_entry("@misc{k,  }  "), "@misc{\n    k\n}");
}

fn raw(key: &str) -> RawEntry {
    RawEntry {
        citekey: key.to_string(),
        entry_type: "book".to_string(),
        authors: None,
        editors: None,
        title: None,
        date: None,
        keywords: None,
        abstract_text: None,
        doi: None,
        url: None,
        file: None,
        subtitle: None,
    }
}

#[test]
fn parsed_entries_become_records() {
    let mut a = raw("a_2001");
    a.authors = Some(vec!["Miller".to_string(), "Schmitz".to_string()]);
    a.date = Some("2001-05-03".to_string());
    a.url = Some("www.x.org".to_string());
    a.keywords = Some("k1, k2".to_string());
    let mut b = raw("b");
    b.editors = Some(vec!["Roe".to_string()]);
    b.doi = Some("10.1/z".to_string());
    b.url = Some("www.y.org".to_string());
    b.date = Some("99".to_string());
    let c = raw("c");
    let items = BibiSetup::create_entry_list(&vec![a.clone(), b.clone(), c.clone()]);
    assert_eq!(items[0].authors, "Miller, Schmitz");
    assert_eq!(items[0].year, "2001");
    assert_eq!(items[0].doi_url, Some("www.x.org".to_string()));
    assert_eq!(items[0].keywords, "k1, k2");
    assert_eq!(items[1].authors, "Roe (ed.)");
    assert_eq!(items[1].year, "99");
    assert_eq!(items[1].doi_url, Some("10.1/z".to_string()));
    assert_eq!(items[2].authors, "empty");
    assert_eq!(items[2].title, "no title");
    assert_eq!(items[2].year, "n.d.");
    assert_eq!(items[2].abstract_text, "no abstract");
    assert_eq!(items[2].keywords, "");
    assert_eq!(items[2].pubtype, "book");
    assert_eq!(BibiSetup::get_citekeys(&vec![a, b, c]), vec!["a_2001", "b", "c"]);
    let mut d = raw("d");
    d.authors = Some(Vec::new());
    d.editors = Some(vec!["X".to_string()]);
    assert_eq!(BibiSetup::get_authors(&d), "empty");
}

#[test]
fn setup_collects_keywords() {
    let s = BibiSetup::new(vec![item("A", "b, a"), item("B", "a")]);
    assert_eq!(s.keyword_list, vec!["a".to_string(), "b".to_string()]);
}

#[test]
fn better_matches_come_first() {
    let mut scattered = item("Zoe", "");
    scattered.title = "Zxexbxrxa".to_string();
    scattered.citekey = "k1".to_string();
    let mut exact = item("Ann", "");
    exact.title = "Zebra".to_string();
    exact.citekey = "k2".to_string();
    let out = BibiSearch::search_entry_list("zebra", vec![scattered, exact]);
    let keys: Vec<&str> = out.iter().map(|e| e.citekey.as_str()).collect();
    assert_eq!(keys, vec!["k2", "k1"]);
}
