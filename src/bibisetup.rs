use vstd::prelude::*;
use vstd::string::*;
use crate::entries::EntryTableItem;
use crate::keywords::{collect_keywords, keyword_list_of, views};
use crate::text::{chars_of, push_char};

verus! {

/// One entry as the bibliography parser reads it, each field as plain text
/// where the entry has it.
#[derive(Debug, Clone)]
pub struct RawEntry {
    pub citekey: String,
    pub entry_type: String,
    /// The names of the authors, where the author field could be read.
    pub authors: Option<Vec<String>>,
    /// The names of the first group of editors, where there is one.
    pub editors: Option<Vec<String>>,
    pub title: Option<String>,
    pub date: Option<String>,
    pub keywords: Option<String>,
    pub abstract_text: Option<String>,
    pub doi: Option<String>,
    pub url: Option<String>,
    pub file: Option<String>,
    pub subtitle: Option<String>,
}

/// Names joined by `, `.
pub open spec fn join_names(ns: Seq<Seq<char>>) -> Seq<char>
    decreases ns.len(),
{
    if ns.len() == 0 {
        Seq::empty()
    } else if ns.len() == 1 {
        ns[0]
    } else {
        join_names(ns.drop_last()) + ", "@ + ns.last()
    }
}

/// The author column: the authors joined; failing those the first editors
/// joined and marked `(ed.)`; `empty` where there are none.
pub open spec fn authors_text(e: RawEntry) -> Seq<char> {
    match e.authors {
        Some(a) => if a@.len() == 0 {
            "empty"@
        } else {
            join_names(views(a@))
        },
        None => match e.editors {
            Some(ed) => if ed@.len() == 0 {
                "empty"@
            } else {
                join_names(views(ed@)) + " (ed.)"@
            },
            None => "empty"@,
        },
    }
}

/// The year column: the first four characters of the date, `n.d.` without
/// a date.
pub open spec fn year_text(e: RawEntry) -> Seq<char> {
    match e.date {
        Some(d) => if d@.len() <= 4 {
            d@
        } else {
            d@.subrange(0, 4)
        },
        None => "n.d."@,
    }
}

/// A text field, or a default where the entry lacks it.
pub open spec fn or_default(f: Option<String>, default: Seq<char>) -> Seq<char> {
    match f {
        Some(s) => s@,
        None => default,
    }
}

/// An optional field as text.
pub open spec fn opt_view(f: Option<String>) -> Option<Seq<char>> {
    match f {
        Some(s) => Some(s@),
        None => None,
    }
}

/// The record that the table shows for a parsed entry.
pub open spec fn item_matches(e: RawEntry, r: EntryTableItem) -> bool {
    &&& r.authors@ == authors_text(e)
    &&& r.short_author@.len() == 0
    &&& r.title@ == or_default(e.title, "no title"@)
    &&& r.year@ == year_text(e)
    &&& r.pubtype@ == e.entry_type@
    &&& r.keywords@ == or_default(e.keywords, Seq::empty())
    &&& r.citekey@ == e.citekey@
    &&& r.abstract_text@ == or_default(e.abstract_text, "no abstract"@)
    &&& opt_view(r.doi_url) == (if e.doi is Some {
        opt_view(e.doi)
    } else {
        opt_view(e.url)
    })
    &&& opt_view(r.filepath) == opt_view(e.file)
    &&& opt_view(r.subtitle) == opt_view(e.subtitle)
}

fn copy_opt(o: &Option<String>) -> (r: Option<String>)
    ensures
        r == *o,
{
    match o {
        Some(s) => Some(s.clone()),
        None => None,
    }
}

fn text_or(f: &Option<String>, default: &str) -> (r: String)
    ensures
        r@ == or_default(*f, default@),
{
    match f {
        Some(s) => s.clone(),
        None => String::from_str(default),
    }
}

/// The loaded records with the keyword list derived from them.
#[derive(Debug)]
pub struct BibiSetup {
    pub entry_list: Vec<EntryTableItem>,
    pub keyword_list: Vec<String>,
}

impl BibiSetup {
    pub fn new(entry_list: Vec<EntryTableItem>) -> (r: Self)
        ensures
            r.entry_list@ == entry_list@,
            views(r.keyword_list@) == keyword_list_of(entry_list@),
    {
        let keyword_list = Self::collect_tag_list(&entry_list);
        BibiSetup { entry_list, keyword_list }
    }

    /// All keywords of the records, sorted case-insensitively, repeats removed.
    pub fn collect_tag_list(entries: &Vec<EntryTableItem>) -> (r: Vec<String>)
        ensures
            views(r@) == keyword_list_of(entries@),
    {
        collect_keywords(entries)
    }

    /// The citation keys of the parsed entries, in their order.
    pub fn get_citekeys(entries: &Vec<RawEntry>) -> (r: Vec<String>)
        ensures
            r@.len() == entries@.len(),
            forall|i: int| 0 <= i < entries@.len() ==> (#[trigger] r@[i])@ == entries@[i].citekey@,
    {
        let mut r: Vec<String> = Vec::new();
        let mut i: usize = 0;
        while i < entries.len()
            invariant
                i <= entries@.len(),
                r@.len() == i,
                forall|j: int| 0 <= j < i ==> (#[trigger] r@[j])@ == entries@[j].citekey@,
            decreases entries@.len() - i,
        {
            r.push(entries[i].citekey.clone());
            i = i + 1;
        }
        r
    }

    fn join(names: &Vec<String>) -> (r: String)
        ensures
            r@ == join_names(views(names@)),
    {
        let ghost ns = views(names@);
        let mut r = String::new();
        let mut i: usize = 0;
        while i < names.len()
            invariant
                ns == views(names@),
                i <= names@.len(),
                r@ == join_names(ns.subrange(0, i as int)),
            decreases names@.len() - i,
        {
            proof {
                let q = ns.subrange(0, i + 1);
                assert(q.drop_last() =~= ns.subrange(0, i as int));
                assert(q.last() == names@[i as int]@);
                reveal_strlit(", ");
            }
            if i > 0 {
                r.append(", ");
            }
            r.append(names[i].as_str());
            proof {
                if i == 0 {
                    assert(r@ =~= join_names(ns.subrange(0, 1)));
                }
            }
            i = i + 1;
        }
        assert(ns.subrange(0, ns.len() as int) =~= ns);
        r
    }

    /// The author column of a parsed entry (see `authors_text`).
    pub fn get_authors(entry: &RawEntry) -> (r: String)
        ensures
            r@ == authors_text(*entry),
    {
        proof {
            reveal_strlit("empty");
            reveal_strlit(" (ed.)");
        }
        match &entry.authors {
            Some(a) => if a.len() == 0 {
                String::from_str("empty")
            } else {
                Self::join(a)
            },
            None => match &entry.editors {
                Some(ed) => if ed.len() == 0 {
                    String::from_str("empty")
                } else {
                    Self::join(ed).concat(" (ed.)")
                },
                None => String::from_str("empty"),
            },
        }
    }

    /// The year column of a parsed entry (see `year_text`).
    pub fn get_year(entry: &RawEntry) -> (r: String)
        ensures
            r@ == year_text(*entry),
    {
        match &entry.date {
            Some(d) => {
                let cs = chars_of(d.as_str());
                let n: usize = if cs.len() <= 4 {
                    cs.len()
                } else {
                    4
                };
                let mut r = String::new();
                let mut i: usize = 0;
                while i < n
                    invariant
                        cs@ == d@,
                        n <= cs@.len(),
                        i <= n,
                        r@ == d@.subrange(0, i as int),
                    decreases n - i,
                {
                    push_char(&mut r, cs[i]);
                    assert(r@ =~= d@.subrange(0, i + 1));
                    i = i + 1;
                }
                assert(cs@.len() <= 4 ==> r@ =~= d@);
                r
            },
            None => {
                proof {
                    reveal_strlit("n.d.");
                }
                String::from_str("n.d.")
            },
        }
    }

    /// The web link of a parsed entry: its DOI, else its URL.
    pub fn get_weblink(entry: &RawEntry) -> (r: Option<String>)
        ensures
            opt_view(r) == (if entry.doi is Some {
                opt_view(entry.doi)
            } else {
                opt_view(entry.url)
            }),
    {
        match &entry.doi {
            Some(d) => Some(d.clone()),
            None => copy_opt(&entry.url),
        }
    }

    /// The table record of a parsed entry (see `item_matches`).
    pub fn entry_item(entry: &RawEntry) -> (r: EntryTableItem)
        ensures
            item_matches(*entry, r),
    {
        let keywords = text_or(&entry.keywords, "");
        proof {
            reveal_strlit("");
            assert(""@ =~= Seq::<char>::empty());
        }
        EntryTableItem {
            authors: Self::get_authors(entry),
            short_author: String::new(),
            title: text_or(&entry.title, "no title"),
            year: Self::get_year(entry),
            pubtype: entry.entry_type.clone(),
            keywords,
            citekey: entry.citekey.clone(),
            abstract_text: text_or(&entry.abstract_text, "no abstract"),
            doi_url: Self::get_weblink(entry),
            filepath: copy_opt(&entry.file),
            subtitle: copy_opt(&entry.subtitle),
        }
    }

    /// The table records of the parsed entries, in their order.
    pub fn create_entry_list(entries: &Vec<RawEntry>) -> (r: Vec<EntryTableItem>)
        ensures
            r@.len() == entries@.len(),
            forall|i: int| 0 <= i < entries@.len() ==> item_matches(entries@[i], #[trigger] r@[i]),
    {
        let mut r: Vec<EntryTableItem> = Vec::new();
        let mut i: usize = 0;
        while i < entries.len()
            invariant
                i <= entries@.len(),
                r@.len() == i,
                forall|j: int| 0 <= j < i ==> item_matches(entries@[j], #[trigger] r@[j]),
            decreases entries@.len() - i,
        {
            r.push(Self::entry_item(&entries[i]));
            i = i + 1;
        }
        r
    }
}

} // verus!
