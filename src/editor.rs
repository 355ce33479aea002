use vstd::prelude::*;
use vstd::string::*;
use crate::keywords::views;
use crate::text::{chars_of, contains_chars, occurs_in, split_at_char, split_on};

verus! {

/// The text that opens a record in a BibLaTeX file: `{`, the citation key,
/// and `,`. It does not match the key where another field cites it.
pub open spec fn citekey_pattern_of(citekey: Seq<char>) -> Seq<char> {
    "{"@ + citekey + ","@
}

/// `k` is the first of `lines` that holds `pat`.
pub open spec fn is_first_line_with(lines: Seq<Seq<char>>, pat: Seq<char>, k: int) -> bool {
    0 <= k < lines.len() && occurs_in(pat, lines[k]) && forall|j: int|
        0 <= j < k ==> !occurs_in(pat, #[trigger] lines[j])
}

/// The number (counted from 1) of the first line of `content` that holds
/// the opening of the record `citekey`, if one does.
pub open spec fn citekey_line_of(content: Seq<char>, citekey: Seq<char>) -> Option<usize> {
    let lines = split_on(content, '\n');
    let pat = citekey_pattern_of(citekey);
    if exists|k: int| is_first_line_with(lines, pat, k) {
        Some((1 + choose|k: int| is_first_line_with(lines, pat, k)) as usize)
    } else {
        None
    }
}

/// `k` is the first of `files` that holds `pat` anywhere.
pub open spec fn is_first_file_with(files: Seq<Seq<char>>, pat: Seq<char>, k: int) -> bool {
    is_first_line_with(files, pat, k)
}

/// The text that opens the record `citekey` in a BibLaTeX file.
pub fn citekey_pattern(citekey: &str) -> (r: String)
    ensures
        r@ == citekey_pattern_of(citekey@),
{
    proof {
        reveal_strlit("{");
        reveal_strlit(",");
    }
    String::from_str("{").concat(citekey).concat(",")
}

fn first_holding(texts: &Vec<String>, pat: &Vec<char>) -> (r: Option<usize>)
    ensures
        match r {
            Some(k) => is_first_line_with(views(texts@), pat@, k as int),
            None => !exists|k: int| is_first_line_with(views(texts@), pat@, k),
        },
{
    let ghost ts = views(texts@);
    let mut i: usize = 0;
    while i < texts.len()
        invariant
            ts == views(texts@),
            i <= texts@.len(),
            forall|j: int| 0 <= j < i ==> !occurs_in(pat@, #[trigger] ts[j]),
        decreases texts@.len() - i,
    {
        let hay = chars_of(texts[i].as_str());
        if contains_chars(&hay, pat) {
            return Some(i);
        }
        i = i + 1;
    }
    proof {
        assert forall|k: int| !is_first_line_with(ts, pat@, k) by {
            if 0 <= k < ts.len() {
                assert(!occurs_in(pat@, ts[k]));
            }
        }
    }
    None
}

/// The line (counted from 1) at which an editor opens the record
/// `citekey` of `filecontent`: the first line holding its opening, if any.
pub fn find_citekey_line(filecontent: &str, citekey: &str) -> (r: Option<usize>)
    ensures
        r == citekey_line_of(filecontent@, citekey@),
{
    let pat = chars_of(citekey_pattern(citekey).as_str());
    let lines = split_at_char(filecontent, '\n');
    assert(views(lines@) == split_on(filecontent@, '\n'));
    match first_holding(&lines, &pat) {
        Some(k) => {
            proof {
                let ls = split_on(filecontent@, '\n');
                let c = choose|c: int| is_first_line_with(ls, pat@, c);
                if c < k {
                    assert(!occurs_in(pat@, ls[c]));
                }
                if c > k {
                    assert(!occurs_in(pat@, ls[k as int]));
                }
            }
            Some(k + 1)
        },
        None => None,
    }
}

/// Which of several files holds the record `citekey`: the first whose
/// content holds its opening, if any.
pub fn file_with_citekey(contents: &Vec<String>, citekey: &str) -> (r: Option<usize>)
    ensures
        match r {
            Some(k) => is_first_file_with(views(contents@), citekey_pattern_of(citekey@), k as int),
            None => !exists|k: int|
                is_first_file_with(views(contents@), citekey_pattern_of(citekey@), k),
        },
{
    let pat = chars_of(citekey_pattern(citekey).as_str());
    first_holding(contents, &pat)
}

} // verus!
