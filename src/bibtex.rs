use vstd::prelude::*;
use vstd::string::*;
use crate::bibiman::Bibiman;
use crate::keywords::views;
use crate::text::{chars_of, push_char, string_from, trim, trim_end, trimmed, trimmed_end};

verus! {

/// `p` is the first position of `c` in `s`.
pub open spec fn is_first_index_of(s: Seq<char>, c: char, p: int) -> bool {
    0 <= p < s.len() && s[p] == c && forall|j: int| 0 <= j < p ==> s[j] != c
}

/// Scans `s` for the fields of a BibTeX entry: the fields completed so far
/// (trimmed), the field being read, the brace depth and whether a quoted
/// string is open. A comma ends a field only at depth 0 outside quotes.
pub open spec fn scan_fields(s: Seq<char>) -> (Seq<Seq<char>>, Seq<char>, int, bool)
    decreases s.len(),
{
    if s.len() == 0 {
        (Seq::empty(), Seq::empty(), 0, false)
    } else {
        let st = scan_fields(s.drop_last());
        let c = s.last();
        if c == '{' && !st.3 {
            (st.0, st.1.push(c), st.2 + 1, st.3)
        } else if c == '}' && !st.3 {
            (st.0, st.1.push(c), st.2 - 1, st.3)
        } else if c == '"' {
            (st.0, st.1.push(c), st.2, !st.3)
        } else if c == ',' && st.2 == 0 && !st.3 {
            (st.0.push(trimmed(st.1)), Seq::empty(), st.2, st.3)
        } else {
            (st.0, st.1.push(c), st.2, st.3)
        }
    }
}

/// The fields of an entry body: the scanned fields and the last one, where
/// it is not blank.
pub open spec fn fields_of(body: Seq<char>) -> Seq<Seq<char>> {
    let st = scan_fields(body);
    if trimmed(st.1).len() > 0 {
        st.0.push(trimmed(st.1))
    } else {
        st.0
    }
}

/// What follows the opening brace, without trailing white space and without
/// the closing brace.
pub open spec fn entry_body(after: Seq<char>) -> Seq<char> {
    let t = trimmed_end(after);
    if t.len() > 0 && t.last() == '}' {
        t.drop_last()
    } else {
        t
    }
}

/// The first `n` fields, one per line, indented by four spaces, each but the
/// last followed by a comma.
pub open spec fn field_lines(fs: Seq<Seq<char>>, n: int) -> Seq<char>
    decreases n,
{
    if n <= 0 {
        Seq::empty()
    } else {
        field_lines(fs, n - 1) + "    "@ + fs[n - 1] + (if n - 1 < fs.len() - 1 {
            ","@
        } else {
            Seq::empty()
        }) + "\n"@
    }
}

/// A raw BibTeX entry laid out one field per line: the part up to the
/// first `{`, then the fields, then `}`. Text without `{` stays as it is.
pub open spec fn formatted_entry(entry: Seq<char>) -> Seq<char> {
    if exists|p: int| is_first_index_of(entry, '{', p) {
        let p = choose|p: int| is_first_index_of(entry, '{', p);
        let fs = fields_of(entry_body(entry.subrange(p + 1, entry.len() as int)));
        entry.subrange(0, p + 1) + "\n"@ + field_lines(fs, fs.len() as int) + "}"@
    } else {
        entry
    }
}

/// The fields of an entry body (see `fields_of`).
fn split_fields(body: &Vec<char>) -> (r: Vec<String>)
    ensures
        views(r@) == fields_of(body@),
{
    let mut fields: Vec<String> = Vec::new();
    let mut cur = String::new();
    let mut opens: usize = 0;
    let mut closes: usize = 0;
    let mut in_quotes = false;
    let mut i: usize = 0;
    assert(body@.subrange(0, 0) =~= Seq::<char>::empty());
    while i < body.len()
        invariant
            i <= body@.len(),
            opens <= i,
            closes <= i,
            scan_fields(body@.subrange(0, i as int)) == (views(fields@), cur@, opens - closes, in_quotes),
        decreases body@.len() - i,
    {
        let c = body[i];
        proof {
            let q = body@.subrange(0, i + 1);
            assert(q.drop_last() =~= body@.subrange(0, i as int));
            assert(q.last() == c);
        }
        if c == '{' && !in_quotes {
            opens = opens + 1;
            push_char(&mut cur, c);
        } else if c == '}' && !in_quotes {
            closes = closes + 1;
            push_char(&mut cur, c);
        } else if c == '"' {
            in_quotes = !in_quotes;
            push_char(&mut cur, c);
        } else if c == ',' && opens == closes && !in_quotes {
            let t = trim(cur.as_str());
            let ghost before = views(fields@);
            fields.push(t);
            assert(views(fields@) =~= before.push(trimmed(cur@)));
            cur = String::new();
        } else {
            push_char(&mut cur, c);
        }
        i = i + 1;
    }
    assert(body@.subrange(0, body@.len() as int) =~= body@);
    let t = trim(cur.as_str());
    if t.as_str().unicode_len() > 0 {
        let ghost before = views(fields@);
        fields.push(t);
        assert(views(fields@) =~= before.push(trimmed(cur@)));
    }
    fields
}

impl Bibiman {
    /// Lays a raw BibTeX entry out one field per line (see `formatted_entry`).
    pub fn format_bibtex_entry(entry: &str) -> (r: String)
        ensures
            r@ == formatted_entry(entry@),
    {
        let cs = chars_of(entry);
        let mut p: usize = 0;
        while p < cs.len() && cs[p] != '{'
            invariant
                cs@ == entry@,
                p <= cs@.len(),
                forall|j: int| 0 <= j < p ==> cs@[j] != '{',
            decreases cs@.len() - p,
        {
            p = p + 1;
        }
        if p == cs.len() {
            assert(!exists|q: int| is_first_index_of(entry@, '{', q));
            return String::from_str(entry);
        }
        proof {
            assert(is_first_index_of(entry@, '{', p as int));
            let c = choose|c: int| is_first_index_of(entry@, '{', c);
            if c < p {
                assert(cs@[c] != '{');
            }
            if c > p {
                assert(entry@[p as int] != '{');
            }
            assert(c == p);
        }
        let mut formatted = string_from(&cs, 0, p + 1);
        push_char(&mut formatted, '\n');
        let after = string_from(&cs, p + 1, cs.len());
        let trimmed_after = trim_end(after.as_str());
        let tc = chars_of(trimmed_after.as_str());
        let n = if tc.len() > 0 && tc[tc.len() - 1] == '}' {
            tc.len() - 1
        } else {
            tc.len()
        };
        let mut body: Vec<char> = Vec::new();
        let mut k: usize = 0;
        while k < n
            invariant
                n <= tc@.len(),
                k <= n,
                body@ == tc@.subrange(0, k as int),
            decreases n - k,
        {
            body.push(tc[k]);
            assert(body@ =~= tc@.subrange(0, k + 1));
            k = k + 1;
        }
        assert(body@ =~= entry_body(entry@.subrange(p + 1, entry@.len() as int)));
        let fields = split_fields(&body);
        let ghost fs = views(fields@);
        let ghost head = formatted@;
        let mut i: usize = 0;
        while i < fields.len()
            invariant
                fs == views(fields@),
                i <= fields@.len(),
                formatted@ == head + field_lines(fs, i as int),
            decreases fields@.len() - i,
        {
            formatted.append("    ");
            formatted.append(fields[i].as_str());
            if i + 1 < fields.len() {
                formatted.append(",");
            }
            formatted.append("\n");
            proof {
                reveal_strlit("    ");
                reveal_strlit(",");
                reveal_strlit("\n");
                assert(fs[i as int] == fields@[i as int]@);
                assert(formatted@ =~= head + field_lines(fs, i + 1));
            }
            i = i + 1;
        }
        formatted.append("}");
        proof {
            reveal_strlit("\n");
            reveal_strlit("}");
            assert(head =~= entry@.subrange(0, p + 1) + "\n"@);
        }
        formatted
    }
}

} // verus!
