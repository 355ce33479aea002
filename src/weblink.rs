use vstd::prelude::*;
use vstd::string::*;

verus! {

/// `p` is a prefix of `s`.
pub open spec fn has_prefix(s: Seq<char>, p: Seq<char>) -> bool {
    p.len() <= s.len() && s.subrange(0, p.len() as int) == p
}

/// The address that a DOI or URL field opens: a bare DOI (starting with
/// `10.`) is resolved through doi.org, a host starting with `www.` gets the
/// https scheme, anything else is taken as it is.
pub open spec fn weblink_of(url: Seq<char>) -> Seq<char> {
    if has_prefix(url, "10."@) {
        "https://doi.org/"@ + url
    } else if has_prefix(url, "www."@) {
        "https://"@ + url
    } else {
        url
    }
}

/// Whether `s` starts with `p`.
pub fn starts_with(s: &str, p: &str) -> (r: bool)
    ensures
        r == has_prefix(s@, p@),
{
    let n = s.unicode_len();
    let m = p.unicode_len();
    if m > n {
        return false;
    }
    let mut i: usize = 0;
    while i < m
        invariant
            m == p@.len(),
            n == s@.len(),
            m <= n,
            i <= m,
            forall|k: int| 0 <= k < i ==> s@[k] == p@[k],
        decreases m - i,
    {
        if s.get_char(i) != p.get_char(i) {
            assert(s@.subrange(0, m as int)[i as int] != p@[i as int]);
            return false;
        }
        i = i + 1;
    }
    assert(s@.subrange(0, m as int) =~= p@);
    true
}

pub fn prepare_weblink(url: &str) -> (r: String)
    ensures
        r@ == weblink_of(url@),
{
    if starts_with(url, "10.") {
        proof {
            reveal_strlit("10.");
            reveal_strlit("https://doi.org/");
        }
        String::from_str("https://doi.org/").concat(url)
    } else if starts_with(url, "www.") {
        proof {
            reveal_strlit("10.");
            reveal_strlit("www.");
            reveal_strlit("https://");
        }
        String::from_str("https://").concat(url)
    } else {
        proof {
            reveal_strlit("10.");
            reveal_strlit("www.");
        }
        String::from_str(url)
    }
}

} // verus!
