use vstd::prelude::*;
use crate::text::{
    chars_le, lemma_lex_le_antisym, lemma_lex_le_refl, lemma_lex_le_total, lemma_lex_le_trans,
    lex_le,
};

verus! {

/// In a list sorted by keys, an item of key `y` may stay before an item of
/// key `x`: ascending means `y <= x`, descending `y >= x`.
pub open spec fn goes_before(y: Seq<char>, x: Seq<char>, desc: bool) -> bool {
    if desc {
        lex_le(x, y)
    } else {
        lex_le(y, x)
    }
}

/// Inserts `x` into `t` behind every item it may follow (so after all items
/// of an equal key).
pub open spec fn insert_sorted<T>(t: Seq<T>, x: T, key: spec_fn(T) -> Seq<char>, desc: bool) -> Seq<T>
    decreases t.len(),
{
    if t.len() == 0 {
        seq![x]
    } else if goes_before(key(t.last()), key(x), desc) {
        t.push(x)
    } else {
        insert_sorted(t.drop_last(), x, key, desc).push(t.last())
    }
}

/// The stable sort of `s` by `key`: items of equal key keep their order.
pub open spec fn stable_sort<T>(s: Seq<T>, key: spec_fn(T) -> Seq<char>, desc: bool) -> Seq<T>
    decreases s.len(),
{
    if s.len() == 0 {
        s
    } else {
        insert_sorted(stable_sort(s.drop_last(), key, desc), s.last(), key, desc)
    }
}

/// Every pair of items is in order.
pub open spec fn in_order<T>(s: Seq<T>, key: spec_fn(T) -> Seq<char>, desc: bool) -> bool {
    forall|i: int, j: int| 0 <= i < j < s.len() ==> goes_before(key(#[trigger] s[i]), key(#[trigger] s[j]), desc)
}

/// The items of `s` whose key is `kv`, in their order.
pub open spec fn with_key<T>(s: Seq<T>, key: spec_fn(T) -> Seq<char>, kv: Seq<char>) -> Seq<T>
    decreases s.len(),
{
    if s.len() == 0 {
        s
    } else {
        let r = with_key(s.drop_last(), key, kv);
        if key(s.last()) == kv {
            r.push(s.last())
        } else {
            r
        }
    }
}

proof fn lemma_goes_before_refl(a: Seq<char>, desc: bool)
    ensures
        goes_before(a, a, desc),
{
    lemma_lex_le_refl(a);
}

proof fn lemma_goes_before_total(a: Seq<char>, b: Seq<char>, desc: bool)
    ensures
        goes_before(a, b, desc) || goes_before(b, a, desc),
{
    lemma_lex_le_total(a, b);
}

proof fn lemma_goes_before_trans(a: Seq<char>, b: Seq<char>, c: Seq<char>, desc: bool)
    requires
        goes_before(a, b, desc),
        goes_before(b, c, desc),
    ensures
        goes_before(a, c, desc),
{
    if desc {
        lemma_lex_le_trans(c, b, a);
    } else {
        lemma_lex_le_trans(a, b, c);
    }
}

proof fn lemma_goes_before_antisym(a: Seq<char>, b: Seq<char>, desc: bool)
    requires
        goes_before(a, b, desc),
        goes_before(b, a, desc),
    ensures
        a == b,
{
    lemma_lex_le_antisym(a, b);
}

proof fn lemma_with_key_push<T>(s: Seq<T>, x: T, key: spec_fn(T) -> Seq<char>, kv: Seq<char>)
    ensures
        with_key(s.push(x), key, kv) == (if key(x) == kv {
            with_key(s, key, kv).push(x)
        } else {
            with_key(s, key, kv)
        }),
{
    assert(s.push(x).drop_last() =~= s);
}

proof fn lemma_with_key_insert<T>(t: Seq<T>, x: T, key: spec_fn(T) -> Seq<char>, desc: bool, kv: Seq<char>)
    ensures
        with_key(insert_sorted(t, x, key, desc), key, kv) == (if key(x) == kv {
            with_key(t, key, kv).push(x)
        } else {
            with_key(t, key, kv)
        }),
    decreases t.len(),
{
    if t.len() == 0 {
        lemma_with_key_push(t, x, key, kv);
        assert(t.push(x) =~= seq![x]);
    } else if goes_before(key(t.last()), key(x), desc) {
        lemma_with_key_push(t, x, key, kv);
    } else {
        let t2 = t.drop_last();
        let l = t.last();
        lemma_goes_before_refl(key(x), desc);
        assert(key(l) != key(x));
        lemma_with_key_insert(t2, x, key, desc, kv);
        lemma_with_key_push(insert_sorted(t2, x, key, desc), l, key, kv);
        lemma_with_key_push(t2, l, key, kv);
        assert(t2.push(l) =~= t);
        if key(x) == kv {
            assert(with_key(t2, key, kv).push(x) =~= with_key(t, key, kv).push(x));
        } else if key(l) == kv {
            assert(with_key(t2, key, kv).push(l) =~= with_key(t, key, kv));
        }
    }
}

/// For every key, sorting keeps the items of that key in their order.
pub proof fn lemma_sort_with_key<T>(s: Seq<T>, key: spec_fn(T) -> Seq<char>, desc: bool, kv: Seq<char>)
    ensures
        with_key(stable_sort(s, key, desc), key, kv) == with_key(s, key, kv),
    decreases s.len(),
{
    if s.len() > 0 {
        let s2 = s.drop_last();
        lemma_sort_with_key(s2, key, desc, kv);
        lemma_with_key_insert(stable_sort(s2, key, desc), s.last(), key, desc, kv);
        lemma_with_key_push(s2, s.last(), key, kv);
        assert(s2.push(s.last()) =~= s);
    }
}

proof fn lemma_insert_in_order<T>(t: Seq<T>, x: T, key: spec_fn(T) -> Seq<char>, desc: bool)
    requires
        in_order(t, key, desc),
    ensures
        in_order(insert_sorted(t, x, key, desc), key, desc),
    decreases t.len(),
{
    let r = insert_sorted(t, x, key, desc);
    if t.len() == 0 {
        assert(r =~= seq![x]);
    } else if goes_before(key(t.last()), key(x), desc) {
        assert forall|i: int, j: int| 0 <= i < j < r.len() implies goes_before(key(#[trigger] r[i]), key(#[trigger] r[j]), desc) by {
            if j == t.len() {
                if i < t.len() - 1 {
                    assert(goes_before(key(t[i]), key(t[t.len() - 1]), desc));
                    lemma_goes_before_trans(key(t[i]), key(t.last()), key(x), desc);
                }
            } else {
                assert(r[i] == t[i] && r[j] == t[j]);
            }
        }
    } else {
        let t2 = t.drop_last();
        let l = t.last();
        let r2 = insert_sorted(t2, x, key, desc);
        assert(in_order(t2, key, desc)) by {
            assert forall|i: int, j: int| 0 <= i < j < t2.len() implies goes_before(key(#[trigger] t2[i]), key(#[trigger] t2[j]), desc) by {
                assert(t2[i] == t[i] && t2[j] == t[j]);
            }
        }
        lemma_insert_in_order(t2, x, key, desc);
        lemma_insert_len(t2, x, key, desc);
        lemma_goes_before_total(key(l), key(x), desc);
        assert forall|i: int, j: int| 0 <= i < j < r.len() implies goes_before(key(#[trigger] r[i]), key(#[trigger] r[j]), desc) by {
            if j == r2.len() {
                let y = r2[i];
                lemma_insert_contains(t2, x, key, desc, y);
                assert(r2.contains(y));
                if y != x {
                    let m = choose|m: int| 0 <= m < t2.len() && t2[m] == y;
                    assert(t[m] == y);
                    assert(goes_before(key(t[m]), key(t[t.len() - 1]), desc));
                }
                assert(r[j] == l);
                assert(r[i] == y);
            } else {
                assert(r[i] == r2[i] && r[j] == r2[j]);
            }
        }
    }
}

/// A stable sort puts the items in order.
pub proof fn lemma_sort_in_order<T>(s: Seq<T>, key: spec_fn(T) -> Seq<char>, desc: bool)
    ensures
        in_order(stable_sort(s, key, desc), key, desc),
    decreases s.len(),
{
    if s.len() > 0 {
        lemma_sort_in_order(s.drop_last(), key, desc);
        lemma_insert_in_order(stable_sort(s.drop_last(), key, desc), s.last(), key, desc);
    }
}

proof fn lemma_with_key_member<T>(s: Seq<T>, key: spec_fn(T) -> Seq<char>, kv: Seq<char>, z: T)
    requires
        with_key(s, key, kv).contains(z),
    ensures
        s.contains(z),
        key(z) == kv,
    decreases s.len(),
{
    if s.len() == 0 {
    } else {
        let s2 = s.drop_last();
        let r = with_key(s2, key, kv);
        if key(s.last()) == kv && z == s.last() {
            assert(s[s.len() - 1] == z);
        } else {
            if key(s.last()) == kv {
                let i = choose|i: int| 0 <= i < r.len() + 1 && r.push(s.last())[i] == z;
                assert(r[i] == z);
            }
            assert(r.contains(z));
            lemma_with_key_member(s2, key, kv, z);
            let i = choose|i: int| 0 <= i < s2.len() && s2[i] == z;
            assert(s[i] == z);
        }
    }
}

/// Two lists in the same order that hold, key by key, the same items in the
/// same order are equal: a stable sort has one result.
pub proof fn lemma_in_order_unique<T>(a: Seq<T>, b: Seq<T>, key: spec_fn(T) -> Seq<char>, desc: bool)
    requires
        in_order(a, key, desc),
        in_order(b, key, desc),
        forall|kv: Seq<char>| #[trigger] with_key(a, key, kv) == with_key(b, key, kv),
    ensures
        a == b,
    decreases a.len() + b.len(),
{
    if a.len() == 0 && b.len() == 0 {
        assert(a =~= b);
    } else if a.len() == 0 {
        let y = b.last();
        lemma_with_key_push(b.drop_last(), y, key, key(y));
        assert(b.drop_last().push(y) =~= b);
        assert(with_key(a, key, key(y)).len() == 0);
    } else if b.len() == 0 {
        let x = a.last();
        lemma_with_key_push(a.drop_last(), x, key, key(x));
        assert(a.drop_last().push(x) =~= a);
        assert(with_key(b, key, key(x)).len() == 0);
    } else {
        let a2 = a.drop_last();
        let b2 = b.drop_last();
        let x = a.last();
        let y = b.last();
        assert(a2.push(x) =~= a);
        assert(b2.push(y) =~= b);
        lemma_with_key_push(a2, x, key, key(x));
        lemma_with_key_push(b2, y, key, key(y));
        let wa = with_key(a, key, key(y));
        let wb = with_key(b, key, key(y));
        assert(wb[wb.len() - 1] == y);
        assert(wa.contains(y));
        lemma_with_key_member(a, key, key(y), y);
        let i = choose|i: int| 0 <= i < a.len() && a[i] == y;
        if i < a.len() - 1 {
            assert(goes_before(key(a[i]), key(a[a.len() - 1]), desc));
        } else {
            lemma_goes_before_refl(key(x), desc);
        }
        let va = with_key(a, key, key(x));
        let vb = with_key(b, key, key(x));
        assert(va[va.len() - 1] == x);
        assert(vb.contains(x));
        lemma_with_key_member(b, key, key(x), x);
        let j = choose|j: int| 0 <= j < b.len() && b[j] == x;
        if j < b.len() - 1 {
            assert(goes_before(key(b[j]), key(b[b.len() - 1]), desc));
        } else {
            lemma_goes_before_refl(key(y), desc);
        }
        lemma_goes_before_antisym(key(x), key(y), desc);
        assert(x == y);
        assert forall|kv: Seq<char>| #[trigger] with_key(a2, key, kv) == with_key(b2, key, kv) by {
            lemma_with_key_push(a2, x, key, kv);
            lemma_with_key_push(b2, y, key, kv);
            assert(with_key(a, key, kv) == with_key(b, key, kv));
            if key(x) == kv {
                assert(with_key(a2, key, kv) =~= with_key(a, key, kv).drop_last());
                assert(with_key(b2, key, kv) =~= with_key(b, key, kv).drop_last());
            }
        }
        assert(in_order(a2, key, desc)) by {
            assert forall|i: int, j: int| 0 <= i < j < a2.len() implies goes_before(key(#[trigger] a2[i]), key(#[trigger] a2[j]), desc) by {
                assert(a2[i] == a[i] && a2[j] == a[j]);
            }
        }
        assert(in_order(b2, key, desc)) by {
            assert forall|i: int, j: int| 0 <= i < j < b2.len() implies goes_before(key(#[trigger] b2[i]), key(#[trigger] b2[j]), desc) by {
                assert(b2[i] == b[i] && b2[j] == b[j]);
            }
        }
        lemma_in_order_unique(a2, b2, key, desc);
    }
}

proof fn lemma_insert_at<T>(t: Seq<T>, x: T, key: spec_fn(T) -> Seq<char>, desc: bool, p: int)
    requires
        0 <= p <= t.len(),
        forall|q: int| p <= q < t.len() ==> !goes_before(key(#[trigger] t[q]), key(x), desc),
        p == 0 || goes_before(key(t[p - 1]), key(x), desc),
    ensures
        insert_sorted(t, x, key, desc) == t.subrange(0, p).push(x) + t.subrange(p, t.len() as int),
    decreases t.len(),
{
    if t.len() == p {
        if p == 0 {
            assert(t.subrange(0, p).push(x) + t.subrange(p, t.len() as int) =~= seq![x]);
        } else {
            assert(t.subrange(0, p).push(x) + t.subrange(p, t.len() as int) =~= t.push(x));
        }
    } else {
        let t2 = t.drop_last();
        assert(!goes_before(key(t[t.len() - 1]), key(x), desc));
        assert forall|q: int| p <= q < t2.len() implies !goes_before(key(#[trigger] t2[q]), key(x), desc) by {
            assert(t2[q] == t[q]);
        }
        if p > 0 {
            assert(t2[p - 1] == t[p - 1]);
        }
        lemma_insert_at(t2, x, key, desc, p);
        assert(t2.subrange(0, p).push(x) + t2.subrange(p, t2.len() as int) + seq![t.last()]
            =~= t.subrange(0, p).push(x) + t.subrange(p, t.len() as int));
    }
}

pub proof fn lemma_insert_len<T>(t: Seq<T>, x: T, key: spec_fn(T) -> Seq<char>, desc: bool)
    ensures
        insert_sorted(t, x, key, desc).len() == t.len() + 1,
    decreases t.len(),
{
    if t.len() > 0 {
        lemma_insert_len(t.drop_last(), x, key, desc);
    }
}

pub proof fn lemma_sort_len<T>(s: Seq<T>, key: spec_fn(T) -> Seq<char>, desc: bool)
    ensures
        stable_sort(s, key, desc).len() == s.len(),
    decreases s.len(),
{
    if s.len() > 0 {
        lemma_sort_len(s.drop_last(), key, desc);
        lemma_insert_len(stable_sort(s.drop_last(), key, desc), s.last(), key, desc);
    }
}

pub proof fn lemma_push_contains<T>(s: Seq<T>, a: T, y: T)
    ensures
        s.push(a).contains(y) <==> (s.contains(y) || y == a),
{
    if s.contains(y) {
        let i = choose|i: int| 0 <= i < s.len() && s[i] == y;
        assert(s.push(a)[i] == y);
    }
    if y == a {
        assert(s.push(a)[s.len() as int] == y);
    }
    if s.push(a).contains(y) {
        let i = choose|i: int| 0 <= i < s.len() + 1 && s.push(a)[i] == y;
        if i < s.len() {
            assert(s[i] == y);
        }
    }
}

pub proof fn lemma_insert_contains<T>(t: Seq<T>, x: T, key: spec_fn(T) -> Seq<char>, desc: bool, y: T)
    ensures
        insert_sorted(t, x, key, desc).contains(y) <==> (t.contains(y) || y == x),
    decreases t.len(),
{
    if t.len() > 0 {
        let t2 = t.drop_last();
        assert(t =~= t2.push(t.last()));
        lemma_push_contains(t2, t.last(), y);
        lemma_push_contains(t2, x, y);
        if goes_before(key(t.last()), key(x), desc) {
            lemma_push_contains(t, x, y);
        } else {
            lemma_insert_contains(t2, x, key, desc, y);
            lemma_push_contains(insert_sorted(t2, x, key, desc), t.last(), y);
        }
    } else {
        lemma_push_contains(t, x, y);
        assert(t.push(x) =~= seq![x]);
    }
}

/// Sorting keeps exactly the items that were there.
pub proof fn lemma_sort_contains<T>(s: Seq<T>, key: spec_fn(T) -> Seq<char>, desc: bool, y: T)
    ensures
        stable_sort(s, key, desc).contains(y) <==> s.contains(y),
    decreases s.len(),
{
    if s.len() > 0 {
        let s2 = s.drop_last();
        lemma_sort_contains(s2, key, desc, y);
        lemma_insert_contains(stable_sort(s2, key, desc), s.last(), key, desc, y);
        assert(s =~= s2.push(s.last()));
        lemma_push_contains(s2, s.last(), y);
    }
}

/// Whether an item of key `y` may stay before one of key `x`.
pub fn keys_in_order(y: &Vec<char>, x: &Vec<char>, desc: bool) -> (r: bool)
    ensures
        r == goes_before(y@, x@, desc),
{
    if desc {
        chars_le(x, y)
    } else {
        chars_le(y, x)
    }
}

/// Sorts `items` stably by the keys in `keys` (one per item, moved along).
pub(crate) fn sort_by_keys<T>(
    items: &mut Vec<T>,
    keys: &mut Vec<Vec<char>>,
    desc: bool,
    Ghost(key): Ghost<spec_fn(T) -> Seq<char>>,
)
    requires
        old(keys)@.len() == old(items)@.len(),
        forall|j: int| 0 <= j < old(items)@.len() ==> (#[trigger] old(keys)@[j])@ == key(old(items)@[j]),
    ensures
        final(items)@ == stable_sort(old(items)@, key, desc),
        final(keys)@.len() == final(items)@.len(),
        forall|j: int| 0 <= j < final(items)@.len() ==> (#[trigger] final(keys)@[j])@ == key(final(items)@[j]),
{
    let ghost orig = items@;
    let n = items.len();
    let mut i: usize = 0;
    assert(orig.subrange(0, 0) =~= Seq::<T>::empty());
    assert(items@.subrange(0, 0) =~= Seq::<T>::empty());
    while i < n
        invariant
            n == items@.len(),
            n == orig.len(),
            keys@.len() == n,
            i <= n,
            forall|j: int| 0 <= j < n ==> (#[trigger] keys@[j])@ == key(items@[j]),
            items@.subrange(0, i as int) == stable_sort(orig.subrange(0, i as int), key, desc),
            items@.subrange(i as int, n as int) == orig.subrange(i as int, n as int),
        decreases n - i,
    {
        let ghost t = items@.subrange(0, i as int);
        let ghost x = items@[i as int];
        assert(x == orig[i as int]) by {
            assert(items@.subrange(i as int, n as int)[0] == orig.subrange(i as int, n as int)[0]);
        }
        let mut p: usize = i;
        while p > 0 && !keys_in_order(&keys[p - 1], &keys[i], desc)
            invariant
                i < n,
                n == items@.len(),
                keys@.len() == n,
                p <= i,
                t == items@.subrange(0, i as int),
                x == items@[i as int],
                forall|j: int| 0 <= j < n ==> (#[trigger] keys@[j])@ == key(items@[j]),
                forall|q: int| p <= q < i ==> !goes_before(key(#[trigger] t[q]), key(x), desc),
            decreases p,
        {
            assert(t[p - 1] == items@[p - 1]);
            p = p - 1;
        }
        proof {
            if p > 0 {
                assert(t[p - 1] == items@[p - 1]);
            }
            lemma_insert_at(t, x, key, desc, p as int);
            let o = orig.subrange(0, i + 1);
            assert(o.drop_last() =~= orig.subrange(0, i as int));
            assert(o.last() == x);
        }
        let ghost before = items@;
        let ghost kbefore = keys@;
        let it = items.remove(i);
        let k = keys.remove(i);
        items.insert(p, it);
        keys.insert(p, k);
        proof {
            assert(items@ =~= before.subrange(0, p as int).push(x) + before.subrange(p as int, i as int)
                + before.subrange(i + 1, n as int));
            assert(keys@ =~= kbefore.subrange(0, p as int).push(kbefore[i as int]) + kbefore.subrange(p as int, i as int)
                + kbefore.subrange(i + 1, n as int));
            assert forall|j: int| 0 <= j < n implies (#[trigger] keys@[j])@ == key(items@[j]) by {
                if j < p {
                    assert(keys@[j] == kbefore[j] && items@[j] == before[j]);
                } else if j == p {
                } else if j <= i {
                    assert(keys@[j] == kbefore[j - 1] && items@[j] == before[j - 1]);
                } else {
                    assert(keys@[j] == kbefore[j] && items@[j] == before[j]);
                }
            }
            assert(items@.subrange(0, i + 1) =~= t.subrange(0, p as int).push(x) + t.subrange(p as int, t.len() as int));
            assert(items@.subrange(i + 1, n as int) =~= orig.subrange(i + 1, n as int)) by {
                assert(before.subrange(i as int, n as int).subrange(1, n - i) =~= before.subrange(i + 1, n as int));
                assert(orig.subrange(i as int, n as int).subrange(1, n - i) =~= orig.subrange(i + 1, n as int));
            }
        }
        i = i + 1;
    }
    assert(items@.subrange(0, n as int) =~= items@);
    assert(orig.subrange(0, n as int) =~= orig);
}

/// An item of key `kv` at position `i` of `s` stands in `with_key(s, kv)`.
proof fn lemma_with_key_has<T>(s: Seq<T>, key: spec_fn(T) -> Seq<char>, kv: Seq<char>, i: int) -> (a: int)
    requires
        0 <= i < s.len(),
        key(s[i]) == kv,
    ensures
        0 <= a < with_key(s, key, kv).len(),
        with_key(s, key, kv)[a] == s[i],
    decreases s.len(),
{
    let s2 = s.drop_last();
    lemma_with_key_push(s2, s.last(), key, kv);
    assert(s2.push(s.last()) =~= s);
    if i == s.len() - 1 {
        with_key(s2, key, kv).len() as int
    } else {
        assert(s2[i] == s[i]);
        lemma_with_key_has(s2, key, kv, i)
    }
}

/// Two items of key `kv` at positions `i < j` of `s` stand in that order in
/// `with_key(s, kv)`.
proof fn lemma_with_key_order<T>(s: Seq<T>, key: spec_fn(T) -> Seq<char>, kv: Seq<char>, i: int, j: int) -> (ab: (int, int))
    requires
        0 <= i < j < s.len(),
        key(s[i]) == kv,
        key(s[j]) == kv,
    ensures
        0 <= ab.0 < ab.1 < with_key(s, key, kv).len(),
        with_key(s, key, kv)[ab.0] == s[i],
        with_key(s, key, kv)[ab.1] == s[j],
    decreases s.len(),
{
    let s2 = s.drop_last();
    lemma_with_key_push(s2, s.last(), key, kv);
    assert(s2.push(s.last()) =~= s);
    assert(s2[i] == s[i]);
    if j == s.len() - 1 {
        let a = lemma_with_key_has(s2, key, kv, i);
        (a, with_key(s2, key, kv).len() as int)
    } else {
        assert(s2[j] == s[j]);
        lemma_with_key_order(s2, key, kv, i, j)
    }
}

/// Positions `a < b` of `with_key(t, kv)` come from positions `p < q` of `t`.
proof fn lemma_with_key_back<T>(t: Seq<T>, key: spec_fn(T) -> Seq<char>, kv: Seq<char>, a: int, b: int) -> (pq: (int, int))
    requires
        0 <= a < b < with_key(t, key, kv).len(),
    ensures
        0 <= pq.0 < pq.1 < t.len(),
        t[pq.0] == with_key(t, key, kv)[a],
        t[pq.1] == with_key(t, key, kv)[b],
    decreases t.len(),
{
    let t2 = t.drop_last();
    lemma_with_key_push(t2, t.last(), key, kv);
    assert(t2.push(t.last()) =~= t);
    let w2 = with_key(t2, key, kv);
    if key(t.last()) == kv && b == w2.len() {
        let w = with_key(t, key, kv);
        assert(w[a] == w2[a]);
        assert(w2.contains(w2[a]));
        lemma_with_key_member(t2, key, kv, w2[a]);
        let p = choose|p: int| 0 <= p < t2.len() && t2[p] == w2[a];
        assert(t[p] == t2[p]);
        (p, t.len() - 1)
    } else {
        let w = with_key(t, key, kv);
        assert(w[a] == w2[a] && w[b] == w2[b]);
        let (p, q) = lemma_with_key_back(t2, key, kv, a, b);
        assert(t[p] == t2[p] && t[q] == t2[q]);
        (p, q)
    }
}

/// Sorting keeps items of equal key in their relative order: items of equal
/// key at positions `i < j` before the sort stand at positions `p < q`
/// after it.
pub proof fn lemma_sort_keeps_tie_positions<T>(s: Seq<T>, key: spec_fn(T) -> Seq<char>, desc: bool, i: int, j: int) -> (pq: (int, int))
    requires
        0 <= i < j < s.len(),
        key(s[i]) == key(s[j]),
    ensures
        0 <= pq.0 < pq.1 < stable_sort(s, key, desc).len(),
        stable_sort(s, key, desc)[pq.0] == s[i],
        stable_sort(s, key, desc)[pq.1] == s[j],
{
    let kv = key(s[i]);
    let t = stable_sort(s, key, desc);
    lemma_sort_with_key(s, key, desc, kv);
    let (a, b) = lemma_with_key_order(s, key, kv, i, j);
    lemma_with_key_back(t, key, kv, a, b)
}

} // verus!
