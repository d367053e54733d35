//! The order of strings by their characters, and sorting by it.
use vstd::prelude::*;
use vstd::relations::sorted_by;

use crate::strings::owned;

verus! {

/// Whether `a` comes before `b` or equals it, comparing character by character, where a
/// prefix comes first. For strings this is the order of their UTF-8 bytes.
pub open spec fn str_le(a: Seq<char>, b: Seq<char>) -> bool
    decreases a.len(),
{
    if a.len() == 0 {
        true
    } else if b.len() == 0 {
        false
    } else if a[0] != b[0] {
        a[0] < b[0]
    } else {
        str_le(a.drop_first(), b.drop_first())
    }
}

/// `str_le` as a relation.
pub open spec fn str_order() -> spec_fn(Seq<char>, Seq<char>) -> bool {
    |a: Seq<char>, b: Seq<char>| str_le(a, b)
}

/// Any two strings are ordered one way or the other.
pub proof fn lemma_str_le_total(a: Seq<char>, b: Seq<char>)
    ensures
        str_le(a, b) || str_le(b, a),
    decreases a.len(),
{
    if a.len() > 0 && b.len() > 0 && a[0] == b[0] {
        lemma_str_le_total(a.drop_first(), b.drop_first());
    }
}

/// The order is transitive.
pub proof fn lemma_str_le_transitive(a: Seq<char>, b: Seq<char>, c: Seq<char>)
    requires
        str_le(a, b),
        str_le(b, c),
    ensures
        str_le(a, c),
    decreases a.len(),
{
    if a.len() > 0 && b.len() > 0 && c.len() > 0 && a[0] == b[0] && b[0] == c[0] {
        lemma_str_le_transitive(a.drop_first(), b.drop_first(), c.drop_first());
    }
}

/// Whether `a` comes before `b` or equals it.
pub fn le(a: &str, b: &str) -> (r: bool)
    ensures
        r == str_le(a@, b@),
{
    let n = a.unicode_len();
    let m = b.unicode_len();
    let mut i: usize = 0;
    assert(a@.skip(0) =~= a@);
    assert(b@.skip(0) =~= b@);
    while i < n && i < m
        invariant
            n == a@.len(),
            m == b@.len(),
            i <= n,
            i <= m,
            str_le(a@, b@) == str_le(a@.skip(i as int), b@.skip(i as int)),
        decreases n - i,
    {
        assert(a@.skip(i as int).drop_first() =~= a@.skip(i + 1));
        assert(b@.skip(i as int).drop_first() =~= b@.skip(i + 1));
        let x = a.get_char(i);
        let y = b.get_char(i);
        if x != y {
            return x < y;
        }
        i = i + 1;
    }
    i == n
}

/// The strings of `v` in order.
pub fn sort_strings(v: Vec<String>) -> (r: Vec<String>)
    ensures
        sorted_by(r.deep_view(), str_order()),
        r.deep_view().to_multiset() == v.deep_view().to_multiset(),
{
    let ghost input = v.deep_view();
    let mut out: Vec<String> = Vec::new();
    let mut i: usize = 0;
    assert(out.deep_view() =~= input.take(0));
    while i < v.len()
        invariant
            i <= v.len(),
            input == v.deep_view(),
            sorted_by(out.deep_view(), str_order()),
            out.deep_view().to_multiset() == input.take(i as int).to_multiset(),
        decreases v.len() - i,
    {
        let x = &v[i];
        let ghost s = out.deep_view();
        let mut p: usize = 0;
        while p < out.len() && le(out[p].as_str(), x.as_str())
            invariant
                p <= out.len(),
                s == out.deep_view(),
                forall|k: int| 0 <= k < p ==> str_le(#[trigger] s[k], x@),
            decreases out.len() - p,
        {
            p = p + 1;
        }
        proof {
            if p < out.len() {
                lemma_str_le_total(s[p as int], x@);
            }
        }
        out.insert(p, owned(x.as_str()));
        let ghost t = out.deep_view();
        assert(t =~= s.insert(p as int, x@));
        assert forall|a: int, b: int| 0 <= a < b < t.len() implies #[trigger] str_order()(
            t[a],
            t[b],
        ) by {
            if b < p {
                assert(t[a] == s[a] && t[b] == s[b]);
            } else if b == p {
                assert(t[a] == s[a]);
            } else if a == p {
                assert(t[b] == s[b - 1]);
                if b - 1 > p {
                    assert(str_order()(s[p as int], s[b - 1]));
                    lemma_str_le_transitive(x@, s[p as int], s[b - 1]);
                }
            } else if a < p {
                assert(t[b] == s[b - 1]);
                assert(str_le(s[a], x@));
                assert(str_order()(s[a], s[b - 1]));
            } else {
                assert(t[a] == s[a - 1] && t[b] == s[b - 1]);
            }
        }
        assert(t.remove(p as int) =~= s);
        assert(input.take(i + 1) =~= input.take(i as int).push(x@));
        proof {
            input.take(i as int).to_multiset_ensures();
        }
        assert(t.to_multiset() =~= s.to_multiset().insert(x@)) by {
            assert(t[p as int] == x@);
            t.to_multiset_ensures();
            assert(t.remove(p as int).to_multiset() =~= t.to_multiset().remove(t[p as int]));
            assert(t.contains(x@));
            assert(t.to_multiset().count(x@) > 0);
        }
        i = i + 1;
    }
    assert(input.take(v.len() as int) =~= input);
    out
}

} // verus!
