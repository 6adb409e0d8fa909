//! Character-level string rules used by the models and handlers.

use vstd::prelude::*;
use vstd::string::*;

verus! {

/// The characters of `s` before the first `sep`; all of `s` when `sep` does not occur.
pub open spec fn prefix_before(s: Seq<char>, sep: char) -> Seq<char>
    decreases s.len(),
{
    if s.len() == 0 {
        s
    } else if s[0] == sep {
        Seq::empty()
    } else {
        seq![s[0]] + prefix_before(s.drop_first(), sep)
    }
}

/// `i` is the position of the first `sep` in `s`, or `s.len()` when there is none.
pub open spec fn is_first_index_of(s: Seq<char>, sep: char, i: int) -> bool {
    &&& 0 <= i <= s.len()
    &&& i < s.len() ==> s[i] == sep
    &&& forall|j: int| 0 <= j < i ==> s[j] != sep
}

/// The prefix before the first separator is the slice up to its position.
pub proof fn lemma_prefix_before_take(s: Seq<char>, sep: char, i: int)
    requires
        is_first_index_of(s, sep, i),
    ensures
        prefix_before(s, sep) == s.take(i),
    decreases s.len(),
{
    if s.len() == 0 {
        assert(s.take(i) =~= s);
    } else if s[0] == sep {
        assert(s.take(i) =~= Seq::<char>::empty());
    } else {
        let t = s.drop_first();
        assert(is_first_index_of(t, sep, i - 1)) by {
            assert forall|j: int| 0 <= j < i - 1 implies t[j] != sep by {
                assert(t[j] == s[j + 1]);
            }
        }
        lemma_prefix_before_take(t, sep, i - 1);
        assert(s.take(i) =~= seq![s[0]] + t.take(i - 1));
    }
}

/// The prefix before a separator never holds the separator and starts the string.
pub proof fn lemma_prefix_before_shape(s: Seq<char>, sep: char)
    ensures
        !prefix_before(s, sep).contains(sep),
        prefix_before(s, sep).is_prefix_of(s),
        !s.contains(sep) ==> prefix_before(s, sep) == s,
    decreases s.len(),
{
    if s.len() == 0 {
    } else if s[0] == sep {
        assert(s.contains(sep)) by { assert(s[0] == sep); }
    } else {
        let t = s.drop_first();
        lemma_prefix_before_shape(t, sep);
        let p = prefix_before(t, sep);
        let q = seq![s[0]] + p;
        assert(q == prefix_before(s, sep));
        assert forall|k: int| 0 <= k < q.len() implies q[k] != sep by {
            if k > 0 {
                assert(q[k] == p[k - 1]);
                assert(!p.contains(sep));
            }
        }
        assert forall|k: int| 0 <= k < q.len() implies q[k] == s[k] by {
            if k > 0 {
                assert(q[k] == p[k - 1]);
                assert(p[k - 1] == t[k - 1]);
            }
        }
        if !s.contains(sep) {
            assert(!t.contains(sep)) by {
                assert forall|k: int| 0 <= k < t.len() implies t[k] != sep by {
                    assert(t[k] == s[k + 1]);
                }
            }
            assert(q =~= s);
        }
    }
}

/// Position of the first `sep` in `s`, or its length when `sep` does not occur.
pub fn first_index_of(s: &str, sep: char) -> (i: usize)
    ensures
        is_first_index_of(s@, sep, i as int),
{
    let n = s.unicode_len();
    let mut i: usize = 0;
    while i < n
        invariant
            n == s@.len(),
            i <= n,
            forall|j: int| 0 <= j < i ==> s@[j] != sep,
        decreases n - i,
    {
        if s.get_char(i) == sep {
            return i;
        }
        i = i + 1;
    }
    i
}

/// The text of `s` before the first `sep`.
pub fn text_before(s: &str, sep: char) -> (r: String)
    ensures
        r@ == prefix_before(s@, sep),
{
    let i = first_index_of(s, sep);
    proof {
        lemma_prefix_before_take(s@, sep, i as int);
    }
    s.substring_char(0, i).to_owned()
}

/// Whether two texts hold the same characters.
pub fn same_text(a: &str, b: &str) -> (r: bool)
    ensures
        r == (a@ == b@),
{
    let n = a.unicode_len();
    if n != b.unicode_len() {
        return false;
    }
    let mut i: usize = 0;
    while i < n
        invariant
            n == a@.len(),
            n == b@.len(),
            i <= n,
            forall|j: int| 0 <= j < i ==> a@[j] == b@[j],
        decreases n - i,
    {
        if a.get_char(i) != b.get_char(i) {
            return false;
        }
        i = i + 1;
    }
    assert(a@ =~= b@);
    true
}

/// `s` without its leading run of `c`.
pub open spec fn trim_leading(s: Seq<char>, c: char) -> Seq<char>
    decreases s.len(),
{
    if s.len() > 0 && s[0] == c {
        trim_leading(s.drop_first(), c)
    } else {
        s
    }
}

/// `s` with every occurrence of `pattern` removed, matching from the left
/// without overlaps.
pub open spec fn remove_all(s: Seq<char>, pattern: Seq<char>) -> Seq<char>
    decreases s.len(),
{
    if s.len() == 0 {
        s
    } else if pattern.len() > 0 && pattern.is_prefix_of(s) {
        remove_all(s.skip(pattern.len() as int), pattern)
    } else {
        seq![s[0]] + remove_all(s.drop_first(), pattern)
    }
}

/// The text of `s` without its leading run of `c`.
pub fn trim_leading_char(s: &str, c: char) -> (r: String)
    ensures
        r@ == trim_leading(s@, c),
{
    let n = s.unicode_len();
    let mut i: usize = 0;
    assert(s@.skip(0) =~= s@);
    while i < n && s.get_char(i) == c
        invariant
            n == s@.len(),
            i <= n,
            trim_leading(s@, c) == trim_leading(s@.skip(i as int), c),
        decreases n - i,
    {
        assert(s@.skip(i as int).drop_first() =~= s@.skip(i as int + 1));
        i = i + 1;
    }
    let rest = s.substring_char(i, n);
    assert(rest@ =~= s@.skip(i as int));
    rest.to_owned()
}

/// Whether `pattern` occurs in `s` at position `at`.
pub fn occurs_at(s: &str, at: usize, pattern: &str) -> (r: bool)
    requires
        at <= s@.len(),
    ensures
        r == pattern@.is_prefix_of(s@.skip(at as int)),
{
    let n = s.unicode_len();
    let m = pattern.unicode_len();
    if m > n - at {
        return false;
    }
    let mut k: usize = 0;
    while k < m
        invariant
            n == s@.len(),
            m == pattern@.len(),
            at + m <= n,
            k <= m,
            forall|j: int| 0 <= j < k ==> pattern@[j] == s@[at + j],
        decreases m - k,
    {
        if s.get_char(at + k) != pattern.get_char(k) {
            assert(pattern@[k as int] != s@.skip(at as int).subrange(0, m as int)[k as int]);
            return false;
        }
        k = k + 1;
    }
    assert(pattern@ =~= s@.skip(at as int).subrange(0, m as int));
    true
}

/// The text of `s` with every occurrence of a non-empty `pattern` removed.
pub fn remove_all_of(s: &str, pattern: &str) -> (r: String)
    requires
        pattern@.len() > 0,
    ensures
        r@ == remove_all(s@, pattern@),
{
    let n = s.unicode_len();
    let m = pattern.unicode_len();
    let mut kept = String::new();
    let mut i: usize = 0;
    assert(s@.skip(0) =~= s@);
    while i < n
        invariant
            n == s@.len(),
            m == pattern@.len(),
            m > 0,
            i <= n,
            remove_all(s@, pattern@) == kept@ + remove_all(s@.skip(i as int), pattern@),
        decreases n - i,
    {
        let ghost rest = s@.skip(i as int);
        if occurs_at(s, i, pattern) {
            assert(rest.skip(m as int) =~= s@.skip(i as int + m as int));
            i = i + m;
        } else {
            let one = s.substring_char(i, i + 1);
            assert(one@ =~= seq![rest[0]]);
            kept.append(one);
            assert(rest.drop_first() =~= s@.skip(i as int + 1));
            assert(kept@ + remove_all(s@.skip(i as int + 1), pattern@) =~= (kept@.subrange(0, kept@.len() - 1) + seq![rest[0]]) + remove_all(rest.drop_first(), pattern@));
            i = i + 1;
        }
    }
    assert(s@.skip(n as int) =~= Seq::<char>::empty());
    assert(kept@ + Seq::<char>::empty() =~= kept@);
    kept
}

/// The characters of `s` after the last `sep`; all of `s` when `sep` does not occur.
pub open spec fn suffix_after_last(s: Seq<char>, sep: char) -> Seq<char>
    decreases s.len(),
{
    if s.len() == 0 {
        s
    } else if s.last() == sep {
        Seq::empty()
    } else {
        suffix_after_last(s.drop_last(), sep).push(s.last())
    }
}

/// `start` is just past the last `sep` in `s`, or 0 when there is none.
pub open spec fn starts_after_last(s: Seq<char>, sep: char, start: int) -> bool {
    &&& 0 <= start <= s.len()
    &&& start > 0 ==> s[start - 1] == sep
    &&& forall|j: int| start <= j < s.len() ==> s[j] != sep
}

/// The suffix after the last separator is the slice from just past it.
pub proof fn lemma_suffix_after_last_skip(s: Seq<char>, sep: char, start: int)
    requires
        starts_after_last(s, sep, start),
    ensures
        suffix_after_last(s, sep) == s.skip(start),
    decreases s.len(),
{
    if s.len() == 0 {
        assert(s.skip(start) =~= s);
    } else if s.last() == sep {
        assert(start == s.len());
        assert(s.skip(start) =~= Seq::<char>::empty());
    } else {
        let t = s.drop_last();
        assert(start < s.len());
        assert(starts_after_last(t, sep, start));
        lemma_suffix_after_last_skip(t, sep, start);
        assert(s.skip(start) =~= t.skip(start).push(s.last()));
    }
}

/// The suffix after the last separator is a given separator-free text `t`
/// exactly when `s` is `t` itself or ends with the separator followed by `t`.
pub proof fn lemma_suffix_after_last_is(s: Seq<char>, sep: char, t: Seq<char>)
    requires
        !t.contains(sep),
    ensures
        suffix_after_last(s, sep) == t <==> (s == t || (s.len() > t.len() && s[s.len() - t.len() - 1] == sep
            && s.skip(s.len() - t.len()) == t)),
    decreases s.len(),
{
    let n = s.len() as int;
    let m = t.len() as int;
    if n == 0 {
        if suffix_after_last(s, sep) == t {
            assert(s =~= t);
        }
        if s == t {
            assert(t.len() == 0);
            assert(suffix_after_last(s, sep) =~= t);
        }
    } else if s.last() == sep {
        if s == t {
            assert(t[n - 1] == sep);
            assert(t.contains(sep));
        }
        if m == 0 {
            assert(s.skip(n) =~= t);
            assert(suffix_after_last(s, sep) =~= t);
        } else if n > m && s.skip(n - m) == t {
            assert(t[m - 1] == s.skip(n - m)[m - 1]);
            assert(t.contains(sep));
        }
    } else {
        let s1 = s.drop_last();
        if m == 0 {
            assert(suffix_after_last(s, sep).len() > 0);
            if s == t {
                assert(false);
            }
        } else {
            let t1 = t.drop_last();
            assert(!t1.contains(sep)) by {
                if t1.contains(sep) {
                    let k = choose|k: int| 0 <= k < t1.len() && t1[k] == sep;
                    assert(t[k] == sep);
                }
            }
            lemma_suffix_after_last_is(s1, sep, t1);
            let lhs = suffix_after_last(s, sep);
            assert(lhs == suffix_after_last(s1, sep).push(s.last()));
            if lhs == t {
                assert(suffix_after_last(s1, sep) =~= lhs.drop_last());
                assert(t.last() == s.last());
                if s1 == t1 {
                    assert(s =~= t1.push(t.last()));
                    assert(t =~= t1.push(t.last()));
                } else {
                    assert(s1.skip(s1.len() - t1.len()) == t1);
                    assert(s.skip(n - m) =~= s1.skip(s1.len() - t1.len()).push(s.last()));
                    assert(t =~= t1.push(t.last()));
                    assert(s[n - m - 1] == s1[s1.len() - t1.len() - 1]);
                }
            }
            if s == t {
                assert(s1 =~= t1);
                assert(t =~= t1.push(t.last()));
            }
            if s != t && n > m && s[n - m - 1] == sep && s.skip(n - m) == t {
                assert(s.skip(n - m)[m - 1] == s.last());
                assert(t.last() == s.last());
                assert(s1.skip(s1.len() - t1.len()) =~= t1) by {
                    assert forall|k: int| 0 <= k < t1.len() implies s1.skip(s1.len() - t1.len())[k] == t1[k] by {
                        assert(s.skip(n - m)[k] == t[k]);
                    }
                }
                assert(s1[s1.len() - t1.len() - 1] == s[n - m - 1]);
                assert(suffix_after_last(s1, sep) == t1);
                assert(lhs =~= t1.push(s.last()));
                assert(t =~= t1.push(t.last()));
            }
        }
    }
}

/// The text of `s` after the last `sep`.
pub fn text_after_last(s: &str, sep: char) -> (r: &str)
    ensures
        r@ == suffix_after_last(s@, sep),
{
    let n = s.unicode_len();
    let mut start: usize = n;
    while start > 0 && s.get_char(start - 1) != sep
        invariant
            n == s@.len(),
            start <= n,
            forall|j: int| start <= j < n ==> s@[j] != sep,
        decreases start,
    {
        start = start - 1;
    }
    proof {
        lemma_suffix_after_last_skip(s@, sep, start as int);
    }
    let r = s.substring_char(start, n);
    assert(r@ =~= s@.skip(start as int));
    r
}

} // verus!
