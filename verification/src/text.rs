//! Character-level helpers: the characters of a string, splitting at a
//! separator, and the order in which strings compare.

use vstd::prelude::*;

verus! {

/// The components of `s` between occurrences of `sep`. Reading left to right,
/// a separator opens a new, empty component and any other character extends
/// the last one; the empty sequence has one empty component.
pub open spec fn split_on(s: Seq<char>, sep: char) -> Seq<Seq<char>>
    decreases s.len(),
{
    if s.len() == 0 {
        seq![Seq::<char>::empty()]
    } else {
        let before = split_on(s.drop_last(), sep);
        if s.last() == sep {
            before.push(Seq::<char>::empty())
        } else {
            before.update(before.len() - 1, before.last().push(s.last()))
        }
    }
}

/// `s` holds no `sep`.
pub open spec fn free_of(s: Seq<char>, sep: char) -> bool {
    forall|i: int| 0 <= i < s.len() ==> #[trigger] s[i] != sep
}

/// `a` comes strictly before `b` in the order of strings: at the first
/// position where they differ the character of `a` has the smaller code
/// point, or `a` ends there and `b` goes on.
pub open spec fn lex_less(a: Seq<char>, b: Seq<char>) -> bool
    decreases a.len(),
{
    if b.len() == 0 {
        false
    } else if a.len() == 0 {
        true
    } else if a[0] != b[0] {
        (a[0] as u32) < (b[0] as u32)
    } else {
        lex_less(a.drop_first(), b.drop_first())
    }
}

/// A sequence without separator is its own single component.
pub proof fn lemma_split_free(s: Seq<char>, sep: char)
    requires
        free_of(s, sep),
    ensures
        split_on(s, sep) == seq![s],
    decreases s.len(),
{
    if s.len() == 0 {
        assert(s =~= Seq::<char>::empty());
    } else {
        let init = s.drop_last();
        assert(free_of(init, sep));
        lemma_split_free(init, sep);
        assert(init.push(s.last()) =~= s);
    }
}

/// Splitting `a`, a separator and a separator-free `b` written one after the
/// other gives the components of `a`, then `b`.
pub proof fn lemma_split_append(a: Seq<char>, sep: char, b: Seq<char>)
    requires
        free_of(b, sep),
    ensures
        split_on(a + seq![sep] + b, sep) == split_on(a, sep).push(b),
    decreases b.len(),
{
    let whole = a + seq![sep] + b;
    if b.len() == 0 {
        assert(whole.drop_last() =~= a);
        assert(b =~= Seq::<char>::empty());
    } else {
        let init = b.drop_last();
        assert(free_of(init, sep));
        lemma_split_append(a, sep, init);
        assert(whole.drop_last() =~= a + seq![sep] + init);
        assert(init.push(b.last()) =~= b);
    }
}

/// Two strings that agree on their first `k` characters compare as their
/// remainders do.
pub proof fn lemma_lex_less_common_prefix(a: Seq<char>, b: Seq<char>, k: int)
    requires
        0 <= k <= a.len(),
        k <= b.len(),
        a.take(k) == b.take(k),
    ensures
        lex_less(a, b) == lex_less(a.skip(k), b.skip(k)),
    decreases k,
{
    if k == 0 {
        assert(a.skip(0) =~= a);
        assert(b.skip(0) =~= b);
    } else {
        assert(a[0] == a.take(k)[0]);
        assert(b[0] == b.take(k)[0]);
        let ta = a.drop_first();
        let tb = b.drop_first();
        assert(ta.take(k - 1) =~= a.take(k).drop_first());
        assert(tb.take(k - 1) =~= b.take(k).drop_first());
        lemma_lex_less_common_prefix(ta, tb, k - 1);
        assert(ta.skip(k - 1) =~= a.skip(k));
        assert(tb.skip(k - 1) =~= b.skip(k));
    }
}

/// No string comes before itself.
pub proof fn lemma_lex_less_irreflexive(a: Seq<char>)
    ensures
        !lex_less(a, a),
    decreases a.len(),
{
    if a.len() > 0 {
        lemma_lex_less_irreflexive(a.drop_first());
    }
}

/// Collects the characters of `s`, in order.
pub fn chars_of(s: &str) -> (out: Vec<char>)
    ensures
        out@ == s@,
{
    let mut out: Vec<char> = Vec::new();
    for c in it: s.chars()
        invariant
            out@ == it.seq().take(it.index()),
            it.seq() == s@,
    {
        out.push(c);
    }
    out
}

/// Splits `s` at every `sep`.
pub fn split_chars(s: &Vec<char>, sep: char) -> (parts: Vec<Vec<char>>)
    ensures
        parts.len() == split_on(s@, sep).len(),
        forall|i: int| 0 <= i < parts.len() ==> (#[trigger] parts[i])@ == split_on(s@, sep)[i],
{
    let mut parts: Vec<Vec<char>> = Vec::new();
    let mut current: Vec<char> = Vec::new();
    let n = s.len();
    let mut i: usize = 0;
    while i < n
        invariant
            i <= n,
            n == s.len(),
            split_on(s@.take(i as int), sep).len() == parts.len() + 1,
            forall|j: int|
                0 <= j < parts.len() ==> (#[trigger] parts[j])@ == split_on(
                    s@.take(i as int),
                    sep,
                )[j],
            current@ == split_on(s@.take(i as int), sep)[parts.len() as int],
        decreases n - i,
    {
        let c = s[i];
        assert(s@.take(i + 1).drop_last() =~= s@.take(i as int));
        if c == sep {
            parts.push(current);
            current = Vec::new();
        } else {
            current.push(c);
        }
        i += 1;
    }
    assert(s@.take(n as int) =~= s@);
    parts.push(current);
    parts
}

/// Whether `a` comes strictly after `b` in the order of strings.
pub fn str_greater(a: &str, b: &str) -> (r: bool)
    ensures
        r == lex_less(b@, a@),
{
    let x = chars_of(a);
    let y = chars_of(b);
    let n = if x.len() < y.len() {
        x.len()
    } else {
        y.len()
    };
    let mut i: usize = 0;
    while i < n
        invariant
            i <= n,
            n <= x.len(),
            n <= y.len(),
            n == x.len() || n == y.len(),
            x@ == a@,
            y@ == b@,
            x@.take(i as int) == y@.take(i as int),
        decreases n - i,
    {
        if x[i] != y[i] {
            proof {
                lemma_lex_less_common_prefix(y@, x@, i as int);
            }
            return (y[i] as u32) < (x[i] as u32);
        }
        i += 1;
    }
    proof {
        lemma_lex_less_common_prefix(y@, x@, n as int);
    }
    x.len() > n
}

} // verus!
