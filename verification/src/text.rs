//! Character-level text operations with their mathematical meaning.

use vstd::prelude::*;
use vstd::string::*;

verus! {

/// `suffix` is a suffix of `s`.
pub open spec fn has_suffix(s: Seq<char>, suffix: Seq<char>) -> bool {
    &&& suffix.len() <= s.len()
    &&& s.subrange(s.len() - suffix.len(), s.len() as int) == suffix
}

/// `pat` occurs in `s` starting at position `i`.
pub open spec fn occurs_at(s: Seq<char>, pat: Seq<char>, i: int) -> bool {
    &&& 0 <= i
    &&& i + pat.len() <= s.len()
    &&& s.subrange(i, i + pat.len()) == pat
}

/// Every occurrence of the non-empty pattern `pat` in `s`, found from left to
/// right without overlap, replaced by `rep`.
pub open spec fn replace_all(s: Seq<char>, pat: Seq<char>, rep: Seq<char>) -> Seq<char>
    decreases s.len(),
{
    if pat.len() == 0 || s.len() < pat.len() {
        s
    } else if s.subrange(0, pat.len() as int) == pat {
        rep + replace_all(s.subrange(pat.len() as int, s.len() as int), pat, rep)
    } else {
        seq![s[0]] + replace_all(s.subrange(1, s.len() as int), pat, rep)
    }
}

/// Concatenation of two strings.
pub fn concat(a: &str, b: &str) -> (res: String)
    ensures
        res@ == a@ + b@,
{
    let mut out = String::from_str(a);
    out.append(b);
    out
}

/// Whether `s` ends with `suffix`.
pub fn ends_with(s: &str, suffix: &str) -> (res: bool)
    ensures
        res == has_suffix(s@, suffix@),
{
    let n = s.unicode_len();
    let m = suffix.unicode_len();
    if m > n {
        return false;
    }
    let off = n - m;
    let mut i: usize = 0;
    while i < m
        invariant
            n == s@.len(),
            m == suffix@.len(),
            off == n - m,
            i <= m,
            forall|j: int| 0 <= j < i ==> s@[off + j] == suffix@[j],
        decreases m - i,
    {
        if s.get_char(off + i) != suffix.get_char(i) {
            assert(s@.subrange(off as int, n as int)[i as int] != suffix@[i as int]);
            return false;
        }
        i = i + 1;
    }
    assert(s@.subrange(off as int, n as int) =~= suffix@);
    true
}

/// Whether two strings hold the same characters.
pub fn same_text(a: &str, b: &str) -> (res: bool)
    ensures
        res == (a@ == b@),
{
    let n = a.unicode_len();
    let m = b.unicode_len();
    if n != m {
        return false;
    }
    let mut i: usize = 0;
    while i < n
        invariant
            n == a@.len(),
            m == b@.len(),
            n == m,
            i <= n,
            forall|j: int| 0 <= j < i ==> a@[j] == b@[j],
        decreases n - i,
    {
        if a.get_char(i) != b.get_char(i) {
            return false;
        }
        i = i + 1;
    }
    assert(a@ =~= b@);
    true
}

/// Whether `pat` occurs in `s` at position `i`; `m` is the length of `pat`.
fn matches_at(s: &str, pat: &str, i: usize, m: usize) -> (res: bool)
    requires
        m == pat@.len(),
        i + m <= s@.len(),
        s@.len() <= usize::MAX,
    ensures
        res == (s@.subrange(i as int, i + m) == pat@),
{
    let mut j: usize = 0;
    while j < m
        invariant
            m == pat@.len(),
            i + m <= s@.len(),
            s@.len() <= usize::MAX,
            j <= m,
            forall|k: int| 0 <= k < j ==> s@[i + k] == pat@[k],
        decreases m - j,
    {
        if s.get_char(i + j) != pat.get_char(j) {
            assert(s@.subrange(i as int, i + m)[j as int] != pat@[j as int]);
            return false;
        }
        j = j + 1;
    }
    assert(s@.subrange(i as int, i + m) =~= pat@);
    true
}

/// Unfolds `replace_all` one step at position `i` where `pat` does not occur.
proof fn lemma_replace_skip(s: Seq<char>, pat: Seq<char>, rep: Seq<char>, i: int)
    requires
        pat.len() > 0,
        0 <= i < s.len(),
        !occurs_at(s, pat, i),
    ensures
        replace_all(s.subrange(i, s.len() as int), pat, rep) == seq![s[i]] + replace_all(
            s.subrange(i + 1, s.len() as int),
            pat,
            rep,
        ),
{
    let t = s.subrange(i, s.len() as int);
    assert(t.subrange(1, t.len() as int) =~= s.subrange(i + 1, s.len() as int));
    if t.len() < pat.len() {
        lemma_replace_short(s.subrange(i + 1, s.len() as int), pat, rep);
        assert(t =~= seq![s[i]] + s.subrange(i + 1, s.len() as int));
    } else {
        assert(t.subrange(0, pat.len() as int) =~= s.subrange(i, i + pat.len()));
    }
}

/// A text shorter than the pattern is left as it is.
proof fn lemma_replace_short(s: Seq<char>, pat: Seq<char>, rep: Seq<char>)
    requires
        s.len() < pat.len(),
    ensures
        replace_all(s, pat, rep) == s,
{
}

/// Unfolds `replace_all` one step at position `i` where `pat` occurs.
proof fn lemma_replace_hit(s: Seq<char>, pat: Seq<char>, rep: Seq<char>, i: int)
    requires
        pat.len() > 0,
        occurs_at(s, pat, i),
    ensures
        replace_all(s.subrange(i, s.len() as int), pat, rep) == rep + replace_all(
            s.subrange(i + pat.len(), s.len() as int),
            pat,
            rep,
        ),
{
    let t = s.subrange(i, s.len() as int);
    assert(t.subrange(0, pat.len() as int) =~= s.subrange(i, i + pat.len()));
    assert(t.subrange(pat.len() as int, t.len() as int) =~= s.subrange(
        i + pat.len(),
        s.len() as int,
    ));
}

/// `s` with every occurrence of the non-empty `pat`, found from left to
/// right without overlap, replaced by `rep`.
pub fn replace(s: &str, pat: &str, rep: &str) -> (res: String)
    requires
        pat@.len() > 0,
    ensures
        res@ == replace_all(s@, pat@, rep@),
{
    let n = s.unicode_len();
    let m = pat.unicode_len();
    let mut out = String::new();
    let mut seg: usize = 0;
    let mut i: usize = 0;
    assert(s@.subrange(0, n as int) =~= s@);
    while i < n
        invariant
            n == s@.len(),
            m == pat@.len(),
            m > 0,
            seg <= i <= n,
            out@ + s@.subrange(seg as int, i as int) + replace_all(
                s@.subrange(i as int, n as int),
                pat@,
                rep@,
            ) == replace_all(s@, pat@, rep@),
        decreases n - i,
    {
        if m <= n - i && matches_at(s, pat, i, m) {
            proof {
                lemma_replace_hit(s@, pat@, rep@, i as int);
            }
            let piece = s.substring_char(seg, i);
            let ghost before = out@;
            out.append(piece);
            out.append(rep);
            assert(out@ =~= before + s@.subrange(seg as int, i as int) + rep@);
            i = i + m;
            seg = i;
            assert(s@.subrange(seg as int, i as int) =~= Seq::<char>::empty());
            assert(out@ + s@.subrange(seg as int, i as int) =~= out@);
        } else {
            proof {
                lemma_replace_skip(s@, pat@, rep@, i as int);
                assert(s@.subrange(seg as int, i + 1) =~= s@.subrange(seg as int, i as int).push(
                    s@[i as int],
                ));
            }
            let ghost before = out@;
            let ghost rest = replace_all(s@.subrange(i + 1, n as int), pat@, rep@);
            assert(before + s@.subrange(seg as int, i as int) + (seq![s@[i as int]] + rest)
                =~= before + s@.subrange(seg as int, i + 1) + rest);
            i = i + 1;
        }
    }
    let tail = s.substring_char(seg, n);
    let ghost before = out@;
    out.append(tail);
    assert(s@.subrange(n as int, n as int) =~= Seq::<char>::empty());
    assert(before + s@.subrange(seg as int, n as int) + Seq::<char>::empty() =~= out@);
    out
}

/// A text in which the pattern does not occur is left as it is.
pub proof fn lemma_replace_absent(s: Seq<char>, pat: Seq<char>, rep: Seq<char>)
    requires
        forall|i: int| !occurs_at(s, pat, i),
    ensures
        replace_all(s, pat, rep) == s,
    decreases s.len(),
{
    if pat.len() == 0 || s.len() < pat.len() {
    } else {
        assert(!occurs_at(s, pat, 0));
        let t = s.subrange(1, s.len() as int);
        assert forall|i: int| !occurs_at(t, pat, i) by {
            if occurs_at(t, pat, i) {
                assert(s.subrange(i + 1, i + 1 + pat.len()) =~= t.subrange(i, i + pat.len()));
                assert(occurs_at(s, pat, i + 1));
            }
        }
        lemma_replace_absent(t, pat, rep);
        assert(s.subrange(0, pat.len() as int) != pat);
        assert(seq![s[0]] + t =~= s);
    }
}

/// The first occurrence is replaced and the rest of the text is treated the
/// same way: where `pat` does not occur in `a + pat + b` before the end of
/// `a`, replacing in `a + pat + b` gives `a`, then `rep`, then `b` with its
/// own occurrences replaced.
pub proof fn lemma_replace_first(a: Seq<char>, pat: Seq<char>, b: Seq<char>, rep: Seq<char>)
    requires
        pat.len() > 0,
        forall|i: int| 0 <= i < a.len() ==> !occurs_at(a + pat + b, pat, i),
    ensures
        replace_all(a + pat + b, pat, rep) == a + rep + replace_all(b, pat, rep),
    decreases a.len(),
{
    let s = a + pat + b;
    if a.len() == 0 {
        assert(s =~= pat + b);
        assert(s.subrange(0, pat.len() as int) =~= pat);
        assert(s.subrange(pat.len() as int, s.len() as int) =~= b);
        assert(a + rep + replace_all(b, pat, rep) =~= rep + replace_all(b, pat, rep));
    } else {
        assert(!occurs_at(s, pat, 0));
        let a1 = a.subrange(1, a.len() as int);
        let s1 = a1 + pat + b;
        assert(s.subrange(1, s.len() as int) =~= s1);
        assert forall|i: int| 0 <= i < a1.len() implies !occurs_at(s1, pat, i) by {
            assert(!occurs_at(s, pat, i + 1));
            if occurs_at(s1, pat, i) {
                assert(s.subrange(i + 1, i + 1 + pat.len()) =~= s1.subrange(i, i + pat.len()));
            }
        }
        lemma_replace_first(a1, pat, b, rep);
        if s.len() >= pat.len() {
            assert(s.subrange(0, pat.len() as int) != pat);
        }
        assert(s[0] == a[0]);
        assert(seq![a[0]] + (a1 + rep + replace_all(b, pat, rep)) =~= a + rep + replace_all(
            b,
            pat,
            rep,
        ));
    }
}

/// `suffix` ends `s` exactly where `s` is some text followed by `suffix`.
pub proof fn lemma_has_suffix_means_ends_with(s: Seq<char>, suffix: Seq<char>)
    ensures
        has_suffix(s, suffix) <==> exists|t: Seq<char>| s == t + suffix,
{
    if has_suffix(s, suffix) {
        let t = s.subrange(0, s.len() - suffix.len());
        assert(s =~= t + suffix);
    }
    if exists|t: Seq<char>| s == t + suffix {
        let t = choose|t: Seq<char>| s == t + suffix;
        assert(s.subrange(s.len() - suffix.len(), s.len() as int) =~= suffix);
    }
}

} // verus!
