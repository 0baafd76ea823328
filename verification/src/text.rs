//! Character-level helpers shared by the parsers of this crate.
use vstd::prelude::*;

verus! {

/// `s` split at every occurrence of `sep`, as `str::split` with a `char` pattern does:
/// `n` separators give `n + 1` pieces, empty pieces included.
pub open spec fn split_on(s: Seq<char>, sep: char) -> Seq<Seq<char>>
    decreases s.len(),
{
    if s.len() == 0 {
        seq![Seq::<char>::empty()]
    } else {
        let prev = split_on(s.drop_last(), sep);
        if s.last() == sep {
            prev.push(Seq::<char>::empty())
        } else {
            prev.update(prev.len() - 1, prev.last().push(s.last()))
        }
    }
}

/// `pat` occurs in `s` at index `i`.
pub open spec fn occurs_at(s: Seq<char>, pat: Seq<char>, i: int) -> bool {
    &&& 0 <= i
    &&& i + pat.len() <= s.len()
    &&& s.subrange(i, i + pat.len()) == pat
}

/// `s` begins with `pat`.
pub open spec fn starts_with(s: Seq<char>, pat: Seq<char>) -> bool {
    occurs_at(s, pat, 0)
}

/// `s` ends with `pat`.
pub open spec fn ends_with(s: Seq<char>, pat: Seq<char>) -> bool {
    pat.len() <= s.len() && occurs_at(s, pat, s.len() - pat.len())
}

/// `s` with every trailing copy of `pat` removed, as `str::trim_end_matches` does.
pub open spec fn trim_end_all(s: Seq<char>, pat: Seq<char>) -> Seq<char>
    decreases s.len(),
{
    if pat.len() > 0 && ends_with(s, pat) {
        trim_end_all(s.subrange(0, s.len() - pat.len()), pat)
    } else {
        s
    }
}

/// The leftmost index at or after `i` where `pat` occurs in `s`.
pub open spec fn find_from(s: Seq<char>, pat: Seq<char>, i: nat) -> Option<nat>
    decreases s.len() + 1 - i,
{
    if i + pat.len() > s.len() {
        None
    } else if occurs_at(s, pat, i as int) {
        Some(i)
    } else {
        find_from(s, pat, i + 1)
    }
}

/// The end of piece `k` when `starts` holds the start index of every piece of a
/// split of a text of length `n`.
pub open spec fn piece_end(starts: Seq<usize>, k: int, n: int) -> int {
    if k + 1 < starts.len() {
        starts[k + 1] - 1
    } else {
        n
    }
}

/// `starts` gives, for each piece of `split_on(s.take(n), sep)`, the index where it begins.
pub open spec fn piece_starts(s: Seq<char>, sep: char, n: int, starts: Seq<usize>) -> bool {
    let pieces = split_on(s.take(n), sep);
    &&& 0 <= n <= s.len()
    &&& starts.len() == pieces.len()
    &&& starts.len() >= 1
    &&& starts[0] == 0
    &&& forall|k: int| #![trigger starts[k]] 0 < k < starts.len() ==> 1 <= starts[k] <= n
        && s[starts[k] - 1] == sep
    &&& forall|k: int, j: int| 0 <= k < j < starts.len() ==> starts[k] < starts[j]
    &&& forall|k: int| #![trigger pieces[k]] 0 <= k < pieces.len() ==> starts[k] <= piece_end(starts, k, n)
        && pieces[k] == s.subrange(starts[k] as int, piece_end(starts, k, n))
}

/// The characters of `s`, one by one.
pub fn chars_of(s: &str) -> (v: Vec<char>)
    ensures
        v@ == s@,
{
    let n = s.unicode_len();
    let mut v: Vec<char> = Vec::new();
    let mut i: usize = 0;
    while i < n
        invariant
            n == s@.len(),
            i <= n,
            v@ == s@.take(i as int),
        decreases n - i,
    {
        v.push(s.get_char(i));
        i = i + 1;
        assert(v@ =~= s@.take(i as int));
    }
    assert(v@ =~= s@);
    v
}

/// Whether two texts hold the same characters.
pub fn same_text(a: &str, b: &str) -> (r: bool)
    ensures
        r == (a@ == b@),
{
    let x = chars_of(a);
    let y = chars_of(b);
    if x.len() != y.len() {
        return false;
    }
    let mut i: usize = 0;
    while i < x.len()
        invariant
            x@ == a@,
            y@ == b@,
            x.len() == y.len(),
            i <= x.len(),
            forall|j: int| 0 <= j < i ==> x@[j] == y@[j],
        decreases x.len() - i,
    {
        if x[i] != y[i] {
            return false;
        }
        i = i + 1;
    }
    assert(x@ =~= y@);
    true
}

/// Whether `c` occurs in `chars`.
pub fn has_char(chars: &Vec<char>, c: char) -> (r: bool)
    ensures
        r == chars@.contains(c),
{
    let mut i: usize = 0;
    while i < chars.len()
        invariant
            i <= chars.len(),
            forall|j: int| 0 <= j < i ==> chars@[j] != c,
        decreases chars.len() - i,
    {
        if chars[i] == c {
            assert(chars@[i as int] == c);
            return true;
        }
        i = i + 1;
    }
    false
}

/// Whether `pat` occurs in `chars` at index `i`.
pub fn matches_at(chars: &Vec<char>, pat: &Vec<char>, i: usize) -> (r: bool)
    ensures
        r == occurs_at(chars@, pat@, i as int),
{
    if pat.len() > chars.len() || i > chars.len() - pat.len() {
        return false;
    }
    let mut j: usize = 0;
    while j < pat.len()
        invariant
            i + pat.len() <= chars.len(),
            j <= pat.len(),
            forall|k: int| 0 <= k < j ==> chars@[i + k] == pat@[k],
        decreases pat.len() - j,
    {
        if chars[i + j] != pat[j] {
            assert(chars@.subrange(i as int, i + pat.len())[j as int] != pat@[j as int]);
            return false;
        }
        j = j + 1;
    }
    assert(chars@.subrange(i as int, i + pat.len()) =~= pat@);
    true
}

/// Proves that every split has at least one piece.
pub proof fn lemma_split_nonempty(s: Seq<char>, sep: char)
    ensures
        split_on(s, sep).len() >= 1,
    decreases s.len(),
{
    if s.len() > 0 {
        lemma_split_nonempty(s.drop_last(), sep);
    }
}

/// The start index of every piece of `chars` split at `sep`.
pub fn split_starts(chars: &Vec<char>, sep: char) -> (starts: Vec<usize>)
    ensures
        piece_starts(chars@, sep, chars@.len() as int, starts@),
{
    let mut starts: Vec<usize> = Vec::new();
    starts.push(0);
    let mut i: usize = 0;
    assert(chars@.take(0) =~= Seq::<char>::empty());
    assert(split_on(chars@.take(0), sep) =~= seq![Seq::<char>::empty()]);
    assert(chars@.subrange(0, 0) =~= Seq::<char>::empty());
    while i < chars.len()
        invariant
            i <= chars.len(),
            piece_starts(chars@, sep, i as int, starts@),
        decreases chars.len() - i,
    {
        let ghost old_starts = starts@;
        let ghost prev = split_on(chars@.take(i as int), sep);
        let ghost t = chars@.take(i + 1);
        assert(t.drop_last() =~= chars@.take(i as int));
        assert(t.last() == chars@[i as int]);
        if chars[i] == sep {
            starts.push(i + 1);
            assert(split_on(t, sep) == prev.push(Seq::<char>::empty()));
            assert forall|k: int| #![trigger split_on(t, sep)[k]] 0 <= k < split_on(t, sep).len()
                implies starts@[k] <= piece_end(starts@, k, i + 1)
                && split_on(t, sep)[k] == chars@.subrange(starts@[k] as int, piece_end(starts@, k, i + 1)) by {
                if k + 1 < old_starts.len() {
                    assert(starts@[k] == old_starts[k]);
                    assert(starts@[k + 1] == old_starts[k + 1]);
                    assert(prev[k] == chars@.subrange(old_starts[k] as int, piece_end(old_starts, k, i as int)));
                } else if k + 1 == old_starts.len() {
                    assert(prev[k] == chars@.subrange(old_starts[k] as int, i as int));
                } else {
                    assert(chars@.subrange(i + 1, i + 1) =~= Seq::<char>::empty());
                }
            }
        } else {
            let ghost last = (prev.len() - 1) as int;
            assert(split_on(t, sep) == prev.update(last, prev.last().push(chars@[i as int])));
            assert(prev[last] == chars@.subrange(old_starts[last] as int, i as int));
            assert(chars@.subrange(old_starts[last] as int, i as int).push(chars@[i as int])
                =~= chars@.subrange(old_starts[last] as int, i + 1));
            assert forall|k: int| #![trigger split_on(t, sep)[k]] 0 <= k < split_on(t, sep).len()
                implies starts@[k] <= piece_end(starts@, k, i + 1)
                && split_on(t, sep)[k] == chars@.subrange(starts@[k] as int, piece_end(starts@, k, i + 1)) by {
                if k < last {
                    assert(prev[k] == chars@.subrange(old_starts[k] as int, piece_end(old_starts, k, i as int)));
                }
            }
        }
        i = i + 1;
    }
    assert(chars@.take(chars@.len() as int) =~= chars@);
    starts
}

/// Once every trailing copy of a non-empty `pat` is removed, the text no longer ends
/// with `pat`.
pub proof fn lemma_trimmed_has_no_suffix(s: Seq<char>, pat: Seq<char>)
    requires
        pat.len() > 0,
    ensures
        !ends_with(trim_end_all(s, pat), pat),
        trim_end_all(s, pat).len() <= s.len(),
    decreases s.len(),
{
    if ends_with(s, pat) {
        lemma_trimmed_has_no_suffix(s.subrange(0, s.len() - pat.len()), pat);
    }
}

/// Splitting text that ends in `sep` and a piece free of `sep` gives the pieces before
/// and then that piece.
pub proof fn lemma_split_last_piece(s: Seq<char>, sep: char, t: Seq<char>)
    requires
        !t.contains(sep),
    ensures
        split_on(s.push(sep) + t, sep) == split_on(s, sep).push(t),
    decreases t.len(),
{
    if t.len() == 0 {
        assert(s.push(sep) + t =~= s.push(sep));
        assert(s.push(sep).drop_last() =~= s);
        assert(t =~= Seq::<char>::empty());
        assert(split_on(s.push(sep), sep) == split_on(s, sep).push(Seq::<char>::empty()));
    } else {
        let u = t.drop_last();
        assert(!u.contains(sep)) by {
            if u.contains(sep) {
                let k = choose|k: int| 0 <= k < u.len() && u[k] == sep;
                assert(t[k] == sep);
            }
        }
        lemma_split_last_piece(s, sep, u);
        assert((s.push(sep) + t).drop_last() =~= s.push(sep) + u);
        assert((s.push(sep) + t).last() == t.last());
        assert(t.last() != sep) by {
            assert(t[t.len() - 1] == t.last());
        }
        lemma_split_nonempty(s, sep);
        assert(u.push(t.last()) =~= t);
        let w = s.push(sep) + t;
        let prev = split_on(w.drop_last(), sep);
        assert(prev == split_on(s, sep).push(u));
        assert(prev.last() == u);
        assert(split_on(w, sep) == prev.update(prev.len() - 1, prev.last().push(w.last())));
        assert(split_on(s, sep).push(u).update(split_on(s, sep).len() as int, u.push(t.last()))
            =~= split_on(s, sep).push(t));
    }
}

} // verus!
