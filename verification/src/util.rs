//! Character-level string helpers: equality, searching for a delimiter, and
//! splitting a token on a delimiter character.

use vstd::prelude::*;

verus! {

/// Index of the first occurrence of `d` in `t`, or `t.len()` when `d` does
/// not occur.
pub open spec fn find_char(t: Seq<char>, d: char) -> nat
    decreases t.len(),
{
    if t.len() == 0 {
        0
    } else if t[0] == d {
        0
    } else {
        (1 + find_char(t.skip(1), d)) as nat
    }
}

pub proof fn lemma_find_char_props(t: Seq<char>, d: char)
    ensures
        find_char(t, d) <= t.len(),
        forall|k: int| 0 <= k < find_char(t, d) ==> t[k] != d,
        find_char(t, d) < t.len() ==> t[find_char(t, d) as int] == d,
    decreases t.len(),
{
    if t.len() == 0 {
    } else if t[0] == d {
    } else {
        lemma_find_char_props(t.skip(1), d);
        assert forall|k: int| 0 <= k < find_char(t, d) implies t[k] != d by {
            if k > 0 {
                assert(t.skip(1)[k - 1] == t[k]);
            }
        }
        if find_char(t, d) < t.len() {
            assert(t.skip(1)[find_char(t, d) - 1] == t[find_char(t, d) as int]);
        }
    }
}

/// `find_char` is pinned down by its characteristic properties.
pub proof fn lemma_find_char_is(t: Seq<char>, d: char, i: nat)
    requires
        i <= t.len(),
        forall|k: int| 0 <= k < i ==> t[k] != d,
        i < t.len() ==> t[i as int] == d,
    ensures
        find_char(t, d) == i,
    decreases t.len(),
{
    if t.len() == 0 {
    } else if t[0] == d {
        assert(i == 0);
    } else {
        assert(i > 0) by {
            if i == 0 {
                assert(t[0] == d);
            }
        }
        assert forall|k: int| 0 <= k < i - 1 implies t.skip(1)[k] != d by {
            assert(t.skip(1)[k] == t[k + 1]);
        }
        if i - 1 < t.skip(1).len() {
            assert(t.skip(1)[i - 1] == t[i as int]);
        }
        lemma_find_char_is(t.skip(1), d, (i - 1) as nat);
    }
}

/// Split `t` on every occurrence of `d`.  A token with no delimiter yields a
/// single segment; `n` delimiters yield `n + 1` segments, empty ones included.
pub open spec fn split_on(t: Seq<char>, d: char) -> Seq<Seq<char>>
    decreases t.len(),
{
    let i = find_char(t, d) as int;
    if i >= t.len() {
        seq![t]
    } else {
        seq![t.take(i)] + split_on(t.skip(i + 1), d)
    }
}

/// Splitting distributes over concatenation at a delimiter: the segments of
/// `x + [d] + y` are the segments of `x` followed by the segments of `y`.
pub proof fn lemma_split_append(x: Seq<char>, y: Seq<char>, d: char)
    ensures
        split_on(x + seq![d] + y, d) == split_on(x, d) + split_on(y, d),
    decreases x.len(),
{
    let t = x + seq![d] + y;
    let i = find_char(x, d) as int;
    lemma_find_char_props(x, d);
    if i < x.len() {
        assert forall|k: int| 0 <= k < i implies t[k] != d by {
            assert(t[k] == x[k]);
        }
        assert(t[i] == x[i]);
        lemma_find_char_is(t, d, i as nat);
        assert(t.take(i) =~= x.take(i));
        assert(t.skip(i + 1) =~= x.skip(i + 1) + seq![d] + y);
        lemma_split_append(x.skip(i + 1), y, d);
        assert(split_on(t, d) =~= split_on(x, d) + split_on(y, d));
    } else {
        assert forall|k: int| 0 <= k < x.len() implies t[k] != d by {
            assert(t[k] == x[k]);
        }
        assert(t[x.len() as int] == d);
        lemma_find_char_is(t, d, x.len());
        assert(t.take(x.len() as int) =~= x);
        assert(t.skip(x.len() as int + 1) =~= y);
        assert(split_on(x, d) =~= seq![x]);
        assert(split_on(t, d) =~= split_on(x, d) + split_on(y, d));
    }
}

/// Character-by-character string equality, proved against the string views.
pub fn str_eq(a: &str, b: &str) -> (r: bool)
    ensures
        r == (a@ == b@),
{
    let la = a.unicode_len();
    let lb = b.unicode_len();
    if la != lb {
        return false;
    }
    let mut i: usize = 0;
    while i < la
        invariant
            la == a@.len(),
            la == b@.len(),
            i <= la,
            forall|k: int| 0 <= k < i ==> a@[k] == b@[k],
        decreases la - i,
    {
        if a.get_char(i) != b.get_char(i) {
            return false;
        }
        i = i + 1;
    }
    proof {
        assert(a@ =~= b@);
    }
    true
}

/// Scans `t` from `start` for the first occurrence of `d`.
fn scan_for(t: &str, d: char, start: usize) -> (j: usize)
    requires
        start <= t@.len(),
    ensures
        start <= j <= t@.len(),
        forall|k: int| start <= k < j ==> t@[k] != d,
        j < t@.len() ==> t@[j as int] == d,
{
    let n = t.unicode_len();
    let mut j: usize = start;
    while j < n
        invariant
            n == t@.len(),
            start <= j <= n,
            forall|k: int| start <= k < j ==> t@[k] != d,
        decreases n - j,
    {
        if t.get_char(j) == d {
            return j;
        }
        j = j + 1;
    }
    j
}

/// Splits a token on the delimiter `d`, mirroring `split_on`.
pub fn split_delim(t: &str, d: char) -> (r: Vec<String>)
    ensures
        r.deep_view() == split_on(t@, d),
{
    let n = t.unicode_len();
    let mut parts: Vec<String> = Vec::new();
    let mut start: usize = 0;
    proof {
        assert(t@.skip(0) =~= t@);
        assert(parts.deep_view() =~~= Seq::<Seq<char>>::empty());
        assert(split_on(t@, d) =~~= parts.deep_view() + split_on(t@.skip(0), d));
    }
    loop
        invariant
            n == t@.len(),
            start <= n,
            split_on(t@, d) == parts.deep_view() + split_on(t@.skip(start as int), d),
        decreases n - start,
    {
        let j = scan_for(t, d, start);
        let rest = Ghost(t@.skip(start as int));
        proof {
            assert forall|k: int| 0 <= k < j - start implies rest@[k] != d by {
                assert(rest@[k] == t@[start + k]);
            }
            if j < n {
                assert(rest@[j - start] == t@[j as int]);
            }
            lemma_find_char_is(rest@, d, (j - start) as nat);
        }
        if j < n {
            let seg = t.substring_char(start, j);
            parts.push(String::from_str(seg));
            proof {
                assert(rest@.take(j - start) =~= t@.subrange(start as int, j as int));
                assert(rest@.skip(j - start + 1) =~= t@.skip(j + 1));
                assert(parts.deep_view() + split_on(t@.skip(j + 1), d) =~~= split_on(t@, d));
            }
            start = j + 1;
        } else {
            let seg = t.substring_char(start, n);
            parts.push(String::from_str(seg));
            proof {
                assert(rest@.take(n - start) =~= t@.subrange(start as int, n as int));
                assert(split_on(rest@, d) =~= seq![rest@]);
                assert(rest@ =~= t@.subrange(start as int, n as int));
                assert(parts.deep_view() =~~= split_on(t@, d));
            }
            return parts;
        }
    }
}

} // verus!
