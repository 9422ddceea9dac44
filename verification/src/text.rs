//! Character-level string operations with exact specifications.
//!
//! The specification functions here describe `str::split`, `str::split_terminator`,
//! `str::contains`, `str::starts_with` and `[&str]::join` as operations on
//! sequences of characters; the executable functions compute them.

use vstd::prelude::*;
use vstd::string::*;

verus! {

/// `sep` occurs in `s` at index `i`.
pub open spec fn match_at(s: Seq<char>, sep: Seq<char>, i: int) -> bool {
    0 <= i && i + sep.len() <= s.len() && s.subrange(i, i + sep.len()) == sep
}

/// The first index at or after `i` where `sep` occurs in `s`, or -1.
pub open spec fn first_match_from(s: Seq<char>, sep: Seq<char>, i: int) -> int
    decreases s.len() - i,
{
    if i < 0 || i + sep.len() > s.len() {
        -1
    } else if match_at(s, sep, i) {
        i
    } else if i >= s.len() {
        -1
    } else {
        first_match_from(s, sep, i + 1)
    }
}

/// The first index where `sep` occurs in `s`, or -1.
pub open spec fn first_match(s: Seq<char>, sep: Seq<char>) -> int {
    first_match_from(s, sep, 0)
}

/// `s` contains `sep`.
pub open spec fn contains_seq(s: Seq<char>, sep: Seq<char>) -> bool {
    exists|i: int| match_at(s, sep, i)
}

/// `s` begins with `p`.
pub open spec fn starts_with_seq(s: Seq<char>, p: Seq<char>) -> bool {
    p.len() <= s.len() && s.subrange(0, p.len() as int) == p
}

/// `s` ends with `p`.
pub open spec fn ends_with_seq(s: Seq<char>, p: Seq<char>) -> bool {
    p.len() <= s.len() && s.subrange(s.len() - p.len(), s.len() as int) == p
}

pub proof fn lemma_first_match_from(s: Seq<char>, sep: Seq<char>, i: int)
    requires
        0 <= i,
    ensures
        ({
            let r = first_match_from(s, sep, i);
            &&& r < 0 ==> r == -1 && forall|j: int| i <= j ==> !match_at(s, sep, j)
            &&& r >= 0 ==> i <= r && match_at(s, sep, r) && forall|j: int|
                i <= j < r ==> !match_at(s, sep, j)
        }),
    decreases s.len() - i,
{
    if i + sep.len() > s.len() {
    } else if match_at(s, sep, i) {
    } else if i >= s.len() {
        assert forall|j: int| i <= j implies !match_at(s, sep, j) by {
            if j > i && match_at(s, sep, j) {
                assert(j + sep.len() <= s.len());
            }
        }
    } else {
        lemma_first_match_from(s, sep, i + 1);
    }
}

/// The first match is characterised by occurring and having no match before it.
pub proof fn lemma_first_match_is(s: Seq<char>, sep: Seq<char>, k: int)
    requires
        match_at(s, sep, k),
        forall|j: int| 0 <= j < k ==> !match_at(s, sep, j),
    ensures
        first_match(s, sep) == k,
{
    lemma_first_match_from(s, sep, 0);
}

pub proof fn lemma_first_match_none(s: Seq<char>, sep: Seq<char>)
    requires
        forall|j: int| 0 <= j ==> !match_at(s, sep, j),
    ensures
        first_match(s, sep) == -1,
{
    lemma_first_match_from(s, sep, 0);
}

pub proof fn lemma_contains_first_match(s: Seq<char>, sep: Seq<char>)
    ensures
        contains_seq(s, sep) <==> first_match(s, sep) >= 0,
{
    lemma_first_match_from(s, sep, 0);
    if first_match(s, sep) >= 0 {
        assert(match_at(s, sep, first_match(s, sep)));
    }
}

/// The pieces of `s` between the occurrences of `sep`, as `str::split` gives them.
pub open spec fn split_seq(s: Seq<char>, sep: Seq<char>) -> Seq<Seq<char>>
    decreases s.len(),
{
    if sep.len() == 0 {
        seq![s]
    } else {
        let m = first_match(s, sep);
        if m < 0 {
            seq![s]
        } else {
            proof {
                lemma_first_match_from(s, sep, 0);
            }
            seq![s.subrange(0, m)] + split_seq(s.subrange(m + sep.len(), s.len() as int), sep)
        }
    }
}

/// `str::split_terminator`: `split`, without a last piece that is empty.
pub open spec fn split_terminator_seq(s: Seq<char>, sep: Seq<char>) -> Seq<Seq<char>> {
    let p = split_seq(s, sep);
    if p.len() > 0 && p.last().len() == 0 {
        p.drop_last()
    } else {
        p
    }
}

/// The pieces joined with `sep` between them, as `[&str]::join` gives them.
pub open spec fn join_seq(pieces: Seq<Seq<char>>, sep: Seq<char>) -> Seq<char>
    decreases pieces.len(),
{
    if pieces.len() == 0 {
        Seq::empty()
    } else if pieces.len() == 1 {
        pieces[0]
    } else {
        join_seq(pieces.drop_last(), sep) + sep + pieces.last()
    }
}

/// The views of a sequence of strings.
pub open spec fn views(v: Seq<String>) -> Seq<Seq<char>> {
    v.map_values(|x: String| x@)
}

pub proof fn lemma_split_nonempty(s: Seq<char>, sep: Seq<char>)
    ensures
        split_seq(s, sep).len() >= 1,
        split_seq(s, sep)[0] == (if sep.len() == 0 || first_match(s, sep) < 0 {
            s
        } else {
            s.subrange(0, first_match(s, sep))
        }),
    decreases s.len(),
{
    if sep.len() > 0 && first_match(s, sep) >= 0 {
        lemma_first_match_from(s, sep, 0);
        let m = first_match(s, sep);
        lemma_split_nonempty(s.subrange(m + sep.len(), s.len() as int), sep);
    }
}

/// Joining a piece onto the front of a nonempty list.
pub proof fn lemma_join_prepend(a: Seq<char>, rest: Seq<Seq<char>>, sep: Seq<char>)
    requires
        rest.len() >= 1,
    ensures
        join_seq(seq![a] + rest, sep) == a + sep + join_seq(rest, sep),
    decreases rest.len(),
{
    let all = seq![a] + rest;
    if rest.len() == 1 {
        assert(all.drop_last() =~= seq![a]);
        assert(all.last() == rest[0]);
    } else {
        assert(all.drop_last() =~= seq![a] + rest.drop_last());
        lemma_join_prepend(a, rest.drop_last(), sep);
        assert(all.last() == rest.last());
        assert(join_seq(all, sep) == join_seq(all.drop_last(), sep) + sep + all.last());
        assert(a + sep + join_seq(rest.drop_last(), sep) + sep + rest.last() =~= a + sep + (
        join_seq(rest.drop_last(), sep) + sep + rest.last()));
    }
}

/// Joining the pieces of a split gives back the string.
pub proof fn lemma_join_split(s: Seq<char>, sep: Seq<char>)
    ensures
        join_seq(split_seq(s, sep), sep) == s,
    decreases s.len(),
{
    if sep.len() == 0 || first_match(s, sep) < 0 {
    } else {
        lemma_first_match_from(s, sep, 0);
        let m = first_match(s, sep);
        let rest = s.subrange(m + sep.len(), s.len() as int);
        lemma_split_nonempty(rest, sep);
        lemma_join_split(rest, sep);
        lemma_join_prepend(s.subrange(0, m), split_seq(rest, sep), sep);
        assert(s.subrange(m, m + sep.len()) == sep);
        assert(s =~= s.subrange(0, m) + sep + rest);
    }
}

/// A match inside a subrange is a match in the whole sequence.
pub proof fn lemma_sub_match(s: Seq<char>, sep: Seq<char>, a: int, b: int, j: int)
    requires
        0 <= a <= b <= s.len(),
        match_at(s.subrange(a, b), sep, j),
    ensures
        match_at(s, sep, a + j),
{
    assert(s.subrange(a, b).subrange(j, j + sep.len()) =~= s.subrange(a + j, a + j + sep.len()));
}

/// A subrange of a sequence without `sep` has no `sep`.
pub proof fn lemma_sub_no_contains(s: Seq<char>, sep: Seq<char>, a: int, b: int)
    requires
        0 <= a <= b <= s.len(),
        !contains_seq(s, sep),
    ensures
        !contains_seq(s.subrange(a, b), sep),
{
    if contains_seq(s.subrange(a, b), sep) {
        let j = choose|j: int| match_at(s.subrange(a, b), sep, j);
        lemma_sub_match(s, sep, a, b, j);
    }
}

/// Without `sep`, the split is the whole sequence.
pub proof fn lemma_split_no_contains(s: Seq<char>, sep: Seq<char>)
    requires
        !contains_seq(s, sep),
    ensures
        split_seq(s, sep) == seq![s],
{
    lemma_contains_first_match(s, sep);
}

/// A single character matches where it stands.
pub proof fn lemma_match_char(s: Seq<char>, c: char, j: int)
    ensures
        match_at(s, seq![c], j) <==> (0 <= j < s.len() && s[j] == c),
{
    if 0 <= j < s.len() {
        if s[j] == c {
            assert(s.subrange(j, j + 1) =~= seq![c]);
        } else {
            assert(s.subrange(j, j + 1)[0] != seq![c][0]);
        }
    }
}

/// Splitting at a single character distributes over an occurrence of it.
pub proof fn lemma_split_char_concat(a: Seq<char>, b: Seq<char>, c: char)
    ensures
        split_seq(a + seq![c] + b, seq![c]) == split_seq(a, seq![c]) + split_seq(b, seq![c]),
    decreases a.len(),
{
    let sep = seq![c];
    let s = a + sep + b;
    lemma_first_match_from(a, sep, 0);
    let m = first_match(a, sep);
    if m < 0 {
        assert forall|j: int| 0 <= j < a.len() implies !match_at(s, sep, j) by {
            lemma_match_char(s, c, j);
            lemma_match_char(a, c, j);
        }
        lemma_match_char(s, c, a.len() as int);
        lemma_first_match_is(s, sep, a.len() as int);
        assert(s.subrange(0, a.len() as int) =~= a);
        assert(s.subrange(a.len() + 1 as int, s.len() as int) =~= b);
        lemma_split_no_contains(a, sep);
    } else {
        lemma_match_char(a, c, m);
        lemma_match_char(s, c, m);
        assert forall|j: int| 0 <= j < m implies !match_at(s, sep, j) by {
            lemma_match_char(s, c, j);
            lemma_match_char(a, c, j);
        }
        lemma_first_match_is(s, sep, m);
        let a2 = a.subrange(m + 1, a.len() as int);
        assert(s.subrange(0, m) =~= a.subrange(0, m));
        assert(s.subrange(m + 1, s.len() as int) =~= a2 + sep + b);
        lemma_split_char_concat(a2, b, c);
        assert(split_seq(s, sep) =~= seq![a.subrange(0, m)] + (split_seq(a2, sep) + split_seq(
            b,
            sep,
        )));
    }
}

/// The characters of `s`, in order.
pub fn chars_of(s: &str) -> (v: Vec<char>)
    ensures
        v@ == s@,
{
    let n = s.unicode_len();
    let mut v: Vec<char> = Vec::new();
    let mut i: usize = 0;
    while i < n
        invariant
            n == s@.len(),
            i <= n,
            v@ == s@.subrange(0, i as int),
        decreases n - i,
    {
        v.push(s.get_char(i));
        i = i + 1;
    }
    assert(v@ =~= s@);
    v
}

/// Whether `sep` occurs in `s` at index `i`.
pub fn match_at_exec(s: &Vec<char>, sep: &Vec<char>, i: usize) -> (r: bool)
    ensures
        r == match_at(s@, sep@, i as int),
{
    if i > s.len() || sep.len() > s.len() - i {
        return false;
    }
    let k = sep.len();
    let n = s.len();
    let mut j: usize = 0;
    while j < k
        invariant
            k == sep@.len(),
            n == s@.len(),
            i + k <= s@.len(),
            j <= k,
            s@.subrange(i as int, i + j) =~= sep@.subrange(0, j as int),
        decreases k - j,
    {
        assert(i + j < s@.len());
        if s[i + j] != sep[j] {
            assert(s@.subrange(i as int, i + k)[j as int] != sep@[j as int]);
            return false;
        }
        j = j + 1;
    }
    assert(sep@.subrange(0, k as int) =~= sep@);
    true
}

/// The first index at or after `start` where `sep` occurs in `s`.
pub fn find_from(s: &Vec<char>, sep: &Vec<char>, start: usize) -> (r: Option<usize>)
    requires
        start <= s@.len(),
    ensures
        match r {
            None => first_match(s@.subrange(start as int, s@.len() as int), sep@) == -1,
            Some(m) => start <= m && m - start == first_match(
                s@.subrange(start as int, s@.len() as int),
                sep@,
            ),
        },
{
    let ghost t = s@.subrange(start as int, s@.len() as int);
    let n = s.len();
    let mut i = start;
    loop
        invariant
            n == s@.len(),
            i <= n,
            start <= i,
            t == s@.subrange(start as int, s@.len() as int),
            forall|j: int| 0 <= j < i - start ==> !match_at(t, sep@, j),
        decreases n + 1 - i,
    {
        let found = match_at_exec(s, sep, i);
        assert(match_at(t, sep@, i - start) == match_at(s@, sep@, i as int)) by {
            if i + sep@.len() <= n {
                assert(t.subrange(i - start, i - start + sep@.len()) =~= s@.subrange(
                    i as int,
                    i + sep@.len(),
                ));
            }
        }
        if found {
            proof {
                lemma_first_match_is(t, sep@, i - start);
            }
            return Some(i);
        }
        if i == n {
            proof {
                assert forall|j: int| 0 <= j implies !match_at(t, sep@, j) by {
                    if j >= i - start && match_at(t, sep@, j) {
                        assert(j + sep@.len() <= t.len());
                    }
                }
                lemma_first_match_none(t, sep@);
            }
            return None;
        }
        i = i + 1;
    }
}

/// `a` and `b` hold the same characters (`str::eq`).
pub fn str_eq(a: &str, b: &str) -> (r: bool)
    ensures
        r == (a@ == b@),
{
    let av = chars_of(a);
    let bv = chars_of(b);
    if av.len() != bv.len() {
        return false;
    }
    let r = match_at_exec(&av, &bv, 0);
    assert(r ==> av@.subrange(0, bv@.len() as int) == bv@);
    assert(av@.subrange(0, av@.len() as int) =~= av@);
    r
}

/// `s` begins with `p` (`str::starts_with`).
pub fn starts_with(s: &str, p: &str) -> (r: bool)
    ensures
        r == starts_with_seq(s@, p@),
{
    let sv = chars_of(s);
    let pv = chars_of(p);
    let r = match_at_exec(&sv, &pv, 0);
    assert(r == starts_with_seq(s@, p@));
    r
}

/// `s` ends with `p` (`str::ends_with`).
pub fn ends_with(s: &str, p: &str) -> (r: bool)
    ensures
        r == ends_with_seq(s@, p@),
{
    let sv = chars_of(s);
    let pv = chars_of(p);
    if pv.len() > sv.len() {
        return false;
    }
    match_at_exec(&sv, &pv, sv.len() - pv.len())
}

/// `s` contains `p` (`str::contains`).
pub fn contains(s: &str, p: &str) -> (r: bool)
    ensures
        r == contains_seq(s@, p@),
{
    let sv = chars_of(s);
    let pv = chars_of(p);
    assert(sv@.subrange(0, sv@.len() as int) =~= sv@);
    let f = find_from(&sv, &pv, 0);
    proof {
        lemma_contains_first_match(s@, p@);
    }
    f.is_some()
}

/// The characters of `s` from `from` to `to`, as a new `String`.
pub fn substring(s: &str, from: usize, to: usize) -> (r: String)
    requires
        from <= to <= s@.len(),
    ensures
        r@ == s@.subrange(from as int, to as int),
{
    s.substring_char(from, to).to_owned()
}

/// `str::split`: the pieces of `s` between the occurrences of `sep`.
pub fn split_str(s: &str, sep: &str) -> (v: Vec<String>)
    requires
        sep@.len() > 0,
    ensures
        views(v@) == split_seq(s@, sep@),
{
    let sv = chars_of(s);
    let pv = chars_of(sep);
    let n = sv.len();
    let k = pv.len();
    let mut v: Vec<String> = Vec::new();
    let mut start: usize = 0;
    assert(s@.subrange(0, n as int) =~= s@);
    loop
        invariant
            n == s@.len(),
            sv@ == s@,
            pv@ == sep@,
            k == sep@.len(),
            k > 0,
            start <= n,
            views(v@) + split_seq(s@.subrange(start as int, n as int), sep@) == split_seq(
                s@,
                sep@,
            ),
        decreases n - start,
    {
        let ghost t = s@.subrange(start as int, n as int);
        match find_from(&sv, &pv, start) {
            None => {
                let piece = substring(s, start, n);
                proof {
                    assert(split_seq(t, sep@) == seq![t]);
                }
                let ghost before = views(v@);
                v.push(piece);
                assert(views(v@) =~= before.push(t));
                return v;
            },
            Some(m) => {
                proof {
                    lemma_first_match_from(t, sep@, 0);
                }
                let piece = substring(s, start, m);
                let ghost before = views(v@);
                v.push(piece);
                assert(t.subrange(0, m - start) =~= s@.subrange(start as int, m as int));
                assert(t.subrange(m - start + k, t.len() as int) =~= s@.subrange(
                    m + k,
                    n as int,
                ));
                assert(views(v@) =~= before.push(piece@));
                assert(split_seq(t, sep@) == seq![t.subrange(0, m - start)] + split_seq(
                    t.subrange(m - start + k, t.len() as int),
                    sep@,
                ));
                assert(views(v@) + split_seq(s@.subrange(m + k, n as int), sep@) =~= before
                    + split_seq(t, sep@));
                start = m + k;
            },
        }
    }
}

/// `str::split_terminator`: `split` without a last piece that is empty.
pub fn split_terminator_str(s: &str, sep: &str) -> (v: Vec<String>)
    requires
        sep@.len() > 0,
    ensures
        views(v@) == split_terminator_seq(s@, sep@),
{
    let mut v = split_str(s, sep);
    let ghost full = views(v@);
    let n = v.len();
    if n > 0 && v[n - 1].as_str().unicode_len() == 0 {
        v.pop();
        assert(views(v@) =~= full.drop_last());
    }
    v
}

/// `[&str]::join`: the strings of `v` with `sep` between them.
pub fn join_strs(v: &Vec<String>, sep: &str) -> (r: String)
    ensures
        r@ == join_seq(views(v@), sep@),
{
    let n = v.len();
    let mut r = String::new();
    if n == 0 {
        return r;
    }
    r.append(v[0].as_str());
    let mut i: usize = 1;
    assert(views(v@).subrange(0, 1) =~= seq![v@[0]@]);
    while i < n
        invariant
            n == v@.len(),
            1 <= i <= n,
            r@ == join_seq(views(v@).subrange(0, i as int), sep@),
        decreases n - i,
    {
        r.append(sep);
        r.append(v[i].as_str());
        assert(views(v@).subrange(0, i + 1).drop_last() =~= views(v@).subrange(0, i as int));
        i = i + 1;
    }
    assert(views(v@).subrange(0, n as int) =~= views(v@));
    r
}

} // verus!
