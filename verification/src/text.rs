//! Character-level text operations.
//!
//! All string logic in this crate is specified over `Seq<char>` views.
//! Executable code works on `Vec<char>` buffers; the two conversions at
//! the boundary of `String` are the only trusted steps.

use vstd::prelude::*;

verus! {

/// Relies on `str::chars` and `Iterator::collect`: the characters of the
/// string, in order.
#[verifier::external_body]
pub fn str_chars(s: &str) -> (r: Vec<char>)
    ensures
        r@ == s@,
{
    s.chars().collect()
}

/// Relies on `Iterator::collect` for `String`: the string made of exactly
/// these characters, in order.
#[verifier::external_body]
pub fn chars_string(v: &Vec<char>) -> (r: String)
    ensures
        r@ == v@,
{
    v.iter().collect()
}

/// Whether two character buffers hold the same characters.
pub fn chars_eq(a: &Vec<char>, b: &Vec<char>) -> (r: bool)
    ensures
        r == (a@ == b@),
{
    if a.len() != b.len() {
        return false;
    }
    let mut i: usize = 0;
    while i < a.len()
        invariant
            0 <= i <= a@.len(),
            a@.len() == b@.len(),
            forall|j: int| 0 <= j < i ==> a@[j] == b@[j],
        decreases a@.len() - i,
    {
        if a[i] != b[i] {
            return false;
        }
        i = i + 1;
    }
    proof {
        assert(a@ =~= b@);
    }
    true
}

/// Appends all characters of `src` to `out`.
pub fn push_all(out: &mut Vec<char>, src: &Vec<char>)
    ensures
        final(out)@ == old(out)@ + src@,
{
    let mut i: usize = 0;
    while i < src.len()
        invariant
            0 <= i <= src@.len(),
            out@ == old(out)@ + src@.take(i as int),
        decreases src@.len() - i,
    {
        out.push(src[i]);
        proof {
            assert(old(out)@ + src@.take(i + 1 as int) =~= (old(out)@ + src@.take(i as int)).push(
                src@[i as int],
            ));
        }
        i = i + 1;
    }
    proof {
        assert(src@.take(src@.len() as int) =~= src@);
    }
}

/// The pattern `n` occurs in `h` starting at position `i`.
pub open spec fn is_match_at(h: Seq<char>, n: Seq<char>, i: int) -> bool {
    0 <= i && i + n.len() <= h.len() && h.subrange(i, i + n.len()) =~= n
}

/// Whether `n` occurs in `h` at position `i`.
pub fn match_at(h: &Vec<char>, n: &Vec<char>, i: usize) -> (r: bool)
    ensures
        r == is_match_at(h@, n@, i as int),
{
    if i > h.len() || n.len() > h.len() - i {
        return false;
    }
    let mut k: usize = 0;
    while k < n.len()
        invariant
            0 <= k <= n@.len(),
            i + n@.len() <= h@.len(),
            h@.len() <= usize::MAX,
            forall|j: int| 0 <= j < k ==> h@[i + j] == n@[j],
        decreases n@.len() - k,
    {
        if h[i + k] != n[k] {
            proof {
                assert(h@.subrange(i as int, i + n@.len())[k as int] == h@[i + k]);
            }
            return false;
        }
        k = k + 1;
    }
    proof {
        assert(h@.subrange(i as int, i + n@.len()) =~= n@);
    }
    true
}

/// `h` with every occurrence of `f` replaced by `t`, scanning left to
/// right over non-overlapping matches; an empty pattern matches at every
/// position, including the end.
pub open spec fn spec_replace(h: Seq<char>, f: Seq<char>, t: Seq<char>) -> Seq<char>
    decreases h.len(),
{
    if f.len() == 0 {
        if h.len() == 0 {
            t
        } else {
            t + seq![h[0]] + spec_replace(h.skip(1), f, t)
        }
    } else if is_match_at(h, f, 0) {
        t + spec_replace(h.skip(f.len() as int), f, t)
    } else if h.len() == 0 {
        Seq::empty()
    } else {
        seq![h[0]] + spec_replace(h.skip(1), f, t)
    }
}

proof fn lemma_match_at_skip(h: Seq<char>, n: Seq<char>, i: int, j: int)
    requires
        0 <= i,
        i + j <= h.len(),
        0 <= j,
    ensures
        is_match_at(h, n, i + j) == is_match_at(h.skip(i), n, j),
{
    if 0 <= i + j && i + j + n.len() <= h.len() {
        assert(h.subrange(i + j, i + j + n.len()) =~= h.skip(i).subrange(j, j + n.len()));
    }
}

/// Replaces every occurrence of `f` in `h` by `t`.
pub fn replace_chars(h: &Vec<char>, f: &Vec<char>, t: &Vec<char>) -> (r: Vec<char>)
    ensures
        r@ == spec_replace(h@, f@, t@),
{
    let mut out: Vec<char> = Vec::new();
    let mut i: usize = 0;
    let hl = h.len();
    proof {
        assert(h@.len() == hl as int);
        assert(h@.skip(0) =~= h@);
        assert(Seq::<char>::empty() + spec_replace(h@, f@, t@) =~= spec_replace(h@, f@, t@));
    }
    if f.len() == 0 {
        while i < h.len()
            invariant
                0 <= i <= h@.len(),
                f@.len() == 0,
                spec_replace(h@, f@, t@) == out@ + spec_replace(h@.skip(i as int), f@, t@),
            decreases h@.len() - i,
        {
            let ghost prev = out@;
            push_all(&mut out, t);
            out.push(h[i]);
            proof {
                let rest = h@.skip(i as int);
                assert(rest.skip(1) =~= h@.skip(i + 1));
                assert(rest[0] == h@[i as int]);
                assert(out@ =~= prev + (t@ + seq![rest[0]]));
                assert(prev + (t@ + seq![rest[0]] + spec_replace(rest.skip(1), f@, t@)) =~= out@
                    + spec_replace(rest.skip(1), f@, t@));
            }
            i = i + 1;
        }
        push_all(&mut out, t);
        proof {
            assert(h@.skip(h@.len() as int) =~= Seq::<char>::empty());
        }
        return out;
    }
    while i < h.len()
        invariant
            0 <= i <= h@.len(),
            h@.len() <= usize::MAX,
            f@.len() > 0,
            spec_replace(h@, f@, t@) == out@ + spec_replace(h@.skip(i as int), f@, t@),
        decreases h@.len() - i,
    {
        if match_at(h, f, i) {
            let ghost prev = out@;
            push_all(&mut out, t);
            proof {
                lemma_match_at_skip(h@, f@, i as int, 0);
                let rest = h@.skip(i as int);
                assert(rest.skip(f@.len() as int) =~= h@.skip(i + f@.len()));
                assert(prev + (t@ + spec_replace(rest.skip(f@.len() as int), f@, t@)) =~= out@
                    + spec_replace(rest.skip(f@.len() as int), f@, t@));
            }
            i = i + f.len();
        } else {
            let ghost prev = out@;
            out.push(h[i]);
            proof {
                lemma_match_at_skip(h@, f@, i as int, 0);
                let rest = h@.skip(i as int);
                assert(rest.skip(1) =~= h@.skip(i + 1));
                assert(rest[0] == h@[i as int]);
                assert(prev + (seq![rest[0]] + spec_replace(rest.skip(1), f@, t@)) =~= out@
                    + spec_replace(rest.skip(1), f@, t@));
            }
            i = i + 1;
        }
    }
    proof {
        assert(h@.skip(h@.len() as int) =~= Seq::<char>::empty());
        lemma_match_at_skip(h@, f@, h@.len() as int, 0);
        assert(spec_replace(Seq::<char>::empty(), f@, t@) =~= Seq::<char>::empty());
        assert(out@ + Seq::<char>::empty() =~= out@);
    }
    out
}

/// First position at or after `from` where character `c` occurs in `s`.
pub open spec fn spec_find_char(s: Seq<char>, c: char, from: int) -> Option<int>
    decreases s.len() - from,
{
    if from < 0 || from >= s.len() {
        None
    } else if s[from] == c {
        Some(from)
    } else {
        spec_find_char(s, c, from + 1)
    }
}

/// Finds the first occurrence of `c` in `s` at or after `from`.
pub fn find_char(s: &Vec<char>, c: char, from: usize) -> (r: Option<usize>)
    ensures
        match r {
            Some(i) => spec_find_char(s@, c, from as int) == Some(i as int),
            None => spec_find_char(s@, c, from as int) is None,
        },
{
    let mut i: usize = from;
    while i < s.len()
        invariant
            from <= i,
            spec_find_char(s@, c, from as int) == spec_find_char(s@, c, i as int),
        decreases s@.len() - i,
    {
        if s[i] == c {
            return Some(i);
        }
        i = i + 1;
    }
    None
}

/// Last position where character `c` occurs in `s`.
pub open spec fn spec_rfind_char(s: Seq<char>, c: char) -> Option<int>
    decreases s.len(),
{
    if s.len() == 0 {
        None
    } else if s[s.len() - 1] == c {
        Some(s.len() - 1)
    } else {
        spec_rfind_char(s.drop_last(), c)
    }
}

pub proof fn lemma_rfind_char_bounds(s: Seq<char>, c: char)
    ensures
        match spec_rfind_char(s, c) {
            Some(i) => 0 <= i < s.len() && s[i] == c,
            None => true,
        },
    decreases s.len(),
{
    if s.len() > 0 && s[s.len() - 1] != c {
        lemma_rfind_char_bounds(s.drop_last(), c);
    }
}

/// Finds the last occurrence of `c` in `s`.
pub fn rfind_char(s: &Vec<char>, c: char) -> (r: Option<usize>)
    ensures
        match r {
            Some(i) => spec_rfind_char(s@, c) == Some(i as int),
            None => spec_rfind_char(s@, c) is None,
        },
{
    let mut j: usize = s.len();
    proof {
        assert(s@.take(s@.len() as int) =~= s@);
    }
    while j > 0
        invariant
            0 <= j <= s@.len(),
            spec_rfind_char(s@, c) == spec_rfind_char(s@.take(j as int), c),
        decreases j,
    {
        proof {
            assert(s@.take(j as int).drop_last() =~= s@.take(j - 1));
            assert(s@.take(j as int)[j - 1] == s@[j - 1]);
        }
        if s[j - 1] == c {
            return Some(j - 1);
        }
        j = j - 1;
    }
    None
}

/// The views of a vector of character buffers.
pub open spec fn seq_views(v: Seq<Vec<char>>) -> Seq<Seq<char>> {
    v.map_values(|x: Vec<char>| x@)
}

/// The pieces of `s` delimited by `sep`; `n + 1` pieces for `n`
/// separators, so an empty input yields one empty piece.
pub open spec fn spec_split(s: Seq<char>, sep: char) -> Seq<Seq<char>>
    decreases s.len(),
{
    match spec_find_char(s, sep, 0) {
        Some(i) => if 0 <= i < s.len() {
            seq![s.subrange(0, i)] + spec_split(s.skip(i + 1), sep)
        } else {
            seq![s]
        },
        None => seq![s],
    }
}

pub proof fn lemma_find_char_bounds(s: Seq<char>, c: char, from: int)
    requires
        0 <= from,
    ensures
        match spec_find_char(s, c, from) {
            Some(i) => from <= i < s.len() && s[i] == c,
            None => forall|j: int| from <= j < s.len() ==> s[j] != c,
        },
    decreases s.len() - from,
{
    if from < s.len() && s[from] != c {
        lemma_find_char_bounds(s, c, from + 1);
    }
}

proof fn lemma_find_shift(s: Seq<char>, c: char, base: int)
    requires
        0 <= base <= s.len(),
    ensures
        spec_find_char(s, c, base) is Some <==> spec_find_char(s.skip(base), c, 0) is Some,
        spec_find_char(s, c, base) is Some ==> spec_find_char(s, c, base)->0 == spec_find_char(
            s.skip(base),
            c,
            0,
        )->0 + base,
    decreases s.len() - base,
{
    let rest = s.skip(base);
    if base < s.len() {
        assert(rest[0] == s[base]);
        if s[base] == c {
        } else {
            lemma_find_shift(s, c, base + 1);
            assert(s.skip(base + 1) =~= rest.skip(1));
            lemma_find_shift_one(rest, c);
        }
    }
}

proof fn lemma_find_shift_one(rest: Seq<char>, c: char)
    requires
        rest.len() > 0,
        rest[0] != c,
    ensures
        spec_find_char(rest, c, 0) is Some <==> spec_find_char(rest.skip(1), c, 0) is Some,
        spec_find_char(rest, c, 0) is Some ==> spec_find_char(rest, c, 0)->0 == spec_find_char(
            rest.skip(1),
            c,
            0,
        )->0 + 1,
    decreases rest.len(),
{
    lemma_find_char_bounds(rest, c, 1);
    lemma_find_char_bounds(rest.skip(1), c, 0);
    if rest.len() > 1 {
        assert(rest.skip(1)[0] == rest[1]);
        if rest[1] != c {
            lemma_find_shift_one_rec(rest, c, 1);
        }
    }
}

proof fn lemma_find_shift_one_rec(s: Seq<char>, c: char, k: int)
    requires
        1 <= k <= s.len(),
    ensures
        spec_find_char(s, c, k) is Some <==> spec_find_char(s.skip(1), c, k - 1) is Some,
        spec_find_char(s, c, k) is Some ==> spec_find_char(s, c, k)->0 == spec_find_char(
            s.skip(1),
            c,
            k - 1,
        )->0 + 1,
    decreases s.len() - k,
{
    if k < s.len() {
        assert(s.skip(1)[k - 1] == s[k]);
        if s[k] != c {
            lemma_find_shift_one_rec(s, c, k + 1);
        }
    }
}

/// Splits `s` on the character `sep`.
pub fn split_chars(s: &Vec<char>, sep: char) -> (r: Vec<Vec<char>>)
    ensures
        seq_views(r@) == spec_split(s@, sep),
{
    let mut parts: Vec<Vec<char>> = Vec::new();
    let mut start: usize = 0;
    let slen = s.len();
    proof {
        assert(s@.skip(0) =~= s@);
        assert(seq_views(parts@) + spec_split(s@, sep) =~= spec_split(s@, sep));
    }
    loop
        invariant
            0 <= start <= s@.len(),
            s@.len() <= usize::MAX,
            spec_split(s@, sep) =~= seq_views(parts@) + spec_split(s@.skip(start as int), sep),
        decreases s@.len() - start,
    {
        proof {
            lemma_find_shift(s@, sep, start as int);
            lemma_find_char_bounds(s@, sep, start as int);
            lemma_find_char_bounds(s@.skip(start as int), sep, 0);
        }
        let found = find_char(s, sep, start);
        let upto: usize = match found {
            Some(i) => i,
            None => s.len(),
        };
        let mut piece: Vec<char> = Vec::new();
        let mut k: usize = start;
        while k < upto
            invariant
                start <= k <= upto,
                upto <= s@.len(),
                piece@ == s@.subrange(start as int, k as int),
            decreases upto - k,
        {
            piece.push(s[k]);
            proof {
                assert(s@.subrange(start as int, k + 1 as int) =~= s@.subrange(
                    start as int,
                    k as int,
                ).push(s@[k as int]));
            }
            k = k + 1;
        }
        proof {
            assert(seq_views(parts@.push(piece)) =~= seq_views(parts@).push(piece@));
        }
        match found {
            Some(i) => {
                proof {
                    let rest = s@.skip(start as int);
                    assert(rest.subrange(0, i - start) =~= s@.subrange(start as int, i as int));
                    assert(rest.skip(i - start + 1) =~= s@.skip(i + 1));
                }
                parts.push(piece);
                start = i + 1;
            },
            None => {
                proof {
                    let rest = s@.skip(start as int);
                    assert(piece@ =~= rest);
                }
                parts.push(piece);
                return parts;
            },
        }
    }
}

} // verus!
