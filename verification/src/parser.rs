//! Built-in placeholder substitution for the template descriptor.
//!
//! Before the descriptor file is parsed, three built-in placeholders are
//! substituted in its text: `{{project-name}}`, `{{author-name}}` and
//! `{{author-email}}`. A placeholder is the key wrapped in double braces,
//! tolerating at most one whitespace character on each side of the key,
//! case-sensitively; all occurrences are replaced, scanning left to
//! right.

use vstd::prelude::*;

use crate::error::Error;
use crate::text::str_chars;
use crate::text::chars_string;
use crate::text::push_all;

verus! {

/// A whitespace character as the placeholder pattern tolerates it:
/// the Unicode whitespace set.
pub open spec fn is_space(c: char) -> bool {
    (9 <= c as u32 && c as u32 <= 13) || c as u32 == 32 || c as u32 == 0x85 || c as u32 == 0xA0
        || c as u32 == 0x1680 || (0x2000 <= c as u32 && c as u32 <= 0x200A) || c as u32 == 0x2028
        || c as u32 == 0x2029 || c as u32 == 0x202F || c as u32 == 0x205F || c as u32 == 0x3000
}

fn space_char(c: char) -> (r: bool)
    ensures
        r == is_space(c),
{
    let u = c as u32;
    (9 <= u && u <= 13) || u == 32 || u == 0x85 || u == 0xA0 || u == 0x1680 || (0x2000 <= u && u
        <= 0x200A) || u == 0x2028 || u == 0x2029 || u == 0x202F || u == 0x205F || u == 0x3000
}

/// The length of the placeholder for `key` that starts at position `i`
/// of `h`, if one starts there: `{{`, at most one whitespace character,
/// the key, at most one whitespace character, `}}`.
pub open spec fn ph_len_at(h: Seq<char>, key: Seq<char>, i: int) -> Option<int> {
    if !(0 <= i && i + 2 <= h.len() && h[i] == '{' && h[i + 1] == '{') {
        None
    } else {
        let j = if i + 2 < h.len() && is_space(h[i + 2]) {
            i + 3
        } else {
            i + 2
        };
        if !(j + key.len() <= h.len() && h.subrange(j, j + key.len()) =~= key) {
            None
        } else {
            let k = j + key.len();
            let m = if k < h.len() && is_space(h[k]) {
                k + 1
            } else {
                k
            };
            if m + 2 <= h.len() && h[m] == '}' && h[m + 1] == '}' {
                Some(m + 2 - i)
            } else {
                None
            }
        }
    }
}

proof fn lemma_ph_len_bounds(h: Seq<char>, key: Seq<char>, i: int)
    ensures
        match ph_len_at(h, key, i) {
            Some(l) => 4 <= l && i + l <= h.len(),
            None => true,
        },
{
}

/// `h` with every placeholder for `key` replaced by `val`, scanning left
/// to right over non-overlapping occurrences.
pub open spec fn spec_subst(h: Seq<char>, key: Seq<char>, val: Seq<char>) -> Seq<char>
    decreases h.len(),
{
    match ph_len_at(h, key, 0) {
        Some(l) => if 4 <= l <= h.len() {
            val + spec_subst(h.skip(l), key, val)
        } else {
            h
        },
        None => if h.len() == 0 {
            h
        } else {
            seq![h[0]] + spec_subst(h.skip(1), key, val)
        },
    }
}

/// `h` holds a placeholder for `key` somewhere.
pub open spec fn has_placeholder(h: Seq<char>, key: Seq<char>) -> bool {
    exists|i: int| ph_len_at(h, key, i) is Some
}

proof fn lemma_ph_skip(h: Seq<char>, key: Seq<char>, base: int, i: int)
    requires
        0 <= base <= h.len(),
        0 <= i,
    ensures
        ph_len_at(h, key, base + i) == ph_len_at(h.skip(base), key, i),
{
    let r = h.skip(base);
    assert(r.len() == h.len() - base);
    if i + 2 <= r.len() {
        assert(r[i] == h[base + i]);
        assert(r[i + 1] == h[base + i + 1]);
        if r[i] == '{' && r[i + 1] == '{' {
            if i + 2 < r.len() {
                assert(r[i + 2] == h[base + i + 2]);
            }
            let j = if i + 2 < r.len() && is_space(r[i + 2]) {
                i + 3
            } else {
                i + 2
            };
            if j + key.len() <= r.len() {
                assert(r.subrange(j, j + key.len()) =~= h.subrange(
                    base + j,
                    base + j + key.len(),
                ));
                if r.subrange(j, j + key.len()) =~= key {
                    let k = j + key.len();
                    if k < r.len() {
                        assert(r[k] == h[base + k]);
                    }
                    let m = if k < r.len() && is_space(r[k]) {
                        k + 1
                    } else {
                        k
                    };
                    if m + 2 <= r.len() {
                        assert(r[m] == h[base + m]);
                        assert(r[m + 1] == h[base + m + 1]);
                    }
                }
            }
        }
    }
}

/// Matches the placeholder for `key` at position `i` of `h`, returning
/// its length.
fn ph_match(h: &Vec<char>, key: &Vec<char>, i: usize) -> (r: Option<usize>)
    ensures
        match r {
            Some(l) => ph_len_at(h@, key@, i as int) == Some(l as int),
            None => ph_len_at(h@, key@, i as int) is None,
        },
{
    if i >= h.len() || h.len() - i < 2 {
        return None;
    }
    if !(h[i] == '{' && h[i + 1] == '{') {
        return None;
    }
    let j: usize = if i + 2 < h.len() && space_char(h[i + 2]) {
        i + 3
    } else {
        i + 2
    };
    if key.len() > h.len() - j {
        return None;
    }
    if !crate::text::match_at(h, key, j) {
        proof {
            assert(!(h@.subrange(j as int, j + key@.len()) =~= key@));
        }
        return None;
    }
    let k: usize = j + key.len();
    let m: usize = if k < h.len() && space_char(h[k]) {
        k + 1
    } else {
        k
    };
    if h.len() - m < 2 {
        return None;
    }
    if h[m] == '}' && h[m + 1] == '}' {
        Some(m + 2 - i)
    } else {
        None
    }
}

/// Replaces every placeholder for `key` in `h` by `val`.
fn subst_chars(h: &Vec<char>, key: &Vec<char>, val: &Vec<char>) -> (r: Vec<char>)
    ensures
        r@ == spec_subst(h@, key@, val@),
{
    let mut out: Vec<char> = Vec::new();
    let mut i: usize = 0;
    let hl = h.len();
    proof {
        assert(h@.len() == hl as int);
        assert(h@.skip(0) =~= h@);
        assert(Seq::<char>::empty() + spec_subst(h@, key@, val@) =~= spec_subst(h@, key@, val@));
    }
    while i < h.len()
        invariant
            0 <= i <= h@.len(),
            h@.len() <= usize::MAX,
            spec_subst(h@, key@, val@) == out@ + spec_subst(h@.skip(i as int), key@, val@),
        decreases h@.len() - i,
    {
        proof {
            lemma_ph_skip(h@, key@, i as int, 0);
        }
        match ph_match(h, key, i) {
            Some(l) => {
                let ghost prev = out@;
                push_all(&mut out, val);
                proof {
                    lemma_ph_len_bounds(h@, key@, i as int);
                    let rest = h@.skip(i as int);
                    lemma_ph_len_bounds(rest, key@, 0);
                    assert(rest.skip(l as int) =~= h@.skip(i + l));
                    assert(prev + (val@ + spec_subst(rest.skip(l as int), key@, val@)) =~= out@
                        + spec_subst(rest.skip(l as int), key@, val@));
                }
                i = i + l;
            },
            None => {
                let ghost prev = out@;
                out.push(h[i]);
                proof {
                    let rest = h@.skip(i as int);
                    assert(rest.skip(1) =~= h@.skip(i + 1));
                    assert(rest[0] == h@[i as int]);
                    assert(prev + (seq![rest[0]] + spec_subst(rest.skip(1), key@, val@)) =~= out@
                        + spec_subst(rest.skip(1), key@, val@));
                }
                i = i + 1;
            },
        }
    }
    proof {
        lemma_ph_skip(h@, key@, h@.len() as int, 0);
        assert(h@.skip(h@.len() as int) =~= Seq::<char>::empty());
        assert(out@ + Seq::<char>::empty() =~= out@);
    }
    out
}

/// Replacing a key whose placeholder occurs nowhere in `h` is the
/// identity.
proof fn lemma_subst_absent_id(h: Seq<char>, key: Seq<char>, val: Seq<char>)
    requires
        !has_placeholder(h, key),
    ensures
        spec_subst(h, key, val) == h,
    decreases h.len(),
{
    assert(ph_len_at(h, key, 0) is None);
    if h.len() == 0 {
    } else {
        assert forall|i: int| ph_len_at(h.skip(1), key, i) is None by {
            if 0 <= i {
                lemma_ph_skip(h, key, 1, i);
                assert(ph_len_at(h, key, 1 + i) is None);
            }
        }
        lemma_subst_absent_id(h.skip(1), key, val);
        assert(seq![h[0]] + h.skip(1) =~= h);
    }
}

/// What substituting the three built-in placeholders produces: first the
/// project name, then the author name, then the author email, each pass
/// replacing all occurrences of its own placeholder in the text the
/// previous pass produced.
pub open spec fn spec_default_variables(
    h: Seq<char>,
    project_name: Seq<char>,
    author_name: Seq<char>,
    author_email: Seq<char>,
) -> Seq<char> {
    spec_subst(
        spec_subst(spec_subst(h, "project-name"@, project_name), "author-name"@, author_name),
        "author-email"@,
        author_email,
    )
}

/// Substitutes the built-in placeholders `{{project-name}}`,
/// `{{author-name}}` and `{{author-email}}` in `haystack`.
pub fn default_variables(
    haystack: &str,
    project_name: &str,
    author_name: &str,
    author_email: &str,
) -> (r: Result<String, Error>)
    ensures
        r is Ok,
        r matches Ok(s) ==> s@ == spec_default_variables(
            haystack@,
            project_name@,
            author_name@,
            author_email@,
        ),
{
    let h = str_chars(haystack);
    let key1 = str_chars("project-name");
    let key2 = str_chars("author-name");
    let key3 = str_chars("author-email");
    let pn = str_chars(project_name);
    let an = str_chars(author_name);
    let ae = str_chars(author_email);
    let step1 = subst_chars(&h, &key1, &pn);
    let step2 = subst_chars(&step1, &key2, &an);
    let step3 = subst_chars(&step2, &key3, &ae);
    Ok(chars_string(&step3))
}

/// Substitution is a no-op on content free of the three built-in
/// placeholders: text that holds no `{{project-name}}`,
/// `{{author-name}}` or `{{author-email}}` placeholder comes back
/// unchanged, so re-running substitution on such output changes nothing.
pub proof fn lemma_placeholder_free_noop(
    h: Seq<char>,
    project_name: Seq<char>,
    author_name: Seq<char>,
    author_email: Seq<char>,
)
    requires
        !has_placeholder(h, "project-name"@),
        !has_placeholder(h, "author-name"@),
        !has_placeholder(h, "author-email"@),
    ensures
        spec_default_variables(h, project_name, author_name, author_email) == h,
{
    lemma_subst_absent_id(h, "project-name"@, project_name);
    lemma_subst_absent_id(h, "author-name"@, author_name);
    lemma_subst_absent_id(h, "author-email"@, author_email);
}

} // verus!
