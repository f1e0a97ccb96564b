//! The template descriptor and its loader.
//!
//! A template root may hold a descriptor file (`template.toml`) with up
//! to three sections: `[variables]` and `[rename]`, each a map of bare
//! keys to quoted strings, and `[filters]`, with an opt-in list and an
//! `exclude` list of quoted strings (the two filter lists). Lines may
//! end in comments introduced by `#`,
//! quoted strings know the escapes `\"`, `\\`, `\n`, `\t` and `\r`, and
//! unknown sections and keys are ignored. Before parsing, the built-in
//! placeholders are substituted into the text.

use vstd::prelude::*;

use crate::error::Error;
use crate::error::ErrorKind;
use crate::parser::spec_default_variables;
use crate::parser::default_variables;
use crate::text::str_chars;
use crate::text::chars_string;
use crate::text::chars_eq;
use crate::text::spec_split;
use crate::text::split_chars;
use crate::text::seq_views;

verus! {

/// A whitespace character inside a descriptor line.
pub open spec fn is_line_ws(c: char) -> bool {
    c == ' ' || c == '\t' || c == '\r'
}

fn line_ws(c: char) -> (r: bool)
    ensures
        r == is_line_ws(c),
{
    c == ' ' || c == '\t' || c == '\r'
}

/// A character a bare key may hold.
pub open spec fn is_bare_char(c: char) -> bool {
    (97 <= c as u32 && c as u32 <= 122) || (65 <= c as u32 && c as u32 <= 90) || (48 <= c as u32
        && c as u32 <= 57) || c == '-' || c == '_'
}

fn bare_char(c: char) -> (r: bool)
    ensures
        r == is_bare_char(c),
{
    let u = c as u32;
    (97 <= u && u <= 122) || (65 <= u && u <= 90) || (48 <= u && u <= 57) || c == '-' || c == '_'
}

/// The first position at or after `i` holding no line whitespace.
pub open spec fn spec_ws_from(s: Seq<char>, i: int) -> int
    decreases s.len() - i,
{
    if i < 0 {
        0
    } else if i >= s.len() {
        s.len() as int
    } else if is_line_ws(s[i]) {
        spec_ws_from(s, i + 1)
    } else {
        i
    }
}

proof fn lemma_ws_from_bounds(s: Seq<char>, i: int)
    requires
        0 <= i <= s.len(),
    ensures
        i <= spec_ws_from(s, i) <= s.len(),
    decreases s.len() - i,
{
    if i < s.len() && is_line_ws(s[i]) {
        lemma_ws_from_bounds(s, i + 1);
    }
}

/// Skips line whitespace starting at `i`.
fn skip_ws(s: &Vec<char>, i: usize) -> (r: usize)
    requires
        i <= s@.len(),
    ensures
        r as int == spec_ws_from(s@, i as int),
        i <= r <= s@.len(),
{
    let mut j: usize = i;
    while j < s.len() && line_ws(s[j])
        invariant
            i <= j <= s@.len(),
            spec_ws_from(s@, i as int) == spec_ws_from(s@, j as int),
        decreases s@.len() - j,
    {
        j = j + 1;
    }
    j
}

/// The line with leading whitespace dropped.
pub open spec fn spec_trim_start(s: Seq<char>) -> Seq<char>
    decreases s.len(),
{
    if s.len() > 0 && is_line_ws(s[0]) {
        spec_trim_start(s.skip(1))
    } else {
        s
    }
}

/// The line with trailing whitespace dropped.
pub open spec fn spec_trim_end(s: Seq<char>) -> Seq<char>
    decreases s.len(),
{
    if s.len() > 0 && is_line_ws(s[s.len() - 1]) {
        spec_trim_end(s.drop_last())
    } else {
        s
    }
}

/// The line with whitespace dropped at both ends.
pub open spec fn spec_trim(s: Seq<char>) -> Seq<char> {
    spec_trim_end(spec_trim_start(s))
}

/// Trims line whitespace from both ends.
fn trim(s: &Vec<char>) -> (r: Vec<char>)
    ensures
        r@ == spec_trim(s@),
{
    let mut a: usize = 0;
    proof {
        assert(s@.skip(0) =~= s@);
    }
    while a < s.len() && line_ws(s[a])
        invariant
            0 <= a <= s@.len(),
            spec_trim_start(s@) == spec_trim_start(s@.skip(a as int)),
        decreases s@.len() - a,
    {
        proof {
            assert(s@.skip(a as int)[0] == s@[a as int]);
            assert(s@.skip(a as int).skip(1) =~= s@.skip(a + 1));
        }
        a = a + 1;
    }
    proof {
        if a < s@.len() {
            assert(s@.skip(a as int)[0] == s@[a as int]);
        }
        assert(spec_trim_start(s@) == s@.skip(a as int));
    }
    let mut b: usize = s.len();
    proof {
        assert(s@.skip(a as int) =~= s@.subrange(a as int, s@.len() as int));
    }
    while b > a && line_ws(s[b - 1])
        invariant
            a <= b <= s@.len(),
            spec_trim_end(s@.skip(a as int)) == spec_trim_end(s@.subrange(a as int, b as int)),
        decreases b,
    {
        proof {
            let t = s@.subrange(a as int, b as int);
            assert(t[t.len() - 1] == s@[b - 1]);
            assert(t.drop_last() =~= s@.subrange(a as int, b - 1));
        }
        b = b - 1;
    }
    proof {
        let t = s@.subrange(a as int, b as int);
        if b > a {
            assert(t[t.len() - 1] == s@[b - 1]);
        }
        assert(spec_trim_end(s@.subrange(a as int, b as int)) == s@.subrange(a as int, b as int));
    }
    let mut piece: Vec<char> = Vec::new();
    let mut x: usize = a;
    while x < b
        invariant
            a <= x <= b <= s@.len(),
            piece@ == s@.subrange(a as int, x as int),
        decreases b - x,
    {
        piece.push(s[x]);
        proof {
            assert(s@.subrange(a as int, x + 1 as int) =~= s@.subrange(a as int, x as int).push(
                s@[x as int],
            ));
        }
        x = x + 1;
    }
    piece
}

/// The character an escape introduces, if the escape is known.
pub open spec fn esc_char(c: char) -> Option<char> {
    if c == '"' {
        Some('"')
    } else if c == '\\' {
        Some('\\')
    } else if c == 'n' {
        Some('\n')
    } else if c == 't' {
        Some('\t')
    } else if c == 'r' {
        Some('\r')
    } else {
        None
    }
}

fn esc(c: char) -> (r: Option<char>)
    ensures
        r == esc_char(c),
{
    if c == '"' {
        Some('"')
    } else if c == '\\' {
        Some('\\')
    } else if c == 'n' {
        Some('\n')
    } else if c == 't' {
        Some('\t')
    } else if c == 'r' {
        Some('\r')
    } else {
        None
    }
}

/// The decoded content of a quoted string whose body starts at `i`,
/// together with the position just past its closing quote; `None` when
/// the string never closes or an escape is unknown.
pub open spec fn spec_str_body(s: Seq<char>, i: int, acc: Seq<char>) -> Option<(Seq<char>, int)>
    decreases s.len() - i,
{
    if i < 0 || i >= s.len() {
        None
    } else if s[i] == '"' {
        Some((acc, i + 1))
    } else if s[i] == '\\' {
        if i + 1 < s.len() {
            match esc_char(s[i + 1]) {
                Some(c) => spec_str_body(s, i + 2, acc.push(c)),
                None => None,
            }
        } else {
            None
        }
    } else {
        spec_str_body(s, i + 1, acc.push(s[i]))
    }
}

proof fn lemma_str_body_bounds(s: Seq<char>, i: int, acc: Seq<char>)
    ensures
        spec_str_body(s, i, acc) matches Some(p) ==> i < p.1 <= s.len(),
    decreases s.len() - i,
{
    if 0 <= i < s.len() {
        if s[i] == '\\' {
            if i + 1 < s.len() && esc_char(s[i + 1]) is Some {
                lemma_str_body_bounds(s, i + 2, acc.push(esc_char(s[i + 1])->0));
            }
        } else if s[i] != '"' {
            lemma_str_body_bounds(s, i + 1, acc.push(s[i]));
        }
    }
}

/// Scans a quoted string body starting at `start`.
fn scan_str_body(s: &Vec<char>, start: usize) -> (r: Option<(Vec<char>, usize)>)
    requires
        start <= s@.len(),
    ensures
        match r {
            Some(p) => spec_str_body(s@, start as int, Seq::empty()) == Some((p.0@, p.1 as int))
                && p.1 <= s@.len(),
            None => spec_str_body(s@, start as int, Seq::empty()) is None,
        },
{
    let mut i: usize = start;
    let mut built: Vec<char> = Vec::new();
    loop
        invariant
            start <= i <= s@.len(),
            spec_str_body(s@, start as int, Seq::empty()) == spec_str_body(
                s@,
                i as int,
                built@,
            ),
        decreases s@.len() - i,
    {
        if i >= s.len() {
            return None;
        }
        let c = s[i];
        if c == '"' {
            return Some((built, i + 1));
        } else if c == '\\' {
            if i + 1 < s.len() {
                match esc(s[i + 1]) {
                    Some(e) => {
                        built.push(e);
                        i = i + 2;
                    },
                    None => {
                        return None;
                    },
                }
            } else {
                return None;
            }
        } else {
            built.push(c);
            i = i + 1;
        }
    }
}

/// The items of a quoted-string array whose body starts at `i`, and the
/// position just past its closing bracket.
pub open spec fn spec_arr_items(s: Seq<char>, i: int, acc: Seq<Seq<char>>) -> Option<
    (Seq<Seq<char>>, int),
>
    decreases s.len() - i,
    when i >= 0
    via spec_arr_items_dec
{
    let j = spec_ws_from(s, i);
    if j >= s.len() {
        None
    } else if s[j] == ']' {
        Some((acc, j + 1))
    } else if s[j] == '"' {
        match spec_str_body(s, j + 1, Seq::empty()) {
            Some(p) => {
                let k = spec_ws_from(s, p.1);
                if k < s.len() && s[k] == ',' {
                    spec_arr_items(s, k + 1, acc.push(p.0))
                } else if k < s.len() && s[k] == ']' {
                    Some((acc.push(p.0), k + 1))
                } else {
                    None
                }
            },
            None => None,
        }
    } else {
        None
    }
}

#[via_fn]
proof fn spec_arr_items_dec(s: Seq<char>, i: int, acc: Seq<Seq<char>>) {
    if 0 <= i <= s.len() {
        lemma_ws_from_bounds(s, i);
        let j = spec_ws_from(s, i);
        if j < s.len() && s[j] == '"' {
            lemma_str_body_bounds(s, j + 1, Seq::empty());
            match spec_str_body(s, j + 1, Seq::empty()) {
                Some(p) => {
                    lemma_ws_from_bounds(s, p.1);
                },
                None => {},
            }
        }
    } else if i > s.len() {
        lemma_ws_from_bounds(s, s.len() as int);
    }
}

/// Scans the items of a quoted-string array whose body starts at
/// `start`.
fn scan_arr_items(s: &Vec<char>, start: usize) -> (r: Option<(Vec<Vec<char>>, usize)>)
    requires
        start <= s@.len(),
    ensures
        match r {
            Some(p) => spec_arr_items(s@, start as int, Seq::empty()) == Some(
                (seq_views(p.0@), p.1 as int),
            ) && p.1 <= s@.len(),
            None => spec_arr_items(s@, start as int, Seq::empty()) is None,
        },
{
    let mut i: usize = start;
    let mut items: Vec<Vec<char>> = Vec::new();
    proof {
        assert(seq_views(items@) =~= Seq::<Seq<char>>::empty());
    }
    loop
        invariant
            start <= i <= s@.len(),
            spec_arr_items(s@, start as int, Seq::empty()) == spec_arr_items(
                s@,
                i as int,
                seq_views(items@),
            ),
        decreases s@.len() - i,
    {
        let j = skip_ws(s, i);
        if j >= s.len() {
            return None;
        }
        if s[j] == ']' {
            return Some((items, j + 1));
        }
        if s[j] != '"' {
            return None;
        }
        match scan_str_body(s, j + 1) {
            Some((t, n)) => {
                proof {
                    lemma_str_body_bounds(s@, j + 1 as int, Seq::empty());
                }
                let k = skip_ws(s, n);
                if k < s.len() && s[k] == ',' {
                    let ghost before = items@;
                    items.push(t);
                    proof {
                        assert(seq_views(items@) =~= seq_views(before).push(t@));
                    }
                    i = k + 1;
                } else if k < s.len() && s[k] == ']' {
                    let ghost before = items@;
                    items.push(t);
                    proof {
                        assert(seq_views(items@) =~= seq_views(before).push(t@));
                    }
                    return Some((items, k + 1));
                } else {
                    return None;
                }
            },
            None => {
                return None;
            },
        }
    }
}

/// The line's tail from `n` on is blank or a comment.
pub open spec fn rest_ok(s: Seq<char>, n: int) -> bool {
    let m = spec_ws_from(s, n);
    m >= s.len() || s[m] == '#'
}

/// A parsed descriptor value: a quoted string or a list of quoted
/// strings.
pub enum ValV {
    StrV(Seq<char>),
    ArrV(Seq<Seq<char>>),
}

/// The key and value of a `key = value` descriptor line, `None` when
/// the line is malformed.
pub open spec fn spec_line_kv(t: Seq<char>) -> Option<(Seq<char>, ValV)> {
    match crate::text::spec_find_char(t, '=', 0) {
        Some(e) => {
            if !(0 <= e < t.len()) {
                None
            } else {
                let k = spec_trim(t.subrange(0, e));
                if !(k.len() > 0 && (forall|x: int| 0 <= x < k.len() ==> is_bare_char(k[x]))) {
                    None
                } else {
                    let j = spec_ws_from(t, e + 1);
                    if j >= t.len() {
                        None
                    } else if t[j] == '"' {
                        match spec_str_body(t, j + 1, Seq::empty()) {
                            Some(p) => if rest_ok(t, p.1) {
                                Some((k, ValV::StrV(p.0)))
                            } else {
                                None
                            },
                            None => None,
                        }
                    } else if t[j] == '[' {
                        match spec_arr_items(t, j + 1, Seq::empty()) {
                            Some(p) => if rest_ok(t, p.1) {
                                Some((k, ValV::ArrV(p.0)))
                            } else {
                                None
                            },
                            None => None,
                        }
                    } else {
                        None
                    }
                }
            }
        },
        None => None,
    }
}

/// A parsed descriptor value.
pub enum Val {
    StrVal(Vec<char>),
    ArrVal(Vec<Vec<char>>),
}

/// The spec-level form of a parsed value.
pub open spec fn val_view(v: Val) -> ValV {
    match v {
        Val::StrVal(t) => ValV::StrV(t@),
        Val::ArrVal(items) => ValV::ArrV(seq_views(items@)),
    }
}

/// Parses a trimmed `key = value` line.
#[verifier::loop_isolation(false)]
fn parse_kv(t: &Vec<char>) -> (r: Option<(Vec<char>, Val)>)
    ensures
        match r {
            Some(p) => spec_line_kv(t@) matches Some(q) && q.0 == p.0@ && q.1 == val_view(p.1),
            None => spec_line_kv(t@) is None,
        },
{
    let tl = t.len();
    let e = match crate::text::find_char(t, '=', 0) {
        Some(e) => e,
        None => {
            return None;
        },
    };
    proof {
        crate::text::lemma_find_char_bounds(t@, '=', 0);
        assert(t@.len() == tl as int);
    }
    let mut keybuf: Vec<char> = Vec::new();
    let mut x: usize = 0;
    proof {
        assert(keybuf@ =~= t@.subrange(0, 0));
    }
    while x < e
        invariant
            0 <= x <= e <= t@.len(),
            keybuf@ == t@.subrange(0, x as int),
        decreases e - x,
    {
        keybuf.push(t[x]);
        proof {
            assert(t@.subrange(0, x + 1 as int) =~= t@.subrange(0, x as int).push(t@[x as int]));
        }
        x = x + 1;
    }
    let k = trim(&keybuf);
    if k.len() == 0 {
        return None;
    }
    let mut y: usize = 0;
    while y < k.len()
        invariant
            0 <= y <= k@.len(),
            forall|z: int| 0 <= z < y ==> is_bare_char(k@[z]),
        decreases k@.len() - y,
    {
        if !bare_char(k[y]) {
            proof {
                assert(!(forall|x: int| 0 <= x < k@.len() ==> is_bare_char(k@[x]))) by {
                    assert(0 <= y < k@.len() && !is_bare_char(k@[y as int]));
                }
            }
            return None;
        }
        y = y + 1;
    }
    let j = skip_ws(t, e + 1);
    if j >= t.len() {
        return None;
    }
    if t[j] == '"' {
        match scan_str_body(t, j + 1) {
            Some((v, n)) => {
                let m = skip_ws(t, n);
                if m >= t.len() || t[m] == '#' {
                    Some((k, Val::StrVal(v)))
                } else {
                    None
                }
            },
            None => None,
        }
    } else if t[j] == '[' {
        match scan_arr_items(t, j + 1) {
            Some((items, n)) => {
                let m = skip_ws(t, n);
                if m >= t.len() || t[m] == '#' {
                    Some((k, Val::ArrVal(items)))
                } else {
                    None
                }
            },
            None => None,
        }
    } else {
        None
    }
}

/// The name inside a trimmed `[section]` header line, `None` when the
/// header is malformed.
pub open spec fn spec_section_name(t: Seq<char>) -> Option<Seq<char>> {
    if t.len() >= 2 && t[t.len() - 1] == ']' {
        let inner = spec_trim(t.subrange(1, t.len() - 1));
        if inner.len() > 0 {
            Some(inner)
        } else {
            None
        }
    } else {
        None
    }
}

/// Parses a trimmed section header line (the first character is `[`).
fn parse_section_name(t: &Vec<char>) -> (r: Option<Vec<char>>)
    requires
        t@.len() > 0,
    ensures
        match r {
            Some(name) => spec_section_name(t@) == Some(name@),
            None => spec_section_name(t@) is None,
        },
{
    if t.len() < 2 {
        return None;
    }
    if t[t.len() - 1] != ']' {
        return None;
    }
    let mut innerbuf: Vec<char> = Vec::new();
    let mut x: usize = 1;
    let end = t.len() - 1;
    proof {
        assert(innerbuf@ =~= t@.subrange(1, 1));
    }
    while x < end
        invariant
            1 <= x <= end,
            end == t@.len() - 1,
            innerbuf@ == t@.subrange(1, x as int),
        decreases end - x,
    {
        innerbuf.push(t[x]);
        proof {
            assert(t@.subrange(1, x + 1 as int) =~= t@.subrange(1, x as int).push(t@[x as int]));
        }
        x = x + 1;
    }
    let inner = trim(&innerbuf);
    if inner.len() == 0 {
        None
    } else {
        Some(inner)
    }
}

/// The section a descriptor line belongs to.
pub enum Sec {
    Top,
    Vars,
    Ren,
    Filt,
    Other,
}

/// The raw content of a parsed descriptor, before filter validation.
pub struct ConfV {
    pub vars: Option<Seq<(Seq<char>, Seq<char>)>>,
    pub ren: Option<Seq<(Seq<char>, Seq<char>)>>,
    pub filt: bool,
    pub inc: Option<Seq<Seq<char>>>,
    pub exc: Option<Seq<Seq<char>>>,
}

/// The content of a descriptor with no sections.
pub open spec fn empty_conf() -> ConfV {
    ConfV { vars: None, ren: None, filt: false, inc: None, exc: None }
}

pub open spec fn with_vars(c: ConfV, v: Option<Seq<(Seq<char>, Seq<char>)>>) -> ConfV {
    ConfV { vars: v, ren: c.ren, filt: c.filt, inc: c.inc, exc: c.exc }
}

pub open spec fn with_ren(c: ConfV, v: Option<Seq<(Seq<char>, Seq<char>)>>) -> ConfV {
    ConfV { vars: c.vars, ren: v, filt: c.filt, inc: c.inc, exc: c.exc }
}

pub open spec fn with_filt(c: ConfV) -> ConfV {
    ConfV { vars: c.vars, ren: c.ren, filt: true, inc: c.inc, exc: c.exc }
}

pub open spec fn with_inc(c: ConfV, v: Option<Seq<Seq<char>>>) -> ConfV {
    ConfV { vars: c.vars, ren: c.ren, filt: c.filt, inc: v, exc: c.exc }
}

pub open spec fn with_exc(c: ConfV, v: Option<Seq<Seq<char>>>) -> ConfV {
    ConfV { vars: c.vars, ren: c.ren, filt: c.filt, inc: c.inc, exc: v }
}

/// The descriptor key of the opt-in filter list.
pub open spec fn spec_keep_key() -> Seq<char> {
    seq!['i', 'n', 'c', 'l', 'u', 'd', 'e']
}

/// The accumulated raw content of the parsed sections.
pub open spec fn conf_of(
    has_vars: bool,
    vars: Seq<(String, String)>,
    has_ren: bool,
    ren: Seq<(String, String)>,
    filt: bool,
    has_inc: bool,
    inc: Seq<String>,
    has_exc: bool,
    exc: Seq<String>,
) -> ConfV {
    ConfV {
        vars: if has_vars {
            Some(pairs_view(vars))
        } else {
            None
        },
        ren: if has_ren {
            Some(pairs_view(ren))
        } else {
            None
        },
        filt: filt,
        inc: if has_inc {
            Some(strs_view(inc))
        } else {
            None
        },
        exc: if has_exc {
            Some(strs_view(exc))
        } else {
            None
        },
    }
}

/// The map holds the key already.
pub open spec fn spec_has_key(m: Seq<(Seq<char>, Seq<char>)>, k: Seq<char>) -> bool {
    exists|i: int| 0 <= i < m.len() && m[i].0 == k
}

/// Parses descriptor lines from `idx` on, inside section `sec`, having
/// accumulated `acc`: blank lines and comments are skipped, a section
/// header switches section and may appear at most once, `[variables]`
/// and `[rename]` lines are unique string-valued keys, `[filters]`
/// knows the two list-valued filter keys, and unknown
/// sections and keys are ignored.
pub open spec fn spec_parse_lines(lines: Seq<Seq<char>>, idx: int, sec: Sec, acc: ConfV) -> Option<
    ConfV,
>
    decreases lines.len() - idx,
{
    if idx < 0 {
        None
    } else if idx >= lines.len() {
        Some(acc)
    } else {
        let t = spec_trim(lines[idx]);
        if t.len() == 0 || t[0] == '#' {
            spec_parse_lines(lines, idx + 1, sec, acc)
        } else if t[0] == '[' {
            match spec_section_name(t) {
                Some(name) => if name == "variables"@ {
                    if acc.vars is Some {
                        None
                    } else {
                        spec_parse_lines(lines, idx + 1, Sec::Vars, with_vars(acc, Some(Seq::empty())))
                    }
                } else if name == "rename"@ {
                    if acc.ren is Some {
                        None
                    } else {
                        spec_parse_lines(lines, idx + 1, Sec::Ren, with_ren(acc, Some(Seq::empty())))
                    }
                } else if name == "filters"@ {
                    if acc.filt {
                        None
                    } else {
                        spec_parse_lines(lines, idx + 1, Sec::Filt, with_filt(acc))
                    }
                } else {
                    spec_parse_lines(lines, idx + 1, Sec::Other, acc)
                },
                None => None,
            }
        } else {
            match sec {
                Sec::Top => spec_parse_lines(lines, idx + 1, sec, acc),
                Sec::Other => spec_parse_lines(lines, idx + 1, sec, acc),
                Sec::Vars => match spec_line_kv(t) {
                    Some(p) => match p.1 {
                        ValV::StrV(v) => match acc.vars {
                            Some(m) => if spec_has_key(m, p.0) {
                                None
                            } else {
                                spec_parse_lines(
                                    lines,
                                    idx + 1,
                                    sec,
                                    with_vars(acc, Some(m.push((p.0, v)))),
                                )
                            },
                            None => None,
                        },
                        ValV::ArrV(items) => None,
                    },
                    None => None,
                },
                Sec::Ren => match spec_line_kv(t) {
                    Some(p) => match p.1 {
                        ValV::StrV(v) => match acc.ren {
                            Some(m) => if spec_has_key(m, p.0) {
                                None
                            } else {
                                spec_parse_lines(
                                    lines,
                                    idx + 1,
                                    sec,
                                    with_ren(acc, Some(m.push((p.0, v)))),
                                )
                            },
                            None => None,
                        },
                        ValV::ArrV(items) => None,
                    },
                    None => None,
                },
                Sec::Filt => match spec_line_kv(t) {
                    Some(p) => match p.1 {
                        ValV::ArrV(items) => if p.0 == spec_keep_key() {
                            if acc.inc is Some {
                                None
                            } else {
                                spec_parse_lines(lines, idx + 1, sec, with_inc(acc, Some(items)))
                            }
                        } else if p.0 == "exclude"@ {
                            if acc.exc is Some {
                                None
                            } else {
                                spec_parse_lines(lines, idx + 1, sec, with_exc(acc, Some(items)))
                            }
                        } else {
                            spec_parse_lines(lines, idx + 1, sec, acc)
                        },
                        ValV::StrV(v) => if p.0 == spec_keep_key() || p.0 == "exclude"@ {
                            None
                        } else {
                            spec_parse_lines(lines, idx + 1, sec, acc)
                        },
                    },
                    None => None,
                },
            }
        }
    }
}

/// The raw content of a descriptor text: its lines parsed from the top,
/// outside any section, starting from nothing.
pub open spec fn spec_parse_descriptor(s: Seq<char>) -> Option<ConfV> {
    spec_parse_lines(spec_split(s, '\n'), 0, Sec::Top, empty_conf())
}

/// Files or directories to be kept or excluded while materializing
/// a template.
pub struct Filters {
    /// The only filenames to process, when set: the descriptor's opt-in
    /// filter list.
    pub keep: Option<Vec<String>>,
    /// Filenames to skip, when set.
    pub exclude: Option<Vec<String>>,
}

/// The loaded template configuration.
pub struct TemplateConfig {
    /// Variable keys replaced by their values in rendered files.
    pub variables: Option<Vec<(String, String)>>,
    /// The filter rule.
    pub filters: Option<Filters>,
    /// Path segments to rename.
    pub rename: Option<Vec<(String, String)>>,
}

/// The views of a list of string pairs.
pub open spec fn pairs_view(v: Seq<(String, String)>) -> Seq<(Seq<char>, Seq<char>)> {
    v.map_values(|p: (String, String)| (p.0@, p.1@))
}

/// The views of a list of strings.
pub open spec fn strs_view(v: Seq<String>) -> Seq<Seq<char>> {
    v.map_values(|s: String| s@)
}

/// The spec-level form of a filter rule.
pub struct FiltersV {
    pub keep: Option<Seq<Seq<char>>>,
    pub exclude: Option<Seq<Seq<char>>>,
}

/// The spec-level form of a configuration.
pub struct ConfigV {
    pub variables: Option<Seq<(Seq<char>, Seq<char>)>>,
    pub filters: Option<FiltersV>,
    pub rename: Option<Seq<(Seq<char>, Seq<char>)>>,
}

/// The spec-level form of a filter rule value.
pub open spec fn filters_view(f: Filters) -> FiltersV {
    FiltersV {
        keep: match f.keep {
            Some(v) => Some(strs_view(v@)),
            None => None,
        },
        exclude: match f.exclude {
            Some(v) => Some(strs_view(v@)),
            None => None,
        },
    }
}

/// The spec-level form of a configuration value.
pub open spec fn config_view(c: TemplateConfig) -> ConfigV {
    ConfigV {
        variables: match c.variables {
            Some(v) => Some(pairs_view(v@)),
            None => None,
        },
        filters: match c.filters {
            Some(f) => Some(filters_view(f)),
            None => None,
        },
        rename: match c.rename {
            Some(v) => Some(pairs_view(v@)),
            None => None,
        },
    }
}

/// The configuration a parsed descriptor validates to: when both filter
/// lists were set, the exclude list is discarded and the opt-in list
/// kept.
pub open spec fn spec_validate(cv: ConfV) -> ConfigV {
    ConfigV {
        variables: cv.vars,
        rename: cv.ren,
        filters: if cv.filt {
            Some(
                FiltersV {
                    keep: cv.inc,
                    exclude: if cv.inc is Some && cv.exc is Some {
                        None
                    } else {
                        cv.exc
                    },
                },
            )
        } else {
            None
        },
    }
}

/// When a descriptor sets both of its filter lists, the loaded
/// configuration has no exclude list and the opt-in list unchanged.
pub proof fn lemma_conflicting_filters_drop_exclude(cv: ConfV)
    requires
        cv.filt,
        cv.inc is Some,
        cv.exc is Some,
    ensures
        spec_validate(cv).filters matches Some(f) && f.exclude is None && f.keep == cv.inc,
{
}

/// The default configuration, used when a template has no descriptor:
/// no variables, no renames, and the fixed exclude set.
pub open spec fn spec_default_config() -> ConfigV {
    ConfigV {
        variables: None,
        rename: None,
        filters: Some(
            FiltersV {
                keep: None,
                exclude: Some(seq!["venv"@, ".git"@, ".idea"@, ".vscode"@]),
            },
        ),
    }
}

impl Default for Filters {
    /// The default filter rule: no opt-in list, the fixed exclude set.
    fn default() -> (f: Filters)
        ensures
            filters_view(f) == (FiltersV {
                keep: None,
                exclude: Some(seq!["venv"@, ".git"@, ".idea"@, ".vscode"@]),
            }),
    {
        let mut excl: Vec<String> = Vec::new();
        excl.push("venv".to_owned());
        excl.push(".git".to_owned());
        excl.push(".idea".to_owned());
        excl.push(".vscode".to_owned());
        proof {
            assert(strs_view(excl@) =~= seq!["venv"@, ".git"@, ".idea"@, ".vscode"@]);
        }
        Filters { keep: None, exclude: Some(excl) }
    }
}

impl Default for TemplateConfig {
    /// The default configuration, substituted when a template root has
    /// no descriptor file.
    fn default() -> (c: TemplateConfig)
        ensures
            config_view(c) == spec_default_config(),
    {
        TemplateConfig { variables: None, rename: None, filters: Some(Filters::default()) }
    }
}

fn pairs_has_key(m: &Vec<(String, String)>, k: &String) -> (r: bool)
    ensures
        r == spec_has_key(pairs_view(m@), k@),
{
    let mut i: usize = 0;
    while i < m.len()
        invariant
            0 <= i <= m@.len(),
            forall|j: int| 0 <= j < i ==> pairs_view(m@)[j].0 != k@,
        decreases m@.len() - i,
    {
        if m[i].0.eq(k) {
            proof {
                assert(pairs_view(m@)[i as int].0 == k@);
            }
            return true;
        }
        proof {
            assert(pairs_view(m@)[i as int].0 == m@[i as int].0@);
        }
        i = i + 1;
    }
    false
}

/// Parses and validates a descriptor text.
#[verifier::loop_isolation(false)]
pub(crate) fn parse_descriptor_text(text: &str) -> (r: Option<TemplateConfig>)
    ensures
        match spec_parse_descriptor(text@) {
            Some(cv) => (r matches Some(c) && config_view(c) == spec_validate(cv)),
            None => r is None,
        },
{
    let cs = str_chars(text);
    let lines = split_chars(&cs, '\n');
    let ghost lv = seq_views(lines@);
    let mut sec = Sec::Top;
    let mut vars_list: Vec<(String, String)> = Vec::new();
    let mut has_vars: bool = false;
    let mut ren_list: Vec<(String, String)> = Vec::new();
    let mut has_ren: bool = false;
    let mut filt: bool = false;
    let mut inc_list: Vec<String> = Vec::new();
    let mut has_inc: bool = false;
    let mut exc_list: Vec<String> = Vec::new();
    let mut has_exc: bool = false;
    let mut idx: usize = 0;
    let key_variables = str_chars("variables");
    let key_rename = str_chars("rename");
    let key_filters = str_chars("filters");
    let key_keep: Vec<char> = vec!['i', 'n', 'c', 'l', 'u', 'd', 'e'];
    proof {
        assert(key_keep@ =~= spec_keep_key());
    }
    let key_exclude = str_chars("exclude");
    proof {
        assert(pairs_view(vars_list@) =~= Seq::<(Seq<char>, Seq<char>)>::empty());
        assert(pairs_view(ren_list@) =~= Seq::<(Seq<char>, Seq<char>)>::empty());
        assert(strs_view(inc_list@) =~= Seq::<Seq<char>>::empty());
        assert(strs_view(exc_list@) =~= Seq::<Seq<char>>::empty());
    }
    while idx < lines.len()
        invariant
            0 <= idx <= lines@.len(),
            spec_parse_lines(lv, 0, Sec::Top, empty_conf()) == spec_parse_lines(
                lv,
                idx as int,
                sec,
                conf_of(
                    has_vars,
                    vars_list@,
                    has_ren,
                    ren_list@,
                    filt,
                    has_inc,
                    inc_list@,
                    has_exc,
                    exc_list@,
                ),
            ),
            sec is Vars ==> has_vars,
            sec is Ren ==> has_ren,
            !has_vars ==> vars_list@ == Seq::<(String, String)>::empty(),
            !has_ren ==> ren_list@ == Seq::<(String, String)>::empty(),
        decreases lines@.len() - idx,
    {
        let ghost acc = conf_of(
            has_vars,
            vars_list@,
            has_ren,
            ren_list@,
            filt,
            has_inc,
            inc_list@,
            has_exc,
            exc_list@,
        );
        let ghost oldsec = sec;
        let t = trim(&lines[idx]);
        proof {
            assert(lv[idx as int] == lines@[idx as int]@);
            assert(t@ == spec_trim(lv[idx as int]));
        }
        if t.len() == 0 || t[0] == '#' {
            proof {
                assert(spec_parse_lines(lv, idx as int, sec, acc) == spec_parse_lines(
                    lv,
                    idx + 1 as int,
                    sec,
                    acc,
                ));
            }
            idx = idx + 1;
            continue ;
        }
        if t[0] == '[' {
            match parse_section_name(&t) {
                Some(name) => {
                    if chars_eq(&name, &key_variables) {
                        if has_vars {
                            return None;
                        }
                        has_vars = true;
                        sec = Sec::Vars;
                        proof {
                            assert(pairs_view(vars_list@) =~= Seq::<(Seq<char>, Seq<char>)>::empty());
                            assert(spec_parse_lines(lv, idx as int, oldsec, acc)
                                == spec_parse_lines(
                                lv,
                                idx + 1 as int,
                                Sec::Vars,
                                with_vars(acc, Some(Seq::empty())),
                            ));
                        }
                    } else if chars_eq(&name, &key_rename) {
                        if has_ren {
                            return None;
                        }
                        has_ren = true;
                        sec = Sec::Ren;
                        proof {
                            assert(pairs_view(ren_list@) =~= Seq::<(Seq<char>, Seq<char>)>::empty());
                            assert(spec_parse_lines(lv, idx as int, oldsec, acc)
                                == spec_parse_lines(
                                lv,
                                idx + 1 as int,
                                Sec::Ren,
                                with_ren(acc, Some(Seq::empty())),
                            ));
                        }
                    } else if chars_eq(&name, &key_filters) {
                        if filt {
                            return None;
                        }
                        filt = true;
                        sec = Sec::Filt;
                        proof {
                            assert(spec_parse_lines(lv, idx as int, oldsec, acc)
                                == spec_parse_lines(lv, idx + 1 as int, Sec::Filt, with_filt(acc)));
                        }
                    } else {
                        sec = Sec::Other;
                        proof {
                            assert(name@ != "variables"@ && name@ != "rename"@ && name@
                                != "filters"@);
                            assert(spec_parse_lines(lv, idx as int, oldsec, acc)
                                == spec_parse_lines(lv, idx + 1 as int, Sec::Other, acc));
                        }
                    }
                    idx = idx + 1;
                },
                None => {
                    return None;
                },
            }
            continue ;
        }
        match sec {
            Sec::Top => {
                idx = idx + 1;
            },
            Sec::Other => {
                idx = idx + 1;
            },
            Sec::Vars => {
                match parse_kv(&t) {
                    Some((k, Val::StrVal(v))) => {
                        let ks = chars_string(&k);
                        if pairs_has_key(&vars_list, &ks) {
                            return None;
                        }
                        let vs = chars_string(&v);
                        let ghost before = vars_list@;
                        vars_list.push((ks, vs));
                        proof {
                            assert(pairs_view(vars_list@) =~= pairs_view(before).push((k@, v@)));
                        }
                        idx = idx + 1;
                    },
                    Some((k, Val::ArrVal(_))) => {
                        return None;
                    },
                    None => {
                        return None;
                    },
                }
            },
            Sec::Ren => {
                match parse_kv(&t) {
                    Some((k, Val::StrVal(v))) => {
                        let ks = chars_string(&k);
                        if pairs_has_key(&ren_list, &ks) {
                            return None;
                        }
                        let vs = chars_string(&v);
                        let ghost before = ren_list@;
                        ren_list.push((ks, vs));
                        proof {
                            assert(pairs_view(ren_list@) =~= pairs_view(before).push((k@, v@)));
                        }
                        idx = idx + 1;
                    },
                    Some((k, Val::ArrVal(_))) => {
                        return None;
                    },
                    None => {
                        return None;
                    },
                }
            },
            Sec::Filt => {
                match parse_kv(&t) {
                    Some((k, Val::ArrVal(items))) => {
                        if chars_eq(&k, &key_keep) {
                            if has_inc {
                                return None;
                            }
                            let mut strs: Vec<String> = Vec::new();
                            let mut z: usize = 0;
                            proof {
                                assert(strs_view(strs@) =~= Seq::<Seq<char>>::empty());
                                assert(seq_views(items@).take(0) =~= Seq::<Seq<char>>::empty());
                            }
                            while z < items.len()
                                invariant
                                    0 <= z <= items@.len(),
                                    strs_view(strs@) =~= seq_views(items@).take(z as int),
                                decreases items@.len() - z,
                            {
                                let ghost beforestrs = strs@;
                                strs.push(chars_string(&items[z]));
                                proof {
                                    assert(strs_view(strs@) =~= strs_view(beforestrs).push(
                                        items@[z as int]@,
                                    ));
                                    assert(seq_views(items@).take(z + 1 as int) =~= seq_views(
                                        items@,
                                    ).take(z as int).push(seq_views(items@)[z as int]));
                                }
                                z = z + 1;
                            }
                            proof {
                                assert(seq_views(items@).take(items@.len() as int) =~= seq_views(
                                    items@,
                                ));
                            }
                            inc_list = strs;
                            has_inc = true;
                            idx = idx + 1;
                        } else if chars_eq(&k, &key_exclude) {
                            if has_exc {
                                return None;
                            }
                            let mut strs: Vec<String> = Vec::new();
                            let mut z: usize = 0;
                            proof {
                                assert(strs_view(strs@) =~= Seq::<Seq<char>>::empty());
                                assert(seq_views(items@).take(0) =~= Seq::<Seq<char>>::empty());
                            }
                            while z < items.len()
                                invariant
                                    0 <= z <= items@.len(),
                                    strs_view(strs@) =~= seq_views(items@).take(z as int),
                                decreases items@.len() - z,
                            {
                                let ghost beforestrs = strs@;
                                strs.push(chars_string(&items[z]));
                                proof {
                                    assert(strs_view(strs@) =~= strs_view(beforestrs).push(
                                        items@[z as int]@,
                                    ));
                                    assert(seq_views(items@).take(z + 1 as int) =~= seq_views(
                                        items@,
                                    ).take(z as int).push(seq_views(items@)[z as int]));
                                }
                                z = z + 1;
                            }
                            proof {
                                assert(seq_views(items@).take(items@.len() as int) =~= seq_views(
                                    items@,
                                ));
                            }
                            exc_list = strs;
                            has_exc = true;
                            idx = idx + 1;
                        } else {
                            idx = idx + 1;
                        }
                    },
                    Some((k, Val::StrVal(_))) => {
                        if chars_eq(&k, &key_keep) || chars_eq(&k, &key_exclude) {
                            return None;
                        }
                        idx = idx + 1;
                    },
                    None => {
                        return None;
                    },
                }
            },
        }
    }
    let filters: Option<Filters> = if filt {
        Some(
            Filters {
                keep: if has_inc {
                    Some(inc_list)
                } else {
                    None
                },
                exclude: if has_inc && has_exc {
                    None
                } else if has_exc {
                    Some(exc_list)
                } else {
                    None
                },
            },
        )
    } else {
        None
    };
    Some(
        TemplateConfig {
            variables: if has_vars {
                Some(vars_list)
            } else {
                None
            },
            filters,
            rename: if has_ren {
                Some(ren_list)
            } else {
                None
            },
        },
    )
}

impl TemplateConfig {
    /// Loads the template configuration: `descriptor` is the text of the
    /// descriptor file when the template root has one, and the built-in
    /// placeholders are substituted with the project name and the author
    /// identity before parsing. A missing descriptor is not an error:
    /// the default configuration is substituted. A descriptor that does
    /// not parse is.
    pub fn new(
        descriptor: Option<&str>,
        project_name: &str,
        author_name: &str,
        author_email: &str,
    ) -> (r: Result<TemplateConfig, Error>)
        ensures
            descriptor is None ==> (r matches Ok(c) && config_view(c) == spec_default_config()),
            descriptor matches Some(text) ==> match spec_parse_descriptor(
                spec_default_variables(text@, project_name@, author_name@, author_email@),
            ) {
                Some(cv) => (r matches Ok(c) && config_view(c) == spec_validate(cv)),
                None => (r matches Err(e) && e.kind_spec() == ErrorKind::StripPrefix),
            },
    {
        match descriptor {
            None => Ok(TemplateConfig::default()),
            Some(text) => {
                let substituted = match default_variables(
                    text,
                    project_name,
                    author_name,
                    author_email,
                ) {
                    Ok(s) => s,
                    Err(e) => {
                        return Err(e);
                    },
                };
                match parse_descriptor_text(substituted.as_str()) {
                    Some(c) => Ok(c),
                    None => Err(
                        Error::new(ErrorKind::StripPrefix, "could not parse the template descriptor"),
                    ),
                }
            },
        }
    }
}

} // verus!
