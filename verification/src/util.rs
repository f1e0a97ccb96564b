//! Path string utilities.
//!
//! Paths are modelled as character sequences with `/` as the separator.
//! A path is parsed into components the way `std::path` does on Unix:
//! empty segments and non-leading `.` segments are dropped, a leading
//! `.` of a relative path is kept, and `..` segments are kept.

use vstd::prelude::*;

use crate::text::str_chars;
use crate::text::chars_string;
use crate::text::spec_split;
use crate::text::split_chars;
use crate::text::spec_rfind_char;
use crate::text::seq_views;

verus! {

/// A path component: the current directory, the parent directory, or a
/// named segment.
pub enum Comp {
    Cur,
    Parent,
    Normal(String),
}

/// The spec-level form of a path component.
pub enum CompV {
    Cur,
    Parent,
    Normal(Seq<char>),
}

/// The spec-level form of a component.
pub open spec fn comp_view(c: Comp) -> CompV {
    match c {
        Comp::Cur => CompV::Cur,
        Comp::Parent => CompV::Parent,
        Comp::Normal(s) => CompV::Normal(s@),
    }
}

/// The spec-level form of a component list.
pub open spec fn comps_view(v: Seq<Comp>) -> Seq<CompV> {
    v.map_values(|c: Comp| comp_view(c))
}

/// The path ends trimmed the way `std::path` normalizes them: trailing
/// separators and trailing `.` segments are dropped.
pub open spec fn norm_end(s: Seq<char>) -> Seq<char>
    decreases s.len(),
{
    if s.len() == 0 {
        s
    } else if s[s.len() - 1] == '/' {
        norm_end(s.drop_last())
    } else if s.len() >= 2 && s[s.len() - 1] == '.' && s[s.len() - 2] == '/' {
        norm_end(s.drop_last())
    } else {
        s
    }
}

/// The final named segment of the path, as `std::path`'s `file_name`
/// gives it: `None` for an empty path, a root, or a path ending in `.`
/// or `..`.
pub open spec fn spec_basename(s: Seq<char>) -> Option<Seq<char>> {
    let t = norm_end(s);
    if t.len() == 0 {
        None
    } else {
        let b = match spec_rfind_char(t, '/') {
            Some(i) => t.skip(i + 1),
            None => t,
        };
        if b.len() == 1 && b[0] == '.' {
            None
        } else if b.len() == 2 && b[0] == '.' && b[1] == '.' {
            None
        } else {
            Some(b)
        }
    }
}

/// Returns the basename of a path: its final named segment, ignoring
/// trailing separators.
pub fn basename(path: &str) -> (r: String)
    requires
        spec_basename(path@) is Some,
    ensures
        r@ == spec_basename(path@)->0,
{
    let cs = str_chars(path);
    let mut j: usize = cs.len();
    proof {
        assert(cs@.take(cs@.len() as int) =~= cs@);
    }
    loop
        invariant
            0 <= j <= cs@.len(),
            cs@ == path@,
            norm_end(path@) == norm_end(cs@.take(j as int)),
            spec_basename(path@) is Some,
        ensures
            0 < j <= cs@.len(),
            cs@ == path@,
            norm_end(path@) == cs@.take(j as int),
        decreases j,
    {
        proof {
            if j > 0 {
                assert(cs@.take(j as int).drop_last() =~= cs@.take(j - 1));
                assert(cs@.take(j as int)[j - 1] == cs@[j - 1]);
                if j >= 2 {
                    assert(cs@.take(j as int)[j - 2] == cs@[j - 2]);
                }
            }
        }
        if j == 0 {
            proof {
                assert(cs@.take(0) =~= Seq::<char>::empty());
                assert(norm_end(path@).len() == 0);
                assert(false);
            }
            break ;
        }
        let c = cs[j - 1];
        if c == '/' {
            j = j - 1;
        } else if c == '.' && j >= 2 && cs[j - 2] == '/' {
            j = j - 1;
        } else {
            break ;
        }
    }
    let mut k: usize = j;
    proof {
        let t = cs@.take(j as int);
        assert(t.take(j as int) =~= t);
    }
    loop
        invariant
            0 <= k <= j <= cs@.len(),
            cs@ == path@,
            norm_end(path@) == cs@.take(j as int),
            spec_rfind_char(cs@.take(j as int), '/') == spec_rfind_char(
                cs@.take(j as int).take(k as int),
                '/',
            ),
        ensures
            0 <= k <= j,
            cs@ == path@,
            k == 0 ==> spec_rfind_char(cs@.take(j as int), '/') is None,
            k > 0 ==> spec_rfind_char(cs@.take(j as int), '/') == Some(k - 1 as int),
        decreases k,
    {
        proof {
            let t = cs@.take(j as int);
            if k > 0 {
                assert(t.take(k as int).drop_last() =~= t.take(k - 1));
                assert(t.take(k as int)[k - 1] == cs@[k - 1]);
            }
        }
        if k == 0 {
            proof {
                let t = cs@.take(j as int);
                assert(t.take(0) =~= Seq::<char>::empty());
            }
            break ;
        }
        if cs[k - 1] == '/' {
            proof {
                let t = cs@.take(j as int);
                assert(spec_rfind_char(t.take(k as int), '/') == Some(k - 1 as int));
            }
            break ;
        }
        k = k - 1;
    }
    proof {
        let t = cs@.take(j as int);
        if k == 0 {
            assert(t.skip(0) =~= t);
        }
    }
    let mut piece: Vec<char> = Vec::new();
    let mut x: usize = k;
    while x < j
        invariant
            k <= x <= j <= cs@.len(),
            piece@ == cs@.subrange(k as int, x as int),
        decreases j - x,
    {
        piece.push(cs[x]);
        proof {
            assert(cs@.subrange(k as int, x + 1 as int) =~= cs@.subrange(k as int, x as int).push(
                cs@[x as int],
            ));
        }
        x = x + 1;
    }
    proof {
        let t = cs@.take(j as int);
        if k == 0 {
            assert(piece@ =~= t);
        } else {
            assert(piece@ =~= t.skip(k as int));
        }
    }
    chars_string(&piece)
}

/// Returns the filename (or directory name) of a path: its final named
/// segment.
pub fn filename(path: &str) -> (r: String)
    requires
        spec_basename(path@) is Some,
    ensures
        r@ == spec_basename(path@)->0,
{
    basename(path)
}

/// The path starts at the filesystem root.
pub open spec fn spec_is_abs(s: Seq<char>) -> bool {
    s.len() > 0 && s[0] == '/'
}

/// The component a named piece stands for.
pub open spec fn comp_of_piece(p: Seq<char>) -> CompV {
    if p.len() == 2 && p[0] == '.' && p[1] == '.' {
        CompV::Parent
    } else {
        CompV::Normal(p)
    }
}

/// The components of a sequence of `/`-delimited pieces: empty pieces
/// and `.` pieces are dropped.
pub open spec fn comps_of_pieces(ps: Seq<Seq<char>>) -> Seq<CompV>
    decreases ps.len(),
{
    if ps.len() == 0 {
        Seq::empty()
    } else if ps[0].len() == 0 || (ps[0].len() == 1 && ps[0][0] == '.') {
        comps_of_pieces(ps.skip(1))
    } else {
        seq![comp_of_piece(ps[0])] + comps_of_pieces(ps.skip(1))
    }
}

/// The components of a path string, as `std::path` yields them on Unix,
/// with the root carried separately as the absolute flag.
pub open spec fn spec_components(s: Seq<char>) -> Seq<CompV> {
    let ps = spec_split(s, '/');
    let base = comps_of_pieces(ps);
    if !spec_is_abs(s) && ps.len() > 0 && ps[0].len() == 1 && ps[0][0] == '.' {
        seq![CompV::Cur] + base
    } else {
        base
    }
}

/// Parses a path string into its absolute flag and components.
fn parse_components(path: &str) -> (r: (bool, Vec<Comp>))
    ensures
        r.0 == spec_is_abs(path@),
        comps_view(r.1@) == spec_components(path@),
{
    let cs = str_chars(path);
    let abs: bool = cs.len() > 0 && cs[0] == '/';
    let pieces = split_chars(&cs, '/');
    let ghost pv = seq_views(pieces@);
    let mut acc: Vec<Comp> = Vec::new();
    let lead: bool = !abs && pieces.len() > 0 && pieces[0].len() == 1 && pieces[0][0] == '.';
    let ghost lead_seq: Seq<CompV> = if lead {
        seq![CompV::Cur]
    } else {
        Seq::empty()
    };
    if lead {
        acc.push(Comp::Cur);
    }
    proof {
        assert(pv.skip(0) =~= pv);
        assert(comps_view(acc@) =~= lead_seq);
        assert(lead_seq + comps_of_pieces(pv) =~= comps_view(acc@) + comps_of_pieces(pv));
    }
    let mut i: usize = 0;
    while i < pieces.len()
        invariant
            0 <= i <= pieces@.len(),
            pv == seq_views(pieces@),
            lead_seq + comps_of_pieces(pv) =~= comps_view(acc@) + comps_of_pieces(
                pv.skip(i as int),
            ),
        decreases pieces@.len() - i,
    {
        let p = &pieces[i];
        let ghost rest = pv.skip(i as int);
        proof {
            assert(rest[0] == pv[i as int]);
            assert(rest.skip(1) =~= pv.skip(i + 1));
        }
        if p.len() == 0 || (p.len() == 1 && p[0] == '.') {
        } else if p.len() == 2 && p[0] == '.' && p[1] == '.' {
            let ghost before = acc@;
            acc.push(Comp::Parent);
            proof {
                assert(comps_view(acc@) =~= comps_view(before).push(CompV::Parent));
                assert(comps_view(before) + (seq![comp_of_piece(rest[0])] + comps_of_pieces(
                    rest.skip(1),
                )) =~= comps_view(acc@) + comps_of_pieces(rest.skip(1)));
            }
        } else {
            let ghost before = acc@;
            let name = chars_string(p);
            acc.push(Comp::Normal(name));
            proof {
                assert(comps_view(acc@) =~= comps_view(before).push(CompV::Normal(pv[i as int])));
                assert(comps_view(before) + (seq![comp_of_piece(rest[0])] + comps_of_pieces(
                    rest.skip(1),
                )) =~= comps_view(acc@) + comps_of_pieces(rest.skip(1)));
            }
        }
        i = i + 1;
    }
    proof {
        assert(pv.skip(pv.len() as int) =~= Seq::<Seq<char>>::empty());
        assert(comps_view(acc@) + Seq::<CompV>::empty() =~= comps_view(acc@));
        assert(lead_seq + comps_of_pieces(pv) =~= comps_view(acc@));
    }
    (abs, acc)
}

/// The relative walk from `b` to `a`, comparing the two component
/// streams: the shared prefix is dropped, each remaining component of
/// the base becomes a `..`, and the remaining components of the target
/// follow; a `..` in the base past the shared prefix makes the walk
/// impossible.
pub open spec fn spec_diff(a: Seq<CompV>, b: Seq<CompV>, acc: Seq<CompV>) -> Option<Seq<CompV>>
    decreases a.len() + b.len(),
{
    if a.len() == 0 && b.len() == 0 {
        Some(acc)
    } else if a.len() > 0 && b.len() == 0 {
        Some(acc + a)
    } else if a.len() == 0 {
        spec_diff(a, b.skip(1), acc.push(CompV::Parent))
    } else if acc.len() == 0 && a[0] == b[0] {
        spec_diff(a.skip(1), b.skip(1), acc)
    } else if b[0] is Cur {
        spec_diff(a.skip(1), b.skip(1), acc.push(a[0]))
    } else if b[0] is Parent {
        None
    } else {
        Some(acc + Seq::new(b.len() as nat, |x: int| CompV::Parent) + a)
    }
}

/// The string a component list renders to, components joined by `/`.
pub open spec fn spec_join_comps(cs: Seq<CompV>) -> Seq<char>
    decreases cs.len(),
{
    if cs.len() == 0 {
        Seq::empty()
    } else if cs.len() == 1 {
        comp_str(cs[0])
    } else {
        spec_join_comps(cs.drop_last()) + seq!['/'] + comp_str(cs.last())
    }
}

/// The text of one component.
pub open spec fn comp_str(c: CompV) -> Seq<char> {
    match c {
        CompV::Cur => seq!['.'],
        CompV::Parent => seq!['.', '.'],
        CompV::Normal(s) => s,
    }
}

/// The relative path from `base` to `path`: `None` when no walk exists,
/// the unchanged `path` when only it is absolute.
pub open spec fn spec_diff_paths(p: Seq<char>, b: Seq<char>) -> Option<Seq<char>> {
    if spec_is_abs(p) != spec_is_abs(b) {
        if spec_is_abs(p) {
            Some(p)
        } else {
            None
        }
    } else {
        match spec_diff(spec_components(p), spec_components(b), Seq::empty()) {
            Some(cs) => Some(spec_join_comps(cs)),
            None => None,
        }
    }
}

fn comp_eq(x: &Comp, y: &Comp) -> (r: bool)
    ensures
        r == (comp_view(*x) == comp_view(*y)),
{
    match (x, y) {
        (Comp::Cur, Comp::Cur) => true,
        (Comp::Parent, Comp::Parent) => true,
        (Comp::Normal(s1), Comp::Normal(s2)) => s1.eq(s2),
        _ => false,
    }
}

fn comp_clone(c: &Comp) -> (r: Comp)
    ensures
        comp_view(r) == comp_view(*c),
{
    match c {
        Comp::Cur => Comp::Cur,
        Comp::Parent => Comp::Parent,
        Comp::Normal(s) => Comp::Normal(s.clone()),
    }
}

fn join_comps(cs: &Vec<Comp>) -> (r: String)
    ensures
        r@ == spec_join_comps(comps_view(cs@)),
{
    let ghost cv = comps_view(cs@);
    let mut out: Vec<char> = Vec::new();
    let mut i: usize = 0;
    while i < cs.len()
        invariant
            0 <= i <= cs@.len(),
            cv == comps_view(cs@),
            out@ == spec_join_comps(cv.take(i as int)),
        decreases cs@.len() - i,
    {
        let ghost before = out@;
        if i > 0 {
            out.push('/');
        }
        match &cs[i] {
            Comp::Cur => {
                out.push('.');
            },
            Comp::Parent => {
                out.push('.');
                out.push('.');
            },
            Comp::Normal(s) => {
                let piece = str_chars(s.as_str());
                crate::text::push_all(&mut out, &piece);
            },
        }
        proof {
            let tk = cv.take(i + 1 as int);
            assert(tk.drop_last() =~= cv.take(i as int));
            assert(tk.last() == cv[i as int]);
            if i == 0 {
                assert(out@ =~= comp_str(cv[0]));
            } else {
                assert(out@ =~= spec_join_comps(cv.take(i as int)) + seq!['/'] + comp_str(
                    cv[i as int],
                ));
            }
        }
        i = i + 1;
    }
    proof {
        assert(cv.take(cv.len() as int) =~= cv);
    }
    chars_string(&out)
}

/// Constructs the relative path from `base` to `path`; the two are
/// compared component by component, so separators and `.` segments do
/// not matter.
pub fn diff_paths(path: &str, base: &str) -> (r: Option<String>)
    ensures
        match r {
            Some(s) => spec_diff_paths(path@, base@) matches Some(v) && v == s@,
            None => spec_diff_paths(path@, base@) is None,
        },
{
    let (pa, pcs) = parse_components(path);
    let (ba, bcs) = parse_components(base);
    if pa != ba {
        if pa {
            return Some(path.to_owned());
        } else {
            return None;
        }
    }
    let ghost av = comps_view(pcs@);
    let ghost bv = comps_view(bcs@);
    let mut acc: Vec<Comp> = Vec::new();
    let mut ia: usize = 0;
    let mut ib: usize = 0;
    proof {
        assert(av.skip(0) =~= av);
        assert(bv.skip(0) =~= bv);
        assert(comps_view(acc@) =~= Seq::<CompV>::empty());
    }
    loop
        invariant
            0 <= ia <= pcs@.len(),
            0 <= ib <= bcs@.len(),
            av == comps_view(pcs@),
            bv == comps_view(bcs@),
            av == spec_components(path@),
            bv == spec_components(base@),
            spec_is_abs(path@) == spec_is_abs(base@),
            spec_diff(av, bv, Seq::empty()) == spec_diff(
                av.skip(ia as int),
                bv.skip(ib as int),
                comps_view(acc@),
            ),
        decreases pcs@.len() - ia + bcs@.len() - ib,
    {
        let ghost ra = av.skip(ia as int);
        let ghost rb = bv.skip(ib as int);
        proof {
            if ia < pcs@.len() {
                assert(ra[0] == av[ia as int]);
                assert(ra.skip(1) =~= av.skip(ia + 1));
            } else {
                assert(ra =~= Seq::<CompV>::empty());
            }
            if ib < bcs@.len() {
                assert(rb[0] == bv[ib as int]);
                assert(rb.skip(1) =~= bv.skip(ib + 1));
            } else {
                assert(rb =~= Seq::<CompV>::empty());
            }
        }
        if ia == pcs.len() && ib == bcs.len() {
            return Some(join_comps(&acc));
        } else if ia < pcs.len() && ib == bcs.len() {
            let ghost accv0 = comps_view(acc@);
            let mut x: usize = ia;
            while x < pcs.len()
                invariant
                    ia <= x <= pcs@.len(),
                    av == comps_view(pcs@),
                    comps_view(acc@) =~= accv0 + av.subrange(ia as int, x as int),
                decreases pcs@.len() - x,
            {
                let ghost before = acc@;
                acc.push(comp_clone(&pcs[x]));
                proof {
                    assert(comps_view(acc@) =~= comps_view(before).push(av[x as int]));
                    assert(accv0 + av.subrange(ia as int, x + 1 as int) =~= (accv0 + av.subrange(
                        ia as int,
                        x as int,
                    )).push(av[x as int]));
                }
                x = x + 1;
            }
            proof {
                assert(av.subrange(ia as int, av.len() as int) =~= ra);
                assert(comps_view(acc@) =~= accv0 + ra);
            }
            return Some(join_comps(&acc));
        } else if ia == pcs.len() {
            let ghost before = acc@;
            acc.push(Comp::Parent);
            proof {
                assert(comps_view(acc@) =~= comps_view(before).push(CompV::Parent));
            }
            ib = ib + 1;
        } else {
            let empty_acc = acc.len() == 0;
            proof {
                if acc@.len() == 0 {
                    assert(comps_view(acc@) =~= Seq::<CompV>::empty());
                }
            }
            if empty_acc && comp_eq(&pcs[ia], &bcs[ib]) {
                ia = ia + 1;
                ib = ib + 1;
            } else {
                let cur = matches!(&bcs[ib], Comp::Cur);
                let par = matches!(&bcs[ib], Comp::Parent);
                if cur {
                    let ghost before = acc@;
                    acc.push(comp_clone(&pcs[ia]));
                    proof {
                        assert(comps_view(acc@) =~= comps_view(before).push(av[ia as int]));
                    }
                    ia = ia + 1;
                    ib = ib + 1;
                } else if par {
                    return None;
                } else {
                    let ghost accv0 = comps_view(acc@);
                    let n = bcs.len() - ib;
                    let mut cnt: usize = 0;
                    while cnt < n
                        invariant
                            0 <= cnt <= n,
                            comps_view(acc@) =~= accv0 + Seq::new(
                                cnt as nat,
                                |x: int| CompV::Parent,
                            ),
                        decreases n - cnt,
                    {
                        let ghost before = acc@;
                        acc.push(Comp::Parent);
                        proof {
                            assert(comps_view(acc@) =~= comps_view(before).push(CompV::Parent));
                            assert(accv0 + Seq::new((cnt + 1) as nat, |x: int| CompV::Parent)
                                =~= (accv0 + Seq::new(cnt as nat, |x: int| CompV::Parent)).push(
                                CompV::Parent,
                            ));
                        }
                        cnt = cnt + 1;
                    }
                    let ghost accv1 = comps_view(acc@);
                    let mut x: usize = ia;
                    while x < pcs.len()
                        invariant
                            ia <= x <= pcs@.len(),
                            av == comps_view(pcs@),
                            comps_view(acc@) =~= accv1 + av.subrange(ia as int, x as int),
                        decreases pcs@.len() - x,
                    {
                        let ghost before = acc@;
                        acc.push(comp_clone(&pcs[x]));
                        proof {
                            assert(comps_view(acc@) =~= comps_view(before).push(av[x as int]));
                            assert(accv1 + av.subrange(ia as int, x + 1 as int) =~= (accv1
                                + av.subrange(ia as int, x as int)).push(av[x as int]));
                        }
                        x = x + 1;
                    }
                    proof {
                        assert(av.subrange(ia as int, av.len() as int) =~= ra);
                        assert(rb.len() == bcs@.len() - ib);
                        assert(comps_view(acc@) =~= (accv0 + Seq::new(
                            rb.len() as nat,
                            |x: int| CompV::Parent,
                        )) + ra);
                    }
                    return Some(join_comps(&acc));
                }
            }
        }
    }
}

} // verus!
