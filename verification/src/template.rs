//! The template materialization engine.
//!
//! Given the template tree as plain values, the engine walks it and
//! produces the plan of the target project: for each visited node it
//! first applies the filter rule to the node's own filename, pruning a
//! rejected directory with its whole subtree; then renames the path
//! segment when the rename map holds it exactly; and finally either
//! records the target directory, copies the file raw, or renders it
//! with the engine its extension selects, dropping that extension from
//! the target name. The caller reads the tree from disk beforehand and
//! applies the returned actions in order, so every parent directory is
//! recorded before anything inside it.

use vstd::prelude::*;

use crate::config::TemplateConfig;
use crate::config::Filters;
use crate::config::ConfigV;
use crate::config::FiltersV;
use crate::config::config_view;
use crate::config::filters_view;
use crate::config::pairs_view;
use crate::config::strs_view;
use crate::engine::Engine;
use crate::engine::spec_engine_of;
use crate::engine::hbs_render;
use crate::engine::vars_map;
use crate::error::Error;
use crate::error::ErrorKind;
use crate::info::ProjectInfo;
use crate::info::TemplateOptions;
use crate::text::spec_rfind_char;
use crate::text::rfind_char;
use crate::text::str_chars;
use crate::text::chars_string;

verus! {

/// A node of the template tree, carrying its own name. Only files that
/// will be rendered need their content; a raw file is copied from its
/// source path without reading it here.
pub enum FsTree {
    /// A regular file.
    File { name: String, content: String },
    /// A directory with its entries.
    Dir { name: String, entries: Vec<FsTree> },
}

/// One step of the materialization plan. Paths are segment lists
/// relative to the template root (for sources) or the destination root
/// (for targets).
pub enum Action {
    /// Create the target directory, parents first.
    MkDir { path: Vec<String> },
    /// Write rendered content to the target file.
    WriteFile { path: Vec<String>, content: String },
    /// Copy the source file to the target, byte for byte.
    CopyFile { src: Vec<String>, dest: Vec<String> },
}

/// The spec-level form of an action.
pub enum ActionV {
    MkDirV(Seq<Seq<char>>),
    WriteFileV(Seq<Seq<char>>, Seq<char>),
    CopyFileV(Seq<Seq<char>>, Seq<Seq<char>>),
}

/// The spec-level form of an action value.
pub open spec fn action_view(a: Action) -> ActionV {
    match a {
        Action::MkDir { path } => ActionV::MkDirV(strs_view(path@)),
        Action::WriteFile { path, content } => ActionV::WriteFileV(strs_view(path@), content@),
        Action::CopyFile { src, dest } => ActionV::CopyFileV(strs_view(src@), strs_view(dest@)),
    }
}

/// The spec-level form of a plan.
pub open spec fn actions_view(v: Seq<Action>) -> Seq<ActionV> {
    v.map_values(|a: Action| action_view(a))
}

/// The name of a tree node.
pub open spec fn spec_node_name(t: FsTree) -> Seq<char> {
    match t {
        FsTree::File { name, content } => name@,
        FsTree::Dir { name, entries } => name@,
    }
}

/// The configuration names a usable filter rule: one of the two lists
/// is set.
pub open spec fn spec_rule_present(cv: ConfigV) -> bool {
    cv.filters matches Some(f) && (f.keep is Some || f.exclude is Some)
}

/// A filename passes the filter: with an opt-in list, only when the
/// list holds it; with an exclude list, only when the list does not.
pub open spec fn spec_filter_pass(f: FiltersV, name: Seq<char>) -> bool {
    match f.keep {
        Some(ks) => ks.contains(name),
        None => match f.exclude {
            Some(xs) => !xs.contains(name),
            None => true,
        },
    }
}

fn list_contains(v: &Vec<String>, name: &String) -> (r: bool)
    ensures
        r == strs_view(v@).contains(name@),
{
    let mut i: usize = 0;
    while i < v.len()
        invariant
            0 <= i <= v@.len(),
            forall|j: int| 0 <= j < i ==> strs_view(v@)[j] != name@,
        decreases v@.len() - i,
    {
        if v[i].eq(name) {
            proof {
                assert(strs_view(v@)[i as int] == name@);
            }
            return true;
        }
        proof {
            assert(strs_view(v@)[i as int] == v@[i as int]@);
        }
        i = i + 1;
    }
    proof {
        assert(!strs_view(v@).contains(name@)) by {
            if strs_view(v@).contains(name@) {
                let j = choose|j: int| 0 <= j < strs_view(v@).len() && strs_view(v@)[j] == name@;
                assert(strs_view(v@)[j] != name@);
            }
        }
    }
    false
}

/// Whether the filter rule lets a filename through.
fn filter_pass(f: &Filters, name: &String) -> (r: bool)
    requires
        f.keep is Some || f.exclude is Some,
    ensures
        r == spec_filter_pass(filters_view(*f), name@),
{
    match &f.keep {
        Some(ks) => list_contains(ks, name),
        None => {
            match &f.exclude {
                Some(xs) => !list_contains(xs, name),
                None => false,
            }
        },
    }
}

/// The value the rename map gives a key, if it holds the key.
pub open spec fn spec_lookup(m: Seq<(Seq<char>, Seq<char>)>, k: Seq<char>) -> Option<Seq<char>>
    decreases m.len(),
{
    if m.len() == 0 {
        None
    } else if m[0].0 == k {
        Some(m[0].1)
    } else {
        spec_lookup(m.skip(1), k)
    }
}

/// What a path segment is renamed to: the mapped value when a rename
/// key equals the segment exactly, the segment itself otherwise.
pub open spec fn spec_rename_seg(ren: Option<Seq<(Seq<char>, Seq<char>)>>, seg: Seq<char>) -> Seq<
    char,
> {
    match ren {
        Some(m) => match spec_lookup(m, seg) {
            Some(v) => v,
            None => seg,
        },
        None => seg,
    }
}

#[verifier::loop_isolation(false)]
fn lookup(m: &Vec<(String, String)>, k: &String) -> (r: Option<String>)
    ensures
        match r {
            Some(v) => spec_lookup(pairs_view(m@), k@) == Some(v@),
            None => spec_lookup(pairs_view(m@), k@) is None,
        },
{
    let ghost pv = pairs_view(m@);
    let mut i: usize = 0;
    proof {
        assert(pv.skip(0) =~= pv);
    }
    while i < m.len()
        invariant
            0 <= i <= m@.len(),
            spec_lookup(pv, k@) == spec_lookup(pv.skip(i as int), k@),
        decreases m@.len() - i,
    {
        proof {
            assert(pv.skip(i as int)[0] == pv[i as int]);
            assert(pv.skip(i as int).skip(1) =~= pv.skip(i + 1));
            assert(pv[i as int] == (m@[i as int].0@, m@[i as int].1@));
        }
        if m[i].0.eq(k) {
            return Some(m[i].1.clone());
        }
        i = i + 1;
    }
    proof {
        assert(pv.skip(m@.len() as int) =~= Seq::<(Seq<char>, Seq<char>)>::empty());
    }
    None
}

/// Renames one path segment against the rename map.
fn rename_segment(ren: &Option<Vec<(String, String)>>, seg: &String) -> (r: String)
    ensures
        r@ == spec_rename_seg(
            match *ren {
                Some(m) => Some(pairs_view(m@)),
                None => None,
            },
            seg@,
        ),
{
    match ren {
        Some(m) => {
            match lookup(m, seg) {
                Some(v) => v,
                None => seg.clone(),
            }
        },
        None => seg.clone(),
    }
}

/// The extension of a filename: what follows the last `.`, provided
/// the dot is not the leading character.
pub open spec fn spec_ext_of(name: Seq<char>) -> Option<Seq<char>> {
    match spec_rfind_char(name, '.') {
        Some(j) => if j > 0 {
            Some(name.skip(j + 1))
        } else {
            None
        },
        None => None,
    }
}

/// The filename with its extension dropped, when it has one.
pub open spec fn spec_strip_ext(name: Seq<char>) -> Seq<char> {
    match spec_rfind_char(name, '.') {
        Some(j) => if j > 0 {
            name.subrange(0, j)
        } else {
            name
        },
        None => name,
    }
}

/// The engine a filename's extension selects; a file with no extension
/// is copied raw.
pub open spec fn spec_engine_for(name: Seq<char>) -> Engine {
    match spec_ext_of(name) {
        Some(x) => spec_engine_of(x),
        None => Engine::Raw,
    }
}

/// Selects the engine for a filename.
#[verifier::loop_isolation(false)]
fn engine_for(name: &String) -> (e: Engine)
    ensures
        e == spec_engine_for(name@),
{
    let cs = str_chars(name.as_str());
    match rfind_char(&cs, '.') {
        Some(j) => {
            if j == 0 {
                Engine::Raw
            } else {
                let n = cs.len();
                proof {
                    crate::text::lemma_rfind_char_bounds(cs@, '.');
                    assert(j < n);
                }
                let mut ext: Vec<char> = Vec::new();
                let mut x: usize = j + 1;
                while x < cs.len()
                    invariant
                        j + 1 <= x <= cs@.len(),
                        ext@ == cs@.subrange(j + 1 as int, x as int),
                    decreases cs@.len() - x,
                {
                    ext.push(cs[x]);
                    proof {
                        assert(cs@.subrange(j + 1 as int, x + 1 as int) =~= cs@.subrange(
                            j + 1 as int,
                            x as int,
                        ).push(cs@[x as int]));
                    }
                    x = x + 1;
                }
                proof {
                    assert(ext@ =~= cs@.skip(j + 1));
                }
                let exts = chars_string(&ext);
                Engine::new(exts.as_str())
            }
        },
        None => Engine::Raw,
    }
}

/// Drops the extension from a filename.
#[verifier::loop_isolation(false)]
pub(crate) fn strip_ext(name: &String) -> (r: String)
    ensures
        r@ == spec_strip_ext(name@),
{
    let cs = str_chars(name.as_str());
    match rfind_char(&cs, '.') {
        Some(j) => {
            if j == 0 {
                name.clone()
            } else {
                let mut stem: Vec<char> = Vec::new();
                let mut x: usize = 0;
                proof {
                    crate::text::lemma_rfind_char_bounds(cs@, '.');
                    assert(stem@ =~= cs@.subrange(0, 0));
                }
                while x < j
                    invariant
                        0 <= x <= j <= cs@.len(),
                        stem@ == cs@.subrange(0, x as int),
                    decreases j - x,
                {
                    stem.push(cs[x]);
                    proof {
                        assert(cs@.subrange(0, x + 1 as int) =~= cs@.subrange(0, x as int).push(
                            cs@[x as int],
                        ));
                    }
                    x = x + 1;
                }
                chars_string(&stem)
            }
        },
        None => name.clone(),
    }
}

/// The variable pairs of a configuration; none means an empty mapping.
pub open spec fn spec_vars(cv: ConfigV) -> Seq<(Seq<char>, Seq<char>)> {
    match cv.variables {
        Some(v) => v,
        None => Seq::empty(),
    }
}

/// The plan one node may contribute. A node whose filename the filter
/// rejects contributes nothing at all. A surviving directory records
/// its (renamed) target first and its subtree after; a surviving file
/// is copied raw, or rendered by the engine its extension selects,
/// with the extension dropped from its (renamed) target name. This is
/// a relation, not a function: a Handlebars result is pinned to the
/// named strict render, while Liquid output may depend on more than
/// the template and the variables (its standard filters can read the
/// clock), so of a Liquid file only the target path is pinned and the
/// written text is left open.
pub open spec fn node_plan_ok(
    t: FsTree,
    cv: ConfigV,
    srcp: Seq<Seq<char>>,
    dstp: Seq<Seq<char>>,
    acts: Seq<ActionV>,
) -> bool
    decreases t,
{
    if !spec_filter_pass(cv.filters->0, spec_node_name(t)) {
        acts.len() == 0
    } else {
        match t {
            FsTree::Dir { name, entries } => {
                let newseg = spec_rename_seg(cv.rename, name@);
                acts.len() >= 1 && acts[0] == ActionV::MkDirV(dstp.push(newseg))
                    && forest_plan_ok(
                    entries@,
                    cv,
                    srcp.push(name@),
                    dstp.push(newseg),
                    acts.skip(1),
                )
            },
            FsTree::File { name, content } => {
                let newseg = spec_rename_seg(cv.rename, name@);
                match spec_engine_for(name@) {
                    Engine::Raw => acts =~= seq![
                        ActionV::CopyFileV(srcp.push(name@), dstp.push(newseg)),
                    ],
                    Engine::Handlebars => hbs_render(content@, vars_map(spec_vars(cv))) matches Some(s)
                        && acts =~= seq![
                        ActionV::WriteFileV(dstp.push(spec_strip_ext(newseg)), s),
                    ],
                    Engine::Liquid => acts.len() == 1 && (acts[0] matches ActionV::WriteFileV(
                        p,
                        c,
                    ) && p == dstp.push(spec_strip_ext(newseg))),
                }
            },
        }
    }
}

/// The plan a list of sibling nodes may contribute: each node's
/// contribution in order, nothing else.
pub open spec fn forest_plan_ok(
    ts: Seq<FsTree>,
    cv: ConfigV,
    srcp: Seq<Seq<char>>,
    dstp: Seq<Seq<char>>,
    acts: Seq<ActionV>,
) -> bool
    decreases ts,
{
    if ts.len() == 0 {
        acts.len() == 0
    } else {
        exists|k: int|
            0 <= k <= acts.len() && node_plan_ok(ts[0], cv, srcp, dstp, #[trigger] acts.take(k))
                && forest_plan_ok(ts.skip(1), cv, srcp, dstp, acts.skip(k))
    }
}

/// A node on which the walk is allowed to fail: a surviving Handlebars
/// file whose named render has no result, any surviving Liquid file
/// (whose engine decides by itself), or a surviving directory holding
/// such a node.
pub open spec fn node_may_fail(t: FsTree, cv: ConfigV) -> bool
    decreases t,
{
    spec_filter_pass(cv.filters->0, spec_node_name(t)) && match t {
        FsTree::Dir { name, entries } => forest_may_fail(entries@, cv),
        FsTree::File { name, content } => match spec_engine_for(name@) {
            Engine::Raw => false,
            Engine::Handlebars => hbs_render(content@, vars_map(spec_vars(cv))) is None,
            Engine::Liquid => true,
        },
    }
}

/// A sibling list on which the walk is allowed to fail.
pub open spec fn forest_may_fail(ts: Seq<FsTree>, cv: ConfigV) -> bool
    decreases ts,
{
    if ts.len() == 0 {
        false
    } else {
        node_may_fail(ts[0], cv) || forest_may_fail(ts.skip(1), cv)
    }
}

proof fn lemma_forest_may_fail_at(ts: Seq<FsTree>, cv: ConfigV, i: int)
    requires
        0 <= i < ts.len(),
        node_may_fail(ts[i], cv),
    ensures
        forest_may_fail(ts, cv),
    decreases i,
{
    if i > 0 {
        assert(ts.skip(1)[i - 1] == ts[i]);
        lemma_forest_may_fail_at(ts.skip(1), cv, i - 1);
    }
}

/// A plan for one more sibling extends a plan for the list before it.
proof fn lemma_forest_plan_snoc(
    ts: Seq<FsTree>,
    cv: ConfigV,
    srcp: Seq<Seq<char>>,
    dstp: Seq<Seq<char>>,
    acts1: Seq<ActionV>,
    x: FsTree,
    acts2: Seq<ActionV>,
)
    requires
        forest_plan_ok(ts, cv, srcp, dstp, acts1),
        node_plan_ok(x, cv, srcp, dstp, acts2),
    ensures
        forest_plan_ok(ts.push(x), cv, srcp, dstp, acts1 + acts2),
    decreases ts.len(),
{
    let whole = acts1 + acts2;
    if ts.len() == 0 {
        assert(whole.take(acts2.len() as int) =~= acts2);
        assert(node_plan_ok(x, cv, srcp, dstp, whole.take(acts2.len() as int)));
        assert(ts.push(x)[0] == x);
        assert(ts.push(x).skip(1) =~= Seq::<FsTree>::empty());
        assert(whole.skip(acts2.len() as int).len() == 0);
        assert(forest_plan_ok(ts.push(x).skip(1), cv, srcp, dstp, whole.skip(
            acts2.len() as int,
        )));
    } else {
        let k0 = choose|k: int|
            0 <= k <= acts1.len() && node_plan_ok(ts[0], cv, srcp, dstp, #[trigger] acts1.take(k))
                && forest_plan_ok(ts.skip(1), cv, srcp, dstp, acts1.skip(k));
        lemma_forest_plan_snoc(ts.skip(1), cv, srcp, dstp, acts1.skip(k0), x, acts2);
        assert(whole.take(k0) =~= acts1.take(k0));
        assert(whole.skip(k0) =~= acts1.skip(k0) + acts2);
        assert(ts.push(x)[0] == ts[0]);
        assert(ts.push(x).skip(1) =~= ts.skip(1).push(x));
        assert(node_plan_ok(ts.push(x)[0], cv, srcp, dstp, whole.take(k0)));
        assert(forest_plan_ok(ts.push(x).skip(1), cv, srcp, dstp, whole.skip(k0)));
    }
}

/// The destination path an action touches.
pub open spec fn action_target(a: ActionV) -> Seq<Seq<char>> {
    match a {
        ActionV::MkDirV(p) => p,
        ActionV::WriteFileV(p, c) => p,
        ActionV::CopyFileV(s, d) => d,
    }
}

/// Every action of a node's plan targets at or below the destination
/// prefix the node is materialized under. With the plan applied in
/// order, a directory's own action therefore precedes everything
/// written inside it.
pub proof fn lemma_node_plan_under_prefix(
    t: FsTree,
    cv: ConfigV,
    srcp: Seq<Seq<char>>,
    dstp: Seq<Seq<char>>,
    acts: Seq<ActionV>,
)
    requires
        node_plan_ok(t, cv, srcp, dstp, acts),
    ensures
        forall|i: int| 0 <= i < acts.len() ==> dstp.is_prefix_of(action_target(
            #[trigger] acts[i],
        )),
    decreases t,
{
    if !spec_filter_pass(cv.filters->0, spec_node_name(t)) {
    } else {
        match t {
            FsTree::Dir { name, entries } => {
                let newseg = spec_rename_seg(cv.rename, name@);
                let inner = dstp.push(newseg);
                lemma_forest_plan_under_prefix(
                    entries@,
                    cv,
                    srcp.push(name@),
                    inner,
                    acts.skip(1),
                );
                assert(dstp.is_prefix_of(inner)) by {
                    assert(inner.subrange(0, dstp.len() as int) =~= dstp);
                }
                assert forall|i: int| 0 <= i < acts.len() implies dstp.is_prefix_of(
                    action_target(#[trigger] acts[i]),
                ) by {
                    if i > 0 {
                        assert(acts[i] == acts.skip(1)[i - 1]);
                        let tgt = action_target(acts.skip(1)[i - 1]);
                        assert(inner.is_prefix_of(tgt));
                        assert(tgt.subrange(0, dstp.len() as int) =~= dstp) by {
                            assert(tgt.subrange(0, inner.len() as int) =~= inner);
                        }
                    }
                }
            },
            FsTree::File { name, content } => {
                assert forall|i: int| 0 <= i < acts.len() implies dstp.is_prefix_of(
                    action_target(#[trigger] acts[i]),
                ) by {
                    let tgt = action_target(acts[i]);
                    assert(tgt.subrange(0, dstp.len() as int) =~= dstp);
                }
            },
        }
    }
}

/// Every action of a sibling list's plan targets at or below the
/// destination prefix the list is materialized under.
pub proof fn lemma_forest_plan_under_prefix(
    ts: Seq<FsTree>,
    cv: ConfigV,
    srcp: Seq<Seq<char>>,
    dstp: Seq<Seq<char>>,
    acts: Seq<ActionV>,
)
    requires
        forest_plan_ok(ts, cv, srcp, dstp, acts),
    ensures
        forall|i: int| 0 <= i < acts.len() ==> dstp.is_prefix_of(action_target(
            #[trigger] acts[i],
        )),
    decreases ts,
{
    if ts.len() > 0 {
        let k = choose|k: int|
            0 <= k <= acts.len() && node_plan_ok(ts[0], cv, srcp, dstp, #[trigger] acts.take(k))
                && forest_plan_ok(ts.skip(1), cv, srcp, dstp, acts.skip(k));
        lemma_node_plan_under_prefix(ts[0], cv, srcp, dstp, acts.take(k));
        lemma_forest_plan_under_prefix(ts.skip(1), cv, srcp, dstp, acts.skip(k));
        assert forall|i: int| 0 <= i < acts.len() implies dstp.is_prefix_of(
            action_target(#[trigger] acts[i]),
        ) by {
            if i < k {
                assert(acts[i] == acts.take(k)[i]);
            } else {
                assert(acts[i] == acts.skip(k)[i - k]);
            }
        }
    }
}

/// A node whose filename the filter rejects contributes nothing to the
/// plan: the walk prunes the whole subtree, whatever it holds, rather
/// than skipping its files one by one.
pub proof fn lemma_filtered_node_pruned(
    t: FsTree,
    cv: ConfigV,
    srcp: Seq<Seq<char>>,
    dstp: Seq<Seq<char>>,
    acts: Seq<ActionV>,
)
    requires
        !spec_filter_pass(cv.filters->0, spec_node_name(t)),
        node_plan_ok(t, cv, srcp, dstp, acts),
    ensures
        acts == Seq::<ActionV>::empty(),
{
    assert(acts =~= Seq::<ActionV>::empty());
}

pub(crate) fn clone_strs(p: &Vec<String>) -> (r: Vec<String>)
    ensures
        strs_view(r@) == strs_view(p@),
{
    let mut out: Vec<String> = Vec::new();
    let mut i: usize = 0;
    while i < p.len()
        invariant
            0 <= i <= p@.len(),
            strs_view(out@) =~= strs_view(p@).subrange(0, i as int),
        decreases p@.len() - i,
    {
        let ghost before = out@;
        out.push(p[i].clone());
        proof {
            assert(strs_view(out@) =~= strs_view(before).push(p@[i as int]@));
            assert(strs_view(p@).subrange(0, i + 1 as int) =~= strs_view(p@).subrange(
                0,
                i as int,
            ).push(strs_view(p@)[i as int]));
        }
        i = i + 1;
    }
    proof {
        assert(strs_view(p@).subrange(0, p@.len() as int) =~= strs_view(p@));
    }
    out
}

pub(crate) fn clone_push(p: &Vec<String>, s: String) -> (r: Vec<String>)
    ensures
        strs_view(r@) == strs_view(p@).push(s@),
{
    let mut out = clone_strs(p);
    let ghost before = out@;
    out.push(s);
    proof {
        assert(strs_view(out@) =~= strs_view(before).push(s@));
    }
    out
}

/// The plan one node contributes.
#[verifier::loop_isolation(false)]
fn node_actions(t: &FsTree, cfg: &TemplateConfig, srcp: &Vec<String>, dstp: &Vec<String>) -> (r:
    Result<Vec<Action>, Error>)
    requires
        spec_rule_present(config_view(*cfg)),
    ensures
        r matches Ok(v) ==> node_plan_ok(
            *t,
            config_view(*cfg),
            strs_view(srcp@),
            strs_view(dstp@),
            actions_view(v@),
        ),
        r matches Err(e) ==> e.kind_spec() == ErrorKind::TemplatingEngine && node_may_fail(
            *t,
            config_view(*cfg),
        ),
    decreases *t,
{
    let ghost cv = config_view(*cfg);
    let name_ref: &String = match t {
        FsTree::File { name, content } => name,
        FsTree::Dir { name, entries } => name,
    };
    let passes: bool = match &cfg.filters {
        Some(f) => filter_pass(f, name_ref),
        None => {
            proof {
                assert(false);
            }
            false
        },
    };
    if !passes {
        let out: Vec<Action> = Vec::new();
        proof {
            assert(actions_view(out@) =~= Seq::<ActionV>::empty());
        }
        return Ok(out);
    }
    let newseg = rename_segment(&cfg.rename, name_ref);
    match t {
        FsTree::Dir { name, entries } => {
            let src2 = clone_push(srcp, name.clone());
            let dst2 = clone_push(dstp, newseg);
            match forest_actions(entries, cfg, &src2, &dst2) {
                Ok(mut rest) => {
                    let mut out: Vec<Action> = Vec::new();
                    out.push(Action::MkDir { path: clone_strs(&dst2) });
                    let ghost mid = out@;
                    let ghost restv = rest@;
                    out.append(&mut rest);
                    proof {
                        let acts = actions_view(out@);
                        assert(acts =~= actions_view(mid) + actions_view(restv));
                        assert(acts[0] == ActionV::MkDirV(strs_view(dstp@).push(spec_rename_seg(
                            cv.rename,
                            name@,
                        ))));
                        assert(acts.skip(1) =~= actions_view(restv));
                    }
                    Ok(out)
                },
                Err(e) => Err(e),
            }
        },
        FsTree::File { name, content } => {
            let eng = engine_for(name);
            match eng {
                Engine::Raw => {
                    let mut out: Vec<Action> = Vec::new();
                    let src2 = clone_push(srcp, name.clone());
                    let dst2 = clone_push(dstp, newseg);
                    out.push(Action::CopyFile { src: src2, dest: dst2 });
                    proof {
                        assert(actions_view(out@) =~= seq![
                            ActionV::CopyFileV(
                                strs_view(srcp@).push(name@),
                                strs_view(dstp@).push(spec_rename_seg(cv.rename, name@)),
                            ),
                        ]);
                    }
                    Ok(out)
                },
                _ => {
                    let empty_vars: Vec<(String, String)> = Vec::new();
                    let vars_ref: &Vec<(String, String)> = match &cfg.variables {
                        Some(v) => v,
                        None => &empty_vars,
                    };
                    proof {
                        if cfg.variables is None {
                            assert(pairs_view(empty_vars@) =~= Seq::<(Seq<char>, Seq<char>)>::empty());
                        }
                        assert(pairs_view(vars_ref@) == spec_vars(cv));
                    }
                    match eng.render(content.as_str(), vars_ref) {
                        Ok(Some(s)) => {
                            let mut out: Vec<Action> = Vec::new();
                            let target = clone_push(dstp, strip_ext(&newseg));
                            out.push(Action::WriteFile { path: target, content: s });
                            proof {
                                assert(actions_view(out@) =~= seq![
                                    ActionV::WriteFileV(
                                        strs_view(dstp@).push(spec_strip_ext(spec_rename_seg(
                                            cv.rename,
                                            name@,
                                        ))),
                                        out@[0]->WriteFile_content@,
                                    ),
                                ]);
                            }
                            Ok(out)
                        },
                        Ok(None) => {
                            proof {
                                assert(false);
                            }
                            Err(Error::new(ErrorKind::TemplatingEngine, "unreachable"))
                        },
                        Err(e) => {
                            proof {
                                assert(node_may_fail(*t, cv));
                            }
                            Err(e)
                        },
                    }
                },
            }
        },
    }
}

/// The plan a list of sibling nodes contributes.
#[verifier::loop_isolation(false)]
fn forest_actions(
    ts: &Vec<FsTree>,
    cfg: &TemplateConfig,
    srcp: &Vec<String>,
    dstp: &Vec<String>,
) -> (r: Result<Vec<Action>, Error>)
    requires
        spec_rule_present(config_view(*cfg)),
    ensures
        r matches Ok(v) ==> forest_plan_ok(
            ts@,
            config_view(*cfg),
            strs_view(srcp@),
            strs_view(dstp@),
            actions_view(v@),
        ),
        r matches Err(e) ==> e.kind_spec() == ErrorKind::TemplatingEngine && forest_may_fail(
            ts@,
            config_view(*cfg),
        ),
    decreases ts@,
{
    let ghost cv = config_view(*cfg);
    let ghost sp = strs_view(srcp@);
    let ghost dp = strs_view(dstp@);
    let mut out: Vec<Action> = Vec::new();
    let mut i: usize = 0;
    proof {
        assert(actions_view(out@) =~= Seq::<ActionV>::empty());
        assert(ts@.take(0).len() == 0);
    }
    while i < ts.len()
        invariant
            0 <= i <= ts@.len(),
            forest_plan_ok(ts@.take(i as int), cv, sp, dp, actions_view(out@)),
        decreases ts@.len() - i,
    {
        match node_actions(&ts[i], cfg, srcp, dstp) {
            Ok(mut a) => {
                let ghost before = out@;
                let ghost av = a@;
                out.append(&mut a);
                proof {
                    assert(actions_view(out@) =~= actions_view(before) + actions_view(av));
                    lemma_forest_plan_snoc(
                        ts@.take(i as int),
                        cv,
                        sp,
                        dp,
                        actions_view(before),
                        ts@[i as int],
                        actions_view(av),
                    );
                    assert(ts@.take(i as int).push(ts@[i as int]) =~= ts@.take(i + 1));
                }
                i = i + 1;
            },
            Err(e) => {
                proof {
                    lemma_forest_may_fail_at(ts@, cv, i as int);
                }
                return Err(e);
            },
        }
    }
    proof {
        assert(ts@.take(ts@.len() as int) =~= ts@);
    }
    Ok(out)
}

/// The template, the loaded configuration, and the project it
/// materializes into.
pub struct TemplateMeta {
    /// Where the template comes from.
    pub template_options: TemplateOptions,
    /// The loaded configuration.
    pub config: TemplateConfig,
    /// The target project.
    pub project_info: ProjectInfo,
}

/// Builds and generates the project plan from a template.
pub struct Template {
    /// The template's parts.
    pub template: TemplateMeta,
}

impl Template {
    /// Puts a loaded template together. The caller resolves the source,
    /// stages a remote clone, and loads the descriptor beforehand.
    pub fn new(
        project_info: ProjectInfo,
        template_options: TemplateOptions,
        config: TemplateConfig,
    ) -> (t: Template)
        ensures
            t.template.project_info == project_info,
            t.template.template_options == template_options,
            t.template.config == config,
    {
        Template { template: TemplateMeta { template_options, config, project_info } }
    }

    /// The materialization plan for the template tree: the walk of the
    /// whole tree with filtering, renaming and rendering applied, as
    /// one action list whose parents precede their children. A
    /// `TemplatingEngine` error may come only from a render the engines
    /// are allowed to fail: on a tree where none can (no surviving
    /// Liquid file, every surviving Handlebars render named
    /// successful), the plan is owed.
    pub fn generate(&self, tree: &Vec<FsTree>) -> (r: Result<Vec<Action>, Error>)
        requires
            spec_rule_present(config_view(self.template.config)),
        ensures
            r matches Ok(v) ==> forest_plan_ok(
                tree@,
                config_view(self.template.config),
                Seq::empty(),
                Seq::empty(),
                actions_view(v@),
            ),
            r matches Err(e) ==> e.kind_spec() == ErrorKind::TemplatingEngine
                && forest_may_fail(tree@, config_view(self.template.config)),
    {
        let src_root: Vec<String> = Vec::new();
        let dst_root: Vec<String> = Vec::new();
        proof {
            assert(strs_view(src_root@) =~= Seq::<Seq<char>>::empty());
            assert(strs_view(dst_root@) =~= Seq::<Seq<char>>::empty());
        }
        forest_actions(tree, &self.template.config, &src_root, &dst_root)
    }
}

} // verus!
