//! A scaffolding front over the Handlebars engine.
//!
//! A `Guidon` carries a template directory, a variable mapping and two
//! switches: whether the file structure lives in a `template`
//! subdirectory of the given path (`template_root` answers with the
//! directory to read), and whether rendering is strict or lax.
//! `apply_to_tree` walks a template tree rendering every entry name
//! against the variables — a file whose rendered name ends in `hbs` is
//! itself rendered and written with that suffix's extension dropped,
//! anything else is copied — and `convert_file_name` renders one name
//! alone. The render-callback retry loop is driven by the caller: it
//! renders, extracts the missing key of a strict failure with
//! `missing_variable`, supplies a value for it, and renders again.

use vstd::prelude::*;

use crate::config::pairs_view;
use crate::config::spec_parse_descriptor;
use crate::engine::hbs_render;
use crate::engine::hbs_render_lax;
use crate::engine::render_hbs_raw;
use crate::engine::render_hbs_lax_raw;
use crate::engine::vars_map;
use crate::error::Error;
use crate::error::ErrorKind;
use crate::template::Action;
use crate::template::ActionV;
use crate::template::FsTree;
use crate::template::actions_view;
use crate::template::action_view;
use crate::template::spec_node_name;
use crate::template::spec_strip_ext;
use crate::template::clone_push;
use crate::template::clone_strs;
use crate::template::strip_ext;
use crate::config::strs_view;
use crate::text::str_chars;
use crate::text::chars_string;
use crate::text::spec_split;
use crate::text::split_chars;
use crate::text::seq_views;

verus! {

/// The scaffolding configuration.
pub struct Guidon {
    /// The base directory of the template.
    pub path: String,
    /// The file structure is taken from the given path itself rather
    /// than from its `template` subdirectory.
    pub no_template_dir: bool,
    /// Missing variables render as empty strings instead of failing.
    pub use_lax_mode: bool,
    /// The substitution variables.
    pub variables: Vec<(String, String)>,
}

/// What rendering a name or content returns under the given mode:
/// the named strict render, or the named lax render.
pub open spec fn spec_mode_render(tpl: Seq<char>, vars: Map<Seq<char>, Seq<char>>, lax: bool) -> Option<
    Seq<char>,
> {
    if lax {
        hbs_render_lax(tpl, vars)
    } else {
        hbs_render(tpl, vars)
    }
}

/// The rendered name marks the entry as a template source: it ends in
/// the three characters `hbs`.
pub open spec fn spec_ends_hbs(n: Seq<char>) -> bool {
    n.len() >= 3 && n.subrange(n.len() - 3, n.len() as int) =~= "hbs"@
}

/// The plan one node contributes under a scaffolding configuration:
/// its name is rendered against the variables; a directory records its
/// rendered target and recurses; a file whose rendered name ends in
/// `hbs` is rendered and written to that name with the extension
/// dropped; any other file is copied to its rendered name. A name that
/// fails to render is an `Error`; content that fails to render is a
/// `TemplatingEngine` error.
pub open spec fn spec_guidon_node(
    t: FsTree,
    vars: Seq<(Seq<char>, Seq<char>)>,
    lax: bool,
    srcp: Seq<Seq<char>>,
    dstp: Seq<Seq<char>>,
) -> Result<Seq<ActionV>, ErrorKind>
    decreases t,
{
    match spec_mode_render(spec_node_name(t), vars_map(vars), lax) {
        None => Err(ErrorKind::Error),
        Some(n2) => match t {
            FsTree::Dir { name, entries } => {
                match spec_guidon_forest(entries@, vars, lax, srcp.push(name@), dstp.push(n2)) {
                    Ok(rest) => Ok(seq![ActionV::MkDirV(dstp.push(n2))] + rest),
                    Err(k) => Err(k),
                }
            },
            FsTree::File { name, content } => {
                if spec_ends_hbs(n2) {
                    match spec_mode_render(content@, vars_map(vars), lax) {
                        Some(c) => Ok(
                            seq![ActionV::WriteFileV(dstp.push(spec_strip_ext(n2)), c)],
                        ),
                        None => Err(ErrorKind::TemplatingEngine),
                    }
                } else {
                    Ok(seq![ActionV::CopyFileV(srcp.push(name@), dstp.push(n2))])
                }
            },
        },
    }
}

/// The plan a list of sibling nodes contributes, in order; the first
/// failure fails the run.
pub open spec fn spec_guidon_forest(
    ts: Seq<FsTree>,
    vars: Seq<(Seq<char>, Seq<char>)>,
    lax: bool,
    srcp: Seq<Seq<char>>,
    dstp: Seq<Seq<char>>,
) -> Result<Seq<ActionV>, ErrorKind>
    decreases ts,
{
    if ts.len() == 0 {
        Ok(Seq::empty())
    } else {
        match spec_guidon_node(ts[0], vars, lax, srcp, dstp) {
            Ok(a) => match spec_guidon_forest(ts.skip(1), vars, lax, srcp, dstp) {
                Ok(b) => Ok(a + b),
                Err(k) => Err(k),
            },
            Err(k) => Err(k),
        }
    }
}

/// Renders one entry name under the given mode, with the error kind
/// name rendering fails with.
fn render_name(name: &str, vars: &Vec<(String, String)>, lax: bool) -> (r: Result<String, Error>)
    ensures
        match spec_mode_render(name@, vars_map(pairs_view(vars@)), lax) {
            Some(s) => (r matches Ok(o) && o@ == s),
            None => (r matches Err(e) && e.kind_spec() == ErrorKind::Error),
        },
{
    let rendered = if lax {
        render_hbs_lax_raw(name, vars)
    } else {
        render_hbs_raw(name, vars)
    };
    match rendered {
        Ok(s) => Ok(s),
        Err(m) => Err(Error::new(ErrorKind::Error, m.as_str())),
    }
}

/// The plan one node contributes.
#[verifier::loop_isolation(false)]
fn guidon_node(
    t: &FsTree,
    vars: &Vec<(String, String)>,
    lax: bool,
    srcp: &Vec<String>,
    dstp: &Vec<String>,
) -> (r: Result<Vec<Action>, Error>)
    ensures
        match spec_guidon_node(*t, pairs_view(vars@), lax, strs_view(srcp@), strs_view(dstp@)) {
            Ok(acts) => (r matches Ok(v) && actions_view(v@) == acts),
            Err(k) => (r matches Err(e) && e.kind_spec() == k),
        },
    decreases *t,
{
    let name_ref: &String = match t {
        FsTree::File { name, content } => name,
        FsTree::Dir { name, entries } => name,
    };
    let n2 = match render_name(name_ref.as_str(), vars, lax) {
        Ok(s) => s,
        Err(e) => {
            return Err(e);
        },
    };
    match t {
        FsTree::Dir { name, entries } => {
            let src2 = clone_push(srcp, name.clone());
            let dst2 = clone_push(dstp, n2);
            match guidon_forest(entries, vars, lax, &src2, &dst2) {
                Ok(mut rest) => {
                    let mut out: Vec<Action> = Vec::new();
                    out.push(Action::MkDir { path: clone_strs(&dst2) });
                    let ghost mid = out@;
                    let ghost restv = rest@;
                    out.append(&mut rest);
                    proof {
                        assert(actions_view(out@) =~= actions_view(mid) + actions_view(restv));
                    }
                    Ok(out)
                },
                Err(e) => Err(e),
            }
        },
        FsTree::File { name, content } => {
            let n2chars = str_chars(n2.as_str());
            let hbs = str_chars("hbs");
            let is_tpl = n2chars.len() >= 3 && crate::text::match_at(
                &n2chars,
                &hbs,
                n2chars.len() - 3,
            );
            proof {
                reveal_strlit("hbs");
                assert(is_tpl == spec_ends_hbs(n2@));
            }
            if is_tpl {
                let rendered = if lax {
                    render_hbs_lax_raw(content.as_str(), vars)
                } else {
                    render_hbs_raw(content.as_str(), vars)
                };
                match rendered {
                    Ok(c) => {
                        let mut out: Vec<Action> = Vec::new();
                        let target = clone_push(dstp, strip_ext(&n2));
                        out.push(Action::WriteFile { path: target, content: c });
                        proof {
                            assert(actions_view(out@) =~= seq![action_view(out@[0])]);
                        }
                        Ok(out)
                    },
                    Err(m) => Err(Error::new(ErrorKind::TemplatingEngine, m.as_str())),
                }
            } else {
                let mut out: Vec<Action> = Vec::new();
                let src2 = clone_push(srcp, name.clone());
                let dst2 = clone_push(dstp, n2);
                out.push(Action::CopyFile { src: src2, dest: dst2 });
                proof {
                    assert(actions_view(out@) =~= seq![action_view(out@[0])]);
                }
                Ok(out)
            }
        },
    }
}

/// The plan a list of sibling nodes contributes.
#[verifier::loop_isolation(false)]
fn guidon_forest(
    ts: &Vec<FsTree>,
    vars: &Vec<(String, String)>,
    lax: bool,
    srcp: &Vec<String>,
    dstp: &Vec<String>,
) -> (r: Result<Vec<Action>, Error>)
    ensures
        match spec_guidon_forest(ts@, pairs_view(vars@), lax, strs_view(srcp@), strs_view(dstp@)) {
            Ok(acts) => (r matches Ok(v) && actions_view(v@) == acts),
            Err(k) => (r matches Err(e) && e.kind_spec() == k),
        },
    decreases ts@,
{
    let ghost vv = pairs_view(vars@);
    let ghost sp = strs_view(srcp@);
    let ghost dp = strs_view(dstp@);
    let mut out: Vec<Action> = Vec::new();
    let mut i: usize = 0;
    proof {
        assert(ts@.skip(0) =~= ts@);
        assert(actions_view(out@) =~= Seq::<ActionV>::empty());
    }
    while i < ts.len()
        invariant
            0 <= i <= ts@.len(),
            spec_guidon_forest(ts@.skip(i as int), vv, lax, sp, dp) matches Ok(rest)
                ==> spec_guidon_forest(ts@, vv, lax, sp, dp) == Ok::<Seq<ActionV>, ErrorKind>(
                actions_view(out@) + rest,
            ),
            spec_guidon_forest(ts@.skip(i as int), vv, lax, sp, dp) matches Err(k)
                ==> spec_guidon_forest(ts@, vv, lax, sp, dp) == Err::<Seq<ActionV>, ErrorKind>(k),
        decreases ts@.len() - i,
    {
        proof {
            assert(ts@.skip(i as int)[0] == ts@[i as int]);
            assert(ts@.skip(i as int).skip(1) =~= ts@.skip(i + 1));
        }
        match guidon_node(&ts[i], vars, lax, srcp, dstp) {
            Ok(mut a) => {
                let ghost before = out@;
                let ghost av = a@;
                out.append(&mut a);
                proof {
                    assert(actions_view(out@) =~= actions_view(before) + actions_view(av));
                    let fr = spec_guidon_forest(ts@.skip(i + 1), vv, lax, sp, dp);
                    if fr is Ok {
                        let rest = fr->Ok_0;
                        assert((actions_view(before) + actions_view(av)) + rest =~= actions_view(
                            before,
                        ) + (actions_view(av) + rest));
                    }
                }
                i = i + 1;
            },
            Err(e) => {
                return Err(e);
            },
        }
    }
    proof {
        assert(ts@.skip(ts@.len() as int) =~= Seq::<FsTree>::empty());
        assert(actions_view(out@) + Seq::<ActionV>::empty() =~= actions_view(out@));
    }
    Ok(out)
}

/// The missing variable a strict-mode render failure names: the text
/// between the first pair of double quotes of the engine's message.
/// One step of the render-callback retry loop: the caller renders,
/// extracts the missing key from the failure message, supplies a value
/// for it, and renders again.
pub fn missing_variable(message: &str) -> (r: Option<String>)
    ensures
        match r {
            Some(k) => spec_split(message@, '"').len() >= 2 && k@ == spec_split(message@, '"')[1],
            None => spec_split(message@, '"').len() < 2,
        },
{
    let cs = str_chars(message);
    let pieces = split_chars(&cs, '"');
    if pieces.len() >= 2 {
        proof {
            assert(seq_views(pieces@)[1] == pieces@[1]@);
        }
        Some(chars_string(&pieces[1]))
    } else {
        None
    }
}

impl Guidon {
    /// Creates a new `Guidon` from a path: template subdirectory in
    /// use, strict rendering, no variables.
    pub fn new(path: String) -> (g: Guidon)
        ensures
            g.path@ == path@,
            !g.no_template_dir,
            !g.use_lax_mode,
            g.variables@.len() == 0,
    {
        Guidon { path, no_template_dir: false, use_lax_mode: false, variables: Vec::new() }
    }

    /// Sets the substitution variables.
    pub fn variables(&mut self, vars: Vec<(String, String)>)
        ensures
            final(self).variables == vars,
            final(self).path == old(self).path,
            final(self).no_template_dir == old(self).no_template_dir,
            final(self).use_lax_mode == old(self).use_lax_mode,
    {
        self.variables = vars;
    }

    /// Whether to look for the file structure in a `template`
    /// subdirectory of the given path (the default), or in the path
    /// itself.
    pub fn use_template_dir(&mut self, tplt: bool)
        ensures
            final(self).no_template_dir == !tplt,
            final(self).path == old(self).path,
            final(self).variables == old(self).variables,
            final(self).use_lax_mode == old(self).use_lax_mode,
    {
        self.no_template_dir = !tplt;
    }

    /// Whether rendering is strict (the default): referencing a
    /// variable absent from the mapping is then an error rather than an
    /// empty string.
    pub fn use_strict_mode(&mut self, strict: bool)
        ensures
            final(self).use_lax_mode == !strict,
            final(self).path == old(self).path,
            final(self).variables == old(self).variables,
            final(self).no_template_dir == old(self).no_template_dir,
    {
        self.use_lax_mode = !strict;
    }

    /// The directory the file structure is read from: the `template`
    /// subdirectory of the base path by default, the base path itself
    /// when the template-subdirectory switch is off.
    pub fn template_root(&self) -> (r: String)
        ensures
            self.no_template_dir ==> r@ == self.path@,
            !self.no_template_dir ==> r@ == self.path@ + "/template"@,
    {
        if self.no_template_dir {
            self.path.clone()
        } else {
            let mut out = self.path.clone();
            out.append("/template");
            out
        }
    }

    /// Builds a `Guidon` whose variables come from a descriptor text,
    /// which the caller reads from the template's descriptor file. The
    /// text must parse and must hold a `[variables]` section.
    pub fn from_descriptor(path: String, text: &str) -> (r: Result<Guidon, Error>)
        ensures
            match spec_parse_descriptor(text@) {
                Some(cv) => (match cv.vars {
                    Some(vs) => r matches Ok(g) && pairs_view(g.variables@) == vs && g.path@
                        == path@ && !g.no_template_dir && !g.use_lax_mode,
                    None => r matches Err(e) && e.kind_spec() == ErrorKind::StripPrefix,
                }),
                None => (r matches Err(e) && e.kind_spec() == ErrorKind::StripPrefix),
            },
    {
        match crate::config::parse_descriptor_text(text) {
            Some(cfg) => {
                match cfg.variables {
                    Some(vs) => Ok(
                        Guidon {
                            path,
                            no_template_dir: false,
                            use_lax_mode: false,
                            variables: vs,
                        },
                    ),
                    None => Err(
                        Error::new(
                            ErrorKind::StripPrefix,
                            "the descriptor has no variables section",
                        ),
                    ),
                }
            },
            None => Err(
                Error::new(ErrorKind::StripPrefix, "could not parse the template descriptor"),
            ),
        }
    }

    /// Renders a templated file or folder name against the variables,
    /// in the configured mode.
    pub fn convert_file_name(&self, name: &str) -> (r: Result<String, Error>)
        ensures
            match spec_mode_render(
                name@,
                vars_map(pairs_view(self.variables@)),
                self.use_lax_mode,
            ) {
                Some(s) => (r matches Ok(o) && o@ == s),
                None => (r matches Err(e) && e.kind_spec() == ErrorKind::Error),
            },
    {
        render_name(name, &self.variables, self.use_lax_mode)
    }

    /// The materialization plan of a template tree under this
    /// scaffolding configuration: the walk of the whole tree, every
    /// entry name rendered, `hbs`-named files rendered in place and
    /// others copied, in the configured render mode.
    pub fn apply_to_tree(&self, tree: &Vec<FsTree>) -> (r: Result<Vec<Action>, Error>)
        ensures
            match spec_guidon_forest(
                tree@,
                pairs_view(self.variables@),
                self.use_lax_mode,
                Seq::empty(),
                Seq::empty(),
            ) {
                Ok(acts) => (r matches Ok(v) && actions_view(v@) == acts),
                Err(k) => (r matches Err(e) && e.kind_spec() == k),
            },
    {
        let src_root: Vec<String> = Vec::new();
        let dst_root: Vec<String> = Vec::new();
        proof {
            assert(strs_view(src_root@) =~= Seq::<Seq<char>>::empty());
            assert(strs_view(dst_root@) =~= Seq::<Seq<char>>::empty());
        }
        guidon_forest(tree, &self.variables, self.use_lax_mode, &src_root, &dst_root)
    }
}

} // verus!
