//! Templating engines and their dispatch.
//!
//! An engine is selected purely from a file's extension: `hbs` renders
//! through Handlebars, `liquid` through Liquid, and any other file is
//! copied raw. The walk renders Handlebars in strict mode: a template
//! that refers to a variable absent from the mapping fails rather than
//! rendering an empty string; a non-strict mode, where such variables
//! render as empty text, is also offered. Five helpers are available
//! inside Handlebars templates: `replace`, `append`, `prepend`, `up`
//! and `low`, each a verified string function of this library. Liquid
//! output is deliberately left unspecified: its standard filter set can
//! read the clock (the `date` filter maps the string `now` to the
//! current time), so the result is not a function of the template and
//! the variables alone.

use vstd::prelude::*;

use crate::config::pairs_view;
use crate::error::Error;
use crate::error::ErrorKind;

verus! {

/// An available templating engine.
#[derive(Debug, Clone, Copy, PartialEq, Eq, Structural)]
pub enum Engine {
    /// Handlebars, for the file extension `hbs`.
    Handlebars,
    /// Liquid, for the file extension `liquid`.
    Liquid,
    /// A regular file: copied raw, never rendered.
    Raw,
}

/// The engine a file extension selects.
pub open spec fn spec_engine_of(ext: Seq<char>) -> Engine {
    if ext == "hbs"@ {
        Engine::Handlebars
    } else if ext == "liquid"@ {
        Engine::Liquid
    } else {
        Engine::Raw
    }
}

/// What rendering a template with the Handlebars engine returns, in
/// strict mode with this library's helpers registered: a function of
/// the template text and the effective variable mapping alone, with no
/// result when rendering fails.
pub uninterp spec fn hbs_render(tpl: Seq<char>, vars: Map<Seq<char>, Seq<char>>) -> Option<
    Seq<char>,
>;

/// What rendering a template with the Handlebars engine returns in
/// non-strict mode, with this library's helpers registered: variables
/// absent from the mapping render as empty text, and the result is a
/// function of the template text and the effective variable mapping
/// alone.
pub uninterp spec fn hbs_render_lax(tpl: Seq<char>, vars: Map<Seq<char>, Seq<char>>) -> Option<
    Seq<char>,
>;

/// The effective mapping of a list of variable pairs: a later pair with
/// the same key wins.
pub open spec fn vars_map(ps: Seq<(Seq<char>, Seq<char>)>) -> Map<Seq<char>, Seq<char>>
    decreases ps.len(),
{
    if ps.len() == 0 {
        Map::empty()
    } else {
        vars_map(ps.drop_last()).insert(ps.last().0, ps.last().1)
    }
}

impl Engine {
    /// Selects the engine for a file extension.
    pub fn new(ext: &str) -> (e: Engine)
        ensures
            e == spec_engine_of(ext@),
    {
        let cs = crate::text::str_chars(ext);
        if crate::text::chars_eq(&cs, &crate::text::str_chars("hbs")) {
            Engine::Handlebars
        } else if crate::text::chars_eq(&cs, &crate::text::str_chars("liquid")) {
            Engine::Liquid
        } else {
            Engine::Raw
        }
    }

    /// Renders `content` against the variables: `Ok(Some(text))` for a
    /// rendered template, `Ok(None)` for a raw engine that copies, and
    /// a `TemplatingEngine` error when rendering fails. The Handlebars
    /// outcome is pinned to the named strict render; of Liquid only the
    /// shape of the outcome is stated, since its output may depend on
    /// more than the template and the variables.
    pub fn render(&self, content: &str, variables: &Vec<(String, String)>) -> (r: Result<
        Option<String>,
        Error,
    >)
        ensures
            self is Raw ==> (r matches Ok(o) && o is None),
            self is Handlebars ==> match hbs_render(content@, vars_map(pairs_view(variables@))) {
                Some(s) => (r matches Ok(o) && o matches Some(x) && x@ == s),
                None => (r matches Err(e) && e.kind_spec() == ErrorKind::TemplatingEngine),
            },
            self is Liquid ==> ((r matches Ok(o) && o is Some) || (r matches Err(e)
                && e.kind_spec() == ErrorKind::TemplatingEngine)),
    {
        match self {
            Engine::Handlebars => {
                match render_hbs_raw(content, variables) {
                    Ok(s) => Ok(Some(s)),
                    Err(m) => Err(Error::new(ErrorKind::TemplatingEngine, m.as_str())),
                }
            },
            Engine::Liquid => {
                match render_liquid_raw(content, variables) {
                    Ok(s) => Ok(Some(s)),
                    Err(m) => Err(Error::new(ErrorKind::TemplatingEngine, m.as_str())),
                }
            },
            Engine::Raw => Ok(None),
        }
    }
}

/// Renders a Handlebars template string against the variables, in
/// strict mode with this library's helpers registered.
pub fn render_handlebars(tpl: &str, variables: &Vec<(String, String)>) -> (r: Result<
    String,
    Error,
>)
    ensures
        (r is Ok) == (hbs_render(tpl@, vars_map(pairs_view(variables@))) is Some),
        r matches Ok(s) ==> Some(s@) == hbs_render(tpl@, vars_map(pairs_view(variables@))),
        r matches Err(e) ==> e.kind_spec() == ErrorKind::TemplatingEngine,
    {
    match render_hbs_raw(tpl, variables) {
        Ok(s) => Ok(s),
        Err(m) => Err(Error::new(ErrorKind::TemplatingEngine, m.as_str())),
    }
}

#[verifier::external_type_specification]
#[verifier::external_body]
pub struct ExHandlebars<'a>(handlebars::Handlebars<'a>);

/// Relies on `handlebars::Handlebars::register_helper`: makes the
/// `replace` helper available; the helper itself reads its parameters
/// and writes the result of this library's `replace`.
#[verifier::external_body]
fn register_replace<'a>(hb: &mut handlebars::Handlebars<'a>) {
    hb.register_helper("replace", Box::new(|h: &handlebars::Helper, _: &handlebars::Handlebars, _: &handlebars::Context, _: &mut handlebars::RenderContext, out: &mut dyn handlebars::Output| -> handlebars::HelperResult {
        let input = h.param(0).and_then(|v| v.value().as_str()).unwrap_or("");
        let from = h.param(1).and_then(|v| v.value().as_str()).unwrap_or("");
        let to = h.param(2).and_then(|v| v.value().as_str()).unwrap_or("");
        out.write(crate::helpers::replace(input, from, to).as_str())?;
        Ok(())
    }));
}

/// Relies on `handlebars::Handlebars::register_helper`: makes the
/// `append` helper available; the helper itself reads its parameters
/// and writes the result of this library's `append`.
#[verifier::external_body]
fn register_append<'a>(hb: &mut handlebars::Handlebars<'a>) {
    hb.register_helper("append", Box::new(|h: &handlebars::Helper, _: &handlebars::Handlebars, _: &handlebars::Context, _: &mut handlebars::RenderContext, out: &mut dyn handlebars::Output| -> handlebars::HelperResult {
        let input = h.param(0).and_then(|v| v.value().as_str()).unwrap_or("");
        let suffix = h.param(1).and_then(|v| v.value().as_str()).unwrap_or("");
        out.write(crate::helpers::append(input, suffix).as_str())?;
        Ok(())
    }));
}

/// Relies on `handlebars::Handlebars::register_helper`: makes the
/// `prepend` helper available; the helper itself reads its parameters
/// and writes the result of this library's `prepend`.
#[verifier::external_body]
fn register_prepend<'a>(hb: &mut handlebars::Handlebars<'a>) {
    hb.register_helper("prepend", Box::new(|h: &handlebars::Helper, _: &handlebars::Handlebars, _: &handlebars::Context, _: &mut handlebars::RenderContext, out: &mut dyn handlebars::Output| -> handlebars::HelperResult {
        let input = h.param(0).and_then(|v| v.value().as_str()).unwrap_or("");
        let prefix = h.param(1).and_then(|v| v.value().as_str()).unwrap_or("");
        out.write(crate::helpers::prepend(input, prefix).as_str())?;
        Ok(())
    }));
}

/// Relies on `handlebars::Handlebars::register_helper`: makes the `up`
/// helper available; the helper itself reads its parameter and writes
/// the result of this library's `up`.
#[verifier::external_body]
fn register_up<'a>(hb: &mut handlebars::Handlebars<'a>) {
    hb.register_helper("up", Box::new(|h: &handlebars::Helper, _: &handlebars::Handlebars, _: &handlebars::Context, _: &mut handlebars::RenderContext, out: &mut dyn handlebars::Output| -> handlebars::HelperResult {
        let input = h.param(0).and_then(|v| v.value().as_str()).unwrap_or("");
        out.write(crate::helpers::up(input).as_str())?;
        Ok(())
    }));
}

/// Relies on `handlebars::Handlebars::register_helper`: makes the `low`
/// helper available; the helper itself reads its parameter and writes
/// the result of this library's `low`.
#[verifier::external_body]
fn register_low<'a>(hb: &mut handlebars::Handlebars<'a>) {
    hb.register_helper("low", Box::new(|h: &handlebars::Helper, _: &handlebars::Handlebars, _: &handlebars::Context, _: &mut handlebars::RenderContext, out: &mut dyn handlebars::Output| -> handlebars::HelperResult {
        let input = h.param(0).and_then(|v| v.value().as_str()).unwrap_or("");
        out.write(crate::helpers::low(input).as_str())?;
        Ok(())
    }));
}

/// Relies on `handlebars::Handlebars::render_template` in strict mode,
/// on a registry with this library's five helpers: the outcome depends
/// on the template text and the effective variable mapping alone, and
/// duplicate keys of the list resolve to the last value, as collecting
/// into an ordered map does.
#[verifier::external_body]
pub(crate) fn render_hbs_raw(tpl: &str, vars: &Vec<(String, String)>) -> (r: Result<
    String,
    String,
>)
    ensures
        (r is Ok) == (hbs_render(tpl@, vars_map(pairs_view(vars@))) is Some),
        r matches Ok(s) ==> Some(s@) == hbs_render(tpl@, vars_map(pairs_view(vars@))),
{
    let mut hb = handlebars::Handlebars::new();
    hb.set_strict_mode(true);
    register_replace(&mut hb);
    register_append(&mut hb);
    register_prepend(&mut hb);
    register_up(&mut hb);
    register_low(&mut hb);
    let data: std::collections::BTreeMap<String, String> = vars.iter().cloned().collect();
    hb.render_template(tpl, &data).map_err(|e| e.to_string())
}

/// Relies on `handlebars::Handlebars::render_template` with strict mode
/// off, on a registry with this library's five helpers: the outcome
/// depends on the template text and the effective variable mapping
/// alone, with absent variables rendered as empty text, and duplicate
/// keys of the list resolve to the last value, as collecting into an
/// ordered map does.
#[verifier::external_body]
pub(crate) fn render_hbs_lax_raw(tpl: &str, vars: &Vec<(String, String)>) -> (r: Result<
    String,
    String,
>)
    ensures
        (r is Ok) == (hbs_render_lax(tpl@, vars_map(pairs_view(vars@))) is Some),
        r matches Ok(s) ==> Some(s@) == hbs_render_lax(tpl@, vars_map(pairs_view(vars@))),
{
    let mut hb = handlebars::Handlebars::new();
    hb.set_strict_mode(false);
    register_replace(&mut hb);
    register_append(&mut hb);
    register_prepend(&mut hb);
    register_up(&mut hb);
    register_low(&mut hb);
    let data: std::collections::BTreeMap<String, String> = vars.iter().cloned().collect();
    hb.render_template(tpl, &data).map_err(|e| e.to_string())
}

/// Relies on Liquid's parser with its standard library
/// (`liquid::ParserBuilder::with_stdlib`, `Parser::parse`,
/// `Template::render`). Nothing is assumed of the outcome: the standard
/// filter set can read the clock (the `date` filter maps the string
/// `now` to the current time), so the result is not a function of the
/// arguments.
#[verifier::external_body]
fn render_liquid_raw(tpl: &str, vars: &Vec<(String, String)>) -> Result<String, String> {
    let parser = match liquid::ParserBuilder::with_stdlib().build() {
        Ok(p) => p,
        Err(e) => return Err(e.to_string()),
    };
    let template = match parser.parse(tpl) {
        Ok(t) => t,
        Err(e) => return Err(e.to_string()),
    };
    let data: std::collections::BTreeMap<String, String> = vars.iter().cloned().collect();
    let globals = match liquid::model::to_object(&data) {
        Ok(g) => g,
        Err(e) => return Err(e.to_string()),
    };
    template.render(&globals).map_err(|e| e.to_string())
}

} // verus!
