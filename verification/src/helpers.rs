//! String helpers exposed to templates.
//!
//! These are the five named helpers that the Handlebars render step
//! registers: `replace`, `up`, `low`, `append`, `prepend`. Each is a pure
//! string function; the render wrapper hooks them into the template
//! registry.

use vstd::prelude::*;
use vstd::string::StringExecFns;

use crate::text::replace_chars;
use crate::text::spec_replace;
use crate::text::str_chars;
use crate::text::chars_string;

verus! {

/// What `str::to_uppercase` returns: the result depends on the
/// characters alone.
pub uninterp spec fn upper_of(s: Seq<char>) -> Seq<char>;

/// What `str::to_lowercase` returns: the result depends on the
/// characters alone.
pub uninterp spec fn lower_of(s: Seq<char>) -> Seq<char>;

/// Relies on `str::to_uppercase`: the Unicode uppercase form of the
/// input, a function of the characters alone; an empty input gives an
/// empty result.
#[verifier::external_body]
fn to_upper(s: &str) -> (r: String)
    ensures
        r@ == upper_of(s@),
        s@.len() == 0 ==> r@.len() == 0,
{
    s.to_uppercase()
}

/// Relies on `str::to_lowercase`: the Unicode lowercase form of the
/// input, a function of the characters alone; an empty input gives an
/// empty result.
#[verifier::external_body]
fn to_lower(s: &str) -> (r: String)
    ensures
        r@ == lower_of(s@),
        s@.len() == 0 ==> r@.len() == 0,
{
    s.to_lowercase()
}

/// Every occurrence of `from` in `input` replaced by `to`.
pub fn replace(input: &str, from: &str, to: &str) -> (r: String)
    ensures
        r@ == spec_replace(input@, from@, to@),
{
    let h = str_chars(input);
    let f = str_chars(from);
    let t = str_chars(to);
    let out = replace_chars(&h, &f, &t);
    chars_string(&out)
}

/// The input in uppercase.
pub fn up(input: &str) -> (r: String)
    ensures
        r@ == upper_of(input@),
{
    to_upper(input)
}

/// The input in lowercase.
pub fn low(input: &str) -> (r: String)
    ensures
        r@ == lower_of(input@),
{
    to_lower(input)
}

/// The input with `suffix` appended.
pub fn append(input: &str, suffix: &str) -> (r: String)
    ensures
        r@ == input@ + suffix@,
{
    let mut out = input.to_owned();
    out.append(suffix);
    out
}

/// The input with `prefix` prepended.
pub fn prepend(input: &str, prefix: &str) -> (r: String)
    ensures
        r@ == prefix@ + input@,
{
    let mut out = prefix.to_owned();
    out.append(input);
    out
}

} // verus!
