//! The project target and the template source.
//!
//! A template source string resolves to either a local directory or a
//! remote repository. A full URL is remote; a string with no scheme is
//! a local path when the caller finds one on disk, and otherwise a
//! shorthand `owner/repo` expanded against the default hosting service.
//! The caller supplies the result of the local probe, since only it
//! touches the filesystem.

use vstd::prelude::*;

use crate::error::Error;
use crate::error::ErrorKind;
use crate::text::spec_replace;
use crate::util::spec_basename;
use crate::util::spec_diff_paths;
use crate::util::basename;
use crate::util::diff_paths;

verus! {

/// What `heck`'s snake-case conversion returns: a function of the
/// characters alone.
pub uninterp spec fn snake_of(s: Seq<char>) -> Seq<char>;

/// What `heck`'s kebab-case conversion returns: a function of the
/// characters alone.
pub uninterp spec fn kebab_of(s: Seq<char>) -> Seq<char>;

/// Relies on `heck::ToSnakeCase::to_snake_case` for `str`: the
/// snake-case form, a function of the characters alone.
#[verifier::external_body]
fn to_snake(s: &str) -> (r: String)
    ensures
        r@ == snake_of(s@),
{
    heck::ToSnakeCase::to_snake_case(s)
}

/// Relies on `heck::ToKebabCase::to_kebab_case` for `str`: the
/// kebab-case form, a function of the characters alone.
#[verifier::external_body]
fn to_kebab(s: &str) -> (r: String)
    ensures
        r@ == kebab_of(s@),
{
    heck::ToKebabCase::to_kebab_case(s)
}

/// Information about the new project to be created.
pub struct ProjectInfo {
    /// The project name, derived from the destination's final segment.
    pub name: String,
    /// The absolute destination path of the target project.
    pub path: String,
}

impl ProjectInfo {
    /// Builds the project info from the resolved destination path: the
    /// name is the snake-case form of the path's final segment.
    pub fn from_path(path: &str) -> (p: ProjectInfo)
        requires
            spec_basename(path@) is Some,
        ensures
            p.name@ == snake_of(spec_basename(path@)->0),
            p.path@ == path@,
    {
        let base = crate::util::filename(path);
        ProjectInfo { name: to_snake(base.as_str()), path: path.to_owned() }
    }

    /// The raw project name.
    pub fn raw(&self) -> (r: String)
        ensures
            r@ == self.name@,
    {
        self.name.clone()
    }

    /// The project name in kebab case.
    pub fn name_kebab_case(&self) -> (r: String)
        ensures
            r@ == kebab_of(self.name@),
    {
        to_kebab(self.name.as_str())
    }

    /// The project name in snake case.
    pub fn name_snake_case(&self) -> (r: String)
        ensures
            r@ == snake_of(self.name@),
    {
        to_snake(self.name.as_str())
    }

    /// The owned project path.
    pub fn path(&self) -> (r: String)
        ensures
            r@ == self.path@,
    {
        self.path.clone()
    }

    /// The project path relative to `curr_dir`, or the path itself when
    /// no walk from `curr_dir` exists.
    pub fn rel_path(&self, curr_dir: &str) -> (r: String)
        ensures
            match spec_diff_paths(self.path@, curr_dir@) {
                Some(p) => r@ == p,
                None => r@ == self.path@,
            },
    {
        match diff_paths(self.path.as_str(), curr_dir) {
            Some(p) => p,
            None => self.path.clone(),
        }
    }

    /// The project path in kebab case.
    pub fn path_kebab_case(&self) -> (r: String)
        ensures
            r@ == kebab_of(self.path@),
    {
        to_kebab(self.path.as_str())
    }
}

/// A remote hosting service for shorthand `owner/repo` sources.
pub enum RemoteSource {
    GitHub,
    GitLab,
    BitBucket,
}

/// The name of a hosting service.
pub open spec fn spec_source_name(s: RemoteSource) -> Seq<char> {
    match s {
        RemoteSource::GitHub => "github"@,
        RemoteSource::GitLab => "gitlab"@,
        RemoteSource::BitBucket => "bitbucket"@,
    }
}

/// The repository URL a hosting service gives an owner and repository
/// name.
pub open spec fn spec_remote_url(s: RemoteSource, username: Seq<char>, repo: Seq<char>) -> Seq<
    char,
> {
    match s {
        RemoteSource::GitHub => "https://github.com/"@ + username + "/"@ + repo + ".git"@,
        RemoteSource::GitLab => "https://gitlab.com/"@ + username + "/"@ + repo + ".git"@,
        RemoteSource::BitBucket => "https://"@ + username + "@bitbucket.org/"@ + username + "/"@
            + repo,
    }
}

impl RemoteSource {
    /// The service's name.
    pub fn to_str(&self) -> (r: &str)
        ensures
            r@ == spec_source_name(*self),
    {
        match self {
            RemoteSource::GitHub => "github",
            RemoteSource::GitLab => "gitlab",
            RemoteSource::BitBucket => "bitbucket",
        }
    }

    /// The service a name stands for; only the three known names are
    /// accepted.
    pub fn from_str(s: &str) -> (r: Self)
        requires
            s@ == "github"@ || s@ == "gitlab"@ || s@ == "bitbucket"@,
        ensures
            spec_source_name(r) == s@,
    {
        let cs = crate::text::str_chars(s);
        if crate::text::chars_eq(&cs, &crate::text::str_chars("github")) {
            RemoteSource::GitHub
        } else if crate::text::chars_eq(&cs, &crate::text::str_chars("gitlab")) {
            RemoteSource::GitLab
        } else {
            RemoteSource::BitBucket
        }
    }

    /// The full repository URL for an owner and repository name on this
    /// service.
    pub fn get_remote(&self, username: &str, repo: &str) -> (r: String)
        ensures
            r@ == spec_remote_url(*self, username@, repo@),
    {
        match self {
            RemoteSource::GitHub => {
                let mut out = "https://github.com/".to_owned();
                out.append(username);
                out.append("/");
                out.append(repo);
                out.append(".git");
                out
            },
            RemoteSource::GitLab => {
                let mut out = "https://gitlab.com/".to_owned();
                out.append(username);
                out.append("/");
                out.append(repo);
                out.append(".git");
                out
            },
            RemoteSource::BitBucket => {
                let mut out = "https://".to_owned();
                out.append(username);
                out.append("@bitbucket.org/");
                out.append(username);
                out.append("/");
                out.append(repo);
                out
            },
        }
    }
}

/// A parsed remote URL: its normalized text and its path component.
pub struct ParsedUrl {
    pub text: String,
    pub path: String,
}

/// The spec-level form of a parsed URL.
pub struct ParsedUrlV {
    pub text: Seq<char>,
    pub path: Seq<char>,
}

/// The spec-level form of a parsed URL value.
pub open spec fn parsed_url_view(u: ParsedUrl) -> ParsedUrlV {
    ParsedUrlV { text: u.text@, path: u.path@ }
}

/// The outcome of parsing a source string as a URL.
pub enum UrlOutcome {
    /// An absolute URL.
    Parsed(ParsedUrl),
    /// The string has no scheme: it may be a path or a shorthand.
    RelativeNoBase,
    /// Any other parse failure, with its message.
    Invalid(String),
}

/// The spec-level form of a URL parse outcome.
pub enum UrlOutcomeV {
    ParsedV(ParsedUrlV),
    RelativeNoBaseV,
    InvalidV(Seq<char>),
}

/// The spec-level form of a URL outcome value.
pub open spec fn url_outcome_view(r: UrlOutcome) -> UrlOutcomeV {
    match r {
        UrlOutcome::Parsed(u) => UrlOutcomeV::ParsedV(parsed_url_view(u)),
        UrlOutcome::RelativeNoBase => UrlOutcomeV::RelativeNoBaseV,
        UrlOutcome::Invalid(m) => UrlOutcomeV::InvalidV(m@),
    }
}

/// What parsing a string as a URL yields: a function of the string
/// alone.
pub uninterp spec fn url_outcome_of(s: Seq<char>) -> UrlOutcomeV;

/// Relies on `url::Url::parse`, reading the result with `Url::as_str`
/// and `Url::path`: the outcome is a function of the input string
/// alone, and the scheme-less case is
/// `url::ParseError::RelativeUrlWithoutBase`.
#[verifier::external_body]
fn parse_url(s: &str) -> (r: UrlOutcome)
    ensures
        url_outcome_view(r) == url_outcome_of(s@),
{
    match url::Url::parse(s) {
        Ok(u) => UrlOutcome::Parsed(
            ParsedUrl { text: u.as_str().to_owned(), path: u.path().to_owned() },
        ),
        Err(url::ParseError::RelativeUrlWithoutBase) => UrlOutcome::RelativeNoBase,
        Err(e) => UrlOutcome::Invalid(e.to_string()),
    }
}

/// The branch selector of a remote template: an explicit branch, or
/// the remote's default branch.
pub enum GitRef {
    /// An explicitly requested branch.
    Branch(String),
    /// Use the remote's default branch.
    DefaultBranch,
}

/// The spec-level form of a branch selector: the explicit name, if any.
pub open spec fn git_ref_view(b: GitRef) -> Option<Seq<char>> {
    match b {
        GitRef::Branch(s) => Some(s@),
        GitRef::DefaultBranch => None,
    }
}

/// A remote template: its parsed URL and its branch selector.
pub struct GitOptions {
    /// The remote repository URL.
    pub remote: ParsedUrl,
    /// The branch to check out; the remote's default branch when none
    /// was requested.
    pub branch: GitRef,
}

impl GitOptions {
    /// Builds the options from a parsed URL and an optional branch
    /// name.
    pub fn new(url: ParsedUrl, branch: Option<String>) -> (g: GitOptions)
        ensures
            parsed_url_view(g.remote) == parsed_url_view(url),
            git_ref_view(g.branch) == (match branch {
                Some(b) => Some(b@),
                None => None::<Seq<char>>,
            }),
    {
        GitOptions {
            remote: url,
            branch: match branch {
                Some(b) => GitRef::Branch(b),
                None => GitRef::DefaultBranch,
            },
        }
    }

    /// The local staging directory the clone goes to: the final segment
    /// of the URL's path.
    pub fn path(&self) -> (r: String)
        requires
            spec_basename(self.remote.path@) is Some,
        ensures
            r@ == spec_basename(self.remote.path@)->0,
    {
        basename(self.remote.path.as_str())
    }

    /// The branch name to check out. An explicit selector answers by
    /// itself. The default selector needs the remote's head reference,
    /// which the caller reads from the remote; its well-known
    /// `refs/heads/` prefix is stripped. With no head reference to go
    /// by, resolution fails.
    pub fn branch(&self, remote_head: Option<&str>) -> (r: Result<String, Error>)
        ensures
            self.branch matches GitRef::Branch(b) ==> (r matches Ok(s) && s@ == b@),
            remote_head matches Some(h) ==> (self.branch is DefaultBranch ==> (r matches Ok(s)
                && s@ == spec_replace(h@, "refs/heads/"@, Seq::<char>::empty()))),
            (self.branch is DefaultBranch && remote_head is None) ==> (r matches Err(e)
                && e.kind_spec() == ErrorKind::GitError),
    {
        match &self.branch {
            GitRef::Branch(b) => Ok(b.clone()),
            GitRef::DefaultBranch => {
                match remote_head {
                    Some(h) => {
                        proof {
                            reveal_strlit("");
                            assert(""@ =~= Seq::<char>::empty());
                        }
                        Ok(crate::helpers::replace(h, "refs/heads/", ""))
                    },
                    None => Err(
                        Error::new(ErrorKind::GitError, "could not resolve the default branch"),
                    ),
                }
            },
        }
    }
}

/// The kind of template source: a local directory or a remote
/// repository.
pub enum TemplateOptions {
    /// A local template, with the path to its base directory.
    Local(String),
    /// A remote template, with its URL and git options.
    Remote(GitOptions),
}

/// The shorthand `owner/repo` source expanded against the default
/// hosting service.
pub open spec fn spec_shorthand_url(p: Seq<char>) -> Seq<char> {
    "https://github.com/"@ + p + ".git"@
}

/// The resolved options stand for the remote `u` with branch selector
/// `b`.
pub open spec fn opts_remote_matches(o: TemplateOptions, u: ParsedUrlV, b: Option<Seq<char>>) -> bool {
    o matches TemplateOptions::Remote(g) && parsed_url_view(g.remote) == u && git_ref_view(
        g.branch,
    ) == b
}

/// The view of an optional borrowed string.
pub open spec fn opt_str_view(o: Option<&str>) -> Option<Seq<char>> {
    match o {
        Some(s) => Some(s@),
        None => None,
    }
}

impl TemplateOptions {
    /// Resolves a source string. A string that parses as an absolute
    /// URL is a remote template. A scheme-less string is the local
    /// directory the caller resolved it to, when it did; otherwise it
    /// is shorthand for a repository of the default hosting service,
    /// and the expanded URL is parsed in its place, at most once. Any
    /// other parse failure is a `Url` error. `local` is the caller's
    /// answer to whether the string names an existing directory, since
    /// only the caller touches the filesystem.
    pub fn new(path: &str, branch: Option<String>, local: Option<&str>) -> (r: Result<
        TemplateOptions,
        Error,
    >)
        ensures
            url_outcome_of(path@) matches UrlOutcomeV::ParsedV(u) ==> (r matches Ok(o)
                && opts_remote_matches(o, u, (match branch {
                Some(b) => Some(b@),
                None => None::<Seq<char>>,
            }))),
            local matches Some(l) ==> (url_outcome_of(path@) is RelativeNoBaseV ==> (r matches Ok(
                o,
            ) && o matches TemplateOptions::Local(p) && p@ == l@)),
            (url_outcome_of(path@) is RelativeNoBaseV && local is None) ==> (match url_outcome_of(
                spec_shorthand_url(path@),
            ) {
                UrlOutcomeV::ParsedV(u) => r matches Ok(o) && opts_remote_matches(o, u, (
                match branch {
                    Some(b) => Some(b@),
                    None => None::<Seq<char>>,
                })),
                UrlOutcomeV::RelativeNoBaseV => r matches Err(e) && e.kind_spec()
                    == ErrorKind::Url,
                UrlOutcomeV::InvalidV(m) => r matches Err(e) && e.kind_spec() == ErrorKind::Url
                    && e.msg_spec() == m,
            }),
            url_outcome_of(path@) matches UrlOutcomeV::InvalidV(m) ==> (r matches Err(e)
                && e.kind_spec() == ErrorKind::Url && e.msg_spec() == m),
    {
        match parse_url(path) {
            UrlOutcome::Parsed(u) => Ok(TemplateOptions::Remote(GitOptions::new(u, branch))),
            UrlOutcome::RelativeNoBase => {
                match local {
                    Some(l) => Ok(TemplateOptions::Local(l.to_owned())),
                    None => {
                        let mut expanded = "https://github.com/".to_owned();
                        expanded.append(path);
                        expanded.append(".git");
                        match parse_url(expanded.as_str()) {
                            UrlOutcome::Parsed(u) => Ok(
                                TemplateOptions::Remote(GitOptions::new(u, branch)),
                            ),
                            UrlOutcome::RelativeNoBase => Err(
                                Error::new(ErrorKind::Url, "could not parse the source URL"),
                            ),
                            UrlOutcome::Invalid(m) => Err(Error::new(ErrorKind::Url, m.as_str())),
                        }
                    },
                }
            },
            UrlOutcome::Invalid(m) => Err(Error::new(ErrorKind::Url, m.as_str())),
        }
    }

    /// The template root this source materializes from: the local
    /// directory, or the staging directory of the clone.
    pub fn path(&self) -> (r: String)
        requires
            self matches TemplateOptions::Remote(g) ==> spec_basename(g.remote.path@) is Some,
        ensures
            self matches TemplateOptions::Local(p) ==> r@ == p@,
            self matches TemplateOptions::Remote(g) ==> r@ == spec_basename(g.remote.path@)->0,
    {
        match self {
            TemplateOptions::Local(p) => p.clone(),
            TemplateOptions::Remote(g) => g.path(),
        }
    }

    /// The staging directory to delete when a run ends: the clone
    /// directory for a remote source, nothing for a local one. The
    /// answer does not depend on how the run went.
    pub fn staging_dir(&self) -> (r: Option<String>)
        requires
            self matches TemplateOptions::Remote(g) ==> spec_basename(g.remote.path@) is Some,
        ensures
            self matches TemplateOptions::Remote(g) ==> (r matches Some(p) && p@ == spec_basename(
                g.remote.path@,
            )->0),
            self is Local ==> r is None,
    {
        match self {
            TemplateOptions::Local(_) => None,
            TemplateOptions::Remote(g) => Some(g.path()),
        }
    }
}

} // verus!
