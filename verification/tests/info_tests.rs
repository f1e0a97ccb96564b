//! Tests for the project target and the source resolver.

use project::info::GitOptions;
use project::info::GitRef;
use project::info::ParsedUrl;
use project::info::RemoteSource;
use project::Error;
use project::ErrorKind;
use project::ProjectInfo;
use project::TemplateOptions;

#[test]
fn remote_source_names() {
    assert_eq!(RemoteSource::GitHub.to_str(), "github");
    assert_eq!(RemoteSource::GitLab.to_str(), "gitlab");
    assert_eq!(RemoteSource::BitBucket.to_str(), "bitbucket");
    assert!(matches!(RemoteSource::from_str("github"), RemoteSource::GitHub));
    assert!(matches!(RemoteSource::from_str("gitlab"), RemoteSource::GitLab));
    assert!(matches!(RemoteSource::from_str("bitbucket"), RemoteSource::BitBucket));
}

#[test]
fn remote_urls() {
    assert_eq!(
        RemoteSource::GitHub.get_remote("owner", "repo"),
        "https://github.com/owner/repo.git"
    );
    assert_eq!(
        RemoteSource::GitLab.get_remote("owner", "repo"),
        "https://gitlab.com/owner/repo.git"
    );
    assert_eq!(
        RemoteSource::BitBucket.get_remote("owner", "repo"),
        "https://owner@bitbucket.org/owner/repo"
    );
}

#[test]
fn project_info_derives_snake_case_name() {
    let p = ProjectInfo::from_path("/home/user/my-project");
    assert_eq!(p.raw(), "my_project");
    assert_eq!(p.name_kebab_case(), "my-project");
    assert_eq!(p.name_snake_case(), "my_project");
    assert_eq!(p.path(), "/home/user/my-project");
}

#[test]
fn rel_path_walks_from_the_current_directory() {
    let p = ProjectInfo { name: "demo".to_string(), path: "/home/user/demo".to_string() };
    assert_eq!(p.rel_path("/home/user"), "demo");
    assert_eq!(p.rel_path("/home/user/other"), "../demo");
}

#[test]
fn full_url_resolves_to_remote() {
    let o = TemplateOptions::new("https://github.com/owner/repo.git", None, None).unwrap();
    match &o {
        TemplateOptions::Remote(g) => {
            assert_eq!(g.remote.text, "https://github.com/owner/repo.git");
            assert_eq!(g.remote.path, "/owner/repo.git");
            assert!(matches!(g.branch, GitRef::DefaultBranch));
        },
        TemplateOptions::Local(_) => panic!("expected a remote source"),
    }
    assert_eq!(o.path(), "repo.git");
    assert_eq!(o.staging_dir(), Some("repo.git".to_string()));
}

#[test]
fn existing_local_path_resolves_to_local() {
    let o = TemplateOptions::new("some/dir", None, Some("/abs/some/dir")).unwrap();
    match &o {
        TemplateOptions::Local(p) => assert_eq!(p, "/abs/some/dir"),
        TemplateOptions::Remote(_) => panic!("expected a local source"),
    }
    assert_eq!(o.staging_dir(), None);
}

#[test]
fn shorthand_expands_against_github() {
    let o = TemplateOptions::new("owner/repo", Some("dev".to_string()), None).unwrap();
    match &o {
        TemplateOptions::Remote(g) => {
            assert_eq!(g.remote.text, "https://github.com/owner/repo.git");
            match &g.branch {
                GitRef::Branch(b) => assert_eq!(b, "dev"),
                GitRef::DefaultBranch => panic!("expected an explicit branch"),
            }
        },
        TemplateOptions::Local(_) => panic!("expected a remote source"),
    }
}

#[test]
fn invalid_url_is_a_url_error() {
    let err = TemplateOptions::new("https://exa mple.com/x", None, None).err().unwrap();
    assert_eq!(*err.kind(), ErrorKind::Url);
}

#[test]
fn branch_resolution() {
    let g = GitOptions::new(
        ParsedUrl { text: "https://github.com/o/r.git".to_string(), path: "/o/r.git".to_string() },
        Some("main".to_string()),
    );
    assert_eq!(g.branch(None).unwrap(), "main");

    let d = GitOptions::new(
        ParsedUrl { text: "https://github.com/o/r.git".to_string(), path: "/o/r.git".to_string() },
        None,
    );
    assert_eq!(d.branch(Some("refs/heads/master")).unwrap(), "master");
    let err = d.branch(None).err().unwrap();
    assert_eq!(*err.kind(), ErrorKind::GitError);
}

#[test]
fn error_carries_kind_and_message() {
    let e = Error::new(ErrorKind::NotFound, "no such file");
    assert_eq!(*e.kind(), ErrorKind::NotFound);
    assert_eq!(e.message(), "no such file");
    let e = Error::new(ErrorKind::NotADirectory, "not a directory");
    assert_eq!(*e.kind(), ErrorKind::NotADirectory);
    let e = Error::new(ErrorKind::Io, "io failure");
    assert_eq!(*e.kind(), ErrorKind::Io);
}
