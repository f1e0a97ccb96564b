//! Tests for the materialization engine.

use project::config::Filters;
use project::config::TemplateConfig;
use project::template::Action;
use project::template::FsTree;
use project::template::Template;
use project::ErrorKind;
use project::ProjectInfo;
use project::TemplateOptions;

fn file(name: &str, content: &str) -> FsTree {
    FsTree::File { name: name.to_string(), content: content.to_string() }
}

fn dir(name: &str, entries: Vec<FsTree>) -> FsTree {
    FsTree::Dir { name: name.to_string(), entries }
}

fn strings(v: &[&str]) -> Vec<String> {
    v.iter().map(|s| s.to_string()).collect()
}

fn pairs(v: &[(&str, &str)]) -> Vec<(String, String)> {
    v.iter().map(|(k, s)| (k.to_string(), s.to_string())).collect()
}

fn config(
    variables: Option<Vec<(String, String)>>,
    rename: Option<Vec<(String, String)>>,
    exclude: Vec<String>,
) -> TemplateConfig {
    TemplateConfig {
        variables,
        rename,
        filters: Some(Filters { keep: None, exclude: Some(exclude) }),
    }
}

fn template(config: TemplateConfig) -> Template {
    Template::new(
        ProjectInfo { name: "demo".to_string(), path: "/tmp/demo".to_string() },
        TemplateOptions::Local("tpl".to_string()),
        config,
    )
}

fn describe(a: &Action) -> String {
    match a {
        Action::MkDir { path } => format!("mkdir {}", path.join("/")),
        Action::WriteFile { path, content } => format!("write {} <{}>", path.join("/"), content),
        Action::CopyFile { src, dest } => format!("copy {} {}", src.join("/"), dest.join("/")),
    }
}

fn plan(t: &Template, tree: &Vec<FsTree>) -> Vec<String> {
    t.generate(tree).unwrap().iter().map(describe).collect()
}

#[test]
fn excluded_directory_is_pruned_entirely() {
    let t = template(config(None, None, strings(&["venv"])));
    let tree = vec![
        dir("venv", vec![dir("lib", vec![file("x.py", "")])]),
        file("keep.txt", ""),
    ];
    let actions = plan(&t, &tree);
    assert_eq!(actions, vec!["copy keep.txt keep.txt".to_string()]);
    for a in &actions {
        assert!(!a.contains("venv"));
    }
}

#[test]
fn rename_applies_per_segment() {
    let t = template(config(None, Some(pairs(&[("template", "myproj")])), Vec::new()));
    let tree = vec![dir(
        "template",
        vec![dir("src", vec![file("main.py", "print()")])],
    )];
    let actions = plan(&t, &tree);
    assert_eq!(
        actions,
        vec![
            "mkdir myproj".to_string(),
            "mkdir myproj/src".to_string(),
            "copy template/src/main.py myproj/src/main.py".to_string(),
        ]
    );
}

#[test]
fn handlebars_file_is_rendered_and_extension_dropped() {
    let t = template(config(Some(pairs(&[("name", "foo")])), None, Vec::new()));
    let tree = vec![file("a.txt.hbs", "hello {{name}}")];
    let actions = plan(&t, &tree);
    assert_eq!(actions, vec!["write a.txt <hello foo>".to_string()]);
}

#[test]
fn end_to_end_copy_and_render() {
    let t = template(config(Some(pairs(&[("title", "Demo")])), None, Vec::new()));
    let tree = vec![
        file("README.md", "# readme"),
        file("config.toml.hbs", "title = \"{{title}}\""),
    ];
    let actions = plan(&t, &tree);
    assert_eq!(
        actions,
        vec![
            "copy README.md README.md".to_string(),
            "write config.toml <title = \"Demo\">".to_string(),
        ]
    );
}

#[test]
fn liquid_file_is_rendered_and_extension_dropped() {
    let t = template(config(Some(pairs(&[("title", "Demo")])), None, Vec::new()));
    let tree = vec![file("config.toml.liquid", "title = \"{{ title }}\"")];
    let actions = plan(&t, &tree);
    assert_eq!(actions, vec!["write config.toml <title = \"Demo\">".to_string()]);
}

#[test]
fn strict_mode_failure_aborts_the_run() {
    let t = template(config(None, None, Vec::new()));
    let tree = vec![file("bad.hbs", "hello {{missing}}")];
    let err = t.generate(&tree).err().unwrap();
    assert_eq!(*err.kind(), ErrorKind::TemplatingEngine);
}

#[test]
fn opt_in_list_keeps_only_matching_names() {
    let t = template(TemplateConfig {
        variables: None,
        rename: None,
        filters: Some(Filters { keep: Some(strings(&["a.txt"])), exclude: None }),
    });
    let tree = vec![file("a.txt", ""), file("b.txt", "")];
    let actions = plan(&t, &tree);
    assert_eq!(actions, vec!["copy a.txt a.txt".to_string()]);
}

#[test]
fn file_without_extension_is_copied() {
    let t = template(config(None, None, Vec::new()));
    let tree = vec![file("Makefile", "all:")];
    let actions = plan(&t, &tree);
    assert_eq!(actions, vec!["copy Makefile Makefile".to_string()]);
}

#[test]
fn leading_dot_is_no_extension() {
    let t = template(config(None, None, Vec::new()));
    let tree = vec![file(".hbs", "{{missing}}")];
    let actions = plan(&t, &tree);
    assert_eq!(actions, vec!["copy .hbs .hbs".to_string()]);
}

#[test]
fn parent_directories_come_before_children() {
    let t = template(config(None, None, Vec::new()));
    let tree = vec![dir("a", vec![dir("b", vec![file("c.txt", "")])])];
    let actions = plan(&t, &tree);
    assert_eq!(
        actions,
        vec![
            "mkdir a".to_string(),
            "mkdir a/b".to_string(),
            "copy a/b/c.txt a/b/c.txt".to_string(),
        ]
    );
}
