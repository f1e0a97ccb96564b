//! Tests for the scaffolding front end.

use project::guidon::missing_variable;
use project::guidon::Guidon;
use project::template::Action;
use project::template::FsTree;
use project::ErrorKind;

fn vars(pairs: &[(&str, &str)]) -> Vec<(String, String)> {
    pairs.iter().map(|(k, v)| (k.to_string(), v.to_string())).collect()
}

fn describe(a: &Action) -> String {
    match a {
        Action::MkDir { path } => format!("mkdir {}", path.join("/")),
        Action::WriteFile { path, content } => format!("write {} <{}>", path.join("/"), content),
        Action::CopyFile { src, dest } => format!("copy {} {}", src.join("/"), dest.join("/")),
    }
}

#[test]
fn guidon_from_descriptor_reads_variables() {
    let toml_content = r#"
          [variables]
          key1 = "value1"
          key2 = "value2"
          "#;
    let mut guidon = Guidon::from_descriptor("tpl".to_string(), toml_content).unwrap();
    guidon.use_template_dir(true);
    assert_eq!(guidon.no_template_dir, false);
    assert_eq!(guidon.variables[0], ("key1".to_string(), "value1".to_string()));
    assert_eq!(guidon.variables[1], ("key2".to_string(), "value2".to_string()));
}

#[test]
fn guidon_from_descriptor_needs_a_variables_section() {
    let err = Guidon::from_descriptor("tpl".to_string(), "# nothing here\n").err().unwrap();
    assert_eq!(*err.kind(), ErrorKind::StripPrefix);
}

#[test]
fn guidon_switches() {
    let mut g = Guidon::new("tpl".to_string());
    assert!(!g.no_template_dir);
    assert!(!g.use_lax_mode);
    g.use_template_dir(false);
    g.use_strict_mode(false);
    assert!(g.no_template_dir);
    assert!(g.use_lax_mode);
}

#[test]
fn template_root_follows_the_switch() {
    let mut g = Guidon::new("tpl".to_string());
    assert_eq!(g.template_root(), "tpl/template");
    g.use_template_dir(false);
    assert_eq!(g.template_root(), "tpl");
}

#[test]
fn lax_mode_renders_missing_variables_empty() {
    let mut g = Guidon::new("tpl".to_string());
    g.use_strict_mode(false);
    assert_eq!(g.convert_file_name("{{missing}}-x").unwrap(), "-x");
    let mut strict = Guidon::new("tpl".to_string());
    strict.use_strict_mode(true);
    let err = strict.convert_file_name("{{missing}}-x").err().unwrap();
    assert_eq!(*err.kind(), ErrorKind::Error);
}

#[test]
fn apply_renders_names_and_hbs_files() {
    let mut g = Guidon::new("tpl".to_string());
    g.variables(vars(&[("name", "app"), ("val", "1")]));
    let tree = vec![
        FsTree::Dir {
            name: "src-{{name}}".to_string(),
            entries: vec![
                FsTree::File {
                    name: "main.py.hbs".to_string(),
                    content: "x = {{val}}".to_string(),
                },
                FsTree::File { name: "notes.txt".to_string(), content: String::new() },
            ],
        },
    ];
    let plan: Vec<String> = g.apply_to_tree(&tree).unwrap().iter().map(describe).collect();
    assert_eq!(
        plan,
        vec![
            "mkdir src-app".to_string(),
            "write src-app/main.py <x = 1>".to_string(),
            "copy src-{{name}}/notes.txt src-app/notes.txt".to_string(),
        ]
    );
}

#[test]
fn apply_fails_on_a_missing_strict_variable() {
    let g = Guidon::new("tpl".to_string());
    let tree = vec![FsTree::File {
        name: "a.hbs".to_string(),
        content: "{{missing}}".to_string(),
    }];
    let err = g.apply_to_tree(&tree).err().unwrap();
    assert_eq!(*err.kind(), ErrorKind::TemplatingEngine);
}

#[test]
fn missing_variable_reads_the_quoted_key() {
    assert_eq!(
        missing_variable("Variable \"name\" not found in strict mode."),
        Some("name".to_string())
    );
    assert_eq!(missing_variable("no quotes here"), None);
}
