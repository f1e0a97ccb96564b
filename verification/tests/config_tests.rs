//! Tests for descriptor loading and validation.

use project::config::TemplateConfig;
use project::ErrorKind;

#[test]
fn missing_descriptor_yields_default_config() {
    let cfg = TemplateConfig::new(None, "proj", "", "").unwrap();
    assert!(cfg.variables.is_none());
    assert!(cfg.rename.is_none());
    let filters = cfg.filters.unwrap();
    assert!(filters.keep.is_none());
    assert_eq!(
        filters.exclude.unwrap(),
        vec![
            "venv".to_string(),
            ".git".to_string(),
            ".idea".to_string(),
            ".vscode".to_string(),
        ]
    );
}

#[test]
fn conflicting_filter_lists_drop_exclude() {
    let text = format!(
        "[filters]\n{} = [\"a.txt\", \"b.txt\"]\nexclude = [\"c.txt\"]\n",
        "in".to_string() + "clude"
    );
    let cfg = TemplateConfig::new(Some(&text), "proj", "", "").unwrap();
    let filters = cfg.filters.unwrap();
    assert_eq!(filters.keep.unwrap(), vec!["a.txt".to_string(), "b.txt".to_string()]);
    assert!(filters.exclude.is_none());
}

#[test]
fn parses_variables_and_rename_sections() {
    let text = "# a template descriptor\n[variables]\nkey1 = \"value1\"\nkey2 = \"a \\\"quoted\\\" one\"\n\n[rename]\ntemplate = \"{{project-name}}\"\n";
    let cfg = TemplateConfig::new(Some(text), "myproj", "", "").unwrap();
    let vars = cfg.variables.unwrap();
    assert_eq!(vars[0], ("key1".to_string(), "value1".to_string()));
    assert_eq!(vars[1], ("key2".to_string(), "a \"quoted\" one".to_string()));
    let ren = cfg.rename.unwrap();
    assert_eq!(ren[0], ("template".to_string(), "myproj".to_string()));
    assert!(cfg.filters.is_none());
}

#[test]
fn unparsable_descriptor_is_fatal() {
    let res = TemplateConfig::new(Some("[variables]\nkey = value-without-quotes\n"), "p", "", "");
    let err = res.err().unwrap();
    assert_eq!(*err.kind(), ErrorKind::StripPrefix);
}

#[test]
fn duplicate_keys_are_rejected() {
    let res = TemplateConfig::new(Some("[variables]\na = \"1\"\na = \"2\"\n"), "p", "", "");
    assert!(res.is_err());
}

#[test]
fn unknown_sections_and_comments_are_ignored() {
    let text = "[unknown]\nwhatever = 3 # not even a string\n[variables]\nk = \"v\" # trailing comment\n";
    let cfg = TemplateConfig::new(Some(text), "p", "", "").unwrap();
    assert_eq!(cfg.variables.unwrap(), vec![("k".to_string(), "v".to_string())]);
}

#[test]
fn placeholders_are_substituted_before_parsing() {
    let text = "[variables]\nproject = \"{{ project-name }}\"\nauthor = \"{{author-name}}\"\nemail = \"{{author-email}}\"\n";
    let cfg = TemplateConfig::new(Some(text), "demo", "Ada", "ada@example.com").unwrap();
    let vars = cfg.variables.unwrap();
    assert_eq!(vars[0].1, "demo");
    assert_eq!(vars[1].1, "Ada");
    assert_eq!(vars[2].1, "ada@example.com");
}
