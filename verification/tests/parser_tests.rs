//! Tests for built-in placeholder substitution.

use project::parser::default_variables;

#[test]
fn substitutes_all_three_placeholders() {
    let text = "name = \"{{ project-name }}\"\nauthor = \"{{author-name}} <{{author-email}}>\"\n";
    let out = default_variables(text, "demo", "Ada", "ada@example.com").unwrap();
    assert_eq!(out, "name = \"demo\"\nauthor = \"Ada <ada@example.com>\"\n");
}

#[test]
fn replaces_every_occurrence() {
    let out = default_variables("{{project-name}}/{{project-name}}", "x", "", "").unwrap();
    assert_eq!(out, "x/x");
}

#[test]
fn tolerates_one_space_each_side_only() {
    let out = default_variables("{{  project-name  }}", "x", "", "").unwrap();
    assert_eq!(out, "{{  project-name  }}");
}

#[test]
fn substitution_is_noop_on_placeholder_free_text() {
    let text = "plain text, {not a placeholder}, {{other-key}}";
    let once = default_variables(text, "p", "a", "e").unwrap();
    assert_eq!(once, text);
    let twice = default_variables(&once, "p", "a", "e").unwrap();
    assert_eq!(twice, once);
}

#[test]
fn substitution_runs_in_placeholder_order() {
    let out = default_variables("{{project-name}}", "{{author-name}}", "Ada", "").unwrap();
    assert_eq!(out, "Ada");
}
