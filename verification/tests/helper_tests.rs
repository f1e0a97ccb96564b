//! Tests for the template helpers, rendered through the library's
//! Handlebars front end.

use project::engine::render_handlebars;
use project::helpers;

fn vars(pairs: &[(&str, &str)]) -> Vec<(String, String)> {
    pairs.iter().map(|(k, v)| (k.to_string(), v.to_string())).collect()
}

#[test]
fn should_replace() {
    let vars = vars(&[("teacher", "Repeat after me"), ("sentence", "Roger is in the kitchen")]);
    let res = render_handlebars("{{teacher}}: {{replace sentence \"Roger\" \"Brian\"}}.", &vars)
        .unwrap();
    assert_eq!(res, "Repeat after me: Brian is in the kitchen.");
}

#[test]
fn should_uppercase() {
    let vars = vars(&[("teacher", "Repeat after me"), ("sentence", "Brian is in the kitchen")]);
    let res = render_handlebars("{{teacher}}: {{up sentence}}.", &vars).unwrap();
    assert_eq!(res, "Repeat after me: BRIAN IS IN THE KITCHEN.");
}

#[test]
fn should_lowercase() {
    let vars = vars(&[("teacher", "Repeat after me"), ("sentence", "Brian IS IN THE KITCHEN")]);
    let res = render_handlebars("{{teacher}}: {{low sentence}}.", &vars).unwrap();
    assert_eq!(res, "Repeat after me: brian is in the kitchen.");
}

#[test]
fn should_append() {
    let vars = vars(&[("teacher", "Repeat after me"), ("sentence", "Brian")]);
    let res = render_handlebars(
        r#"{{teacher}}: {{append sentence " is in the kitchen"}}."#,
        &vars,
    )
    .unwrap();
    assert_eq!(res, "Repeat after me: Brian is in the kitchen.");
}

#[test]
fn should_prepend() {
    let vars = vars(&[("teacher", "Repeat after me"), ("sentence", "is in the kitchen")]);
    let res = render_handlebars(r#"{{teacher}}: {{prepend sentence "Brian "}}."#, &vars).unwrap();
    assert_eq!(res, "Repeat after me: Brian is in the kitchen.");
}

#[test]
fn helper_functions_directly() {
    assert_eq!(helpers::replace("Roger is Roger", "Roger", "Brian"), "Brian is Brian");
    assert_eq!(helpers::replace("aaa", "aa", "b"), "ba");
    assert_eq!(helpers::replace("ab", "", "-"), "-a-b-");
    assert_eq!(helpers::up("gru\u{df}"), "GRUSS");
    assert_eq!(helpers::low("BrIaN"), "brian");
    assert_eq!(helpers::append("Brian", "!"), "Brian!");
    assert_eq!(helpers::prepend("Brian", "Mr "), "Mr Brian");
}
