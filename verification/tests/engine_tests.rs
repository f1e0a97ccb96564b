//! Tests for engine dispatch and rendering.

use project::engine::Engine;
use project::engine::render_handlebars;
use project::guidon::Guidon;
use project::ErrorKind;

fn vars(pairs: &[(&str, &str)]) -> Vec<(String, String)> {
    pairs.iter().map(|(k, v)| (k.to_string(), v.to_string())).collect()
}

#[test]
fn should_convert_file_name2() {
    let mut guidon = Guidon::new("test".to_string());
    guidon.variables(vars(&[("plop", "beautiful"), ("ext", "txt")]));
    let out = guidon.convert_file_name("test/my-{{plop}}-file.{{ext}}.hbs").unwrap();
    assert_eq!("test/my-beautiful-file.txt.hbs", out);
}

#[test]
fn engine_is_selected_by_extension() {
    assert!(matches!(Engine::new("hbs"), Engine::Handlebars));
    assert!(matches!(Engine::new("liquid"), Engine::Liquid));
    assert!(matches!(Engine::new("txt"), Engine::Raw));
    assert!(matches!(Engine::new(""), Engine::Raw));
}

#[test]
fn handlebars_round_trip() {
    let out = render_handlebars("hello {{name}}", &vars(&[("name", "foo")])).unwrap();
    assert_eq!(out, "hello foo");
}

#[test]
fn strict_mode_rejects_undeclared_variables() {
    let err = render_handlebars("hello {{name}}", &Vec::new()).err().unwrap();
    assert_eq!(*err.kind(), ErrorKind::TemplatingEngine);
}

#[test]
fn raw_engine_does_not_render() {
    let r = Engine::new("txt").render("{{missing}}", &Vec::new()).unwrap();
    assert!(r.is_none());
}

#[test]
fn liquid_engine_renders() {
    let r = Engine::new("liquid")
        .render("title = \"{{ title }}\"", &vars(&[("title", "Demo")]))
        .unwrap();
    assert_eq!(r.unwrap(), "title = \"Demo\"");
}

#[test]
fn later_duplicate_variable_wins() {
    let out = render_handlebars("{{k}}", &vars(&[("k", "first"), ("k", "second")])).unwrap();
    assert_eq!(out, "second");
}
