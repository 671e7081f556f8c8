use static_site_generator::context::RenderContext;
use static_site_generator::errors::BuildError;
use static_site_generator::template::{compile, render, TemplateSet};

fn ctx(pairs: &[(&str, &str)]) -> RenderContext {
    let mut c = RenderContext::new();
    for (k, v) in pairs {
        c.set(k, v.to_string());
    }
    c
}

#[test]
fn renders_plain_text_unchanged() {
    let t = compile("page".to_string(), "no placeholders here").unwrap();
    let out = render(&t, &ctx(&[])).unwrap();
    assert_eq!(out, "no placeholders here");
}

#[test]
fn substitutes_fields() {
    let t = compile("page".to_string(), "Hello {name}, code {code}!").unwrap();
    let out = render(&t, &ctx(&[("name", "world"), ("code", "404")])).unwrap();
    assert_eq!(out, "Hello world, code 404!");
}

#[test]
fn rendering_is_deterministic() {
    let src = "<h1>{a}</h1>{b}";
    let t1 = compile("one".to_string(), src).unwrap();
    let t2 = compile("two".to_string(), src).unwrap();
    let pairs = [("a", "x"), ("b", "y")];
    let o1 = render(&t1, &ctx(&pairs)).unwrap();
    let o2 = render(&t2, &ctx(&pairs)).unwrap();
    let o3 = render(&t1, &ctx(&pairs)).unwrap();
    assert_eq!(o1, o2);
    assert_eq!(o1, o3);
    assert_eq!(o1, "<h1>x</h1>y");
}

#[test]
fn missing_field_fails() {
    let t = compile("page".to_string(), "{present} and {absent}").unwrap();
    let e = render(&t, &ctx(&[("present", "yes")])).unwrap_err();
    assert!(matches!(e, BuildError::MissingField(_)));
}

#[test]
fn unused_context_fields_are_ignored() {
    let t = compile("page".to_string(), "only {used}").unwrap();
    let out = render(&t, &ctx(&[("used", "this"), ("unused", "that")])).unwrap();
    assert_eq!(out, "only this");
}

#[test]
fn first_entry_of_a_name_wins() {
    let t = compile("page".to_string(), "{x}").unwrap();
    let mut c = RenderContext::new();
    c.set("x", "first".to_string());
    c.set("x", "second".to_string());
    assert_eq!(render(&t, &c).unwrap(), "first");
}

#[test]
fn stray_closing_delimiter_is_rejected() {
    let e = compile("page".to_string(), "oops } here").unwrap_err();
    assert!(matches!(e, BuildError::TemplateSyntax(_)));
}

#[test]
fn unterminated_placeholder_is_rejected() {
    let e = compile("page".to_string(), "start {name").unwrap_err();
    assert!(matches!(e, BuildError::TemplateSyntax(_)));
}

#[test]
fn empty_placeholder_is_rejected() {
    let e = compile("page".to_string(), "an {} empty one").unwrap_err();
    assert!(matches!(e, BuildError::TemplateSyntax(_)));
}

#[test]
fn nested_opening_delimiter_is_rejected() {
    let e = compile("page".to_string(), "{a{b}").unwrap_err();
    assert!(matches!(e, BuildError::TemplateSyntax(_)));
}

#[test]
fn output_carries_no_engine_syntax() {
    let t = compile("page".to_string(), "{a}-{b}").unwrap();
    let out = render(&t, &ctx(&[("a", "1"), ("b", "2")])).unwrap();
    assert!(!out.contains('{') && !out.contains('}'));
    assert_eq!(out, "1-2");
}

#[test]
fn context_values_pass_through_verbatim() {
    let t = compile("page".to_string(), "v: {v}").unwrap();
    let out = render(&t, &ctx(&[("v", "literal {braces} kept")])).unwrap();
    assert_eq!(out, "v: literal {braces} kept");
}

#[test]
fn template_set_registers_and_renders() {
    let mut set = TemplateSet::new();
    set.add_template("status_page", "code {code}").unwrap();
    set.add_template("index_page", "title {title}").unwrap();
    let t = set.get("status_page").unwrap();
    assert_eq!(render(t, &ctx(&[("code", "200")])).unwrap(), "code 200");
    assert!(set.get("other_page").is_none());
}

#[test]
fn duplicate_template_name_is_rejected() {
    let mut set = TemplateSet::new();
    set.add_template("status_page", "one").unwrap();
    let e = set.add_template("status_page", "two").unwrap_err();
    assert!(matches!(e, BuildError::TemplateSyntax(_)));
}
