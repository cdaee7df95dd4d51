use xef::template::{render, Context};

fn context(pairs: &[(&str, &str)]) -> Context {
    let mut context = Context::new();
    for (key, value) in pairs {
        context.bind(key, value);
    }
    context
}

#[test]
fn render_replaces_a_bound_placeholder() {
    let ctx = context(&[("name", "demo")]);
    assert_eq!(render("Hello, {{ name }}!", &ctx), "Hello, demo!");
}

#[test]
fn render_keeps_an_unbound_placeholder() {
    let ctx = context(&[("path", "./examples/demo")]);
    assert_eq!(render("Hello, {{ name }}!", &ctx), "Hello, {{ name }}!");
}

#[test]
fn render_with_empty_context_changes_nothing() {
    let template = "a {{ b }} c {{d}} {{ }} {{ e";
    assert_eq!(render(template, &Context::new()), template);
}

#[test]
fn render_of_empty_template_is_empty() {
    let ctx = context(&[("name", "demo")]);
    assert_eq!(render("", &ctx), "");
}

#[test]
fn render_accepts_any_padding_of_blanks() {
    let ctx = context(&[("name", "demo")]);
    assert_eq!(render("{{name}}|{{  name   }}|{{name }}|{{ name}}", &ctx), "demo|demo|demo|demo");
}

#[test]
fn render_replaces_every_occurrence() {
    let ctx = context(&[("a", "1"), ("b", "2")]);
    assert_eq!(render("{{ a }}{{ b }}{{ a }}", &ctx), "121");
}

#[test]
fn render_does_not_read_values_as_templates() {
    let ctx = context(&[("a", "{{ b }}"), ("b", "x")]);
    assert_eq!(render("{{ a }}-{{ b }}", &ctx), "{{ b }}-x");
}

#[test]
fn render_keeps_what_is_no_placeholder() {
    let ctx = context(&[("name", "demo"), ("na me", "x")]);
    assert_eq!(render("{ name }", &ctx), "{ name }");
    assert_eq!(render("{{ name }", &ctx), "{{ name }");
    assert_eq!(render("{{ na me }}", &ctx), "{{ na me }}");
    assert_eq!(render("{{ na-me }}", &ctx), "{{ na-me }}");
    assert_eq!(render("{{\tname }}", &ctx), "{{\tname }}");
    assert_eq!(render("{{ }}", &ctx), "{{ }}");
    assert_eq!(render("{{", &ctx), "{{");
}

#[test]
fn render_finds_a_placeholder_behind_a_brace() {
    let ctx = context(&[("name", "demo")]);
    assert_eq!(render("{{{ name }}}", &ctx), "{demo}");
}

#[test]
fn render_takes_letters_digits_and_underscores_as_key() {
    let ctx = context(&[("Key_9", "v")]);
    assert_eq!(render("<{{ Key_9 }}>", &ctx), "<v>");
}

#[test]
fn render_keeps_text_outside_ascii() {
    let ctx = context(&[("name", "caf\u{e9}")]);
    assert_eq!(render("\u{2713} {{ name }} \u{1F600}", &ctx), "\u{2713} caf\u{e9} \u{1F600}");
}

#[test]
fn render_replaces_by_an_empty_value() {
    let ctx = context(&[("content", "")]);
    assert_eq!(render("[{{ content }}]", &ctx), "[]");
}

#[test]
fn context_gives_the_latest_binding() {
    let mut ctx = Context::new();
    assert_eq!(ctx.get("name"), None);
    ctx.bind("name", "one");
    ctx.bind("path", "p");
    assert_eq!(ctx.get("name"), Some("one"));
    ctx.bind("name", "two");
    assert_eq!(ctx.get("name"), Some("two"));
    assert_eq!(ctx.get("path"), Some("p"));
    assert_eq!(ctx.get("other"), None);
    assert_eq!(render("{{ name }}", &ctx), "two");
}
