use jinja_compat::error::ErrorKind;
use jinja_compat::fixtures::{
    items_context, matrix_context, name_context, render_conditional, render_default,
    render_greeting, render_inherited, render_items, render_matrix, render_source, render_user,
    render_with_parent,
};
use jinja_compat::registry::{Registry, UndefinedPolicy};
use jinja_compat::value::ContextValue;

fn text(s: &str) -> ContextValue {
    ContextValue::Str(s.to_string())
}

fn dict(entries: Vec<(&str, ContextValue)>) -> ContextValue {
    ContextValue::Dict(entries.into_iter().map(|(k, v)| (k.to_string(), v)).collect())
}

fn render_one(source: &str, context: &ContextValue) -> String {
    render_source(source, context).unwrap()
}

#[test]
fn hello_world_scenario() {
    let mut registry = Registry::new();
    registry.register("hello", "Hello {{ name }}!").unwrap();
    let context = dict(vec![("name", text("World"))]);
    assert_eq!(registry.render("hello", &context).unwrap(), "Hello World!");
}

#[test]
fn for_loop_joined_by_comma() {
    let out = render_items("{% for item in items %}{{ item }}{% if not loop.last %}, {% endif %}{% endfor %}");
    assert_eq!(out.unwrap(), "apple, banana, cherry");
}

#[test]
fn nested_loops_over_matrix() {
    let source = "{% for row in matrix %}{% for x in row %}{{ x }}{% if not loop.last %} {% endif %}{% endfor %}{% if not loop.last %}\n{% endif %}{% endfor %}";
    assert_eq!(render_matrix(source).unwrap(), "1 2 3\n4 5 6\n7 8 9");
}

#[test]
fn plain_text_with_expressions_in_order() {
    let context = dict(vec![("a", text("x")), ("b", ContextValue::Int(7)), ("c", ContextValue::Bool(true))]);
    assert_eq!(render_one("<{{ a }}-{{ b }}-{{ c }}-{{ a }}>", &context), "<x-7-True-x>");
    assert_eq!(render_one("no expressions at all", &context), "no expressions at all");
}

#[test]
fn for_loop_concatenates_in_order() {
    let context = dict(vec![(
        "s",
        ContextValue::List(vec![text("b"), ContextValue::Int(3), text("a")]),
    )]);
    assert_eq!(render_one("{% for x in s %}{{ x }}{% endfor %}", &context), "b3a");
}

#[test]
fn for_loop_over_empty_renders_else() {
    let context = dict(vec![("s", ContextValue::List(vec![]))]);
    assert_eq!(render_one("{% for x in s %}{{ x }}{% else %}empty{% endfor %}", &context), "empty");
    assert_eq!(render_one("[{% for x in s %}{{ x }}{% endfor %}]", &context), "[]");
}

#[test]
fn filter_pipeline_is_left_associative() {
    let context = name_context();
    let chained = render_one("{{ name | upper | replace('R', 'x') }}", &context);
    let nested = render_one("{{ (name | upper) | replace('R', 'x') }}", &context);
    assert_eq!(chained, "xIxIKO");
    assert_eq!(chained, nested);
    assert_eq!(render_one("{{ name | lower | length }}", &context), "6");
}

#[test]
fn default_filter_on_undefined_and_defined() {
    assert_eq!(render_default("{{ missing | default('X') }}").unwrap(), "X");
    assert_eq!(render_default("{{ value | default('X') }}").unwrap(), "Hello");
    let context = dict(vec![("n", ContextValue::Int(0)), ("t", ContextValue::Bool(false))]);
    assert_eq!(render_one("{{ n | default('X') }} {{ t | default('X') }}", &context), "0 False");
}

#[test]
fn child_block_overrides_parent_block() {
    let parent = "<{% block a %}A{% endblock %}|{% block b %}B{% endblock %}>";
    let child = "{% extends \"base.txt\" %}{% block a %}child {{ name }}{% endblock %}";
    assert_eq!(render_inherited(parent, child).unwrap(), "<child Ririko|B>");
}

#[test]
fn child_block_can_call_parent_content() {
    let parent = "{% block a %}A{% endblock %}";
    let child = "{% extends \"base.txt\" %}{% block a %}[{{ super() }}]{% endblock %}";
    assert_eq!(render_with_parent(parent, child, &ContextValue::Null).unwrap(), "[A]");
}

#[test]
fn registering_again_replaces_the_source() {
    let mut registry = Registry::new();
    registry.register("page", "first {{ name }}").unwrap();
    registry.register("page", "second {{ name }}").unwrap();
    assert_eq!(registry.render("page", &name_context()).unwrap(), "second Ririko");
}

#[test]
fn failed_registration_keeps_the_earlier_source() {
    let mut registry = Registry::new();
    registry.register("page", "kept").unwrap();
    let err = registry.register("page", "{% for x in %}").unwrap_err();
    assert_eq!(err.kind, ErrorKind::Syntax);
    assert_eq!(registry.render("page", &ContextValue::Null).unwrap(), "kept");
}

#[test]
fn unterminated_delimiter_is_a_syntax_error() {
    let err = render_source("Hello {{ name", &name_context()).unwrap_err();
    assert_eq!(err.kind, ErrorKind::Syntax);
    let err = render_source("{% if x %}never closed", &name_context()).unwrap_err();
    assert_eq!(err.kind, ErrorKind::Syntax);
}

#[test]
fn unknown_template_is_reported() {
    let registry = Registry::new();
    let err = registry.render("nowhere", &ContextValue::Null).unwrap_err();
    assert_eq!(err.kind, ErrorKind::UnknownTemplate);
    assert_eq!(err.message, "nowhere");
    assert!(!registry.contains("nowhere"));
}

#[test]
fn missing_parent_is_an_unknown_template() {
    let mut registry = Registry::new();
    registry.register("child", "{% extends \"gone.txt\" %}").unwrap();
    let err = registry.render("child", &ContextValue::Null).unwrap_err();
    assert_eq!(err.kind, ErrorKind::UnknownTemplate);
}

#[test]
fn undefined_policy_is_configurable() {
    let mut registry = Registry::new();
    registry.register("t", "[{{ missing }}]").unwrap();
    assert_eq!(registry.render("t", &ContextValue::Null).unwrap(), "[]");
    registry.set_undefined_policy(UndefinedPolicy::Strict);
    let err = registry.render("t", &ContextValue::Null).unwrap_err();
    assert_eq!(err.kind, ErrorKind::Undefined);
    registry.set_undefined_policy(UndefinedPolicy::Lenient);
    assert_eq!(registry.render("t", &ContextValue::Null).unwrap(), "[]");
}

#[test]
fn contains_tracks_registered_names() {
    let mut registry = Registry::new();
    assert!(!registry.contains("a"));
    registry.register("a", "x").unwrap();
    registry.register("b", "y").unwrap();
    registry.register("a", "z").unwrap();
    assert!(registry.contains("a"));
    assert!(registry.contains("b"));
    assert!(!registry.contains("c"));
}

#[test]
fn mapping_keeps_insertion_order() {
    let context = dict(vec![(
        "m",
        dict(vec![("zeta", ContextValue::Int(1)), ("alpha", ContextValue::Int(2))]),
    )]);
    assert_eq!(render_one("{% for k, v in m | items %}{{ k }}={{ v }};{% endfor %}", &context), "zeta=1;alpha=2;");
}

#[test]
fn values_of_every_kind_render() {
    let context = dict(vec![
        ("none", ContextValue::Null),
        ("yes", ContextValue::Bool(true)),
        ("big", ContextValue::Int(-9_000_000_000)),
        ("s", text("str")),
    ]);
    assert_eq!(render_one("{{ none }}|{{ yes }}|{{ big }}|{{ s }}", &context), "None|True|-9000000000|str");
}

#[test]
fn duplicate_keys_are_not_well_formed() {
    let good = dict(vec![("a", ContextValue::Int(1)), ("b", ContextValue::Int(2))]);
    assert!(good.is_well_formed());
    let bad = dict(vec![("a", ContextValue::Int(1)), ("a", ContextValue::Int(2))]);
    assert!(!bad.is_well_formed());
    let nested = ContextValue::List(vec![ContextValue::Null, bad]);
    assert!(!nested.is_well_formed());
    assert!(items_context().is_well_formed());
    assert!(matrix_context().is_well_formed());
}

#[test]
fn greeting_fixture() {
    assert_eq!(render_greeting("Hello, {{ name }}!").unwrap(), "Hello, Ririko!");
}

#[test]
fn conditional_fixture() {
    let source = "{% if show %}Shown {{ name }}{% else %}Hidden{% endif %}";
    assert_eq!(render_conditional(source).unwrap(), "Shown Ririko");
}

#[test]
fn range_and_set_fixtures() {
    assert_eq!(render_greeting("{% for i in range(3) %}{{ i }}{% endfor %}").unwrap(), "012");
    assert_eq!(render_greeting("{% set who = name ~ '!' %}{{ who }}").unwrap(), "Ririko!");
}

#[test]
fn set_does_not_leak_out_of_loop() {
    let source = "{% set x = 'outer' %}{% for i in range(2) %}{% set x = i %}{% endfor %}{{ x }}";
    assert_eq!(render_greeting(source).unwrap(), "outer");
}

#[test]
fn object_access_fixture() {
    let source = "{{ user.name }} is {{ user['age'] }}";
    assert_eq!(render_user(source).unwrap(), "Ririko is 25");
}

#[test]
fn loop_variables_fixture() {
    let source = "{% for item in items %}{{ loop.index }}/{{ loop.index0 }}/{{ loop.length }}:{{ item }}{% if loop.first %}^{% endif %}{% if loop.last %}${% endif %} {% endfor %}";
    assert_eq!(render_items(source).unwrap(), "1/0/3:apple^ 2/1/3:banana 3/2/3:cherry$ ");
}

#[test]
fn macro_fixture() {
    let source = "{% macro greet(who, greeting='Hi') %}{{ greeting }}, {{ who }}!{% endmacro %}{{ greet(name) }} {{ greet(name, greeting='Yo') }}";
    assert_eq!(render_greeting(source).unwrap(), "Hi, Ririko! Yo, Ririko!");
}

#[test]
fn debug_global_is_not_available() {
    let parent = "{% block a %}A{% endblock %}";
    let err = render_with_parent(parent, "{{ debug() }}", &ContextValue::Null).unwrap_err();
    assert_eq!(err.kind, ErrorKind::Eval);
    let err = render_source("{{ debug() }}", &ContextValue::Null).unwrap_err();
    assert_eq!(err.kind, ErrorKind::Eval);
}
