//! The contexts of the compatibility fixtures, and rendering a fixture's
//! templates with one of them.
use crate::engine::compiles;
use crate::error::{ErrorKind, TemplateError};
use crate::registry::{agrees_with_engine, Registry};
use crate::value::{ContextValue, Data};
use vstd::prelude::*;

verus! {

/// The name under which a fixture's main template is registered.
pub open spec fn main_name() -> Seq<char> {
    "template"@
}

/// The name under which a fixture's parent template is registered.
pub open spec fn parent_name() -> Seq<char> {
    "base.txt"@
}

/// The outcome of rendering `source` alone, as the main template, with
/// `context` under the lenient policy: a syntax error where it does not
/// compile, else what the engine renders.
pub open spec fn single_outcome(r: Result<String, TemplateError>, source: Seq<char>, context: Data) -> bool {
    &&& !compiles(main_name(), source) ==> (r matches Err(e) && e.kind == ErrorKind::Syntax)
    &&& compiles(main_name(), source) ==> agrees_with_engine(
        r,
        Map::empty().insert(main_name(), source),
        main_name(),
        context,
        false,
    )
}

/// Renders `source` as the main template with `context`.
pub fn render_source(source: &str, context: &ContextValue) -> (r: Result<String, TemplateError>)
    requires
        context.well_formed(),
    ensures
        single_outcome(r, source@, context.data()),
{
    let mut registry = Registry::new();
    let name = "template";
    proof {
        reveal_strlit("template");
    }
    match registry.register(name, source) {
        Ok(()) => {},
        Err(e) => return Err(e),
    }
    proof {
        assert(registry@ =~= Map::empty().insert(main_name(), source@));
    }
    registry.render(name, context)
}

/// Renders `source` as the main template, with `parent` registered as the
/// parent template, with `context`: a syntax error where either does not
/// compile, else what the engine renders.
pub fn render_with_parent(parent: &str, source: &str, context: &ContextValue) -> (r: Result<
    String,
    TemplateError,
>)
    requires
        context.well_formed(),
    ensures
        !(compiles(parent_name(), parent@) && compiles(main_name(), source@)) ==> (r matches Err(e)
            && e.kind == ErrorKind::Syntax),
        compiles(parent_name(), parent@) && compiles(main_name(), source@) ==> agrees_with_engine(
            r,
            Map::empty().insert(parent_name(), parent@).insert(main_name(), source@),
            main_name(),
            context.data(),
            false,
        ),
{
    let mut registry = Registry::new();
    let base = "base.txt";
    let name = "template";
    proof {
        reveal_strlit("base.txt");
        reveal_strlit("template");
    }
    match registry.register(base, parent) {
        Ok(()) => {},
        Err(e) => return Err(e),
    }
    match registry.register(name, source) {
        Ok(()) => {},
        Err(e) => return Err(e),
    }
    proof {
        assert(registry@ =~= Map::empty().insert(parent_name(), parent@).insert(main_name(), source@));
    }
    registry.render(name, context)
}


/// `{name: "Ririko"}`.
pub open spec fn name_data() -> Data {
    Data::Dict(seq![("name"@, Data::Text("Ririko"@))])
}

/// `{items: ["apple", "banana", "cherry"]}`.
pub open spec fn items_data() -> Data {
    Data::Dict(
        seq![("items"@, Data::List(seq![Data::Text("apple"@), Data::Text("banana"@), Data::Text("cherry"@)]))],
    )
}

/// `{show: true, name: "Ririko"}`.
pub open spec fn conditional_data() -> Data {
    Data::Dict(seq![("show"@, Data::Bool(true)), ("name"@, Data::Text("Ririko"@))])
}

/// `{user: {name: "Ririko", age: 25}}`.
pub open spec fn user_data() -> Data {
    Data::Dict(
        seq![("user"@, Data::Dict(seq![("name"@, Data::Text("Ririko"@)), ("age"@, Data::Int(25))]))],
    )
}

/// `{value: "Hello"}`.
pub open spec fn default_data() -> Data {
    Data::Dict(seq![("value"@, Data::Text("Hello"@))])
}

/// A row of three integers.
pub open spec fn row_data(a: int, b: int, c: int) -> Data {
    Data::List(seq![Data::Int(a), Data::Int(b), Data::Int(c)])
}

/// `{matrix: [[1, 2, 3], [4, 5, 6], [7, 8, 9]]}`.
pub open spec fn matrix_data() -> Data {
    Data::Dict(
        seq![("matrix"@, Data::List(seq![row_data(1, 2, 3), row_data(4, 5, 6), row_data(7, 8, 9)]))],
    )
}

/// A text value.
fn text(s: &str) -> (r: ContextValue)
    ensures
        r.data() == Data::Text(s@),
        r.well_formed(),
{
    ContextValue::Str(String::from_str(s))
}

/// A mapping with a single entry.
fn single_entry(key: &str, value: ContextValue) -> (r: ContextValue)
    requires
        value.well_formed(),
    ensures
        r.data() == Data::Dict(seq![(key@, value.data())]),
        r.well_formed(),
{
    let r = ContextValue::Dict(vec![(String::from_str(key), value)]);
    proof {
        assert(r.data()->Dict_0 =~= seq![(key@, value.data())]);
    }
    r
}

/// The context `{name: "Ririko"}`.
pub fn name_context() -> (r: ContextValue)
    ensures
        r.data() == name_data(),
        r.well_formed(),
{
    proof {
        reveal_strlit("name");
        reveal_strlit("Ririko");
    }
    single_entry("name", text("Ririko"))
}

/// The context `{items: ["apple", "banana", "cherry"]}`.
pub fn items_context() -> (r: ContextValue)
    ensures
        r.data() == items_data(),
        r.well_formed(),
{
    let items = ContextValue::List(vec![text("apple"), text("banana"), text("cherry")]);
    proof {
        assert(items.data()->List_0 =~= seq![Data::Text("apple"@), Data::Text("banana"@), Data::Text("cherry"@)]);
    }
    single_entry("items", items)
}

/// The context `{show: true, name: "Ririko"}`.
pub fn conditional_context() -> (r: ContextValue)
    ensures
        r.data() == conditional_data(),
        r.well_formed(),
{
    proof {
        reveal_strlit("show");
        reveal_strlit("name");
    }
    let r = ContextValue::Dict(
        vec![
            (String::from_str("show"), ContextValue::Bool(true)),
            (String::from_str("name"), text("Ririko")),
        ],
    );
    proof {
        reveal_with_fuel(ContextValue::data, 2);
        reveal_with_fuel(ContextValue::well_formed, 2);
        assert(r.data()->Dict_0 =~= conditional_data()->Dict_0);
        assert("show"@[0] != "name"@[0]);
    }
    r
}

/// The context `{user: {name: "Ririko", age: 25}}`.
pub fn user_context() -> (r: ContextValue)
    ensures
        r.data() == user_data(),
        r.well_formed(),
{
    proof {
        reveal_strlit("name");
        reveal_strlit("age");
    }
    let user = ContextValue::Dict(
        vec![
            (String::from_str("name"), text("Ririko")),
            (String::from_str("age"), ContextValue::Int(25)),
        ],
    );
    proof {
        reveal_with_fuel(ContextValue::data, 2);
        reveal_with_fuel(ContextValue::well_formed, 2);
        assert("name"@.len() != "age"@.len());
        assert(user.data()->Dict_0 =~= seq![("name"@, Data::Text("Ririko"@)), ("age"@, Data::Int(25))]);
    }
    single_entry("user", user)
}

/// The context `{value: "Hello"}`.
pub fn default_context() -> (r: ContextValue)
    ensures
        r.data() == default_data(),
        r.well_formed(),
{
    single_entry("value", text("Hello"))
}

/// A row of three integers.
fn row(a: i64, b: i64, c: i64) -> (r: ContextValue)
    ensures
        r.data() == row_data(a as int, b as int, c as int),
        r.well_formed(),
{
    let r = ContextValue::List(vec![ContextValue::Int(a), ContextValue::Int(b), ContextValue::Int(c)]);
    proof {
        reveal_with_fuel(ContextValue::data, 2);
        reveal_with_fuel(ContextValue::well_formed, 2);
        assert(r.data()->List_0 =~= row_data(a as int, b as int, c as int)->List_0);
    }
    r
}

/// The context `{matrix: [[1, 2, 3], [4, 5, 6], [7, 8, 9]]}`.
pub fn matrix_context() -> (r: ContextValue)
    ensures
        r.data() == matrix_data(),
        r.well_formed(),
{
    let matrix = ContextValue::List(vec![row(1, 2, 3), row(4, 5, 6), row(7, 8, 9)]);
    proof {
        assert(matrix.data()->List_0 =~= seq![row_data(1, 2, 3), row_data(4, 5, 6), row_data(7, 8, 9)]);
    }
    single_entry("matrix", matrix)
}


/// Renders `source` as the main template with `{name: "Ririko"}`.
pub fn render_greeting(source: &str) -> (r: Result<String, TemplateError>)
    ensures
        single_outcome(r, source@, name_data()),
{
    let context = name_context();
    render_source(source, &context)
}

/// Renders `source` as the main template, with `parent` as the parent
/// template, with `{name: "Ririko"}`.
pub fn render_inherited(parent: &str, source: &str) -> (r: Result<String, TemplateError>)
    ensures
        !(compiles(parent_name(), parent@) && compiles(main_name(), source@)) ==> (r matches Err(e)
            && e.kind == ErrorKind::Syntax),
        compiles(parent_name(), parent@) && compiles(main_name(), source@) ==> agrees_with_engine(
            r,
            Map::empty().insert(parent_name(), parent@).insert(main_name(), source@),
            main_name(),
            name_data(),
            false,
        ),
{
    let context = name_context();
    render_with_parent(parent, source, &context)
}

/// Renders `source` as the main template with `{items: ["apple", "banana", "cherry"]}`.
pub fn render_items(source: &str) -> (r: Result<String, TemplateError>)
    ensures
        single_outcome(r, source@, items_data()),
{
    let context = items_context();
    render_source(source, &context)
}

/// Renders `source` as the main template with `{show: true, name: "Ririko"}`.
pub fn render_conditional(source: &str) -> (r: Result<String, TemplateError>)
    ensures
        single_outcome(r, source@, conditional_data()),
{
    let context = conditional_context();
    render_source(source, &context)
}

/// Renders `source` as the main template with `{user: {name: "Ririko", age: 25}}`.
pub fn render_user(source: &str) -> (r: Result<String, TemplateError>)
    ensures
        single_outcome(r, source@, user_data()),
{
    let context = user_context();
    render_source(source, &context)
}

/// Renders `source` as the main template with `{value: "Hello"}`.
pub fn render_default(source: &str) -> (r: Result<String, TemplateError>)
    ensures
        single_outcome(r, source@, default_data()),
{
    let context = default_context();
    render_source(source, &context)
}

/// Renders `source` as the main template with `{matrix: [[1, 2, 3], [4, 5, 6], [7, 8, 9]]}`.
pub fn render_matrix(source: &str) -> (r: Result<String, TemplateError>)
    ensures
        single_outcome(r, source@, matrix_data()),
{
    let context = matrix_context();
    render_source(source, &context)
}

} // verus!
