//! The calls into minijinja that the library relies on, each with the
//! contract it is trusted to meet.
use crate::error::ErrorKind;
use crate::registry::UndefinedPolicy;
use crate::value::Data;
use vstd::prelude::*;

verus! {

#[verifier::external_type_specification]
#[verifier::external_body]
pub struct ExJinjaValue(minijinja::Value);

#[verifier::external_type_specification]
#[verifier::external_body]
pub struct ExEnvironment<'a>(minijinja::Environment<'a>);

#[verifier::external_type_specification]
#[verifier::external_body]
pub struct ExJinjaError(minijinja::Error);

/// What a minijinja value holds, in the model of context data.
pub uninterp spec fn held_data(v: minijinja::Value) -> Data;

/// The templates an environment stores: name to source.
pub uninterp spec fn stored_templates(e: minijinja::Environment<'static>) -> Map<Seq<char>, Seq<char>>;

/// Whether an environment fails on undefined values instead of rendering them empty.
pub uninterp spec fn strict_undefined(e: minijinja::Environment<'static>) -> bool;

/// Whether an environment defines a global function or variable of this name.
pub uninterp spec fn has_global(e: minijinja::Environment<'static>, name: Seq<char>) -> bool;

/// Whether an environment is set up as `Environment::new` leaves it: its
/// filters, tests, formatter and callbacks, no loader, no borrowed template,
/// and the undefined behaviour `Lenient` or `Strict`.
pub uninterp spec fn default_setup(e: minijinja::Environment<'static>) -> bool;

/// Whether no sequence or map object inside a value is referenced from
/// anywhere else, so that no two places in it are the same object.
pub uninterp spec fn unaliased(v: minijinja::Value) -> bool;

/// The globals that `Environment::new` defines.
pub open spec fn default_global(name: Seq<char>) -> bool {
    name == "range"@ || name == "dict"@ || name == "debug"@ || name == "namespace"@
}

/// Whether minijinja's compiler accepts `source` as the template `name`.
pub uninterp spec fn compiles(name: Seq<char>, source: Seq<char>) -> bool;

/// The text that minijinja renders for the template `name` among `templates`
/// with the given context and undefined policy, in an environment with the
/// default setup and the default globals but for `debug`, and an unaliased
/// context; `None` where it fails.
pub uninterp spec fn rendered(
    templates: Map<Seq<char>, Seq<char>>,
    name: Seq<char>,
    context: Data,
    strict: bool,
) -> Option<Seq<char>>;

/// Relies on `minijinja::Value::from(())`: the none value.
#[verifier::external_body]
pub(crate) fn jinja_none() -> (r: minijinja::Value)
    ensures
        held_data(r) == Data::Null,
        unaliased(r),
{
    minijinja::Value::from(())
}

/// Relies on `minijinja::Value::from(bool)`: a boolean value.
#[verifier::external_body]
pub(crate) fn jinja_bool(b: bool) -> (r: minijinja::Value)
    ensures
        held_data(r) == Data::Bool(b),
        unaliased(r),
{
    minijinja::Value::from(b)
}

/// Relies on `minijinja::Value::from(i64)`: an integer value.
#[verifier::external_body]
pub(crate) fn jinja_int(i: i64) -> (r: minijinja::Value)
    ensures
        held_data(r) == Data::Int(i as int),
        unaliased(r),
{
    minijinja::Value::from(i)
}

/// Relies on `minijinja::Value::from(String)`: a string value.
#[verifier::external_body]
pub(crate) fn jinja_str(s: String) -> (r: minijinja::Value)
    ensures
        held_data(r) == Data::Text(s@),
        unaliased(r),
{
    minijinja::Value::from(s)
}

/// Relies on `minijinja::Value::from(Vec<Value>)`: a new sequence object of
/// the items, in order, which are moved into it.
#[verifier::external_body]
pub(crate) fn jinja_list(items: Vec<minijinja::Value>) -> (r: minijinja::Value)
    requires
        forall|i: int| 0 <= i < items@.len() ==> unaliased(#[trigger] items@[i]),
    ensures
        unaliased(r),
        held_data(r) == Data::List(items@.map_values(|x: minijinja::Value| held_data(x))),
{
    minijinja::Value::from(items)
}

/// Relies on `minijinja::Value::from_iter` over key/value pairs, which collects
/// them into an insertion-ordered map (the `preserve_order` feature): with
/// distinct keys, the entries in the order given.
#[verifier::external_body]
pub(crate) fn jinja_dict(entries: Vec<(String, minijinja::Value)>) -> (r: minijinja::Value)
    requires
        entries@.map_values(|e: (String, minijinja::Value)| e.0@).no_duplicates(),
        forall|i: int| 0 <= i < entries@.len() ==> unaliased((#[trigger] entries@[i]).1),
    ensures
        unaliased(r),
        held_data(r) == Data::Dict(
            entries@.map_values(|e: (String, minijinja::Value)| (e.0@, held_data(e.1))),
        ),
{
    minijinja::Value::from_iter(entries)
}

/// Relies on `minijinja::Environment::new`: no templates, lenient undefined
/// values, the default setup and the default globals.
#[verifier::external_body]
pub(crate) fn new_environment() -> (r: minijinja::Environment<'static>)
    ensures
        stored_templates(r).dom() == Set::<Seq<char>>::empty(),
        strict_undefined(r) == false,
        default_setup(r),
        forall|n: Seq<char>| has_global(r, n) == default_global(n),
{
    minijinja::Environment::new()
}

/// Relies on `minijinja::Environment::add_template_owned`: it compiles the
/// source, and on success stores it under the name, replacing an earlier
/// template of that name; on a syntax error it stores nothing (an environment
/// of the default setup has no borrowed template, which it would drop first).
#[verifier::external_body]
pub(crate) fn add_template(
    e: &mut minijinja::Environment<'static>,
    name: String,
    source: String,
) -> (r: Result<(), minijinja::Error>)
    requires
        default_setup(*old(e)),
    ensures
        default_setup(*final(e)),
        r is Ok <==> compiles(name@, source@),
        r is Ok ==> stored_templates(*final(e)) == stored_templates(*old(e)).insert(name@, source@),
        r is Err ==> stored_templates(*final(e)) == stored_templates(*old(e)),
        strict_undefined(*final(e)) == strict_undefined(*old(e)),
        forall|n: Seq<char>| has_global(*final(e), n) == has_global(*old(e), n),
{
    e.add_template_owned(name, source)
}

/// Relies on `minijinja::Environment::remove_global`: the global of that
/// name is gone, and templates and policy stay as they were.
#[verifier::external_body]
pub(crate) fn remove_global(e: &mut minijinja::Environment<'static>, name: &str) -> (r: ())
    ensures
        has_global(*final(e), name@) == false,
        forall|n: Seq<char>| n != name@ ==> has_global(*final(e), n) == has_global(*old(e), n),
        default_setup(*final(e)) == default_setup(*old(e)),
        stored_templates(*final(e)) == stored_templates(*old(e)),
        strict_undefined(*final(e)) == strict_undefined(*old(e)),
{
    e.remove_global(name)
}

/// Relies on `minijinja::Environment::get_template`: with no loader set, it
/// finds exactly the templates that were added, and changes nothing.
#[verifier::external_body]
pub(crate) fn has_template(e: &minijinja::Environment<'static>, name: &str) -> (r: bool)
    requires
        default_setup(*e),
    ensures
        r == stored_templates(*e).contains_key(name@),
{
    e.get_template(name).is_ok()
}

/// Relies on `minijinja::Environment::set_undefined_behavior`, with
/// `UndefinedBehavior::Lenient` or `UndefinedBehavior::Strict`.
#[verifier::external_body]
pub(crate) fn set_undefined(e: &mut minijinja::Environment<'static>, policy: UndefinedPolicy) -> (r: ())
    ensures
        strict_undefined(*final(e)) == (policy == UndefinedPolicy::Strict),
        default_setup(*final(e)) == default_setup(*old(e)),
        stored_templates(*final(e)) == stored_templates(*old(e)),
        forall|n: Seq<char>| has_global(*final(e), n) == has_global(*old(e), n),
{
    let behavior = match policy {
        UndefinedPolicy::Lenient => minijinja::UndefinedBehavior::Lenient,
        UndefinedPolicy::Strict => minijinja::UndefinedBehavior::Strict,
    };
    e.set_undefined_behavior(behavior)
}

/// Relies on `minijinja::Environment::get_template` followed by
/// `minijinja::Template::render`. In an environment with the default setup
/// and without the `debug` global, whose output lists the environment's
/// templates in the order of a randomly seeded hash map, and with a context
/// in which no object occurs twice (the `sameas` test compares objects by
/// address), the result is a function of the stored templates, the name, the
/// context's data and the undefined policy; a name that is not stored is not
/// found.
#[verifier::external_body]
pub(crate) fn render_template(
    e: &minijinja::Environment<'static>,
    name: &str,
    context: minijinja::Value,
) -> (r: Result<String, minijinja::Error>)
    requires
        default_setup(*e),
        forall|n: Seq<char>| has_global(*e, n) == (default_global(n) && n != "debug"@),
        unaliased(context),
    ensures
        match r {
            Ok(s) => rendered(stored_templates(*e), name@, held_data(context), strict_undefined(*e))
                == Some(s@),
            Err(_) => rendered(stored_templates(*e), name@, held_data(context), strict_undefined(*e))
                is None,
        },
        !stored_templates(*e).contains_key(name@) ==> r is Err,
{
    e.get_template(name)?.render(context)
}


/// Relies on `minijinja::Error::kind`, read into the library's error kinds.
#[verifier::external_body]
pub(crate) fn error_kind(e: &minijinja::Error) -> (r: ErrorKind)
{
    match e.kind() {
        minijinja::ErrorKind::SyntaxError => ErrorKind::Syntax,
        minijinja::ErrorKind::TemplateNotFound => ErrorKind::UnknownTemplate,
        minijinja::ErrorKind::UndefinedError => ErrorKind::Undefined,
        _ => ErrorKind::Eval,
    }
}

/// Relies on minijinja's `Display` of an error, for its message.
#[verifier::external_body]
pub(crate) fn error_message(e: &minijinja::Error) -> (r: String)
{
    e.to_string()
}

} // verus!
