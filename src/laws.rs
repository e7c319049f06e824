//! Facts about registration that hold for every registry.
use crate::engine::rendered;
use crate::value::Data;
use vstd::prelude::*;

verus! {

/// Registering a name a second time replaces the first source: the templates
/// after registering `first` and then `second` under `name` are those after
/// registering `second` alone, so every later render, of any template, with
/// any context and policy, reads only the latest source.
pub proof fn reregistering_replaces(
    templates: Map<Seq<char>, Seq<char>>,
    name: Seq<char>,
    first: Seq<char>,
    second: Seq<char>,
    target: Seq<char>,
    context: Data,
    strict: bool,
)
    ensures
        templates.insert(name, first).insert(name, second) == templates.insert(name, second),
        rendered(templates.insert(name, first).insert(name, second), target, context, strict)
            == rendered(templates.insert(name, second), target, context, strict),
{
    assert(templates.insert(name, first).insert(name, second) =~= templates.insert(name, second));
}

} // verus!
