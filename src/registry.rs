//! Named templates, and rendering one of them with a context.
use crate::engine::{
    add_template, default_global, default_setup, error_message, has_global, has_template, remove_global, compiles, new_environment, render_template, rendered, set_undefined,
    stored_templates, strict_undefined,
};
use crate::error::{ErrorKind, TemplateError};
use crate::value::{ContextValue, Data};
use vstd::prelude::*;

verus! {

/// The outcome of a render agrees with what the engine renders for
/// `templates`, `name`, `context` and `strict`: the text on success, and an
/// error exactly where the engine fails.
pub open spec fn agrees_with_engine(
    r: Result<String, TemplateError>,
    templates: Map<Seq<char>, Seq<char>>,
    name: Seq<char>,
    context: Data,
    strict: bool,
) -> bool {
    match r {
        Ok(s) => rendered(templates, name, context, strict) == Some(s@),
        Err(_) => rendered(templates, name, context, strict) is None,
    }
}

/// What rendering does with a value that is not defined.
#[derive(Debug, Clone, Copy, PartialEq, Eq, Structural)]
pub enum UndefinedPolicy {
    /// It renders as the empty string.
    Lenient,
    /// Using it is an error.
    Strict,
}

/// A set of templates, each registered under a unique name.
///
/// Its environment has minijinja's default filters, tests and globals, less
/// the `debug` global: that one prints the environment itself, and so makes
/// the output depend on more than the templates and the context.
pub struct Registry {
    env: minijinja::Environment<'static>,
}

impl View for Registry {
    type V = Map<Seq<char>, Seq<char>>;

    /// Each registered name with the source registered under it last.
    closed spec fn view(&self) -> Map<Seq<char>, Seq<char>> {
        stored_templates(self.env)
    }
}

impl Registry {
    /// Whether rendering fails on an undefined value instead of rendering it empty.
    pub closed spec fn strict(&self) -> bool {
        strict_undefined(self.env)
    }

    /// The environment has the default setup, and the default globals but
    /// for `debug`.
    pub closed spec fn well_formed(&self) -> bool {
        &&& default_setup(self.env)
        &&& forall|n: Seq<char>| has_global(self.env, n) == (default_global(n) && n != "debug"@)
    }

    /// An empty registry with the lenient undefined policy.
    pub fn new() -> (r: Registry)
        ensures
            r.well_formed(),
            r@ == Map::<Seq<char>, Seq<char>>::empty(),
            r.strict() == false,
    {
        let mut env = new_environment();
        remove_global(&mut env, "debug");
        let r = Registry { env };
        proof {
            assert(r@ =~= Map::<Seq<char>, Seq<char>>::empty());
        }
        r
    }

    /// Chooses whether undefined values are an error.
    pub fn set_undefined_policy(&mut self, policy: UndefinedPolicy)
        requires
            old(self).well_formed(),
        ensures
            final(self).well_formed(),
            final(self)@ == old(self)@,
            final(self).strict() == (policy == UndefinedPolicy::Strict),
    {
        set_undefined(&mut self.env, policy);
        assert(self@ == old(self)@);
    }

    /// Whether a template of this name is registered.
    pub fn contains(&self, name: &str) -> (r: bool)
        requires
            self.well_formed(),
        ensures
            r == self@.contains_key(name@),
    {
        has_template(&self.env, name)
    }

    /// Compiles `source` and registers it as `name`, replacing the template
    /// registered under that name before. A source that does not compile is
    /// a syntax error, and leaves the registry as it was.
    pub fn register(&mut self, name: &str, source: &str) -> (r: Result<(), TemplateError>)
        requires
            old(self).well_formed(),
        ensures
            final(self).well_formed(),
            final(self).strict() == old(self).strict(),
            r is Ok <==> compiles(name@, source@),
            r is Ok ==> final(self)@ == old(self)@.insert(name@, source@),
            r is Err ==> final(self)@ == old(self)@,
            r matches Err(e) ==> e.kind == ErrorKind::Syntax,
    {
        match add_template(&mut self.env, String::from_str(name), String::from_str(source)) {
            Ok(()) => Ok(()),
            Err(e) => Err(TemplateError { kind: ErrorKind::Syntax, message: error_message(&e) }),
        }
    }

    /// Renders the template `name` with `context`. A name that is not
    /// registered is an error of its own; otherwise the outcome is the
    /// engine's, under the registry's undefined policy.
    pub fn render(&self, name: &str, context: &ContextValue) -> (r: Result<String, TemplateError>)
        requires
            self.well_formed(),
            context.well_formed(),
        ensures
            !self@.contains_key(name@) ==> (r matches Err(e) && e.kind == ErrorKind::UnknownTemplate),
            self@.contains_key(name@) ==> agrees_with_engine(r, self@, name@, context.data(), self.strict()),
    {
        if !self.contains(name) {
            return Err(TemplateError::unknown_template(name));
        }
        let data = context.to_jinja();
        match render_template(&self.env, name, data) {
            Ok(text) => Ok(text),
            Err(e) => Err(TemplateError::from_engine(&e)),
        }
    }
}

} // verus!
