//! The template engine, `minijinja`.
//!
//! The engine compiles and runs the chat template; this crate hands it the
//! source and the bindings and takes back the text or the failure.  Verified
//! code sees a template value through the model [`Datum`]: [`datum_of`] names
//! what a value holds.  What the engine makes of a source is named by
//! [`compile_diagnostic`] and [`rendered`].  The items at the end of this file state
//! what is assumed of each call into `minijinja`; none of it is proved.
use vstd::prelude::*;

verus! {

/// What a template value holds, as far as this crate makes one.
pub enum Datum {
    Text(Seq<char>),
    Flag(bool),
    List(Seq<Datum>),
    Record(Map<Seq<char>, Datum>),
}

/// The record that a sequence of keys and values makes.
pub open spec fn record_of(entries: Seq<(Seq<char>, Datum)>) -> Map<Seq<char>, Datum>
    decreases entries.len(),
{
    if entries.len() == 0 {
        Map::empty()
    } else {
        record_of(entries.drop_last()).insert(entries.last().0, entries.last().1)
    }
}

/// No key stands twice in `entries`.
pub open spec fn distinct_keys(entries: Seq<(Seq<char>, Datum)>) -> bool {
    forall|i: int, j: int|
        0 <= i < j < entries.len() ==> (#[trigger] entries[i]).0 != (#[trigger] entries[j]).0
}

/// The keys and values of a record that is about to be made.
pub open spec fn entries_view(entries: Seq<(String, minijinja::Value)>) -> Seq<
    (Seq<char>, Datum),
> {
    Seq::new(entries.len(), |i: int| (entries[i].0@, datum_of(entries[i].1)))
}

/// The values of a list that is about to be made.
pub open spec fn items_view(items: Seq<minijinja::Value>) -> Seq<Datum> {
    Seq::new(items.len(), |i: int| datum_of(items[i]))
}

/// What a template value holds.
pub uninterp spec fn datum_of(value: minijinja::Value) -> Datum;

/// The message that an error of the engine prints.
pub uninterp spec fn message_of(error: minijinja::Error) -> Seq<char>;

/// Whether an environment is the one that [`strict_engine`] makes: the built-in
/// filters, tests and functions, no template loaded, every use of an undefined
/// variable an error, and the debug mode off.
pub uninterp spec fn engine_is_strict(env: minijinja::Environment<'static>) -> bool;

/// What the engine objects to in a source, where it does not accept the source
/// as a template: the message of its error.
pub uninterp spec fn compile_diagnostic(source: Seq<char>) -> Option<Seq<char>>;

/// What the engine makes of a source under a context: the text that it renders,
/// or the message of the error with which it fails.
pub uninterp spec fn rendered(source: Seq<char>, context: Datum) -> Result<Seq<char>, Seq<char>>;

/// Adding an entry at the end of the entries adds it to the record.
pub proof fn lemma_record_push(entries: Seq<(Seq<char>, Datum)>, key: Seq<char>, value: Datum)
    ensures
        record_of(entries.push((key, value))) == record_of(entries).insert(key, value),
{
    assert(entries.push((key, value)).drop_last() =~= entries);
}

/// A value of the engine: what a template variable is bound to.
#[verifier::external_type_specification]
#[verifier::external_body]
pub struct ExTemplateValue(minijinja::Value);

/// An error of the engine.
#[verifier::external_type_specification]
#[verifier::external_body]
pub struct ExTemplateError(minijinja::Error);

/// The engine's environment: its settings, filters, tests and functions.
#[verifier::external_type_specification]
#[verifier::external_body]
pub struct ExEnvironment<'source>(minijinja::Environment<'source>);

/// `minijinja::Environment::new`, followed by
/// `Environment::set_undefined_behavior` with `UndefinedBehavior::Strict` and by
/// `Environment::set_debug` with `false`.  Assumed: the result is the
/// environment that [`engine_is_strict`] describes.  The debug mode is switched
/// off because its default follows the build profile, and the messages of the
/// engine's errors follow the debug mode.
#[verifier::external_body]
pub(crate) fn strict_engine() -> (env: minijinja::Environment<'static>)
    ensures
        engine_is_strict(env),
{
    let mut env = minijinja::Environment::new();
    env.set_undefined_behavior(minijinja::UndefinedBehavior::Strict);
    env.set_debug(false);
    env
}

/// `minijinja::Environment::template_from_str`, keeping only the failure.
/// Assumed: whether a source compiles in the strict environment, and the error
/// where it does not, depend on the source alone.
#[verifier::external_body]
pub(crate) fn compile_failure(env: &minijinja::Environment<'static>, source: &str) -> (failure:
    Option<minijinja::Error>)
    requires
        engine_is_strict(*env),
    ensures
        match failure {
            Some(error) => compile_diagnostic(source@) == Some(message_of(error)),
            None => compile_diagnostic(source@) is None,
        },
{
    env.template_from_str(source).err()
}

/// `minijinja::Environment::render_str`.  Assumed: whether the strict
/// environment renders a source under a context, the text that it then gives
/// and the error with which it otherwise fails depend on the source and on what
/// the context holds, and on nothing else.
#[verifier::external_body]
pub(crate) fn render_source(
    env: &minijinja::Environment<'static>,
    source: &str,
    context: minijinja::Value,
) -> (outcome: Result<String, minijinja::Error>)
    requires
        engine_is_strict(*env),
    ensures
        match outcome {
            Ok(text) => rendered(source@, datum_of(context)) == Ok::<Seq<char>, Seq<char>>(text@),
            Err(error) => rendered(source@, datum_of(context)) == Err::<Seq<char>, Seq<char>>(
                message_of(error),
            ),
        },
{
    env.render_str(source, context)
}

/// `to_string` on a `minijinja::Error`, which goes through its `Display`.
/// Assumed: the text is the message of the error.
#[verifier::external_body]
pub(crate) fn error_message(error: &minijinja::Error) -> (message: String)
    ensures
        message@ == message_of(*error),
{
    error.to_string()
}

/// `minijinja::Value::from` on a `&str`.  Assumed: the value is that string.
#[verifier::external_body]
pub(crate) fn text_value(text: &str) -> (value: minijinja::Value)
    ensures
        datum_of(value) == Datum::Text(text@),
{
    minijinja::Value::from(text)
}

/// `minijinja::Value::from` on a `bool`.  Assumed: the value is that boolean.
#[verifier::external_body]
pub(crate) fn flag_value(flag: bool) -> (value: minijinja::Value)
    ensures
        datum_of(value) == Datum::Flag(flag),
{
    minijinja::Value::from(flag)
}

/// `minijinja::Value::from` on a `Vec` of values.  Assumed: the value is the
/// sequence of those values, in their order.
#[verifier::external_body]
pub(crate) fn list_value(items: Vec<minijinja::Value>) -> (value: minijinja::Value)
    ensures
        datum_of(value) == Datum::List(items_view(items@)),
{
    minijinja::Value::from(items)
}

/// `minijinja::Value::from` on a `BTreeMap` from `String` to values, which is
/// collected from the entries.  Assumed: the value is the map from each key to
/// the value that stands with it.
#[verifier::external_body]
pub(crate) fn record_value(entries: Vec<(String, minijinja::Value)>) -> (value: minijinja::Value)
    requires
        distinct_keys(entries_view(entries@)),
    ensures
        datum_of(value) == Datum::Record(record_of(entries_view(entries@))),
{
    minijinja::Value::from(
        entries.into_iter().collect::<std::collections::BTreeMap<String, minijinja::Value>>(),
    )
}

} // verus!
