//! Rendering the chat template over a conversation.
//!
//! The template sees exactly six variables: `messages`, the conversation in its
//! order, each turn a record of `role` and `content`; `bos_token`, `eos_token`,
//! `pad_token` and `unk_token`, the text of each special token, empty where the
//! configuration has none; and `add_generation_prompt`.  The engine's text is
//! handed on as it is.
use crate::config::{AutoTokenizer, ConfigView};
use crate::engine::{
    compile_diagnostic, compile_failure, datum_of, distinct_keys, entries_view, error_message,
    flag_value, items_view, lemma_record_push, list_value, record_value, render_source, rendered,
    strict_engine, text_value, Datum,
};
use crate::error::{RenderError, RenderErrorView};
use crate::message::{messages_view, DefaultPromptMessage, MessageView};
use crate::token::{resolve_optional, resolved_text};
use vstd::prelude::*;

verus! {

/// The record that stands for one message.
pub open spec fn message_datum(message: MessageView) -> Datum {
    Datum::Record(
        Map::empty().insert("role"@, Datum::Text(message.role)).insert(
            "content"@,
            Datum::Text(message.content),
        ),
    )
}

/// The list that stands for a conversation: one record for each message, in the
/// order of the messages.
pub open spec fn messages_datum(messages: Seq<MessageView>) -> Datum {
    Datum::List(Seq::new(messages.len(), |i: int| message_datum(messages[i])))
}

/// The bindings that the template is rendered under.
pub open spec fn chat_bindings(
    config: ConfigView,
    messages: Seq<MessageView>,
    add_generation_prompt: bool,
) -> Map<Seq<char>, Datum> {
    Map::empty().insert("messages"@, messages_datum(messages)).insert(
        "bos_token"@,
        Datum::Text(resolved_text(config.bos_token)),
    ).insert("eos_token"@, Datum::Text(resolved_text(config.eos_token))).insert(
        "pad_token"@,
        Datum::Text(resolved_text(config.pad_token)),
    ).insert("unk_token"@, Datum::Text(resolved_text(config.unk_token))).insert(
        "add_generation_prompt"@,
        Datum::Flag(add_generation_prompt),
    )
}

/// The context that the template is rendered under.
pub open spec fn chat_context(
    config: ConfigView,
    messages: Seq<MessageView>,
    add_generation_prompt: bool,
) -> Datum {
    Datum::Record(chat_bindings(config, messages, add_generation_prompt))
}

/// What comes of rendering `source` under `context`: the text that the engine
/// renders; `TemplateInvalid` with the engine's message where the engine does
/// not accept the source as a template; `RenderFailed` with the engine's message
/// where it accepts the source and the template fails while it runs.
pub open spec fn rendering(source: Seq<char>, context: Datum) -> Result<
    Seq<char>,
    RenderErrorView,
> {
    match compile_diagnostic(source) {
        Some(message) => Err(RenderErrorView::TemplateInvalid(message)),
        None => match rendered(source, context) {
            Ok(text) => Ok(text),
            Err(message) => Err(RenderErrorView::RenderFailed(message)),
        },
    }
}

/// What the engine said of one source and one context.  A failure carries the
/// engine's message.
#[derive(Debug, Clone, PartialEq, Eq)]
pub enum EngineReport {
    /// The source is no template.
    Invalid(String),
    /// The template failed while it ran.
    Failed(String),
    /// The template gave this text.
    Rendered(String),
}

/// The outcome that a report of the engine stands for.
pub open spec fn report_view(report: EngineReport) -> Result<Seq<char>, RenderErrorView> {
    match report {
        EngineReport::Rendered(text) => Ok(text@),
        EngineReport::Invalid(message) => Err(RenderErrorView::TemplateInvalid(message@)),
        EngineReport::Failed(message) => Err(RenderErrorView::RenderFailed(message@)),
    }
}

/// What the outcome of a rendering is.
pub open spec fn render_outcome_view(outcome: Result<String, RenderError>) -> Result<
    Seq<char>,
    RenderErrorView,
> {
    match outcome {
        Ok(prompt) => Ok(prompt@),
        Err(error) => Err(error@),
    }
}

/// The outcome that a report of the engine stands for: the text as it is, with
/// nothing trimmed, escaped or added, or the failure with the engine's message.
pub fn outcome_of(report: EngineReport) -> (outcome: Result<String, RenderError>)
    ensures
        render_outcome_view(outcome) == report_view(report),
{
    match report {
        EngineReport::Rendered(text) => Ok(text),
        EngineReport::Invalid(message) => Err(RenderError::TemplateInvalid(message)),
        EngineReport::Failed(message) => Err(RenderError::RenderFailed(message)),
    }
}

/// The template value that stands for one message.
fn message_value(message: &DefaultPromptMessage) -> (value: minijinja::Value)
    ensures
        datum_of(value) == message_datum(message@),
{
    let mut entries: Vec<(String, minijinja::Value)> = Vec::new();
    entries.push(("role".to_owned(), text_value(message.role())));
    entries.push(("content".to_owned(), text_value(message.content())));
    proof {
        reveal_strlit("role");
        reveal_strlit("content");
        let role = Datum::Text(message@.role);
        let content = Datum::Text(message@.content);
        let first = Seq::<(Seq<char>, Datum)>::empty().push(("role"@, role));
        assert(entries_view(entries@) =~= first.push(("content"@, content)));
        lemma_record_push(Seq::empty(), "role"@, role);
        lemma_record_push(first, "content"@, content);
        assert("role"@.len() == 4 && "content"@.len() == 7);
        assert(distinct_keys(first.push(("content"@, content))));
    }
    record_value(entries)
}

/// The template value that stands for a conversation.
fn messages_value(messages: &Vec<DefaultPromptMessage>) -> (value: minijinja::Value)
    ensures
        datum_of(value) == messages_datum(messages_view(messages@)),
{
    let mut items: Vec<minijinja::Value> = Vec::new();
    let mut i: usize = 0;
    while i < messages.len()
        invariant
            i <= messages.len(),
            items.len() == i,
            forall|j: int| 0 <= j < i ==> datum_of(#[trigger] items[j]) == message_datum(messages[j]@),
        decreases messages.len() - i,
    {
        let item = message_value(&messages[i]);
        items.push(item);
        i += 1;
    }
    proof {
        let views = messages_view(messages@);
        assert(items_view(items@) =~= Seq::new(views.len(), |k: int| message_datum(views[k])));
    }
    list_value(items)
}

/// The template value that holds the bindings of a rendering.
fn context_value(
    config: &AutoTokenizer,
    messages: &Vec<DefaultPromptMessage>,
    add_generation_prompt: bool,
) -> (value: minijinja::Value)
    ensures
        datum_of(value) == chat_context(
            config@,
            messages_view(messages@),
            add_generation_prompt,
        ),
{
    let bos = resolve_optional(config.bos_token());
    let eos = resolve_optional(config.eos_token());
    let pad = resolve_optional(config.pad_token());
    let unk = resolve_optional(config.unk_token());
    let mut entries: Vec<(String, minijinja::Value)> = Vec::new();
    entries.push(("messages".to_owned(), messages_value(messages)));
    entries.push(("bos_token".to_owned(), text_value(bos)));
    entries.push(("eos_token".to_owned(), text_value(eos)));
    entries.push(("pad_token".to_owned(), text_value(pad)));
    entries.push(("unk_token".to_owned(), text_value(unk)));
    entries.push(("add_generation_prompt".to_owned(), flag_value(add_generation_prompt)));
    proof {
        lemma_binding_names_differ();
        let d0 = messages_datum(messages_view(messages@));
        let d1 = Datum::Text(resolved_text(config@.bos_token));
        let d2 = Datum::Text(resolved_text(config@.eos_token));
        let d3 = Datum::Text(resolved_text(config@.pad_token));
        let d4 = Datum::Text(resolved_text(config@.unk_token));
        let d5 = Datum::Flag(add_generation_prompt);
        let e0 = Seq::<(Seq<char>, Datum)>::empty();
        let e1 = e0.push(("messages"@, d0));
        let e2 = e1.push(("bos_token"@, d1));
        let e3 = e2.push(("eos_token"@, d2));
        let e4 = e3.push(("pad_token"@, d3));
        let e5 = e4.push(("unk_token"@, d4));
        let e6 = e5.push(("add_generation_prompt"@, d5));
        assert(entries_view(entries@) =~= e6);
        lemma_record_push(e0, "messages"@, d0);
        lemma_record_push(e1, "bos_token"@, d1);
        lemma_record_push(e2, "eos_token"@, d2);
        lemma_record_push(e3, "pad_token"@, d3);
        lemma_record_push(e4, "unk_token"@, d4);
        lemma_record_push(e5, "add_generation_prompt"@, d5);
        assert(distinct_keys(e6));
    }
    record_value(entries)
}

/// Compiles `source` and, where it compiles, renders it under `context`.
fn run_engine(source: &str, context: minijinja::Value) -> (report: EngineReport)
    ensures
        report_view(report) == rendering(source@, datum_of(context)),
{
    let env = strict_engine();
    match compile_failure(&env, source) {
        Some(error) => EngineReport::Invalid(error_message(&error)),
        None => match render_source(&env, source, context) {
            Ok(text) => EngineReport::Rendered(text),
            Err(error) => EngineReport::Failed(error_message(&error)),
        },
    }
}

impl AutoTokenizer {
    /// Renders the chat template over `messages`.
    ///
    /// The outcome is the text that the engine renders from the template under
    /// the six bindings, handed on as it is; `TemplateInvalid` where the engine
    /// does not accept the template; and `RenderFailed` where the template fails
    /// while it runs, as it does when it uses a variable that is not bound.
    /// Each failure carries the engine's message.
    pub fn apply_chat_template(
        &self,
        messages: Vec<DefaultPromptMessage>,
        add_generation_prompt: bool,
    ) -> (outcome: Result<String, RenderError>)
        ensures
            render_outcome_view(outcome) == rendering(
                self@.chat_template,
                chat_context(self@, messages_view(messages@), add_generation_prompt),
            ),
    {
        let context = context_value(self, &messages, add_generation_prompt);
        outcome_of(run_engine(self.chat_template(), context))
    }
}

/// The names of the six bindings differ from one another.
pub proof fn lemma_binding_names_differ()
    ensures
        "messages"@ != "bos_token"@,
        "messages"@ != "eos_token"@,
        "messages"@ != "pad_token"@,
        "messages"@ != "unk_token"@,
        "messages"@ != "add_generation_prompt"@,
        "bos_token"@ != "eos_token"@,
        "bos_token"@ != "pad_token"@,
        "bos_token"@ != "unk_token"@,
        "bos_token"@ != "add_generation_prompt"@,
        "eos_token"@ != "pad_token"@,
        "eos_token"@ != "unk_token"@,
        "eos_token"@ != "add_generation_prompt"@,
        "pad_token"@ != "unk_token"@,
        "pad_token"@ != "add_generation_prompt"@,
        "unk_token"@ != "add_generation_prompt"@,
{
    reveal_strlit("messages");
    reveal_strlit("bos_token");
    reveal_strlit("eos_token");
    reveal_strlit("pad_token");
    reveal_strlit("unk_token");
    reveal_strlit("add_generation_prompt");
    assert("messages"@.len() == 8);
    assert("bos_token"@.len() == 9 && "eos_token"@.len() == 9);
    assert("pad_token"@.len() == 9 && "unk_token"@.len() == 9);
    assert("add_generation_prompt"@.len() == 21);
    assert("bos_token"@[0] == 'b');
    assert("eos_token"@[0] == 'e');
    assert("pad_token"@[0] == 'p');
    assert("unk_token"@[0] == 'u');
}

/// The template sees the six bindings and nothing else.
pub proof fn lemma_bindings_are_exactly_six(
    config: ConfigView,
    messages: Seq<MessageView>,
    add_generation_prompt: bool,
)
    ensures
        chat_bindings(config, messages, add_generation_prompt).dom() =~= set![
            "messages"@,
            "bos_token"@,
            "eos_token"@,
            "pad_token"@,
            "unk_token"@,
            "add_generation_prompt"@,
        ],
{
}

/// Each binding holds what it is named after: the conversation, the text of
/// each special token, and the flag.
pub proof fn lemma_bindings_hold(
    config: ConfigView,
    messages: Seq<MessageView>,
    add_generation_prompt: bool,
)
    ensures
        ({
            let bindings = chat_bindings(config, messages, add_generation_prompt);
            &&& bindings["messages"@] == messages_datum(messages)
            &&& bindings["bos_token"@] == Datum::Text(resolved_text(config.bos_token))
            &&& bindings["eos_token"@] == Datum::Text(resolved_text(config.eos_token))
            &&& bindings["pad_token"@] == Datum::Text(resolved_text(config.pad_token))
            &&& bindings["unk_token"@] == Datum::Text(resolved_text(config.unk_token))
            &&& bindings["add_generation_prompt"@] == Datum::Flag(add_generation_prompt)
        }),
{
    lemma_binding_names_differ();
}

/// A special token that the configuration lacks is bound to the empty text.
pub proof fn lemma_absent_token_binds_empty_text(
    config: ConfigView,
    messages: Seq<MessageView>,
    add_generation_prompt: bool,
)
    ensures
        ({
            let bindings = chat_bindings(config, messages, add_generation_prompt);
            let empty = Datum::Text(Seq::empty());
            &&& config.bos_token is None ==> bindings["bos_token"@] == empty
            &&& config.eos_token is None ==> bindings["eos_token"@] == empty
            &&& config.pad_token is None ==> bindings["pad_token"@] == empty
            &&& config.unk_token is None ==> bindings["unk_token"@] == empty
        }),
{
    lemma_bindings_hold(config, messages, add_generation_prompt);
}

/// Rendering depends on the template, on the text of the four special tokens,
/// on the conversation and on the flag, and on nothing else: neither on the
/// shape in which a token was given, nor on its flags, nor on any other member
/// of the configuration.
pub proof fn lemma_rendering_depends_on_bindings_alone(
    first: ConfigView,
    second: ConfigView,
    messages: Seq<MessageView>,
    add_generation_prompt: bool,
)
    requires
        first.chat_template == second.chat_template,
        resolved_text(first.bos_token) == resolved_text(second.bos_token),
        resolved_text(first.eos_token) == resolved_text(second.eos_token),
        resolved_text(first.pad_token) == resolved_text(second.pad_token),
        resolved_text(first.unk_token) == resolved_text(second.unk_token),
    ensures
        rendering(first.chat_template, chat_context(first, messages, add_generation_prompt))
            == rendering(
            second.chat_template,
            chat_context(second, messages, add_generation_prompt),
        ),
{
}

/// Rendering is deterministic: two outcomes of rendering one configuration
/// over one conversation with one flag are the same, character for character,
/// be it the text or the failure and its message.
pub proof fn lemma_render_deterministic(
    config: ConfigView,
    messages: Seq<MessageView>,
    add_generation_prompt: bool,
    first: Result<String, RenderError>,
    second: Result<String, RenderError>,
)
    requires
        render_outcome_view(first) == rendering(
            config.chat_template,
            chat_context(config, messages, add_generation_prompt),
        ),
        render_outcome_view(second) == rendering(
            config.chat_template,
            chat_context(config, messages, add_generation_prompt),
        ),
    ensures
        render_outcome_view(first) == render_outcome_view(second),
        first is Ok ==> second is Ok && first->Ok_0@ == second->Ok_0@,
        first is Err ==> second is Err && first->Err_0@ == second->Err_0@,
{
}

/// The conversation is bound in its order: the list has one record for each
/// message, at the place of the message.
pub proof fn lemma_messages_bound_in_order(messages: Seq<MessageView>)
    ensures
        messages_datum(messages) is List,
        messages_datum(messages)->List_0.len() == messages.len(),
        forall|i: int|
            0 <= i < messages.len() ==> #[trigger] messages_datum(messages)->List_0[i]
                == message_datum(messages[i]),
{
}

/// Two messages are bound to the same record only if they are the same message.
pub proof fn lemma_message_datum_injective(first: MessageView, second: MessageView)
    requires
        message_datum(first) == message_datum(second),
    ensures
        first == second,
{
    reveal_strlit("role");
    reveal_strlit("content");
    assert("role"@.len() == 4 && "content"@.len() == 7);
    let a = message_datum(first)->Record_0;
    let b = message_datum(second)->Record_0;
    assert(a["role"@] == b["role"@]);
    assert(a["content"@] == b["content"@]);
}

/// Reordering the conversation reorders what the template sees in exactly the
/// same way: where `order` says which message stands at each place, the record
/// at a place of the reordered list is the record of the message that was moved
/// there.
pub proof fn lemma_reordering_shows(messages: Seq<MessageView>, order: Seq<int>)
    requires
        order.len() == messages.len(),
        forall|i: int| 0 <= i < order.len() ==> 0 <= #[trigger] order[i] < messages.len(),
    ensures
        ({
            let moved = Seq::new(messages.len(), |i: int| messages[order[i]]);
            let before = messages_datum(messages)->List_0;
            let after = messages_datum(moved)->List_0;
            &&& after.len() == before.len()
            &&& forall|i: int| 0 <= i < after.len() ==> #[trigger] after[i] == before[order[i]]
        }),
{
}

} // verus!
