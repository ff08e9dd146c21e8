//! The tokenizer configuration and the schema of its document.
//!
//! The document is one JSON object.  Five members are required
//! (`clean_up_tokenization_spaces`, `legacy`, `tokenizer_class`,
//! `model_max_length`, `chat_template`); the two `add_*_token` flags and the four
//! special tokens may be missing or `null`.  Members that the schema does not
//! name are passed over.
use crate::error::{ConfigError, ConfigErrorView};
use crate::json::{
    count_member, flag_member, json_is_object, json_of, json_parse, member, optional_flag_member,
    parse_json, read_count, read_flag, read_optional_flag, read_text, text_member, Json,
};
use crate::token::{option_token_view, optional_token_member, Token, TokenView};
use vstd::prelude::*;

verus! {

/// The members that the schema names, in the order in which they are checked.
#[derive(Debug, Clone, Copy, PartialEq, Eq)]
pub enum Field {
    AddBosToken,
    AddEosToken,
    CleanUpTokenizationSpaces,
    Legacy,
    TokenizerClass,
    ModelMaxLength,
    BosToken,
    EosToken,
    PadToken,
    UnkToken,
    ChatTemplate,
}

impl Field {
    /// The key of the member in the document.
    pub open spec fn name(self) -> Seq<char> {
        match self {
            Field::AddBosToken => "add_bos_token"@,
            Field::AddEosToken => "add_eos_token"@,
            Field::CleanUpTokenizationSpaces => "clean_up_tokenization_spaces"@,
            Field::Legacy => "legacy"@,
            Field::TokenizerClass => "tokenizer_class"@,
            Field::ModelMaxLength => "model_max_length"@,
            Field::BosToken => "bos_token"@,
            Field::EosToken => "eos_token"@,
            Field::PadToken => "pad_token"@,
            Field::UnkToken => "unk_token"@,
            Field::ChatTemplate => "chat_template"@,
        }
    }

    /// Whether the document must have the member.
    pub open spec fn required(self) -> bool {
        match self {
            Field::CleanUpTokenizationSpaces
            | Field::Legacy
            | Field::TokenizerClass
            | Field::ModelMaxLength
            | Field::ChatTemplate => true,
            _ => false,
        }
    }

    /// Whether the member of `doc` is as the schema asks: there if required, and
    /// of the right type if there.
    pub open spec fn conforms(self, doc: Json) -> bool {
        match self {
            Field::AddBosToken | Field::AddEosToken => optional_flag_member(doc, self.name())
                is Some,
            Field::CleanUpTokenizationSpaces | Field::Legacy => flag_member(doc, self.name())
                is Some,
            Field::TokenizerClass | Field::ChatTemplate => text_member(doc, self.name()) is Some,
            Field::ModelMaxLength => count_member(doc, self.name()) is Some,
            Field::BosToken | Field::EosToken | Field::PadToken | Field::UnkToken =>
                optional_token_member(doc, self.name()) is Some,
        }
    }

    /// The key of the member in the document.
    pub fn key(self) -> (key: &'static str)
        ensures
            key@ == self.name(),
    {
        match self {
            Field::AddBosToken => "add_bos_token",
            Field::AddEosToken => "add_eos_token",
            Field::CleanUpTokenizationSpaces => "clean_up_tokenization_spaces",
            Field::Legacy => "legacy",
            Field::TokenizerClass => "tokenizer_class",
            Field::ModelMaxLength => "model_max_length",
            Field::BosToken => "bos_token",
            Field::EosToken => "eos_token",
            Field::PadToken => "pad_token",
            Field::UnkToken => "unk_token",
            Field::ChatTemplate => "chat_template",
        }
    }
}

/// The first member, in the order of [`Field`], that is not as the schema asks.
pub open spec fn first_offending(doc: Json) -> Option<Field> {
    if !Field::AddBosToken.conforms(doc) {
        Some(Field::AddBosToken)
    } else if !Field::AddEosToken.conforms(doc) {
        Some(Field::AddEosToken)
    } else if !Field::CleanUpTokenizationSpaces.conforms(doc) {
        Some(Field::CleanUpTokenizationSpaces)
    } else if !Field::Legacy.conforms(doc) {
        Some(Field::Legacy)
    } else if !Field::TokenizerClass.conforms(doc) {
        Some(Field::TokenizerClass)
    } else if !Field::ModelMaxLength.conforms(doc) {
        Some(Field::ModelMaxLength)
    } else if !Field::BosToken.conforms(doc) {
        Some(Field::BosToken)
    } else if !Field::EosToken.conforms(doc) {
        Some(Field::EosToken)
    } else if !Field::PadToken.conforms(doc) {
        Some(Field::PadToken)
    } else if !Field::UnkToken.conforms(doc) {
        Some(Field::UnkToken)
    } else if !Field::ChatTemplate.conforms(doc) {
        Some(Field::ChatTemplate)
    } else {
        None
    }
}

/// What a configuration is.
pub struct ConfigView {
    pub add_bos_token: Option<bool>,
    pub add_eos_token: Option<bool>,
    pub clean_up_tokenization_spaces: bool,
    pub legacy: bool,
    pub tokenizer_class: Seq<char>,
    pub model_max_length: usize,
    pub bos_token: Option<TokenView>,
    pub eos_token: Option<TokenView>,
    pub pad_token: Option<TokenView>,
    pub unk_token: Option<TokenView>,
    pub chat_template: Seq<char>,
}

/// The configuration that a conforming document holds, member by member.
pub open spec fn config_of(doc: Json) -> ConfigView {
    ConfigView {
        add_bos_token: optional_flag_member(doc, Field::AddBosToken.name())->Some_0,
        add_eos_token: optional_flag_member(doc, Field::AddEosToken.name())->Some_0,
        clean_up_tokenization_spaces: flag_member(
            doc,
            Field::CleanUpTokenizationSpaces.name(),
        )->Some_0,
        legacy: flag_member(doc, Field::Legacy.name())->Some_0,
        tokenizer_class: text_member(doc, Field::TokenizerClass.name())->Some_0,
        model_max_length: count_member(doc, Field::ModelMaxLength.name())->Some_0,
        bos_token: optional_token_member(doc, Field::BosToken.name())->Some_0,
        eos_token: optional_token_member(doc, Field::EosToken.name())->Some_0,
        pad_token: optional_token_member(doc, Field::PadToken.name())->Some_0,
        unk_token: optional_token_member(doc, Field::UnkToken.name())->Some_0,
        chat_template: text_member(doc, Field::ChatTemplate.name())->Some_0,
    }
}

/// What reading a JSON value as a configuration gives.  A value that is no
/// object is malformed with no field to name; an object is malformed at its
/// first offending member; any other object holds a configuration.
pub open spec fn parse_document(doc: Json) -> Result<ConfigView, ConfigErrorView> {
    if !(doc is Object) {
        Err(ConfigErrorView::Malformed(None))
    } else {
        match first_offending(doc) {
            Some(field) => Err(ConfigErrorView::Malformed(Some(field.name()))),
            None => Ok(config_of(doc)),
        }
    }
}

/// What reading a text as a configuration gives.  A text that is no JSON is
/// malformed with no field to name.
pub open spec fn parse_text(text: Seq<char>) -> Result<ConfigView, ConfigErrorView> {
    match json_parse(text) {
        Some(doc) => parse_document(doc),
        None => Err(ConfigErrorView::Malformed(None)),
    }
}

/// What loading a configuration gives, from the outcome of reading its file:
/// the text of the file, or the cause for which it could not be read.
pub open spec fn load_outcome(read: Result<String, String>) -> Result<
    ConfigView,
    ConfigErrorView,
> {
    match read {
        Ok(text) => parse_text(text@),
        Err(cause) => Err(ConfigErrorView::Io(cause@)),
    }
}

/// A tokenizer configuration.  It is made once from one document and never
/// changed afterwards.
#[derive(Debug, Clone, PartialEq, Eq)]
pub struct AutoTokenizer {
    add_bos_token: Option<bool>,
    add_eos_token: Option<bool>,
    clean_up_tokenization_spaces: bool,
    legacy: bool,
    tokenizer_class: String,
    model_max_length: usize,
    bos_token: Option<Token>,
    eos_token: Option<Token>,
    pad_token: Option<Token>,
    unk_token: Option<Token>,
    chat_template: String,
}

impl View for AutoTokenizer {
    type V = ConfigView;

    closed spec fn view(&self) -> ConfigView {
        ConfigView {
            add_bos_token: self.add_bos_token,
            add_eos_token: self.add_eos_token,
            clean_up_tokenization_spaces: self.clean_up_tokenization_spaces,
            legacy: self.legacy,
            tokenizer_class: self.tokenizer_class@,
            model_max_length: self.model_max_length,
            bos_token: option_token_view(self.bos_token),
            eos_token: option_token_view(self.eos_token),
            pad_token: option_token_view(self.pad_token),
            unk_token: option_token_view(self.unk_token),
            chat_template: self.chat_template@,
        }
    }
}

/// What the outcome of making a configuration is.
pub open spec fn outcome_view(outcome: Result<AutoTokenizer, ConfigError>) -> Result<
    ConfigView,
    ConfigErrorView,
> {
    match outcome {
        Ok(config) => Ok(config@),
        Err(error) => Err(error@),
    }
}

/// The failure that names `field` as the offending member.
fn malformed(field: Field) -> (error: ConfigError)
    ensures
        error@ == ConfigErrorView::Malformed(Some(field.name())),
{
    ConfigError::Malformed(Some(field.key().to_owned()))
}

impl AutoTokenizer {
    /// Reads a parsed JSON value as a configuration.
    pub fn from_json(doc: &serde_json::Value) -> (outcome: Result<Self, ConfigError>)
        ensures
            outcome_view(outcome) == parse_document(json_of(*doc)),
    {
        if !json_is_object(doc) {
            return Err(ConfigError::Malformed(None));
        }
        let add_bos_token = match read_optional_flag(doc, Field::AddBosToken.key()) {
            Some(flag) => flag,
            None => { return Err(malformed(Field::AddBosToken)); },
        };
        let add_eos_token = match read_optional_flag(doc, Field::AddEosToken.key()) {
            Some(flag) => flag,
            None => { return Err(malformed(Field::AddEosToken)); },
        };
        let clean_up_tokenization_spaces = match read_flag(
            doc,
            Field::CleanUpTokenizationSpaces.key(),
        ) {
            Some(flag) => flag,
            None => { return Err(malformed(Field::CleanUpTokenizationSpaces)); },
        };
        let legacy = match read_flag(doc, Field::Legacy.key()) {
            Some(flag) => flag,
            None => { return Err(malformed(Field::Legacy)); },
        };
        let tokenizer_class = match read_text(doc, Field::TokenizerClass.key()) {
            Some(text) => text.to_owned(),
            None => { return Err(malformed(Field::TokenizerClass)); },
        };
        let model_max_length = match read_count(doc, Field::ModelMaxLength.key()) {
            Some(count) => count,
            None => { return Err(malformed(Field::ModelMaxLength)); },
        };
        let bos_token = match Token::from_member(doc, Field::BosToken.key()) {
            Some(token) => token,
            None => { return Err(malformed(Field::BosToken)); },
        };
        let eos_token = match Token::from_member(doc, Field::EosToken.key()) {
            Some(token) => token,
            None => { return Err(malformed(Field::EosToken)); },
        };
        let pad_token = match Token::from_member(doc, Field::PadToken.key()) {
            Some(token) => token,
            None => { return Err(malformed(Field::PadToken)); },
        };
        let unk_token = match Token::from_member(doc, Field::UnkToken.key()) {
            Some(token) => token,
            None => { return Err(malformed(Field::UnkToken)); },
        };
        let chat_template = match read_text(doc, Field::ChatTemplate.key()) {
            Some(text) => text.to_owned(),
            None => { return Err(malformed(Field::ChatTemplate)); },
        };
        Ok(
            AutoTokenizer {
                add_bos_token,
                add_eos_token,
                clean_up_tokenization_spaces,
                legacy,
                tokenizer_class,
                model_max_length,
                bos_token,
                eos_token,
                pad_token,
                unk_token,
                chat_template,
            },
        )
    }

    /// Reads the text of a configuration document.  Nothing is read or written
    /// but the text.
    pub fn parse(document: &str) -> (outcome: Result<Self, ConfigError>)
        ensures
            outcome_view(outcome) == parse_text(document@),
    {
        match parse_json(document) {
            Ok(doc) => AutoTokenizer::from_json(&doc),
            Err(_) => Err(ConfigError::Malformed(None)),
        }
    }

    /// Makes the configuration from the outcome of reading its file in full:
    /// the text of the file, or the cause for which it could not be read.
    pub fn from_file(read: Result<String, String>) -> (outcome: Result<Self, ConfigError>)
        ensures
            outcome_view(outcome) == load_outcome(read),
    {
        match read {
            Ok(text) => AutoTokenizer::parse(text.as_str()),
            Err(cause) => Err(ConfigError::Io(cause)),
        }
    }

    /// Makes the configuration from the outcome of fetching its document by
    /// identifier.  A retrieval that failed is reported with its cause and is
    /// neither repeated nor interpreted; one that found the document goes on as
    /// [`AutoTokenizer::from_file`] does with the outcome of reading it.
    pub fn from_pretrained(retrieved: Result<Result<String, String>, String>) -> (outcome: Result<
        Self,
        ConfigError,
    >)
        ensures
            outcome_view(outcome) == match retrieved {
                Ok(read) => load_outcome(read),
                Err(cause) => Err(ConfigErrorView::Retrieval(cause@)),
            },
    {
        match retrieved {
            Ok(read) => AutoTokenizer::from_file(read),
            Err(cause) => Err(ConfigError::Retrieval(cause)),
        }
    }

    /// Whether a beginning-of-sequence token is to be added, where the document
    /// says.
    pub fn add_bos_token(&self) -> (flag: Option<bool>)
        ensures
            flag == self@.add_bos_token,
    {
        self.add_bos_token
    }

    /// Whether an end-of-sequence token is to be added, where the document says.
    pub fn add_eos_token(&self) -> (flag: Option<bool>)
        ensures
            flag == self@.add_eos_token,
    {
        self.add_eos_token
    }

    pub fn clean_up_tokenization_spaces(&self) -> (flag: bool)
        ensures
            flag == self@.clean_up_tokenization_spaces,
    {
        self.clean_up_tokenization_spaces
    }

    pub fn legacy(&self) -> (flag: bool)
        ensures
            flag == self@.legacy,
    {
        self.legacy
    }

    /// The name of the tokenizer family.
    pub fn tokenizer_class(&self) -> (name: &str)
        ensures
            name@ == self@.tokenizer_class,
    {
        self.tokenizer_class.as_str()
    }

    pub fn model_max_length(&self) -> (length: usize)
        ensures
            length == self@.model_max_length,
    {
        self.model_max_length
    }

    pub fn bos_token(&self) -> (token: &Option<Token>)
        ensures
            option_token_view(*token) == self@.bos_token,
    {
        &self.bos_token
    }

    pub fn eos_token(&self) -> (token: &Option<Token>)
        ensures
            option_token_view(*token) == self@.eos_token,
    {
        &self.eos_token
    }

    pub fn pad_token(&self) -> (token: &Option<Token>)
        ensures
            option_token_view(*token) == self@.pad_token,
    {
        &self.pad_token
    }

    pub fn unk_token(&self) -> (token: &Option<Token>)
        ensures
            option_token_view(*token) == self@.unk_token,
    {
        &self.unk_token
    }

    /// The source of the chat template.
    pub fn chat_template(&self) -> (source: &str)
        ensures
            source@ == self@.chat_template,
    {
        self.chat_template.as_str()
    }
}

/// A document that lacks a required member is malformed: it yields no
/// configuration, with no value put in the member's place.
pub proof fn lemma_missing_required_is_malformed(doc: Json, field: Field)
    requires
        field.required(),
        member(doc, field.name()) is None,
    ensures
        parse_document(doc) is Err,
        parse_document(doc)->Err_0 is Malformed,
{
}

/// A document is accepted exactly when it is an object whose every named member
/// is as the schema asks, and the failure names a member that is not.
pub proof fn lemma_accepted_iff_conforming(doc: Json)
    ensures
        parse_document(doc) is Ok <==> (doc is Object && forall|field: Field|
            #[trigger] field.conforms(doc)),
        parse_document(doc) matches Err(ConfigErrorView::Malformed(Some(name))) ==> exists|
            field: Field,
        |
            field.name() == name && !#[trigger] field.conforms(doc),
        parse_document(doc) is Err ==> parse_document(doc)->Err_0 is Malformed,
{
    if doc is Object {
        match first_offending(doc) {
            Some(field) => {
                assert(!field.conforms(doc));
            },
            None => {
                assert forall|field: Field| #[trigger] field.conforms(doc) by {
                    match field {
                        Field::AddBosToken => {},
                        Field::AddEosToken => {},
                        Field::CleanUpTokenizationSpaces => {},
                        Field::Legacy => {},
                        Field::TokenizerClass => {},
                        Field::ModelMaxLength => {},
                        Field::BosToken => {},
                        Field::EosToken => {},
                        Field::PadToken => {},
                        Field::UnkToken => {},
                        Field::ChatTemplate => {},
                    }
                }
            },
        }
    }
}

/// Members that the schema does not name play no part: two objects that agree
/// on the named members are read alike.
pub proof fn lemma_unknown_members_ignored(a: Json, b: Json)
    requires
        a is Object,
        b is Object,
        forall|field: Field| member(a, #[trigger] field.name()) == member(b, field.name()),
    ensures
        parse_document(a) == parse_document(b),
{
    let agree = |field: Field| member(a, field.name()) == member(b, field.name());
    assert(agree(Field::AddBosToken));
    assert(agree(Field::AddEosToken));
    assert(agree(Field::CleanUpTokenizationSpaces));
    assert(agree(Field::Legacy));
    assert(agree(Field::TokenizerClass));
    assert(agree(Field::ModelMaxLength));
    assert(agree(Field::BosToken));
    assert(agree(Field::EosToken));
    assert(agree(Field::PadToken));
    assert(agree(Field::UnkToken));
    assert(agree(Field::ChatTemplate));
}

} // verus!
