//! Special tokens: a token is given either as bare text or as an object that
//! carries the text together with four flags.
use crate::json::{flag_member, json_as_str, json_get, json_of, member, read_flag, read_text, text_member, Json};
use vstd::prelude::*;

verus! {

/// What a structured token is.
pub struct TokenObjView {
    pub content: Seq<char>,
    pub lstrip: bool,
    pub normalized: bool,
    pub rstrip: bool,
    pub single_word: bool,
}

/// What a special token is: one of the two shapes, never both.
pub enum TokenView {
    Bare(Seq<char>),
    Structured(TokenObjView),
}

impl TokenView {
    /// The text of the token, whichever shape it has.
    pub open spec fn text(self) -> Seq<char> {
        match self {
            TokenView::Bare(s) => s,
            TokenView::Structured(obj) => obj.content,
        }
    }
}

/// The text that stands for an optional token: its own text, or the empty text
/// where the token is absent.
pub open spec fn resolved_text(token: Option<TokenView>) -> Seq<char> {
    match token {
        Some(t) => t.text(),
        None => Seq::empty(),
    }
}

/// A token given as an object: its text and the flags that say how a tokenizer
/// treats it.  The flags play no part in rendering and are carried unchanged.
#[derive(Debug, Clone, PartialEq, Eq)]
pub struct TokenObj {
    pub content: String,
    pub lstrip: bool,
    pub normalized: bool,
    pub rstrip: bool,
    pub single_word: bool,
}

impl View for TokenObj {
    type V = TokenObjView;

    open spec fn view(&self) -> TokenObjView {
        TokenObjView {
            content: self.content@,
            lstrip: self.lstrip,
            normalized: self.normalized,
            rstrip: self.rstrip,
            single_word: self.single_word,
        }
    }
}

/// A special token in the shape in which the document gave it.
#[derive(Debug, Clone, PartialEq, Eq)]
pub enum Token {
    String(String),
    TokenObj(TokenObj),
}

impl View for Token {
    type V = TokenView;

    open spec fn view(&self) -> TokenView {
        match self {
            Token::String(s) => TokenView::Bare(s@),
            Token::TokenObj(obj) => TokenView::Structured(obj@),
        }
    }
}

impl Token {
    /// The text of the token: the string itself, or the `content` of the object.
    pub fn resolve(&self) -> (text: &str)
        ensures
            text@ == self@.text(),
    {
        match self {
            Token::String(s) => s.as_str(),
            Token::TokenObj(obj) => obj.content.as_str(),
        }
    }
}

/// What an optional token is.
pub open spec fn option_token_view(token: Option<Token>) -> Option<TokenView> {
    match token {
        Some(t) => Some(t@),
        None => None,
    }
}

/// The text that stands for an optional token in a rendering: the token's own
/// text, and the empty string for an absent token.
pub fn resolve_optional(token: &Option<Token>) -> (text: &str)
    ensures
        text@ == resolved_text(option_token_view(*token)),
{
    match token {
        Some(t) => t.resolve(),
        None => {
            proof {
                reveal_strlit("");
            }
            ""
        },
    }
}

/// The token that a JSON value denotes: a string is a bare token, and an object
/// with a string `content` and the four boolean flags is a structured one.
/// Neither shape is turned into the other, further members of the object are
/// passed over, and any other value denotes no token.
pub open spec fn token_of(value: Json) -> Option<TokenView> {
    match value {
        Json::Text(s) => Some(TokenView::Bare(s)),
        Json::Object(_) => {
            let content = text_member(value, "content"@);
            let lstrip = flag_member(value, "lstrip"@);
            let normalized = flag_member(value, "normalized"@);
            let rstrip = flag_member(value, "rstrip"@);
            let single_word = flag_member(value, "single_word"@);
            if content is Some && lstrip is Some && normalized is Some && rstrip is Some
                && single_word is Some {
                Some(
                    TokenView::Structured(
                        TokenObjView {
                            content: content->Some_0,
                            lstrip: lstrip->Some_0,
                            normalized: normalized->Some_0,
                            rstrip: rstrip->Some_0,
                            single_word: single_word->Some_0,
                        },
                    ),
                )
            } else {
                None
            }
        },
        _ => None,
    }
}

/// A member that may be missing or `null`, and is otherwise a token.  The outer
/// `None` stands for a member that denotes no token.
pub open spec fn optional_token_member(doc: Json, key: Seq<char>) -> Option<Option<TokenView>> {
    match member(doc, key) {
        None => Some(None),
        Some(Json::Null) => Some(None),
        Some(value) => match token_of(value) {
            Some(token) => Some(Some(token)),
            None => None,
        },
    }
}

/// What the outcome of reading an optional token is.
pub open spec fn optional_token_outcome(read: Option<Option<Token>>) -> Option<Option<TokenView>> {
    match read {
        Some(token) => Some(option_token_view(token)),
        None => None,
    }
}

impl Token {
    /// Reads a token from a JSON value, in the shape that the value has.
    pub fn from_json(value: &serde_json::Value) -> (token: Option<Token>)
        ensures
            option_token_view(token) == token_of(json_of(*value)),
    {
        match json_as_str(value) {
            Some(s) => Some(Token::String(s.to_owned())),
            None => {
                let content = read_text(value, "content");
                let lstrip = read_flag(value, "lstrip");
                let normalized = read_flag(value, "normalized");
                let rstrip = read_flag(value, "rstrip");
                let single_word = read_flag(value, "single_word");
                match (content, lstrip, normalized, rstrip, single_word) {
                    (Some(content), Some(lstrip), Some(normalized), Some(rstrip), Some(single_word)) => {
                        Some(
                            Token::TokenObj(
                                TokenObj {
                                    content: content.to_owned(),
                                    lstrip,
                                    normalized,
                                    rstrip,
                                    single_word,
                                },
                            ),
                        )
                    },
                    _ => None,
                }
            },
        }
    }

    /// Reads the token under `key` in `doc`, where the member may be missing or
    /// `null`.
    pub fn from_member(doc: &serde_json::Value, key: &str) -> (token: Option<Option<Token>>)
        ensures
            optional_token_outcome(token) == optional_token_member(json_of(*doc), key@),
    {
        match json_get(doc, key) {
            Some(value) => match Token::from_json(value) {
                Some(token) => Some(Some(token)),
                None => if crate::json::json_is_null(value) {
                    Some(None)
                } else {
                    None
                },
            },
            None => Some(None),
        }
    }
}

/// A bare token resolves to exactly its string.
pub proof fn lemma_resolve_bare(s: Seq<char>)
    ensures
        TokenView::Bare(s).text() == s,
{
}

/// A structured token resolves to exactly its content, whatever its four flags
/// are.
pub proof fn lemma_resolve_structured(
    content: Seq<char>,
    lstrip: bool,
    normalized: bool,
    rstrip: bool,
    single_word: bool,
)
    ensures
        TokenView::Structured(
            TokenObjView { content, lstrip, normalized, rstrip, single_word },
        ).text() == content,
{
}

/// An absent token resolves to the empty text.
pub proof fn lemma_resolve_absent()
    ensures
        resolved_text(None) == Seq::<char>::empty(),
        resolved_text(None).len() == 0,
{
}

} // verus!
