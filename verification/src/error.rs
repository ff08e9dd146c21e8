//! The failures that this crate reports.
use vstd::prelude::*;

verus! {

/// What a configuration failure is.
pub enum ConfigErrorView {
    Io(Seq<char>),
    Retrieval(Seq<char>),
    Malformed(Option<Seq<char>>),
}

/// Why no configuration could be had.
#[derive(Debug, Clone, PartialEq, Eq)]
pub enum ConfigError {
    /// The local file is missing or could not be read; the cause is carried.
    Io(String),
    /// The identifier could not be resolved or the document could not be
    /// fetched; the cause is carried as the retrieval reported it.
    Retrieval(String),
    /// The document does not meet the schema.  The name of the offending field
    /// is carried where one field is at fault, and nothing where the text is no
    /// JSON object at all.
    Malformed(Option<String>),
}

impl View for ConfigError {
    type V = ConfigErrorView;

    open spec fn view(&self) -> ConfigErrorView {
        match self {
            ConfigError::Io(cause) => ConfigErrorView::Io(cause@),
            ConfigError::Retrieval(cause) => ConfigErrorView::Retrieval(cause@),
            ConfigError::Malformed(Some(field)) => ConfigErrorView::Malformed(Some(field@)),
            ConfigError::Malformed(None) => ConfigErrorView::Malformed(None),
        }
    }
}

/// What a rendering failure is.
pub enum RenderErrorView {
    TemplateInvalid(Seq<char>),
    RenderFailed(Seq<char>),
}

/// Why no prompt was rendered.  Each variant carries the template engine's
/// message.
#[derive(Debug, Clone, PartialEq, Eq)]
pub enum RenderError {
    /// The chat template is not a well-formed template.
    TemplateInvalid(String),
    /// The template is well formed but failed while it ran.
    RenderFailed(String),
}

impl View for RenderError {
    type V = RenderErrorView;

    open spec fn view(&self) -> RenderErrorView {
        match self {
            RenderError::TemplateInvalid(message) => RenderErrorView::TemplateInvalid(message@),
            RenderError::RenderFailed(message) => RenderErrorView::RenderFailed(message@),
        }
    }
}

} // verus!
