//! The events of a parsed markdown document, as far as the rewriting looks at
//! them, and the way from text to events and back.

use pulldown_cmark::{CodeBlockKind, Event, Options, Parser, Tag, TagEnd};
use vstd::prelude::*;

verus! {

/// `pulldown_cmark::Event`, one event of a parsed markdown document. Nothing
/// is known of its contents.
#[verifier::external_type_specification]
#[verifier::external_body]
pub struct ExMarkdownEvent<'a>(pulldown_cmark::Event<'a>);

/// `pulldown_cmark_to_cmark::Error`, the reason why events could not be
/// written as markdown. Nothing is known of its contents.
#[verifier::external_type_specification]
#[verifier::external_body]
pub struct ExSerializeError(pulldown_cmark_to_cmark::Error);

/// One event of a parsed markdown document. The three kinds that the
/// rewriting reads or writes are spelled out; every other event is carried
/// along as the parser gave it. The rewriting never looks into `Other`:
/// whatever it holds is no part of a target block.
#[derive(Debug, PartialEq)]
pub enum Token {
    /// The start of a fenced code block with the given info string.
    FencedStart(String),
    /// A run of text.
    Text(String),
    /// The end of a code block.
    CodeBlockEnd,
    /// Any other event.
    Other(Event<'static>),
}

/// A token as plain values.
pub enum TokenView {
    /// The start of a fenced code block with the given info string.
    FencedStart(Seq<char>),
    /// A run of text.
    Text(Seq<char>),
    /// The end of a code block.
    CodeBlockEnd,
    /// Any other event.
    Other(Event<'static>),
}

impl View for Token {
    type V = TokenView;

    open spec fn view(&self) -> TokenView {
        match self {
            Token::FencedStart(info) => TokenView::FencedStart(info@),
            Token::Text(text) => TokenView::Text(text@),
            Token::CodeBlockEnd => TokenView::CodeBlockEnd,
            Token::Other(event) => TokenView::Other(*event),
        }
    }
}

impl DeepView for Token {
    type V = TokenView;

    open spec fn deep_view(&self) -> TokenView {
        self@
    }
}

/// The tokens that `pulldown_cmark` reads from a markdown text with every
/// extension switched on.
pub uninterp spec fn parsed_tokens(markdown: Seq<char>) -> Seq<TokenView>;

/// The markdown text that `pulldown_cmark_to_cmark` writes for a sequence of
/// tokens; nothing when it refuses the sequence.
pub uninterp spec fn rendered_markdown(tokens: Seq<TokenView>) -> Option<Seq<char>>;

/// `pulldown_cmark::Parser::new_ext` with `Options::all()`, run to its end,
/// each event turned into a token: the result is named by `parsed_tokens`.
#[verifier::external_body]
pub(crate) fn parse_markdown(markdown: &str) -> (tokens: Vec<Token>)
    ensures
        tokens.deep_view() == parsed_tokens(markdown@),
{
    Parser::new_ext(markdown, Options::all()).map(
        |event| match event {
            Event::Start(Tag::CodeBlock(CodeBlockKind::Fenced(info))) => Token::FencedStart(info.into_string()),
            Event::Text(text) => Token::Text(text.into_string()),
            Event::End(TagEnd::CodeBlock) => Token::CodeBlockEnd,
            other => Token::Other(other.into_static()),
        },
    ).collect()
}

/// `pulldown_cmark_to_cmark::cmark` on the events that the tokens stand for,
/// writing into a fresh string: the result is named by `rendered_markdown`,
/// and an error comes exactly when that is nothing.
#[verifier::external_body]
pub(crate) fn render_markdown(tokens: &Vec<Token>) -> (result: Result<String, pulldown_cmark_to_cmark::Error>)
    ensures
        match result {
            Ok(markdown) => rendered_markdown(tokens.deep_view()) == Some(markdown@),
            Err(_) => rendered_markdown(tokens.deep_view()) is None,
        },
{
    let events = tokens.iter().map(
        |token| match token {
            Token::FencedStart(info) => Event::Start(Tag::CodeBlock(CodeBlockKind::Fenced(info.as_str().into()))),
            Token::Text(text) => Event::Text(text.as_str().into()),
            Token::CodeBlockEnd => Event::End(TagEnd::CodeBlock),
            Token::Other(event) => event.clone(),
        },
    );
    let mut markdown = String::new();
    pulldown_cmark_to_cmark::cmark(events, &mut markdown).map(|_| markdown)
}

} // verus!
