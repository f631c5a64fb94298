//! The rewriting of one document: the replacement of a single target block,
//! and the pass over the events of a document that finds the target blocks.

use crate::config::{Config, ConfigView};
use crate::error::RewriteError;
use crate::header::{header_of, title_text, Header};
use crate::text::{split_once, split_once_spec};
use crate::token::{
    parse_markdown, parsed_tokens, render_markdown, rendered_markdown, Token, TokenView,
};
use vstd::prelude::*;
use vstd::string::StringExecFns;

verus! {

/// The separator between the header and the body of a target block.
pub open spec fn separator() -> Seq<char> {
    "---"@
}

/// The three events that replace a target block with the given text: the
/// start of a block whose info string is the title computed from the header,
/// the text after the separator, and the end of the block. The separator is
/// the first run of three hyphens, wherever it stands in the text.
pub open spec fn rewritten_block(code: Seq<char>, config: ConfigView) -> Result<
    Seq<TokenView>,
    RewriteError,
> {
    match split_once_spec(code, separator()) {
        None => Err(RewriteError::MissingSeparator),
        Some((head, body)) => match header_of(head) {
            None => Err(RewriteError::MalformedHeader),
            Some(header) => Ok(
                seq![
                    TokenView::FencedStart(title_text(header, config)),
                    TokenView::Text(body),
                    TokenView::CodeBlockEnd,
                ],
            ),
        },
    }
}

/// Where the pass over a document stands.
#[derive(Clone, Copy, Debug, PartialEq, Eq, Structural)]
pub enum State {
    /// Outside any target block.
    Scanning,
    /// Just behind the start of a target block: its text must follow.
    Capturing,
    /// Behind the text of a target block: the end of the block must follow.
    Closing,
}

/// Whether a token starts a target block.
pub open spec fn is_target(token: TokenView, config: ConfigView) -> bool {
    token == TokenView::FencedStart(config.label)
}

/// What one token does to the pass: the state behind it and the tokens that
/// go to the output, or the failure that ends the pass.
pub open spec fn step_spec(state: State, token: TokenView, config: ConfigView) -> Result<
    (State, Seq<TokenView>),
    RewriteError,
> {
    match state {
        State::Scanning => if is_target(token, config) {
            Ok((State::Capturing, Seq::empty()))
        } else {
            Ok((State::Scanning, seq![token]))
        },
        State::Capturing => match token {
            TokenView::Text(code) => match rewritten_block(code, config) {
                Ok(block) => Ok((State::Closing, block)),
                Err(error) => Err(error),
            },
            _ => Err(RewriteError::UnexpectedStructure),
        },
        State::Closing => match token {
            TokenView::CodeBlockEnd => Ok((State::Scanning, Seq::empty())),
            _ => Err(RewriteError::UnexpectedStructure),
        },
    }
}

/// The output of the pass over `tokens` when it starts in `state`. The pass
/// must end outside a target block.
pub open spec fn walked_from(state: State, tokens: Seq<TokenView>, config: ConfigView) -> Result<
    Seq<TokenView>,
    RewriteError,
>
    decreases tokens.len(),
{
    if tokens.len() == 0 {
        if state == State::Scanning {
            Ok(Seq::empty())
        } else {
            Err(RewriteError::UnexpectedStructure)
        }
    } else {
        match step_spec(state, tokens[0], config) {
            Err(error) => Err(error),
            Ok((next, emitted)) => match walked_from(next, tokens.skip(1), config) {
                Err(error) => Err(error),
                Ok(rest) => Ok(emitted + rest),
            },
        }
    }
}

/// The output of the pass over a whole document.
pub open spec fn walked(tokens: Seq<TokenView>, config: ConfigView) -> Result<
    Seq<TokenView>,
    RewriteError,
> {
    walked_from(State::Scanning, tokens, config)
}

/// The rewritten text of a document: parsed, walked, and written back.
pub open spec fn transformed(markdown: Seq<char>, config: ConfigView) -> Result<
    Seq<char>,
    RewriteError,
> {
    match walked(parsed_tokens(markdown), config) {
        Err(error) => Err(error),
        Ok(tokens) => match rendered_markdown(tokens) {
            Some(text) => Ok(text),
            None => Err(RewriteError::Serialization),
        },
    }
}

/// No token of the sequence starts a target block.
pub open spec fn has_no_target(tokens: Seq<TokenView>, config: ConfigView) -> bool {
    forall|i: int| 0 <= i < tokens.len() ==> !is_target(#[trigger] tokens[i], config)
}

/// `text` begins with `prefix`.
pub open spec fn has_prefix(text: Seq<char>, prefix: Seq<char>) -> bool {
    prefix.len() <= text.len() && text.subrange(0, prefix.len() as int) == prefix
}

/// The word that every computed title begins with.
pub open spec fn title_lead() -> Seq<char> {
    "admonish "@
}

/// Events without a target block pass through unchanged, in their order.
pub proof fn lemma_walk_without_targets(tokens: Seq<TokenView>, config: ConfigView)
    requires
        has_no_target(tokens, config),
    ensures
        walked(tokens, config) == Ok::<_, RewriteError>(tokens),
    decreases tokens.len(),
{
    if tokens.len() == 0 {
        assert(tokens =~= Seq::<TokenView>::empty());
    } else {
        let rest = tokens.skip(1);
        assert forall|i: int| 0 <= i < rest.len() implies !is_target(#[trigger] rest[i], config) by {
            assert(rest[i] == tokens[i + 1]);
        }
        lemma_walk_without_targets(rest, config);
        assert(seq![tokens[0]] + rest =~= tokens);
    }
}

/// A document without a target block comes out as the serializer writes
/// what the parser read: the pass changes nothing.
pub proof fn lemma_transform_without_targets(markdown: Seq<char>, config: ConfigView)
    requires
        has_no_target(parsed_tokens(markdown), config),
    ensures
        transformed(markdown, config) == match rendered_markdown(parsed_tokens(markdown)) {
            Some(text) => Ok::<_, RewriteError>(text),
            None => Err(RewriteError::Serialization),
        },
{
    lemma_walk_without_targets(parsed_tokens(markdown), config);
}

/// Unless the target label itself begins like a computed title, the output
/// of a pass holds no target block: a replacement is never a target, and
/// every target of the input was replaced.
pub proof fn lemma_walked_has_no_target(
    state: State,
    tokens: Seq<TokenView>,
    config: ConfigView,
    output: Seq<TokenView>,
)
    requires
        walked_from(state, tokens, config) == Ok::<_, RewriteError>(output),
        !has_prefix(config.label, title_lead()),
    ensures
        has_no_target(output, config),
    decreases tokens.len(),
{
    if tokens.len() > 0 {
        let (next, emitted) = step_spec(state, tokens[0], config)->Ok_0;
        let rest = walked_from(next, tokens.skip(1), config)->Ok_0;
        lemma_walked_has_no_target(next, tokens.skip(1), config, rest);
        assert(output == emitted + rest);
        assert forall|i: int| 0 <= i < emitted.len() implies !is_target(
            #[trigger] emitted[i],
            config,
        ) by {
            if state == State::Capturing {
                let code = tokens[0]->Text_0;
                let (head, body) = split_once_spec(code, separator())->Some_0;
                let header = header_of(head)->Some_0;
                let title = title_text(header, config);
                assert(title.subrange(0, title_lead().len() as int) =~= title_lead());
            }
        }
        assert forall|i: int| 0 <= i < output.len() implies !is_target(
            #[trigger] output[i],
            config,
        ) by {
            if i >= emitted.len() {
                assert(output[i] == rest[i - emitted.len()]);
            } else {
                assert(output[i] == emitted[i]);
            }
        }
    }
}

/// Walking is done after one pass: unless the target label begins like a
/// computed title, a second pass over the output of a first changes nothing.
pub proof fn lemma_walk_twice(tokens: Seq<TokenView>, config: ConfigView, output: Seq<TokenView>)
    requires
        walked(tokens, config) == Ok::<_, RewriteError>(output),
        !has_prefix(config.label, title_lead()),
    ensures
        walked(output, config) == Ok::<_, RewriteError>(output),
{
    lemma_walked_has_no_target(State::Scanning, tokens, config, output);
    lemma_walk_without_targets(output, config);
}

/// Running the rewriting again on a text that holds no target block, and
/// that the serializer writes back as it stands, gives that text again.
///
/// The second premise is needed. Nothing here says of the parser and the
/// serializer that what one writes the other reads back unchanged, and it
/// does not hold of every text: a block whose body holds a line of four
/// backticks is written with a fence of four backticks, and read back as
/// two blocks.
pub proof fn lemma_transform_again(output: Seq<char>, config: ConfigView)
    requires
        has_no_target(parsed_tokens(output), config),
        rendered_markdown(parsed_tokens(output)) == Some(output),
    ensures
        transformed(output, config) == Ok::<_, RewriteError>(output),
{
    lemma_transform_without_targets(output, config);
}

/// Replaces the text of one target block by the events of its admonition.
pub fn rewrite(code: &str, config: &Config) -> (result: Result<Vec<Token>, RewriteError>)
    ensures
        match result {
            Ok(block) => rewritten_block(code@, config@) == Ok::<_, RewriteError>(
                block.deep_view(),
            ),
            Err(error) => rewritten_block(code@, config@) == Err::<Seq<TokenView>, _>(error),
        },
{
    match split_once(code, "---") {
        None => Err(RewriteError::MissingSeparator),
        Some((head, body)) => match Header::parse(head) {
            Err(error) => Err(error),
            Ok(header) => {
                let mut block: Vec<Token> = Vec::new();
                block.push(Token::FencedStart(header.title(config)));
                block.push(Token::Text(String::from_str(body)));
                block.push(Token::CodeBlockEnd);
                assert(block.deep_view() =~= seq![
                    TokenView::FencedStart(title_text(header@, config@)),
                    TokenView::Text(body@),
                    TokenView::CodeBlockEnd,
                ]);
                Ok(block)
            },
        },
    }
}

/// Takes one token in the given state.
pub fn step(state: State, token: Token, config: &Config) -> (result: Result<
    (State, Vec<Token>),
    RewriteError,
>)
    ensures
        match result {
            Ok((next, emitted)) => step_spec(state, token@, config@) == Ok::<_, RewriteError>(
                (next, emitted.deep_view()),
            ),
            Err(error) => step_spec(state, token@, config@) == Err::<(State, Seq<TokenView>), _>(
                error,
            ),
        },
{
    match state {
        State::Scanning => {
            let target = match &token {
                Token::FencedStart(info) => config.is_label(info),
                _ => false,
            };
            let mut emitted: Vec<Token> = Vec::new();
            if target {
                assert(emitted.deep_view() =~= Seq::<TokenView>::empty());
                Ok((State::Capturing, emitted))
            } else {
                emitted.push(token);
                assert(emitted.deep_view() =~= seq![token@]);
                Ok((State::Scanning, emitted))
            }
        },
        State::Capturing => match token {
            Token::Text(code) => match rewrite(code.as_str(), config) {
                Ok(block) => Ok((State::Closing, block)),
                Err(error) => Err(error),
            },
            _ => Err(RewriteError::UnexpectedStructure),
        },
        State::Closing => match token {
            Token::CodeBlockEnd => {
                let emitted: Vec<Token> = Vec::new();
                assert(emitted.deep_view() =~= Seq::<TokenView>::empty());
                Ok((State::Scanning, emitted))
            },
            _ => Err(RewriteError::UnexpectedStructure),
        },
    }
}

/// Puts `done` in front of the output of a pass over the rest.
pub open spec fn continued(done: Seq<TokenView>, rest: Result<Seq<TokenView>, RewriteError>) -> Result<
    Seq<TokenView>,
    RewriteError,
> {
    match rest {
        Ok(tokens) => Ok(done + tokens),
        Err(error) => Err(error),
    }
}

/// Passes over the events of a document: every target block, that is the
/// start of a fenced block with the target label, one text and the end of the
/// block, is replaced by its admonition; every other event is kept.
pub fn walk(tokens: Vec<Token>, config: &Config) -> (result: Result<Vec<Token>, RewriteError>)
    ensures
        match result {
            Ok(output) => walked(tokens.deep_view(), config@) == Ok::<_, RewriteError>(
                output.deep_view(),
            ),
            Err(error) => walked(tokens.deep_view(), config@) == Err::<Seq<TokenView>, _>(error),
        },
{
    let ghost all = tokens.deep_view();
    let mut state = State::Scanning;
    let mut output: Vec<Token> = Vec::new();
    assert(all.skip(0) =~= all);
    assert(output.deep_view() =~= Seq::<TokenView>::empty());
    for token in iter: tokens
        invariant
            all == tokens.deep_view(),
            iter.seq() == tokens@,
            walked(all, config@) == continued(
                output.deep_view(),
                walked_from(state, all.skip(iter.index() as int), config@),
            ),
    {
        let ghost at = iter.index() as int;
        let ghost rest = all.skip(at);
        let ghost before = output.deep_view();
        assert(token@ == rest[0]);
        assert(rest.skip(1) =~= all.skip(at + 1));
        match step(state, token, config) {
            Err(error) => {
                assert(walked_from(state, rest, config@) == Err::<Seq<TokenView>, _>(error));
                return Err(error);
            },
            Ok((next, mut emitted)) => {
                let ghost added = emitted.deep_view();
                output.append(&mut emitted);
                assert(output.deep_view() =~= before + added);
                proof {
                    match walked_from(next, rest.skip(1), config@) {
                        Ok(tail) => {
                            assert(before + (added + tail) =~= (before + added) + tail);
                        },
                        Err(_) => {},
                    }
                }
                state = next;
            },
        }
    }
    assert(all.skip(all.len() as int) =~= Seq::<TokenView>::empty());
    match state {
        State::Scanning => {
            assert(output.deep_view() + Seq::<TokenView>::empty() =~= output.deep_view());
            Ok(output)
        },
        _ => Err(RewriteError::UnexpectedStructure),
    }
}

/// Writes a sequence of events back as markdown text.
pub fn serialize(tokens: &Vec<Token>) -> (result: Result<String, RewriteError>)
    ensures
        match result {
            Ok(text) => rendered_markdown(tokens.deep_view()) == Some(text@),
            Err(error) => error == RewriteError::Serialization && rendered_markdown(
                tokens.deep_view(),
            ) is None,
        },
{
    match render_markdown(tokens) {
        Ok(text) => Ok(text),
        Err(_) => Err(RewriteError::Serialization),
    }
}

/// Rewrites the target blocks of a markdown text.
pub fn transform(markdown: &str, config: &Config) -> (result: Result<String, RewriteError>)
    ensures
        match result {
            Ok(text) => transformed(markdown@, config@) == Ok::<_, RewriteError>(text@),
            Err(error) => transformed(markdown@, config@) == Err::<Seq<char>, _>(error),
        },
{
    let tokens = parse_markdown(markdown);
    match walk(tokens, config) {
        Err(error) => Err(error),
        Ok(output) => serialize(&output),
    }
}

} // verus!
