use mdbook_reading::walker::{rewrite, serialize, step, transform, walk};
use mdbook_reading::{default_label, Config, RewriteError, State, Token};
use pulldown_cmark::{Event, Tag, TagEnd};

const BLOCK: &str = "style: info\ntitle: My Article\nauthor: Jane Doe\nurl: https://example.com/a\n---\nBody text.\n";
const TITLE: &str =
    "admonish info title=\"<a href='https://example.com/a'>My Article</a> by Jane Doe\"";

fn config() -> Config {
    Config::new(None, default_label())
}

fn start(info: &str) -> Token {
    Token::FencedStart(info.to_string())
}

fn text(content: &str) -> Token {
    Token::Text(content.to_string())
}

fn admonition() -> Vec<Token> {
    vec![start(TITLE), text("\nBody text.\n"), Token::CodeBlockEnd]
}

#[test]
fn rewrite_gives_three_events() {
    assert_eq!(rewrite(BLOCK, &config()), Ok(admonition()));
}

#[test]
fn rewrite_keeps_the_body_verbatim() {
    let code = "style: tip\ntitle: T\nauthor: A\nurl: https://example.com/\n---  * not a list\n--- again\n";
    let block = rewrite(code, &config()).unwrap();
    assert_eq!(block.len(), 3);
    assert_eq!(block[1], text("  * not a list\n--- again\n"));
    assert_eq!(block[2], Token::CodeBlockEnd);
}

#[test]
fn rewrite_cuts_at_the_first_three_hyphens() {
    let code = "style: tip\ntitle: T\nauthor: A\nurl: https://example.com/\n----\nbody";
    let block = rewrite(code, &config()).unwrap();
    assert_eq!(block[1], text("-\nbody"));
    assert_eq!(
        rewrite("style: tip\ntitle: a --- b\nauthor: A\nurl: https://example.com/\n---\nbody", &config()),
        Err(RewriteError::MalformedHeader)
    );
}

#[test]
fn rewrite_without_separator_fails() {
    assert_eq!(
        rewrite("style: info\ntitle: T\nauthor: A\nurl: https://example.com/\n", &config()),
        Err(RewriteError::MissingSeparator)
    );
    assert_eq!(rewrite("", &config()), Err(RewriteError::MissingSeparator));
}

#[test]
fn rewrite_with_bad_header_fails() {
    assert_eq!(
        rewrite("style: info\n---\nbody", &config()),
        Err(RewriteError::MalformedHeader)
    );
    assert_eq!(
        rewrite("style: info\ntitle: T\nauthor: A\nurl: not-a-url\n---\nbody", &config()),
        Err(RewriteError::MalformedHeader)
    );
}

#[test]
fn step_scanning_passes_other_tokens() {
    assert_eq!(
        step(State::Scanning, text("hello"), &config()),
        Ok((State::Scanning, vec![text("hello")]))
    );
    assert_eq!(
        step(State::Scanning, start("rust"), &config()),
        Ok((State::Scanning, vec![start("rust")]))
    );
    assert_eq!(
        step(State::Scanning, Token::Other(Event::Rule), &config()),
        Ok((State::Scanning, vec![Token::Other(Event::Rule)]))
    );
    assert_eq!(
        step(State::Scanning, Token::CodeBlockEnd, &config()),
        Ok((State::Scanning, vec![Token::CodeBlockEnd]))
    );
}

#[test]
fn step_scanning_enters_a_target() {
    assert_eq!(step(State::Scanning, start("reading"), &config()), Ok((State::Capturing, vec![])));
}

#[test]
fn step_capturing_rewrites_the_text() {
    assert_eq!(step(State::Capturing, text(BLOCK), &config()), Ok((State::Closing, admonition())));
}

#[test]
fn step_capturing_needs_a_text() {
    assert_eq!(
        step(State::Capturing, Token::CodeBlockEnd, &config()),
        Err(RewriteError::UnexpectedStructure)
    );
    assert_eq!(
        step(State::Capturing, start("reading"), &config()),
        Err(RewriteError::UnexpectedStructure)
    );
    assert_eq!(
        step(State::Capturing, Token::Other(Event::SoftBreak), &config()),
        Err(RewriteError::UnexpectedStructure)
    );
}

#[test]
fn step_capturing_hands_on_the_failure() {
    assert_eq!(
        step(State::Capturing, text("no separator"), &config()),
        Err(RewriteError::MissingSeparator)
    );
}

#[test]
fn step_closing_needs_the_end() {
    assert_eq!(step(State::Closing, Token::CodeBlockEnd, &config()), Ok((State::Scanning, vec![])));
    assert_eq!(
        step(State::Closing, text("more"), &config()),
        Err(RewriteError::UnexpectedStructure)
    );
}

#[test]
fn walk_passes_through_without_targets() {
    let tokens = || {
        vec![
            Token::Other(Event::Start(Tag::Paragraph)),
            text("hello"),
            Token::Other(Event::End(TagEnd::Paragraph)),
            start("rust"),
            text("fn main() {}\n"),
            Token::CodeBlockEnd,
        ]
    };
    assert_eq!(walk(tokens(), &config()), Ok(tokens()));
    assert_eq!(walk(Vec::new(), &config()), Ok(Vec::new()));
}

#[test]
fn walk_replaces_a_target_block() {
    let tokens = vec![
        Token::Other(Event::Rule),
        start("reading"),
        text(BLOCK),
        Token::CodeBlockEnd,
        text("after"),
    ];
    let mut expected = vec![Token::Other(Event::Rule)];
    expected.extend(admonition());
    expected.push(text("after"));
    assert_eq!(walk(tokens, &config()), Ok(expected));
}

#[test]
fn walk_replaces_every_target_block() {
    let tokens = vec![
        start("reading"),
        text(BLOCK),
        Token::CodeBlockEnd,
        start("reading"),
        text(BLOCK),
        Token::CodeBlockEnd,
    ];
    let mut expected = admonition();
    expected.extend(admonition());
    assert_eq!(walk(tokens, &config()), Ok(expected));
}

#[test]
fn walk_twice_changes_nothing_more() {
    let tokens = vec![start("reading"), text(BLOCK), Token::CodeBlockEnd, text("after")];
    let once = walk(tokens, &config()).unwrap();
    let mut expected = admonition();
    expected.push(text("after"));
    assert_eq!(walk(once, &config()), Ok(expected));
}

#[test]
fn walk_uses_the_configured_label() {
    let config = Config::new(None, "cite".to_string());
    let tokens = || vec![start("reading"), text(BLOCK), Token::CodeBlockEnd];
    assert_eq!(walk(tokens(), &config), Ok(tokens()));
    let tokens = vec![start("cite"), text(BLOCK), Token::CodeBlockEnd];
    assert_eq!(walk(tokens, &config), Ok(admonition()));
}

#[test]
fn walk_needs_the_whole_label() {
    let tokens = || vec![start("reading extra"), text(BLOCK), Token::CodeBlockEnd];
    assert_eq!(walk(tokens(), &config()), Ok(tokens()));
}

#[test]
fn walk_rejects_an_empty_target_block() {
    let tokens = vec![start("reading"), Token::CodeBlockEnd];
    assert_eq!(walk(tokens, &config()), Err(RewriteError::UnexpectedStructure));
}

#[test]
fn walk_rejects_a_target_block_in_parts() {
    let tokens = vec![start("reading"), text(BLOCK), text("more"), Token::CodeBlockEnd];
    assert_eq!(walk(tokens, &config()), Err(RewriteError::UnexpectedStructure));
}

#[test]
fn walk_rejects_an_unfinished_target_block() {
    assert_eq!(walk(vec![start("reading")], &config()), Err(RewriteError::UnexpectedStructure));
    assert_eq!(
        walk(vec![start("reading"), text(BLOCK)], &config()),
        Err(RewriteError::UnexpectedStructure)
    );
}

#[test]
fn walk_stops_at_the_first_failure() {
    let tokens = vec![
        start("reading"),
        text("no separator"),
        Token::CodeBlockEnd,
        start("reading"),
        Token::CodeBlockEnd,
    ];
    assert_eq!(walk(tokens, &config()), Err(RewriteError::MissingSeparator));
    let tokens = vec![
        start("reading"),
        Token::CodeBlockEnd,
        start("reading"),
        text("no separator"),
        Token::CodeBlockEnd,
    ];
    assert_eq!(walk(tokens, &config()), Err(RewriteError::UnexpectedStructure));
}

#[test]
fn serialize_writes_a_fenced_block() {
    assert_eq!(
        serialize(&admonition()),
        Ok(format!("\n````{TITLE}\n\nBody text.\n````"))
    );
}

#[test]
fn serialize_writes_other_events() {
    let tokens = vec![
        Token::Other(Event::Start(Tag::Paragraph)),
        text("hello"),
        Token::Other(Event::End(TagEnd::Paragraph)),
    ];
    assert_eq!(serialize(&tokens), Ok("hello".to_string()));
}

#[test]
fn serialize_rejects_an_unbalanced_stream() {
    let tokens = vec![Token::Other(Event::End(TagEnd::Link))];
    assert_eq!(serialize(&tokens), Err(RewriteError::Serialization));
}

#[test]
fn transform_rewrites_the_example() {
    let markdown = format!("```reading\n{BLOCK}```\n");
    assert_eq!(
        transform(&markdown, &config()),
        Ok(format!("\n````{TITLE}\n\nBody text.\n````"))
    );
}

#[test]
fn transform_fails_without_separator() {
    let markdown = "# Title\n\n```reading\nstyle: info\ntitle: T\n```\n";
    assert_eq!(transform(markdown, &config()), Err(RewriteError::MissingSeparator));
}

#[test]
fn transform_fails_on_invalid_url() {
    let markdown = "```reading\nstyle: info\ntitle: T\nauthor: A\nurl: not-a-url\n---\nBody\n```\n";
    assert_eq!(transform(markdown, &config()), Err(RewriteError::MalformedHeader));
}

#[test]
fn transform_fails_on_empty_target_block() {
    assert_eq!(
        transform("```reading\n```\n", &config()),
        Err(RewriteError::UnexpectedStructure)
    );
}
