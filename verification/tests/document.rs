use mdbook_reading::{
    default_label, Book, BookItem, Chapter, Config, Instance, ReadingPreprocessor, RewriteError,
};
use pulldown_cmark::{Options, Parser};
use pulldown_cmark_to_cmark::cmark;

const TARGET: &str = "```reading\nstyle: info\ntitle: My Article\nauthor: Jane Doe\nurl: https://example.com/a\n---\nBody text.\n```\n";
const ADMONITION: &str = "````admonish info title=\"<a href='https://example.com/a'>My Article</a> by Jane Doe\"\n\nBody text.\n````";

fn instance() -> Instance {
    Instance::new(Config::new(None, default_label()))
}

fn round_trip(markdown: &str) -> String {
    let mut text = String::new();
    cmark(Parser::new_ext(markdown, Options::all()), &mut text).unwrap();
    text
}

fn chapter(name: &str, content: &str, sub_items: Vec<BookItem>) -> BookItem {
    BookItem::Chapter(Chapter {
        name: name.to_string(),
        content: content.to_string(),
        sub_items,
    })
}

#[test]
fn example_end_to_end() {
    let output = instance().map_markdown(TARGET).unwrap();
    assert_eq!(output, format!("\n{ADMONITION}"));
    let lines: Vec<&str> = output.lines().collect();
    assert_eq!(
        lines[1],
        "````admonish info title=\"<a href='https://example.com/a'>My Article</a> by Jane Doe\""
    );
    assert!(lines.contains(&"Body text."));
}

#[test]
fn example_with_archive() {
    let config = Config::new(Some("https://archive.example/".to_string()), default_label());
    let markdown = "```reading\nstyle: info\ntitle: T\nauthor: A\nurl: https://example.com/a\narchived: abc123\n---\nBody\n```\n";
    assert_eq!(
        Instance::new(config).map_markdown(markdown),
        Ok("\n````admonish info title=\"<a href='https://example.com/a'>T</a> \
            (<a href='https://archive.example/abc123'>archived</a>) by A\"\n\nBody\n````"
            .to_string())
    );
}

#[test]
fn text_around_a_target_is_kept() {
    let markdown = format!("# Heading\n\nBefore.\n\n{TARGET}\nAfter *that*.\n");
    assert_eq!(
        instance().map_markdown(&markdown),
        Ok(format!("# Heading\n\nBefore.\n\n{ADMONITION}\n\nAfter *that*."))
    );
}

#[test]
fn document_without_targets_is_round_tripped() {
    let documents = [
        "",
        "Just a paragraph.\n",
        "# Title\n\nSome *emphasis* and `code`.\n\n* one\n* two\n",
        "```rust\nfn main() {}\n```\n",
        "```reading extra\nstyle: info\n```\n",
        "    reading\n\n> quote\n\n| a | b |\n|---|---|\n| 1 | 2 |\n",
    ];
    for document in documents {
        assert_eq!(instance().map_markdown(document), Ok(round_trip(document)));
    }
}

#[test]
fn other_label_leaves_reading_blocks_alone() {
    let other = Instance::new(Config::new(None, "cite".to_string()));
    assert_eq!(other.map_markdown(TARGET), Ok(round_trip(TARGET)));
}

#[test]
fn second_run_changes_nothing() {
    let markdown = format!("# Heading\n\nBefore.\n\n{TARGET}\nAfter.\n");
    let once = instance().map_markdown(&markdown).unwrap();
    let twice = instance().map_markdown(&once).unwrap();
    assert_eq!(twice, once);
}

#[test]
fn missing_separator_aborts() {
    let markdown = "Before.\n\n```reading\nstyle: info\ntitle: T\nauthor: A\nurl: https://example.com/\n```\n";
    assert_eq!(instance().map_markdown(markdown), Err(RewriteError::MissingSeparator));
}

#[test]
fn invalid_url_aborts() {
    let markdown = "```reading\nstyle: info\ntitle: T\nauthor: A\nurl: not-a-url\n---\nBody\n```\n";
    assert_eq!(instance().map_markdown(markdown), Err(RewriteError::MalformedHeader));
}

#[test]
fn map_code_is_the_block_rewriter() {
    let block = instance()
        .map_code("style: info\ntitle: T\nauthor: A\nurl: https://example.com/\n---body")
        .unwrap();
    assert_eq!(block.len(), 3);
    assert_eq!(instance().map_code("nothing"), Err(RewriteError::MissingSeparator));
}

#[test]
fn nested_sub_items_are_mapped() {
    let book = Book {
        sections: vec![
            chapter(
                "Parent",
                "Parent text.\n",
                vec![
                    chapter("First", TARGET, vec![]),
                    BookItem::Separator,
                    chapter("Second", &format!("Intro.\n\n{TARGET}"), vec![]),
                ],
            ),
            BookItem::PartTitle("Part".to_string()),
        ],
    };
    let expected = Book {
        sections: vec![
            chapter(
                "Parent",
                "Parent text.",
                vec![
                    chapter("First", &format!("\n{ADMONITION}"), vec![]),
                    BookItem::Separator,
                    chapter("Second", &format!("Intro.\n\n{ADMONITION}"), vec![]),
                ],
            ),
            BookItem::PartTitle("Part".to_string()),
        ],
    };
    assert_eq!(instance().map(book), Ok(expected));
}

#[test]
fn deeply_nested_items_are_mapped() {
    let item = chapter(
        "A",
        "a\n",
        vec![chapter("B", "b\n", vec![chapter("C", TARGET, vec![])])],
    );
    let expected = chapter(
        "A",
        "a",
        vec![chapter("B", "b", vec![chapter("C", &format!("\n{ADMONITION}"), vec![])])],
    );
    assert_eq!(instance().map_book_item(item), Ok(expected));
}

#[test]
fn other_items_are_unchanged() {
    assert_eq!(instance().map_book_item(BookItem::Separator), Ok(BookItem::Separator));
    assert_eq!(
        instance().map_book_item(BookItem::PartTitle("```reading".to_string())),
        Ok(BookItem::PartTitle("```reading".to_string()))
    );
    assert_eq!(instance().map_items(Vec::new()), Ok(Vec::new()));
    assert_eq!(instance().map(Book { sections: vec![] }), Ok(Book { sections: vec![] }));
}

#[test]
fn map_chapter_rewrites_the_content() {
    let input = Chapter {
        name: "One".to_string(),
        content: TARGET.to_string(),
        sub_items: vec![BookItem::Separator],
    };
    let expected = Chapter {
        name: "One".to_string(),
        content: format!("\n{ADMONITION}"),
        sub_items: vec![BookItem::Separator],
    };
    assert_eq!(instance().map_chapter(input), Ok(expected));
}

#[test]
fn first_failure_in_the_tree_aborts() {
    let bad_header = "```reading\nstyle: info\n---\nBody\n```\n";
    let no_separator = "```reading\nstyle: info\n```\n";
    let book = Book {
        sections: vec![
            chapter("Fine", TARGET, vec![]),
            chapter("Parent", "fine\n", vec![chapter("Child", bad_header, vec![])]),
            chapter("Later", no_separator, vec![]),
        ],
    };
    assert_eq!(instance().map(book), Err(RewriteError::MalformedHeader));
    let book = Book {
        sections: vec![chapter("Parent", no_separator, vec![chapter("Child", bad_header, vec![])])],
    };
    assert_eq!(instance().map(book), Err(RewriteError::MissingSeparator));
}

#[test]
fn preprocessor_has_its_name() {
    assert_eq!(ReadingPreprocessor.name(), "reading");
    assert_eq!(ReadingPreprocessor::default().name(), "reading");
}

#[test]
fn preprocessor_runs_over_a_book() {
    let book = Book { sections: vec![chapter("One", TARGET, vec![])] };
    let expected = Book { sections: vec![chapter("One", &format!("\n{ADMONITION}"), vec![])] };
    let config = Config::new(None, default_label());
    assert_eq!(ReadingPreprocessor.run(config, book), Ok(expected));
}

#[test]
fn null_title_is_taken_as_text() {
    let markdown = "```reading\nstyle: info\ntitle: ~\nauthor:\nurl: https://example.com/a\n---\nBody\n```\n";
    assert_eq!(
        instance().map_markdown(markdown),
        Ok("\n````admonish info title=\"<a href='https://example.com/a'>~</a> by \"\n\nBody\n````"
            .to_string())
    );
    let block = instance()
        .map_code("style: null\ntitle: ~\nauthor:\nurl: https://example.com/a\n---\nBody\n")
        .unwrap();
    assert_eq!(block.len(), 3);
}

#[test]
fn second_run_differs_where_the_body_holds_a_fence() {
    let markdown = "~~~reading\nstyle: info\ntitle: T\nauthor: A\nurl: https://example.com/\n---\n````\n~~~\n";
    let once = instance().map_markdown(markdown).unwrap();
    assert_eq!(
        once,
        "\n````admonish info title=\"<a href='https://example.com/'>T</a> by A\"\n\n````\n````"
    );
    assert_ne!(round_trip(&once), once);
    assert_eq!(instance().map_markdown(&once), Ok(round_trip(&once)));
}
