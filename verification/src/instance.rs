//! The preprocessor at work: one configuration, applied to a text, a chapter
//! or a whole book.

use crate::book::{items_view, Book, BookItem, BookItemView, Chapter, ChapterView};
use crate::config::{Config, ConfigView};
use crate::error::RewriteError;
use crate::token::{Token, TokenView};
use crate::walker::{rewrite, rewritten_block, transform, transformed};
use vstd::prelude::*;

verus! {

/// A chapter with its text rewritten and its sub-items mapped in order. The
/// first failure, the chapter's own text before its sub-items, is the
/// result.
pub open spec fn mapped_chapter(chapter: ChapterView, config: ConfigView) -> Result<
    ChapterView,
    RewriteError,
>
    decreases chapter,
{
    match transformed(chapter.content, config) {
        Err(error) => Err(error),
        Ok(content) => match mapped_items(chapter.sub_items, config) {
            Err(error) => Err(error),
            Ok(sub_items) => Ok(ChapterView { name: chapter.name, content, sub_items }),
        },
    }
}

/// An item mapped: a chapter is rewritten, any other item stays as it is.
pub open spec fn mapped_item(item: BookItemView, config: ConfigView) -> Result<
    BookItemView,
    RewriteError,
>
    decreases item,
{
    match item {
        BookItemView::Chapter(chapter) => match mapped_chapter(chapter, config) {
            Ok(mapped) => Ok(BookItemView::Chapter(mapped)),
            Err(error) => Err(error),
        },
        other => Ok(other),
    }
}

/// The items of a sequence mapped one by one, in order. The first failure is
/// the result.
pub open spec fn mapped_items(items: Seq<BookItemView>, config: ConfigView) -> Result<
    Seq<BookItemView>,
    RewriteError,
>
    decreases items,
{
    if items.len() == 0 {
        Ok(Seq::empty())
    } else {
        match mapped_item(items[0], config) {
            Err(error) => Err(error),
            Ok(first) => match mapped_items(items.skip(1), config) {
                Err(error) => Err(error),
                Ok(rest) => Ok(seq![first] + rest),
            },
        }
    }
}

/// Puts the items already mapped in front of the result for the rest.
pub open spec fn mapped_after(done: Seq<BookItemView>, rest: Result<
    Seq<BookItemView>,
    RewriteError,
>) -> Result<Seq<BookItemView>, RewriteError> {
    match rest {
        Ok(items) => Ok(done + items),
        Err(error) => Err(error),
    }
}

/// `output` is `input` with every chapter's text rewritten and nothing else
/// changed: the same kinds of items in the same order, chapters with the
/// same names and as many sub-items, other items as they were.
pub open spec fn is_rewritten_item(input: BookItemView, output: BookItemView, config: ConfigView) -> bool
    decreases input,
{
    match (input, output) {
        (BookItemView::Chapter(chapter), BookItemView::Chapter(mapped)) => {
            &&& mapped.name == chapter.name
            &&& transformed(chapter.content, config) == Ok::<_, RewriteError>(mapped.content)
            &&& mapped.sub_items.len() == chapter.sub_items.len()
            &&& forall|i: int|
                0 <= i < chapter.sub_items.len() ==> is_rewritten_item(
                    #[trigger] chapter.sub_items[i],
                    mapped.sub_items[i],
                    config,
                )
        },
        (BookItemView::Separator, BookItemView::Separator) => true,
        (BookItemView::PartTitle(before), BookItemView::PartTitle(after)) => before == after,
        _ => false,
    }
}

/// Mapping keeps the shape of a list of items: as many items come out as
/// went in, and each is the rewritten form of the one in its place.
pub proof fn lemma_map_items_keeps_shape(
    items: Seq<BookItemView>,
    config: ConfigView,
    output: Seq<BookItemView>,
)
    requires
        mapped_items(items, config) == Ok::<_, RewriteError>(output),
    ensures
        output.len() == items.len(),
        forall|i: int|
            0 <= i < items.len() ==> is_rewritten_item(#[trigger] items[i], output[i], config),
    decreases items,
{
    if items.len() > 0 {
        let first = mapped_item(items[0], config)->Ok_0;
        let rest = mapped_items(items.skip(1), config)->Ok_0;
        lemma_map_item_keeps_shape(items[0], config, first);
        lemma_map_items_keeps_shape(items.skip(1), config, rest);
        assert(output == seq![first] + rest);
        assert forall|i: int| 0 <= i < items.len() implies is_rewritten_item(
            #[trigger] items[i],
            output[i],
            config,
        ) by {
            if i > 0 {
                assert(items[i] == items.skip(1)[i - 1]);
                assert(output[i] == rest[i - 1]);
            }
        }
    }
}

/// Mapping keeps the shape of the tree below an item and touches nothing but
/// the text of chapters.
pub proof fn lemma_map_item_keeps_shape(
    item: BookItemView,
    config: ConfigView,
    output: BookItemView,
)
    requires
        mapped_item(item, config) == Ok::<_, RewriteError>(output),
    ensures
        is_rewritten_item(item, output, config),
    decreases item,
{
    match item {
        BookItemView::Chapter(chapter) => {
            let mapped = mapped_chapter(chapter, config)->Ok_0;
            lemma_map_items_keeps_shape(chapter.sub_items, config, mapped.sub_items);
        },
        _ => {},
    }
}

/// The preprocessor with its settings.
#[derive(Debug)]
pub struct Instance {
    config: Config,
}

impl View for Instance {
    type V = ConfigView;

    closed spec fn view(&self) -> ConfigView {
        self.config@
    }
}

impl Instance {
    /// A preprocessor with the given settings.
    pub fn new(config: Config) -> (instance: Instance)
        ensures
            instance@ == config@,
    {
        Instance { config }
    }

    /// Rewrites every chapter of a book.
    pub fn map(&self, book: Book) -> (result: Result<Book, RewriteError>)
        ensures
            match result {
                Ok(mapped) => mapped_items(book@, self@) == Ok::<_, RewriteError>(mapped@),
                Err(error) => mapped_items(book@, self@) == Err::<Seq<BookItemView>, _>(error),
            },
    {
        match self.map_items(book.sections) {
            Ok(sections) => Ok(Book { sections }),
            Err(error) => Err(error),
        }
    }

    /// Maps the items of a list in order and stops at the first failure.
    pub fn map_items(&self, items: Vec<BookItem>) -> (result: Result<Vec<BookItem>, RewriteError>)
        ensures
            match result {
                Ok(mapped) => mapped_items(items_view(items@), self@) == Ok::<_, RewriteError>(
                    items_view(mapped@),
                ),
                Err(error) => mapped_items(items_view(items@), self@) == Err::<
                    Seq<BookItemView>,
                    _,
                >(error),
            },
        decreases items,
    {
        let ghost all = items_view(items@);
        let mut output: Vec<BookItem> = Vec::new();
        assert(all.skip(0) =~= all);
        assert(items_view(output@) =~= Seq::<BookItemView>::empty());
        for item in iter: items
            invariant
                all == items_view(items@),
                iter.seq() == items@,
                mapped_items(all, self@) == mapped_after(
                    items_view(output@),
                    mapped_items(all.skip(iter.index() as int), self@),
                ),
        {
            let ghost at = iter.index() as int;
            let ghost rest = all.skip(at);
            let ghost before = items_view(output@);
            assert(item@ == rest[0]);
            assert(rest.skip(1) =~= all.skip(at + 1));
            match self.map_book_item(item) {
                Err(error) => {
                    assert(mapped_items(rest, self@) == Err::<Seq<BookItemView>, _>(error));
                    return Err(error);
                },
                Ok(mapped) => {
                    output.push(mapped);
                    assert(items_view(output@) =~= before + seq![mapped@]);
                    proof {
                        match mapped_items(rest.skip(1), self@) {
                            Ok(tail) => {
                                assert(before + (seq![mapped@] + tail) =~= (before + seq![
                                    mapped@,
                                ]) + tail);
                            },
                            Err(_) => {},
                        }
                    }
                },
            }
        }
        assert(all.skip(all.len() as int) =~= Seq::<BookItemView>::empty());
        assert(items_view(output@) + Seq::<BookItemView>::empty() =~= items_view(output@));
        Ok(output)
    }

    /// Rewrites a chapter; any other item is handed back unchanged.
    pub fn map_book_item(&self, item: BookItem) -> (result: Result<BookItem, RewriteError>)
        ensures
            match result {
                Ok(mapped) => mapped_item(item@, self@) == Ok::<_, RewriteError>(mapped@),
                Err(error) => mapped_item(item@, self@) == Err::<BookItemView, _>(error),
            },
        decreases item,
    {
        match item {
            BookItem::Chapter(chapter) => match self.map_chapter(chapter) {
                Ok(mapped) => Ok(BookItem::Chapter(mapped)),
                Err(error) => Err(error),
            },
            other => Ok(other),
        }
    }

    /// Rewrites the text of a chapter, then its sub-items in order.
    pub fn map_chapter(&self, chapter: Chapter) -> (result: Result<Chapter, RewriteError>)
        ensures
            match result {
                Ok(mapped) => mapped_chapter(chapter@, self@) == Ok::<_, RewriteError>(mapped@),
                Err(error) => mapped_chapter(chapter@, self@) == Err::<ChapterView, _>(error),
            },
        decreases chapter,
    {
        let Chapter { name, content, sub_items } = chapter;
        let content = match self.map_markdown(content.as_str()) {
            Ok(content) => content,
            Err(error) => {
                return Err(error);
            },
        };
        match self.map_items(sub_items) {
            Ok(sub_items) => Ok(Chapter { name, content, sub_items }),
            Err(error) => Err(error),
        }
    }

    /// Rewrites the target blocks of a markdown text and leaves the rest of
    /// the text to the parser and the serializer.
    pub fn map_markdown(&self, markdown: &str) -> (result: Result<String, RewriteError>)
        ensures
            match result {
                Ok(text) => transformed(markdown@, self@) == Ok::<_, RewriteError>(text@),
                Err(error) => transformed(markdown@, self@) == Err::<Seq<char>, _>(error),
            },
    {
        transform(markdown, &self.config)
    }

    /// Replaces the text of one target block by the events of its
    /// admonition.
    pub fn map_code(&self, code: &str) -> (result: Result<Vec<Token>, RewriteError>)
        ensures
            match result {
                Ok(block) => rewritten_block(code@, self@) == Ok::<_, RewriteError>(
                    block.deep_view(),
                ),
                Err(error) => rewritten_block(code@, self@) == Err::<Seq<TokenView>, _>(error),
            },
    {
        rewrite(code, &self.config)
    }
}

} // verus!
