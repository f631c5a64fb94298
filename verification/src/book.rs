//! The document tree: chapters with their text and their sub-items, and the
//! items between chapters that carry no text to rewrite.

use vstd::prelude::*;

verus! {

/// A chapter: its text, and the items below it in order.
#[derive(Debug, PartialEq, Eq)]
pub struct Chapter {
    /// The chapter's name.
    pub name: String,
    /// The chapter's markdown text.
    pub content: String,
    /// The items nested below the chapter.
    pub sub_items: Vec<BookItem>,
}

/// One item of a book.
#[derive(Debug, PartialEq, Eq)]
pub enum BookItem {
    /// A chapter, which may hold further items.
    Chapter(Chapter),
    /// A separator between sections.
    Separator,
    /// The title of a part.
    PartTitle(String),
}

/// A book: its items in order.
#[derive(Debug, PartialEq, Eq)]
pub struct Book {
    /// The top-level items.
    pub sections: Vec<BookItem>,
}

/// A chapter as plain values.
pub struct ChapterView {
    /// The chapter's name.
    pub name: Seq<char>,
    /// The chapter's markdown text.
    pub content: Seq<char>,
    /// The items nested below the chapter.
    pub sub_items: Seq<BookItemView>,
}

/// An item as plain values.
pub enum BookItemView {
    /// A chapter.
    Chapter(ChapterView),
    /// A separator between sections.
    Separator,
    /// The title of a part.
    PartTitle(Seq<char>),
}

/// The items of a sequence as plain values.
pub open spec fn items_view(items: Seq<BookItem>) -> Seq<BookItemView>
    decreases items,
{
    Seq::new(
        items.len(),
        |i: int|
            if 0 <= i < items.len() {
                items[i]@
            } else {
                BookItemView::Separator
            },
    )
}

impl View for Chapter {
    type V = ChapterView;

    open spec fn view(&self) -> ChapterView
        decreases self,
    {
        ChapterView {
            name: self.name@,
            content: self.content@,
            sub_items: items_view(self.sub_items@),
        }
    }
}

impl View for BookItem {
    type V = BookItemView;

    open spec fn view(&self) -> BookItemView
        decreases self,
    {
        match self {
            BookItem::Chapter(chapter) => BookItemView::Chapter(chapter@),
            BookItem::Separator => BookItemView::Separator,
            BookItem::PartTitle(title) => BookItemView::PartTitle(title@),
        }
    }
}

impl View for Book {
    type V = Seq<BookItemView>;

    open spec fn view(&self) -> Seq<BookItemView> {
        items_view(self.sections@)
    }
}

} // verus!
