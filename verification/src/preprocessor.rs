//! The preprocessor under the name by which a book's settings refer to it.

use crate::book::{Book, BookItemView};
use crate::config::Config;
use crate::error::RewriteError;
use crate::instance::{mapped_items, Instance};
use vstd::prelude::*;

verus! {

/// The preprocessor as the host tool sees it: a name, and a run over a book.
#[derive(Clone, Copy, Debug, Default)]
pub struct ReadingPreprocessor;

impl ReadingPreprocessor {
    /// The name under which the host tool keeps this preprocessor's
    /// settings.
    pub fn name(&self) -> (name: &'static str)
        ensures
            name@ == "reading"@,
    {
        "reading"
    }

    /// Rewrites every chapter of a book with the given settings.
    pub fn run(&self, config: Config, book: Book) -> (result: Result<Book, RewriteError>)
        ensures
            match result {
                Ok(mapped) => mapped_items(book@, config@) == Ok::<_, RewriteError>(mapped@),
                Err(error) => mapped_items(book@, config@) == Err::<Seq<BookItemView>, _>(error),
            },
    {
        let instance = Instance::new(config);
        instance.map(book)
    }
}

} // verus!
