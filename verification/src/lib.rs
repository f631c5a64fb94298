//! Rewrites fenced code blocks that carry a citation header into styled
//! admonition blocks whose title links to the cited source.
//!
//! A block is a target when its info string equals the configured label. Its
//! body holds a small header, the separator `---`, and free text. The header
//! names a style, a title, an author, a URL and optionally an archived copy;
//! the block is replaced by an `admonish` block whose title is computed from
//! the header, with the free text as its body. Everything else in a document
//! is passed through unchanged.

pub mod book;
pub mod config;
pub mod error;
pub mod header;
pub mod instance;
pub mod preprocessor;
pub mod text;
pub mod token;
pub mod walker;

pub use book::{Book, BookItem, Chapter};
pub use config::{default_label, Config};
pub use error::RewriteError;
pub use header::Header;
pub use instance::Instance;
pub use preprocessor::ReadingPreprocessor;
pub use token::Token;
pub use walker::State;
