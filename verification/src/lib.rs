//! Conversion of scraped wiki-style HTML pages into Markdown documents.
//!
//! A page is parsed, its title and the direct children of its content
//! container are classified into content blocks, and the blocks are written
//! out as Markdown between a front-matter title block and a footer that links
//! back to the page.
pub mod ascii;
pub mod classifier;
pub mod collector;
pub mod content;
pub mod converter;
pub mod dom;
pub mod emitter;
pub mod markdown;
pub mod names;
pub mod paths;
pub mod percent;
pub mod quoting;
pub mod text;

pub use crate::classifier::{classify, Document};
pub use crate::collector::{is_page_file, Walk};
pub use crate::content::{ContentType, ConvertError};
pub use crate::converter::{generate_markdown, should_convert, MarkdownFile};
pub use crate::emitter::emit;
pub use crate::quoting::{quote_title, QSParse, QSSpec};
