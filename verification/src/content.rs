//! The content blocks of a page and the rules that make them.
use vstd::prelude::*;

use crate::text::same_text;

verus! {

/// One block of a page's content.
#[derive(Debug, PartialEq, Eq)]
pub enum ContentType {
    /// A section heading and its level: 1 for a section, 2 for a subsection.
    Header(String, usize),
    /// A paragraph's inner markup, and whether it is plain text.
    Paragraph(String, bool),
    /// The inner markup of each item of a list.
    List(Vec<String>),
}

/// A content block as a mathematical value.
pub enum ContentView {
    /// A heading: its text and its level.
    Header(Seq<char>, nat),
    /// A paragraph: its markup, and whether it is plain text.
    Paragraph(Seq<char>, bool),
    /// A list: the markup of its items.
    List(Seq<Seq<char>>),
}

impl View for ContentType {
    type V = ContentView;

    open spec fn view(&self) -> ContentView {
        match self {
            ContentType::Header(text, level) => ContentView::Header(text@, *level as nat),
            ContentType::Paragraph(text, plain) => ContentView::Paragraph(text@, *plain),
            ContentType::List(items) => ContentView::List(items.deep_view()),
        }
    }
}

impl DeepView for ContentType {
    type V = ContentView;

    open spec fn deep_view(&self) -> ContentView {
        self@
    }
}

impl ContentView {
    /// A heading has level 1 or 2; every other block is well formed.
    pub open spec fn well_formed(self) -> bool {
        match self {
            ContentView::Header(_, level) => level == 1 || level == 2,
            _ => true,
        }
    }
}

/// Why a page could not be converted.
#[derive(Debug, Clone, Copy, PartialEq, Eq, Structural)]
pub enum ConvertError {
    /// A heading has no `span` to take its text from.
    MissingHeadingText,
    /// The path of the page names no file.
    NoFileName,
    /// No relative path leads from the output folder to the page.
    NoRelativePath,
}

/// What the tag of an element makes of it.
#[derive(Debug, Clone, Copy, PartialEq, Eq, Structural)]
pub enum ElementKind {
    /// A heading of the given level.
    Heading(usize),
    /// A paragraph.
    Paragraph,
    /// A section, from which the items of its lists are taken.
    Section,
    /// An element that the conversion passes over.
    Other,
}

/// The kind of an element with the given tag: `h2` and `h3` are headings of
/// level 1 and 2, `p` is a paragraph, `section` holds a list.
pub open spec fn kind_of(tag: Seq<char>) -> ElementKind {
    if tag == "h2"@ {
        ElementKind::Heading(1)
    } else if tag == "h3"@ {
        ElementKind::Heading(2)
    } else if tag == "p"@ {
        ElementKind::Paragraph
    } else if tag == "section"@ {
        ElementKind::Section
    } else {
        ElementKind::Other
    }
}

/// Tells the kind of an element from its tag. Tags are compared as they
/// are, letter for letter.
pub fn element_kind(tag: &str) -> (kind: ElementKind)
    ensures
        kind == kind_of(tag@),
{
    if same_text(tag, "h2") {
        ElementKind::Heading(1)
    } else if same_text(tag, "h3") {
        ElementKind::Heading(2)
    } else if same_text(tag, "p") {
        ElementKind::Paragraph
    } else if same_text(tag, "section") {
        ElementKind::Section
    } else {
        ElementKind::Other
    }
}

/// The title of a page without a title element.
pub open spec fn unknown_title() -> Seq<char> {
    "UNKNOWN"@
}

/// The title of a page, given the markup of its title element, if it has one.
pub open spec fn title_of(found: Option<Seq<char>>) -> Seq<char> {
    match found {
        Some(markup) => markup,
        None => unknown_title(),
    }
}

/// The title of a page: the markup of its title element, or `UNKNOWN`.
pub fn title_or_unknown(found: Option<String>) -> (title: String)
    ensures
        title@ == title_of(
            match found {
                Some(markup) => Some(markup@),
                None => None,
            },
        ),
{
    match found {
        Some(markup) => markup,
        None => "UNKNOWN".to_owned(),
    }
}

/// The heading made from the markup of the first `span` of a heading
/// element. Without a `span` there is no heading.
pub open spec fn heading_of(span: Option<Seq<char>>, level: nat) -> Result<
    ContentView,
    ConvertError,
> {
    match span {
        Some(text) => Ok(ContentView::Header(text, level)),
        None => Err(ConvertError::MissingHeadingText),
    }
}

/// Makes the heading of the given level from the markup of the first `span`
/// of a heading element, or refuses a heading element without one.
pub fn heading_block(span: Option<String>, level: usize) -> (block: Result<
    ContentType,
    ConvertError,
>)
    ensures
        match block {
            Ok(b) => span matches Some(text) && b@ == ContentView::Header(text@, level as nat),
            Err(e) => span is None && e == ConvertError::MissingHeadingText,
        },
{
    match span {
        Some(text) => Ok(ContentType::Header(text, level)),
        None => Err(ConvertError::MissingHeadingText),
    }
}

/// Whether every flag is set.
pub open spec fn all_set(flags: Seq<bool>) -> bool {
    forall|i: int| 0 <= i < flags.len() ==> flags[i]
}

/// Whether every flag is set. Of no flags, every one is.
pub fn all_flags_set(flags: &Vec<bool>) -> (all: bool)
    ensures
        all == all_set(flags@),
{
    let mut i: usize = 0;
    while i < flags.len()
        invariant
            i <= flags.len(),
            forall|k: int| 0 <= k < i ==> flags@[k],
        decreases flags.len() - i,
    {
        if !flags[i] {
            return false;
        }
        i = i + 1;
    }
    true
}

/// The paragraph made from an element's markup: it is plain text exactly if
/// every child node of the element is a text node.
pub open spec fn paragraph_of(markup: Seq<char>, child_is_text: Seq<bool>) -> ContentView {
    ContentView::Paragraph(markup, all_set(child_is_text))
}

/// Makes a paragraph from the inner markup of a paragraph element and, for
/// each of its child nodes, whether it is a text node.
pub fn paragraph_block(markup: String, child_is_text: &Vec<bool>) -> (block: ContentType)
    ensures
        block@ == paragraph_of(markup@, child_is_text@),
{
    let plain = all_flags_set(child_is_text);
    ContentType::Paragraph(markup, plain)
}

/// Makes a list from the markup of its items.
pub fn list_block(items: Vec<String>) -> (block: ContentType)
    ensures
        block@ == ContentView::List(items.deep_view()),
{
    ContentType::List(items)
}

} // verus!
