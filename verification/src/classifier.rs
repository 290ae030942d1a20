//! From the text of a page to its title and content blocks.
use vstd::prelude::*;

use crate::content::{
    element_kind, heading_block, heading_of, kind_of, list_block, paragraph_block, paragraph_of,
    title_of, title_or_unknown, ContentType, ContentView, ConvertError, ElementKind,
};
use crate::dom::{
    child_elements, child_text_flags, element_view, element_views, first_match, inner_html,
    parse_document, select_first, select_within, tag_name, ElementView,
};

verus! {

/// The title and the content blocks of one page.
#[derive(Debug, PartialEq, Eq)]
pub struct Document {
    pub title: String,
    pub blocks: Vec<ContentType>,
}

/// A document as a mathematical value.
pub struct DocumentView {
    pub title: Seq<char>,
    pub blocks: Seq<ContentView>,
}

impl DocumentView {
    /// Every block is well formed.
    pub open spec fn well_formed(self) -> bool {
        forall|i: int| 0 <= i < self.blocks.len() ==> (#[trigger] self.blocks[i]).well_formed()
    }
}

impl View for Document {
    type V = DocumentView;

    open spec fn view(&self) -> DocumentView {
        DocumentView { title: self.title@, blocks: self.blocks.deep_view() }
    }
}

impl Document {
    /// Whether every heading of the document has level 1 or 2.
    pub fn is_well_formed(&self) -> (ok: bool)
        ensures
            ok == self@.well_formed(),
    {
        let mut i: usize = 0;
        while i < self.blocks.len()
            invariant
                i <= self.blocks.len(),
                forall|k: int| 0 <= k < i ==> (#[trigger] self@.blocks[k]).well_formed(),
            decreases self.blocks.len() - i,
        {
            match &self.blocks[i] {
                ContentType::Header(_, level) => {
                    if *level != 1 && *level != 2 {
                        assert(!self@.blocks[i as int].well_formed());
                        return false;
                    }
                },
                _ => {},
            }
            i = i + 1;
        }
        true
    }
}

/// Selects the element that holds the title.
pub open spec fn title_selector() -> Seq<char> {
    "#firstHeading,#section_0"@
}

/// Selects the container of the content.
pub open spec fn content_selector() -> Seq<char> {
    ".mw-parser-output"@
}

/// Selects, inside a heading element, what holds its text.
pub open spec fn heading_text_selector() -> Seq<char> {
    "span"@
}

/// Selects the items of the lists inside a section.
pub open spec fn list_item_selector() -> Seq<char> {
    "ul > li"@
}

/// The inner markup of each of the elements.
pub open spec fn markups(elements: Seq<ElementView>) -> Seq<Seq<char>> {
    elements.map_values(|e: ElementView| e.markup)
}

/// The inner markup of the first of the elements, if there is one.
pub open spec fn first_markup(elements: Seq<ElementView>) -> Option<Seq<char>> {
    if elements.len() > 0 {
        Some(elements[0].markup)
    } else {
        None
    }
}

/// The block that one child element of the container gives. A heading
/// takes its text from the first `span` inside it and is an error without
/// one; a section gives the items of the `ul` lists inside it; an element of
/// another kind gives nothing.
pub open spec fn block_of(e: ElementView) -> Option<Result<ContentView, ConvertError>> {
    match kind_of(e.tag) {
        ElementKind::Heading(level) => Some(
            heading_of(first_markup((e.matches)(heading_text_selector())), level as nat),
        ),
        ElementKind::Paragraph => Some(Ok(paragraph_of(e.markup, e.child_is_text))),
        ElementKind::Section => Some(
            Ok(ContentView::List(markups((e.matches)(list_item_selector())))),
        ),
        ElementKind::Other => None,
    }
}

/// The blocks that a sequence of elements gives, in the order of the
/// elements, or the error of the first element that has one.
pub open spec fn blocks_of(elements: Seq<ElementView>) -> Result<Seq<ContentView>, ConvertError>
    decreases elements.len(),
{
    if elements.len() == 0 {
        Ok(Seq::empty())
    } else {
        match blocks_of(elements.drop_last()) {
            Err(e) => Err(e),
            Ok(blocks) => match block_of(elements.last()) {
                None => Ok(blocks),
                Some(Ok(block)) => Ok(blocks.push(block)),
                Some(Err(e)) => Err(e),
            },
        }
    }
}

/// The document that a page gives, from its title element and its content
/// container as far as it has them. A page without a container has no blocks.
pub open spec fn classified(title: Option<ElementView>, container: Option<ElementView>) -> Result<
    DocumentView,
    ConvertError,
> {
    let title = title_of(
        match title {
            Some(e) => Some(e.markup),
            None => None,
        },
    );
    match container {
        None => Ok(DocumentView { title, blocks: Seq::empty() }),
        Some(c) => match blocks_of(c.elements) {
            Ok(blocks) => Ok(DocumentView { title, blocks }),
            Err(e) => Err(e),
        },
    }
}

/// The inner markup of each of the elements.
fn markups_of(elements: &Vec<scraper::ElementRef>) -> (out: Vec<String>)
    ensures
        out.deep_view() == markups(element_views(elements@)),
{
    let mut out: Vec<String> = Vec::new();
    let mut i: usize = 0;
    while i < elements.len()
        invariant
            i <= elements.len(),
            out.deep_view() == markups(element_views(elements@)).take(i as int),
        decreases elements.len() - i,
    {
        let markup = inner_html(&elements[i]);
        assert(markups(element_views(elements@)).take(i + 1) =~= markups(
            element_views(elements@),
        ).take(i as int).push(markup@));
        out.push(markup);
        i = i + 1;
    }
    out
}

/// The inner markup of the first of the elements, if there is one.
fn first_markup_of(elements: &Vec<scraper::ElementRef>) -> (out: Option<String>)
    ensures
        match out {
            Some(markup) => first_markup(element_views(elements@)) == Some(markup@),
            None => first_markup(element_views(elements@)) is None,
        },
{
    if elements.len() > 0 {
        Some(inner_html(&elements[0]))
    } else {
        None
    }
}

/// Classifies one child element of the content container.
fn classify_element(e: &scraper::ElementRef) -> (block: Option<Result<ContentType, ConvertError>>)
    ensures
        match block {
            None => block_of(element_view(*e)) is None,
            Some(Ok(b)) => block_of(element_view(*e)) == Some(
                Ok::<ContentView, ConvertError>(b@),
            ),
            Some(Err(err)) => block_of(element_view(*e)) == Some(
                Err::<ContentView, ConvertError>(err),
            ),
        },
{
    let tag = tag_name(e);
    match element_kind(tag.as_str()) {
        ElementKind::Heading(level) => {
            let spans = select_within(e, "span");
            Some(heading_block(first_markup_of(&spans), level))
        },
        ElementKind::Paragraph => {
            let flags = child_text_flags(e);
            Some(Ok(paragraph_block(inner_html(e), &flags)))
        },
        ElementKind::Section => {
            let items = select_within(e, "ul > li");
            Some(Ok(list_block(markups_of(&items))))
        },
        ElementKind::Other => None,
    }
}

/// Classifies the child elements of the content container, in order.
fn classify_children(container: &scraper::ElementRef) -> (blocks: Result<
    Vec<ContentType>,
    ConvertError,
>)
    ensures
        match blocks {
            Ok(b) => blocks_of(element_view(*container).elements) == Ok::<
                Seq<ContentView>,
                ConvertError,
            >(b.deep_view()),
            Err(e) => blocks_of(element_view(*container).elements) == Err::<
                Seq<ContentView>,
                ConvertError,
            >(e),
        },
{
    let children = child_elements(container);
    let ghost views = element_views(children@);
    let mut blocks: Vec<ContentType> = Vec::new();
    let mut i: usize = 0;
    assert(blocks.deep_view() =~= Seq::empty());
    while i < children.len()
        invariant
            i <= children.len(),
            views == element_views(children@),
            views == element_view(*container).elements,
            blocks_of(views.take(i as int)) == Ok::<Seq<ContentView>, ConvertError>(
                blocks.deep_view(),
            ),
        decreases children.len() - i,
    {
        let block = classify_element(&children[i]);
        assert(views.take(i + 1).drop_last() == views.take(i as int));
        match block {
            None => {},
            Some(Ok(b)) => {
                let ghost before = blocks.deep_view();
                blocks.push(b);
                assert(blocks.deep_view() == before.push(b@));
            },
            Some(Err(e)) => {
                proof {
                    lemma_error_stays(views, i + 1);
                }
                return Err(e);
            },
        }
        i = i + 1;
    }
    assert(views.take(i as int) == views);
    Ok(blocks)
}

/// Once the elements up to some point give an error, all of them give it.
proof fn lemma_error_stays(elements: Seq<ElementView>, n: int)
    requires
        0 <= n <= elements.len(),
        blocks_of(elements.take(n)) is Err,
    ensures
        blocks_of(elements) == blocks_of(elements.take(n)),
    decreases elements.len() - n,
{
    if n < elements.len() {
        assert(elements.take(n + 1).drop_last() == elements.take(n));
        lemma_error_stays(elements, n + 1);
    } else {
        assert(elements.take(n) == elements);
    }
}

/// The blocks that elements give are well formed.
proof fn lemma_blocks_well_formed(elements: Seq<ElementView>)
    ensures
        blocks_of(elements) matches Ok(blocks) ==> forall|i: int|
            0 <= i < blocks.len() ==> (#[trigger] blocks[i]).well_formed(),
    decreases elements.len(),
{
    if elements.len() > 0 {
        lemma_blocks_well_formed(elements.drop_last());
    }
}

/// Parses a page and gives its title and its content blocks.
///
/// The title is the inner markup of the first element that the title
/// selector matches, or `UNKNOWN`. The blocks come from the direct child
/// elements of the first element that the content selector matches, in
/// document order. The page is refused if one of these children is a heading
/// without a `span`.
pub fn classify(html: &str) -> (document: Result<Document, ConvertError>)
    ensures
        match document {
            Ok(d) => classified(
                first_match(html@, title_selector()),
                first_match(html@, content_selector()),
            ) == Ok::<DocumentView, ConvertError>(d@),
            Err(e) => classified(
                first_match(html@, title_selector()),
                first_match(html@, content_selector()),
            ) == Err::<DocumentView, ConvertError>(e),
        },
        document matches Ok(d) ==> d@.well_formed(),
{
    proof {
        if let Some(c) = first_match(html@, content_selector()) {
            lemma_blocks_well_formed(c.elements);
        }
    }
    let page = parse_document(html);
    let title = title_or_unknown(
        match select_first(&page, "#firstHeading,#section_0") {
            Some(e) => Some(inner_html(&e)),
            None => None,
        },
    );
    let blocks = match select_first(&page, ".mw-parser-output") {
        Some(container) => match classify_children(&container) {
            Ok(blocks) => blocks,
            Err(e) => {
                return Err(e);
            },
        },
        None => Vec::new(),
    };
    assert(first_match(html@, content_selector()) is None ==> blocks.deep_view() =~= Seq::empty());
    Ok(Document { title, blocks })
}

} // verus!
