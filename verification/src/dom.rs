//! The parsed page as `scraper` presents it.
//!
//! Verus cannot look inside a parsed document, so everything this module
//! says about one is believed, not proved: each function here asks `scraper`
//! one question and states what the answer is.
use vstd::prelude::*;

verus! {

/// `scraper::Html`, a parsed document.
#[verifier::external_type_specification]
#[verifier::external_body]
pub struct ExHtml(scraper::Html);

/// `scraper::ElementRef`, one element of a parsed document.
#[verifier::external_type_specification]
#[verifier::external_body]
pub struct ExElementRef<'a>(scraper::ElementRef<'a>);

/// What the classifier can observe of one element of a parsed page.
pub struct ElementView {
    /// The tag name, as the parser normalised it.
    pub tag: Seq<char>,
    /// The element's inner markup, serialised.
    pub markup: Seq<char>,
    /// For each child node, in order, whether it is a text node.
    pub child_is_text: Seq<bool>,
    /// The child nodes that are elements, in order.
    pub elements: Seq<ElementView>,
    /// For a selector, the descendants that it matches, in the order in
    /// which `scraper` visits them. A string that is no valid selector
    /// matches nothing.
    pub matches: spec_fn(Seq<char>) -> Seq<ElementView>,
}

/// The text a document was parsed from.
pub uninterp spec fn document_text(doc: scraper::Html) -> Seq<char>;

/// What an element holds.
pub uninterp spec fn element_view(e: scraper::ElementRef) -> ElementView;

/// The first element of the page parsed from `html` that `css` matches.
pub uninterp spec fn first_match(html: Seq<char>, css: Seq<char>) -> Option<ElementView>;

/// The views of a sequence of elements.
pub open spec fn element_views(elements: Seq<scraper::ElementRef>) -> Seq<ElementView> {
    elements.map_values(|e: scraper::ElementRef| element_view(e))
}

/// `scraper::Html::parse_document`. Parsing never fails: markup that is
/// not well formed is repaired as a browser would repair it.
#[verifier::external_body]
pub(crate) fn parse_document(html: &str) -> (doc: scraper::Html)
    ensures
        document_text(doc) == html@,
{
    scraper::Html::parse_document(html)
}

/// `scraper::Html::select` with the selector parsed by
/// `scraper::Selector::parse`, and the first item of the iterator.
#[verifier::external_body]
pub(crate) fn select_first<'a>(doc: &'a scraper::Html, css: &str) -> (found: Option<
    scraper::ElementRef<'a>,
>)
    ensures
        match found {
            Some(e) => first_match(document_text(*doc), css@) == Some(element_view(e)),
            None => first_match(document_text(*doc), css@) is None,
        },
{
    scraper::Selector::parse(css).ok().and_then(|selector| doc.select(&selector).next())
}

/// `scraper::ElementRef::child_elements`: the child nodes that are elements.
#[verifier::external_body]
pub(crate) fn child_elements<'a>(e: &scraper::ElementRef<'a>) -> (children: Vec<
    scraper::ElementRef<'a>,
>)
    ensures
        element_views(children@) == element_view(*e).elements,
{
    e.child_elements().collect()
}

/// `scraper::node::Element::name` of the element's value.
#[verifier::external_body]
pub(crate) fn tag_name(e: &scraper::ElementRef) -> (name: String)
    ensures
        name@ == element_view(*e).tag,
{
    e.value().name().to_string()
}

/// `scraper::ElementRef::inner_html`.
#[verifier::external_body]
pub(crate) fn inner_html(e: &scraper::ElementRef) -> (markup: String)
    ensures
        markup@ == element_view(*e).markup,
{
    e.inner_html()
}

/// `scraper::node::Node::is_text` of each child node, in order.
#[verifier::external_body]
pub(crate) fn child_text_flags(e: &scraper::ElementRef) -> (flags: Vec<bool>)
    ensures
        flags@ == element_view(*e).child_is_text,
{
    e.children().map(|child| child.value().is_text()).collect()
}

/// `scraper::ElementRef::select` with the selector parsed by
/// `scraper::Selector::parse`.
#[verifier::external_body]
pub(crate) fn select_within<'a>(e: &scraper::ElementRef<'a>, css: &str) -> (found: Vec<
    scraper::ElementRef<'a>,
>)
    ensures
        element_views(found@) == (element_view(*e).matches)(css@),
{
    match scraper::Selector::parse(css) {
        Ok(selector) => e.select(&selector).collect(),
        Err(_) => Vec::new(),
    }
}

} // verus!
