use wiki_to_md::content::{
    element_kind, heading_block, list_block, paragraph_block, title_or_unknown, ElementKind,
};
use wiki_to_md::{classify, ContentType, ConvertError, Document};

fn page(body: &str) -> String {
    format!("<html><head></head><body>{}</body></html>", body)
}

fn blocks_of(container: &str) -> Vec<ContentType> {
    let html = page(&format!("<div class=\"mw-parser-output\">{}</div>", container));
    classify(&html).unwrap().blocks
}

#[test]
fn heading_with_span_is_level_one_header() {
    assert_eq!(
        blocks_of("<h2><span>Intro</span></h2>"),
        vec![ContentType::Header("Intro".to_string(), 1)]
    );
}

#[test]
fn subheading_is_level_two_header() {
    assert_eq!(
        blocks_of("<h3><span>Details</span></h3>"),
        vec![ContentType::Header("Details".to_string(), 2)]
    );
}

#[test]
fn heading_takes_first_span() {
    assert_eq!(
        blocks_of("<h2><span>One</span><span>Two</span></h2>"),
        vec![ContentType::Header("One".to_string(), 1)]
    );
}

#[test]
fn heading_text_is_inner_markup() {
    assert_eq!(
        blocks_of("<h2><span>A <i>b</i></span></h2>"),
        vec![ContentType::Header("A <i>b</i>".to_string(), 1)]
    );
}

#[test]
fn heading_without_span_is_refused() {
    let html = page("<div class=\"mw-parser-output\"><p>x</p><h2>Bare</h2></div>");
    assert_eq!(classify(&html), Err(ConvertError::MissingHeadingText));
}

#[test]
fn subheading_without_span_is_refused() {
    let html = page("<div class=\"mw-parser-output\"><h3><b>Bare</b></h3></div>");
    assert_eq!(classify(&html), Err(ConvertError::MissingHeadingText));
}

#[test]
fn heading_takes_span_at_any_depth() {
    assert_eq!(
        blocks_of("<h2><a href=\"#x\"><span>Deep</span></a><span>Later</span></h2>"),
        vec![ContentType::Header("Deep".to_string(), 1)]
    );
    assert_eq!(
        blocks_of("<h3><b><i><span>Deeper</span></i></b></h3>"),
        vec![ContentType::Header("Deeper".to_string(), 2)]
    );
}

#[test]
fn heading_takes_outer_span_before_inner_span() {
    assert_eq!(
        blocks_of("<h2><span>a<span>b</span></span></h2>"),
        vec![ContentType::Header("a<span>b</span>".to_string(), 1)]
    );
}

#[test]
fn plain_paragraph_is_plain_text() {
    assert_eq!(
        blocks_of("<p>Hello world</p>"),
        vec![ContentType::Paragraph("Hello world".to_string(), true)]
    );
}

#[test]
fn paragraph_with_markup_is_not_plain_text() {
    assert_eq!(
        blocks_of("<p>Hello <b>world</b></p>"),
        vec![ContentType::Paragraph("Hello <b>world</b>".to_string(), false)]
    );
}

#[test]
fn empty_paragraph_is_plain_text() {
    assert_eq!(blocks_of("<p></p>"), vec![ContentType::Paragraph(String::new(), true)]);
}

#[test]
fn paragraph_with_comment_is_not_plain_text() {
    assert_eq!(
        blocks_of("<p>a<!-- c -->b</p>"),
        vec![ContentType::Paragraph("a<!-- c -->b".to_string(), false)]
    );
}

#[test]
fn section_gives_list_items_in_order() {
    assert_eq!(
        blocks_of("<section><ul><li>A</li><li>B</li></ul></section>"),
        vec![ContentType::List(vec!["A".to_string(), "B".to_string()])]
    );
}

#[test]
fn section_collects_items_of_all_its_lists() {
    assert_eq!(
        blocks_of("<section><ul><li>A</li></ul><p>x</p><div><ul><li>B <b>c</b></li></ul></div><ol><li>no</li></ol></section>"),
        vec![ContentType::List(vec!["A".to_string(), "B <b>c</b>".to_string()])]
    );
}

#[test]
fn section_without_list_gives_empty_list() {
    assert_eq!(blocks_of("<section><p>x</p></section>"), vec![ContentType::List(vec![])]);
}

#[test]
fn other_elements_are_passed_over() {
    assert_eq!(
        blocks_of("<div><p>inside</p></div><table></table><h4><span>x</span></h4><ul><li>x</li></ul>text"),
        vec![]
    );
}

#[test]
fn nested_blocks_are_invisible() {
    assert_eq!(
        blocks_of("<div><h2><span>Deep</span></h2><section><ul><li>x</li></ul></section></div><p>top</p>"),
        vec![ContentType::Paragraph("top".to_string(), true)]
    );
}

#[test]
fn blocks_keep_document_order() {
    assert_eq!(
        blocks_of("<p>one</p><h2><span>two</span></h2><section><ul><li>three</li></ul></section><p>four</p><h3><span>five</span></h3>"),
        vec![
            ContentType::Paragraph("one".to_string(), true),
            ContentType::Header("two".to_string(), 1),
            ContentType::List(vec!["three".to_string()]),
            ContentType::Paragraph("four".to_string(), true),
            ContentType::Header("five".to_string(), 2),
        ]
    );
}

#[test]
fn title_comes_from_first_heading() {
    let html = page("<h1 id=\"firstHeading\">My <i>Page</i></h1>");
    assert_eq!(
        classify(&html),
        Ok(Document { title: "My <i>Page</i>".to_string(), blocks: vec![] })
    );
}

#[test]
fn title_comes_from_section_zero() {
    let html = page("<h1 id=\"section_0\">Mobile</h1>");
    assert_eq!(classify(&html).unwrap().title, "Mobile");
}

#[test]
fn title_is_first_match_in_the_page() {
    let html = page("<h1 id=\"section_0\">Second</h1><h1 id=\"firstHeading\">First</h1>");
    assert_eq!(classify(&html).unwrap().title, "Second");
}

#[test]
fn title_defaults_to_unknown() {
    let html = page("<h1>No id</h1><div class=\"mw-parser-output\"><p>x</p></div>");
    assert_eq!(
        classify(&html),
        Ok(Document {
            title: "UNKNOWN".to_string(),
            blocks: vec![ContentType::Paragraph("x".to_string(), true)],
        })
    );
}

#[test]
fn page_without_container_has_no_blocks() {
    let html = page("<h1 id=\"firstHeading\">T</h1><div><h2>Bare</h2><p>x</p></div>");
    assert_eq!(classify(&html), Ok(Document { title: "T".to_string(), blocks: vec![] }));
}

#[test]
fn first_container_is_used() {
    let html = page("<div class=\"mw-parser-output\"><p>a</p></div><div class=\"mw-parser-output\"><p>b</p></div>");
    assert_eq!(classify(&html).unwrap().blocks, vec![ContentType::Paragraph("a".to_string(), true)]);
}

#[test]
fn container_may_carry_other_classes() {
    let html = page("<div class=\"content mw-parser-output ltr\"><p>a</p></div>");
    assert_eq!(classify(&html).unwrap().blocks, vec![ContentType::Paragraph("a".to_string(), true)]);
}

#[test]
fn malformed_markup_is_tolerated() {
    let html = "<div class=mw-parser-output><p>open<h2><span>H</span>";
    assert_eq!(
        classify(html).unwrap().blocks,
        vec![
            ContentType::Paragraph("open".to_string(), true),
            ContentType::Header("H".to_string(), 1),
        ]
    );
}

#[test]
fn empty_text_gives_unknown_title_and_no_blocks() {
    assert_eq!(classify(""), Ok(Document { title: "UNKNOWN".to_string(), blocks: vec![] }));
}

#[test]
fn tag_names_are_matched_exactly() {
    assert_eq!(element_kind("h2"), ElementKind::Heading(1));
    assert_eq!(element_kind("h3"), ElementKind::Heading(2));
    assert_eq!(element_kind("p"), ElementKind::Paragraph);
    assert_eq!(element_kind("section"), ElementKind::Section);
    assert_eq!(element_kind("h1"), ElementKind::Other);
    assert_eq!(element_kind("H2"), ElementKind::Other);
    assert_eq!(element_kind("h22"), ElementKind::Other);
    assert_eq!(element_kind(""), ElementKind::Other);
    assert_eq!(element_kind("ul"), ElementKind::Other);
}

#[test]
fn upper_case_tags_are_normalised_by_the_parser() {
    assert_eq!(
        blocks_of("<P>x</P><H2><SPAN>y</SPAN></H2>"),
        vec![
            ContentType::Paragraph("x".to_string(), true),
            ContentType::Header("y".to_string(), 1),
        ]
    );
}

#[test]
fn title_or_unknown_on_both_cases() {
    assert_eq!(title_or_unknown(Some("T".to_string())), "T");
    assert_eq!(title_or_unknown(Some(String::new())), "");
    assert_eq!(title_or_unknown(None), "UNKNOWN");
}

#[test]
fn heading_block_on_plain_values() {
    assert_eq!(
        heading_block(Some("a".to_string()), 2),
        Ok(ContentType::Header("a".to_string(), 2))
    );
    assert_eq!(heading_block(Some(String::new()), 1), Ok(ContentType::Header(String::new(), 1)));
    assert_eq!(heading_block(None, 1), Err(ConvertError::MissingHeadingText));
}

#[test]
fn paragraph_block_on_plain_values() {
    assert_eq!(
        paragraph_block("t".to_string(), &vec![true, true]),
        ContentType::Paragraph("t".to_string(), true)
    );
    assert_eq!(
        paragraph_block("t".to_string(), &vec![true, false, true]),
        ContentType::Paragraph("t".to_string(), false)
    );
    assert_eq!(paragraph_block(String::new(), &vec![]), ContentType::Paragraph(String::new(), true));
}

#[test]
fn list_block_keeps_items() {
    assert_eq!(
        list_block(vec!["x".to_string(), "y".to_string()]),
        ContentType::List(vec!["x".to_string(), "y".to_string()])
    );
}
