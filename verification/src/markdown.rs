//! The Markdown writer of `markdown_gen`, and the bytes it produces.
//!
//! The writer is kept as it is and filled through the functions below. Each
//! of them makes one kind of write and states, byte for byte, what the write
//! appends; Verus believes these statements without proof.
use markdown_gen::markdown::AsMarkdown;
use vstd::prelude::*;
use vstd::utf8::encode_utf8;

use crate::ascii::{
    BACKSLASH, BACKTICK, BANG, CLOSE_BRACE, CLOSE_BRACKET, CLOSE_PAREN, DIGIT_ONE, DOT, HASH,
    LINE_FEED, MINUS, OPEN_BRACE, OPEN_BRACKET, OPEN_PAREN, PLUS, SPACE, STAR, UNDERSCORE,
};

verus! {

/// A `markdown_gen` writer over a byte vector. The writer's own type has a
/// parameter bound by `std::io::Write`, of which Verus knows nothing, so the
/// writer is kept inside this struct, and Verus does not look inside.
#[verifier::external_body]
pub struct Writer {
    inner: markdown_gen::markdown::Markdown<Vec<u8>>,
}

/// `markdown_gen::markdown::List`, a list in the making.
#[verifier::external_type_specification]
#[verifier::external_body]
pub struct ExList<'a>(markdown_gen::markdown::List<'a>);

/// The bytes that have a meaning in Markdown: the writer puts a backslash
/// before each of ``\ ` * _ { } [ ] ( ) # + - . !``.
pub open spec fn is_special(b: u8) -> bool {
    b == BACKSLASH || b == BACKTICK || b == STAR || b == UNDERSCORE || b == OPEN_BRACE
        || b == CLOSE_BRACE || b == OPEN_BRACKET || b == CLOSE_BRACKET || b == OPEN_PAREN
        || b == CLOSE_PAREN || b == HASH || b == PLUS || b == MINUS || b == DOT || b == BANG
}

/// One byte of text as the writer emits it: escaped if it is special, and
/// followed by `indent` if it ends a line.
pub open spec fn escaped_byte(b: u8, indent: Seq<u8>) -> Seq<u8> {
    if is_special(b) {
        seq![BACKSLASH, b]
    } else if b == LINE_FEED {
        seq![b] + indent
    } else {
        seq![b]
    }
}

/// Text as the writer emits it, every line after the first behind `indent`.
pub open spec fn escaped(text: Seq<u8>, indent: Seq<u8>) -> Seq<u8>
    decreases text.len(),
{
    if text.len() == 0 {
        seq![]
    } else {
        escaped(text.drop_last(), indent) + escaped_byte(text.last(), indent)
    }
}

/// A heading: `level` hash signs, a space, the text, a line break.
pub open spec fn heading_bytes(text: Seq<u8>, level: nat) -> Seq<u8> {
    Seq::new(level, |i: int| HASH) + seq![SPACE] + escaped(text, seq![]) + seq![LINE_FEED]
}

/// A paragraph: the text and an empty line.
pub open spec fn paragraph_bytes(text: Seq<u8>) -> Seq<u8> {
    escaped(text, seq![]) + seq![LINE_FEED, LINE_FEED]
}

/// What stands before the text of a list item.
pub open spec fn item_marker(numbered: bool) -> Seq<u8> {
    if numbered {
        seq![DIGIT_ONE, DOT, SPACE]
    } else {
        seq![STAR, SPACE]
    }
}

/// The indentation of a top-level list.
pub open spec fn list_indent() -> Seq<u8> {
    seq![SPACE, SPACE, SPACE]
}

/// One list item: a line break, the indentation, the marker, the text.
pub open spec fn item_bytes(item: Seq<u8>, numbered: bool) -> Seq<u8> {
    seq![LINE_FEED] + list_indent() + item_marker(numbered) + escaped(item, list_indent())
}

/// The items of a list, one after the other.
pub open spec fn list_bytes(items: Seq<Seq<u8>>, numbered: bool) -> Seq<u8>
    decreases items.len(),
{
    if items.len() == 0 {
        seq![]
    } else {
        list_bytes(items.drop_last(), numbered) + item_bytes(items.last(), numbered)
    }
}

/// A list as a paragraph of its own: its items, the end of the last item's
/// line, and an empty line.
pub open spec fn list_paragraph_bytes(items: Seq<Seq<u8>>, numbered: bool) -> Seq<u8> {
    list_bytes(items, numbered) + seq![LINE_FEED, LINE_FEED]
}

/// A paragraph that reads `lead` and then `label` in bold, linked to
/// `address`.
pub open spec fn link_paragraph_bytes(lead: Seq<u8>, label: Seq<u8>, address: Seq<u8>) -> Seq<
    u8,
> {
    escaped(lead, seq![]) + seq![OPEN_BRACKET, STAR, STAR] + escaped(label, seq![]) + seq![
        STAR,
        STAR,
        CLOSE_BRACKET,
        OPEN_PAREN,
    ] + escaped(address, seq![]) + seq![CLOSE_PAREN, LINE_FEED, LINE_FEED]
}

/// Text that the writer emitted without indentation, read back: a backslash
/// gives way to the byte behind it.
pub open spec fn unescaped(text: Seq<u8>) -> Seq<u8>
    decreases text.len(),
{
    if text.len() == 0 {
        seq![]
    } else if text[0] == BACKSLASH && text.len() >= 2 {
        seq![text[1]] + unescaped(text.skip(2))
    } else {
        seq![text[0]] + unescaped(text.skip(1))
    }
}

/// Text is escaped piece by piece.
proof fn lemma_escaped_concat(a: Seq<u8>, b: Seq<u8>, indent: Seq<u8>)
    ensures
        escaped(a + b, indent) == escaped(a, indent) + escaped(b, indent),
    decreases b.len(),
{
    if b.len() > 0 {
        assert((a + b).drop_last() == a + b.drop_last());
        lemma_escaped_concat(a, b.drop_last(), indent);
    }
}

/// Reading back undoes the escaping.
pub proof fn lemma_escape_round_trip(text: Seq<u8>)
    ensures
        unescaped(escaped(text, seq![])) == text,
    decreases text.len(),
{
    if text.len() > 0 {
        let first = seq![text.first()];
        let rest = text.drop_first();
        assert(first + rest == text);
        lemma_escaped_concat(first, rest, seq![]);
        assert(escaped(first, seq![]) == escaped_byte(text.first(), seq![])) by {
            reveal_with_fuel(escaped, 2);
        }
        let out = escaped(text, seq![]);
        lemma_escape_round_trip(rest);
        if is_special(text.first()) {
            assert(out.skip(2) == escaped(rest, seq![]));
        } else {
            assert(out.skip(1) == escaped(rest, seq![]));
        }
    }
}

/// The bytes written so far.
pub uninterp spec fn written(md: Writer) -> Seq<u8>;

/// The items of a list, each as its bytes.
pub uninterp spec fn list_items(list: markdown_gen::markdown::List) -> Seq<Seq<u8>>;

/// Whether a list numbers its items.
pub uninterp spec fn list_numbered(list: markdown_gen::markdown::List) -> bool;

/// `Markdown::new` on a byte vector, which becomes the start of the output.
#[verifier::external_body]
pub(crate) fn writer_from(start: Vec<u8>) -> (md: Writer)
    ensures
        written(md) == start@,
{
    Writer { inner: markdown_gen::markdown::Markdown::new(start) }
}

/// `Markdown::into_inner`.
#[verifier::external_body]
pub(crate) fn into_bytes(md: Writer) -> (bytes: Vec<u8>)
    ensures
        bytes@ == written(md),
{
    md.inner.into_inner()
}

/// `Markdown::write` of `AsMarkdown::heading`. The crate panics on a level
/// outside 1 to 6. Writing into a vector cannot fail.
#[verifier::external_body]
pub(crate) fn write_heading(
    md: &mut Writer,
    text: &str,
    level: usize,
)
    requires
        1 <= level <= 6,
    ensures
        written(*final(md)) == written(*old(md)) + heading_bytes(encode_utf8(text@), level as nat),
{
    md.inner.write(text.heading(level)).unwrap()
}

/// `Markdown::write` of `AsMarkdown::paragraph`.
#[verifier::external_body]
pub(crate) fn write_paragraph(md: &mut Writer, text: &str)
    ensures
        written(*final(md)) == written(*old(md)) + paragraph_bytes(encode_utf8(text@)),
{
    md.inner.write(text.paragraph()).unwrap()
}

/// `List::new`.
#[verifier::external_body]
pub(crate) fn new_list<'a>(numbered: bool) -> (list: markdown_gen::markdown::List<'a>)
    ensures
        list_items(list) == Seq::<Seq<u8>>::empty(),
        list_numbered(list) == numbered,
{
    markdown_gen::markdown::List::new(numbered)
}

/// `List::item`.
#[verifier::external_body]
pub(crate) fn add_item<'a>(list: markdown_gen::markdown::List<'a>, item: &'a str) -> (longer:
    markdown_gen::markdown::List<'a>)
    ensures
        list_items(longer) == list_items(list).push(encode_utf8(item@)),
        list_numbered(longer) == list_numbered(list),
{
    list.item(item)
}

/// `Markdown::write` of `AsMarkdown::paragraph` of a list.
#[verifier::external_body]
pub(crate) fn write_list(md: &mut Writer, list: markdown_gen::markdown::List)
    ensures
        written(*final(md)) == written(*old(md)) + list_paragraph_bytes(
            list_items(list),
            list_numbered(list),
        ),
{
    md.inner.write(list.paragraph()).unwrap()
}

/// `Markdown::write` of a paragraph made by `AsMarkdown::paragraph` of
/// `lead` and `Paragraph::append` of `label`, made bold by `AsMarkdown::bold`
/// and a link by `AsMarkdown::link_to`.
#[verifier::external_body]
pub(crate) fn write_link_paragraph(
    md: &mut Writer,
    lead: &str,
    label: &str,
    address: &str,
)
    ensures
        written(*final(md)) == written(*old(md)) + link_paragraph_bytes(
            encode_utf8(lead@),
            encode_utf8(label@),
            encode_utf8(address@),
        ),
{
    md.inner.write(lead.paragraph().append(label.bold().link_to(address))).unwrap()
}

} // verus!
