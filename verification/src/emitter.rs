//! From a document to the bytes of its Markdown file.
use vstd::prelude::*;
use vstd::string::StrSliceExecFns;
use vstd::utf8::encode_utf8;

use crate::classifier::{Document, DocumentView};
use crate::content::{ContentType, ContentView};
use crate::markdown::{
    add_item, heading_bytes, into_bytes, link_paragraph_bytes, list_items, list_numbered,
    list_paragraph_bytes, new_list, paragraph_bytes, write_heading, write_link_paragraph,
    write_list, write_paragraph, writer_from, written, Writer,
};
use crate::quoting::{quote_title, quoted};

verus! {

/// The front matter: the quoted title between two lines of plus signs.
pub open spec fn front_matter_bytes(title: Seq<char>) -> Seq<u8> {
    encode_utf8("+++\ntitle= "@) + encode_utf8(quoted(title)) + encode_utf8("\n+++\n"@)
}

/// The items of a list, each as its bytes.
pub open spec fn items_bytes(items: Seq<Seq<char>>) -> Seq<Seq<u8>> {
    items.map_values(|item: Seq<char>| encode_utf8(item))
}

/// One block as Markdown: a heading, a paragraph or a bulleted list. A
/// paragraph that is not plain text gives nothing.
pub open spec fn block_bytes(block: ContentView) -> Seq<u8> {
    match block {
        ContentView::Header(text, level) => heading_bytes(encode_utf8(text), level),
        ContentView::Paragraph(text, plain) => if plain {
            paragraph_bytes(encode_utf8(text))
        } else {
            seq![]
        },
        ContentView::List(items) => list_paragraph_bytes(items_bytes(items), false),
    }
}

/// The blocks as Markdown, one after the other.
pub open spec fn blocks_bytes(blocks: Seq<ContentView>) -> Seq<u8>
    decreases blocks.len(),
{
    if blocks.len() == 0 {
        seq![]
    } else {
        blocks_bytes(blocks.drop_last()) + block_bytes(blocks.last())
    }
}

/// The footer: a paragraph that reads `generated from` and then the label in
/// bold, linked to the target.
pub open spec fn footer_bytes(label: Seq<u8>, target: Seq<u8>) -> Seq<u8> {
    link_paragraph_bytes(encode_utf8("generated from "@), label, target)
}

/// The Markdown file of a document: front matter, blocks, footer.
pub open spec fn document_bytes(document: DocumentView, label: Seq<u8>, target: Seq<u8>) -> Seq<
    u8,
> {
    front_matter_bytes(document.title) + blocks_bytes(document.blocks) + footer_bytes(
        label,
        target,
    )
}

/// The front matter of a page with this title.
pub fn front_matter(title: &str) -> (out: Vec<u8>)
    ensures
        out@ == front_matter_bytes(title@),
{
    let title = quote_title(title);
    let mut out = "+++\ntitle= ".as_bytes_vec();
    let mut middle = title.as_str().as_bytes_vec();
    let mut end = "\n+++\n".as_bytes_vec();
    out.append(&mut middle);
    out.append(&mut end);
    out
}

/// Writes a bulleted list of the items.
fn write_items(md: &mut Writer, items: &Vec<String>)
    ensures
        written(*final(md)) == written(*old(md)) + list_paragraph_bytes(
            items_bytes(items.deep_view()),
            false,
        ),
{
    let mut list = new_list(false);
    let mut i: usize = 0;
    while i < items.len()
        invariant
            i <= items.len(),
            list_items(list) == items_bytes(items.deep_view()).take(i as int),
            !list_numbered(list),
        decreases items.len() - i,
    {
        list = add_item(list, items[i].as_str());
        i = i + 1;
    }
    assert(items_bytes(items.deep_view()).take(i as int) =~= items_bytes(items.deep_view()));
    write_list(md, list);
}

/// Writes one block.
fn write_block(md: &mut Writer, block: &ContentType)
    requires
        block@.well_formed(),
    ensures
        written(*final(md)) == written(*old(md)) + block_bytes(block@),
{
    match block {
        ContentType::Header(text, level) => write_heading(md, text.as_str(), *level),
        ContentType::Paragraph(text, plain) => {
            if *plain {
                write_paragraph(md, text.as_str());
            }
        },
        ContentType::List(items) => write_items(md, items),
    }
}

/// The Markdown file of a document whose footer shows `label`, linked to
/// `target`.
pub fn emit(document: &Document, label: &str, target: &str) -> (out: Vec<u8>)
    requires
        document@.well_formed(),
    ensures
        out@ == document_bytes(document@, encode_utf8(label@), encode_utf8(target@)),
{
    let mut md = writer_from(front_matter(document.title.as_str()));
    let ghost blocks = document.blocks.deep_view();
    let mut i: usize = 0;
    while i < document.blocks.len()
        invariant
            i <= document.blocks.len(),
            blocks == document.blocks.deep_view(),
            document@.well_formed(),
            written(md) == front_matter_bytes(document.title@) + blocks_bytes(
                blocks.take(i as int),
            ),
        decreases document.blocks.len() - i,
    {
        assert(blocks.take(i + 1).drop_last() =~= blocks.take(i as int));
        assert(document@.blocks[i as int].well_formed());
        write_block(&mut md, &document.blocks[i]);
        i = i + 1;
    }
    assert(blocks.take(i as int) =~= blocks);
    write_link_paragraph(&mut md, "generated from ", label, target);
    into_bytes(md)
}

} // verus!
