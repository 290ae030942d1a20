//! The conversion of one page, and the decisions around it.
use vstd::prelude::*;
use vstd::utf8::encode_utf8;

use crate::classifier::{classified, classify, content_selector, title_selector};
use crate::content::ConvertError;
use crate::dom::first_match;
use crate::emitter::{document_bytes, emit};
use crate::markdown::{escaped, lemma_escape_round_trip, unescaped};
use crate::names::{is_skipped, output_file_name, output_name, skipped};
use crate::paths::{
    file_name, file_name_text, join_path, joined_path_text, relative_path, relative_path_text,
};
use crate::percent::{encode, lemma_percent_round_trip, percent_decoded, percent_encoded};

verus! {

/// A Markdown file to be written: its name, its path, which lies directly
/// in the output folder, and its content.
#[derive(Debug, PartialEq, Eq)]
pub struct MarkdownFile {
    pub name: String,
    pub path: String,
    pub bytes: Vec<u8>,
}

/// A Markdown file as a mathematical value.
pub struct MarkdownFileView {
    pub name: Seq<char>,
    pub path: Seq<char>,
    pub bytes: Seq<u8>,
}

impl View for MarkdownFile {
    type V = MarkdownFileView;

    open spec fn view(&self) -> MarkdownFileView {
        MarkdownFileView { name: self.name@, path: self.path@, bytes: self.bytes@ }
    }
}

/// Whether the page at a path is converted: not if its file name begins
/// with an underscore. A path without a file name is refused.
pub open spec fn conversion_due(input_file: Seq<char>) -> Result<bool, ConvertError> {
    match file_name_text(input_file) {
        Some(name) => Ok(!skipped(name)),
        None => Err(ConvertError::NoFileName),
    }
}

/// Decides, before the page is read, whether it is converted at all.
pub fn should_convert(input_file: &str) -> (due: Result<bool, ConvertError>)
    ensures
        due == conversion_due(input_file@),
{
    match file_name(input_file) {
        Some(name) => Ok(!is_skipped(name.as_str())),
        None => Err(ConvertError::NoFileName),
    }
}

/// What the conversion of a page gives: nothing for a page that is skipped,
/// else the Markdown file. The file is named after the page and lies
/// directly in the output folder. It holds the front matter, the blocks and
/// a footer that shows the file's name and links to the page, by the
/// percent-encoded relative path from the output folder.
pub open spec fn converted(input_file: Seq<char>, output_folder: Seq<char>, html: Seq<char>)
    -> Result<Option<MarkdownFileView>, ConvertError> {
    match file_name_text(input_file) {
        None => Err(ConvertError::NoFileName),
        Some(name) => if skipped(name) {
            Ok(None)
        } else {
            match classified(
                first_match(html, title_selector()),
                first_match(html, content_selector()),
            ) {
                Err(e) => Err(e),
                Ok(document) => match relative_path_text(input_file, output_folder) {
                    None => Err(ConvertError::NoRelativePath),
                    Some(relative) => Ok(
                        Some(
                            MarkdownFileView {
                                name: output_name(name),
                                path: joined_path_text(output_folder, output_name(name)),
                                bytes: document_bytes(
                                    document,
                                    encode_utf8(output_name(name)),
                                    percent_encoded(encode_utf8(relative)),
                                ),
                            },
                        ),
                    ),
                },
            }
        },
    }
}

/// Whether `outcome` is what the conversion gives.
pub open spec fn is_conversion(
    outcome: Result<Option<MarkdownFile>, ConvertError>,
    input_file: Seq<char>,
    output_folder: Seq<char>,
    html: Seq<char>,
) -> bool {
    match outcome {
        Ok(Some(file)) => converted(input_file, output_folder, html) == Ok::<
            Option<MarkdownFileView>,
            ConvertError,
        >(Some(file@)),
        Ok(None) => converted(input_file, output_folder, html) == Ok::<
            Option<MarkdownFileView>,
            ConvertError,
        >(None),
        Err(e) => converted(input_file, output_folder, html) == Err::<
            Option<MarkdownFileView>,
            ConvertError,
        >(e),
    }
}

/// Converts the page at `input_file`, whose text is `content`, into the
/// Markdown file that belongs in `output_folder`.
pub fn generate_markdown(input_file: &str, output_folder: &str, content: &str) -> (outcome: Result<
    Option<MarkdownFile>,
    ConvertError,
>)
    ensures
        is_conversion(outcome, input_file@, output_folder@, content@),
        conversion_due(input_file@) == Ok::<bool, ConvertError>(false) ==> outcome == Ok::<
            Option<MarkdownFile>,
            ConvertError,
        >(None),
{
    let name = match file_name(input_file) {
        Some(name) => name,
        None => {
            return Err(ConvertError::NoFileName);
        },
    };
    if is_skipped(name.as_str()) {
        return Ok(None);
    }
    let output = output_file_name(name.as_str());
    let document = match classify(content) {
        Ok(document) => document,
        Err(e) => {
            return Err(e);
        },
    };
    let relative = match relative_path(input_file, output_folder) {
        Some(relative) => relative,
        None => {
            return Err(ConvertError::NoRelativePath);
        },
    };
    let target = encode(relative.as_str());
    let bytes = emit(&document, output.as_str(), target.as_str());
    let path = join_path(output_folder, output.as_str());
    Ok(Some(MarkdownFile { name: output, path, bytes }))
}

/// Converting a page again gives the same outcome: it depends on nothing but
/// the two paths and the text of the page.
pub proof fn lemma_conversion_is_repeatable(
    first: Result<Option<MarkdownFile>, ConvertError>,
    second: Result<Option<MarkdownFile>, ConvertError>,
    input_file: Seq<char>,
    output_folder: Seq<char>,
    html: Seq<char>,
)
    requires
        is_conversion(first, input_file, output_folder, html),
        is_conversion(second, input_file, output_folder, html),
    ensures
        match (first, second) {
            (Ok(Some(a)), Ok(Some(b))) => a@ == b@,
            (Ok(None), Ok(None)) => true,
            (Err(a), Err(b)) => a == b,
            _ => false,
        },
{
}

/// The link in the footer leads back to the relative path: the target as
/// the footer holds it, read back from the Markdown, percent-decoded and read
/// as UTF-8, is the relative path from the output folder to the page.
pub proof fn lemma_footer_link_round_trip(relative: Seq<char>)
    ensures
        vstd::utf8::decode_utf8(
            percent_decoded(unescaped(escaped(percent_encoded(encode_utf8(relative)), seq![]))),
        ) == relative,
{
    lemma_escape_round_trip(percent_encoded(encode_utf8(relative)));
    lemma_percent_round_trip(encode_utf8(relative));
    vstd::utf8::encode_utf8_decode_utf8(relative);
}

} // verus!
