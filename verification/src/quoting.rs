//! The quoted form of a title.
//!
//! The quoting itself is done by `quoted_string`, to which `QSSpec` and
//! `QSParse` describe the rule: a double quote and a backslash are escaped,
//! everything else stands for itself.
use vstd::prelude::*;

use crate::ascii::{BACKSLASH, DOUBLE_QUOTE};

verus! {

/// `quoted_string::spec::PartialCodePoint`, a character as far as quoting
/// looks at it.
#[verifier::external_type_specification]
#[verifier::external_body]
pub struct ExPartialCodePoint(quoted_string::spec::PartialCodePoint);

/// `quoted_string::spec::QuotingClass`, with its variants.
#[verifier::external_type_specification]
pub struct ExQuotingClass(quoted_string::spec::QuotingClass);

/// `quoted_string::spec::State`, with its variants.
#[verifier::external_type_specification]
#[verifier::reject_recursive_types(T)]
pub struct ExState<T: Copy + Eq + core::fmt::Debug>(quoted_string::spec::State<T>);

/// `quoted_string::error::CoreError`.
#[verifier::external_type_specification]
#[verifier::external_body]
pub struct ExCoreError(quoted_string::error::CoreError);

/// The byte that a partial code point stands for: the character itself if it
/// is ASCII, 0xFF for every other character.
pub uninterp spec fn code_point_byte(pcp: quoted_string::spec::PartialCodePoint) -> u8;

/// `PartialCodePoint::as_u8` hands out the byte that the code point holds.
pub assume_specification[ quoted_string::spec::PartialCodePoint::as_u8 ](
    pcp: quoted_string::spec::PartialCodePoint,
) -> (byte: u8)
    ensures
        byte == code_point_byte(pcp),
;

/// Whether a character is escaped inside a quoted title.
pub open spec fn needs_escape(c: char) -> bool {
    c == '"' || c == '\\'
}

/// One character of a title as it stands between the quotes.
pub open spec fn escaped_char(c: char) -> Seq<char> {
    if needs_escape(c) {
        seq!['\\', c]
    } else {
        seq![c]
    }
}

/// A title as it stands between the quotes.
pub open spec fn escaped_text(text: Seq<char>) -> Seq<char>
    decreases text.len(),
{
    if text.len() == 0 {
        seq![]
    } else {
        escaped_text(text.drop_last()) + escaped_char(text.last())
    }
}

/// The quoted form of a title.
pub open spec fn quoted(text: Seq<char>) -> Seq<char> {
    seq!['"'] + escaped_text(text) + seq!['"']
}

/// How a byte is classified for quoting.
pub open spec fn class_of(byte: u8) -> quoted_string::spec::QuotingClass {
    if byte == DOUBLE_QUOTE || byte == BACKSLASH {
        quoted_string::spec::QuotingClass::NeedsQuoting
    } else {
        quoted_string::spec::QuotingClass::QText
    }
}

/// The quoting rule of titles.
#[derive(Copy, Clone, Debug)]
pub struct QSSpec;

/// The parsing rule that goes with `QSSpec`: inside the quotes every
/// character is accepted, and every character may follow a backslash.
#[derive(Copy, Clone, Eq, PartialEq, Debug, Hash)]
pub struct QSParse;

impl quoted_string::spec::GeneralQSSpec for QSSpec {
    type Quoting = Self;

    type Parsing = QSParse;
}

impl quoted_string::spec::QuotingClassifier for QSSpec {
    /// A double quote and a backslash need quoting; every other character,
    /// ASCII or not, is plain text. No character is invalid.
    fn classify_for_quoting(pcp: quoted_string::spec::PartialCodePoint) -> (class:
        quoted_string::spec::QuotingClass)
        ensures
            class == class_of(code_point_byte(pcp)),
    {
        let byte = pcp.as_u8();
        if byte == DOUBLE_QUOTE || byte == BACKSLASH {
            quoted_string::spec::QuotingClass::NeedsQuoting
        } else {
            quoted_string::spec::QuotingClass::QText
        }
    }
}

impl quoted_string::spec::ParsingImpl for QSParse {
    /// Every character may stand behind a backslash.
    fn can_be_quoted(_bch: quoted_string::spec::PartialCodePoint) -> (yes: bool)
        ensures
            yes,
    {
        true
    }

    /// Every character that is neither a double quote nor a backslash is
    /// part of the content.
    fn handle_normal_state(_bch: quoted_string::spec::PartialCodePoint) -> (next: Result<
        (quoted_string::spec::State<Self>, bool),
        quoted_string::error::CoreError,
    >)
        ensures
            next matches Ok((state, emit)) && state == quoted_string::spec::State::<
                QSParse,
            >::Normal && emit,
    {
        Ok((quoted_string::spec::State::Normal, true))
    }

    /// There is no state of this rule's own to go on from.
    fn advance(&self, _pcp: quoted_string::spec::PartialCodePoint) -> (next: Result<
        (quoted_string::spec::State<Self>, bool),
        quoted_string::error::CoreError,
    >)
        ensures
            next matches Ok((state, emit)) && state == quoted_string::spec::State::<
                QSParse,
            >::Normal && !emit,
    {
        Ok((quoted_string::spec::State::Normal, false))
    }
}

/// `quoted_string::quote` under `QSSpec`. It puts the text between double
/// quotes and a backslash before each character that `QSSpec` classifies as
/// in need of quoting. It fails only on a character that is classified as
/// invalid, and `QSSpec` classifies none so.
#[verifier::external_body]
fn quote(text: &str) -> (out: Result<String, quoted_string::error::CoreError>)
    ensures
        out is Ok,
        out matches Ok(q) ==> q@ == quoted(text@),
{
    quoted_string::quote::<QSSpec>(text)
}

/// The title as the front matter holds it: quoted, or as it is should the
/// quoting fail.
pub fn quote_title(title: &str) -> (out: String)
    ensures
        out@ == quoted(title@),
{
    match quote(title) {
        Ok(q) => q,
        Err(_) => title.to_owned(),
    }
}

/// Quoting goes through a title piece by piece.
proof fn lemma_escaped_text_concat(a: Seq<char>, b: Seq<char>)
    ensures
        escaped_text(a + b) == escaped_text(a) + escaped_text(b),
    decreases b.len(),
{
    if b.len() > 0 {
        assert((a + b).drop_last() == a + b.drop_last());
        lemma_escaped_text_concat(a, b.drop_last());
    }
}

/// A title without a double quote or a backslash stands between the quotes
/// unchanged.
pub proof fn lemma_plain_title_is_kept(title: Seq<char>)
    requires
        forall|i: int| 0 <= i < title.len() ==> !needs_escape(title[i]),
    ensures
        quoted(title) == seq!['"'] + title + seq!['"'],
{
    lemma_plain_text_is_kept(title);
}

proof fn lemma_plain_text_is_kept(text: Seq<char>)
    requires
        forall|i: int| 0 <= i < text.len() ==> !needs_escape(text[i]),
    ensures
        escaped_text(text) == text,
    decreases text.len(),
{
    if text.len() > 0 {
        lemma_plain_text_is_kept(text.drop_last());
    }
}

/// A double quote or a backslash in a title stands behind a backslash in
/// the quoted title, between the quoted forms of what is before and after
/// it.
pub proof fn lemma_special_is_escaped(before: Seq<char>, c: char, after: Seq<char>)
    requires
        needs_escape(c),
    ensures
        quoted(before + seq![c] + after) == seq!['"'] + escaped_text(before) + seq!['\\', c]
            + escaped_text(after) + seq!['"'],
{
    lemma_escaped_text_concat(before + seq![c], after);
    lemma_escaped_text_concat(before, seq![c]);
    assert(escaped_text(seq![c]) == seq!['\\', c]) by {
        reveal_with_fuel(escaped_text, 2);
    }
}

} // verus!
