//! The rules on file names: which pages are skipped, which files are pages,
//! and what the Markdown file of a page is called.
use vstd::prelude::*;
use vstd::string::StrSliceExecFns;
use vstd::string::StringExecFns;

use crate::text::same_text;

verus! {

/// A page whose file name begins with an underscore is not converted.
pub open spec fn skipped(name: Seq<char>) -> bool {
    name.len() > 0 && name[0] == '_'
}

/// Whether the page with this file name is left out of the conversion.
pub fn is_skipped(name: &str) -> (skip: bool)
    ensures
        skip == skipped(name@),
{
    !name.is_empty() && name.get_char(0) == '_'
}

/// The position of the last dot of a file name.
pub open spec fn last_dot(name: Seq<char>) -> Option<int>
    decreases name.len(),
{
    if name.len() == 0 {
        None
    } else if name.last() == '.' {
        Some(name.len() - 1)
    } else {
        last_dot(name.drop_last())
    }
}

/// A file name without its extension: what stands before the last dot. A
/// name without a dot, or with none but a leading one, is its own stem.
pub open spec fn stem_of(name: Seq<char>) -> Seq<char> {
    match last_dot(name) {
        Some(i) => if i > 0 {
            name.take(i)
        } else {
            name
        },
        None => name,
    }
}

/// The extension of a file name: what follows the last dot. A name without a
/// dot, or with none but a leading one, has no extension.
pub open spec fn extension_of(name: Seq<char>) -> Option<Seq<char>> {
    match last_dot(name) {
        Some(i) => if i > 0 {
            Some(name.skip(i + 1))
        } else {
            None
        },
        None => None,
    }
}

/// The name of the Markdown file of a page: the page's file name with `md`
/// for its extension.
pub open spec fn output_name(name: Seq<char>) -> Seq<char> {
    stem_of(name) + ".md"@
}

proof fn lemma_last_dot_in_range(name: Seq<char>)
    ensures
        match last_dot(name) {
            Some(i) => 0 <= i < name.len() && name[i] == '.',
            None => true,
        },
    decreases name.len(),
{
    if name.len() > 0 && name.last() != '.' {
        lemma_last_dot_in_range(name.drop_last());
    }
}

/// The position of the last dot of `name`, and the number of its characters.
fn find_last_dot(name: &str) -> (found: (Option<usize>, usize))
    ensures
        found.1 == name@.len(),
        match found.0 {
            Some(i) => last_dot(name@) == Some(i as int),
            None => last_dot(name@) is None,
        },
{
    let len = name.unicode_len();
    let mut last: Option<usize> = None;
    let mut i: usize = 0;
    for c in it: name.chars()
        invariant
            i == it.index(),
            it.seq() == name@,
            len == name@.len(),
            match last {
                Some(k) => last_dot(name@.take(i as int)) == Some(k as int),
                None => last_dot(name@.take(i as int)) is None,
            },
    {
        assert(name@.take(i + 1).drop_last() =~= name@.take(i as int));
        if c == '.' {
            last = Some(i);
        }
        i = i + 1;
    }
    assert(name@.take(len as int) =~= name@);
    (last, len)
}

/// The name of the Markdown file for the page with this file name.
pub fn output_file_name(name: &str) -> (out: String)
    ensures
        out@ == output_name(name@),
{
    let (last, _) = find_last_dot(name);
    proof {
        lemma_last_dot_in_range(name@);
    }
    let stem = match last {
        Some(i) => if i > 0 {
            name.substring_char(0, i)
        } else {
            name
        },
        None => name,
    };
    let mut out = String::from_str(stem);
    out.append(".md");
    out
}

/// Whether a file name has the extension `html`, in exactly this spelling.
pub fn has_html_extension(name: &str) -> (html: bool)
    ensures
        html == (extension_of(name@) == Some("html"@)),
{
    let (last, len) = find_last_dot(name);
    proof {
        lemma_last_dot_in_range(name@);
    }
    match last {
        Some(i) => if i > 0 {
            let extension = name.substring_char(i + 1, len);
            same_text(extension, "html")
        } else {
            false
        },
        None => false,
    }
}

} // verus!
