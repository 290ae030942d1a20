//! The search for the pages below a path.
//!
//! Looking into the file system is left to the caller. A `Walk` keeps the
//! books: which directories are still to be listed, and which files have been
//! found to be pages.
use vstd::prelude::*;

use crate::names::{extension_of, has_html_extension};
use crate::paths::{file_name, file_name_text};

verus! {

/// Whether a path leads to a page: its file name has the extension `html`.
pub open spec fn page_file(path: Seq<char>) -> bool {
    match file_name_text(path) {
        Some(name) => extension_of(name) == Some("html"@),
        None => false,
    }
}

/// Whether the file at `path` is one of the pages of a folder.
pub fn is_page_file(path: &str) -> (page: bool)
    ensures
        page == page_file(path@),
{
    match file_name(path) {
        Some(name) => has_html_extension(name.as_str()),
        None => false,
    }
}

/// The state of a search: the directories still to be listed and the input
/// files found so far.
pub struct Walk {
    pending: Vec<String>,
    found: Vec<String>,
}

/// A search as a mathematical value.
pub struct WalkView {
    pub pending: Seq<Seq<char>>,
    pub found: Seq<Seq<char>>,
}

impl View for Walk {
    type V = WalkView;

    closed spec fn view(&self) -> WalkView {
        WalkView { pending: self.pending.deep_view(), found: self.found.deep_view() }
    }
}

impl Walk {
    /// Begins a search at `root`. A directory is to be listed; anything else
    /// is an input file whatever its name.
    pub fn start(root: String, is_directory: bool) -> (walk: Walk)
        ensures
            is_directory ==> walk@.pending == seq![root@] && walk@.found == Seq::<
                Seq<char>,
            >::empty(),
            !is_directory ==> walk@.found == seq![root@] && walk@.pending == Seq::<
                Seq<char>,
            >::empty(),
    {
        let mut pending: Vec<String> = Vec::new();
        let mut found: Vec<String> = Vec::new();
        if is_directory {
            pending.push(root);
        } else {
            found.push(root);
        }
        Walk { pending, found }
    }

    /// Takes the directory that is to be listed next: the one noted last.
    /// Without one the search is over.
    pub fn next_directory(&mut self) -> (next: Option<String>)
        ensures
            final(self)@.found == old(self)@.found,
            match next {
                Some(directory) => old(self)@.pending.len() > 0 && directory@ == old(
                    self,
                )@.pending.last() && final(self)@.pending == old(self)@.pending.drop_last(),
                None => old(self)@.pending.len() == 0 && final(self)@.pending == old(
                    self,
                )@.pending,
            },
    {
        self.pending.pop()
    }

    /// Records one entry of a listed directory: a directory is noted for
    /// listing, a file is kept if it is a page, anything else is passed over.
    pub fn visit(&mut self, path: String, is_directory: bool)
        ensures
            final(self)@.pending == if is_directory {
                old(self)@.pending.push(path@)
            } else {
                old(self)@.pending
            },
            final(self)@.found == if !is_directory && page_file(path@) {
                old(self)@.found.push(path@)
            } else {
                old(self)@.found
            },
    {
        if is_directory {
            self.pending.push(path);
        } else if is_page_file(path.as_str()) {
            self.found.push(path);
        }
    }

    /// The input files found.
    pub fn finish(self) -> (found: Vec<String>)
        ensures
            found.deep_view() == self@.found,
    {
        self.found
    }
}

} // verus!
