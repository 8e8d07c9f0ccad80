//! The snippet record: the one entity of the source list.

use vstd::prelude::*;

verus! {

/// One entry of the source list: the text its button shows and the text a
/// click on that button copies.
#[derive(Debug, PartialEq, Eq)]
pub struct Snippet {
    pub label: String,
    pub payload: String,
}

/// A snippet as contracts see it: both texts as sequences of characters.
pub struct SnippetView {
    pub label: Seq<char>,
    pub payload: Seq<char>,
}

impl View for Snippet {
    type V = SnippetView;

    open spec fn view(&self) -> SnippetView {
        SnippetView { label: self.label@, payload: self.payload@ }
    }
}

impl DeepView for Snippet {
    type V = SnippetView;

    open spec fn deep_view(&self) -> SnippetView {
        self@
    }
}

/// The snippet that an `"item"` text stands for: the text is both what the
/// button shows and what a click copies.
pub open spec fn snippet_of(item: Seq<char>) -> SnippetView {
    SnippetView { label: item, payload: item }
}

impl Snippet {
    /// The snippet of one `"item"` text.
    pub fn from_item(item: &str) -> (snippet: Snippet)
        ensures
            snippet@ == snippet_of(item@),
    {
        Snippet { label: item.to_owned(), payload: item.to_owned() }
    }

    /// The text shown on the snippet's button.
    pub fn label(&self) -> (label: &str)
        ensures
            label@ == self@.label,
    {
        self.label.as_str()
    }

    /// The text that a click on the snippet's button copies.
    pub fn payload(&self) -> (payload: &str)
        ensures
            payload@ == self@.payload,
    {
        self.payload.as_str()
    }
}

impl Clone for Snippet {
    fn clone(&self) -> (copy: Snippet)
        ensures
            copy@ == self@,
    {
        Snippet { label: self.label.clone(), payload: self.payload.clone() }
    }
}

} // verus!
