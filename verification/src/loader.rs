//! The loader: from what reading the source file gave to the list of snippets.
//!
//! A source that could not be opened, read or parsed gives an empty list and
//! names the failure; nothing here fails harder than that.

use crate::json::{json_array, json_member, json_text, member, parse_array, text};
use crate::snippet::{snippet_of, Snippet, SnippetView};
use vstd::prelude::*;

verus! {

/// What reading the source file gave.
#[derive(Clone, Debug, PartialEq, Eq)]
pub enum SourceRead {
    /// The file could not be opened.
    OpenFailed,
    /// The file was opened, but its contents could not be read as text.
    ReadFailed,
    /// The whole contents of the file.
    Contents(String),
}

/// [`SourceRead`] as contracts see it.
pub enum SourceView {
    OpenFailed,
    ReadFailed,
    Contents(Seq<char>),
}

impl View for SourceRead {
    type V = SourceView;

    open spec fn view(&self) -> SourceView {
        match self {
            SourceRead::OpenFailed => SourceView::OpenFailed,
            SourceRead::ReadFailed => SourceView::ReadFailed,
            SourceRead::Contents(text) => SourceView::Contents(text@),
        }
    }
}

/// Why a load gave no snippets.
#[derive(Clone, Copy, Debug, PartialEq, Eq, Structural)]
pub enum LoadFailure {
    /// The source file could not be opened.
    Open,
    /// The source file could not be read.
    Read,
    /// The contents are not a JSON array.
    Parse,
}

/// The outcome of a load: the snippets, and the failure if there was one.
#[derive(Clone, Debug, PartialEq, Eq)]
pub struct Loaded {
    pub records: Vec<Snippet>,
    pub failure: Option<LoadFailure>,
}

/// The path of the source file, relative to the working directory.
pub const SOURCE_PATH: &'static str = "clipboard.json";

/// The key under which an element of the source array carries its snippet.
pub const ITEM_KEY: &'static str = "item";

/// The text of an element's `"item"` member, where the element has such a
/// member and the member is a JSON string.
pub open spec fn item_of(value: serde_json::Value) -> Option<Seq<char>> {
    match json_member(value, ITEM_KEY@) {
        Some(inner) => json_text(inner),
        None => None,
    }
}

/// The texts that are there, in their order; the absent ones are passed over.
pub open spec fn present(fields: Seq<Option<Seq<char>>>) -> Seq<Seq<char>>
    decreases fields.len(),
{
    if fields.len() == 0 {
        Seq::empty()
    } else {
        let before = present(fields.drop_last());
        match fields.last() {
            Some(text) => before.push(text),
            None => before,
        }
    }
}

/// For each element of a parsed array, its `"item"` text if it has one.
pub open spec fn item_fields(values: Seq<serde_json::Value>) -> Seq<Option<Seq<char>>> {
    Seq::new(values.len(), |i: int| item_of(values[i]))
}

/// One snippet for each item text, in the same order.
pub open spec fn snippets_of(items: Seq<Seq<char>>) -> Seq<SnippetView> {
    Seq::new(items.len(), |i: int| snippet_of(items[i]))
}

/// The snippets that a source gives: those of the elements of its array that
/// carry a string `"item"`, in the order of the array; none where the source
/// could not be opened, read or parsed.
pub open spec fn loaded_records(source: SourceView) -> Seq<SnippetView> {
    match source {
        SourceView::Contents(text) => match json_array(text) {
            Some(values) => snippets_of(present(item_fields(values))),
            None => Seq::empty(),
        },
        _ => Seq::empty(),
    }
}

/// The failure that a source gives, if any.
pub open spec fn load_failure(source: SourceView) -> Option<LoadFailure> {
    match source {
        SourceView::OpenFailed => Some(LoadFailure::Open),
        SourceView::ReadFailed => Some(LoadFailure::Read),
        SourceView::Contents(text) => if json_array(text) is None {
            Some(LoadFailure::Parse)
        } else {
            None
        },
    }
}

/// Reads the `"item"` text of one element of the source array. An element
/// without such a member, or with one that is no string, has none.
pub fn item_text(value: &serde_json::Value) -> (item: Option<String>)
    ensures
        item.deep_view() == item_of(*value),
{
    match member(value, ITEM_KEY) {
        Some(inner) => match text(inner) {
            Some(found) => Some(found.to_owned()),
            None => None,
        },
        None => None,
    }
}

/// Reads the `"item"` text of every element of a parsed array.
pub fn read_item_fields(values: &Vec<serde_json::Value>) -> (fields: Vec<Option<String>>)
    ensures
        fields.deep_view() == item_fields(values@),
{
    let mut fields: Vec<Option<String>> = Vec::new();
    let mut i: usize = 0;
    while i < values.len()
        invariant
            i <= values.len(),
            fields.len() == i,
            forall|j: int| 0 <= j < i ==> (#[trigger] fields@[j]).deep_view() == item_of(values@[j]),
        decreases values.len() - i,
    {
        fields.push(item_text(&values[i]));
        i += 1;
    }
    fields
}

/// Makes a snippet of every text that is there and passes over the rest.
pub fn keep_present(fields: &Vec<Option<String>>) -> (records: Vec<Snippet>)
    ensures
        records.deep_view() == snippets_of(present(fields.deep_view())),
{
    let ghost all = fields.deep_view();
    let mut records: Vec<Snippet> = Vec::new();
    let mut i: usize = 0;
    while i < fields.len()
        invariant
            i <= fields.len(),
            all == fields.deep_view(),
            records.deep_view() == snippets_of(present(all.take(i as int))),
        decreases fields.len() - i,
    {
        let ghost kept = present(all.take(i as int));
        assert(all.take(i + 1).drop_last() =~= all.take(i as int));
        match &fields[i] {
            Some(text) => {
                records.push(Snippet::from_item(text.as_str()));
                assert(snippets_of(kept.push(text@)) =~= snippets_of(kept).push(snippet_of(text@)));
            },
            None => {},
        }
        i += 1;
    }
    assert(all.take(fields.len() as int) =~= all);
    records
}

/// Loads the snippets from what reading the source file gave.
pub fn load(source: &SourceRead) -> (loaded: Loaded)
    ensures
        loaded.records.deep_view() == loaded_records(source@),
        loaded.failure == load_failure(source@),
{
    match source {
        SourceRead::OpenFailed => Loaded {
            records: Vec::new(),
            failure: Some(LoadFailure::Open),
        },
        SourceRead::ReadFailed => Loaded {
            records: Vec::new(),
            failure: Some(LoadFailure::Read),
        },
        SourceRead::Contents(text) => match parse_array(text.as_str()) {
            Ok(values) => {
                let fields = read_item_fields(&values);
                Loaded { records: keep_present(&fields), failure: None }
            },
            Err(_) => Loaded { records: Vec::new(), failure: Some(LoadFailure::Parse) },
        },
    }
}

} // verus!
