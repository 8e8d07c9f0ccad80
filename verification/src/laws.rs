//! What holds of the loader, the panel and the clipboard request together.
//!
//! [`Panel::reload`](crate::panel::Panel::reload) leaves the panel showing
//! `loaded_records` of its source, and
//! [`Panel::click`](crate::panel::Panel::click) answers with `copy_of` the
//! payload on show. The statements below say what that amounts to in terms of
//! the elements of the source array.

use crate::clipboard::{copy_of, CopyRequestView, Selection, Target};
use crate::json::json_array;
use crate::loader::{
    item_fields, item_of, load_failure, loaded_records, present, SourceView,
};
use crate::panel::reload_report;
use crate::report::{failure_report, LogLineView, Stream};
use crate::snippet::SnippetView;
use vstd::prelude::*;
use vstd::utf8::{decode_utf8, encode_utf8, encode_utf8_decode_utf8};

verus! {

/// Whether an element of the source array qualifies for a button: it carries
/// an `"item"` member that is a JSON string.
pub open spec fn has_item(value: serde_json::Value) -> bool {
    item_of(value) is Some
}

/// The elements of an array that qualify for a button, in the order of the
/// array.
pub open spec fn qualifying(values: Seq<serde_json::Value>) -> Seq<serde_json::Value> {
    values.filter(|value: serde_json::Value| has_item(value))
}

/// Whether some button of a panel shows `label`.
pub open spec fn shows(buttons: Seq<SnippetView>, label: Seq<char>) -> bool {
    exists|n: int| 0 <= n < buttons.len() && (#[trigger] buttons[n]).label == label
}

/// The items kept from an array are the items of its qualifying elements, one
/// for one and in the order of the array.
pub proof fn lemma_items_are_those_of_qualifying(values: Seq<serde_json::Value>)
    ensures
        present(item_fields(values)).len() == qualifying(values).len(),
        forall|n: int|
            0 <= n < qualifying(values).len() ==> item_of(#[trigger] qualifying(values)[n])
                == Some(present(item_fields(values))[n]),
    decreases values.len(),
{
    reveal(Seq::filter);
    if values.len() > 0 {
        let earlier = values.drop_last();
        lemma_items_are_those_of_qualifying(earlier);
        assert(item_fields(values).drop_last() =~= item_fields(earlier));
    }
}

/// A text is among those kept exactly if it is there in some field.
pub proof fn lemma_present_members(fields: Seq<Option<Seq<char>>>, text: Seq<char>)
    ensures
        present(fields).contains(text) <==> fields.contains(Some(text)),
    decreases fields.len(),
{
    if fields.len() > 0 {
        let earlier = fields.drop_last();
        let kept = present(earlier);
        lemma_present_members(earlier, text);
        if fields.contains(Some(text)) {
            let k = choose|k: int| 0 <= k < fields.len() && fields[k] == Some(text);
            if k < earlier.len() {
                assert(earlier[k] == Some(text));
                let n = choose|n: int| 0 <= n < kept.len() && kept[n] == text;
                assert(present(fields)[n] == text);
            } else {
                assert(present(fields)[kept.len() as int] == text);
            }
        }
    }
}

/// A panel reloaded from a source that parses shows as many buttons as the
/// array has qualifying elements; the other elements get none.
pub proof fn lemma_one_button_per_qualifying_element(
    text: Seq<char>,
    values: Seq<serde_json::Value>,
)
    requires
        json_array(text) == Some(values),
    ensures
        loaded_records(SourceView::Contents(text)).len() == qualifying(values).len(),
{
    lemma_items_are_those_of_qualifying(values);
}

/// On a panel reloaded from a source that parses, button `n` shows the item of
/// the `n`th qualifying element, and a click on it asks to store exactly that
/// item's UTF-8 encoding as UTF-8 text under the clipboard selection. The
/// bytes decode to the item again: nothing was changed on the way.
pub proof fn lemma_click_copies_the_item(text: Seq<char>, values: Seq<serde_json::Value>, n: int)
    requires
        json_array(text) == Some(values),
        0 <= n < qualifying(values).len(),
    ensures
        n < loaded_records(SourceView::Contents(text)).len(),
        item_of(qualifying(values)[n]) == Some(
            loaded_records(SourceView::Contents(text))[n].label,
        ),
        item_of(qualifying(values)[n]) == Some(
            loaded_records(SourceView::Contents(text))[n].payload,
        ),
        copy_of(loaded_records(SourceView::Contents(text))[n].payload) == (CopyRequestView {
            selection: Selection::Clipboard,
            target: Target::Utf8Text,
            data: encode_utf8(item_of(qualifying(values)[n])->0),
        }),
        decode_utf8(copy_of(loaded_records(SourceView::Contents(text))[n].payload).data)
            == item_of(qualifying(values)[n])->0,
{
    lemma_items_are_those_of_qualifying(values);
    encode_utf8_decode_utf8(item_of(qualifying(values)[n])->0);
}

/// Whether some element of an array carries `label` as its item.
pub open spec fn carries(values: Seq<serde_json::Value>, label: Seq<char>) -> bool {
    exists|k: int| 0 <= k < values.len() && item_of(#[trigger] values[k]) == Some(label)
}

/// A reload from a source that parses replaces every button. Whatever the
/// panel showed before, it then shows one button per qualifying element of the
/// new array, and a label is on show exactly if the new array carries it: the
/// new labels appear, and a label shown before is gone unless the new array
/// carries it too.
pub proof fn lemma_reload_replaces_every_button(
    before: Seq<SnippetView>,
    text: Seq<char>,
    values: Seq<serde_json::Value>,
    label: Seq<char>,
)
    requires
        json_array(text) == Some(values),
    ensures
        loaded_records(SourceView::Contents(text)).len() == qualifying(values).len(),
        shows(loaded_records(SourceView::Contents(text)), label) <==> carries(values, label),
        shows(before, label) && !carries(values, label) ==> !shows(
            loaded_records(SourceView::Contents(text)),
            label,
        ),
{
    let fields = item_fields(values);
    let items = present(fields);
    let shown = loaded_records(SourceView::Contents(text));
    lemma_present_members(fields, label);
    lemma_items_are_those_of_qualifying(values);
    if carries(values, label) {
        let k = choose|k: int| 0 <= k < values.len() && item_of(#[trigger] values[k]) == Some(label);
        assert(fields[k] == Some(label));
        let n = choose|n: int| 0 <= n < items.len() && items[n] == label;
        assert(shown[n].label == label);
    }
}

/// A source that fails, in whichever way, leaves the panel without buttons,
/// and the reload logs the line of that failure.
pub proof fn lemma_failed_source_shows_nothing(source: SourceView)
    requires
        load_failure(source) is Some,
    ensures
        loaded_records(source) == Seq::<SnippetView>::empty(),
        reload_report(source) == Some(failure_report(load_failure(source)->0)),
{
}

/// A source that does not parse leaves the panel without buttons, and the
/// reload logs that parsing failed.
pub proof fn lemma_malformed_source_shows_nothing(text: Seq<char>)
    requires
        json_array(text) is None,
    ensures
        loaded_records(SourceView::Contents(text)) == Seq::<SnippetView>::empty(),
        reload_report(SourceView::Contents(text)) == Some(
            LogLineView { stream: Stream::Stdout, text: "Failed to parse JSON data"@ },
        ),
{
}

/// A source file that cannot be opened leaves the panel without buttons, and
/// the reload logs that opening failed.
pub proof fn lemma_missing_source_shows_nothing()
    ensures
        loaded_records(SourceView::OpenFailed) == Seq::<SnippetView>::empty(),
        reload_report(SourceView::OpenFailed) == Some(
            LogLineView { stream: Stream::Stdout, text: "Failed to open file"@ },
        ),
{
}

} // verus!
