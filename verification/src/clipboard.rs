//! The clipboard writer's request: what a click asks the platform to store.

use vstd::prelude::*;
use vstd::string::StrSliceExecFns;
use vstd::utf8::encode_utf8;

verus! {

/// The selection that a request is stored under.
#[derive(Clone, Copy, Debug, PartialEq, Eq, Structural)]
pub enum Selection {
    /// The selection that follows the pointer.
    Primary,
    /// The selection that explicit copy and paste use.
    Clipboard,
}

/// The representation that a request offers its data in.
#[derive(Clone, Copy, Debug, PartialEq, Eq, Structural)]
pub enum Target {
    /// Text in the platform's legacy encoding.
    Text,
    /// Text encoded as UTF-8.
    Utf8Text,
}

/// A request to put text on the clipboard.
#[derive(Clone, Debug, PartialEq, Eq)]
pub struct CopyRequest {
    pub selection: Selection,
    pub target: Target,
    pub data: Vec<u8>,
}

/// [`CopyRequest`] as contracts see it.
pub struct CopyRequestView {
    pub selection: Selection,
    pub target: Target,
    pub data: Seq<u8>,
}

impl View for CopyRequest {
    type V = CopyRequestView;

    open spec fn view(&self) -> CopyRequestView {
        CopyRequestView { selection: self.selection, target: self.target, data: self.data@ }
    }
}

/// The request that copies `payload`: its UTF-8 encoding, byte for byte, as
/// UTF-8 text under the clipboard selection.
pub open spec fn copy_of(payload: Seq<char>) -> CopyRequestView {
    CopyRequestView {
        selection: Selection::Clipboard,
        target: Target::Utf8Text,
        data: encode_utf8(payload),
    }
}

/// Makes the request that copies `payload`.
pub fn copy_request(payload: &str) -> (request: CopyRequest)
    ensures
        request@ == copy_of(payload@),
{
    CopyRequest {
        selection: Selection::Clipboard,
        target: Target::Utf8Text,
        data: payload.as_bytes_vec(),
    }
}

/// How the platform answered a request.
#[derive(Clone, Debug, PartialEq, Eq)]
pub enum CopyOutcome {
    /// The text is on the clipboard.
    Stored,
    /// The platform refused; the text is the platform's own description.
    Failed(String),
}

} // verus!
