//! The panel: the buttons on show.
//!
//! The panel is the model that the widgets are drawn from. Button `n` shows
//! the label of snippet `n`, and a click on it asks to copy that snippet's
//! payload. A rebuild tears the whole panel down before it adds a button:
//! nothing is carried over from one load to the next.

use crate::clipboard::{copy_of, copy_request, CopyRequest};
use crate::loader::{load, load_failure, loaded_records, SourceRead, SourceView};
use crate::report::{failure_line, failure_report, LogLine, LogLineView};
use crate::snippet::{Snippet, SnippetView};
use vstd::prelude::*;

verus! {

/// The buttons on show, one per snippet, top to bottom.
#[derive(Debug)]
pub struct Panel {
    buttons: Vec<Snippet>,
}

impl View for Panel {
    type V = Seq<SnippetView>;

    closed spec fn view(&self) -> Seq<SnippetView> {
        self.buttons.deep_view()
    }
}

/// The line that a reload from `source` logs: that of its failure, if it has
/// one.
pub open spec fn reload_report(source: SourceView) -> Option<LogLineView> {
    match load_failure(source) {
        Some(failure) => Some(failure_report(failure)),
        None => None,
    }
}

impl Panel {
    /// A panel without buttons.
    pub fn new() -> (panel: Panel)
        ensures
            panel@ == Seq::<SnippetView>::empty(),
    {
        Panel { buttons: Vec::new() }
    }

    /// The number of buttons on show.
    pub fn len(&self) -> (n: usize)
        ensures
            n == self@.len(),
    {
        self.buttons.len()
    }

    /// Whether the panel shows no button at all.
    pub fn is_empty(&self) -> (empty: bool)
        ensures
            empty == (self@.len() == 0),
    {
        self.buttons.len() == 0
    }

    /// The label of button `n`, counted from zero; `None` where the panel has
    /// no such button.
    pub fn label(&self, n: usize) -> (label: Option<&str>)
        ensures
            match label {
                Some(text) => n < self@.len() && text@ == self@[n as int].label,
                None => n >= self@.len(),
            },
    {
        if n < self.buttons.len() {
            Some(self.buttons[n].label())
        } else {
            None
        }
    }

    /// The payload behind button `n`, counted from zero; `None` where the
    /// panel has no such button.
    pub fn payload(&self, n: usize) -> (payload: Option<&str>)
        ensures
            match payload {
                Some(text) => n < self@.len() && text@ == self@[n as int].payload,
                None => n >= self@.len(),
            },
    {
        if n < self.buttons.len() {
            Some(self.buttons[n].payload())
        } else {
            None
        }
    }

    /// A click on button `n`, counted from zero: the request that copies the
    /// payload of snippet `n`; `None` where the panel has no such button.
    pub fn click(&self, n: usize) -> (request: Option<CopyRequest>)
        ensures
            match request {
                Some(copy) => n < self@.len() && copy@ == copy_of(self@[n as int].payload),
                None => n >= self@.len(),
            },
    {
        if n < self.buttons.len() {
            Some(copy_request(self.buttons[n].payload()))
        } else {
            None
        }
    }

    /// Takes every button off the panel.
    pub fn clear(&mut self)
        ensures
            final(self)@ == Seq::<SnippetView>::empty(),
    {
        self.buttons.clear();
    }

    /// Tears the panel down and builds it anew: one button per record, in the
    /// order of the records. Nothing of the buttons shown before is kept.
    pub fn rebuild(&mut self, records: &Vec<Snippet>)
        ensures
            final(self)@ == records.deep_view(),
    {
        self.clear();
        let mut i: usize = 0;
        while i < records.len()
            invariant
                i <= records.len(),
                self@ == records.deep_view().take(i as int),
            decreases records.len() - i,
        {
            let ghost before = self@;
            let button = records[i].clone();
            self.buttons.push(button);
            assert(self@ =~= before.push(button@));
            i += 1;
        }
    }

    /// Loads the source and rebuilds the panel from it. A source that fails
    /// leaves the panel empty and returns the line to log.
    pub fn reload(&mut self, source: &SourceRead) -> (line: Option<LogLine>)
        ensures
            final(self)@ == loaded_records(source@),
            line.deep_view() == reload_report(source@),
    {
        let loaded = load(source);
        self.rebuild(&loaded.records);
        match loaded.failure {
            Some(failure) => Some(failure_line(failure)),
            None => None,
        }
    }
}

} // verus!
