//! The bodies of the requests a client sends.

use vstd::prelude::*;

use crate::schemes::{Entry, EntryKey, EntryKeyView, EntryView};

verus! {

/// Asks for the current value of one entry.
#[derive(Debug, PartialEq, Eq, PartialOrd, Ord)]
pub struct GetEntryData {
    pub entry_key: EntryKey,
}

impl View for GetEntryData {
    type V = EntryKeyView;

    open spec fn view(&self) -> EntryKeyView {
        self.entry_key@
    }
}

impl Clone for GetEntryData {
    fn clone(&self) -> (copy: GetEntryData)
        ensures
            copy@ == self@,
    {
        GetEntryData { entry_key: self.entry_key.clone() }
    }
}

/// Asks to record a new value for one entry.
#[derive(Debug, PartialEq, Eq, PartialOrd, Ord)]
pub struct UpdateEntry {
    pub entry: Entry,
}

impl View for UpdateEntry {
    type V = EntryView;

    open spec fn view(&self) -> EntryView {
        self.entry@
    }
}

impl Clone for UpdateEntry {
    fn clone(&self) -> (copy: UpdateEntry)
        ensures
            copy@ == self@,
    {
        UpdateEntry { entry: self.entry.clone() }
    }
}

} // verus!
