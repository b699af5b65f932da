//! The bodies of the responses the server sends.

use vstd::prelude::*;

use crate::schemes::{Entry, EntryData, EntryKey, EntryKeyView, EntryView};

verus! {

/// Answers a request for one entry: the key asked for, and the value found.
/// No value means that nothing is recorded under the key.
#[derive(Debug, PartialEq, Eq)]
pub struct GetEntryData {
    entry_key: EntryKey,
    entry_data: Option<EntryData>,
}

/// What a [`GetEntryData`] holds, as contracts speak of it.
pub struct GetEntryDataView {
    pub entry_key: EntryKeyView,
    pub entry_data: Option<EntryData>,
}

impl View for GetEntryData {
    type V = GetEntryDataView;

    closed spec fn view(&self) -> GetEntryDataView {
        GetEntryDataView { entry_key: self.entry_key@, entry_data: self.entry_data }
    }
}

impl Clone for GetEntryData {
    fn clone(&self) -> (copy: GetEntryData)
        ensures
            copy@ == self@,
    {
        GetEntryData { entry_key: self.entry_key.clone(), entry_data: self.entry_data }
    }
}

impl GetEntryData {
    /// The answer for this key and this value.
    pub fn new(entry_key: EntryKey, entry_data: Option<EntryData>) -> (response: GetEntryData)
        ensures
            response@ == (GetEntryDataView { entry_key: entry_key@, entry_data }),
    {
        GetEntryData { entry_key, entry_data }
    }

    /// The key that was asked for.
    pub fn entry_key(&self) -> (key: &EntryKey)
        ensures
            key@ == self@.entry_key,
    {
        &self.entry_key
    }

    /// The value that was found, if any.
    pub fn entry_data(&self) -> (data: Option<EntryData>)
        ensures
            data == self@.entry_data,
    {
        self.entry_data
    }
}

/// Tells that an entry now has a new value: the reply to the update, and
/// the frame that every connected client receives.
#[derive(Debug, PartialEq, Eq)]
pub struct UpdateEntry(Entry);

impl View for UpdateEntry {
    type V = EntryView;

    closed spec fn view(&self) -> EntryView {
        self.0@
    }
}

impl Clone for UpdateEntry {
    fn clone(&self) -> (copy: UpdateEntry)
        ensures
            copy@ == self@,
    {
        UpdateEntry(self.0.clone())
    }
}

impl UpdateEntry {
    /// The response that tells of this entry.
    pub fn new(entry: Entry) -> (response: UpdateEntry)
        ensures
            response@ == entry@,
    {
        UpdateEntry(entry)
    }

    /// The entry as it now is.
    pub fn entry(&self) -> (entry: &Entry)
        ensures
            entry@ == self@,
    {
        &self.0
    }
}

} // verus!
