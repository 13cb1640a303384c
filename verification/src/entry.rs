//! Directory-entry descriptors: what a column lists.

use vstd::prelude::*;

verus! {

/// One row of a directory listing: the entry's name, its full path, and
/// whether it is itself a directory that can be opened as a column.
#[derive(Debug, PartialEq, Eq)]
pub struct Entry {
    pub name: String,
    pub path: String,
    pub is_directory: bool,
}

/// The mathematical value of an [`Entry`].
pub struct EntryView {
    pub name: Seq<char>,
    pub path: Seq<char>,
    pub is_directory: bool,
}

impl View for Entry {
    type V = EntryView;

    open spec fn view(&self) -> EntryView {
        EntryView { name: self.name@, path: self.path@, is_directory: self.is_directory }
    }
}

/// The values of a listing, entry by entry and in the listing's order.
pub open spec fn entries_view(entries: Seq<Entry>) -> Seq<EntryView> {
    Seq::new(entries.len(), |i: int| entries[i]@)
}

impl Clone for Entry {
    fn clone(&self) -> (entry: Entry)
        ensures
            entry == *self,
    {
        Entry {
            name: self.name.clone(),
            path: self.path.clone(),
            is_directory: self.is_directory,
        }
    }
}

impl Entry {
    /// Describes an entry called `name`, found at `path`.
    pub fn new(name: String, path: String, is_directory: bool) -> (entry: Entry)
        ensures
            entry@ == (EntryView { name: name@, path: path@, is_directory }),
    {
        Entry { name, path, is_directory }
    }
}

} // verus!
