//! One open directory column: its listing, its cursor and its scroll position.

use vstd::prelude::*;
use crate::entry::{Entry, EntryView, entries_view};

verus! {

/// The view state of one open directory.
///
/// `selected` is the highlighted row and `offset` the first visible row. An
/// empty listing keeps both at 0, which then stands for "no selection".
#[derive(Debug)]
pub struct Level {
    path: String,
    entries: Vec<Entry>,
    selected: usize,
    offset: usize,
}

/// The mathematical value of a [`Level`].
pub struct LevelView {
    pub path: Seq<char>,
    pub entries: Seq<EntryView>,
    pub selected: nat,
    pub offset: nat,
}

impl LevelView {
    /// A level as it is when its directory has just been opened: cursor and
    /// scroll position at the top.
    pub open spec fn fresh(path: Seq<char>, entries: Seq<EntryView>) -> LevelView {
        LevelView { path, entries, selected: 0, offset: 0 }
    }

    /// The bound that the cursor stays below: the number of entries, or 1
    /// for an empty listing, whose cursor rests at 0.
    pub open spec fn row_limit(self) -> nat {
        if self.entries.len() == 0 {
            1
        } else {
            self.entries.len()
        }
    }

    /// The cursor is on a row of the listing (or at 0 when there is none),
    /// and the window does not start below the cursor.
    pub open spec fn wf(self) -> bool {
        self.offset <= self.selected < self.row_limit()
    }

    /// The cursor points at an entry (false exactly for an empty listing,
    /// when the level is well-formed).
    pub open spec fn has_selection(self) -> bool {
        self.selected < self.entries.len()
    }

    /// The cursor lies inside a window of `viewport_rows` rows that starts at
    /// `offset`.
    pub open spec fn in_window(self, viewport_rows: nat) -> bool {
        self.offset <= self.selected < self.offset + viewport_rows
    }

    /// Moves the cursor one row down, unless it is on the last row or the
    /// listing is empty. If the cursor thereby leaves a window of
    /// `viewport_rows` rows, the window follows by one row.
    pub open spec fn scroll_down(self, viewport_rows: nat) -> LevelView {
        if self.selected + 1 < self.entries.len() {
            let selected: nat = self.selected + 1;
            LevelView {
                selected,
                offset: if selected >= self.offset + viewport_rows {
                    self.offset + 1
                } else {
                    self.offset
                },
                ..self
            }
        } else {
            self
        }
    }

    /// Moves the cursor one row up, unless it is on the first row. If the
    /// cursor thereby rises above the window, the window follows by one row.
    pub open spec fn scroll_up(self) -> LevelView {
        if self.selected > 0 {
            let selected: nat = (self.selected - 1) as nat;
            LevelView {
                selected,
                offset: if selected < self.offset {
                    (self.offset - 1) as nat
                } else {
                    self.offset
                },
                ..self
            }
        } else {
            self
        }
    }

    /// Index of the first row shown: the scroll position, clipped to the
    /// listing.
    pub open spec fn window_start(self) -> nat {
        if self.offset <= self.entries.len() {
            self.offset
        } else {
            self.entries.len()
        }
    }

    /// Index one past the last row shown when `viewport_rows` rows fit.
    pub open spec fn window_end(self, viewport_rows: nat) -> nat {
        if self.window_start() + viewport_rows <= self.entries.len() {
            self.window_start() + viewport_rows
        } else {
            self.entries.len()
        }
    }
}

impl View for Level {
    type V = LevelView;

    closed spec fn view(&self) -> LevelView {
        LevelView {
            path: self.path@,
            entries: entries_view(self.entries@),
            selected: self.selected as nat,
            offset: self.offset as nat,
        }
    }
}

impl Level {
    /// Validity of a level: see [`LevelView::wf`].
    pub open spec fn wf(&self) -> bool {
        self@.wf()
    }

    /// Opens a column on the directory at `path`, whose listing is
    /// `entries`, with the cursor and the window at the top.
    pub fn new(path: String, entries: Vec<Entry>) -> (level: Level)
        ensures
            level@ == LevelView::fresh(path@, entries_view(entries@)),
            level.wf(),
    {
        Level { path, entries, selected: 0, offset: 0 }
    }

    /// The directory this column shows.
    pub fn path(&self) -> (path: &String)
        ensures
            path@ == self@.path,
    {
        &self.path
    }

    /// The listing, as it was read when the column was opened.
    pub fn entries(&self) -> (entries: &Vec<Entry>)
        ensures
            entries_view(entries@) == self@.entries,
    {
        &self.entries
    }

    /// Index of the highlighted row.
    pub fn selected(&self) -> (selected: usize)
        ensures
            selected == self@.selected,
    {
        self.selected
    }

    /// Index of the first visible row.
    pub fn offset(&self) -> (offset: usize)
        ensures
            offset == self@.offset,
    {
        self.offset
    }

    /// The highlighted entry, if the cursor points at one.
    pub fn selected_entry(&self) -> (entry: Option<&Entry>)
        ensures
            entry is Some <==> self@.has_selection(),
            entry matches Some(e) ==> e@ == self@.entries[self@.selected as int],
    {
        if self.selected < self.entries.len() {
            Some(&self.entries[self.selected])
        } else {
            None
        }
    }

    /// Moves the cursor one row down and lets the window follow it.
    ///
    /// Nothing changes when the listing is empty or the cursor is already on
    /// the last row. The cursor is inside the window of `viewport_rows` rows
    /// after the call exactly if it was inside it before: the window
    /// follows by one row, it does not jump to a cursor that was out of
    /// sight.
    pub fn scroll_down(&mut self, viewport_rows: usize)
        requires
            old(self).wf(),
        ensures
            final(self)@ == old(self)@.scroll_down(viewport_rows as nat),
            final(self).wf(),
            final(self)@.in_window(viewport_rows as nat) <==> old(self)@.in_window(
                viewport_rows as nat,
            ),
    {
        let len: usize = self.entries.len();
        if len > 0 && self.selected < len - 1 {
            self.selected = self.selected + 1;
            if self.selected - self.offset >= viewport_rows {
                self.offset = self.offset + 1;
            }
        }
    }

    /// Moves the cursor one row up and lets the window follow it.
    ///
    /// Nothing changes when the cursor is on the first row. For every
    /// number of rows on screen, the cursor is inside the window after the
    /// call exactly if at least one row fits and the cursor was inside the
    /// window before, or on the row just below it.
    pub fn scroll_up(&mut self)
        requires
            old(self).wf(),
        ensures
            final(self)@ == old(self)@.scroll_up(),
            final(self).wf(),
            forall|viewport_rows: nat| #[trigger]
                final(self)@.in_window(viewport_rows) <==> viewport_rows >= 1 && old(
                    self,
                )@.selected <= old(self)@.offset + viewport_rows,
    {
        if self.selected > 0 {
            self.selected = self.selected - 1;
            if self.selected < self.offset {
                self.offset = self.offset - 1;
            }
        }
    }
}

} // verus!
