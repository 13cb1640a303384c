//! The navigation stack: the open columns, root first, and the operations
//! that open, close and scroll them.

use vstd::prelude::*;
use crate::entry::{Entry, EntryView, entries_view};
use crate::level::{Level, LevelView};

verus! {

/// The mathematical value of a [`Navigator`]: its levels, root first.
pub struct NavigatorView {
    pub levels: Seq<LevelView>,
}

/// What a directory read hands to the navigator: the listing, or nothing
/// when the read failed. A failed read counts as an empty listing.
pub open spec fn listing_entries(listing: Option<Vec<Entry>>) -> Seq<EntryView> {
    match listing {
        Some(entries) => entries_view(entries@),
        None => Seq::empty(),
    }
}

impl NavigatorView {
    /// Number of open levels.
    pub open spec fn depth(self) -> nat {
        self.levels.len()
    }

    /// The deepest open level, on which the cursor moves.
    pub open spec fn top(self) -> LevelView {
        self.levels.last()
    }

    /// Level `i + 1` shows the directory that is selected in level `i`.
    pub open spec fn linked(self, i: int) -> bool {
        let parent = self.levels[i];
        &&& parent.has_selection()
        &&& parent.entries[parent.selected as int].is_directory
        &&& self.levels[i + 1].path == parent.entries[parent.selected as int].path
    }

    /// The stack holds the root, every level is well-formed, and every level
    /// but the root was opened from the selection of the level before it.
    pub open spec fn wf(self) -> bool {
        &&& self.levels.len() >= 1
        &&& forall|i: int| 0 <= i < self.levels.len() ==> (#[trigger] self.levels[i]).wf()
        &&& forall|i: int| 0 <= i < self.levels.len() - 1 ==> #[trigger] self.linked(i)
    }

    /// The path of the directory that a descent would open: that of the
    /// selected entry of the top level, if there is one and it is a
    /// directory.
    pub open spec fn descend_target(self) -> Option<Seq<char>> {
        let top = self.top();
        if self.levels.len() >= 1 && top.has_selection()
            && top.entries[top.selected as int].is_directory {
            Some(top.entries[top.selected as int].path)
        } else {
            None
        }
    }

    /// Opens the selected directory as a new level that lists `entries`.
    /// Without a selected directory the stack stays as it is.
    pub open spec fn navigate_into(self, entries: Seq<EntryView>) -> NavigatorView {
        match self.descend_target() {
            Some(path) => NavigatorView { levels: self.levels.push(LevelView::fresh(path, entries)) },
            None => self,
        }
    }

    /// Closes the deepest level, unless it is the root.
    pub open spec fn navigate_back(self) -> NavigatorView {
        if self.levels.len() > 1 {
            NavigatorView { levels: self.levels.drop_last() }
        } else {
            self
        }
    }

    /// The stack with its top level replaced by `top`.
    pub open spec fn with_top(self, top: LevelView) -> NavigatorView {
        NavigatorView { levels: self.levels.update(self.levels.len() - 1, top) }
    }

    /// Moves the cursor of the top level one row down.
    pub open spec fn scroll_down(self, viewport_rows: nat) -> NavigatorView {
        self.with_top(self.top().scroll_down(viewport_rows))
    }

    /// Moves the cursor of the top level one row up.
    pub open spec fn scroll_up(self) -> NavigatorView {
        self.with_top(self.top().scroll_up())
    }

    /// A descent keeps the stack valid, whatever the listing holds.
    pub proof fn lemma_navigate_into_wf(self, entries: Seq<EntryView>)
        requires
            self.wf(),
        ensures
            self.navigate_into(entries).wf(),
    {
        let next = self.navigate_into(entries);
        assert forall|i: int| 0 <= i < next.levels.len() - 1 implies #[trigger] next.linked(i) by {
            if i < self.levels.len() - 1 {
                assert(self.linked(i));
            }
        }
    }

    /// An ascent keeps the stack valid; in particular it never empties it.
    pub proof fn lemma_navigate_back_wf(self)
        requires
            self.wf(),
        ensures
            self.navigate_back().wf(),
    {
        let next = self.navigate_back();
        assert forall|i: int| 0 <= i < next.levels.len() - 1 implies #[trigger] next.linked(i) by {
            assert(self.linked(i));
        }
    }

    /// Replacing the top level by a well-formed level for the same
    /// directory keeps the stack valid.
    pub proof fn lemma_with_top_wf(self, top: LevelView)
        requires
            self.wf(),
            top.wf(),
            top.path == self.top().path,
        ensures
            self.with_top(top).wf(),
    {
        let next = self.with_top(top);
        assert forall|i: int| 0 <= i < next.levels.len() - 1 implies #[trigger] next.linked(i) by {
            assert(self.linked(i));
        }
    }

    /// Moving the cursor down keeps the stack valid: the cursor stays on a
    /// row of the listing, and the window does not start below it.
    pub proof fn lemma_scroll_down_wf(self, viewport_rows: nat)
        requires
            self.wf(),
        ensures
            self.scroll_down(viewport_rows).wf(),
    {
        self.lemma_with_top_wf(self.top().scroll_down(viewport_rows));
    }

    /// Moving the cursor up keeps the stack valid: the cursor stays on a
    /// row of the listing, and the window does not start below it.
    pub proof fn lemma_scroll_up_wf(self)
        requires
            self.wf(),
        ensures
            self.scroll_up().wf(),
    {
        self.lemma_with_top_wf(self.top().scroll_up());
    }
}

/// Why a session cannot start.
#[derive(Clone, Copy, Debug, PartialEq, Eq, Structural)]
pub enum InitError {
    /// No home directory could be determined.
    HomeUnknown,
    /// The home directory could not be listed.
    HomeUnreadable,
}

/// The stack of open directory columns.
#[derive(Debug)]
pub struct Navigator {
    levels: Vec<Level>,
}

impl View for Navigator {
    type V = NavigatorView;

    closed spec fn view(&self) -> NavigatorView {
        NavigatorView { levels: Seq::new(self.levels@.len(), |i: int| self.levels@[i]@) }
    }
}

impl Navigator {
    /// Validity of a navigator: see [`NavigatorView::wf`].
    pub open spec fn wf(&self) -> bool {
        self@.wf()
    }

    /// Starts at the directory `home`, whose listing is `entries`: one
    /// level, the root, with the cursor at the top.
    pub fn new(home: String, entries: Vec<Entry>) -> (navigator: Navigator)
        ensures
            navigator.wf(),
            navigator@.levels == seq![LevelView::fresh(home@, entries_view(entries@))],
    {
        let mut levels: Vec<Level> = Vec::new();
        levels.push(Level::new(home, entries));
        Navigator { levels }
    }

    /// Starts a session from what the system told about the home
    /// directory: its path, and its listing.
    ///
    /// Without a root there is nothing to browse: the session starts only
    /// if the home directory is known and could be listed. Unlike a
    /// directory opened later, an unreadable root is not shown as empty.
    pub fn initialize(home: Option<String>, listing: Option<Vec<Entry>>) -> (result: Result<
        Navigator,
        InitError,
    >)
        ensures
            result is Ok <==> home is Some && listing is Some,
            result matches Ok(navigator) ==> navigator.wf() && navigator@.levels
                == seq![LevelView::fresh(home->0@, entries_view(listing->0@))],
            result == Err::<Navigator, InitError>(InitError::HomeUnknown) <==> home is None,
            result == Err::<Navigator, InitError>(InitError::HomeUnreadable) <==> home is Some
                && listing is None,
    {
        match home {
            None => Err(InitError::HomeUnknown),
            Some(path) => match listing {
                None => Err(InitError::HomeUnreadable),
                Some(entries) => Ok(Navigator::new(path, entries)),
            },
        }
    }

    /// Number of open levels; never 0.
    pub fn depth(&self) -> (depth: usize)
        requires
            self.wf(),
        ensures
            depth == self@.depth(),
            depth >= 1,
    {
        self.levels.len()
    }

    /// Level `i`, counted from the root.
    pub fn level(&self, i: usize) -> (level: &Level)
        requires
            self.wf(),
            i < self@.depth(),
        ensures
            level@ == self@.levels[i as int],
            level.wf(),
    {
        &self.levels[i]
    }

    /// The deepest open level.
    pub fn top(&self) -> (level: &Level)
        requires
            self.wf(),
        ensures
            level@ == self@.top(),
            level.wf(),
    {
        &self.levels[self.levels.len() - 1]
    }

    /// The path of the directory that [`Navigator::navigate_into`] would
    /// open, for the caller to list it; `None` when there is no selected
    /// entry or it is not a directory.
    pub fn descend_target(&self) -> (target: Option<String>)
        requires
            self.wf(),
        ensures
            target is Some <==> self@.descend_target() is Some,
            target matches Some(path) ==> self@.descend_target() == Some(path@),
    {
        match self.top().selected_entry() {
            Some(entry) => if entry.is_directory {
                Some(entry.path.clone())
            } else {
                None
            },
            None => None,
        }
    }

    /// Descends into the selected entry of the top level.
    ///
    /// If that entry exists and is a directory, a new level for it is
    /// pushed, with the entries of `listing` and the cursor at the top; a
    /// `listing` of `None`, a read that failed, gives a level without
    /// entries. Otherwise nothing changes, and `listing` is dropped.
    pub fn navigate_into(&mut self, listing: Option<Vec<Entry>>)
        requires
            old(self).wf(),
        ensures
            final(self).wf(),
            final(self)@ == old(self)@.navigate_into(listing_entries(listing)),
            old(self)@.descend_target() is None ==> final(self)@ == old(self)@,
    {
        match self.descend_target() {
            Some(path) => {
                let entries = match listing {
                    Some(entries) => entries,
                    None => Vec::new(),
                };
                let ghost before = self@;
                let level = Level::new(path, entries);
                self.levels.push(level);
                proof {
                    assert(entries_view(Seq::<Entry>::empty()) =~= Seq::<EntryView>::empty());
                    assert(self@.levels =~= before.levels.push(level@));
                    before.lemma_navigate_into_wf(listing_entries(listing));
                }
            },
            None => {},
        }
    }

    /// Closes the deepest level and returns to the one before it, which is
    /// as it was left. At the root nothing changes.
    pub fn navigate_back(&mut self)
        requires
            old(self).wf(),
        ensures
            final(self).wf(),
            final(self)@ == old(self)@.navigate_back(),
    {
        if self.levels.len() > 1 {
            self.levels.pop();
            proof {
                assert(self@.levels =~= old(self)@.levels.drop_last());
                old(self)@.lemma_navigate_back_wf();
            }
        }
    }

    /// Moves the cursor of the top level one row down; see
    /// [`Level::scroll_down`].
    pub fn scroll_down(&mut self, viewport_rows: usize)
        requires
            old(self).wf(),
        ensures
            final(self).wf(),
            final(self)@ == old(self)@.scroll_down(viewport_rows as nat),
            final(self)@.depth() == old(self)@.depth(),
            final(self)@.top().in_window(viewport_rows as nat) <==> old(self)@.top().in_window(
                viewport_rows as nat,
            ),
    {
        let last: usize = self.levels.len() - 1;
        assert(self@.levels[last as int] == self.levels@[last as int]@);
        let top = &mut self.levels[last];
        top.scroll_down(viewport_rows);
        proof {
            assert(self@.levels =~= old(self)@.levels.update(
                last as int,
                self.levels@[last as int]@,
            ));
            old(self)@.lemma_scroll_down_wf(viewport_rows as nat);
        }
    }

    /// Moves the cursor of the top level one row up; see
    /// [`Level::scroll_up`].
    pub fn scroll_up(&mut self)
        requires
            old(self).wf(),
        ensures
            final(self).wf(),
            final(self)@ == old(self)@.scroll_up(),
            final(self)@.depth() == old(self)@.depth(),
            forall|viewport_rows: nat| #[trigger]
                final(self)@.top().in_window(viewport_rows) <==> viewport_rows >= 1 && old(
                    self,
                )@.top().selected <= old(self)@.top().offset + viewport_rows,
    {
        let last: usize = self.levels.len() - 1;
        assert(self@.levels[last as int] == self.levels@[last as int]@);
        let top = &mut self.levels[last];
        top.scroll_up();
        proof {
            assert(self@.levels =~= old(self)@.levels.update(
                last as int,
                self.levels@[last as int]@,
            ));
            old(self)@.lemma_scroll_up_wf();
        }
    }
}

} // verus!
