//! What holds of the navigation stack over whole sessions: any sequence of
//! operations, started from any valid stack.

use vstd::prelude::*;
use crate::entry::EntryView;
use crate::navigator::NavigatorView;

verus! {

/// One operation on the stack, with what it is given.
pub enum Op {
    /// A descent; it carries the listing of the directory that it opens.
    Descend(Seq<EntryView>),
    /// An ascent.
    Ascend,
    /// A cursor move down, with the number of entry rows on screen.
    Down(nat),
    /// A cursor move up.
    Up,
}

impl Op {
    /// The operation moves the cursor and does nothing else.
    pub open spec fn is_move(self) -> bool {
        self is Down || self is Up
    }

    /// A cursor move down of this operation, if it is one, is made with
    /// `viewport_rows` rows on screen.
    pub open spec fn uses_viewport(self, viewport_rows: nat) -> bool {
        self matches Op::Down(rows) ==> rows == viewport_rows
    }
}

impl NavigatorView {
    /// The stack after `op`.
    pub open spec fn apply(self, op: Op) -> NavigatorView {
        match op {
            Op::Descend(entries) => self.navigate_into(entries),
            Op::Ascend => self.navigate_back(),
            Op::Down(viewport_rows) => self.scroll_down(viewport_rows),
            Op::Up => self.scroll_up(),
        }
    }

    /// The stack after the operations `ops`, carried out in order.
    pub open spec fn run(self, ops: Seq<Op>) -> NavigatorView
        decreases ops.len(),
    {
        if ops.len() == 0 {
            self
        } else {
            self.run(ops.drop_last()).apply(ops.last())
        }
    }

    /// The stack after `n` ascents.
    pub open spec fn ascend(self, n: nat) -> NavigatorView {
        self.run(Seq::new(n, |i: int| Op::Ascend))
    }

    /// In every level the cursor lies inside a window of `viewport_rows`
    /// rows that starts at the level's scroll position.
    pub open spec fn all_in_window(self, viewport_rows: nat) -> bool {
        forall|i: int| 0 <= i < self.levels.len() ==> (#[trigger] self.levels[i]).in_window(viewport_rows)
    }

    /// No operation breaks the stack's validity.
    pub proof fn lemma_apply_wf(self, op: Op)
        requires
            self.wf(),
        ensures
            self.apply(op).wf(),
    {
        match op {
            Op::Descend(entries) => self.lemma_navigate_into_wf(entries),
            Op::Ascend => self.lemma_navigate_back_wf(),
            Op::Down(viewport_rows) => self.lemma_scroll_down_wf(viewport_rows),
            Op::Up => self.lemma_scroll_up_wf(),
        }
    }

    /// No sequence of operations breaks the stack's validity: the root
    /// stays, every cursor stays on a row of its listing, no window starts
    /// below its cursor, and every level stays the one that the selection
    /// above it leads to.
    pub proof fn lemma_run_wf(self, ops: Seq<Op>)
        requires
            self.wf(),
        ensures
            self.run(ops).wf(),
        decreases ops.len(),
    {
        if ops.len() > 0 {
            self.lemma_run_wf(ops.drop_last());
            self.run(ops.drop_last()).lemma_apply_wf(ops.last());
        }
    }

    /// A listing is taken when its level is opened and not refreshed: an
    /// operation leaves every level that stays open with its directory and
    /// its entries, and every level below the top exactly as it was.
    pub proof fn lemma_apply_keeps_listings(self, op: Op, i: int)
        requires
            0 <= i < self.depth(),
            i < self.apply(op).depth(),
        ensures
            self.apply(op).levels[i].path == self.levels[i].path,
            self.apply(op).levels[i].entries == self.levels[i].entries,
            i < self.depth() - 1 ==> self.apply(op).levels[i] == self.levels[i],
    {
    }

    /// Selection bounds: after any sequence of operations, the cursor of
    /// every level is at least 0 and below the number of its entries, or
    /// below 1 where there are none; and no window starts below its
    /// cursor.
    pub proof fn lemma_selection_in_bounds(self, ops: Seq<Op>, i: int)
        requires
            self.wf(),
            0 <= i < self.run(ops).depth(),
        ensures
            0 <= self.run(ops).levels[i].selected < self.run(ops).levels[i].row_limit(),
            self.run(ops).levels[i].offset <= self.run(ops).levels[i].selected,
    {
        self.lemma_run_wf(ops);
    }

    /// Cursor moves touch nothing but the cursor and the window of the top
    /// level: after any sequence of them the stack is as deep as before,
    /// the levels below the top are as they were, and the top shows the
    /// same directory with the same listing.
    pub proof fn lemma_moves_keep_listing(self, ops: Seq<Op>)
        requires
            self.wf(),
            forall|k: int| 0 <= k < ops.len() ==> (#[trigger] ops[k]).is_move(),
        ensures
            self.run(ops).depth() == self.depth(),
            self.run(ops).levels.drop_last() == self.levels.drop_last(),
            self.run(ops).top().path == self.top().path,
            self.run(ops).top().entries == self.top().entries,
        decreases ops.len(),
    {
        if ops.len() > 0 {
            self.lemma_moves_keep_listing(ops.drop_last());
        }
    }

    /// One operation made with `viewport_rows` rows on screen keeps every
    /// cursor inside its window, if every cursor was inside it before and
    /// at least one row fits.
    pub proof fn lemma_apply_in_window(self, op: Op, viewport_rows: nat)
        requires
            self.wf(),
            viewport_rows >= 1,
            self.all_in_window(viewport_rows),
            op.uses_viewport(viewport_rows),
        ensures
            self.apply(op).all_in_window(viewport_rows),
    {
    }

    /// The cursor stays visible: while the number of rows on screen stays
    /// the same and is at least 1, any sequence of operations that starts
    /// with every cursor inside its window ends with every cursor inside
    /// its window, at or below the window's first row.
    pub proof fn lemma_cursor_stays_visible(self, ops: Seq<Op>, viewport_rows: nat)
        requires
            self.wf(),
            viewport_rows >= 1,
            self.all_in_window(viewport_rows),
            forall|k: int| 0 <= k < ops.len() ==> (#[trigger] ops[k]).uses_viewport(viewport_rows),
        ensures
            self.run(ops).all_in_window(viewport_rows),
            self.run(ops).top().offset <= self.run(ops).top().selected < self.run(ops).top().offset
                + viewport_rows,
        decreases ops.len(),
    {
        if ops.len() > 0 {
            self.lemma_run_wf(ops.drop_last());
            self.lemma_cursor_stays_visible(ops.drop_last(), viewport_rows);
            self.run(ops.drop_last()).lemma_apply_in_window(ops.last(), viewport_rows);
        }
        self.lemma_run_wf(ops);
    }

    /// The root stays: `n` ascents from a stack of any depth leave as many
    /// levels as were more than `n` deep, and never fewer than 1.
    pub proof fn lemma_ascents_keep_root(self, n: nat)
        requires
            self.depth() >= 1,
        ensures
            self.ascend(n).depth() >= 1,
            self.ascend(n).depth() == if self.depth() > n {
                self.depth() - n
            } else {
                1
            },
        decreases n,
    {
        let ops = Seq::new(n, |i: int| Op::Ascend);
        if n > 0 {
            self.lemma_ascents_keep_root((n - 1) as nat);
            assert(ops.drop_last() =~= Seq::new((n - 1) as nat, |i: int| Op::Ascend));
        }
    }

    /// An ascent undoes a descent: where the selected entry is a
    /// directory, descending and then ascending gives back the stack as it
    /// was, at its old depth.
    pub proof fn lemma_descend_then_ascend(self, entries: Seq<EntryView>)
        requires
            self.descend_target() is Some,
        ensures
            self.navigate_into(entries).depth() == self.depth() + 1,
            self.navigate_into(entries).navigate_back() == self,
            self.navigate_into(entries).navigate_back().depth() == self.depth(),
    {
        assert(self.navigate_into(entries).navigate_back().levels =~= self.levels);
    }

    /// A descent needs a directory: where the cursor points at no entry or
    /// at one that is not a directory, a descent changes nothing.
    pub proof fn lemma_descend_needs_directory(self, entries: Seq<EntryView>)
        requires
            !self.top().has_selection() || !self.top().entries[self.top().selected as int].is_directory,
        ensures
            self.navigate_into(entries) == self,
    {
    }
}

} // verus!
