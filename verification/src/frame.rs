//! What one frame shows: for every open level its column on the screen and
//! the rows of its listing that fit into it.

use vstd::prelude::*;
use crate::entry::entries_view;
use crate::layout::{Region, is_column_plan, plan_columns, spec_viewport_rows, viewport_rows};
use crate::level::{Level, LevelView};
use crate::navigator::{Navigator, NavigatorView};

verus! {

/// Marks the highlighted row.
pub const SELECTED_MARKER: char = '>';

/// Stands in the marker's place on every other row.
pub const PLAIN_MARKER: char = ' ';

/// One visible row of a column: the entry at `index` of the listing, its
/// name, and whether the cursor is on it.
#[derive(Debug, PartialEq, Eq)]
pub struct Row {
    pub index: usize,
    pub name: String,
    pub selected: bool,
}

/// The mathematical value of a [`Row`].
pub struct RowView {
    pub index: nat,
    pub name: Seq<char>,
    pub selected: bool,
}

impl View for Row {
    type V = RowView;

    open spec fn view(&self) -> RowView {
        RowView { index: self.index as nat, name: self.name@, selected: self.selected }
    }
}

/// The values of a list of rows, in order.
pub open spec fn rows_view(rows: Seq<Row>) -> Seq<RowView> {
    Seq::new(rows.len(), |i: int| rows[i]@)
}

impl Row {
    /// The selection indicator that precedes the name.
    pub fn marker(&self) -> (marker: char)
        ensures
            marker == if self.selected {
                SELECTED_MARKER
            } else {
                PLAIN_MARKER
            },
    {
        if self.selected {
            SELECTED_MARKER
        } else {
            PLAIN_MARKER
        }
    }
}

impl LevelView {
    /// The row that shows entry `i`; it is highlighted when the cursor is
    /// on `i`.
    pub open spec fn row(self, i: int) -> RowView {
        RowView { index: i as nat, name: self.entries[i].name, selected: i == self.selected }
    }

    /// The rows shown when `viewport_rows` rows fit: those of the entries
    /// from the scroll position on, as many as fit and as there are.
    pub open spec fn visible_rows(self, viewport_rows: nat) -> Seq<RowView> {
        Seq::new(
            (self.window_end(viewport_rows) - self.window_start()) as nat,
            |j: int| self.row(self.window_start() + j),
        )
    }

    /// The highlighted row is on screen: a cursor inside the window has its
    /// row among the visible ones, as many rows below the first as the
    /// cursor is below the scroll position, and no other row is
    /// highlighted.
    pub proof fn lemma_selected_row_is_visible(self, viewport_rows: nat)
        requires
            self.wf(),
            self.has_selection(),
            self.in_window(viewport_rows),
        ensures
            self.selected - self.offset < self.visible_rows(viewport_rows).len(),
            self.visible_rows(viewport_rows)[self.selected - self.offset] == self.row(
                self.selected as int,
            ),
            forall|j: int|
                0 <= j < self.visible_rows(viewport_rows).len() ==> (
                #[trigger] self.visible_rows(viewport_rows)[j].selected <==> j == self.selected
                    - self.offset),
    {
    }
}

impl Level {
    /// The visible window of this column, `viewport_rows` rows high: one
    /// row for each entry from `offset` up to, but not including,
    /// `offset + viewport_rows`, cut off at the end of the listing.
    pub fn visible_rows(&self, viewport_rows: usize) -> (rows: Vec<Row>)
        ensures
            rows_view(rows@) == self@.visible_rows(viewport_rows as nat),
    {
        let entries = self.entries();
        let selected: usize = self.selected();
        let len: usize = entries.len();
        let start: usize = if self.offset() <= len {
            self.offset()
        } else {
            len
        };
        let end: usize = if viewport_rows <= len - start {
            start + viewport_rows
        } else {
            len
        };
        let mut rows: Vec<Row> = Vec::new();
        let mut i: usize = start;
        while i < end
            invariant
                start <= i <= end <= len,
                len == entries@.len(),
                entries_view(entries@) == self@.entries,
                selected == self@.selected,
                rows@.len() == i - start,
                forall|j: int| 0 <= j < rows@.len() ==> (#[trigger] rows@[j])@ == self@.row(start + j),
            decreases end - i,
        {
            let entry = &entries[i];
            rows.push(Row { index: i, name: entry.name.clone(), selected: i == selected });
            i = i + 1;
        }
        rows
    }
}

/// One column of a frame: where it stands on the screen, the directory it
/// shows, and its visible rows.
#[derive(Debug, PartialEq, Eq)]
pub struct Column {
    pub region: Region,
    pub path: String,
    pub rows: Vec<Row>,
}

/// The screen regions of a list of columns, in order.
pub open spec fn regions_of(columns: Seq<Column>) -> Seq<Region> {
    Seq::new(columns.len(), |i: int| columns[i].region)
}

/// `columns` shows the levels of `navigator` on a terminal of the given
/// size: one column per level, root first, the columns side by side over the
/// terminal's width, each with its level's path and the rows of its
/// level that fit under the frame.
pub open spec fn is_frame(
    columns: Seq<Column>,
    navigator: NavigatorView,
    terminal_width: u16,
    terminal_height: u16,
) -> bool {
    &&& columns.len() == navigator.depth()
    &&& is_column_plan(
        regions_of(columns),
        navigator.depth() as int,
        terminal_width as int,
        terminal_height as int,
    )
    &&& forall|i: int|
        0 <= i < columns.len() ==> {
            &&& (#[trigger] columns[i]).path@ == navigator.levels[i].path
            &&& rows_view(columns[i].rows@) == navigator.levels[i].visible_rows(
                spec_viewport_rows(terminal_height),
            )
        }
}

/// Lays out the current levels for a terminal of `terminal_width` by
/// `terminal_height` cells.
pub fn frame(navigator: &Navigator, terminal_width: u16, terminal_height: u16) -> (columns: Vec<
    Column,
>)
    requires
        navigator.wf(),
    ensures
        is_frame(columns@, navigator@, terminal_width, terminal_height),
{
    let depth: usize = navigator.depth();
    let regions = plan_columns(depth, terminal_width, terminal_height);
    let rows_per_column: usize = viewport_rows(terminal_height);
    let mut columns: Vec<Column> = Vec::new();
    let mut i: usize = 0;
    while i < depth
        invariant
            0 <= i <= depth,
            navigator.wf(),
            depth == navigator@.depth(),
            rows_per_column == spec_viewport_rows(terminal_height),
            is_column_plan(
                regions@,
                depth as int,
                terminal_width as int,
                terminal_height as int,
            ),
            columns@.len() == i,
            forall|j: int|
                0 <= j < i ==> {
                    &&& (#[trigger] columns@[j]).region == regions@[j]
                    &&& columns@[j].path@ == navigator@.levels[j].path
                    &&& rows_view(columns@[j].rows@) == navigator@.levels[j].visible_rows(
                        spec_viewport_rows(terminal_height),
                    )
                },
        decreases depth - i,
    {
        let level = navigator.level(i);
        let column = Column {
            region: regions[i],
            path: level.path().clone(),
            rows: level.visible_rows(rows_per_column),
        };
        columns.push(column);
        i = i + 1;
    }
    columns
}

} // verus!
