//! Screen geometry: the rows a column can show, and the division of the
//! terminal's width into one column per open level.

use vstd::prelude::*;

verus! {

/// Rows of a column that its frame takes up: the top and the bottom border.
pub const FRAME_OVERHEAD: u16 = 2;

/// The number of entry rows that a column of the given height can show.
pub open spec fn spec_viewport_rows(terminal_height: u16) -> nat {
    if terminal_height >= FRAME_OVERHEAD {
        (terminal_height - FRAME_OVERHEAD) as nat
    } else {
        0
    }
}

/// Computes the number of entry rows that a terminal of `terminal_height`
/// rows leaves inside a framed column. A terminal too short to hold the
/// frame leaves none.
pub fn viewport_rows(terminal_height: u16) -> (rows: usize)
    ensures
        rows == spec_viewport_rows(terminal_height),
{
    if terminal_height >= FRAME_OVERHEAD {
        let inner: u16 = terminal_height - FRAME_OVERHEAD;
        inner as usize
    } else {
        0
    }
}

/// The part of the terminal given to one column: `width` cells starting at
/// cell `x_start`, over `height` rows.
#[derive(Clone, Copy, Debug, PartialEq, Eq, Structural)]
pub struct Region {
    pub x_start: u16,
    pub width: u16,
    pub height: u16,
}

/// The width that every column but the last has: the terminal's width
/// divided evenly, rounded down.
pub open spec fn even_width(num_levels: int, terminal_width: int) -> int {
    terminal_width / num_levels
}

/// The first cell of column `i`.
pub open spec fn column_start(i: int, num_levels: int, terminal_width: int) -> int {
    i * even_width(num_levels, terminal_width)
}

/// The width of column `i`. The last column takes, besides its even share,
/// the cells that the division leaves over.
pub open spec fn column_width(i: int, num_levels: int, terminal_width: int) -> int {
    if i == num_levels - 1 {
        terminal_width - column_start(i, num_levels, terminal_width)
    } else {
        even_width(num_levels, terminal_width)
    }
}

/// `regions` divides a terminal of the given size into `num_levels` columns
/// side by side.
pub open spec fn is_column_plan(
    regions: Seq<Region>,
    num_levels: int,
    terminal_width: int,
    terminal_height: int,
) -> bool {
    &&& regions.len() == num_levels
    &&& forall|i: int|
        0 <= i < num_levels ==> {
            &&& (#[trigger] regions[i]).x_start == column_start(i, num_levels, terminal_width)
            &&& regions[i].width == column_width(i, num_levels, terminal_width)
            &&& regions[i].height == terminal_height
        }
}

/// Every column starts inside the terminal: `i` even shares never exceed
/// the whole width.
pub proof fn lemma_column_start_bounds(i: int, num_levels: int, terminal_width: int)
    requires
        0 <= i < num_levels,
        0 <= terminal_width,
    ensures
        0 <= column_start(i, num_levels, terminal_width) <= terminal_width,
        0 <= even_width(num_levels, terminal_width) <= column_width(i, num_levels, terminal_width),
        column_start(i, num_levels, terminal_width) + column_width(i, num_levels, terminal_width)
            <= terminal_width,
{
    let share: int = even_width(num_levels, terminal_width);
    assert(0 <= share && num_levels * share <= terminal_width) by (nonlinear_arith)
        requires
            share == terminal_width / num_levels,
            0 < num_levels,
            0 <= terminal_width,
    ;
    assert(0 <= i * share && i * share + share <= num_levels * share) by (nonlinear_arith)
        requires
            0 <= i < num_levels,
            0 <= share,
    ;
}

/// The columns tile the terminal: the first starts at cell 0, each starts
/// where the one before it ends, and the last ends at the terminal's right
/// edge.
pub proof fn lemma_columns_tile(i: int, num_levels: int, terminal_width: int)
    requires
        0 <= i < num_levels,
        0 <= terminal_width,
    ensures
        column_start(0, num_levels, terminal_width) == 0,
        i < num_levels - 1 ==> column_start(i + 1, num_levels, terminal_width) == column_start(
            i,
            num_levels,
            terminal_width,
        ) + column_width(i, num_levels, terminal_width),
        column_start(num_levels - 1, num_levels, terminal_width) + column_width(
            num_levels - 1,
            num_levels,
            terminal_width,
        ) == terminal_width,
{
    let share: int = even_width(num_levels, terminal_width);
    assert((i + 1) * share == i * share + share) by (nonlinear_arith);
}

/// Divides a terminal of `terminal_width` by `terminal_height` cells into
/// `num_levels` columns of equal width over the full height, the last one
/// widened by the cells that an uneven division leaves over.
///
/// With more columns than cells, all columns but the last have width 0.
/// With no column to place, the plan is empty.
pub fn plan_columns(num_levels: usize, terminal_width: u16, terminal_height: u16) -> (regions: Vec<
    Region,
>)
    ensures
        is_column_plan(regions@, num_levels as int, terminal_width as int, terminal_height as int),
{
    let mut regions: Vec<Region> = Vec::new();
    if num_levels == 0 {
        return regions;
    }
    let share: u16 = if num_levels > terminal_width as usize {
        proof {
            vstd::arithmetic::div_mod::lemma_basic_div(terminal_width as int, num_levels as int);
        }
        0
    } else {
        // The divisor fits, since it does not exceed the width.
        terminal_width / (num_levels as u16)
    };
    let mut i: usize = 0;
    let mut x_start: u16 = 0;
    while i < num_levels
        invariant
            0 <= i <= num_levels,
            share == even_width(num_levels as int, terminal_width as int),
            i < num_levels ==> x_start == column_start(
                i as int,
                num_levels as int,
                terminal_width as int,
            ),
            regions@.len() == i,
            forall|j: int|
                0 <= j < i ==> {
                    &&& (#[trigger] regions@[j]).x_start == column_start(
                        j,
                        num_levels as int,
                        terminal_width as int,
                    )
                    &&& regions@[j].width == column_width(
                        j,
                        num_levels as int,
                        terminal_width as int,
                    )
                    &&& regions@[j].height == terminal_height
                },
        decreases num_levels - i,
    {
        proof {
            lemma_column_start_bounds(i as int, num_levels as int, terminal_width as int);
            lemma_columns_tile(i as int, num_levels as int, terminal_width as int);
        }
        let last: bool = i == num_levels - 1;
        let width: u16 = if last {
            terminal_width - x_start
        } else {
            share
        };
        regions.push(Region { x_start, width, height: terminal_height });
        if !last {
            x_start = x_start + share;
        }
        i = i + 1;
    }
    regions
}

} // verus!
