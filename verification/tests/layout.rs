use miller_nav::layout::{plan_columns, viewport_rows, Region, FRAME_OVERHEAD};

fn region(x_start: u16, width: u16, height: u16) -> Region {
    Region { x_start, width, height }
}

#[test]
fn frame_takes_two_rows() {
    assert_eq!(FRAME_OVERHEAD, 2);
    assert_eq!(viewport_rows(24), 22);
    assert_eq!(viewport_rows(4), 2);
    assert_eq!(viewport_rows(3), 1);
    assert_eq!(viewport_rows(u16::MAX), 65533);
}

#[test]
fn short_terminal_shows_no_rows() {
    assert_eq!(viewport_rows(2), 0);
    assert_eq!(viewport_rows(1), 0);
    assert_eq!(viewport_rows(0), 0);
}

#[test]
fn single_column_takes_the_whole_terminal() {
    assert_eq!(plan_columns(1, 80, 24), vec![region(0, 80, 24)]);
}

#[test]
fn even_division_gives_equal_columns() {
    assert_eq!(
        plan_columns(4, 80, 24),
        vec![region(0, 20, 24), region(20, 20, 24), region(40, 20, 24), region(60, 20, 24)]
    );
}

#[test]
fn last_column_takes_the_remainder() {
    assert_eq!(
        plan_columns(3, 100, 30),
        vec![region(0, 33, 30), region(33, 33, 30), region(66, 34, 30)]
    );
    assert_eq!(
        plan_columns(3, 80, 10),
        vec![region(0, 26, 10), region(26, 26, 10), region(52, 28, 10)]
    );
}

#[test]
fn more_columns_than_cells_leaves_the_width_to_the_last() {
    assert_eq!(
        plan_columns(4, 3, 5),
        vec![region(0, 0, 5), region(0, 0, 5), region(0, 0, 5), region(0, 3, 5)]
    );
}

#[test]
fn empty_terminal_gives_empty_columns() {
    assert_eq!(plan_columns(2, 0, 0), vec![region(0, 0, 0), region(0, 0, 0)]);
}

#[test]
fn no_levels_give_no_columns() {
    assert_eq!(plan_columns(0, 80, 24), Vec::new());
}

#[test]
fn widest_terminal_is_divided_without_overflow() {
    let regions = plan_columns(7, u16::MAX, u16::MAX);
    assert_eq!(regions.len(), 7);
    assert_eq!(regions[0], region(0, 9362, u16::MAX));
    assert_eq!(regions[6], region(56172, 9363, u16::MAX));
}

#[test]
fn columns_tile_the_terminal() {
    for count in 1..40usize {
        for width in [0u16, 1, 7, 39, 40, 41, 80, 211] {
            let regions = plan_columns(count, width, 24);
            assert_eq!(regions.len(), count);
            let mut next = 0u16;
            for (i, r) in regions.iter().enumerate() {
                assert_eq!(r.x_start, next);
                assert_eq!(r.height, 24);
                if i + 1 < count {
                    assert_eq!(r.width, width / count as u16);
                }
                next += r.width;
            }
            assert_eq!(next, width);
        }
    }
}
