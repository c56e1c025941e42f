//! How a block is interacted with, and the part of the terminal grid that is
//! handed to the input as context: rows around the cursor, with a marker where
//! the cursor is.
use vstd::prelude::*;

verus! {

/// The user's way of interacting with a block.
#[derive(Debug, Clone)]
pub struct UserMode;

/// How a block is interacted with.
#[derive(Debug, Clone)]
pub enum InteractionMode {
    User(UserMode),
}

impl Default for InteractionMode {
    fn default() -> (r: Self)
        ensures
            r is User,
    {
        InteractionMode::User(UserMode)
    }
}

/// A cell of the terminal grid.
#[derive(Debug, Clone, Copy, PartialEq, Eq, Structural)]
pub struct GridPoint {
    pub row: usize,
    pub col: usize,
}

/// The two stretches of the grid that surround the cursor: from `start` to
/// `before_cursor`, then from `cursor` to `end` (both inclusive).
#[derive(Debug, Clone, Copy, PartialEq, Eq, Structural)]
pub struct InputContextBounds {
    pub start: GridPoint,
    pub before_cursor: GridPoint,
    pub cursor: GridPoint,
    pub end: GridPoint,
    /// Whether the cursor stands at the start of a row, so that a newline
    /// separates the two stretches.
    pub newline_before_cursor: bool,
}

/// `a - b`, or 0 where `b` is larger.
pub open spec fn minus_or_zero(a: int, b: int) -> int {
    if a >= b {
        a - b
    } else {
        0
    }
}

/// The stretches of a grid with `columns` columns, whose last row with content
/// is `max_content_row` and which has `total_rows` rows in all. With a row
/// limit `n`, the context ends at the last content row or `n / 2` rows below
/// the cursor, whichever comes first, on its last column, and begins `n` rows
/// above that, on its first column; without one it is the whole grid. The
/// first stretch ends on the cell before the cursor, which is the last cell of
/// the row above where the cursor is on the first column.
pub open spec fn input_context_bounds(
    cursor: GridPoint,
    columns: usize,
    max_content_row: usize,
    total_rows: usize,
    max_row_count: Option<usize>,
) -> InputContextBounds {
    let max_col = minus_or_zero(columns as int, 1) as usize;
    let (start, end) = match max_row_count {
        Some(n) => {
            let end_row = if max_content_row <= cursor.row + n / 2 {
                max_content_row as int
            } else {
                cursor.row + n / 2
            };
            (
                GridPoint { row: minus_or_zero(end_row, n as int) as usize, col: 0 },
                GridPoint { row: end_row as usize, col: max_col },
            )
        },
        None => (
            GridPoint { row: 0, col: 0 },
            GridPoint { row: minus_or_zero(total_rows as int, 1) as usize, col: max_col },
        ),
    };
    let before_cursor = if cursor.col == 0 {
        GridPoint { row: minus_or_zero(cursor.row as int, 1) as usize, col: max_col }
    } else {
        GridPoint { row: cursor.row, col: (cursor.col - 1) as usize }
    };
    InputContextBounds { start, before_cursor, cursor, end, newline_before_cursor: cursor.col == 0 }
}

/// Computes the stretches of the grid given to the input as context.
pub fn context_bounds_for_input(
    cursor: GridPoint,
    columns: usize,
    max_content_row: usize,
    total_rows: usize,
    max_row_count: Option<usize>,
) -> (r: InputContextBounds)
    requires
        max_row_count matches Some(n) ==> cursor.row + n / 2 <= usize::MAX,
    ensures
        r == input_context_bounds(cursor, columns, max_content_row, total_rows, max_row_count),
{
    let max_col: usize = columns.saturating_sub(1);
    let (start, end) = match max_row_count {
        Some(n) => {
            let below: usize = cursor.row + n / 2;
            let end_row: usize = if max_content_row <= below {
                max_content_row
            } else {
                below
            };
            (GridPoint { row: end_row.saturating_sub(n), col: 0 }, GridPoint { row: end_row, col: max_col })
        },
        None => (GridPoint { row: 0, col: 0 }, GridPoint { row: total_rows.saturating_sub(1), col: max_col }),
    };
    let before_cursor = if cursor.col == 0 {
        GridPoint { row: cursor.row.saturating_sub(1), col: max_col }
    } else {
        GridPoint { row: cursor.row, col: cursor.col - 1 }
    };
    InputContextBounds { start, before_cursor, cursor, end, newline_before_cursor: cursor.col == 0 }
}

/// The context text: the grid text before the cursor, a newline where the
/// cursor is on the first column, the cursor marker, then the grid text from
/// the cursor on.
pub fn input_contents_text(
    bounds: &InputContextBounds,
    before_cursor_text: &str,
    cursor_pattern: &str,
    from_cursor_text: &str,
) -> (r: String)
    ensures
        r@ == before_cursor_text@ + (if bounds.newline_before_cursor {
            seq!['\n']
        } else {
            Seq::<char>::empty()
        }) + cursor_pattern@ + from_cursor_text@,
{
    let mut r = before_cursor_text.to_owned();
    if bounds.newline_before_cursor {
        let nl = "\n";
        proof {
            reveal_strlit("\n");
        }
        r.append(nl);
    }
    r.append(cursor_pattern);
    r.append(from_cursor_text);
    proof {
        if !bounds.newline_before_cursor {
            assert(before_cursor_text@ + Seq::<char>::empty() =~= before_cursor_text@);
        }
    }
    r
}

/// The context never starts after it ends, and, within a row limit, spans at
/// most that many rows after the first.
pub proof fn law_input_context_rows(
    cursor: GridPoint,
    columns: usize,
    max_content_row: usize,
    total_rows: usize,
    max_row_count: Option<usize>,
)
    requires
        max_row_count matches Some(n) ==> cursor.row + n / 2 <= usize::MAX,
    ensures
        ({
            let b = input_context_bounds(cursor, columns, max_content_row, total_rows, max_row_count);
            &&& b.start.row <= b.end.row
            &&& max_row_count matches Some(n) ==> b.end.row - b.start.row <= n
            &&& max_row_count matches Some(n) ==> b.end.row <= max_content_row
            &&& max_row_count matches Some(n) ==> b.end.row <= cursor.row + n / 2
        }),
{
}

/// The stretch before the cursor ends on the cell just before it in reading order: the
/// previous column of its row, or, on the first column, the last column of the row above
/// (where the newline goes); the context ends on the last column, and covers the whole
/// grid when no row limit is given; within a limit it reaches `n / 2` rows below the cursor
/// unless the content ends first, and starts `n` rows above its end (or at the top).
pub proof fn law_input_context_cells(
    cursor: GridPoint,
    columns: usize,
    max_content_row: usize,
    total_rows: usize,
    max_row_count: Option<usize>,
)
    requires
        columns > 0,
    ensures
        ({
            let b = input_context_bounds(cursor, columns, max_content_row, total_rows, max_row_count);
            &&& b.cursor == cursor
            &&& cursor.col > 0 ==> b.before_cursor.row == cursor.row && b.before_cursor.col + 1 == cursor.col
                && !b.newline_before_cursor
            &&& cursor.col == 0 && cursor.row > 0 ==> b.before_cursor.row + 1 == cursor.row
                && b.before_cursor.col + 1 == columns && b.newline_before_cursor
            &&& b.end.col + 1 == columns && b.start.col == 0
            &&& max_row_count is None ==> b.start.row == 0 && (total_rows > 0 ==> b.end.row + 1 == total_rows)
            &&& max_row_count matches Some(n) ==> (b.end.row == max_content_row || b.end.row
                == cursor.row + n / 2)
            &&& max_row_count matches Some(n) ==> (b.start.row == 0 || b.start.row + n == b.end.row)
        }),
{
}

} // verus!
