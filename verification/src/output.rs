//! The board as a grid of cells, ready to be drawn.

use vstd::prelude::*;
use crate::point::Point;
use crate::state::{GameState, GameStateView};

verus! {

/// What a cell of the board shows.
#[derive(Debug, Clone, Copy, PartialEq, Eq, Structural)]
pub enum Cell {
    /// Nothing.
    Empty,
    /// The food.
    Food,
    /// A part of the snake, drawn as the number of its column.
    Body(i32),
}

/// Whether two parts of the snake lie on `point`.
pub open spec fn doubled(body: Seq<Point>, point: Point) -> bool {
    exists|i: int, j: int|
        0 <= i < j < body.len() && #[trigger] body[i] == point && #[trigger] body[j] == point
}

/// Whether the drawing of the snake in `row` has ended before `column`: in
/// some cell of the row further left, two parts of the snake lie on each
/// other.
pub open spec fn cut_off(body: Seq<Point>, column: int, row: int) -> bool {
    exists|x: int|
        0 <= x < column && #[trigger] doubled(body, Point { x: x as i32, y: row as i32 })
}

/// What the cell in `column` and `row` shows. A cell of the snake shows the
/// snake, whether or not the food lies there too; but a row shows the snake
/// only up to the first cell in which the snake lies on itself, that cell
/// included. Any other cell shows the food if the food lies there.
pub open spec fn cell(state: GameStateView, column: int, row: int) -> Cell {
    let here = Point { x: column as i32, y: row as i32 };
    if state.body.contains(here) && !cut_off(state.body, column, row) {
        Cell::Body(column as i32)
    } else if state.food == here {
        Cell::Food
    } else {
        Cell::Empty
    }
}

/// The cells of `row`, from the left.
pub open spec fn row_cells(state: GameStateView, row: int) -> Seq<Cell> {
    Seq::new(
        if state.width > 0 {
            state.width as nat
        } else {
            0nat
        },
        |column: int| cell(state, column, row),
    )
}

/// The rows of the board, from the top.
pub open spec fn grid(state: GameStateView) -> Seq<Seq<Cell>> {
    Seq::new(
        if state.height > 0 {
            state.height as nat
        } else {
            0nat
        },
        |row: int| row_cells(state, row),
    )
}

/// How many parts of the snake lie on `point`, counted up to two.
fn parts_on(body: &Vec<Point>, point: Point) -> (parts: u8)
    ensures
        parts == 0 <==> !body@.contains(point),
        parts == 2 <==> doubled(body@, point),
        parts <= 2,
{
    let mut parts: u8 = 0;
    let mut index: usize = 0;
    let ghost mut first: int = 0;
    while index < body.len()
        invariant
            index <= body@.len(),
            parts <= 1,
            parts == 0 ==> forall|i: int| 0 <= i < index ==> body@[i] != point,
            parts == 1 ==> 0 <= first < index && body@[first] == point && forall|i: int|
                0 <= i < index && i != first ==> body@[i] != point,
        decreases body@.len() - index,
    {
        if body[index] == point {
            if parts == 1 {
                assert(body@[first] == point && body@[index as int] == point);
                return 2;
            }
            parts = 1;
            proof {
                first = index as int;
            }
        }
        index += 1;
    }
    proof {
        if parts == 1 {
            assert(body@[first] == point);
        }
    }
    parts
}

/// The cells of `row`, from the left.
pub fn world_row(state: &GameState, row: i32) -> (cells: Vec<Cell>)
    ensures
        cells@ == row_cells(state@, row as int),
{
    let mut cells: Vec<Cell> = Vec::new();
    let mut cut: bool = false;
    let mut column: i32 = 0;
    while column < state.width
        invariant
            0 <= column,
            column <= state.width || column == 0,
            cells@.len() == column,
            cut == cut_off(state@.body, column as int, row as int),
            forall|c: int| 0 <= c < column ==> cells@[c] == cell(state@, c, row as int),
        decreases state.width - column,
    {
        let here = Point::new(column, row);
        let parts = parts_on(&state.body, here);
        let shown = if parts > 0 && !cut {
            Cell::Body(column)
        } else if state.food == here {
            Cell::Food
        } else {
            Cell::Empty
        };
        proof {
            let body = state@.body;
            let next = column + 1;
            if cut || parts == 2 {
                let x = if cut {
                    choose|x: int|
                        0 <= x < column && #[trigger] doubled(
                            body,
                            Point { x: x as i32, y: row as i32 },
                        )
                } else {
                    column as int
                };
                assert(doubled(body, Point { x: x as i32, y: row as i32 }));
                assert(cut_off(body, next, row as int));
            } else {
                assert forall|x: int| 0 <= x < next implies !#[trigger] doubled(
                    body,
                    Point { x: x as i32, y: row as i32 },
                ) by {
                    if x < column {
                    }
                }
            }
        }
        cells.push(shown);
        if parts == 2 {
            cut = true;
        }
        column += 1;
    }
    assert(cells@ =~= row_cells(state@, row as int));
    cells
}

/// The rows of the board, from the top, each with its cells from the left.
pub fn world_rows(state: &GameState) -> (rows: Vec<Vec<Cell>>)
    ensures
        rows@.len() == grid(state@).len(),
        forall|row: int| 0 <= row < rows@.len() ==> (#[trigger] rows@[row])@ == grid(state@)[row],
{
    let mut rows: Vec<Vec<Cell>> = Vec::new();
    let mut row: i32 = 0;
    while row < state.height
        invariant
            0 <= row,
            row <= state.height || row == 0,
            rows@.len() == row,
            forall|r: int| 0 <= r < row ==> (#[trigger] rows@[r])@ == row_cells(state@, r),
        decreases state.height - row,
    {
        rows.push(world_row(state, row));
        row += 1;
    }
    rows
}

} // verus!
