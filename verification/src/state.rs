//! The mathematical model of the game: the state of a board as plain
//! values, and the transition that each input makes on it.

use crate::cell::{border_row, cell_width, is_piece, middle_row, same_player, CellValue};
use vstd::prelude::*;

verus! {

/// Number of rows, and of columns, of the board.
pub open spec fn side() -> int {
    8
}

/// An input, already decoded from whatever the terminal delivered.
#[derive(PartialEq, Eq, Structural, Copy, Clone, Debug)]
pub enum Input {
    Up,
    Down,
    Left,
    Right,
    Confirm,
    Other,
}

/// A place on the board, by column and row.
pub struct Square {
    pub col: int,
    pub row: int,
}

impl Square {
    pub open spec fn in_bounds(self) -> bool {
        0 <= self.col < side() && 0 <= self.row < side()
    }

    /// The squares that pieces stand and move on: those whose row and
    /// column add up to an odd number.
    pub open spec fn playable(self) -> bool {
        (self.row + self.col) % 2 != 0
    }

    /// The square `rows` rows further down. So that the result is playable
    /// again, the column steps too: back from an odd column, on from an
    /// even one.
    pub open spec fn shifted_vertically(self, rows: int) -> Square {
        Square {
            col: if self.col % 2 == 1 {
                self.col - vstd::math::abs(rows)
            } else {
                self.col + vstd::math::abs(rows)
            },
            row: self.row + rows,
        }
    }

    /// The playable square `steps` places to the right in the same row,
    /// which lies two columns away for every step.
    pub open spec fn shifted_horizontally(self, steps: int) -> Square {
        Square { col: self.col + 2 * steps, row: self.row }
    }

    /// The square halfway between two squares that lie two diagonal steps
    /// apart.
    pub open spec fn midpoint(self, other: Square) -> Square {
        Square { col: (self.col + other.col) / 2, row: (self.row + other.row) / 2 }
    }
}

/// A piece that was picked up and waits for its destination.
pub struct Pick {
    /// Where the piece stands.
    pub from: Square,
    /// The piece.
    pub value: CellValue,
}

/// The state of a board: what each square holds (`cells[row][col]`), where
/// the cursor is, and the piece that was picked up, if any.
pub struct BoardView {
    pub cells: Seq<Seq<CellValue>>,
    pub cursor: Square,
    pub picked: Option<Pick>,
}

/// What a square holds when the game begins: men of one camp on the
/// playable squares of the first two rows, men of the other on those of
/// the last two, nothing on the playable squares between.
pub open spec fn opening_value(row: int, col: int) -> CellValue {
    if (row + col) % 2 == 0 {
        CellValue::Black
    } else if row < 2 {
        CellValue::Red
    } else if row > 5 {
        CellValue::Blue
    } else {
        CellValue::Empty
    }
}

/// Row `part` of a drawn square: the middle row when `part` is 1, the
/// border row otherwise.
pub open spec fn cell_row(value: CellValue, selected: bool, part: int) -> Seq<char> {
    if part == 1 {
        middle_row(value, selected)
    } else {
        border_row(value, selected)
    }
}

impl BoardView {
    /// The board as the game begins, the cursor on the first playable
    /// square of the first row.
    pub open spec fn opening() -> BoardView {
        BoardView {
            cells: Seq::new(8, |row: int| Seq::new(8, |col: int| opening_value(row, col))),
            cursor: Square { col: 1, row: 0 },
            picked: None,
        }
    }

    pub open spec fn value_at(self, square: Square) -> CellValue {
        self.cells[square.row][square.col]
    }

    /// What holds of every board in play.
    ///
    /// The grid is eight by eight. The squares that are not playable hold
    /// `Black`, and no other square does. The cursor is on a playable
    /// square of the board. A picked piece is a piece, and it still stands
    /// on the playable square it was picked from.
    pub open spec fn valid(self) -> bool {
        &&& self.cells.len() == side()
        &&& forall|row: int| 0 <= row < side() ==> (#[trigger] self.cells[row]).len() == side()
        &&& forall|row: int, col: int|
            0 <= row < side() && 0 <= col < side() ==> ((#[trigger] self.cells[row][col]
                == CellValue::Black) <==> !(Square { col, row }).playable())
        &&& self.cursor.in_bounds()
        &&& self.cursor.playable()
        &&& self.picked matches Some(pick) ==> {
            &&& pick.from.in_bounds()
            &&& pick.from.playable()
            &&& is_piece(pick.value)
            &&& self.value_at(pick.from) == pick.value
        }
    }

    /// Text line `part` of board row `row`: the squares of the row side by
    /// side, each drawn with its top, middle or bottom row as `part` is 0,
    /// 1 or 2. The square under the cursor is drawn as selected.
    pub open spec fn line(self, row: int, part: int) -> Seq<char> {
        Seq::new(
            (side() * cell_width()) as nat,
            |i: int|
                {
                    let col = i / cell_width() as int;
                    let selected = self.cursor == (Square { col, row });
                    cell_row(self.cells[row][col], selected, part)[i % cell_width() as int]
                },
        )
    }

    /// The board as text: three lines for each row of the board, from the
    /// first row to the last.
    pub open spec fn frame(self) -> Seq<Seq<char>> {
        Seq::new((3 * side()) as nat, |k: int| self.line(k / 3, k % 3))
    }

    /// The board with `value` on `square`, everything else as it was.
    pub open spec fn with_value(self, square: Square, value: CellValue) -> BoardView {
        BoardView {
            cells: self.cells.update(square.row, self.cells[square.row].update(square.col, value)),
            ..self
        }
    }

    /// The cursor one row down (`rows == 1`) or up (`rows == -1`).
    pub open spec fn move_pointer_y(self, rows: int) -> BoardView {
        if 0 <= self.cursor.row + rows < side() {
            BoardView { cursor: self.cursor.shifted_vertically(rows), ..self }
        } else {
            self
        }
    }

    /// The cursor one playable square to the right (`steps == 1`) or to the
    /// left (`steps == -1`).
    pub open spec fn move_pointer_x(self, steps: int) -> BoardView {
        if 0 <= self.cursor.col + 2 * steps < side() {
            BoardView { cursor: self.cursor.shifted_horizontally(steps), ..self }
        } else {
            self
        }
    }

    /// Picks up the piece under the cursor. Where no piece stands there,
    /// nothing changes.
    pub open spec fn select_cell(self) -> BoardView {
        let value = self.value_at(self.cursor);
        if is_piece(value) {
            BoardView { picked: Some(Pick { from: self.cursor, value }), ..self }
        } else {
            self
        }
    }

    /// Whether the cursor lies `distance` diagonal steps from `from`.
    pub open spec fn diagonal_distance(self, from: Square, distance: int) -> bool {
        vstd::math::abs(self.cursor.col - from.col) == distance && vstd::math::abs(
            self.cursor.row - from.row,
        ) == distance
    }

    /// Whether the picked piece may go to the square under the cursor.
    ///
    /// The destination is one diagonal step away, or two; it is empty; and
    /// a move of two steps does not jump over a piece of the mover's own
    /// camp.
    pub open spec fn move_allowed(self, pick: Pick) -> bool {
        &&& self.diagonal_distance(pick.from, 1) || self.diagonal_distance(pick.from, 2)
        &&& self.diagonal_distance(pick.from, 2) ==> !same_player(
            pick.value,
            self.value_at(self.cursor.midpoint(pick.from)),
        )
        &&& self.value_at(self.cursor) == CellValue::Empty
    }

    /// The picked piece moved to the square under the cursor, and put
    /// down. A move of two steps empties the square that was jumped over.
    /// A move that is not allowed changes nothing, and the piece stays
    /// picked.
    pub open spec fn move_piece(self) -> BoardView {
        match self.picked {
            Some(pick) if self.move_allowed(pick) => {
                let jumped = if self.diagonal_distance(pick.from, 2) {
                    self.with_value(self.cursor.midpoint(pick.from), CellValue::Empty)
                } else {
                    self
                };
                BoardView {
                    picked: None,
                    ..jumped.with_value(pick.from, CellValue::Empty).with_value(
                        self.cursor,
                        pick.value,
                    )
                }
            },
            _ => self,
        }
    }

    /// What confirming does: with no piece picked, it picks the one under
    /// the cursor; with a piece picked, it moves it there.
    pub open spec fn confirm(self) -> BoardView {
        if self.picked is None {
            self.select_cell()
        } else {
            self.move_piece()
        }
    }

    /// The state after one input.
    pub open spec fn apply(self, input: Input) -> BoardView {
        match input {
            Input::Up => self.move_pointer_y(-1),
            Input::Down => self.move_pointer_y(1),
            Input::Left => self.move_pointer_x(-1),
            Input::Right => self.move_pointer_x(1),
            Input::Confirm => self.confirm(),
            Input::Other => self,
        }
    }

    /// The state after a sequence of inputs, applied first to last.
    pub open spec fn run(self, inputs: Seq<Input>) -> BoardView
        decreases inputs.len(),
    {
        if inputs.len() == 0 {
            self
        } else {
            self.run(inputs.drop_last()).apply(inputs.last())
        }
    }
}

/// The input that a key code of the terminal stands for: the four arrow
/// keys, the return key, and anything else.
pub open spec fn decode_key(code: int) -> Input {
    if code == 65 {
        Input::Up
    } else if code == 66 {
        Input::Down
    } else if code == 68 {
        Input::Left
    } else if code == 67 {
        Input::Right
    } else if code == 10 {
        Input::Confirm
    } else {
        Input::Other
    }
}

impl Input {
    /// Decodes a key code of the terminal.
    pub fn from_key(code: i32) -> (input: Input)
        ensures
            input == decode_key(code as int),
    {
        match code {
            65 => Input::Up,
            66 => Input::Down,
            68 => Input::Left,
            67 => Input::Right,
            10 => Input::Confirm,
            _ => Input::Other,
        }
    }
}

} // verus!
