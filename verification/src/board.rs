//! The board itself: the grid of squares, the cursor, and the piece that
//! was picked up, with the operations that inputs trigger.

use crate::cell::{is_same_player, Cell, CellValue};
use crate::state::{decode_key, BoardView, Input, Pick, Square};
use vstd::prelude::*;
use vstd::string::StringExecFns;

verus! {

/// The squares of a board, `grid[row][col]`.
type Grid = [[Cell; 8]; 8];

/// An 8x8 board with its cursor.
///
/// `current_pointer` and `selected_cell` hold a column and a row, in that
/// order. While no piece is picked, `selected_value` is `Black`, a value
/// that no playable square holds.
///
/// Every board is in a state of play (see [`BoardView::valid`]), and
/// exactly the square under its cursor carries the cursor mark.
pub struct Board {
    board: Grid,
    current_pointer: [i8; 2],
    selected_cell: [i8; 2],
    selected_value: CellValue,
}

/// What the squares of a grid hold.
spec fn values_of(grid: Grid) -> Seq<Seq<CellValue>> {
    Seq::new(8, |row: int| Seq::new(8, |col: int| grid[row][col].value()))
}

/// No square of the grid carries the cursor mark.
spec fn unmarked(grid: Grid) -> bool {
    forall|row: int, col: int| 0 <= row < 8 && 0 <= col < 8 ==> !(#[trigger] grid[row][col]).selected()
}

/// The square at `pointer` carries the cursor mark, and no other does.
spec fn marked_at(grid: Grid, pointer: [i8; 2]) -> bool {
    forall|row: int, col: int|
        0 <= row < 8 && 0 <= col < 8 ==> (#[trigger] grid[row][col].selected() <==> (col
            == pointer[0] && row == pointer[1]))
}

/// Column and row of `pointer` are on the board.
spec fn on_board(pointer: [i8; 2]) -> bool {
    0 <= pointer[0] < 8 && 0 <= pointer[1] < 8
}

impl View for Board {
    type V = BoardView;

    closed spec fn view(&self) -> BoardView {
        BoardView {
            cells: values_of(self.board),
            cursor: Square {
                col: self.current_pointer[0] as int,
                row: self.current_pointer[1] as int,
            },
            picked: if self.selected_value == CellValue::Black {
                None
            } else {
                Some(
                    Pick {
                        from: Square {
                            col: self.selected_cell[0] as int,
                            row: self.selected_cell[1] as int,
                        },
                        value: self.selected_value,
                    },
                )
            },
        }
    }
}

impl Board {
    #[verifier::type_invariant]
    spec fn well_formed(&self) -> bool {
        &&& self@.valid()
        &&& marked_at(self.board, self.current_pointer)
    }

    /// The board as the game begins.
    pub fn new() -> (created: Board)
        ensures
            created@ == BoardView::opening(),
            created@.valid(),
    {
        let mut new_board = [[Cell::new(CellValue::Black); 8]; 8];
        for row in 0..8usize
            invariant
                unmarked(new_board),
                forall|r: int, c: int|
                    0 <= r < row && 0 <= c < 8 ==> (#[trigger] new_board[r][c]).value()
                        == crate::state::opening_value(r, c),
                forall|r: int, c: int|
                    row <= r < 8 && 0 <= c < 8 ==> (#[trigger] new_board[r][c]).value()
                        == CellValue::Black,
        {
            for col in 0..8usize
                invariant
                    row < 8,
                    unmarked(new_board),
                    forall|r: int, c: int|
                        0 <= r < row && 0 <= c < 8 ==> (#[trigger] new_board[r][c]).value()
                            == crate::state::opening_value(r, c),
                    forall|c: int|
                        0 <= c < col ==> (#[trigger] new_board[row as int][c]).value()
                            == crate::state::opening_value(row as int, c),
                    forall|c: int|
                        col <= c < 8 ==> (#[trigger] new_board[row as int][c]).value()
                            == CellValue::Black,
                    forall|r: int, c: int|
                        row < r < 8 && 0 <= c < 8 ==> (#[trigger] new_board[r][c]).value()
                            == CellValue::Black,
            {
                if (row + col) % 2 == 0 {
                } else if row < 2 {
                    new_board[row][col].set_value(CellValue::Red);
                } else if row > 5 {
                    new_board[row][col].set_value(CellValue::Blue);
                } else {
                    new_board[row][col].set_value(CellValue::Empty);
                }
            }
        }

        new_board[0][1].set_selected();

        assert(values_of(new_board) =~~= BoardView::opening().cells);
        Board {
            board: new_board,
            current_pointer: [1, 0],
            selected_cell: [0, 0],
            selected_value: CellValue::Black,
        }
    }

    /// Puts the cursor mark on the square at `current_pointer`.
    fn select_current_pointer(board: &mut Grid, current_pointer: [i8; 2])
        requires
            on_board(current_pointer),
            unmarked(*old(board)),
        ensures
            values_of(*final(board)) == values_of(*old(board)),
            marked_at(*final(board), current_pointer),
    {
        let row = current_pointer[1] as usize;
        let col = current_pointer[0] as usize;
        board[row][col].set_selected();
        assert(values_of(*board) =~~= values_of(*old(board)));
    }

    /// Takes the cursor mark off the square at `current_pointer`.
    fn deselect_current_pointer(board: &mut Grid, current_pointer: [i8; 2])
        requires
            on_board(current_pointer),
            marked_at(*old(board), current_pointer),
        ensures
            values_of(*final(board)) == values_of(*old(board)),
            unmarked(*final(board)),
    {
        let row = current_pointer[1] as usize;
        let col = current_pointer[0] as usize;
        board[row][col].set_deselected();
        assert(values_of(*board) =~~= values_of(*old(board)));
    }

    /// Moves the cursor one row down (`value == 1`) or up (`value == -1`),
    /// zig-zagging so that it lands on a playable square. At the edge of
    /// the board it stays where it is.
    fn move_pointer_y(&mut self, value: i8)
        requires
            value == 1 || value == -1,
        ensures
            final(self)@ == old(self)@.move_pointer_y(value as int),
    {
        proof {
            use_type_invariant(&*self);
        }
        let new_y = self.current_pointer[1] + value;
        if new_y > 7 || new_y < 0 {
            return ;
        }
        let mut board = self.board;
        let mut current_pointer = self.current_pointer;
        Self::deselect_current_pointer(&mut board, current_pointer);
        current_pointer[1] = new_y;
        if current_pointer[0] % 2 == 1 {
            current_pointer[0] = current_pointer[0] - magnitude(value);
        } else {
            current_pointer[0] = current_pointer[0] + magnitude(value);
        }
        Self::select_current_pointer(&mut board, current_pointer);
        *self = Board {
            board,
            current_pointer,
            selected_cell: self.selected_cell,
            selected_value: self.selected_value,
        };
    }

    /// Moves the cursor to the next playable square on the right
    /// (`value == 1`) or on the left (`value == -1`) of its row. At the edge
    /// of the board it stays where it is.
    fn move_pointer_x(&mut self, value: i8)
        requires
            value == 1 || value == -1,
        ensures
            final(self)@ == old(self)@.move_pointer_x(value as int),
    {
        proof {
            use_type_invariant(&*self);
        }
        let new_x = self.current_pointer[0] + 2 * value;
        if new_x > 7 || new_x < 0 {
            return ;
        }
        let mut board = self.board;
        let mut current_pointer = self.current_pointer;
        Self::deselect_current_pointer(&mut board, current_pointer);
        current_pointer[0] = new_x;
        Self::select_current_pointer(&mut board, current_pointer);
        *self = Board {
            board,
            current_pointer,
            selected_cell: self.selected_cell,
            selected_value: self.selected_value,
        };
    }

    /// Picks up the piece under the cursor. On an empty square nothing is
    /// picked.
    fn select_cell(&mut self)
        requires
            old(self)@.picked is None,
        ensures
            final(self)@ == old(self)@.select_cell(),
    {
        proof {
            use_type_invariant(&*self);
        }
        let row = self.current_pointer[1] as usize;
        let col = self.current_pointer[0] as usize;
        if !self.board[row][col].holds_piece() {
            return ;
        }
        let current_selected_value = self.board[row][col].get_value();
        *self = Board {
            board: self.board,
            current_pointer: self.current_pointer,
            selected_cell: self.current_pointer,
            selected_value: current_selected_value,
        };
    }

    /// Moves the picked piece to the square under the cursor and puts it
    /// down, if the move is allowed; a move of two steps takes the piece
    /// that was jumped over off the board. A move that is not allowed
    /// leaves the board as it was, the piece still picked.
    fn move_piece(&mut self)
        requires
            old(self)@.picked is Some,
        ensures
            final(self)@ == old(self)@.move_piece(),
    {
        proof {
            use_type_invariant(&*self);
        }
        let diff_x = magnitude(self.current_pointer[0] - self.selected_cell[0]);
        let diff_y = magnitude(self.current_pointer[1] - self.selected_cell[1]);

        if diff_x < 1 || diff_x > 2 || diff_y < 1 || diff_y > 2 || diff_y != diff_x {
            return ;
        }
        let to_row = self.current_pointer[1] as usize;
        let to_col = self.current_pointer[0] as usize;
        if !self.board[to_row][to_col].can_set_value(self.selected_value) {
            return ;
        }
        let mut board = self.board;
        if diff_y == 2 {
            let mid_x = (self.current_pointer[0] + self.selected_cell[0]) / 2;
            let mid_y = (self.current_pointer[1] + self.selected_cell[1]) / 2;
            let mid_row = mid_y as usize;
            let mid_col = mid_x as usize;
            if is_same_player(self.selected_value, board[mid_row][mid_col].get_value()) {
                return ;
            }
            board[mid_row][mid_col].set_value(CellValue::Empty);
        }
        let from_row = self.selected_cell[1] as usize;
        let from_col = self.selected_cell[0] as usize;
        board[from_row][from_col].set_value(CellValue::Empty);
        board[to_row][to_col].set_value(self.selected_value);
        assert(values_of(board) =~~= old(self)@.move_piece().cells);
        *self = Board {
            board,
            current_pointer: self.current_pointer,
            selected_cell: self.selected_cell,
            selected_value: CellValue::Black,
        };
    }

    /// Applies one input: an arrow moves the cursor, a confirmation picks
    /// up the piece under the cursor or moves the picked piece there, and
    /// any other input does nothing.
    pub fn apply_input(&mut self, input: Input)
        ensures
            old(self)@.valid(),
            final(self)@.valid(),
            final(self)@ == old(self)@.apply(input),
    {
        proof {
            use_type_invariant(&*self);
        }
        match input {
            Input::Up => self.move_pointer_y(-1),
            Input::Down => self.move_pointer_y(1),
            Input::Left => self.move_pointer_x(-1),
            Input::Right => self.move_pointer_x(1),
            Input::Confirm => {
                if self.selected_value == CellValue::Black {
                    self.select_cell();
                } else {
                    self.move_piece();
                }
            },
            Input::Other => {},
        }
        proof {
            use_type_invariant(&*self);
        }
    }

    /// Applies the input that the key code `input` stands for.
    pub fn handle_keyboard(&mut self, input: i32)
        ensures
            old(self)@.valid(),
            final(self)@.valid(),
            final(self)@ == old(self)@.apply(decode_key(input as int)),
    {
        self.apply_input(Input::from_key(input));
    }

    /// The square at `row` and `col`, or `None` off the board. The square
    /// under the cursor carries the cursor mark, and no other does.
    pub fn get_cell(&self, row: usize, col: usize) -> (cell: Option<Cell>)
        ensures
            self@.valid(),
            cell is Some <==> row < 8 && col < 8,
            cell matches Some(found) ==> {
                &&& found.value() == self@.cells[row as int][col as int]
                &&& found.selected() <==> self@.cursor == (Square { col: col as int, row: row as int })
            },
    {
        proof {
            use_type_invariant(self);
        }
        if row < 8 && col < 8 {
            Some(self.board[row][col])
        } else {
            None
        }
    }

    /// Column and row of the cursor.
    pub fn pointer(&self) -> (at: (usize, usize))
        ensures
            self@.valid(),
            self@.cursor == (Square { col: at.0 as int, row: at.1 as int }),
    {
        proof {
            use_type_invariant(self);
        }
        (self.current_pointer[0] as usize, self.current_pointer[1] as usize)
    }

    /// The piece that is picked up, with the column and row it stands on.
    pub fn picked(&self) -> (pick: Option<(usize, usize, CellValue)>)
        ensures
            self@.valid(),
            pick is Some <==> self@.picked is Some,
            pick matches Some(found) ==> self@.picked == Some(
                Pick {
                    from: Square { col: found.0 as int, row: found.1 as int },
                    value: found.2,
                },
            ),
    {
        proof {
            use_type_invariant(self);
        }
        if self.selected_value == CellValue::Black {
            None
        } else {
            Some(
                (self.selected_cell[0] as usize, self.selected_cell[1] as usize, self.selected_value),
            )
        }
    }

    /// One text line of a board row: the top or bottom rows of its
    /// squares, or their middle rows, side by side.
    fn render_line(&self, row: usize, middle: bool) -> (line: String)
        requires
            row < 8,
        ensures
            middle ==> line@ == self@.line(row as int, 1),
            !middle ==> line@ == self@.line(row as int, 0),
            !middle ==> line@ == self@.line(row as int, 2),
    {
        proof {
            use_type_invariant(self);
        }
        let ghost part: int = if middle { 1 } else { 0 };
        let mut line = String::new();
        for col in 0..8usize
            invariant
                self@.valid(),
                marked_at(self.board, self.current_pointer),
                row < 8,
                part == if middle { 1int } else { 0int },
                line@.len() == 5 * col,
                forall|i: int| 0 <= i < 5 * col ==> line@[i] == self@.line(row as int, part)[i],
        {
            let cell = &self.board[row][col];
            let text = if middle {
                cell.render_mid()
            } else {
                cell.render_top_or_bottom()
            };
            line.append(text.as_str());
            assert forall|i: int| 0 <= i < 5 * (col + 1) implies line@[i] == self@.line(
                row as int,
                part,
            )[i] by {
                if i >= 5 * col {
                    assert(i / 5 == col as int);
                    assert(i % 5 == i - 5 * col);
                    assert(line@[i] == text@[i - 5 * col]);
                }
            }
        }
        assert(line@ =~= self@.line(row as int, part));
        assert(self@.line(row as int, 0) =~= self@.line(row as int, 2));
        line
    }

    /// The board as text, three lines for each row of the board.
    pub fn render_board(&self) -> (lines: Vec<String>)
        ensures
            self@.valid(),
            lines.deep_view() == self@.frame(),
    {
        proof {
            use_type_invariant(self);
        }
        let mut lines: Vec<String> = Vec::new();
        for row in 0..8usize
            invariant
                lines@.len() == 3 * row,
                forall|k: int| 0 <= k < 3 * row ==> (#[trigger] lines@[k])@ == self@.frame()[k],
        {
            lines.push(self.render_line(row, false));
            lines.push(self.render_line(row, true));
            lines.push(self.render_line(row, false));
        }
        assert(lines.deep_view() =~~= self@.frame());
        lines
    }
}

/// The absolute value of `value`.
fn magnitude(value: i8) -> (result: i8)
    requires
        value > i8::MIN,
    ensures
        result == vstd::math::abs(value as int),
{
    if value < 0 {
        -value
    } else {
        value
    }
}

} // verus!
