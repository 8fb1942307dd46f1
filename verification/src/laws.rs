//! What holds of the game in every state of play, stated over the model
//! and proved from its definitions.

use crate::cell::{cell_width, is_piece, same_player, CellValue};
use crate::state::{decode_key, side, BoardView, Input, Pick, Square};
use vstd::prelude::*;

verus! {

/// The board as the game begins is in a state of play.
pub proof fn lemma_opening_is_valid()
    ensures
        BoardView::opening().valid(),
{
}

/// An input leads from a state of play to a state of play.
pub proof fn lemma_apply_preserves_valid(state: BoardView, input: Input)
    requires
        state.valid(),
    ensures
        state.apply(input).valid(),
{
    match input {
        Input::Confirm => {
            if let Some(pick) = state.picked {
                if state.move_allowed(pick) {
                    lemma_move_piece_cells(state, pick);
                }
            }
        },
        _ => {},
    }
}

/// Any sequence of inputs leads from a state of play to a state of play.
pub proof fn lemma_run_preserves_valid(state: BoardView, inputs: Seq<Input>)
    requires
        state.valid(),
    ensures
        state.run(inputs).valid(),
    decreases inputs.len(),
{
    if inputs.len() > 0 {
        lemma_run_preserves_valid(state, inputs.drop_last());
        lemma_apply_preserves_valid(state.run(inputs.drop_last()), inputs.last());
    }
}

/// Whatever the inputs, a square whose row and column add up to an even
/// number holds `Black`, before and after them, and the cursor is never on
/// it.
pub proof fn lemma_unplayable_squares_stay_black(
    state: BoardView,
    inputs: Seq<Input>,
    row: int,
    col: int,
)
    requires
        state.valid(),
        0 <= row < side(),
        0 <= col < side(),
        (row + col) % 2 == 0,
    ensures
        state.cells[row][col] == CellValue::Black,
        state.cursor != (Square { col, row }),
        state.run(inputs).cells[row][col] == CellValue::Black,
        state.run(inputs).cursor != (Square { col, row }),
{
    lemma_run_preserves_valid(state, inputs);
}

/// Whatever the inputs, the cursor stays on the board.
pub proof fn lemma_cursor_stays_on_board(state: BoardView, inputs: Seq<Input>)
    requires
        state.valid(),
    ensures
        state.run(inputs).cursor.in_bounds(),
{
    lemma_run_preserves_valid(state, inputs);
}

/// The square that an arrow input would take the cursor to, on the board
/// or off it.
pub open spec fn arrow_target(state: BoardView, input: Input) -> Square {
    match input {
        Input::Up => state.cursor.shifted_vertically(-1),
        Input::Down => state.cursor.shifted_vertically(1),
        Input::Left => state.cursor.shifted_horizontally(-1),
        Input::Right => state.cursor.shifted_horizontally(1),
        _ => state.cursor,
    }
}

/// An arrow input puts the cursor on its target if that is on the board,
/// and changes nothing at all if it is not. Either way the squares and the
/// picked piece stay as they are.
pub proof fn lemma_arrow_moves_or_does_nothing(state: BoardView, input: Input)
    requires
        state.valid(),
        input != Input::Confirm,
    ensures
        arrow_target(state, input).in_bounds() ==> state.apply(input) == (BoardView {
            cursor: arrow_target(state, input),
            ..state
        }),
        !arrow_target(state, input).in_bounds() ==> state.apply(input) == state,
{
}

/// A step up and a step down undo each other, and so do a step left and a
/// step right, wherever the first of the two does not run into the edge of
/// the board.
pub proof fn lemma_opposite_arrows_cancel(state: BoardView)
    requires
        state.valid(),
    ensures
        state.cursor.row > 0 ==> state.apply(Input::Up).apply(Input::Down) == state,
        state.cursor.row < side() - 1 ==> state.apply(Input::Down).apply(Input::Up) == state,
        state.cursor.col > 1 ==> state.apply(Input::Left).apply(Input::Right) == state,
        state.cursor.col < side() - 2 ==> state.apply(Input::Right).apply(Input::Left) == state,
{
}

/// The board as text has three lines for each of its rows, and every line
/// has the width of a square for each of its columns.
pub proof fn lemma_frame_has_fixed_size(state: BoardView)
    ensures
        state.frame().len() == 3 * side(),
        forall|k: int|
            0 <= k < 3 * side() ==> (#[trigger] state.frame()[k]).len() == side() * cell_width(),
{
}

/// An input that is neither an arrow nor a confirmation changes nothing.
pub proof fn lemma_other_input_changes_nothing(state: BoardView)
    ensures
        state.apply(Input::Other) == state,
{
}

/// A key that is neither an arrow key nor the return key changes nothing.
pub proof fn lemma_unmapped_key_changes_nothing(state: BoardView, code: int)
    requires
        code != 65,
        code != 66,
        code != 67,
        code != 68,
        code != 10,
    ensures
        state.apply(decode_key(code)) == state,
{
}

/// The squares after an allowed move, one by one: the origin is empty, the
/// destination holds the piece, a square that was jumped over is empty, and
/// every other square holds what it held.
proof fn lemma_move_piece_cells(state: BoardView, pick: Pick)
    requires
        state.valid(),
        state.picked == Some(pick),
        state.move_allowed(pick),
    ensures
        state.move_piece().cells.len() == side(),
        state.move_piece().cursor == state.cursor,
        state.move_piece().picked is None,
        forall|row: int| 0 <= row < side() ==> (#[trigger] state.move_piece().cells[row]).len() == side(),
        forall|row: int, col: int|
            0 <= row < side() && 0 <= col < side() ==> #[trigger] state.move_piece().cells[row][col]
                == {
                let here = Square { col, row };
                if here == state.cursor {
                    pick.value
                } else if here == pick.from {
                    CellValue::Empty
                } else if state.diagonal_distance(pick.from, 2) && here == state.cursor.midpoint(
                    pick.from,
                ) {
                    CellValue::Empty
                } else {
                    state.cells[row][col]
                }
            },
        state.diagonal_distance(pick.from, 2) ==> {
            &&& state.cursor.midpoint(pick.from).in_bounds()
            &&& state.cursor.midpoint(pick.from).playable()
            &&& state.cursor.midpoint(pick.from) != state.cursor
            &&& state.cursor.midpoint(pick.from) != pick.from
        },
{
}

/// A picked piece that is confirmed onto an empty square one diagonal step
/// away moves there: its origin is left empty, the destination holds it,
/// no other square changes, the cursor stays, and the piece is put down.
pub proof fn lemma_simple_move(state: BoardView, pick: Pick)
    requires
        state.valid(),
        state.picked == Some(pick),
        state.diagonal_distance(pick.from, 1),
        state.value_at(state.cursor) == CellValue::Empty,
    ensures
        state.apply(Input::Confirm).value_at(pick.from) == CellValue::Empty,
        state.apply(Input::Confirm).value_at(state.cursor) == pick.value,
        forall|row: int, col: int|
            0 <= row < side() && 0 <= col < side() && (Square { col, row }) != pick.from && (Square {
                col,
                row,
            }) != state.cursor ==> #[trigger] state.apply(Input::Confirm).cells[row][col]
                == state.cells[row][col],
        state.apply(Input::Confirm).cursor == state.cursor,
        state.apply(Input::Confirm).picked is None,
{
    lemma_move_piece_cells(state, pick);
}

/// A picked piece that is confirmed onto an empty square two diagonal
/// steps away, over a piece of the other camp, captures it: the square
/// jumped over is left empty, and so is the origin, the destination holds
/// the piece, no other square changes, the cursor stays, and the piece is
/// put down.
pub proof fn lemma_capturing_move(state: BoardView, pick: Pick)
    requires
        state.valid(),
        state.picked == Some(pick),
        state.diagonal_distance(pick.from, 2),
        state.value_at(state.cursor) == CellValue::Empty,
        is_piece(state.value_at(state.cursor.midpoint(pick.from))),
        !same_player(pick.value, state.value_at(state.cursor.midpoint(pick.from))),
    ensures
        state.apply(Input::Confirm).value_at(state.cursor.midpoint(pick.from)) == CellValue::Empty,
        state.apply(Input::Confirm).value_at(pick.from) == CellValue::Empty,
        state.apply(Input::Confirm).value_at(state.cursor) == pick.value,
        forall|row: int, col: int|
            0 <= row < side() && 0 <= col < side() && (Square { col, row }) != pick.from && (Square {
                col,
                row,
            }) != state.cursor && (Square { col, row }) != state.cursor.midpoint(pick.from)
                ==> #[trigger] state.apply(Input::Confirm).cells[row][col] == state.cells[row][col],
        state.apply(Input::Confirm).cursor == state.cursor,
        state.apply(Input::Confirm).picked is None,
{
    lemma_move_piece_cells(state, pick);
}

/// A picked piece that is confirmed two diagonal steps away over a piece
/// of its own camp does not move: nothing changes.
pub proof fn lemma_jump_over_own_piece_is_rejected(state: BoardView, pick: Pick)
    requires
        state.valid(),
        state.picked == Some(pick),
        state.diagonal_distance(pick.from, 2),
        same_player(pick.value, state.value_at(state.cursor.midpoint(pick.from))),
    ensures
        state.apply(Input::Confirm) == state,
{
}

/// A confirmation changes the squares only by an allowed move. Whenever
/// the picked piece may not go where the cursor is, because the distance
/// is wrong, the destination is taken, or one's own piece is in the way,
/// nothing changes.
pub proof fn lemma_rejected_move_changes_nothing(state: BoardView, pick: Pick)
    requires
        state.picked == Some(pick),
        !state.move_allowed(pick),
    ensures
        state.apply(Input::Confirm) == state,
{
}

/// With no piece picked, a confirmation picks up the piece under the
/// cursor and leaves the squares as they are; on an empty square it does
/// nothing.
pub proof fn lemma_confirm_picks_piece(state: BoardView)
    requires
        state.valid(),
        state.picked is None,
    ensures
        state.apply(Input::Confirm).cells == state.cells,
        state.apply(Input::Confirm).cursor == state.cursor,
        is_piece(state.value_at(state.cursor)) ==> state.apply(Input::Confirm).picked == Some(
            Pick { from: state.cursor, value: state.value_at(state.cursor) },
        ),
        state.value_at(state.cursor) == CellValue::Empty ==> state.apply(Input::Confirm) == state,
{
}

} // verus!
