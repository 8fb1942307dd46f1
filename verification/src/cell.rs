//! A single square of the board: what it holds, whether the cursor rests on
//! it, and the three text rows it is drawn with.

use vstd::prelude::*;
use vstd::string::StringExecFns;

verus! {

/// What a square holds.
///
/// `Black` marks a square that is never played on; `Empty` is a playable
/// square without a piece. `Red` and `Blue` are the men of the two camps,
/// `RedKing` and `BlueKing` their kings.
#[derive(PartialEq, Eq, Structural, Copy, Clone, Debug)]
pub enum CellValue {
    Black,
    Empty,
    Red,
    Blue,
    RedKing,
    BlueKing,
}

/// One of the two sides. A man and the king of its colour share a camp.
#[derive(PartialEq, Eq, Structural, Copy, Clone, Debug)]
pub enum Camp {
    Red,
    Blue,
}

/// The camp a value belongs to; `Black` and `Empty` belong to none.
pub open spec fn camp_of(v: CellValue) -> Option<Camp> {
    match v {
        CellValue::Red | CellValue::RedKing => Some(Camp::Red),
        CellValue::Blue | CellValue::BlueKing => Some(Camp::Blue),
        CellValue::Black | CellValue::Empty => None,
    }
}

/// A value is a piece when it belongs to a camp.
pub open spec fn is_piece(v: CellValue) -> bool {
    camp_of(v) is Some
}

/// Two values are of the same type when they are equal or are the man and
/// the king of one colour.
pub open spec fn same_type(a: CellValue, b: CellValue) -> bool {
    a == b || (is_piece(a) && camp_of(a) == camp_of(b))
}

/// Two values belong to the same player when both are pieces of one camp.
pub open spec fn same_player(a: CellValue, b: CellValue) -> bool {
    is_piece(a) && camp_of(a) == camp_of(b)
}

/// The character a value is drawn with.
pub open spec fn glyph(v: CellValue) -> char {
    match v {
        CellValue::Red => 'x',
        CellValue::RedKing => 'X',
        CellValue::Blue => 'o',
        CellValue::BlueKing => 'O',
        CellValue::Empty => ' ',
        CellValue::Black => '#',
    }
}

/// Width of a drawn square, in characters.
pub open spec fn cell_width() -> nat {
    5
}

/// The top row of a drawn square, which is also its bottom row: solid for a
/// `Black` square, dashed under the cursor, blank otherwise.
pub open spec fn border_row(v: CellValue, selected: bool) -> Seq<char> {
    if v == CellValue::Black {
        seq!['#', '#', '#', '#', '#']
    } else if selected {
        seq![' ', '-', '-', '-', ' ']
    } else {
        seq![' ', ' ', ' ', ' ', ' ']
    }
}

/// The middle row of a drawn square: solid for a `Black` square, otherwise
/// the glyph of the value, framed by bars under the cursor.
pub open spec fn middle_row(v: CellValue, selected: bool) -> Seq<char> {
    if v == CellValue::Black {
        seq!['#', '#', '#', '#', '#']
    } else if selected {
        seq!['|', ' ', glyph(v), ' ', '|']
    } else {
        seq![' ', ' ', glyph(v), ' ', ' ']
    }
}

/// Every drawn row of a square has the same width.
pub proof fn lemma_rows_have_cell_width(v: CellValue, selected: bool)
    ensures
        border_row(v, selected).len() == cell_width(),
        middle_row(v, selected).len() == cell_width(),
{
}

fn is_same_type_cellvalue(a: CellValue, b: CellValue) -> (same: bool)
    ensures
        same == same_type(a, b),
{
    if a == b {
        return true;
    }
    if (a == CellValue::Red && b == CellValue::RedKing) || (b == CellValue::Red && a
        == CellValue::RedKing) || (a == CellValue::Blue && b == CellValue::BlueKing) || (b
        == CellValue::Blue && a == CellValue::BlueKing) {
        return true;
    }
    false
}

/// Whether `a` and `b` are pieces of one camp. `Black` and `Empty` are on
/// nobody's side, not even their own.
pub fn is_same_player(a: CellValue, b: CellValue) -> (same: bool)
    ensures
        same == same_player(a, b),
{
    if a == CellValue::Black || b == CellValue::Black || a == CellValue::Empty || b
        == CellValue::Empty {
        return false;
    }
    is_same_type_cellvalue(a, b)
}

/// A square: its value, and whether the cursor rests on it. The flag only
/// matters for drawing.
#[derive(Copy, Clone, Debug)]
pub struct Cell {
    value: CellValue,
    is_selected: bool,
}

impl Cell {
    /// The value the square holds.
    pub closed spec fn value(&self) -> CellValue {
        self.value
    }

    /// Whether the square is marked as being under the cursor.
    pub closed spec fn selected(&self) -> bool {
        self.is_selected
    }

    /// A square holding `value`, not under the cursor.
    pub fn new(value: CellValue) -> (cell: Cell)
        ensures
            cell.value() == value,
            !cell.selected(),
    {
        Cell { value, is_selected: false }
    }

    /// Overwrites the value, whatever it was. The cursor mark stays.
    pub fn set_value(&mut self, value: CellValue)
        ensures
            final(self).value() == value,
            final(self).selected() == old(self).selected(),
    {
        self.value = value;
    }

    pub fn get_value(&self) -> (value: CellValue)
        ensures
            value == self.value(),
    {
        self.value
    }

    /// Whether a piece can be put on this square: only an `Empty` square
    /// takes one. The answer does not depend on which piece is offered.
    pub fn can_set_value(&self, value: CellValue) -> (accepts: bool)
        ensures
            accepts == (self.value() == CellValue::Empty),
    {
        if self.value == CellValue::Black {
            return false;
        }
        if self.value == CellValue::Empty {
            return true;
        }
        false
    }

    /// Whether a piece stands on this square.
    pub fn holds_piece(&self) -> (held: bool)
        ensures
            held == is_piece(self.value()),
    {
        match self.value {
            CellValue::Black | CellValue::Empty => false,
            _ => true,
        }
    }

    pub fn set_selected(&mut self)
        ensures
            final(self).selected(),
            final(self).value() == old(self).value(),
    {
        self.is_selected = true;
    }

    pub fn set_deselected(&mut self)
        ensures
            !final(self).selected(),
            final(self).value() == old(self).value(),
    {
        self.is_selected = false;
    }

    pub fn is_selected(&self) -> (selected: bool)
        ensures
            selected == self.selected(),
    {
        self.is_selected
    }

    /// The text of the square's top row, and of its bottom row.
    pub fn render_top_or_bottom(&self) -> (row: String)
        ensures
            row@ == border_row(self.value(), self.selected()),
    {
        proof {
            reveal_strlit("#####");
            reveal_strlit(" --- ");
            reveal_strlit("     ");
        }
        let row = match self.value {
            CellValue::Black => String::from_str("#####"),
            _ => {
                if self.is_selected {
                    String::from_str(" --- ")
                } else {
                    String::from_str("     ")
                }
            },
        };
        assert(row@ =~= border_row(self.value(), self.selected()));
        row
    }

    /// The text of the square's middle row.
    pub fn render_mid(&self) -> (row: String)
        ensures
            row@ == middle_row(self.value(), self.selected()),
    {
        proof {
            reveal_strlit("#####");
            reveal_strlit("| ");
            reveal_strlit(" |");
            reveal_strlit("  ");
        }
        let row = match self.value {
            CellValue::Black => String::from_str("#####"),
            _ => {
                let cell_string = self.render_cell_value();
                if self.is_selected {
                    let mut row = String::from_str("| ");
                    row.append(cell_string.as_str());
                    row.append(" |");
                    row
                } else {
                    let mut row = String::from_str("  ");
                    row.append(cell_string.as_str());
                    row.append("  ");
                    row
                }
            },
        };
        assert(row@ =~= middle_row(self.value(), self.selected()));
        row
    }

    /// The one-character text of the square's value.
    pub fn render_cell_value(&self) -> (text: String)
        ensures
            text@ == seq![glyph(self.value())],
    {
        proof {
            reveal_strlit("x");
            reveal_strlit("X");
            reveal_strlit("o");
            reveal_strlit("O");
            reveal_strlit(" ");
            reveal_strlit("#");
        }
        let text = match self.value {
            CellValue::Red => String::from_str("x"),
            CellValue::RedKing => String::from_str("X"),
            CellValue::Blue => String::from_str("o"),
            CellValue::BlueKing => String::from_str("O"),
            CellValue::Empty => String::from_str(" "),
            _ => String::from_str("#"),
        };
        assert(text@ =~= seq![glyph(self.value())]);
        text
    }
}

} // verus!
