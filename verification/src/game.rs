//! The game state: one board plus the symbol whose turn it is, with
//! turn-taking, win detection over the eight lines, and text rendering.

use crate::board::Board;
use crate::board::BoardIndex;
use crate::board::Sym;
use crate::board::dec_digits;
use crate::board::decimal_string;
use crate::board::empty_board;
use vstd::prelude::*;

verus! {

/// Holds of a line of three cells whose contents are equal and filled.
pub open spec fn line_won(b: Seq<Option<Sym>>, i: int, j: int, k: int) -> bool {
    b[i] is Some && b[i] == b[j] && b[j] == b[k]
}

/// Holds when the given symbol fills one of the eight lines: three rows,
/// three columns, or two diagonals.
pub open spec fn wins(b: Seq<Option<Sym>>, s: Sym) -> bool {
    ||| (b[0] == Some(s) && b[1] == Some(s) && b[2] == Some(s))
    ||| (b[3] == Some(s) && b[4] == Some(s) && b[5] == Some(s))
    ||| (b[6] == Some(s) && b[7] == Some(s) && b[8] == Some(s))
    ||| (b[0] == Some(s) && b[3] == Some(s) && b[6] == Some(s))
    ||| (b[1] == Some(s) && b[4] == Some(s) && b[7] == Some(s))
    ||| (b[2] == Some(s) && b[5] == Some(s) && b[8] == Some(s))
    ||| (b[0] == Some(s) && b[4] == Some(s) && b[8] == Some(s))
    ||| (b[2] == Some(s) && b[4] == Some(s) && b[6] == Some(s))
}

/// The winner a scan of the board reports: rows first, then columns, then
/// diagonals, the first completed line deciding.
pub open spec fn winner_of(b: Seq<Option<Sym>>) -> Option<Sym> {
    if line_won(b, 0, 1, 2) {
        b[0]
    } else if line_won(b, 3, 4, 5) {
        b[3]
    } else if line_won(b, 6, 7, 8) {
        b[6]
    } else if line_won(b, 0, 3, 6) {
        b[0]
    } else if line_won(b, 1, 4, 7) {
        b[1]
    } else if line_won(b, 2, 5, 8) {
        b[2]
    } else if line_won(b, 0, 4, 8) {
        b[0]
    } else if line_won(b, 2, 4, 6) {
        b[2]
    } else {
        None
    }
}

/// The text of one cell: the symbol between single spaces, or three blanks.
pub open spec fn cell_text(c: Option<Sym>) -> Seq<char> {
    match c {
        Some(Sym::Cross) => " X "@,
        Some(Sym::Circle) => " O "@,
        None => "   "@,
    }
}

/// The text of the whole grid: cells separated by "|" within a row and a
/// dash line between rows, with no separator before the first row or after
/// the last.
pub open spec fn board_text(b: Seq<Option<Sym>>) -> Seq<char> {
    cell_text(b[0]) + "|"@ + cell_text(b[1]) + "|"@ + cell_text(b[2]) + "\n-----------\n"@
        + cell_text(b[3]) + "|"@ + cell_text(b[4]) + "|"@ + cell_text(b[5]) + "\n-----------\n"@
        + cell_text(b[6]) + "|"@ + cell_text(b[7]) + "|"@ + cell_text(b[8])
}

/// Represents the game state; holds the current player and the state of the
/// board.
pub struct Game {
    board: Board,
    turn: Sym,
}

/// An error emitted when attempting to play in a position that is already
/// filled.
#[derive(Debug, Clone)]
pub struct GamePositionAlreadyFull(BoardIndex);

/// The text of the error raised by a move onto an occupied cell.
pub open spec fn position_full_message(i: int) -> Seq<char> {
    "Invalid board index "@ + dec_digits(i) + ", already full"@
}

impl GamePositionAlreadyFull {
    /// The index of the occupied cell the error carries.
    pub closed spec fn spec_index(self) -> BoardIndex {
        self.0
    }

    /// Returns the index of the occupied cell the error carries.
    pub fn index(&self) -> (r: BoardIndex)
        ensures
            r == self.spec_index(),
    {
        self.0
    }

    /// Renders the error as text, naming the occupied cell.
    pub fn message(&self) -> (r: String)
        ensures
            r@ == position_full_message(self.spec_index()@),
    {
        let mut s = String::from_str("Invalid board index ");
        let digits = decimal_string(u8::from(self.0));
        s.append(digits.as_str());
        s.append(", already full");
        proof {
            assert(s@ =~= position_full_message(self.spec_index()@));
        }
        s
    }
}

impl Game {
    /// The cells of the game's board in row-major order.
    pub closed spec fn spec_board(self) -> Seq<Option<Sym>> {
        self.board@
    }

    /// The symbol that moves next.
    pub closed spec fn spec_turn(self) -> Sym {
        self.turn
    }

    /// Returns the game's board.
    pub fn board(&self) -> (r: &Board)
        ensures
            r@ == self.spec_board(),
    {
        &self.board
    }

    /// Returns the symbol that moves next.
    pub fn turn(&self) -> (r: Sym)
        ensures
            r == self.spec_turn(),
    {
        self.turn
    }

    /// Places the current turn's symbol at the given index and passes the
    /// turn to the other symbol.
    ///
    /// # Errors
    ///
    /// Returns [`GamePositionAlreadyFull`] when the cell is occupied; the
    /// game is then left unchanged.
    pub fn play_turn(&mut self, idx: BoardIndex) -> (r: Result<(), GamePositionAlreadyFull>)
        ensures
            0 <= idx@ < 9,
            old(self).spec_board()[idx@] is None ==> (r is Ok
                && final(self).spec_board() == old(self).spec_board().update(
                idx@,
                Some(old(self).spec_turn()),
            ) && final(self).spec_turn() == old(self).spec_turn().spec_swapped()),
            old(self).spec_board()[idx@] is Some ==> (r matches Err(e) && e.spec_index() == idx
                && *final(self) == *old(self)),
    {
        if self.board.cell(idx).is_some() {
            return Err(GamePositionAlreadyFull(idx));
        }
        self.board.set_cell(idx, Some(self.turn));
        self.turn.swap();
        Ok(())
    }

    /// The winner a single line reports: its first cell's symbol when the
    /// line is filled by one symbol, and nothing otherwise.
    fn line_winner(board: &Board, a: u8, b: u8, c: u8) -> (r: Option<Sym>)
        requires
            a <= 8,
            b <= 8,
            c <= 8,
        ensures
            r == (if line_won(board@, a as int, b as int, c as int) {
                board@[a as int]
            } else {
                None::<Sym>
            }),
    {
        let x = board.cell(BoardIndex::new_unchecked(a));
        let y = board.cell(BoardIndex::new_unchecked(b));
        let z = board.cell(BoardIndex::new_unchecked(c));
        match (x, y, z) {
            (Some(sx), Some(sy), Some(sz)) => if sx == sy && sy == sz {
                Some(sx)
            } else {
                None
            },
            _ => None,
        }
    }

    /// Returns the player who won the game if it has finished. Otherwise,
    /// returns `None`.
    ///
    /// Scans rows, then columns, then diagonals; the first completed line
    /// decides.
    pub fn has_winner(&self) -> (r: Option<Sym>)
        ensures
            r == winner_of(self.spec_board()),
            r matches Some(s) ==> wins(self.spec_board(), s),
            r is None <==> (!wins(self.spec_board(), Sym::Cross) && !wins(
                self.spec_board(),
                Sym::Circle,
            )),
    {
        let b = &self.board;
        // Lines across:
        if let Some(s) = Self::line_winner(b, 0, 1, 2) {
            return Some(s);
        }
        if let Some(s) = Self::line_winner(b, 3, 4, 5) {
            return Some(s);
        }
        if let Some(s) = Self::line_winner(b, 6, 7, 8) {
            return Some(s);
        }
        // Lines down:
        if let Some(s) = Self::line_winner(b, 0, 3, 6) {
            return Some(s);
        }
        if let Some(s) = Self::line_winner(b, 1, 4, 7) {
            return Some(s);
        }
        if let Some(s) = Self::line_winner(b, 2, 5, 8) {
            return Some(s);
        }
        // The two diagonals:
        if let Some(s) = Self::line_winner(b, 0, 4, 8) {
            return Some(s);
        }
        if let Some(s) = Self::line_winner(b, 2, 4, 6) {
            return Some(s);
        }
        None
    }

    /// Renders the whole grid as text.
    pub fn render(&self) -> (r: String)
        ensures
            r@ == board_text(self.spec_board()),
    {
        let b = &self.board;
        let mut s = String::from_str(Self::cell_str(b.cell(BoardIndex::new_unchecked(0))));
        s.append("|");
        s.append(Self::cell_str(b.cell(BoardIndex::new_unchecked(1))));
        s.append("|");
        s.append(Self::cell_str(b.cell(BoardIndex::new_unchecked(2))));
        s.append("\n-----------\n");
        s.append(Self::cell_str(b.cell(BoardIndex::new_unchecked(3))));
        s.append("|");
        s.append(Self::cell_str(b.cell(BoardIndex::new_unchecked(4))));
        s.append("|");
        s.append(Self::cell_str(b.cell(BoardIndex::new_unchecked(5))));
        s.append("\n-----------\n");
        s.append(Self::cell_str(b.cell(BoardIndex::new_unchecked(6))));
        s.append("|");
        s.append(Self::cell_str(b.cell(BoardIndex::new_unchecked(7))));
        s.append("|");
        s.append(Self::cell_str(b.cell(BoardIndex::new_unchecked(8))));
        proof {
            assert(s@ =~= board_text(self.spec_board()));
        }
        s
    }

    /// The text of one cell of the grid.
    fn cell_str(c: Option<Sym>) -> (r: &'static str)
        ensures
            r@ == cell_text(c),
    {
        match c {
            Some(Sym::Cross) => " X ",
            Some(Sym::Circle) => " O ",
            None => "   ",
        }
    }
}

impl Default for Game {
    /// A fresh match: an empty board, Cross to move.
    fn default() -> (r: Game)
        ensures
            r.spec_board() == empty_board(),
            r.spec_turn() == Sym::Cross,
    {
        Game { board: Board::default(), turn: Sym::Cross }
    }
}

/// On an empty board every valid cell is free, and once a symbol is placed
/// there the same cell is occupied, so a second move at that cell is refused.
pub proof fn lemma_play_exactly_once(i: int, s: Sym)
    requires
        0 <= i < 9,
    ensures
        empty_board()[i] is None,
        empty_board().update(i, Some(s))[i] == Some(s),
        empty_board().update(i, Some(s))[i] is Some,
{
}

/// An empty board has no winner.
pub proof fn lemma_empty_board_no_winner()
    ensures
        winner_of(empty_board()) is None,
{
}

/// A board whose top row is filled with one symbol reports that symbol as
/// the winner.
pub proof fn lemma_top_row_wins(b: Seq<Option<Sym>>, s: Sym)
    requires
        b.len() == 9,
        b[0] == Some(s),
        b[1] == Some(s),
        b[2] == Some(s),
    ensures
        winner_of(b) == Some(s),
{
}

} // verus!
