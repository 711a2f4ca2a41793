//! The board-level pieces of the game: the two player symbols, the validated
//! cell index, the 3x3 grid itself, and the error raised by an out-of-range
//! index conversion.

use vstd::prelude::*;

verus! {

/// Represents one of the two symbols used for playing tic-tac-toe.
#[derive(Debug, Clone, Copy, PartialEq, Eq, Structural)]
pub enum Sym {
    /// A "cross" or "X".
    Cross,
    /// A "circle" or "O".
    Circle,
}

impl Sym {
    /// The opposite symbol: Cross and Circle exchange places.
    pub open spec fn spec_swapped(self) -> Sym {
        match self {
            Sym::Cross => Sym::Circle,
            Sym::Circle => Sym::Cross,
        }
    }

    /// The one-character text of the symbol: "X" for Cross, "O" for Circle.
    pub open spec fn spec_text(self) -> Seq<char> {
        match self {
            Sym::Cross => "X"@,
            Sym::Circle => "O"@,
        }
    }

    /// Swaps the held symbol in place.
    pub fn swap(&mut self)
        ensures
            *final(self) == old(self).spec_swapped(),
    {
        match self {
            Sym::Cross => {
                *self = Sym::Circle;
            },
            Sym::Circle => {
                *self = Sym::Cross;
            },
        }
    }

    /// Renders the symbol as text: Cross as "X", Circle as "O".
    pub fn text(&self) -> (r: &'static str)
        ensures
            r@ == self.spec_text(),
    {
        match self {
            Sym::Cross => "X",
            Sym::Circle => "O",
        }
    }
}

impl Default for Sym {
    /// The symbol that opens a match: Cross.
    fn default() -> (r: Sym)
        ensures
            r == Sym::Cross,
    {
        Sym::Cross
    }
}

/// The text of a decimal digit, for digits 0 through 9.
pub open spec fn digit_char(d: int) -> char {
    if d == 0 {
        '0'
    } else if d == 1 {
        '1'
    } else if d == 2 {
        '2'
    } else if d == 3 {
        '3'
    } else if d == 4 {
        '4'
    } else if d == 5 {
        '5'
    } else if d == 6 {
        '6'
    } else if d == 7 {
        '7'
    } else if d == 8 {
        '8'
    } else {
        '9'
    }
}

/// The decimal rendering of a non-negative integer, most significant digit
/// first, with no leading zeroes (a lone zero renders as "0").
pub open spec fn dec_digits(n: int) -> Seq<char>
    decreases n,
{
    if n < 10 {
        seq![digit_char(n)]
    } else {
        dec_digits(n / 10).push(digit_char(n % 10))
    }
}

/// The one-character text of a single decimal digit.
pub(crate) fn digit_str(d: u8) -> (r: &'static str)
    requires
        d <= 9,
    ensures
        r@ == seq![digit_char(d as int)],
{
    let r: &'static str = if d == 0 {
        "0"
    } else if d == 1 {
        "1"
    } else if d == 2 {
        "2"
    } else if d == 3 {
        "3"
    } else if d == 4 {
        "4"
    } else if d == 5 {
        "5"
    } else if d == 6 {
        "6"
    } else if d == 7 {
        "7"
    } else if d == 8 {
        "8"
    } else {
        "9"
    };
    proof {
        reveal_strlit("0");
        reveal_strlit("1");
        reveal_strlit("2");
        reveal_strlit("3");
        reveal_strlit("4");
        reveal_strlit("5");
        reveal_strlit("6");
        reveal_strlit("7");
        reveal_strlit("8");
        reveal_strlit("9");
        assert(r@ =~= seq![digit_char(d as int)]);
    }
    r
}

/// The decimal text of a byte value, most significant digit first.
pub(crate) fn decimal_string(v: u8) -> (r: String)
    ensures
        r@ == dec_digits(v as int),
{
    let mut s = String::new();
    if v >= 100 {
        s.append(digit_str(v / 100));
        s.append(digit_str((v / 10) % 10));
        s.append(digit_str(v % 10));
        proof {
            let n = v as int;
            assert((n / 10) / 10 == n / 100) by (nonlinear_arith)
                requires
                    n >= 0,
            ;
            assert(dec_digits(n / 100) =~= seq![digit_char(n / 100)]);
            assert(dec_digits(n / 10) =~= seq![digit_char(n / 100), digit_char((n / 10) % 10)]);
            assert(s@ =~= dec_digits(v as int));
        }
    } else if v >= 10 {
        s.append(digit_str(v / 10));
        s.append(digit_str(v % 10));
        proof {
            let n = v as int;
            assert(dec_digits(n / 10) =~= seq![digit_char(n / 10)]);
            assert(s@ =~= dec_digits(v as int));
        }
    } else {
        s.append(digit_str(v));
        proof {
            assert(s@ =~= dec_digits(v as int));
        }
    }
    s
}

/// An index of a cell in a tic-tac-toe grid.
///
/// Guaranteed to be in the range of `0..=8`.
///
/// Indexes the grid left-to-right, top-to-bottom such that the top-left cell
/// is indexed with 0 and the bottom-right is indexed with 8.
#[derive(Debug, Clone, Copy, PartialEq, Eq, Structural, PartialOrd, Ord)]
pub struct BoardIndex(u8);

impl View for BoardIndex {
    type V = int;

    /// The wrapped cell number.
    closed spec fn view(&self) -> int {
        self.0 as int
    }
}

impl BoardIndex {
    #[verifier::type_invariant]
    spec fn inv(self) -> bool {
        self.0 <= 8
    }

    /// Constructs a new instance of [`BoardIndex`].
    ///
    /// # Errors
    ///
    /// Returns [`BoardIndexOutOfBoundsError`] if `value` is out of bounds.
    pub fn new(value: u8) -> (r: Result<BoardIndex, BoardIndexOutOfBoundsError>)
        ensures
            value <= 8 ==> (r matches Ok(i) && i@ == value as int),
            value > 8 ==> (r matches Err(e) && e.spec_value() == value),
    {
        if value > 8 {
            Err(BoardIndexOutOfBoundsError(value))
        } else {
            Ok(BoardIndex(value))
        }
    }

    /// Constructs a new instance of [`BoardIndex`] without a run-time bounds
    /// check; callers must establish that `value` is a valid cell number.
    pub fn new_unchecked(value: u8) -> (r: BoardIndex)
        requires
            value <= 8,
        ensures
            r@ == value as int,
    {
        BoardIndex(value)
    }
}

impl Default for BoardIndex {
    /// The index of the top-left cell.
    fn default() -> (r: BoardIndex)
        ensures
            r@ == 0,
    {
        BoardIndex(0)
    }
}

impl TryFrom<u8> for BoardIndex {
    type Error = BoardIndexOutOfBoundsError;

    /// The checked conversion from a bare cell number, as [`BoardIndex::new`].
    fn try_from(value: u8) -> (r: Result<BoardIndex, BoardIndexOutOfBoundsError>)
        ensures
            value <= 8 ==> (r matches Ok(i) && i@ == value as int),
            value > 8 ==> (r matches Err(e) && e.spec_value() == value),
    {
        if value > 8 {
            Err(BoardIndexOutOfBoundsError(value))
        } else {
            Ok(BoardIndex(value))
        }
    }
}

impl vstd::std_specs::convert::TryFromSpecImpl<u8> for BoardIndex {
    closed spec fn obeys_try_from_spec() -> bool {
        true
    }

    closed spec fn try_from_spec(v: u8) -> Result<BoardIndex, BoardIndexOutOfBoundsError> {
        if v > 8 {
            Err(BoardIndexOutOfBoundsError(v))
        } else {
            Ok(BoardIndex(v))
        }
    }
}

impl From<BoardIndex> for u8 {
    /// The conversion back to the bare cell number; it is total.
    fn from(value: BoardIndex) -> (r: u8)
        ensures
            r as int == value@,
            r <= 8,
    {
        proof {
            use_type_invariant(value);
        }
        value.0
    }
}

impl vstd::std_specs::convert::FromSpecImpl<BoardIndex> for u8 {
    open spec fn obeys_from_spec() -> bool {
        true
    }

    open spec fn from_spec(value: BoardIndex) -> u8 {
        value@ as u8
    }
}

/// A valid cell number, made into a board index, converts back to itself.
pub proof fn lemma_index_round_trip(v: u8, i: BoardIndex)
    requires
        v <= 8,
        i@ == v as int,
    ensures
        <u8 as vstd::std_specs::convert::FromSpec<BoardIndex>>::from_spec(i) == v,
{
}

/// Error emitted when attempting to perform an invalid [`BoardIndex`]
/// conversion.
#[derive(Debug, Clone)]
pub struct BoardIndexOutOfBoundsError(u8);

/// The text of the error raised by an out-of-range index conversion.
pub open spec fn out_of_bounds_message(v: u8) -> Seq<char> {
    "Invalid index: "@ + dec_digits(v as int) + ". A board index must be in the range of 0..9."@
}

impl BoardIndexOutOfBoundsError {
    /// The rejected cell number the error carries.
    pub closed spec fn spec_value(self) -> u8 {
        self.0
    }

    /// Returns the rejected cell number the error carries.
    pub fn value(&self) -> (r: u8)
        ensures
            r == self.spec_value(),
    {
        self.0
    }

    /// Renders the error as text, naming the rejected cell number.
    pub fn message(&self) -> (r: String)
        ensures
            r@ == out_of_bounds_message(self.spec_value()),
    {
        let mut s = String::from_str("Invalid index: ");
        let digits = decimal_string(self.0);
        s.append(digits.as_str());
        s.append(". A board index must be in the range of 0..9.");
        s
    }
}

impl From<u8> for BoardIndexOutOfBoundsError {
    /// Wraps a rejected cell number.
    fn from(value: u8) -> (r: BoardIndexOutOfBoundsError)
        ensures
            r.spec_value() == value,
    {
        BoardIndexOutOfBoundsError(value)
    }
}

impl vstd::std_specs::convert::FromSpecImpl<u8> for BoardIndexOutOfBoundsError {
    closed spec fn obeys_from_spec() -> bool {
        true
    }

    closed spec fn from_spec(value: u8) -> BoardIndexOutOfBoundsError {
        BoardIndexOutOfBoundsError(value)
    }
}

/// A board with every cell empty.
pub open spec fn empty_board() -> Seq<Option<Sym>> {
    Seq::new(9, |i: int| None)
}

/// Represents the 3x3 grid on which tic-tac-toe is played.
///
/// Does not provide any additional logic, e.g. preventing invalid states:
/// occupancy rules live in the game, not here.
#[derive(Debug, Clone)]
pub struct Board([Option<Sym>; 9]);

impl View for Board {
    type V = Seq<Option<Sym>>;

    /// The cells of the grid in row-major order.
    closed spec fn view(&self) -> Seq<Option<Sym>> {
        self.0@
    }
}

impl Board {
    /// A board always holds exactly nine cells.
    pub proof fn lemma_len(&self)
        ensures
            self@.len() == 9,
    {
    }

    /// Returns the underlying game grid.
    pub fn get(&self) -> (r: &[Option<Sym>; 9])
        ensures
            r@ == self@,
    {
        &self.0
    }

    /// Returns the content of one cell.
    pub fn cell(&self, index: BoardIndex) -> (r: Option<Sym>)
        ensures
            0 <= index@ < 9,
            r == self@[index@],
    {
        proof {
            use_type_invariant(index);
        }
        self.0[index.0 as usize]
    }

    /// Overwrites one cell with the given content.
    pub fn set_cell(&mut self, index: BoardIndex, value: Option<Sym>)
        ensures
            0 <= index@ < 9,
            final(self)@ == old(self)@.update(index@, value),
    {
        proof {
            use_type_invariant(index);
        }
        self.0[index.0 as usize] = value;
    }
}

impl Default for Board {
    /// The empty grid.
    fn default() -> (r: Board)
        ensures
            r@ == empty_board(),
    {
        let b = Board([None, None, None, None, None, None, None, None, None]);
        proof {
            assert(b@ =~= empty_board());
        }
        b
    }
}

} // verus!
