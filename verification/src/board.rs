//! The 3x3 board: cells, move application, and win detection.

use vstd::prelude::*;
use vstd::string::*;

verus! {

/// One slot of the board. A cell starts `Empty` and is written at most once:
/// `set` refuses to overwrite a mark.
#[derive(Clone, Copy, PartialEq, Eq, Structural, Debug)]
pub enum Cell {
    Empty,
    O,
    X,
}

/// The two player tokens are the lowercase letters `'o'` and `'x'`.
pub open spec fn valid_player(player: char) -> bool {
    player == 'o' || player == 'x'
}

/// The mark that a valid player token writes into a cell.
pub open spec fn mark_of(player: char) -> Cell
    recommends
        valid_player(player),
{
    if player == 'o' {
        Cell::O
    } else {
        Cell::X
    }
}

impl Default for Cell {
    /// A fresh cell is empty.
    fn default() -> (r: Self)
        ensures
            r == Cell::Empty,
    {
        Cell::Empty
    }
}

impl Cell {
    /// Write a player's mark into this cell. Succeeds exactly when the cell
    /// is still empty and the token is a valid player; any failure leaves the
    /// cell unchanged, so a mark, once placed, is permanent.
    pub fn set(&mut self, value: char) -> (r: bool)
        ensures
            r == (*old(self) == Cell::Empty && valid_player(value)),
            r ==> *final(self) == mark_of(value),
            !r ==> *final(self) == *old(self),
    {
        match *self {
            Cell::Empty => (),
            _ => {
                return false;
            },
        }
        match value {
            'o' => {
                *self = Cell::O;
            },
            'x' => {
                *self = Cell::X;
            },
            _ => {
                return false;
            },
        }
        true
    }
}

/// A position label is a column letter in `{a, b, c}` followed by a row digit
/// in `{0, 1, 2}`, e.g. `"b2"`.
pub open spec fn valid_position(s: Seq<char>) -> bool {
    &&& s.len() == 2
    &&& (s[0] == 'a' || s[0] == 'b' || s[0] == 'c')
    &&& (s[1] == '0' || s[1] == '1' || s[1] == '2')
}

/// Column letter to column number: a -> 0, b -> 1, c -> 2.
pub open spec fn col_index(c: char) -> int
    recommends
        c == 'a' || c == 'b' || c == 'c',
{
    if c == 'a' {
        0
    } else if c == 'b' {
        1
    } else {
        2
    }
}

/// Row digit to row number: '0' -> 0, '1' -> 1, '2' -> 2.
pub open spec fn row_index(c: char) -> int
    recommends
        c == '0' || c == '1' || c == '2',
{
    if c == '0' {
        0
    } else if c == '1' {
        1
    } else {
        2
    }
}

/// Index of a position label in `Board::cells`, row-major: row * 3 + column.
pub open spec fn position_index(s: Seq<char>) -> int
    recommends
        valid_position(s),
{
    3 * row_index(s[1]) + col_index(s[0])
}

/// The nine cells of the grid, addressed by column letter and row digit.
#[derive(Clone, Copy, PartialEq, Eq, Structural, Debug)]
pub struct Board {
    pub a0: Cell,
    pub b0: Cell,
    pub c0: Cell,
    pub a1: Cell,
    pub b1: Cell,
    pub c1: Cell,
    pub a2: Cell,
    pub b2: Cell,
    pub c2: Cell,
}

impl Board {
    /// The cells as a row-major sequence of length 9; `position_index` maps a
    /// position label to its slot here.
    pub open spec fn cells(self) -> Seq<Cell> {
        seq![
            self.a0,
            self.b0,
            self.c0,
            self.a1,
            self.b1,
            self.c1,
            self.a2,
            self.b2,
            self.c2,
        ]
    }

    /// The board with every cell empty.
    pub open spec fn empty() -> Board {
        Board {
            a0: Cell::Empty,
            b0: Cell::Empty,
            c0: Cell::Empty,
            a1: Cell::Empty,
            b1: Cell::Empty,
            c1: Cell::Empty,
            a2: Cell::Empty,
            b2: Cell::Empty,
            c2: Cell::Empty,
        }
    }

    /// A move is allowed exactly when the player token and position label are
    /// valid and the addressed cell is still empty.
    pub open spec fn move_allowed(self, player: char, position: Seq<char>) -> bool {
        &&& valid_player(player)
        &&& valid_position(position)
        &&& self.cells()[position_index(position)] == Cell::Empty
    }

    /// The board after writing mark `m` into the cell addressed by `position`;
    /// every other cell keeps its value.
    pub open spec fn place(self, position: Seq<char>, m: Cell) -> Board
        recommends
            valid_position(position),
    {
        let i = position_index(position);
        if i == 0 {
            Board { a0: m, ..self }
        } else if i == 1 {
            Board { b0: m, ..self }
        } else if i == 2 {
            Board { c0: m, ..self }
        } else if i == 3 {
            Board { a1: m, ..self }
        } else if i == 4 {
            Board { b1: m, ..self }
        } else if i == 5 {
            Board { c1: m, ..self }
        } else if i == 6 {
            Board { a2: m, ..self }
        } else if i == 7 {
            Board { b2: m, ..self }
        } else {
            Board { c2: m, ..self }
        }
    }
}

impl Default for Board {
    /// A fresh board has all nine cells empty.
    fn default() -> (r: Self)
        ensures
            r == Board::empty(),
    {
        Board {
            a0: Cell::Empty,
            b0: Cell::Empty,
            c0: Cell::Empty,
            a1: Cell::Empty,
            b1: Cell::Empty,
            c1: Cell::Empty,
            a2: Cell::Empty,
            b2: Cell::Empty,
            c2: Cell::Empty,
        }
    }
}

impl Board {
    /// Apply one move: write `player`'s mark at `position`. Returns `true`
    /// and updates exactly the addressed cell when the move is allowed;
    /// returns `false` and leaves the whole board unchanged when the player
    /// token is invalid, the position label is invalid, or the cell is
    /// already occupied.
    pub fn process_turn(&mut self, player: char, position: &str) -> (r: bool)
        ensures
            r == old(self).move_allowed(player, position@),
            r ==> *final(self) == old(self).place(position@, mark_of(player)),
            !r ==> *final(self) == *old(self),
    {
        if !(player == 'o' || player == 'x') {
            return false;
        }
        if position.unicode_len() != 2 {
            return false;
        }
        let col = position.get_char(0);
        let row = position.get_char(1);
        if col == 'a' && row == '0' {
            self.a0.set(player)
        } else if col == 'b' && row == '0' {
            self.b0.set(player)
        } else if col == 'c' && row == '0' {
            self.c0.set(player)
        } else if col == 'a' && row == '1' {
            self.a1.set(player)
        } else if col == 'b' && row == '1' {
            self.b1.set(player)
        } else if col == 'c' && row == '1' {
            self.c1.set(player)
        } else if col == 'a' && row == '2' {
            self.a2.set(player)
        } else if col == 'b' && row == '2' {
            self.b2.set(player)
        } else if col == 'c' && row == '2' {
            self.c2.set(player)
        } else {
            false
        }
    }
}

/// A line of three cells is fully marked when all three hold the same
/// non-empty mark.
pub open spec fn full_line(x: Cell, y: Cell, z: Cell) -> bool {
    x != Cell::Empty && y == x && z == x
}

/// The player token owning a mark: O -> 'o', X -> 'x'; an empty cell owns
/// nobody, written as the nul character.
pub open spec fn player_of(m: Cell) -> char {
    match m {
        Cell::Empty => '\0',
        Cell::O => 'o',
        Cell::X => 'x',
    }
}

impl Board {
    /// The eight winning lines in their fixed priority order: the three rows,
    /// the three columns, then the two diagonals.
    pub open spec fn line(self, l: int) -> (Cell, Cell, Cell)
        recommends
            0 <= l < 8,
    {
        if l == 0 {
            (self.a0, self.b0, self.c0)
        } else if l == 1 {
            (self.a1, self.b1, self.c1)
        } else if l == 2 {
            (self.a2, self.b2, self.c2)
        } else if l == 3 {
            (self.a0, self.a1, self.a2)
        } else if l == 4 {
            (self.b0, self.b1, self.b2)
        } else if l == 5 {
            (self.c0, self.c1, self.c2)
        } else if l == 6 {
            (self.a0, self.b1, self.c2)
        } else {
            (self.a2, self.b1, self.c0)
        }
    }

    /// Whether line `l` is fully marked by one player.
    pub open spec fn line_full(self, l: int) -> bool
        recommends
            0 <= l < 8,
    {
        full_line(self.line(l).0, self.line(l).1, self.line(l).2)
    }

    /// The winner of the board: the owner of the first fully marked line in
    /// the fixed priority order, or the nul character when no line is full.
    pub open spec fn winner(self) -> char {
        if self.line_full(0) {
            player_of(self.a0)
        } else if self.line_full(1) {
            player_of(self.a1)
        } else if self.line_full(2) {
            player_of(self.a2)
        } else if self.line_full(3) {
            player_of(self.a0)
        } else if self.line_full(4) {
            player_of(self.b0)
        } else if self.line_full(5) {
            player_of(self.c0)
        } else if self.line_full(6) {
            player_of(self.a0)
        } else if self.line_full(7) {
            player_of(self.a2)
        } else {
            '\0'
        }
    }

    /// Evaluate the eight winning lines in the fixed priority order and
    /// return `'o'` or `'x'` for the owner of the first fully marked line,
    /// or the nul character when no line is fully marked. Move count plays
    /// no part here.
    pub fn get_state(&self) -> (r: char)
        ensures
            r == self.winner(),
    {
        if self.a0 != Cell::Empty && self.b0 == self.a0 && self.c0 == self.a0 {
            player_char(self.a0)
        } else if self.a1 != Cell::Empty && self.b1 == self.a1 && self.c1 == self.a1 {
            player_char(self.a1)
        } else if self.a2 != Cell::Empty && self.b2 == self.a2 && self.c2 == self.a2 {
            player_char(self.a2)
        } else if self.a0 != Cell::Empty && self.a1 == self.a0 && self.a2 == self.a0 {
            player_char(self.a0)
        } else if self.b0 != Cell::Empty && self.b1 == self.b0 && self.b2 == self.b0 {
            player_char(self.b0)
        } else if self.c0 != Cell::Empty && self.c1 == self.c0 && self.c2 == self.c0 {
            player_char(self.c0)
        } else if self.a0 != Cell::Empty && self.b1 == self.a0 && self.c2 == self.a0 {
            player_char(self.a0)
        } else if self.a2 != Cell::Empty && self.b1 == self.a2 && self.c0 == self.a2 {
            player_char(self.a2)
        } else {
            '\0'
        }
    }
}

impl Cell {
    /// The one-character text of a cell: a blank for an empty cell, the
    /// player's uppercase letter otherwise.
    pub open spec fn symbol_spec(self) -> Seq<char> {
        match self {
            Cell::Empty => " "@,
            Cell::O => "O"@,
            Cell::X => "X"@,
        }
    }

    /// The text a cell shows in the rendered grid.
    pub fn symbol(&self) -> (r: &'static str)
        ensures
            r@ == self.symbol_spec(),
    {
        match *self {
            Cell::Empty => " ",
            Cell::O => "O",
            Cell::X => "X",
        }
    }
}

impl Board {
    /// The rendered grid: a column-header line, then one line per row,
    /// labelled 0 to 2, with each cell's symbol.
    pub open spec fn render_spec(self) -> Seq<char> {
        "  A B C\n0 "@ + self.a0.symbol_spec() + " "@ + self.b0.symbol_spec() + " "@
            + self.c0.symbol_spec() + "\n1 "@ + self.a1.symbol_spec() + " "@
            + self.b1.symbol_spec() + " "@ + self.c1.symbol_spec() + "\n2 "@
            + self.a2.symbol_spec() + " "@ + self.b2.symbol_spec() + " "@ + self.c2.symbol_spec()
            + "\n"@
    }

    /// Produce the human-readable grid text. Pure: displaying it is the
    /// caller's concern.
    pub fn render(&self) -> (r: String)
        ensures
            r@ == self.render_spec(),
    {
        let mut s = String::from_str("  A B C\n0 ");
        s.append(self.a0.symbol());
        s.append(" ");
        s.append(self.b0.symbol());
        s.append(" ");
        s.append(self.c0.symbol());
        s.append("\n1 ");
        s.append(self.a1.symbol());
        s.append(" ");
        s.append(self.b1.symbol());
        s.append(" ");
        s.append(self.c1.symbol());
        s.append("\n2 ");
        s.append(self.a2.symbol());
        s.append(" ");
        s.append(self.b2.symbol());
        s.append(" ");
        s.append(self.c2.symbol());
        s.append("\n");
        proof {
            assert(s@ =~= self.render_spec());
        }
        s
    }
}

/// The player token owning a non-empty mark, as executable code.
fn player_char(m: Cell) -> (r: char)
    ensures
        r == player_of(m),
{
    match m {
        Cell::Empty => '\0',
        Cell::O => 'o',
        Cell::X => 'x',
    }
}

/// Each cell is written at most once: a move by a valid player to a valid,
/// still-empty position is allowed and writes that player's mark there,
/// touching no other cell; afterwards no move by any player to the same
/// position is allowed again.
pub proof fn lemma_move_write_once(b: Board, mover: char, later: char, position: Seq<char>)
    requires
        valid_player(mover),
        valid_position(position),
        b.cells()[position_index(position)] == Cell::Empty,
    ensures
        b.move_allowed(mover, position),
        b.place(position, mark_of(mover)).cells()[position_index(position)] == mark_of(mover),
        forall|j: int|
            0 <= j < 9 && j != position_index(position) ==> b.place(
                position,
                mark_of(mover),
            ).cells()[j] == b.cells()[j],
        !b.place(position, mark_of(mover)).move_allowed(later, position),
{
}

/// A move with a player token outside {o, x} is never allowed, whatever the
/// board and position; `process_turn` therefore rejects it and leaves the
/// board unchanged.
pub proof fn lemma_invalid_player_rejected(b: Board, player: char, position: Seq<char>)
    requires
        !valid_player(player),
    ensures
        !b.move_allowed(player, position),
{
}

/// A move with a position label outside the nine valid labels is never
/// allowed, whatever the board and player; `process_turn` therefore rejects
/// it and leaves the board unchanged.
pub proof fn lemma_invalid_position_rejected(b: Board, player: char, position: Seq<char>)
    requires
        !valid_position(position),
    ensures
        !b.move_allowed(player, position),
{
}

/// The board has a winner exactly when some line is fully marked; in
/// particular, a board with no fully marked line — the empty board among
/// them — has none.
pub proof fn lemma_winner_iff_full_line(b: Board)
    ensures
        (b.winner() != '\0') <==> (exists|l: int| 0 <= l < 8 && b.line_full(l)),
        b == Board::empty() ==> b.winner() == '\0',
{
    if b.winner() != '\0' {
        if b.line_full(0) {
            assert(0 <= 0 < 8 && b.line_full(0));
        } else if b.line_full(1) {
            assert(0 <= 1 < 8 && b.line_full(1));
        } else if b.line_full(2) {
            assert(0 <= 2 < 8 && b.line_full(2));
        } else if b.line_full(3) {
            assert(0 <= 3 < 8 && b.line_full(3));
        } else if b.line_full(4) {
            assert(0 <= 4 < 8 && b.line_full(4));
        } else if b.line_full(5) {
            assert(0 <= 5 < 8 && b.line_full(5));
        } else if b.line_full(6) {
            assert(0 <= 6 < 8 && b.line_full(6));
        } else {
            assert(b.line_full(7));
        }
    }
}

/// When exactly one line is fully marked, the winner is the owner of that
/// line's marks, whichever of the eight lines it is.
pub proof fn lemma_single_full_line_winner(b: Board, l: int)
    requires
        0 <= l < 8,
        b.line_full(l),
        forall|k: int| 0 <= k < 8 && k != l ==> !b.line_full(k),
    ensures
        b.winner() == player_of(b.line(l).0),
        b.winner() != '\0',
{
    assert forall|k: int| 0 <= k < l implies !b.line_full(k) by {
        assert(k != l);
    }
}

} // verus!
