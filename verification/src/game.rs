//! Turn progression and overall game state on top of the board.

use vstd::prelude::*;
use vstd::string::*;
use crate::board::Board;
use crate::board::mark_of;
use crate::board::valid_player;

verus! {

/// The overall state of a game. `InProgress` is the initial state; the other
/// three are terminal: once reached, the engine never leaves them.
#[derive(Clone, Copy, PartialEq, Eq, Structural, Debug)]
pub enum State {
    InProgress,
    Stalemate,
    VictoryO,
    VictoryX,
}

impl Default for State {
    /// A game starts in progress.
    fn default() -> (r: Self)
        ensures
            r == State::InProgress,
    {
        State::InProgress
    }
}

impl State {
    /// The outcome text of a state.
    pub open spec fn message_spec(self) -> Seq<char> {
        match self {
            State::InProgress => "in progress"@,
            State::Stalemate => "stalemate"@,
            State::VictoryO => "o wins"@,
            State::VictoryX => "x wins"@,
        }
    }

    /// The outcome text shown to players when the game ends (or "in
    /// progress" while it has not).
    pub fn message(&self) -> (r: String)
        ensures
            r@ == self.message_spec(),
    {
        match *self {
            State::InProgress => String::from_str("in progress"),
            State::Stalemate => String::from_str("stalemate"),
            State::VictoryO => String::from_str("o wins"),
            State::VictoryX => String::from_str("x wins"),
        }
    }
}

/// The active player for a 1-based turn number, by parity: odd turns belong
/// to x (who therefore moves first, on turn 1), even turns to o.
pub open spec fn player_for_turn(turn: int) -> char {
    if turn % 2 == 0 {
        'o'
    } else {
        'x'
    }
}

/// The game state after one accepted move: an already-terminal state is kept
/// as it is; otherwise a fully marked line decides victory — checked before
/// the turn-count ceiling, so a win on the final move counts as a win, not a
/// stalemate — and only then a turn counter past 9 (all cells filled) gives
/// a stalemate.
pub open spec fn step_state(board: Board, turn: int, state: State) -> State {
    if state != State::InProgress {
        state
    } else if board.winner() == 'o' {
        State::VictoryO
    } else if board.winner() == 'x' {
        State::VictoryX
    } else if turn > 9 {
        State::Stalemate
    } else {
        State::InProgress
    }
}

/// The active player alternates strictly by turn parity: x moves on turn 1,
/// and consecutive turns always belong to different players, each of them a
/// valid player token.
pub proof fn lemma_player_alternates(turn: int)
    requires
        turn >= 1,
    ensures
        player_for_turn(1) == 'x',
        player_for_turn(turn) != player_for_turn(turn + 1),
        valid_player(player_for_turn(turn)),
{
}

/// Terminal states are sinks: once a game has reached stalemate or a
/// victory, recomputing the state changes nothing, whatever the board and
/// turn counter say.
pub proof fn lemma_terminal_state_sink(board: Board, turn: int, state: State)
    requires
        state != State::InProgress,
    ensures
        step_state(board, turn, state) == state,
{
}

/// One game: a board, the overall state, and a 1-based turn counter that
/// advances once per accepted move.
pub struct Game {
    pub board: Board,
    pub state: State,
    pub turn: i32,
}

impl Game {
    /// Well-formedness, established at construction and preserved by every
    /// mutation: the turn counter stays within its nine-move reach, and a
    /// game still in progress has moves left.
    pub open spec fn wf(self) -> bool {
        &&& 1 <= self.turn <= 10
        &&& self.state == State::InProgress ==> self.turn <= 9
    }
}

impl Default for Game {
    /// A fresh game: empty board, in progress, turn 1.
    fn default() -> (r: Self)
        ensures
            r.board == Board::empty(),
            r.state == State::InProgress,
            r.turn == 1,
            r.wf(),
    {
        Game { board: Board::default(), state: State::default(), turn: 1 }
    }
}

impl Game {
    /// The player whose move the current turn is, from the turn counter's
    /// parity alone.
    pub fn get_player(&self) -> (r: char)
        requires
            self.turn >= 0,
        ensures
            r == player_for_turn(self.turn as int),
            valid_player(r),
    {
        match self.turn % 2 {
            0 => 'o',
            _ => 'x',
        }
    }

    /// Recompute the overall state from the board's winner and the turn
    /// counter, as `step_state` describes. Board and turn counter are left
    /// untouched; a terminal state is never overwritten.
    pub fn set_state(&mut self)
        ensures
            final(self).board == old(self).board,
            final(self).turn == old(self).turn,
            final(self).state == step_state(old(self).board, old(self).turn as int, old(self).state),
    {
        if self.state == State::InProgress {
            let w = self.board.get_state();
            if w == 'o' {
                self.state = State::VictoryO;
            } else if w == 'x' {
                self.state = State::VictoryX;
            } else if self.turn > 9 {
                self.state = State::Stalemate;
            }
        }
    }

    /// Attempt the current turn with the candidate position `position` for
    /// the active player. If the board accepts the move, the turn counter
    /// advances and the overall state is recomputed (win first, then the
    /// nine-move ceiling); if the board rejects it — invalid label or
    /// occupied cell — nothing changes and the caller re-prompts. Reading
    /// the position from the player is the caller's concern.
    pub fn take_turn(&mut self, position: &str) -> (r: bool)
        requires
            old(self).wf(),
            old(self).state == State::InProgress,
        ensures
            final(self).wf(),
            r == old(self).board.move_allowed(
                player_for_turn(old(self).turn as int),
                position@,
            ),
            !r ==> *final(self) == *old(self),
            r ==> final(self).board == old(self).board.place(
                position@,
                mark_of(player_for_turn(old(self).turn as int)),
            ),
            r ==> final(self).turn == old(self).turn + 1,
            r ==> final(self).state == step_state(
                final(self).board,
                old(self).turn + 1,
                State::InProgress,
            ),
    {
        let player = self.get_player();
        if self.board.process_turn(player, position) {
            self.turn = self.turn + 1;
            self.set_state();
            true
        } else {
            false
        }
    }
}

} // verus!
