//! The game controller: the current player, the cursor and the messages, and
//! how each input event changes them.

use vstd::prelude::*;
use vstd::string::*;
use crate::cursor::{Direction, valid_pos, pos_index, moved, move_selection};
use crate::field::{Field, Player, PlacementError, first_win, is_full, player_name};
use crate::render::board_text;

verus! {

/// An input event, already sorted from the raw key.
#[derive(Clone, Copy, Debug, PartialEq, Eq, Structural)]
pub enum Input {
    /// A directional key.
    Move(Direction),
    /// The key that places the current player's marker at the cursor.
    Confirm,
    /// Any other key.
    Other,
}

/// Where the game stands.
#[derive(Clone, Copy, Debug, PartialEq, Eq, Structural)]
pub enum Phase {
    /// No outcome yet: the current player picks a cell.
    Selecting,
    /// The player has completed a line.
    Won(Player),
    /// The board is full without a complete line.
    Tied,
}

/// The phase of a board: a win comes before a tie.
pub open spec fn outcome(cells: Seq<Player>) -> Phase {
    match first_win(cells) {
        Some((p, _)) => Phase::Won(p),
        None => if is_full(cells) {
            Phase::Tied
        } else {
            Phase::Selecting
        },
    }
}

/// The other player.
pub open spec fn opponent(p: Player) -> Player {
    match p {
        Player::Cross => Player::Nought,
        Player::Nought => Player::Cross,
        Player::Empty => Player::Empty,
    }
}

/// The headline shown in `phase` with `player` to move.
pub open spec fn message_text(phase: Phase, player: Player) -> Seq<char> {
    match phase {
        Phase::Won(p) => player_name(p) + " won!"@,
        Phase::Tied => "Tie!"@,
        Phase::Selecting => if player == Player::Cross {
            "Cross' move"@
        } else {
            "Nought's move"@
        },
    }
}

/// The game as seen by contracts.
pub struct GameView {
    /// The nine cells, row by row.
    pub cells: Seq<Player>,
    /// The highlighted position.
    pub cursor: (isize, isize),
    /// The player to move.
    pub player: Player,
    /// The line shown below the board while selecting.
    pub sub_message: Seq<char>,
}

/// One game: the board, the cursor, the player to move and the line below
/// the board.
pub struct Game {
    field: Field,
    cursor: (isize, isize),
    player: Player,
    sub_message: String,
}

impl View for Game {
    type V = GameView;

    closed spec fn view(&self) -> GameView {
        GameView {
            cells: self.field@.cells,
            cursor: self.cursor,
            player: self.player,
            sub_message: self.sub_message@,
        }
    }
}

impl Game {
    /// A well-formed board, the cursor on it, and a player to move.
    pub closed spec fn wf(&self) -> bool {
        &&& self.field.wf()
        &&& valid_pos(self.cursor)
        &&& (self.player == Player::Cross || self.player == Player::Nought)
    }

    /// A new game: an empty board, Cross to move, the cursor at (1, 1).
    pub fn new() -> (r: Game)
        ensures
            r.wf(),
            r@.cells == Seq::new(9, |i: int| Player::Empty),
            r@.cursor == (1isize, 1isize),
            r@.player == Player::Cross,
            r@.sub_message == Seq::<char>::empty(),
            outcome(r@.cells) == Phase::Selecting,
    {
        Game { field: Field::default(), cursor: (1, 1), player: Player::Cross, sub_message: String::new() }
    }

    /// The winner and winning line, if a line is complete.
    pub fn winner(&mut self) -> (r: Option<(Player, [usize; 3])>)
        requires
            old(self).wf(),
        ensures
            final(self).wf(),
            final(self)@ == old(self)@,
            match r {
                Some((p, l)) => first_win(old(self)@.cells) == Some((p, l@)),
                None => first_win(old(self)@.cells) is None,
            },
    {
        self.field.evaluate_win()
    }

    /// The highlighted position.
    pub fn cursor(&self) -> (r: (isize, isize))
        ensures
            r == self@.cursor,
    {
        self.cursor
    }

    /// The player to move.
    pub fn player(&self) -> (r: Player)
        ensures
            r == self@.player,
    {
        self.player
    }

    /// The phase of the game: `Won` once a line is complete, else `Tied` once
    /// the board is full, else `Selecting`.
    pub fn phase(&mut self) -> (r: Phase)
        requires
            old(self).wf(),
        ensures
            final(self).wf(),
            final(self)@ == old(self)@,
            r == outcome(old(self)@.cells),
    {
        if self.field.check_won() {
            Phase::Won(*self.field.who_won())
        } else if self.field.check_tie() {
            Phase::Tied
        } else {
            Phase::Selecting
        }
    }

    /// The headline: "<player> won!", "Tie!", or whose move it is.
    pub fn message(&mut self) -> (r: String)
        requires
            old(self).wf(),
        ensures
            final(self).wf(),
            final(self)@ == old(self)@,
            r@ == message_text(outcome(old(self)@.cells), old(self)@.player),
    {
        match self.phase() {
            Phase::Won(p) => {
                let mut s = String::from_str(p.name());
                s.append(" won!");
                s
            },
            Phase::Tied => String::from_str("Tie!"),
            Phase::Selecting => if self.player == Player::Cross {
                String::from_str("Cross' move")
            } else {
                String::from_str("Nought's move")
            },
        }
    }

    /// The board text, with the cursor highlighted while selecting.
    pub fn board(&mut self) -> (r: String)
        requires
            old(self).wf(),
        ensures
            final(self).wf(),
            final(self)@ == old(self)@,
            r@ == board_text(
                old(self)@.cells,
                if outcome(old(self)@.cells) == Phase::Selecting {
                    Some(old(self)@.cursor)
                } else {
                    None
                },
            ),
    {
        if self.phase() == Phase::Selecting {
            self.field.make_field(Some(self.cursor))
        } else {
            self.field.make_field(None)
        }
    }

    /// The line below the board: the last placement's complaint while
    /// selecting, "Press any key to exit." once the game has concluded.
    pub fn sub_message(&mut self) -> (r: String)
        requires
            old(self).wf(),
        ensures
            final(self).wf(),
            final(self)@ == old(self)@,
            outcome(old(self)@.cells) == Phase::Selecting ==> r@ == old(self)@.sub_message,
            outcome(old(self)@.cells) != Phase::Selecting ==> r@ == "Press any key to exit."@,
    {
        if self.phase() == Phase::Selecting {
            self.sub_message.clone()
        } else {
            String::from_str("Press any key to exit.")
        }
    }

    /// Applies one input event. While selecting, a direction moves the
    /// cursor, confirm places the current player's marker at the cursor (and
    /// passes the move on success, or complains that the cell is taken), and
    /// any other key does nothing; the result is true. Once the game has
    /// concluded, any event ends the run: the result is false and nothing
    /// changes.
    pub fn handle(&mut self, input: Input) -> (r: bool)
        requires
            old(self).wf(),
        ensures
            final(self).wf(),
            r == (outcome(old(self)@.cells) == Phase::Selecting),
            !r ==> final(self)@ == old(self)@,
            r ==> match input {
                Input::Move(d) => final(self)@ == (GameView { cursor: moved(old(self)@.cursor, d), ..old(self)@ }),
                Input::Confirm => if old(self)@.cells[pos_index(old(self)@.cursor)] != Player::Empty {
                    final(self)@ == (GameView { sub_message: "Field already selected"@, ..old(self)@ })
                } else {
                    final(self)@ == (GameView {
                        cells: old(self)@.cells.update(pos_index(old(self)@.cursor), old(self)@.player),
                        player: opponent(old(self)@.player),
                        sub_message: Seq::empty(),
                        ..old(self)@
                    })
                },
                Input::Other => final(self)@ == old(self)@,
            },
    {
        if self.phase() != Phase::Selecting {
            return false;
        }
        match input {
            Input::Move(d) => {
                self.cursor = move_selection(self.cursor, d);
            },
            Input::Confirm => {
                match self.field.place(self.cursor, self.player) {
                    Ok(()) => {
                        self.sub_message = String::new();
                        self.player = if self.player == Player::Cross {
                            Player::Nought
                        } else {
                            Player::Cross
                        };
                    },
                    Err(PlacementError::AlreadyOccupied) => {
                        self.sub_message = String::from_str("Field already selected");
                    },
                    Err(PlacementError::GameConcluded) => {},
                }
            },
            Input::Other => {},
        }
        true
    }
}

} // verus!
