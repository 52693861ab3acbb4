//! The 3×3 board: cells, placement rules, and win and tie detection.

use vstd::prelude::*;
use crate::cursor::{valid_pos, pos_index};

verus! {

/// What a cell holds; `Cross` and `Nought` are also the two players.
#[derive(Clone, Copy, Debug, PartialEq, Eq, Structural)]
pub enum Player {
    Empty,
    Cross,
    Nought,
}

/// Why a placement was refused.
#[derive(Clone, Copy, Debug, PartialEq, Eq, Structural)]
pub enum PlacementError {
    /// The target cell already holds a marker.
    AlreadyOccupied,
    /// A line is already complete; the game is over.
    GameConcluded,
}

/// The display name of a player.
pub open spec fn player_name(p: Player) -> Seq<char> {
    match p {
        Player::Cross => "Cross"@,
        Player::Nought => "Nought"@,
        Player::Empty => "_"@,
    }
}

impl Player {
    /// The display name: "Cross", "Nought", or "_" for an empty cell.
    pub fn name(&self) -> (r: &'static str)
        ensures
            r@ == player_name(*self),
    {
        match self {
            Player::Cross => "Cross",
            Player::Nought => "Nought",
            Player::Empty => "_",
        }
    }
}

/// The `k`-th winning line as three cell indices: rows top to bottom, then
/// columns left to right, then the two diagonals.
pub open spec fn line(k: int) -> Seq<usize> {
    if k == 0 {
        seq![0usize, 1, 2]
    } else if k == 1 {
        seq![3usize, 4, 5]
    } else if k == 2 {
        seq![6usize, 7, 8]
    } else if k == 3 {
        seq![0usize, 3, 6]
    } else if k == 4 {
        seq![1usize, 4, 7]
    } else if k == 5 {
        seq![2usize, 5, 8]
    } else if k == 6 {
        seq![0usize, 4, 8]
    } else {
        seq![2usize, 4, 6]
    }
}

/// Line `k` holds the same player in all three of its cells.
pub open spec fn completes(cells: Seq<Player>, k: int) -> bool {
    let l = line(k);
    &&& cells[l[0] as int] != Player::Empty
    &&& cells[l[0] as int] == cells[l[1] as int]
    &&& cells[l[1] as int] == cells[l[2] as int]
}

/// The first complete line among lines `k..8`, with its player.
pub open spec fn first_win_from(cells: Seq<Player>, k: int) -> Option<(Player, Seq<usize>)>
    decreases 8 - k,
{
    if k >= 8 || k < 0 {
        None
    } else if completes(cells, k) {
        Some((cells[line(k)[0] as int], line(k)))
    } else {
        first_win_from(cells, k + 1)
    }
}

/// The winner of a board and its line: the first complete line in the fixed
/// order of `line`, if any.
pub open spec fn first_win(cells: Seq<Player>) -> Option<(Player, Seq<usize>)> {
    first_win_from(cells, 0)
}

/// No cell is empty.
pub open spec fn is_full(cells: Seq<Player>) -> bool {
    forall|i: int| 0 <= i < cells.len() ==> cells[i] != Player::Empty
}

/// Scanning from line `j` finds line `k` when `k` is complete and no line in
/// `j..k` is.
proof fn lemma_scan_reaches(cells: Seq<Player>, j: int, k: int)
    requires
        0 <= j <= k < 8,
        completes(cells, k),
        forall|i: int| j <= i < k ==> !completes(cells, i),
    ensures
        first_win_from(cells, j) == Some((cells[line(k)[0] as int], line(k))),
    decreases k - j,
{
    if j < k {
        lemma_scan_reaches(cells, j + 1, k);
    }
}

/// Scanning from line `j` finds nothing when no line in `j..8` is complete.
proof fn lemma_scan_finds_none(cells: Seq<Player>, j: int)
    requires
        0 <= j <= 8,
        forall|i: int| j <= i < 8 ==> !completes(cells, i),
    ensures
        first_win_from(cells, j) is None,
    decreases 8 - j,
{
    if j < 8 {
        lemma_scan_finds_none(cells, j + 1);
    }
}

/// A board whose line `k` holds one player in all three cells is won by that
/// player with line `k`, unless a line earlier in the fixed order (rows, then
/// columns, then diagonals) is complete too.
pub proof fn lemma_complete_line_wins(cells: Seq<Player>, k: int)
    requires
        cells.len() == 9,
        0 <= k < 8,
        completes(cells, k),
        forall|j: int| 0 <= j < k ==> !completes(cells, j),
    ensures
        first_win(cells) == Some((cells[line(k)[0] as int], line(k))),
        cells[line(k)[0] as int] != Player::Empty,
{
    lemma_scan_reaches(cells, 0, k);
}

/// A full board without a complete line has no winner and is a tie.
pub proof fn lemma_full_board_without_line_ties(cells: Seq<Player>)
    requires
        cells.len() == 9,
        is_full(cells),
        forall|k: int| 0 <= k < 8 ==> !completes(cells, k),
    ensures
        first_win(cells) is None,
        is_full(cells),
{
    lemma_scan_finds_none(cells, 0);
}

/// The board as seen by contracts.
pub struct FieldView {
    /// The nine cells, row by row.
    pub cells: Seq<Player>,
    /// Whether a win has been recorded.
    pub won: bool,
    /// The recorded winner, `Empty` while none is recorded.
    pub winner: Player,
    /// The recorded winning line.
    pub combination: Seq<usize>,
}

/// The board, with the outcome recorded once a win has been found.
pub struct Field {
    field: [Player; 9],
    won: bool,
    who_won: Player,
    won_combination: [usize; 3],
}

impl View for Field {
    type V = FieldView;

    closed spec fn view(&self) -> FieldView {
        FieldView {
            cells: self.field@,
            won: self.won,
            winner: self.who_won,
            combination: self.won_combination@,
        }
    }
}

/// The `k`-th winning line.
fn combination(k: usize) -> (r: [usize; 3])
    requires
        k < 8,
    ensures
        r@ == line(k as int),
{
    let r: [usize; 3] = if k == 0 {
        [0, 1, 2]
    } else if k == 1 {
        [3, 4, 5]
    } else if k == 2 {
        [6, 7, 8]
    } else if k == 3 {
        [0, 3, 6]
    } else if k == 4 {
        [1, 4, 7]
    } else if k == 5 {
        [2, 5, 8]
    } else if k == 6 {
        [0, 4, 8]
    } else {
        [2, 4, 6]
    };
    assert(r@ =~= line(k as int));
    r
}

impl Default for Field {
    /// An empty board with no outcome recorded.
    fn default() -> (r: Field)
        ensures
            r.wf(),
            r@.cells == Seq::new(9, |i: int| Player::Empty),
            !r@.won,
            first_win(r@.cells) is None,
            !is_full(r@.cells),
    {
        let r = Field {
            field: [Player::Empty; 9],
            won: false,
            who_won: Player::Empty,
            won_combination: [0, 0, 0],
        };
        assert(r@.cells =~= Seq::new(9, |i: int| Player::Empty));
        proof {
            lemma_scan_finds_none(r@.cells, 0);
        }
        r
    }
}

impl Field {
    /// Nine cells; a recorded win is the board's first complete line.
    pub open spec fn wf(&self) -> bool {
        &&& self@.cells.len() == 9
        &&& self@.won ==> first_win(self@.cells) == Some((self@.winner, self@.combination))
        &&& !self@.won ==> self@.winner == Player::Empty
    }

    /// The cell at `position`.
    pub fn get_player(&self, position: (isize, isize)) -> (r: &Player)
        requires
            self.wf(),
            valid_pos(position),
        ensures
            *r == self@.cells[pos_index(position)],
    {
        let i: usize = ((position.0 - 1) * 3 + (position.1 - 1)) as usize;
        &self.field[i]
    }

    /// Scans the lines in order and records the first complete one. Once a
    /// win is recorded it is returned without a new scan.
    pub fn check_won(&mut self) -> (r: bool)
        requires
            old(self).wf(),
        ensures
            final(self).wf(),
            final(self)@.cells == old(self)@.cells,
            r == first_win(old(self)@.cells) is Some,
            final(self)@.won == r,
    {
        if self.won {
            return true;
        }
        let mut k: usize = 0;
        while k < 8
            invariant
                0 <= k <= 8,
                self.wf(),
                !self@.won,
                self@.cells == old(self)@.cells,
                first_win(self@.cells) == first_win_from(self@.cells, k as int),
            decreases 8 - k,
        {
            let v = combination(k);
            let a = self.field[v[0]];
            let b = self.field[v[1]];
            let c = self.field[v[2]];
            if a != Player::Empty && a == b && b == c {
                self.won = true;
                self.who_won = a;
                self.won_combination = v;
                return true;
            }
            k = k + 1;
        }
        false
    }

    /// Whether no cell is empty. This does not look for a win: a full board
    /// with a complete line is a win, so callers check `check_won` first.
    pub fn check_tie(&mut self) -> (r: bool)
        requires
            old(self).wf(),
        ensures
            *final(self) == *old(self),
            r == is_full(old(self)@.cells),
    {
        let mut i: usize = 0;
        while i < 9
            invariant
                0 <= i <= 9,
                self.wf(),
                forall|j: int| 0 <= j < i ==> self@.cells[j] != Player::Empty,
            decreases 9 - i,
        {
            if self.field[i] == Player::Empty {
                return false;
            }
            i = i + 1;
        }
        true
    }

    /// The recorded winner, `Empty` while no win is recorded.
    pub fn who_won(&self) -> (r: &Player)
        requires
            self.wf(),
        ensures
            *r == self@.winner,
            self@.won ==> (first_win(self@.cells) matches Some((p, _)) && *r == p),
            !self@.won ==> *r == Player::Empty,
    {
        &self.who_won
    }

    /// The winner and winning line of the board, if a line is complete.
    pub fn evaluate_win(&mut self) -> (r: Option<(Player, [usize; 3])>)
        requires
            old(self).wf(),
        ensures
            final(self).wf(),
            final(self)@.cells == old(self)@.cells,
            match r {
                Some((p, l)) => first_win(old(self)@.cells) == Some((p, l@)),
                None => first_win(old(self)@.cells) is None,
            },
    {
        if self.check_won() {
            Some((self.who_won, self.won_combination))
        } else {
            None
        }
    }

    /// Writes `player` into the cell at `position`. Refused with
    /// `AlreadyOccupied` when the cell is not empty, else with `GameConcluded`
    /// when the board already has a complete line; a refusal leaves the
    /// cells as they were.
    pub fn place(&mut self, position: (isize, isize), player: Player) -> (r: Result<(), PlacementError>)
        requires
            old(self).wf(),
            valid_pos(position),
        ensures
            final(self).wf(),
            old(self)@.cells[pos_index(position)] != Player::Empty ==> r == Err::<(), PlacementError>(PlacementError::AlreadyOccupied),
            old(self)@.cells[pos_index(position)] == Player::Empty && first_win(old(self)@.cells) is Some
                ==> r == Err::<(), PlacementError>(PlacementError::GameConcluded),
            r is Ok <==> old(self)@.cells[pos_index(position)] == Player::Empty && first_win(old(self)@.cells) is None,
            r is Ok ==> final(self)@.cells == old(self)@.cells.update(pos_index(position), player),
            r is Err ==> final(self)@.cells == old(self)@.cells,
    {
        let won = self.check_won();
        if *self.get_player(position) != Player::Empty {
            return Err(PlacementError::AlreadyOccupied);
        }
        if won {
            return Err(PlacementError::GameConcluded);
        }
        let i: usize = ((position.0 - 1) * 3 + (position.1 - 1)) as usize;
        self.field[i] = player;
        Ok(())
    }

    /// Writes `player` into the cell at `position`; false, with the board
    /// unchanged, when `place` refuses.
    pub fn set_player(&mut self, position: (isize, isize), player: Player) -> (r: bool)
        requires
            old(self).wf(),
            valid_pos(position),
        ensures
            final(self).wf(),
            r <==> old(self)@.cells[pos_index(position)] == Player::Empty && first_win(old(self)@.cells) is None,
            r ==> final(self)@.cells == old(self)@.cells.update(pos_index(position), player),
            !r ==> final(self)@.cells == old(self)@.cells,
    {
        match self.place(position, player) {
            Ok(()) => true,
            Err(_) => false,
        }
    }
}

} // verus!
