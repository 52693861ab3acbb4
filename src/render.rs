//! The fixed-layout text of a board, with an optional highlighted cell.

use vstd::prelude::*;
use vstd::string::*;
use crate::cursor::{valid_pos, pos_index};
use crate::field::{Field, Player};

verus! {

/// Text row `tr` (0, 1 or 2) of a cell holding `p`.
pub open spec fn cell_text(p: Player, tr: int) -> Seq<char> {
    match p {
        Player::Cross => if tr == 1 { "  00  "@ } else { "00  00"@ },
        Player::Nought => if tr == 1 { "00  00"@ } else { "  00  "@ },
        Player::Empty => "      "@,
    }
}

/// `s` with every space replaced by `#`.
pub open spec fn highlighted(s: Seq<char>) -> Seq<char> {
    s.map_values(|c: char| if c == ' ' { '#' } else { c })
}

/// Cell `i` is the one at the selected position.
pub open spec fn is_selected(sel: Option<(isize, isize)>, i: int) -> bool {
    sel matches Some(p) && pos_index(p) == i
}

/// Text row `tr` of cell `i`, highlighted when it is selected.
pub open spec fn cell_row_text(cells: Seq<Player>, sel: Option<(isize, isize)>, i: int, tr: int) -> Seq<char> {
    if is_selected(sel, i) {
        highlighted(cell_text(cells[i], tr))
    } else {
        cell_text(cells[i], tr)
    }
}

/// Text line `n` of the nine: row `n % 3` of the three cells of board row
/// `n / 3`, separated by bars.
pub open spec fn text_line(cells: Seq<Player>, sel: Option<(isize, isize)>, n: int) -> Seq<char> {
    let b = (n / 3) * 3;
    let tr = n % 3;
    " "@ + cell_row_text(cells, sel, b, tr) + " | "@ + cell_row_text(cells, sel, b + 1, tr) + " | "@
        + cell_row_text(cells, sel, b + 2, tr)
}

/// What follows text line `n`: a newline, preceded by a separator line after
/// each board row but the last, and nothing after the last line.
pub open spec fn line_end(n: int) -> Seq<char> {
    if n == 8 {
        Seq::empty()
    } else if n % 3 == 2 {
        " \n ------------------------\n"@
    } else {
        " \n"@
    }
}

/// The first `n` text lines with what follows each.
pub open spec fn text_upto(cells: Seq<Player>, sel: Option<(isize, isize)>, n: int) -> Seq<char>
    decreases n,
{
    if n <= 0 {
        Seq::empty()
    } else {
        text_upto(cells, sel, n - 1) + text_line(cells, sel, n - 1) + line_end(n - 1)
    }
}

/// The whole board text.
pub open spec fn board_text(cells: Seq<Player>, sel: Option<(isize, isize)>) -> Seq<char> {
    text_upto(cells, sel, 9)
}

/// Text row `tr` of a cell holding `p`, highlighted or not.
fn cell_row(p: Player, highlight: bool, tr: usize) -> (r: &'static str)
    requires
        tr < 3,
    ensures
        r@ == (if highlight { highlighted(cell_text(p, tr as int)) } else { cell_text(p, tr as int) }),
{
    proof {
        reveal_strlit("00  00");
        reveal_strlit("  00  ");
        reveal_strlit("      ");
        reveal_strlit("00##00");
        reveal_strlit("##00##");
        reveal_strlit("######");
        assert(highlighted("00  00"@) =~= "00##00"@);
        assert(highlighted("  00  "@) =~= "##00##"@);
        assert(highlighted("      "@) =~= "######"@);
    }
    let cross_edge = tr != 1;
    match p {
        Player::Cross => if highlight {
            if cross_edge { "00##00" } else { "##00##" }
        } else {
            if cross_edge { "00  00" } else { "  00  " }
        },
        Player::Nought => if highlight {
            if cross_edge { "##00##" } else { "00##00" }
        } else {
            if cross_edge { "  00  " } else { "00  00" }
        },
        Player::Empty => if highlight { "######" } else { "      " },
    }
}

impl Field {
    /// The board text: for each board row three text lines, each the cells'
    /// rows joined by `" | "`, with a separator line of 24 dashes between
    /// board rows. The cell at `select_cell`, if given, is highlighted.
    pub fn make_field(&self, select_cell: Option<(isize, isize)>) -> (r: String)
        requires
            self.wf(),
            select_cell matches Some(p) ==> valid_pos(p),
        ensures
            r@ == board_text(self@.cells, select_cell),
    {
        let sel_index: isize = match select_cell {
            Some(v) => (v.0 - 1) * 3 + (v.1 - 1),
            None => -1,
        };
        let mut s = String::new();
        let mut n: usize = 0;
        while n < 9
            invariant
                n <= 9,
                self.wf(),
                select_cell matches Some(p) ==> valid_pos(p) && sel_index == pos_index(p),
                select_cell is None ==> sel_index == -1,
                s@ == text_upto(self@.cells, select_cell, n as int),
            decreases 9 - n,
        {
            let row: usize = n / 3;
            let tr: usize = n % 3;
            let ghost before = s@;
            s.append(" ");
            let mut j: usize = 0;
            while j < 3
                invariant
                    n < 9,
                    row == n / 3,
                    tr == n % 3,
                    j <= 3,
                    self.wf(),
                    select_cell matches Some(p) ==> valid_pos(p) && sel_index == pos_index(p),
                    select_cell is None ==> sel_index == -1,
                    j == 0 ==> s@ == before + " "@,
                    j == 1 ==> s@ == before + " "@ + cell_row_text(self@.cells, select_cell, (row * 3) as int, tr as int),
                    j == 2 ==> s@ == before + " "@ + cell_row_text(self@.cells, select_cell, (row * 3) as int, tr as int) + " | "@
                        + cell_row_text(self@.cells, select_cell, (row * 3 + 1) as int, tr as int),
                    j == 3 ==> s@ == before + text_line(self@.cells, select_cell, n as int),
                decreases 3 - j,
            {
                if j > 0 {
                    s.append(" | ");
                }
                let index: isize = (row * 3 + j) as isize;
                let p = *self.get_player(((row + 1) as isize, (j + 1) as isize));
                s.append(cell_row(p, index == sel_index, tr));
                j = j + 1;
            }
            if n == 8 {
            } else if tr == 2 {
                s.append(" \n ------------------------\n");
            } else {
                s.append(" \n");
            }
            assert(s@ =~= text_upto(self@.cells, select_cell, n as int + 1));
            n = n + 1;
        }
        s
    }
}

} // verus!
