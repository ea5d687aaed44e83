//! The check / terminal-state classifier: king location, check
//! detection, whole-board legal-move existence, and the four-way game
//! outcome built from them.
//!
//! Check detection reuses the full legality evaluator as the "can this
//! square attack the king" oracle, and the legal-move enumeration
//! inherits the evaluator's deliberate lack of a king-safety filter.

use vstd::prelude::*;

use crate::rules::move_ok;
use crate::{on_board, opponent_of, ChessBoard, GridView, Piece, Player};

verus! {

/// The first square holding `pl`'s king, scanning row-major from
/// (r, c) onwards; `None` when there is none.
pub open spec fn king_scan_from(g: GridView, pl: Player, r: int, c: int) -> Option<(int, int)>
    decreases 8 - r, 8 - c,
{
    if r < 0 || c < 0 || r >= 8 {
        None
    } else if c >= 8 {
        king_scan_from(g, pl, r + 1, 0)
    } else if g[r][c] == Some(Piece::King(pl)) {
        Some((r, c))
    } else {
        king_scan_from(g, pl, r, c + 1)
    }
}

/// The first square holding `pl`'s king in row-major order, if any.
pub open spec fn king_square(g: GridView, pl: Player) -> Option<(int, int)> {
    king_scan_from(g, pl, 0, 0)
}

/// `pl` is in check: the first of `pl`'s kings found on the board can be
/// reached by a legal move of the opponent from some square. With no
/// king on the board there is no check.
pub open spec fn in_check_spec(g: GridView, pl: Player) -> bool {
    match king_square(g, pl) {
        None => false,
        Some(k) => exists|r: int, c: int|
            on_board(r, c) && #[trigger] move_ok(g, r, c, k.0, k.1, opponent_of(pl)),
    }
}

/// `pl` has at least one legal move somewhere on the board.
pub open spec fn any_move_spec(g: GridView, pl: Player) -> bool {
    exists|s0: int, s1: int, e0: int, e1: int|
        on_board(s0, s1) && on_board(e0, e1) && #[trigger] move_ok(g, s0, s1, e0, e1, pl)
}

/// The game outcome with `pl` to move, in this priority order: if `pl`
/// stands in check, the opponent wins; else if the opponent stands in
/// check, `pl` wins; else if `pl` has no legal move, the game is
/// drawn; else it is ongoing. The legality rules apply no king-safety
/// filter, so a check is never answered by the move enumeration: a
/// side left standing in check is scored as lost at once.
pub open spec fn outcome_spec(g: GridView, pl: Player) -> Seq<char> {
    let opp = opponent_of(pl);
    if in_check_spec(g, pl) {
        if pl == Player::White {
            "0-1"@
        } else {
            "1-0"@
        }
    } else if in_check_spec(g, opp) {
        if opp == Player::White {
            "0-1"@
        } else {
            "1-0"@
        }
    } else if !any_move_spec(g, pl) {
        "1/2-1/2"@
    } else {
        "*"@
    }
}

/// No square strictly before (r, c) in row-major order starts a legal
/// move of `pl`.
spec fn no_move_before(g: GridView, pl: Player, r: int, c: int) -> bool {
    forall|s0: int, s1: int, e0: int, e1: int|
        on_board(s0, s1) && on_board(e0, e1) && (s0 < r || (s0 == r && s1 < c)) ==> !(
        #[trigger] move_ok(g, s0, s1, e0, e1, pl))
}

impl ChessBoard {
    /// The first square of the board, scanning ranks upward and files
    /// left to right, that holds `player`'s king.
    #[verifier::loop_isolation(false)]
    pub fn find_king_position(&self, player: Player) -> (r: Option<(usize, usize)>)
        ensures
            match king_square(self.grid(), player) {
                None => r is None,
                Some(k) => r matches Some(p) && p.0 < 8 && p.1 < 8 && p.0 as int == k.0 && p.1
                    as int == k.1,
            },
    {
        let mut row: usize = 0;
        while row < 8
            invariant
                row <= 8,
                king_square(self.grid(), player) == king_scan_from(
                    self.grid(),
                    player,
                    row as int,
                    0,
                ),
            decreases 8 - row,
        {
            let mut col: usize = 0;
            while col < 8
                invariant
                    row < 8,
                    col <= 8,
                    king_square(self.grid(), player) == king_scan_from(
                        self.grid(),
                        player,
                        row as int,
                        col as int,
                    ),
                decreases 8 - col,
            {
                if let Some(piece) = self.board[row][col] {
                    if let Piece::King(piece_player) = piece {
                        if piece_player == player {
                            return Some((row, col));
                        }
                    }
                }
                col = col + 1;
            }
            row = row + 1;
        }
        None
    }

    /// True when some square of the board starts a legal move of
    /// `player`'s opponent onto the square of `player`'s king. With no
    /// king on the board, false.
    #[verifier::loop_isolation(false)]
    pub fn is_check(&self, player: Player) -> (r: bool)
        ensures
            r == in_check_spec(self.grid(), player),
    {
        let king_position: (usize, usize) = match self.find_king_position(player) {
            Some(position) => position,
            None => {
                return false;
            },
        };
        let opponent: Player = self.next_player(player);
        let ghost k0 = king_position.0 as int;
        let ghost k1 = king_position.1 as int;
        let mut row: usize = 0;
        while row < 8
            invariant
                row <= 8,
                forall|r: int, c: int|
                    0 <= r < row && 0 <= c < 8 ==> !(#[trigger] move_ok(
                        self.grid(),
                        r,
                        c,
                        k0,
                        k1,
                        opponent,
                    )),
            decreases 8 - row,
        {
            let mut col: usize = 0;
            while col < 8
                invariant
                    row < 8,
                    col <= 8,
                    forall|r: int, c: int|
                        0 <= r < row && 0 <= c < 8 ==> !(#[trigger] move_ok(
                            self.grid(),
                            r,
                            c,
                            k0,
                            k1,
                            opponent,
                        )),
                    forall|c: int|
                        0 <= c < col ==> !(#[trigger] move_ok(
                            self.grid(),
                            row as int,
                            c,
                            k0,
                            k1,
                            opponent,
                        )),
                decreases 8 - col,
            {
                if self.board[row][col].is_some() {
                    if self.is_valid_move((row, col), king_position, opponent) {
                        return true;
                    }
                }
                col = col + 1;
            }
            row = row + 1;
        }
        false
    }

    /// True when `player` has any legal move at all: every occupied
    /// square of `player`'s is tried against all 64 destinations.
    #[verifier::loop_isolation(false)]
    pub fn has_legal_moves(&self, player: Player) -> (r: bool)
        ensures
            r == any_move_spec(self.grid(), player),
    {
        let mut row: usize = 0;
        while row < 8
            invariant
                row <= 8,
                no_move_before(self.grid(), player, row as int, 0),
            decreases 8 - row,
        {
            let mut col: usize = 0;
            while col < 8
                invariant
                    row < 8,
                    col <= 8,
                    no_move_before(self.grid(), player, row as int, col as int),
                decreases 8 - col,
            {
                let mut skip = true;
                if let Some(piece) = self.board[row][col] {
                    if !self.is_opponent(piece, player) {
                        skip = false;
                    }
                }
                if !skip {
                    let mut target_row: usize = 0;
                    while target_row < 8
                        invariant
                            row < 8,
                            col < 8,
                            target_row <= 8,
                            no_move_before(self.grid(), player, row as int, col as int),
                            forall|e0: int, e1: int|
                                0 <= e0 < target_row && 0 <= e1 < 8 ==> !(#[trigger] move_ok(
                                    self.grid(),
                                    row as int,
                                    col as int,
                                    e0,
                                    e1,
                                    player,
                                )),
                        decreases 8 - target_row,
                    {
                        let mut target_col: usize = 0;
                        while target_col < 8
                            invariant
                                row < 8,
                                col < 8,
                                target_row < 8,
                                target_col <= 8,
                                forall|e0: int, e1: int|
                                    0 <= e0 < target_row && 0 <= e1 < 8 ==> !(#[trigger] move_ok(
                                        self.grid(),
                                        row as int,
                                        col as int,
                                        e0,
                                        e1,
                                        player,
                                    )),
                                forall|e1: int|
                                    0 <= e1 < target_col ==> !(#[trigger] move_ok(
                                        self.grid(),
                                        row as int,
                                        col as int,
                                        target_row as int,
                                        e1,
                                        player,
                                    )),
                            decreases 8 - target_col,
                        {
                            if self.is_valid_move((row, col), (target_row, target_col), player) {
                                return true;
                            }
                            target_col = target_col + 1;
                        }
                        target_row = target_row + 1;
                    }
                }
                col = col + 1;
            }
            row = row + 1;
        }
        false
    }

    /// The four-way game outcome with `current_player` to move: a side
    /// standing in check is reported as the other side's win, a
    /// `current_player` with no legal move and no check anywhere as a
    /// draw, anything else as an ongoing game.
    pub fn result(&self, current_player: Player) -> (r: String)
        ensures
            r@ == outcome_spec(self.grid(), current_player),
    {
        let opponent: Player = self.next_player(current_player);

        if self.is_check(current_player) {
            if current_player == Player::White {
                return String::from_str("0-1");
            } else {
                return String::from_str("1-0");
            }
        }
        if self.is_check(opponent) {
            if opponent == Player::White {
                return String::from_str("0-1");
            } else {
                return String::from_str("1-0");
            }
        }
        // A stalemate: no legal move, and no check anywhere.
        if !self.has_legal_moves(current_player) {
            return String::from_str("1/2-1/2");
        }
        // No conclusion yet: the game is still ongoing.
        String::from_str("*")
    }
}

} // verus!
