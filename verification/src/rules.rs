//! The move legality evaluator: per-shape geometric rules, sliding-piece
//! path obstruction, and the ownership/capture rules that gate them.
//!
//! Legality is purely a function of the position: no king-safety filter
//! is applied, so a shape-legal move is approved even when it exposes
//! the mover's own king.

use vstd::prelude::*;

use crate::{on_board, owner_of, ChessBoard, GridView, Piece, Player};

verus! {

/// The distance between two coordinates.
pub open spec fn gap(a: int, b: int) -> int {
    if a >= b {
        a - b
    } else {
        b - a
    }
}

/// The i-th coordinate on the way from `a` towards `b`, one step at a time.
pub open spec fn step_towards(a: int, b: int, i: int) -> int {
    if b > a {
        a + i
    } else {
        a - i
    }
}

/// A king steps to any of the 8 adjacent squares.
pub open spec fn king_move_ok(s0: int, s1: int, e0: int, e1: int) -> bool {
    gap(e0, s0) <= 1 && gap(e1, s1) <= 1
}

/// A knight jumps by a (1, 2) or (2, 1) offset; nothing obstructs it.
pub open spec fn knight_move_ok(s0: int, s1: int, e0: int, e1: int) -> bool {
    (gap(e0, s0) == 2 && gap(e1, s1) == 1) || (gap(e0, s0) == 1 && gap(e1, s1) == 2)
}

/// Every square strictly between the two endpoints of a straight
/// (same-row or same-column) move is empty.
pub open spec fn straight_path_clear(g: GridView, s0: int, s1: int, e0: int, e1: int) -> bool {
    if s0 == e0 {
        forall|c: int|
            (if s1 < e1 {
                s1 < c < e1
            } else {
                e1 < c < s1
            }) ==> (#[trigger] g[s0][c]) is None
    } else {
        forall|r: int|
            (if s0 < e0 {
                s0 < r < e0
            } else {
                e0 < r < s0
            }) ==> (#[trigger] g[r][s1]) is None
    }
}

/// A rook moves along exactly one axis, over an unobstructed path.
pub open spec fn rook_move_ok(g: GridView, s0: int, s1: int, e0: int, e1: int) -> bool {
    ((s0 == e0) != (s1 == e1)) && straight_path_clear(g, s0, s1, e0, e1)
}

/// Every square strictly between the two endpoints of a diagonal move
/// is empty.
pub open spec fn diagonal_path_clear(g: GridView, s0: int, s1: int, e0: int, e1: int) -> bool {
    forall|i: int|
        1 <= i < gap(e0, s0) ==> (#[trigger] g[step_towards(s0, e0, i)][step_towards(s1, e1, i)])
            is None
}

/// A bishop moves a nonzero distance along a diagonal, over an
/// unobstructed path.
pub open spec fn bishop_move_ok(g: GridView, s0: int, s1: int, e0: int, e1: int) -> bool {
    gap(e0, s0) == gap(e1, s1) && gap(e0, s0) > 0 && diagonal_path_clear(g, s0, s1, e0, e1)
}

/// A queen moves as a rook or as a bishop.
pub open spec fn queen_move_ok(g: GridView, s0: int, s1: int, e0: int, e1: int) -> bool {
    rook_move_ok(g, s0, s1, e0, e1) || bishop_move_ok(g, s0, s1, e0, e1)
}

/// The direction a pawn advances in: White up the rows, Black down.
pub open spec fn pawn_direction(pl: Player) -> int {
    match pl {
        Player::White => 1,
        Player::Black => -1,
    }
}

/// The row a pawn starts on, from which it may advance two squares.
pub open spec fn pawn_home_row(pl: Player) -> int {
    match pl {
        Player::White => 1,
        Player::Black => 6,
    }
}

/// A pawn advances one square straight onto an empty square, or two from
/// its home row when both squares ahead are empty, or captures one
/// square diagonally forward onto an opponent's piece.
pub open spec fn pawn_move_ok(g: GridView, s0: int, s1: int, e0: int, e1: int, pl: Player) -> bool {
    let dir = pawn_direction(pl);
    ||| (s1 == e1 && e0 == s0 + dir && g[e0][e1] is None)
    ||| (s1 == e1 && s0 == pawn_home_row(pl) && e0 == s0 + 2 * dir && g[e0][e1] is None
        && g[s0 + dir][s1] is None)
    ||| (e0 == s0 + dir && (e1 == s1 + 1 || e1 == s1 - 1) && (match g[e0][e1] {
        Some(p) => owner_of(p) != pl,
        None => false,
    }))
}

/// The per-shape geometric rule for the piece standing on the start
/// square; ownership and capture rules are not part of it.
pub open spec fn shape_move_ok(
    g: GridView,
    piece: Piece,
    s0: int,
    s1: int,
    e0: int,
    e1: int,
) -> bool {
    match piece {
        Piece::King(_) => king_move_ok(s0, s1, e0, e1),
        Piece::Queen(_) => queen_move_ok(g, s0, s1, e0, e1),
        Piece::Rook(_) => rook_move_ok(g, s0, s1, e0, e1),
        Piece::Bishop(_) => bishop_move_ok(g, s0, s1, e0, e1),
        Piece::Knight(_) => knight_move_ok(s0, s1, e0, e1),
        Piece::Pawn(pl) => pawn_move_ok(g, s0, s1, e0, e1, pl),
    }
}

/// The full legality rule: the start square holds a piece of the moving
/// player, the move is not a null move, the destination does not hold
/// one of the mover's own pieces, and the piece's shape rule holds.
pub open spec fn move_ok(g: GridView, s0: int, s1: int, e0: int, e1: int, pl: Player) -> bool {
    match g[s0][s1] {
        None => false,
        Some(piece) => {
            &&& owner_of(piece) == pl
            &&& !(s0 == e0 && s1 == e1)
            &&& (match g[e0][e1] {
                Some(q) => owner_of(q) != pl,
                None => true,
            })
            &&& shape_move_ok(g, piece, s0, s1, e0, e1)
        },
    }
}

/// Legality is a pure function of the position and the move: two
/// checks of the same move against the same unmutated board always
/// agree, there being no hidden state to consult.
pub proof fn lemma_legality_deterministic(
    g: GridView,
    s0: int,
    s1: int,
    e0: int,
    e1: int,
    pl: Player,
    first: bool,
    second: bool,
)
    requires
        first == move_ok(g, s0, s1, e0, e1, pl),
        second == move_ok(g, s0, s1, e0, e1, pl),
    ensures
        first == second,
{
}

/// A move onto a square occupied by one of the mover's own pieces is
/// never legal, whatever the piece's shape rule would say of it.
pub proof fn lemma_no_self_capture(g: GridView, s0: int, s1: int, e0: int, e1: int, pl: Player)
    requires
        g[e0][e1] matches Some(q) && owner_of(q) == pl,
    ensures
        !move_ok(g, s0, s1, e0, e1, pl),
{
}

/// The boundary of a diagonal scan: every square strictly between two
/// on-board endpoints of a diagonal lies on the board itself, so an
/// obstruction scan that steps from the start one square at a time and
/// stops exactly on reaching the destination never leaves the 8x8
/// grid, even when the diagonal's geometric continuation would.
pub proof fn lemma_diagonal_path_on_board(s0: int, s1: int, e0: int, e1: int, i: int)
    requires
        on_board(s0, s1),
        on_board(e0, e1),
        gap(e0, s0) == gap(e1, s1),
        1 <= i < gap(e0, s0),
    ensures
        on_board(step_towards(s0, e0, i), step_towards(s1, e1, i)),
{
}

/// The boundary of a straight scan: every square strictly between two
/// on-board endpoints of a same-row or same-column move lies on the
/// board itself.
pub proof fn lemma_straight_path_on_board(s0: int, s1: int, e0: int, e1: int, r: int, c: int)
    requires
        on_board(s0, s1),
        on_board(e0, e1),
        s0 == e0 || s1 == e1,
        s0 == e0 ==> r == s0 && (if s1 < e1 {
            s1 < c < e1
        } else {
            e1 < c < s1
        }),
        s0 != e0 ==> c == s1 && (if s0 < e0 {
            s0 < r < e0
        } else {
            e0 < r < s0
        }),
    ensures
        on_board(r, c),
{
}

/// A pawn's two-square advance from its home row is rejected whenever
/// the square it passes over is occupied, even with the destination
/// square empty.
pub proof fn lemma_pawn_double_step_blocked(g: GridView, s0: int, s1: int, pl: Player)
    requires
        g[s0][s1] == Some(Piece::Pawn(pl)),
        s0 == pawn_home_row(pl),
        g[s0 + pawn_direction(pl)][s1] is Some,
    ensures
        !move_ok(g, s0, s1, s0 + 2 * pawn_direction(pl), s1, pl),
{
}

impl ChessBoard {
    /// True when `piece` belongs to the opponent of `player`.
    pub fn is_opponent(&self, piece: Piece, player: Player) -> (r: bool)
        ensures
            r == (owner_of(piece) != player),
    {
        match piece {
            Piece::King(p) => p != player,
            Piece::Queen(p) => p != player,
            Piece::Rook(p) => p != player,
            Piece::Bishop(p) => p != player,
            Piece::Knight(p) => p != player,
            Piece::Pawn(p) => p != player,
        }
    }

    /// A king may step to any adjacent square.
    pub fn is_valid_king_move(&self, start: (usize, usize), end: (usize, usize)) -> (r: bool)
        ensures
            r == king_move_ok(start.0 as int, start.1 as int, end.0 as int, end.1 as int),
    {
        let dx = if end.0 >= start.0 {
            end.0 - start.0
        } else {
            start.0 - end.0
        };
        let dy = if end.1 >= start.1 {
            end.1 - start.1
        } else {
            start.1 - end.1
        };
        dx <= 1 && dy <= 1
    }

    /// A knight jumps by a (1, 2) or (2, 1) offset.
    pub fn is_valid_knight_move(&self, start: (usize, usize), end: (usize, usize)) -> (r: bool)
        ensures
            r == knight_move_ok(start.0 as int, start.1 as int, end.0 as int, end.1 as int),
    {
        let dx = if end.0 >= start.0 {
            end.0 - start.0
        } else {
            start.0 - end.0
        };
        let dy = if end.1 >= start.1 {
            end.1 - start.1
        } else {
            start.1 - end.1
        };
        (dx == 2 && dy == 1) || (dx == 1 && dy == 2)
    }

    /// A rook moves along one axis over an unobstructed path.
    #[verifier::loop_isolation(false)]
    pub fn is_valid_rook_move(&self, start: (usize, usize), end: (usize, usize)) -> (r: bool)
        requires
            on_board(start.0 as int, start.1 as int),
            on_board(end.0 as int, end.1 as int),
        ensures
            r == rook_move_ok(
                self.grid(),
                start.0 as int,
                start.1 as int,
                end.0 as int,
                end.1 as int,
            ),
    {
        if (start.0 != end.0 && start.1 != end.1) || (start.0 == end.0 && start.1 == end.1) {
            return false;
        }
        let (r1, c1) = start;
        let (r2, c2) = end;
        if r1 == r2 {
            let lo = if c1 < c2 {
                c1
            } else {
                c2
            };
            let hi = if c1 < c2 {
                c2
            } else {
                c1
            };
            let mut col = lo + 1;
            while col < hi
                invariant
                    lo < col <= hi,
                    hi < 8,
                    r1 < 8,
                    forall|c: int|
                        lo < c < col ==> (#[trigger] self.grid()[r1 as int][c]) is None,
                decreases hi - col,
            {
                if self.board[r1][col].is_some() {
                    proof {
                        assert(self.grid()[r1 as int][col as int] is Some);
                    }
                    return false;
                }
                col = col + 1;
            }
            true
        } else {
            let lo = if r1 < r2 {
                r1
            } else {
                r2
            };
            let hi = if r1 < r2 {
                r2
            } else {
                r1
            };
            let mut row = lo + 1;
            while row < hi
                invariant
                    lo < row <= hi,
                    hi < 8,
                    c1 < 8,
                    forall|rr: int|
                        lo < rr < row ==> (#[trigger] self.grid()[rr][c1 as int]) is None,
                decreases hi - row,
            {
                if self.board[row][c1].is_some() {
                    proof {
                        assert(self.grid()[row as int][c1 as int] is Some);
                    }
                    return false;
                }
                row = row + 1;
            }
            true
        }
    }

    /// A bishop moves a nonzero distance along a diagonal over an
    /// unobstructed path; the scan steps from the start towards the end
    /// and stops exactly on reaching the destination square.
    #[verifier::loop_isolation(false)]
    pub fn is_valid_bishop_move(&self, start: (usize, usize), end: (usize, usize)) -> (r: bool)
        requires
            on_board(start.0 as int, start.1 as int),
            on_board(end.0 as int, end.1 as int),
        ensures
            r == bishop_move_ok(
                self.grid(),
                start.0 as int,
                start.1 as int,
                end.0 as int,
                end.1 as int,
            ),
    {
        let dx = if end.0 >= start.0 {
            end.0 - start.0
        } else {
            start.0 - end.0
        };
        let dy = if end.1 >= start.1 {
            end.1 - start.1
        } else {
            start.1 - end.1
        };
        if dx != dy || dx == 0 {
            return false;
        }
        let (r1, c1) = start;
        let (r2, c2) = end;
        let mut i: usize = 1;
        while i < dx
            invariant
                1 <= i <= dx,
                dx == gap(r2 as int, r1 as int),
                dx == gap(c2 as int, c1 as int),
                dx > 0,
                on_board(r1 as int, c1 as int),
                on_board(r2 as int, c2 as int),
                forall|j: int|
                    1 <= j < i ==> (#[trigger] self.grid()[step_towards(r1 as int, r2 as int, j)][
                    step_towards(c1 as int, c2 as int, j)]) is None,
            decreases dx - i,
        {
            let row = if r2 > r1 {
                r1 + i
            } else {
                r1 - i
            };
            let col = if c2 > c1 {
                c1 + i
            } else {
                c1 - i
            };
            if self.board[row][col].is_some() {
                proof {
                    assert(row as int == step_towards(r1 as int, r2 as int, i as int));
                    assert(col as int == step_towards(c1 as int, c2 as int, i as int));
                    assert(self.grid()[row as int][col as int] is Some);
                }
                return false;
            }
            i = i + 1;
        }
        true
    }

    /// A queen moves as a rook or as a bishop.
    pub fn is_valid_queen_move(&self, start: (usize, usize), end: (usize, usize)) -> (r: bool)
        requires
            on_board(start.0 as int, start.1 as int),
            on_board(end.0 as int, end.1 as int),
        ensures
            r == queen_move_ok(
                self.grid(),
                start.0 as int,
                start.1 as int,
                end.0 as int,
                end.1 as int,
            ),
    {
        self.is_valid_rook_move(start, end) || self.is_valid_bishop_move(start, end)
    }

    /// A pawn advances straight onto an empty square, doubly so from its
    /// home row when unobstructed, or captures one square diagonally
    /// forward.
    pub fn is_valid_pawn_move(
        &self,
        start: (usize, usize),
        end: (usize, usize),
        player: Player,
    ) -> (r: bool)
        requires
            on_board(start.0 as int, start.1 as int),
            on_board(end.0 as int, end.1 as int),
        ensures
            r == pawn_move_ok(
                self.grid(),
                start.0 as int,
                start.1 as int,
                end.0 as int,
                end.1 as int,
                player,
            ),
    {
        let (r1, c1) = start;
        let (r2, c2) = end;
        let one_ahead = match player {
            Player::White => r2 == r1 + 1,
            Player::Black => r2 + 1 == r1,
        };
        if c1 == c2 {
            // Straight advance onto an empty square.
            if one_ahead && self.board[r2][c2].is_none() {
                return true;
            }
            // Double advance from the home row, both squares ahead empty.
            match player {
                Player::White => {
                    if r1 == 1 && r2 == 3 && self.board[r2][c2].is_none() {
                        return self.board[2][c1].is_none();
                    }
                },
                Player::Black => {
                    if r1 == 6 && r2 == 4 && self.board[r2][c2].is_none() {
                        return self.board[5][c1].is_none();
                    }
                },
            }
        }
        // Diagonal capture of an opponent's piece.
        if one_ahead && (c2 == c1 + 1 || c1 == c2 + 1) {
            if let Some(piece) = self.board[r2][c2] {
                return self.is_opponent(piece, player);
            }
        }
        false
    }

    /// The full legality check: the mover owns the piece on the start
    /// square, the move is not a null move, the destination holds no
    /// piece of the mover's own, and the piece's shape rule, including
    /// path obstruction for sliding pieces, holds. King safety is not
    /// checked.
    pub fn is_valid_move(
        &self,
        start: (usize, usize),
        end: (usize, usize),
        current_player: Player,
    ) -> (r: bool)
        requires
            on_board(start.0 as int, start.1 as int),
            on_board(end.0 as int, end.1 as int),
        ensures
            r == move_ok(
                self.grid(),
                start.0 as int,
                start.1 as int,
                end.0 as int,
                end.1 as int,
                current_player,
            ),
    {
        let piece = match self.board[start.0][start.1] {
            Some(piece) => piece,
            None => {
                return false;
            },
        };
        // Only the current player's own pieces may be moved.
        if self.is_opponent(piece, current_player) {
            return false;
        }
        // No null moves.
        if start.0 == end.0 && start.1 == end.1 {
            return false;
        }
        // No capturing one's own piece.
        if let Some(piece_at_the_end) = self.board[end.0][end.1] {
            if !self.is_opponent(piece_at_the_end, current_player) {
                return false;
            }
        }
        match piece {
            Piece::King(_) => self.is_valid_king_move(start, end),
            Piece::Queen(_) => self.is_valid_queen_move(start, end),
            Piece::Rook(_) => self.is_valid_rook_move(start, end),
            Piece::Bishop(_) => self.is_valid_bishop_move(start, end),
            Piece::Knight(_) => self.is_valid_knight_move(start, end),
            Piece::Pawn(player) => self.is_valid_pawn_move(start, end, player),
        }
    }
}

} // verus!
