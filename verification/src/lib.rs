//! A two-player chess rules engine: it holds a board position, decides
//! whether a proposed move is legal, detects check, classifies terminal
//! game states, and renders the position and move history as text.
//!
//! The ruleset is deliberately limited: no castling, no en passant, no
//! promotion, no repetition or move-count rules. Legality is decided by
//! piece shape, path obstruction and ownership alone; a move is accepted
//! even if it leaves the mover's own king attacked.

use vstd::prelude::*;

pub mod classify;
pub mod notation;
pub mod record;
pub mod rules;

pub use notation::parse_position;

verus! {

/// One of the two sides of the game.
#[derive(Clone, Copy, Debug, PartialEq, Eq, Structural)]
pub enum Player {
    White,
    Black,
}

/// A piece on the board: a role together with the player who owns it.
#[derive(Clone, Copy, Debug, PartialEq, Eq, Structural)]
pub enum Piece {
    King(Player),
    Queen(Player),
    Rook(Player),
    Bishop(Player),
    Knight(Player),
    Pawn(Player),
}

/// The aggregate game state: an 8x8 grid of squares, row 0 being White's
/// home rank and column 0 the a-file, plus the append-only log of move
/// tokens recorded for each accepted move attempt.
pub struct ChessBoard {
    pub board: [[Option<Piece>; 8]; 8],
    pub moves_history: std::collections::VecDeque<String>,
}

/// The mathematical model of a board: a sequence of 8 rows of 8 squares.
pub type GridView = Seq<Seq<Option<Piece>>>;

/// The player owning a piece.
pub open spec fn owner_of(p: Piece) -> Player {
    match p {
        Piece::King(pl) => pl,
        Piece::Queen(pl) => pl,
        Piece::Rook(pl) => pl,
        Piece::Bishop(pl) => pl,
        Piece::Knight(pl) => pl,
        Piece::Pawn(pl) => pl,
    }
}

/// The other side.
pub open spec fn opponent_of(p: Player) -> Player {
    match p {
        Player::White => Player::Black,
        Player::Black => Player::White,
    }
}

/// True when (r, c) names one of the 64 squares.
pub open spec fn on_board(r: int, c: int) -> bool {
    0 <= r < 8 && 0 <= c < 8
}

/// The piece that the standard opening layout puts on square (r, c).
pub open spec fn initial_piece(r: int, c: int) -> Option<Piece> {
    if r == 1 {
        Some(Piece::Pawn(Player::White))
    } else if r == 6 {
        Some(Piece::Pawn(Player::Black))
    } else if r == 0 || r == 7 {
        let pl = if r == 0 {
            Player::White
        } else {
            Player::Black
        };
        if c == 0 || c == 7 {
            Some(Piece::Rook(pl))
        } else if c == 1 || c == 6 {
            Some(Piece::Knight(pl))
        } else if c == 2 || c == 5 {
            Some(Piece::Bishop(pl))
        } else if c == 3 {
            Some(Piece::Queen(pl))
        } else {
            Some(Piece::King(pl))
        }
    } else {
        None
    }
}

/// The standard opening position as a grid.
pub open spec fn initial_grid() -> GridView {
    Seq::new(8, |r: int| Seq::new(8, |c: int| initial_piece(r, c)))
}

/// The grid that results from mechanically relocating the occupant of
/// (s0, s1) to (e0, e1): the destination takes the moved piece first,
/// then the source is cleared (so relocating a square onto itself
/// leaves that square empty).
pub open spec fn moved_grid(g: GridView, s0: int, s1: int, e0: int, e1: int) -> GridView {
    let placed = g.update(e0, g[e0].update(e1, g[s0][s1]));
    placed.update(s0, placed[s0].update(s1, None))
}

impl ChessBoard {
    /// The board as a mathematical grid.
    pub open spec fn grid(self) -> GridView {
        Seq::new(8, |r: int| Seq::new(8, |c: int| self.board@[r]@[c]))
    }

    /// The recorded move tokens as sequences of characters.
    pub open spec fn history(self) -> Seq<Seq<char>> {
        self.moves_history.deep_view()
    }

    /// A fresh game: the standard opening layout and an empty move log.
    pub fn new() -> (b: ChessBoard)
        ensures
            b.grid() == initial_grid(),
            b.history() == Seq::<Seq<char>>::empty(),
    {
        let board: [[Option<Piece>; 8]; 8] = [
            [
                Some(Piece::Rook(Player::White)),
                Some(Piece::Knight(Player::White)),
                Some(Piece::Bishop(Player::White)),
                Some(Piece::Queen(Player::White)),
                Some(Piece::King(Player::White)),
                Some(Piece::Bishop(Player::White)),
                Some(Piece::Knight(Player::White)),
                Some(Piece::Rook(Player::White)),
            ],
            [Some(Piece::Pawn(Player::White)); 8],
            [None; 8],
            [None; 8],
            [None; 8],
            [None; 8],
            [Some(Piece::Pawn(Player::Black)); 8],
            [
                Some(Piece::Rook(Player::Black)),
                Some(Piece::Knight(Player::Black)),
                Some(Piece::Bishop(Player::Black)),
                Some(Piece::Queen(Player::Black)),
                Some(Piece::King(Player::Black)),
                Some(Piece::Bishop(Player::Black)),
                Some(Piece::Knight(Player::Black)),
                Some(Piece::Rook(Player::Black)),
            ],
        ];
        let moves_history: std::collections::VecDeque<String> =
            std::collections::VecDeque::new();
        let b = ChessBoard { board, moves_history };
        proof {
            assert(b.grid() =~~= initial_grid());
            assert(b.history() =~= Seq::<Seq<char>>::empty());
        }
        b
    }

    /// Mechanically relocates whatever occupies `start` to `end`,
    /// overwriting any occupant of `end` and clearing `start`. No
    /// legality check is made; the only failure is an empty source.
    pub fn move_piece(&mut self, start: (usize, usize), end: (usize, usize)) -> (r: Result<
        (),
        String,
    >)
        requires
            on_board(start.0 as int, start.1 as int),
            on_board(end.0 as int, end.1 as int),
        ensures
            old(self).grid()[start.0 as int][start.1 as int] is None ==> {
                &&& r matches Err(m) && m@ == "No piece at start position"@
                &&& final(self).grid() == old(self).grid()
                &&& final(self).history() == old(self).history()
            },
            old(self).grid()[start.0 as int][start.1 as int] is Some ==> {
                &&& r is Ok
                &&& final(self).grid() == moved_grid(
                    old(self).grid(),
                    start.0 as int,
                    start.1 as int,
                    end.0 as int,
                    end.1 as int,
                )
                &&& final(self).history() == old(self).history()
            },
    {
        let start_piece = match self.board[start.0][start.1] {
            Some(p) => p,
            None => {
                return Err(String::from_str("No piece at start position"));
            },
        };
        self.board[end.0][end.1] = Some(start_piece);
        self.board[start.0][start.1] = None;
        proof {
            assert(self.grid() =~~= moved_grid(
                old(self).grid(),
                start.0 as int,
                start.1 as int,
                end.0 as int,
                end.1 as int,
            ));
        }
        Ok(())
    }

    /// The player whose turn follows `current_player`'s.
    pub fn next_player(&self, current_player: Player) -> (r: Player)
        ensures
            r == opponent_of(current_player),
    {
        match current_player {
            Player::White => Player::Black,
            Player::Black => Player::White,
        }
    }
}

} // verus!
