//! The move recorder: the rendering of a single accepted move as a
//! notation token, the append-only move log, and the top-level move
//! attempt that checks legality and records on success.

use vstd::prelude::*;

use crate::notation::{digit_char, digit_char_of, piece_letter, push_char};
use crate::rules::move_ok;
use crate::{on_board, ChessBoard, Piece, Player};

verus! {

/// The leading letter of a recorded token: the piece's code, except
/// that a pawn is recorded with no letter at all.
pub open spec fn token_letter(p: Piece) -> Seq<char> {
    match p {
        Piece::Pawn(_) => Seq::empty(),
        _ => seq![piece_letter(p)],
    }
}

/// The file letter a token encodes the destination's board row as:
/// 'a' plus the row index.
pub open spec fn file_char(n: int) -> char {
    if n == 0 {
        'a'
    } else if n == 1 {
        'b'
    } else if n == 2 {
        'c'
    } else if n == 3 {
        'd'
    } else if n == 4 {
        'e'
    } else if n == 5 {
        'f'
    } else if n == 6 {
        'g'
    } else {
        'h'
    }
}

/// The trailing separator of a token: a space after a White move, a
/// newline after a Black move.
pub open spec fn ending_char(pl: Player) -> char {
    match pl {
        Player::White => ' ',
        Player::Black => '\n',
    }
}

/// A recorded move token: the piece's letter (none for a pawn), the
/// destination's board row as a file letter, the destination's board
/// column as a literal decimal digit, and the mover's separator. The
/// row-to-file and column-to-digit encoding is kept exactly as its
/// consumers expect it, even though it does not match standard
/// algebraic notation.
pub open spec fn token_spec(piece: Piece, e0: int, e1: int, mover: Player) -> Seq<char> {
    token_letter(piece) + seq![file_char(e0)] + seq![digit_char(e1)] + seq![ending_char(mover)]
}

impl ChessBoard {
    /// Renders `piece` moving to `end` as a token and appends it to the
    /// move history; prior entries are never edited or removed.
    pub fn add_move(&mut self, piece: Piece, end: (usize, usize), current_player: Player)
        requires
            on_board(end.0 as int, end.1 as int),
        ensures
            final(self).grid() == old(self).grid(),
            final(self).history() == old(self).history().push(
                token_spec(piece, end.0 as int, end.1 as int, current_player),
            ),
    {
        let mut token = String::new();
        match piece {
            Piece::Pawn(_) => (),
            _ => push_char(&mut token, crate::notation::piece_letter_of(piece)),
        }
        let column: char = match end.0 {
            0 => 'a',
            1 => 'b',
            2 => 'c',
            3 => 'd',
            4 => 'e',
            5 => 'f',
            6 => 'g',
            _ => 'h',
        };
        push_char(&mut token, column);
        push_char(&mut token, digit_char_of(end.1));
        let ending: char = match current_player {
            Player::White => ' ',
            Player::Black => '\n',
        };
        push_char(&mut token, ending);
        proof {
            assert(token@ =~= token_spec(piece, end.0 as int, end.1 as int, current_player));
        }
        self.moves_history.push_back(token);
        proof {
            assert(final(self).grid() =~~= old(self).grid());
            assert(final(self).history() =~= old(self).history().push(
                token_spec(piece, end.0 as int, end.1 as int, current_player),
            ));
        }
    }

    /// The top-level move attempt: decides legality without mutating
    /// the position, and on success appends the move's token to the
    /// history. The board itself is never changed here; on acceptance
    /// the caller still applies the relocation separately.
    pub fn move_if_valid(
        &mut self,
        start: (usize, usize),
        end: (usize, usize),
        current_player: Player,
    ) -> (r: bool)
        requires
            on_board(start.0 as int, start.1 as int),
            on_board(end.0 as int, end.1 as int),
        ensures
            r == move_ok(
                old(self).grid(),
                start.0 as int,
                start.1 as int,
                end.0 as int,
                end.1 as int,
                current_player,
            ),
            final(self).grid() == old(self).grid(),
            r ==> final(self).history() == old(self).history().push(
                token_spec(
                    old(self).grid()[start.0 as int][start.1 as int]->0,
                    end.0 as int,
                    end.1 as int,
                    current_player,
                ),
            ),
            !r ==> final(self).history() == old(self).history(),
    {
        let piece: Piece = match self.board[start.0][start.1] {
            Some(piece) => piece,
            None => {
                return false;
            },
        };
        let is_valid: bool = self.is_valid_move(start, end, current_player);
        if is_valid {
            self.add_move(piece, end, current_player);
        }
        is_valid
    }
}

} // verus!
