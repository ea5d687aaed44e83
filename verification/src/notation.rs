//! The notation encoder: the board-plus-side-to-move placement string,
//! the PGN-like rendering of the recorded move list, and the
//! two-character coordinate parser.

use vstd::prelude::*;

use crate::{ChessBoard, GridView, Piece, Player};

verus! {

/// The single-letter code of a piece: uppercase for White, lowercase
/// for Black.
pub open spec fn piece_letter(p: Piece) -> char {
    match p {
        Piece::King(pl) => if pl == Player::White {
            'K'
        } else {
            'k'
        },
        Piece::Queen(pl) => if pl == Player::White {
            'Q'
        } else {
            'q'
        },
        Piece::Rook(pl) => if pl == Player::White {
            'R'
        } else {
            'r'
        },
        Piece::Bishop(pl) => if pl == Player::White {
            'B'
        } else {
            'b'
        },
        Piece::Knight(pl) => if pl == Player::White {
            'N'
        } else {
            'n'
        },
        Piece::Pawn(pl) => if pl == Player::White {
            'P'
        } else {
            'p'
        },
    }
}

/// The decimal digit character for n in 0..=9.
pub open spec fn digit_char(n: int) -> char {
    if n == 0 {
        '0'
    } else if n == 1 {
        '1'
    } else if n == 2 {
        '2'
    } else if n == 3 {
        '3'
    } else if n == 4 {
        '4'
    } else if n == 5 {
        '5'
    } else if n == 6 {
        '6'
    } else if n == 7 {
        '7'
    } else if n == 8 {
        '8'
    } else {
        '9'
    }
}

/// The decimal numeral of n, most significant digit first.
pub open spec fn dec_digits(n: nat) -> Seq<char>
    decreases n,
{
    if n < 10 {
        seq![digit_char(n as int)]
    } else {
        dec_digits(n / 10) + seq![digit_char((n % 10) as int)]
    }
}

/// A pending run of empty squares, flushed as its count's digit, or
/// nothing for an empty run.
pub open spec fn run_flush(n: int) -> Seq<char> {
    if n <= 0 {
        Seq::empty()
    } else {
        seq![digit_char(n)]
    }
}

/// The placement text of one rank from file c onward, with `run`
/// consecutive empty squares already pending: empty squares accumulate
/// into a count that is flushed before any piece letter and at the end
/// of the rank.
pub open spec fn fen_row_from(row: Seq<Option<Piece>>, c: int, run: int) -> Seq<char>
    decreases 8 - c,
{
    if c < 0 || c >= 8 {
        run_flush(run)
    } else {
        match row[c] {
            None => fen_row_from(row, c + 1, run + 1),
            Some(p) => run_flush(run) + seq![piece_letter(p)] + fen_row_from(row, c + 1, 0),
        }
    }
}

/// The placement text of ranks 7 down to r inclusive, ranks separated
/// by '/': Black's back rank comes first.
pub open spec fn fen_rows_down_to(g: GridView, r: int) -> Seq<char>
    decreases 8 - r,
{
    if r < 0 || r >= 8 {
        Seq::empty()
    } else if r == 7 {
        fen_row_from(g[7], 0, 0)
    } else {
        fen_rows_down_to(g, r + 1) + seq!['/'] + fen_row_from(g[r], 0, 0)
    }
}

/// The full placement string: all eight ranks from row 7 down to row 0,
/// then a space and 'w' or 'b' for the side to move.
pub open spec fn placement_spec(g: GridView, pl: Player) -> Seq<char> {
    fen_rows_down_to(g, 0) + seq![' '] + seq![
        if pl == Player::White {
            'w'
        } else {
            'b'
        },
    ]
}

/// The fixed seven-tag header of the rendered game, with the two player
/// names and the result tag filled in, followed by a blank line.
pub open spec fn pgn_header_spec(w: Seq<char>, b: Seq<char>, res: Seq<char>) -> Seq<char> {
    "[Event \"Chess Game\"]\n[Site \"localhost\"]\n[Date \"2025.03.11\"]\n[Round \"1\"]\n[White \""@
        + w + "\"]\n[Black \""@ + b + "\"]\n[Result \""@ + res + "\"]\n\n"@
}

/// The rendering of the first i recorded tokens: each token is prefixed
/// with a 1-based counter and ". ", and followed by a space. The
/// counter advances once per token, not once per White/Black pair.
pub open spec fn pgn_moves_prefix(h: Seq<Seq<char>>, i: int) -> Seq<char>
    decreases i,
{
    if i <= 0 {
        Seq::empty()
    } else {
        pgn_moves_prefix(h, i - 1) + dec_digits(i as nat) + seq!['.', ' '] + h[i - 1] + seq![' ']
    }
}

/// The full rendered game: header block, then the numbered move list.
pub open spec fn pgn_spec(h: Seq<Seq<char>>, w: Seq<char>, b: Seq<char>, res: Seq<char>) -> Seq<
    char,
> {
    pgn_header_spec(w, b, res) + pgn_moves_prefix(h, h.len() as int)
}

/// The square named by a two-character `<file><rank>` text, file in
/// a..h and rank in 1..8, as (row, col); anything else is rejected.
pub open spec fn parse_spec(s: Seq<char>) -> Option<(int, int)> {
    if s.len() != 2 {
        None
    } else {
        let column = s[0] as int - 'a' as int;
        let row = s[1] as int - '1' as int;
        if 0 <= column < 8 && 0 <= row < 8 {
            Some((row, column))
        } else {
            None
        }
    }
}

/// Relies on String::push: it appends the given character to the
/// string and changes nothing else.
#[verifier::external_body]
pub(crate) fn push_char(s: &mut String, c: char)
    ensures
        final(s)@ == old(s)@ + seq![c],
{
    s.push(c);
}

/// The decimal digit character for n in 0..=9.
pub(crate) fn digit_char_of(n: usize) -> (c: char)
    requires
        n <= 9,
    ensures
        c == digit_char(n as int),
{
    if n == 0 {
        '0'
    } else if n == 1 {
        '1'
    } else if n == 2 {
        '2'
    } else if n == 3 {
        '3'
    } else if n == 4 {
        '4'
    } else if n == 5 {
        '5'
    } else if n == 6 {
        '6'
    } else if n == 7 {
        '7'
    } else if n == 8 {
        '8'
    } else {
        '9'
    }
}

/// Appends the decimal numeral of n.
pub(crate) fn push_decimal(s: &mut String, n: usize)
    ensures
        final(s)@ == old(s)@ + dec_digits(n as nat),
    decreases n,
{
    if n < 10 {
        push_char(s, digit_char_of(n));
    } else {
        push_decimal(s, n / 10);
        push_char(s, digit_char_of(n % 10));
        proof {
            assert(s@ =~= old(s)@ + dec_digits(n as nat));
        }
    }
}

impl ChessBoard {
    /// The compact placement string of the position: piece letters and
    /// empty-run counts rank by rank from Black's back rank down,
    /// ranks joined with '/', then a space and the side to move.
    #[verifier::loop_isolation(false)]
    pub fn write_to_fen(&self, current_player: Player) -> (r: String)
        ensures
            r@ == placement_spec(self.grid(), current_player),
    {
        let mut fen = String::new();
        let mut i: usize = 0;
        while i < 8
            invariant
                i <= 8,
                i == 0 ==> fen@ == Seq::<char>::empty(),
                i > 0 ==> fen@ == fen_rows_down_to(self.grid(), 8 - i as int),
            decreases 8 - i,
        {
            let row: usize = 7 - i;
            if i > 0 {
                push_char(&mut fen, '/');
            }
            let ghost prefix = fen@;
            let ghost row_seq = self.grid()[row as int];
            let mut empty_count: usize = 0;
            let mut c: usize = 0;
            while c < 8
                invariant
                    c <= 8,
                    empty_count <= c,
                    row < 8,
                    row_seq == self.grid()[row as int],
                    fen@ + fen_row_from(row_seq, c as int, empty_count as int) == prefix
                        + fen_row_from(row_seq, 0, 0),
                decreases 8 - c,
            {
                match self.board[row][c] {
                    Some(piece) => {
                        let ghost before = fen@;
                        if empty_count > 0 {
                            push_char(&mut fen, digit_char_of(empty_count));
                        }
                        push_char(&mut fen, piece_letter_of(piece));
                        proof {
                            assert(fen@ =~= before + run_flush(empty_count as int) + seq![
                                piece_letter(piece),
                            ]);
                            assert(fen@ + fen_row_from(row_seq, c as int + 1, 0) =~= prefix
                                + fen_row_from(row_seq, 0, 0));
                        }
                        empty_count = 0;
                    },
                    None => {
                        empty_count = empty_count + 1;
                    },
                }
                c = c + 1;
            }
            if empty_count > 0 {
                push_char(&mut fen, digit_char_of(empty_count));
            }
            proof {
                assert(fen@ =~= prefix + fen_row_from(row_seq, 0, 0));
                if i > 0 {
                    assert(fen@ =~= fen_rows_down_to(self.grid(), 7 - i as int));
                }
            }
            i = i + 1;
        }
        push_char(&mut fen, ' ');
        match current_player {
            Player::White => push_char(&mut fen, 'w'),
            Player::Black => push_char(&mut fen, 'b'),
        }
        proof {
            assert(fen@ =~= placement_spec(self.grid(), current_player));
        }
        fen
    }

    /// The rendered game: the fixed header block filled with the two
    /// player names and the result tag, a blank line, then every
    /// recorded token prefixed with a counter that advances once per
    /// token.
    #[verifier::loop_isolation(false)]
    pub fn write_to_pgn(&self, white_player: &str, black_player: &str, result: &str) -> (r: String)
        ensures
            r@ == pgn_spec(self.history(), white_player@, black_player@, result@),
    {
        let mut pgn = String::new();
        pgn.append("[Event \"Chess Game\"]\n[Site \"localhost\"]\n[Date \"2025.03.11\"]\n[Round \"1\"]\n[White \"");
        pgn.append(white_player);
        pgn.append("\"]\n[Black \"");
        pgn.append(black_player);
        pgn.append("\"]\n[Result \"");
        pgn.append(result);
        pgn.append("\"]\n\n");
        proof {
            assert(pgn@ =~= pgn_header_spec(white_player@, black_player@, result@));
        }
        let ghost header = pgn@;
        let ghost h = self.history();
        let n = self.moves_history.len();
        let mut i: usize = 0;
        while i < n
            invariant
                i <= n,
                n == self.moves_history.len(),
                h == self.history(),
                pgn@ == header + pgn_moves_prefix(h, i as int),
            decreases n - i,
        {
            let ghost before = pgn@;
            push_decimal(&mut pgn, i + 1);
            pgn.append(". ");
            let chunk: &String = &self.moves_history[i];
            pgn.append(chunk.as_str());
            pgn.append(" ");
            proof {
                reveal_strlit(". ");
                reveal_strlit(" ");
                assert(h[i as int] == self.moves_history@[i as int]@);
                assert(". "@ =~= seq!['.', ' ']);
                assert(" "@ =~= seq![' ']);
                assert(pgn@ =~= before + dec_digits((i + 1) as nat) + seq!['.', ' '] + h[i as int]
                    + seq![' ']);
                assert(pgn@ =~= header + pgn_moves_prefix(h, i + 1));
            }
            i = i + 1;
        }
        pgn
    }
}

/// The single-letter code of a piece.
pub(crate) fn piece_letter_of(p: Piece) -> (c: char)
    ensures
        c == piece_letter(p),
{
    match p {
        Piece::King(pl) => if pl == Player::White {
            'K'
        } else {
            'k'
        },
        Piece::Queen(pl) => if pl == Player::White {
            'Q'
        } else {
            'q'
        },
        Piece::Rook(pl) => if pl == Player::White {
            'R'
        } else {
            'r'
        },
        Piece::Bishop(pl) => if pl == Player::White {
            'B'
        } else {
            'b'
        },
        Piece::Knight(pl) => if pl == Player::White {
            'N'
        } else {
            'n'
        },
        Piece::Pawn(pl) => if pl == Player::White {
            'P'
        } else {
            'p'
        },
    }
}

/// Parses a two-character square name `<file><rank>` into a (row, col)
/// coordinate; out-of-range characters, or text of any other length,
/// are rejected rather than clamped.
pub fn parse_position(position: &str) -> (r: Option<(usize, usize)>)
    ensures
        match parse_spec(position@) {
            None => r is None,
            Some(p) => r matches Some(q) && q.0 < 8 && q.1 < 8 && q.0 as int == p.0 && q.1 as int
                == p.1,
        },
{
    broadcast use vstd::string::axiom_spec_iter, vstd::string::next_postcondition;

    let mut chars_iter = position.chars();
    let first = chars_iter.next();
    let second = chars_iter.next();
    let third = chars_iter.next();
    match (first, second, third) {
        (Some(file), Some(rank), None) => {
            let column: usize = match file {
                'a' => 0,
                'b' => 1,
                'c' => 2,
                'd' => 3,
                'e' => 4,
                'f' => 5,
                'g' => 6,
                'h' => 7,
                _ => {
                    return None;
                },
            };
            let row: usize = match rank {
                '1' => 0,
                '2' => 1,
                '3' => 2,
                '4' => 3,
                '5' => 4,
                '6' => 5,
                '7' => 6,
                '8' => 7,
                _ => {
                    return None;
                },
            };
            Some((row, column))
        },
        _ => None,
    }
}

} // verus!
