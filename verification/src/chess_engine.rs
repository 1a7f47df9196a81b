//! Position analysis support: tactical pattern descriptions and a verified
//! validator for positions written in Forsyth-Edwards notation.

use vstd::prelude::*;

verus! {

/// A tactical motif found in a position, with the squares involved.
#[derive(Debug)]
pub struct TacticalPattern {
    pub pattern_type: String,
    pub description: String,
    pub squares: Vec<String>,
}

/// Handle for position analysis.  Deeper evaluation is delegated to an
/// engine collaborator; this library contributes the verified FEN checks.
#[derive(Debug, Clone, Copy, PartialEq, Eq, Structural)]
pub struct ChessEngine {}

impl ChessEngine {
    pub fn new() -> ChessEngine {
        ChessEngine {  }
    }
}

/// Whether `c` names a piece in FEN board notation.
pub open spec fn is_piece_char(c: char) -> bool {
    c == 'p' || c == 'n' || c == 'b' || c == 'r' || c == 'q' || c == 'k' || c == 'P' || c == 'N'
        || c == 'B' || c == 'R' || c == 'Q' || c == 'K'
}

/// Whether `c` is a castling-rights letter.
pub open spec fn is_castle_char(c: char) -> bool {
    c == 'K' || c == 'Q' || c == 'k' || c == 'q'
}

/// The FEN grammar, consumed left to right as a state machine.
///
/// `phase` names the field being read: the board, the side to move, the
/// castling rights, the en passant square, the halfmove clock and the move
/// number, separated by single spaces.  Within the board, `a` accumulates
/// the file count of the current rank — each rank must account for exactly
/// eight files — and `b` counts the rank separators, of which there must be
/// exactly seven.  In the later fields `a` tracks the character count read
/// so far.
pub open spec fn fen_ok(s: Seq<char>, i: int, phase: int, a: int, b: int) -> bool
    decreases s.len() - i,
{
    if i < 0 || i > s.len() {
        false
    } else if i == s.len() {
        phase == 5 && a >= 1
    } else {
        let c = s[i];
        if phase == 0 {
            if c == '/' {
                a == 8 && b < 7 && fen_ok(s, i + 1, 0, 0, b + 1)
            } else if '1' <= c <= '8' {
                a + (c as int - '0' as int) <= 8 && fen_ok(s, i + 1, 0, a + (c as int - '0' as int), b)
            } else if is_piece_char(c) {
                a + 1 <= 8 && fen_ok(s, i + 1, 0, a + 1, b)
            } else if c == ' ' {
                a == 8 && b == 7 && fen_ok(s, i + 1, 1, 0, 0)
            } else {
                false
            }
        } else if phase == 1 {
            if a == 0 {
                (c == 'w' || c == 'b') && fen_ok(s, i + 1, 1, 1, 0)
            } else {
                c == ' ' && fen_ok(s, i + 1, 2, 0, 0)
            }
        } else if phase == 2 {
            if a == 0 {
                if c == '-' {
                    fen_ok(s, i + 1, 2, 5, 0)
                } else {
                    is_castle_char(c) && fen_ok(s, i + 1, 2, 1, 0)
                }
            } else if c == ' ' {
                fen_ok(s, i + 1, 3, 0, 0)
            } else {
                1 <= a < 4 && is_castle_char(c) && fen_ok(s, i + 1, 2, a + 1, 0)
            }
        } else if phase == 3 {
            if a == 0 {
                if c == '-' {
                    fen_ok(s, i + 1, 3, 2, 0)
                } else {
                    'a' <= c <= 'h' && fen_ok(s, i + 1, 3, 1, 0)
                }
            } else if a == 1 {
                (c == '3' || c == '6') && fen_ok(s, i + 1, 3, 2, 0)
            } else {
                c == ' ' && fen_ok(s, i + 1, 4, 0, 0)
            }
        } else if phase == 4 {
            if '0' <= c <= '9' {
                fen_ok(s, i + 1, 4, a + 1, 0)
            } else {
                c == ' ' && a >= 1 && fen_ok(s, i + 1, 5, 0, 0)
            }
        } else if phase == 5 {
            '0' <= c <= '9' && fen_ok(s, i + 1, 5, a + 1, 0)
        } else {
            false
        }
    }
}

/// Whether `s` is a syntactically valid FEN record: a board of eight ranks
/// each accounting for eight files, a side to move, castling rights, an en
/// passant square, and the two move counters.
pub open spec fn is_valid_fen(s: Seq<char>) -> bool {
    fen_ok(s, 0, 0, 0, 0)
}

/// Validates a position string against the FEN grammar.
pub fn validate_fen(fen: &str) -> (r: bool)
    ensures
        r == is_valid_fen(fen@),
{
    let n = fen.unicode_len();
    let mut i: usize = 0;
    let mut phase: u8 = 0;
    let mut a: usize = 0;
    let mut b: usize = 0;
    loop
        invariant
            0 <= i <= n,
            n == fen@.len(),
            phase <= 5,
            phase == 0 ==> a <= 8,
            phase == 1 ==> a <= 1,
            phase == 2 ==> a <= 5,
            phase == 3 ==> a <= 2,
            phase >= 4 ==> a <= i,
            b <= 7,
            phase >= 1 ==> b == 0,
            is_valid_fen(fen@) == fen_ok(fen@, i as int, phase as int, a as int, b as int),
        decreases n - i,
    {
        if i == n {
            return phase == 5 && a >= 1;
        }
        let ghost oi = i as int;
        let ghost ophase = phase as int;
        let ghost oa = a as int;
        let ghost ob = b as int;
        let c = fen.get_char(i);
        if phase == 0 {
            if c == '/' {
                if a != 8 || b >= 7 {
                    return false;
                }
                a = 0;
                b = b + 1;
            } else if '1' <= c && c <= '8' {
                let d = c as usize - '0' as usize;
                if a + d > 8 {
                    return false;
                }
                a = a + d;
            } else if c == 'p' || c == 'n' || c == 'b' || c == 'r' || c == 'q' || c == 'k' || c
                == 'P' || c == 'N' || c == 'B' || c == 'R' || c == 'Q' || c == 'K' {
                if a + 1 > 8 {
                    return false;
                }
                a = a + 1;
            } else if c == ' ' {
                if a != 8 || b != 7 {
                    return false;
                }
                phase = 1;
                a = 0;
                b = 0;
            } else {
                return false;
            }
        } else if phase == 1 {
            if a == 0 {
                if !(c == 'w' || c == 'b') {
                    return false;
                }
                a = 1;
            } else {
                if c != ' ' {
                    return false;
                }
                phase = 2;
                a = 0;
            }
        } else if phase == 2 {
            if a == 0 {
                if c == '-' {
                    a = 5;
                } else if c == 'K' || c == 'Q' || c == 'k' || c == 'q' {
                    a = 1;
                } else {
                    return false;
                }
            } else if c == ' ' {
                phase = 3;
                a = 0;
            } else {
                if !(1 <= a && a < 4 && (c == 'K' || c == 'Q' || c == 'k' || c == 'q')) {
                    return false;
                }
                a = a + 1;
            }
        } else if phase == 3 {
            if a == 0 {
                if c == '-' {
                    a = 2;
                } else if 'a' <= c && c <= 'h' {
                    a = 1;
                } else {
                    return false;
                }
            } else if a == 1 {
                if !(c == '3' || c == '6') {
                    return false;
                }
                a = 2;
            } else {
                if c != ' ' {
                    return false;
                }
                phase = 4;
                a = 0;
            }
        } else if phase == 4 {
            if '0' <= c && c <= '9' {
                a = a + 1;
            } else {
                if !(c == ' ' && a >= 1) {
                    return false;
                }
                phase = 5;
                a = 0;
            }
        } else {
            if !('0' <= c && c <= '9') {
                return false;
            }
            a = a + 1;
        }
        proof {
            assert(fen_ok(fen@, oi, ophase, oa, ob) == fen_ok(
                fen@,
                oi + 1,
                phase as int,
                a as int,
                b as int,
            ));
        }
        i = i + 1;
    }
}

} // verus!
