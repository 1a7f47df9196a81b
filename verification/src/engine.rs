//! The position engine boundary.
//!
//! Full chess legality, move application and end-of-game detection are
//! delegated to the `shakmaty` crate through the trusted items below.  A
//! position is carried as its FEN string, so the engine's answers are
//! functions of plain strings alone; their values are given names
//! ([`engine_step`], [`legal_moves_of`]) that the callers' contracts can
//! speak of exactly.

use vstd::prelude::*;
use shakmaty::Position;

verus! {

/// The standard starting position in Forsyth-Edwards notation.
pub open spec fn initial_fen() -> Seq<char> {
    "rnbqkbnr/pppppppp/8/8/8/8/PPPPPPPP/RNBQKBNR w KQkq - 0 1"@
}

/// The starting FEN as an owned string.
pub fn initial_fen_str() -> (r: String)
    ensures
        r@ == initial_fen(),
{
    let s: &str = "rnbqkbnr/pppppppp/8/8/8/8/PPPPPPPP/RNBQKBNR w KQkq - 0 1";
    s.to_owned()
}

/// What the engine reports after applying one legal move.
pub struct EngineStep {
    pub fen: String,
    pub is_capture: bool,
    pub is_check: bool,
    pub is_checkmate: bool,
    pub is_stalemate: bool,
}

/// Model of an engine step: the successor FEN and the move's flags.
pub struct EngineStepV {
    pub fen: Seq<char>,
    pub is_capture: bool,
    pub is_check: bool,
    pub is_checkmate: bool,
    pub is_stalemate: bool,
}

impl View for EngineStep {
    type V = EngineStepV;

    open spec fn view(&self) -> EngineStepV {
        EngineStepV {
            fen: self.fen@,
            is_capture: self.is_capture,
            is_check: self.is_check,
            is_checkmate: self.is_checkmate,
            is_stalemate: self.is_stalemate,
        }
    }
}

/// The engine's verdict on one candidate move: `None` when `uci` is not a
/// legal move of the position written in `fen`, otherwise the successor
/// position's FEN with the check, capture, checkmate and stalemate flags.
/// A function of the two strings alone; what it is on given strings is
/// pages of chess rules, so it stays a name.
pub uninterp spec fn engine_step(fen: Seq<char>, uci: Seq<char>) -> Option<EngineStepV>;

/// The legal moves of the position written in `fen`, one (origin,
/// destination) pair of square indices per move; empty when `fen` does not
/// parse as a position.  A function of the string alone.
pub uninterp spec fn legal_moves_of(fen: Seq<char>) -> Seq<(u8, u8)>;

/// Relies on shakmaty's Fen::from_ascii, Fen::into_position,
/// UciMove::from_ascii, UciMove::to_move, Position::play and
/// Fen::from_position: applies one candidate move to the position written
/// in `fen`.  All six are pure functions of their arguments, so the result
/// is a function of the two strings; it is `Some` exactly when the FEN
/// parses and the move is legal.  A position is never both checkmate (king
/// attacked, position.rs) and stalemate (king not attacked).
#[verifier::external_body]
pub(crate) fn engine_try_move(fen: &str, uci: &str) -> (r: Option<EngineStep>)
    ensures
        r is Some <==> engine_step(fen@, uci@) is Some,
        r matches Some(step) ==> engine_step(fen@, uci@) == Some(step@),
        r matches Some(step) ==> !(step.is_checkmate && step.is_stalemate),
{
    let fen_rec = shakmaty::fen::Fen::from_ascii(fen.as_bytes()).ok()?;
    let pos: shakmaty::Chess = fen_rec.into_position(shakmaty::CastlingMode::Standard).ok()?;
    let m = shakmaty::uci::UciMove::from_ascii(uci.as_bytes()).ok()?.to_move(&pos).ok()?;
    let next = pos.play(m).ok()?;
    let new_fen = shakmaty::fen::Fen::from_position(&next, shakmaty::EnPassantMode::Legal).to_string();
    Some(EngineStep {
        fen: new_fen,
        is_capture: m.is_capture(),
        is_check: next.is_check(),
        is_checkmate: next.is_checkmate(),
        is_stalemate: next.is_stalemate(),
    })
}

/// Relies on shakmaty's Fen::from_ascii, Fen::into_position and
/// Position::legal_moves: the legal moves of the position written in `fen`,
/// a function of the string; an unparseable `fen` yields no moves.  Square
/// indices cast from shakmaty's `Square` are below 64 by construction.
#[verifier::external_body]
pub(crate) fn engine_legal_moves(fen: &str) -> (r: Vec<(u8, u8)>)
    ensures
        r@ == legal_moves_of(fen@),
        forall|i: int| 0 <= i < r@.len() ==> (r@[i].0 < 64 && r@[i].1 < 64),
{
    let mut v: Vec<(u8, u8)> = Vec::new();
    let pos: Option<shakmaty::Chess> = shakmaty::fen::Fen::from_ascii(fen.as_bytes())
        .ok()
        .and_then(|f| f.into_position(shakmaty::CastlingMode::Standard).ok());
    let Some(pos) = pos else {
        return v;
    };
    for m in pos.legal_moves() {
        match m.from() {
            Some(f) => v.push((f as u8, m.to() as u8)),
            None => {}
        }
    }
    v
}

/// Square index of a name like "e2": file plus eight times rank.
pub open spec fn spec_square_index(s: Seq<char>) -> Option<u8> {
    if s.len() == 2 && 'a' <= s[0] <= 'h' && '1' <= s[1] <= '8' {
        Some(((s[0] as u8 - 'a' as u8) + 8 * (s[1] as u8 - '1' as u8)) as u8)
    } else {
        None
    }
}

/// Parses a square name such as "e2" into its 0-63 index.
pub fn parse_square(s: &str) -> (r: Option<u8>)
    ensures
        r == spec_square_index(s@),
        r matches Some(i) ==> i < 64,
{
    let n = s.unicode_len();
    if n != 2 {
        return None;
    }
    let c0 = s.get_char(0);
    let c1 = s.get_char(1);
    if 'a' <= c0 && c0 <= 'h' && '1' <= c1 && c1 <= '8' {
        Some((c0 as u8 - 'a' as u8) + 8 * (c1 as u8 - '1' as u8))
    } else {
        None
    }
}

/// The file letter of a square index.
pub open spec fn spec_file_char(idx: u8) -> char {
    ('a' as u8 + idx % 8) as char
}

/// The rank digit of a square index.
pub open spec fn spec_rank_char(idx: u8) -> char {
    ('1' as u8 + idx / 8) as char
}

/// The two-character name of a square index.
pub open spec fn spec_square_name(idx: u8) -> Seq<char> {
    seq![spec_file_char(idx), spec_rank_char(idx)]
}

/// Renders a 0-63 square index as its name, such as "e2".
pub fn square_name(idx: u8) -> (r: String)
    requires
        idx < 64,
    ensures
        r@ == spec_square_name(idx),
{
    let file: &str = match idx % 8 {
        0 => "a",
        1 => "b",
        2 => "c",
        3 => "d",
        4 => "e",
        5 => "f",
        6 => "g",
        _ => "h",
    };
    let rank: &str = match idx / 8 {
        0 => "1",
        1 => "2",
        2 => "3",
        3 => "4",
        4 => "5",
        5 => "6",
        6 => "7",
        _ => "8",
    };
    let mut r = file.to_owned();
    r.append(rank);
    proof {
        reveal_strlit("a");
        reveal_strlit("b");
        reveal_strlit("c");
        reveal_strlit("d");
        reveal_strlit("e");
        reveal_strlit("f");
        reveal_strlit("g");
        reveal_strlit("h");
        reveal_strlit("1");
        reveal_strlit("2");
        reveal_strlit("3");
        reveal_strlit("4");
        reveal_strlit("5");
        reveal_strlit("6");
        reveal_strlit("7");
        reveal_strlit("8");
        assert(r@ =~= spec_square_name(idx));
    }
    r
}

/// The views of a sequence of strings.
pub open spec fn strings_view(s: Seq<String>) -> Seq<Seq<char>> {
    s.map_values(|x: String| x@)
}

/// The destination-square names of every legal move out of `from`, in the
/// order the engine listed them.
pub open spec fn spec_hints(moves: Seq<(u8, u8)>, from: u8) -> Seq<Seq<char>>
    decreases moves.len(),
{
    if moves.len() == 0 {
        Seq::empty()
    } else if moves.first().0 == from {
        seq![spec_square_name(moves.first().1)] + spec_hints(moves.drop_first(), from)
    } else {
        spec_hints(moves.drop_first(), from)
    }
}

/// Collects the legal destinations out of `from` from an engine move list.
pub fn hints_from_moves(moves: &Vec<(u8, u8)>, from: u8) -> (r: Vec<String>)
    requires
        forall|i: int| 0 <= i < moves@.len() ==> (moves@[i].0 < 64 && moves@[i].1 < 64),
    ensures
        strings_view(r@) =~= spec_hints(moves@, from),
{
    let mut r: Vec<String> = Vec::new();
    let n = moves.len();
    assert(moves@.skip(0) == moves@);
    for i in 0..n
        invariant
            n == moves@.len(),
            forall|k: int| 0 <= k < moves@.len() ==> (moves@[k].0 < 64 && moves@[k].1 < 64),
            spec_hints(moves@, from) =~= strings_view(r@) + spec_hints(
                moves@.skip(i as int),
                from,
            ),
    {
        let (f, t) = moves[i];
        assert(moves@.skip(i as int).first() == moves@[i as int]);
        assert(moves@.skip(i as int).drop_first() == moves@.skip(i + 1));
        if f == from {
            r.push(square_name(t));
        }
    }
    assert(spec_hints(moves@.skip(n as int), from) =~= Seq::<Seq<char>>::empty());
    r
}

} // verus!
