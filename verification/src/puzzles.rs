//! Tactical puzzle taxonomy used by the training catalogue.

use vstd::prelude::*;

verus! {

/// Difficulty band of a tactical puzzle.
#[derive(Debug, Clone, Copy, PartialEq, Eq, Structural, Hash)]
pub enum Difficulty {
    Beginner,
    Intermediate,
    Advanced,
    Expert,
}

/// Tactical motif a puzzle trains.
#[derive(Debug, Clone, Copy, PartialEq, Eq, Structural, Hash)]
pub enum Theme {
    Fork,
    Pin,
    Skewer,
    Discovery,
    DoubleAttack,
    Deflection,
    Decoy,
    Zugzwang,
    Sacrifice,
    Clearance,
    Interference,
    Zwischenzug,
    BackrankMate,
    SmotheredMate,
    ArabianMate,
    QueenMate,
    PawnEndgame,
    RookEndgame,
    QueenEndgame,
    MinorPiece,
}

/// The one-line explanation attached to each theme.
pub open spec fn spec_theme_description(theme: Theme) -> Seq<char> {
    match theme {
        Theme::Fork => "Attack two pieces simultaneously"@,
        Theme::Pin => "Piece cannot move without exposing valuable piece"@,
        Theme::Skewer => "Force valuable piece to move, exposing less valuable one"@,
        Theme::Discovery => "Move one piece to reveal attack from another"@,
        Theme::DoubleAttack => "Attack two targets at once"@,
        Theme::Deflection => "Force piece away from important duty"@,
        Theme::Decoy => "Lure piece to wrong square"@,
        Theme::Zugzwang => "Any move worsens position"@,
        Theme::Sacrifice => "Give up material for advantage"@,
        Theme::Clearance => "Remove piece from important square"@,
        Theme::Interference => "Block line between pieces"@,
        Theme::Zwischenzug => "In-between move that changes evaluation"@,
        Theme::BackrankMate => "Mate on back rank"@,
        Theme::SmotheredMate => "Mate with knight when king blocked by own pieces"@,
        Theme::ArabianMate => "Mate with rook and knight"@,
        Theme::QueenMate => "Mate pattern involving queen"@,
        Theme::PawnEndgame => "Endgame with only pawns"@,
        Theme::RookEndgame => "Endgame with rooks"@,
        Theme::QueenEndgame => "Endgame with queens"@,
        Theme::MinorPiece => "Endgame with bishops/knights"@,
    }
}

impl Theme {
    /// Explains the theme in one line.
    pub fn get_description(&self) -> (r: &'static str)
        ensures
            r@ == spec_theme_description(*self),
    {
        match self {
            Theme::Fork => "Attack two pieces simultaneously",
            Theme::Pin => "Piece cannot move without exposing valuable piece",
            Theme::Skewer => "Force valuable piece to move, exposing less valuable one",
            Theme::Discovery => "Move one piece to reveal attack from another",
            Theme::DoubleAttack => "Attack two targets at once",
            Theme::Deflection => "Force piece away from important duty",
            Theme::Decoy => "Lure piece to wrong square",
            Theme::Zugzwang => "Any move worsens position",
            Theme::Sacrifice => "Give up material for advantage",
            Theme::Clearance => "Remove piece from important square",
            Theme::Interference => "Block line between pieces",
            Theme::Zwischenzug => "In-between move that changes evaluation",
            Theme::BackrankMate => "Mate on back rank",
            Theme::SmotheredMate => "Mate with knight when king blocked by own pieces",
            Theme::ArabianMate => "Mate with rook and knight",
            Theme::QueenMate => "Mate pattern involving queen",
            Theme::PawnEndgame => "Endgame with only pawns",
            Theme::RookEndgame => "Endgame with rooks",
            Theme::QueenEndgame => "Endgame with queens",
            Theme::MinorPiece => "Endgame with bishops/knights",
        }
    }
}

} // verus!
