//! The recoverable error taxonomy of the coordinator.
//!
//! Every member is reported to the originating connection as an `Error`
//! message (or a dedicated rejection message) and never tears down a
//! connection.

use vstd::prelude::*;

verus! {

/// Why a request was rejected.
#[derive(Debug, Clone, PartialEq, Eq)]
pub enum CoordError {
    /// The lobby, game or participant id did not resolve.
    NotFound,
    /// The lobby's seats are already at its configured maximum.
    RoomFull,
    /// A move was attempted by the seat not on turn.
    WrongTurn,
    /// The candidate move is not legal in the current position; carries the
    /// legal destination squares of the piece on the move's origin square.
    InvalidMove { hints: Vec<String> },
    /// An action was attempted on a game whose status is terminal.
    GameOver,
    /// A create or join was attempted while already occupied elsewhere.
    AlreadyPlaced,
    /// A game start was attempted with fewer than two occupants.
    NotEnoughPlayers,
}

/// The wire text of each error.
pub open spec fn spec_error_text(e: CoordError) -> Seq<char> {
    match e {
        CoordError::NotFound => "Not found"@,
        CoordError::RoomFull => "Lobby is full"@,
        CoordError::WrongTurn => "Not your turn"@,
        CoordError::InvalidMove { .. } => "Illegal move"@,
        CoordError::GameOver => "Game is over"@,
        CoordError::AlreadyPlaced => "Already in a lobby or game"@,
        CoordError::NotEnoughPlayers => "Not enough players"@,
    }
}

impl CoordError {
    /// The human-readable message reported to the originating connection.
    pub fn text(&self) -> (r: &'static str)
        ensures
            r@ == spec_error_text(*self),
    {
        match self {
            CoordError::NotFound => "Not found",
            CoordError::RoomFull => "Lobby is full",
            CoordError::WrongTurn => "Not your turn",
            CoordError::InvalidMove { .. } => "Illegal move",
            CoordError::GameOver => "Game is over",
            CoordError::AlreadyPlaced => "Already in a lobby or game",
            CoordError::NotEnoughPlayers => "Not enough players",
        }
    }
}

} // verus!
