//! The participant directory's view of one participant.

use vstd::prelude::*;

verus! {

/// Where a participant currently is.  `Online` means idle: connected but in
/// no lobby or game.
#[derive(Debug, Clone, Copy, PartialEq, Eq, Structural)]
pub enum PlayerStatus {
    Online,
    InLobby(u64),
    InGame(u64),
    Offline,
}

/// One participant: profile plus current placement.  `connection_id` is the
/// live connection that messages for this participant are delivered to;
/// `None` after a disconnect until the identity reconnects.
#[derive(Debug, Clone)]
pub struct Player {
    pub id: u64,
    pub username: String,
    pub rating: u32,
    pub status: PlayerStatus,
    pub connection_id: Option<u64>,
}

} // verus!
