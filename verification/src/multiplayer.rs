//! The wire vocabulary of the coordinator: inbound requests, outbound
//! notifications, and the game snapshot sent to joiners.

use vstd::prelude::*;
use crate::game::{GameMessage, GameMessageV};
use crate::lobby::{LobbyConfig, LobbyMessage, LobbyMessageV};
use crate::util::clone_strings;

verus! {

/// Lifecycle of a room as seen by clients in snapshots.
#[derive(Debug)]
pub enum GameStatus {
    Waiting,
    Active,
    Paused,
    Finished { winner: Option<String>, reason: String },
}

impl Clone for GameStatus {
    fn clone(&self) -> (r: Self)
        ensures
            r@ == self@,
    {
        match self {
            GameStatus::Waiting => GameStatus::Waiting,
            GameStatus::Active => GameStatus::Active,
            GameStatus::Paused => GameStatus::Paused,
            GameStatus::Finished { winner, reason } => GameStatus::Finished {
                winner: match winner {
                    Some(w) => Some(w.clone()),
                    None => None,
                },
                reason: reason.clone(),
            },
        }
    }
}

/// Snapshot of a game, as sent to a joiner: position, move list, side to
/// move, remaining clocks and status.
#[derive(Debug)]
pub struct GameState {
    pub fen: String,
    pub moves: Vec<String>,
    pub current_turn: String,
    pub time_white: i32,
    pub time_black: i32,
    pub status: GameStatus,
}

/// Mathematical model of a [`GameStatus`].
pub enum GameStatusV {
    Waiting,
    Active,
    Paused,
    Finished { winner: Option<Seq<char>>, reason: Seq<char> },
}

impl View for GameStatus {
    type V = GameStatusV;

    open spec fn view(&self) -> GameStatusV {
        match self {
            GameStatus::Waiting => GameStatusV::Waiting,
            GameStatus::Active => GameStatusV::Active,
            GameStatus::Paused => GameStatusV::Paused,
            GameStatus::Finished { winner, reason } => GameStatusV::Finished {
                winner: match winner {
                    Some(w) => Some(w@),
                    None => None,
                },
                reason: reason@,
            },
        }
    }
}

/// Mathematical model of a [`GameState`] snapshot.
pub struct GameStateV {
    pub fen: String,
    pub moves: Seq<String>,
    pub current_turn: Seq<char>,
    pub time_white: i32,
    pub time_black: i32,
    pub status: GameStatusV,
}

impl View for GameState {
    type V = GameStateV;

    open spec fn view(&self) -> GameStateV {
        GameStateV {
            fen: self.fen,
            moves: self.moves@,
            current_turn: self.current_turn@,
            time_white: self.time_white,
            time_black: self.time_black,
            status: self.status@,
        }
    }
}

impl Clone for GameState {
    fn clone(&self) -> (r: Self)
        ensures
            r@ == self@,
    {
        GameState {
            fen: self.fen.clone(),
            moves: clone_strings(&self.moves),
            current_turn: self.current_turn.clone(),
            time_white: self.time_white,
            time_black: self.time_black,
            status: self.status.clone(),
        }
    }
}

/// The status shown in a snapshot for a game status.
pub open spec fn spec_status(s: crate::game::GameState) -> GameStatusV {
    match s {
        crate::game::GameState::Playing => GameStatusV::Active,
        crate::game::GameState::Draw => GameStatusV::Finished { winner: None, reason: "draw"@ },
        crate::game::GameState::WhiteWins => GameStatusV::Finished {
            winner: Some("white"@),
            reason: "finished"@,
        },
        crate::game::GameState::BlackWins => GameStatusV::Finished {
            winner: Some("black"@),
            reason: "finished"@,
        },
        crate::game::GameState::Aborted => GameStatusV::Finished {
            winner: None,
            reason: "aborted"@,
        },
    }
}

/// The snapshot a joiner sees of a game.
pub open spec fn spec_snapshot(g: crate::game::Game) -> GameStateV {
    GameStateV {
        fen: g.fen,
        moves: g.moves@,
        current_turn: if g.white_to_move {
            "white"@
        } else {
            "black"@
        },
        time_white: g.time_white,
        time_black: g.time_black,
        status: spec_status(g.state),
    }
}

/// Builds the snapshot of a game for a joiner.
pub fn game_snapshot(g: &crate::game::Game) -> (s: GameState)
    ensures
        s@ == spec_snapshot(*g),
{
    let turn: &str = if g.white_to_move {
        "white"
    } else {
        "black"
    };
    let status = match g.state {
        crate::game::GameState::Playing => GameStatus::Active,
        crate::game::GameState::Draw => {
            let rs: &str = "draw";
            GameStatus::Finished { winner: None, reason: rs.to_owned() }
        },
        crate::game::GameState::WhiteWins => {
            let wc: &str = "white";
            let rs: &str = "finished";
            GameStatus::Finished { winner: Some(wc.to_owned()), reason: rs.to_owned() }
        },
        crate::game::GameState::BlackWins => {
            let bc: &str = "black";
            let rs: &str = "finished";
            GameStatus::Finished { winner: Some(bc.to_owned()), reason: rs.to_owned() }
        },
        crate::game::GameState::Aborted => {
            let rs: &str = "aborted";
            GameStatus::Finished { winner: None, reason: rs.to_owned() }
        },
    };
    GameState {
        fen: g.fen.clone(),
        moves: clone_strings(&g.moves),
        current_turn: turn.to_owned(),
        time_white: g.time_white,
        time_black: g.time_black,
        status,
    }
}

/// Relies on rand::random_range over `0..n`: the drawn value is always
/// within the range.  Nothing more can be promised of a random draw.
#[verifier::external_body]
fn random_below(n: usize) -> (r: usize)
    requires
        n > 0,
    ensures
        r < n,
{
    rand::random_range(0..n)
}

/// Mints a human-readable code for a private room: the fixed prefix
/// followed by four characters drawn from the upper-case alphanumeric
/// alphabet.
pub fn generate_room_code() -> (r: String)
    ensures
        r@.len() == 10,
        r@.subrange(0, 6) == "CHESS-"@,
        forall|i: int|
            6 <= i < 10 ==> "ABCDEFGHIJKLMNOPQRSTUVWXYZ0123456789"@.contains(r@[i]),
{
    let charset: &str = "ABCDEFGHIJKLMNOPQRSTUVWXYZ0123456789";
    let prefix: &str = "CHESS-";
    proof {
        reveal_strlit("ABCDEFGHIJKLMNOPQRSTUVWXYZ0123456789");
        reveal_strlit("CHESS-");
    }
    let mut r = prefix.to_owned();
    let mut i: usize = 0;
    while i < 4
        invariant
            i <= 4,
            charset@ == "ABCDEFGHIJKLMNOPQRSTUVWXYZ0123456789"@,
            charset@.len() == 36,
            charset.is_ascii(),
            r@.len() == 6 + i,
            r@.subrange(0, 6) == "CHESS-"@,
            forall|k: int| 6 <= k < r@.len() ==> charset@.contains(r@[k]),
        decreases 4 - i,
    {
        let idx = random_below(36);
        let c = charset.substring_ascii(idx, idx + 1);
        let ghost before = r@;
        r.append(c);
        proof {
            assert(r@.subrange(0, 6) =~= before.subrange(0, 6));
            assert(r@[before.len() as int] == charset@[idx as int]);
        }
        i = i + 1;
    }
    r
}

/// Requests a client may send over its connection.
#[derive(Debug)]
pub enum ClientMessage {
    Connect { token: String },
    CreateLobby { config: LobbyConfig },
    JoinLobby { lobby_id: u64, as_spectator: bool },
    LeaveLobby,
    StartGame,
    MakeMove { from: String, to: String, promotion: Option<String> },
    OfferDraw,
    AcceptDraw,
    DeclineDraw,
    Resign,
    SendChatMessage { text: String },
    Ping,
}

/// Notifications the coordinator sends to clients.
#[derive(Debug)]
pub enum ServerMessage {
    Connected { player_id: u64 },
    RoomJoined { room_id: u64, game_state: Option<GameState>, your_color: Option<String> },
    ChatMessage { player_id: u64, username: String, text: String, timestamp: i64 },
    SpectatorJoined { spectator_id: u64, spectator_count: usize },
    SpectatorLeft { spectator_id: u64, spectator_count: usize },
    Error { message: String },
    Pong,
    LobbyMessage(LobbyMessage),
    GameMessage(GameMessage),
}

/// Mathematical model of a [`ServerMessage`].
pub enum ServerMessageV {
    Connected { player_id: u64 },
    RoomJoined { room_id: u64, game_state: Option<GameStateV>, your_color: Option<Seq<char>> },
    ChatMessage { player_id: u64, username: String, text: String, timestamp: i64 },
    SpectatorJoined { spectator_id: u64, spectator_count: usize },
    SpectatorLeft { spectator_id: u64, spectator_count: usize },
    Error { message: Seq<char> },
    Pong,
    LobbyMessage(LobbyMessageV),
    GameMessage(GameMessageV),
}

impl View for ServerMessage {
    type V = ServerMessageV;

    open spec fn view(&self) -> ServerMessageV {
        match self {
            ServerMessage::Connected { player_id } => ServerMessageV::Connected {
                player_id: *player_id,
            },
            ServerMessage::RoomJoined { room_id, game_state, your_color } => {
                ServerMessageV::RoomJoined {
                    room_id: *room_id,
                    game_state: match game_state {
                        Some(gs) => Some(gs@),
                        None => None,
                    },
                    your_color: match your_color {
                        Some(c) => Some(c@),
                        None => None,
                    },
                }
            },
            ServerMessage::ChatMessage { player_id, username, text, timestamp } => {
                ServerMessageV::ChatMessage {
                    player_id: *player_id,
                    username: *username,
                    text: *text,
                    timestamp: *timestamp,
                }
            },
            ServerMessage::SpectatorJoined { spectator_id, spectator_count } => {
                ServerMessageV::SpectatorJoined {
                    spectator_id: *spectator_id,
                    spectator_count: *spectator_count,
                }
            },
            ServerMessage::SpectatorLeft { spectator_id, spectator_count } => {
                ServerMessageV::SpectatorLeft {
                    spectator_id: *spectator_id,
                    spectator_count: *spectator_count,
                }
            },
            ServerMessage::Error { message } => ServerMessageV::Error { message: message@ },
            ServerMessage::Pong => ServerMessageV::Pong,
            ServerMessage::LobbyMessage(m) => ServerMessageV::LobbyMessage(m@),
            ServerMessage::GameMessage(m) => ServerMessageV::GameMessage(m@),
        }
    }
}

impl Clone for ServerMessage {
    fn clone(&self) -> (r: Self)
        ensures
            r@ == self@,
    {
        match self {
            ServerMessage::Connected { player_id } => ServerMessage::Connected {
                player_id: *player_id,
            },
            ServerMessage::RoomJoined { room_id, game_state, your_color } => {
                ServerMessage::RoomJoined {
                    room_id: *room_id,
                    game_state: match game_state {
                        Some(gs) => Some(gs.clone()),
                        None => None,
                    },
                    your_color: match your_color {
                        Some(c) => Some(c.clone()),
                        None => None,
                    },
                }
            },
            ServerMessage::ChatMessage { player_id, username, text, timestamp } => {
                ServerMessage::ChatMessage {
                    player_id: *player_id,
                    username: username.clone(),
                    text: text.clone(),
                    timestamp: *timestamp,
                }
            },
            ServerMessage::SpectatorJoined { spectator_id, spectator_count } => {
                ServerMessage::SpectatorJoined {
                    spectator_id: *spectator_id,
                    spectator_count: *spectator_count,
                }
            },
            ServerMessage::SpectatorLeft { spectator_id, spectator_count } => {
                ServerMessage::SpectatorLeft {
                    spectator_id: *spectator_id,
                    spectator_count: *spectator_count,
                }
            },
            ServerMessage::Error { message } => ServerMessage::Error {
                message: message.clone(),
            },
            ServerMessage::Pong => ServerMessage::Pong,
            ServerMessage::LobbyMessage(m) => ServerMessage::LobbyMessage(m.clone()),
            ServerMessage::GameMessage(m) => ServerMessage::GameMessage(m.clone()),
        }
    }
}

} // verus!
