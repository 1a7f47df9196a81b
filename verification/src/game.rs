//! Live games: seats, position, move list, clocks and status.

use vstd::prelude::*;
use crate::engine::{
    engine_legal_moves,
    engine_step,
    engine_try_move,
    hints_from_moves,
    initial_fen,
    initial_fen_str,
    legal_moves_of,
    parse_square,
    spec_hints,
    spec_square_index,
    strings_view,
    EngineStep,
};
use crate::errors::CoordError;
use crate::util::clone_strings;
use crate::lobby::{LobbyMessage, LobbyMessageV, LobbyState, PlayerInfo};
use crate::multiplayer::{ServerMessage, ServerMessageV};
use crate::player::PlayerStatus;
use crate::router::{BroadcastMessage, BroadcastTarget};
use crate::state::{
    find_game_index,
    placed,
    find_lobby_index,
    find_player_index,
    seq_has_player,
    seq_player,
    seq_player_index,
    set_placement,
    with_placement,
    WsState,
};

verus! {

/// Status of a game.  Everything but `Playing` is terminal and absorbing:
/// no transition leads out of it.
#[derive(Debug, Clone, Copy, PartialEq, Eq, Structural)]
pub enum GameState {
    Playing,
    Draw,
    WhiteWins,
    BlackWins,
    Aborted,
}

/// Whether a status accepts no further moves.
pub open spec fn is_terminal(s: GameState) -> bool {
    s != GameState::Playing
}

/// One live game record.  The position is carried as its FEN string, from
/// which the engine answers every legality question; `white_to_move`
/// mirrors its side to move; `moves` is the accumulated move list in UCI
/// notation.
#[derive(Debug)]
pub struct Game {
    pub id: u64,
    pub white_player: u64,
    pub black_player: u64,
    pub fen: String,
    pub white_to_move: bool,
    pub moves: Vec<String>,
    pub time_control: String,
    pub time_white: i32,
    pub time_black: i32,
    pub state: GameState,
    pub lobby_id: u64,
    pub spectators: Vec<u64>,
}

impl Game {
    /// Record-local invariant: the two seats are distinct, spectators are
    /// listed once each, and the side to move alternates starting with
    /// white, so it is determined by the parity of the move list.
    pub open spec fn wf(self) -> bool {
        &&& self.white_player != self.black_player
        &&& (self.white_to_move <==> self.moves@.len() % 2 == 0)
        &&& forall|i: int, j: int|
            0 <= i < j < self.spectators@.len() ==> self.spectators@[i] != self.spectators@[j]
    }

    /// The participant that owns the seat on turn.
    pub open spec fn seat_to_move(self) -> u64 {
        if self.white_to_move {
            self.white_player
        } else {
            self.black_player
        }
    }

    /// Whether `pid` sits at one of the two seats.
    pub open spec fn is_seat(self, pid: u64) -> bool {
        pid == self.white_player || pid == self.black_player
    }
}

/// Game-scoped notifications, broadcast to seats and spectators.
#[derive(Debug)]
pub enum GameMessage {
    GameStarted { game_id: u64, white_player: PlayerInfo, black_player: PlayerInfo, fen: String },
    MoveMade {
        player_id: u64,
        from: String,
        to: String,
        fen: String,
        san: String,
        is_check: bool,
        is_capture: bool,
    },
    GameOver { winner: Option<u64>, reason: String },
    InvalidMove { reason: String, hints: Vec<String> },
}

/// Mathematical model of a [`GameMessage`].
pub enum GameMessageV {
    GameStarted { game_id: u64, white_player: PlayerInfo, black_player: PlayerInfo, fen: Seq<char> },
    MoveMade {
        player_id: u64,
        from: String,
        to: String,
        fen: String,
        san: String,
        is_check: bool,
        is_capture: bool,
    },
    GameOver { winner: Option<u64>, reason: Seq<char> },
    InvalidMove { reason: Seq<char>, hints: Seq<String> },
}

impl View for GameMessage {
    type V = GameMessageV;

    open spec fn view(&self) -> GameMessageV {
        match self {
            GameMessage::GameStarted { game_id, white_player, black_player, fen } => {
                GameMessageV::GameStarted {
                    game_id: *game_id,
                    white_player: *white_player,
                    black_player: *black_player,
                    fen: fen@,
                }
            },
            GameMessage::MoveMade { player_id, from, to, fen, san, is_check, is_capture } => {
                GameMessageV::MoveMade {
                    player_id: *player_id,
                    from: *from,
                    to: *to,
                    fen: *fen,
                    san: *san,
                    is_check: *is_check,
                    is_capture: *is_capture,
                }
            },
            GameMessage::GameOver { winner, reason } => GameMessageV::GameOver {
                winner: *winner,
                reason: reason@,
            },
            GameMessage::InvalidMove { reason, hints } => GameMessageV::InvalidMove {
                reason: reason@,
                hints: hints@,
            },
        }
    }
}

/// Whether `c` is a decimal digit.
pub open spec fn is_digit(c: char) -> bool {
    '0' <= c <= '9'
}

/// Value of the digit prefix of `s` from position `i`, starting from `acc`;
/// `None` once the value would pass four digits.
pub open spec fn mins_acc(s: Seq<char>, i: int, acc: int) -> Option<u32>
    decreases s.len() - i,
{
    if 0 <= i < s.len() && is_digit(s[i]) {
        let acc2 = acc * 10 + (s[i] as int - '0' as int);
        if acc2 > 9999 {
            None
        } else {
            mins_acc(s, i + 1, acc2)
        }
    } else {
        Some(acc as u32)
    }
}

/// The minutes field of a time control such as "5+0": the value of its
/// digit prefix; `None` when it does not start with at most four digits.
pub open spec fn spec_minutes(s: Seq<char>) -> Option<u32> {
    if s.len() == 0 || !is_digit(s[0]) {
        None
    } else {
        mins_acc(s, 0, 0)
    }
}

/// The per-side clock, in seconds, granted by a time control; ten minutes
/// when the field does not parse.
pub open spec fn spec_time_seconds(s: Seq<char>) -> int {
    match spec_minutes(s) {
        Some(m) => 60 * m,
        None => 600,
    }
}

/// Parses the minutes field of a time control string.
pub fn parse_time_minutes(s: &str) -> (r: Option<u32>)
    ensures
        r == spec_minutes(s@),
        r matches Some(m) ==> m <= 9999,
{
    let n = s.unicode_len();
    if n == 0 {
        return None;
    }
    let c0 = s.get_char(0);
    if !('0' <= c0 && c0 <= '9') {
        return None;
    }
    let mut acc: u32 = 0;
    let mut i: usize = 0;
    loop
        invariant
            0 <= i <= n,
            n == s@.len(),
            n > 0 && is_digit(s@[0]),
            acc <= 9999,
            mins_acc(s@, 0, 0) == mins_acc(s@, i as int, acc as int),
        decreases n - i,
    {
        if i == n {
            return Some(acc);
        }
        let c = s.get_char(i);
        if !('0' <= c && c <= '9') {
            return Some(acc);
        }
        let d = c as u32 - '0' as u32;
        if acc * 10 + d > 9999 {
            return None;
        }
        acc = acc * 10 + d;
        i = i + 1;
    }
}

/// The per-side clock, in seconds, for a time control string.
pub fn time_seconds(s: &str) -> (r: i32)
    ensures
        r == spec_time_seconds(s@),
{
    match parse_time_minutes(s) {
        Some(m) => 60 * (m as i32),
        None => 600,
    }
}

/// How the directory changes when the two seats move into a game.
pub open spec fn seats_placed(
    pre: Seq<crate::player::Player>,
    post: Seq<crate::player::Player>,
    w: u64,
    b: u64,
    status: PlayerStatus,
) -> bool {
    post == with_placement(with_placement(pre, w, status), b, status)
}

/// What a just-created game looks like: the first two occupants seated in
/// join order, the standard starting position, white to move.
pub open spec fn is_fresh_game(g: Game, gid: u64, w: u64, b: u64, lid: u64, tc: String) -> bool {
    &&& g.id == gid
    &&& g.white_player == w
    &&& g.black_player == b
    &&& g.fen@ == initial_fen()
    &&& g.white_to_move == true
    &&& g.moves@.len() == 0
    &&& g.time_control == tc
    &&& g.time_white == spec_time_seconds(tc@)
    &&& g.time_black == spec_time_seconds(tc@)
    &&& g.state == GameState::Playing
    &&& g.lobby_id == lid
    &&& g.spectators@.len() == 0
}

/// How a lobby record changes when its game starts.
pub open spec fn lobby_started(ol: crate::lobby::Lobby, nl: crate::lobby::Lobby, gid: u64) -> bool {
    &&& nl.id == ol.id
    &&& nl.name == ol.name
    &&& nl.host == ol.host
    &&& nl.config == ol.config
    &&& nl.players@ == ol.players@
    &&& nl.spectators@ == ol.spectators@
    &&& nl.state == LobbyState::InProgress
    &&& nl.created_at == ol.created_at
    &&& nl.game_id == Some(gid)
}

/// The seat summary sent with a game start.
pub open spec fn spec_seat_info(players: Seq<crate::player::Player>, pid: u64) -> PlayerInfo {
    PlayerInfo {
        id: pid,
        username: seq_player(players, pid).username,
        rating: seq_player(players, pid).rating,
        ready: true,
    }
}

/// Promotes a waiting lobby with at least two occupants into a game.
///
/// The first two occupants take the white and black seats, in join order.
/// The lobby links the game and moves to `InProgress`; both seats'
/// placements move into the game; a start notification goes to the lobby's
/// occupants and, when both seats resolve in the directory, a seat-detail
/// notification goes to the game's participants.  A lobby whose game has
/// already started is left alone and its game id is returned again, so a
/// repeated start request cannot create a second game.
pub fn create_game_from_lobby(st: &mut WsState, lobby_id: u64) -> (r: (
    Result<u64, CoordError>,
    Vec<BroadcastMessage>,
))
    requires
        old(st).wf(),
        old(st).next_id < u64::MAX,
    ensures
        final(st).wf(),
        final(st).connections == old(st).connections,
        !old(st).has_lobby(lobby_id) ==> (r.0 matches Err(e) && e is NotFound && *final(st)
            == *old(st) && r.1@.len() == 0),
        (old(st).has_lobby(lobby_id) && old(st).spec_lobby(lobby_id).state
            == LobbyState::InProgress && (old(st).spec_lobby(lobby_id).game_id matches Some(g)
            ==> r.0 == Ok::<u64, CoordError>(g) && *final(st) == *old(st) && r.1@.len() == 0)) || !(
        old(st).has_lobby(lobby_id) && old(st).spec_lobby(lobby_id).state
            == LobbyState::InProgress),
        old(st).has_lobby(lobby_id) && !(old(st).spec_lobby(lobby_id).state
            == LobbyState::InProgress && old(st).spec_lobby(lobby_id).game_id is Some) && !(old(st).spec_lobby(lobby_id).state == LobbyState::Waiting && old(st).spec_lobby(
            lobby_id,
        ).players@.len() >= 2) ==> (r.0 matches Err(e) && e is NotEnoughPlayers && *final(st)
            == *old(st) && r.1@.len() == 0),
        old(st).has_lobby(lobby_id) && old(st).spec_lobby(lobby_id).state == LobbyState::Waiting
            && old(st).spec_lobby(lobby_id).players@.len() >= 2 ==> ({
            let li = old(st).lobby_index(lobby_id);
            let ol = old(st).lobbies@[li];
            let w = ol.players@[0];
            let b = ol.players@[1];
            let gid = old(st).next_id;
            &&& r.0 == Ok::<u64, CoordError>(gid)
            &&& final(st).next_id == gid + 1
            &&& final(st).lobbies@.len() == old(st).lobbies@.len()
            &&& forall|j: int|
                0 <= j < old(st).lobbies@.len() && j != li ==> final(st).lobbies@[j] == old(st).lobbies@[j]
            &&& lobby_started(ol, final(st).lobbies@[li], gid)
            &&& final(st).games@.len() == old(st).games@.len() + 1
            &&& forall|j: int|
                0 <= j < old(st).games@.len() ==> final(st).games@[j] == old(st).games@[j]
            &&& is_fresh_game(final(st).games@.last(), gid, w, b, lobby_id, ol.config.time_control)
            &&& seats_placed(
                old(st).players@,
                final(st).players@,
                w,
                b,
                PlayerStatus::InGame(gid),
            )
            &&& r.1@.len() >= 1
            &&& r.1@[0].target == BroadcastTarget::Lobby(lobby_id)
            &&& r.1@[0].message@ == ServerMessageV::LobbyMessage(
                LobbyMessageV::GameStarted { game_id: gid },
            )
            &&& (seq_has_player(old(st).players@, w) && seq_has_player(old(st).players@, b) ==> {
                &&& r.1@.len() == 2
                &&& r.1@[1].target == BroadcastTarget::Game(gid)
                &&& r.1@[1].message@ == ServerMessageV::GameMessage(
                    GameMessageV::GameStarted {
                        game_id: gid,
                        white_player: spec_seat_info(old(st).players@, w),
                        black_player: spec_seat_info(old(st).players@, b),
                        fen: initial_fen(),
                    },
                )
            })
            &&& (!(seq_has_player(old(st).players@, w) && seq_has_player(old(st).players@, b))
                ==> r.1@.len() == 1)
        }),
{
    let li = match find_lobby_index(&st.lobbies, lobby_id) {
        Some(li) => li,
        None => {
            proof {
                if old(st).has_lobby(lobby_id) {
                    let k = old(st).lobby_index(lobby_id);
                    assert(0 <= k < st.lobbies@.len() && st.lobbies@[k].id == lobby_id);
                }
            }
            return (Err(CoordError::NotFound), Vec::new());
        },
    };
    proof {
        assert((li as int) < st.lobbies@.len() && st.lobbies@[li as int].id == lobby_id);
        assert(old(st).lobby_index(lobby_id) == li as int);
    }
    let started = match st.lobbies[li].state {
        LobbyState::InProgress => true,
        _ => false,
    };
    if started {
        match st.lobbies[li].game_id {
            Some(g) => {
                return (Ok(g), Vec::new());
            },
            None => {
                return (Err(CoordError::NotEnoughPlayers), Vec::new());
            },
        }
    }
    let waiting = match st.lobbies[li].state {
        LobbyState::Waiting => true,
        _ => false,
    };
    if !waiting || st.lobbies[li].players.len() < 2 {
        return (Err(CoordError::NotEnoughPlayers), Vec::new());
    }
    let w = st.lobbies[li].players[0];
    let b = st.lobbies[li].players[1];
    let tc = st.lobbies[li].config.time_control.clone();
    let secs = time_seconds(tc.as_str());
    let gid = st.alloc_id();
    let game = Game {
        id: gid,
        white_player: w,
        black_player: b,
        fen: initial_fen_str(),
        white_to_move: true,
        moves: Vec::new(),
        time_control: tc,
        time_white: secs,
        time_black: secs,
        state: GameState::Playing,
        lobby_id,
        spectators: Vec::new(),
    };
    st.games.push(game);
    {
        let l = &mut st.lobbies[li];
        l.state = LobbyState::InProgress;
        l.game_id = Some(gid);
    }
    let mut out: Vec<BroadcastMessage> = Vec::new();
    out.push(
        BroadcastMessage {
            target: BroadcastTarget::Lobby(lobby_id),
            message: ServerMessage::LobbyMessage(LobbyMessage::GameStarted { game_id: gid }),
        },
    );
    let white_info: Option<PlayerInfo> = match find_player_index(&st.players, w) {
        Some(wi) => {
            proof {
                assert((wi as int) < st.players@.len() && st.players@[wi as int].id == w);
                assert(seq_player_index(st.players@, w) == wi as int);
            }
            Some(
                PlayerInfo {
                    id: w,
                    username: st.players[wi].username.clone(),
                    rating: st.players[wi].rating,
                    ready: true,
                },
            )
        },
        None => {
            proof {
                if seq_has_player(st.players@, w) {
                    let k = seq_player_index(st.players@, w);
                    assert(0 <= k < st.players@.len() && st.players@[k].id == w);
                }
            }
            None
        },
    };
    let black_info: Option<PlayerInfo> = match find_player_index(&st.players, b) {
        Some(bi) => {
            proof {
                assert((bi as int) < st.players@.len() && st.players@[bi as int].id == b);
                assert(seq_player_index(st.players@, b) == bi as int);
            }
            Some(
                PlayerInfo {
                    id: b,
                    username: st.players[bi].username.clone(),
                    rating: st.players[bi].rating,
                    ready: true,
                },
            )
        },
        None => {
            proof {
                if seq_has_player(st.players@, b) {
                    let k = seq_player_index(st.players@, b);
                    assert(0 <= k < st.players@.len() && st.players@[k].id == b);
                }
            }
            None
        },
    };
    match (white_info, black_info) {
        (Some(wi), Some(bi)) => {
            out.push(
                BroadcastMessage {
                    target: BroadcastTarget::Game(gid),
                    message: ServerMessage::GameMessage(
                        GameMessage::GameStarted {
                            game_id: gid,
                            white_player: wi,
                            black_player: bi,
                            fen: initial_fen_str(),
                        },
                    ),
                },
            );
        },
        _ => {},
    }
    set_placement(&mut st.players, w, PlayerStatus::InGame(gid));
    set_placement(&mut st.players, b, PlayerStatus::InGame(gid));
    (Ok(gid), out)
}

/// The UCI rendering of a candidate move: origin, destination, and the
/// promotion piece letter if any.
pub open spec fn spec_uci(from: Seq<char>, to: Seq<char>, promotion: Option<String>) -> Seq<char> {
    from + to + match promotion {
        Some(p) => p@,
        None => Seq::empty(),
    }
}

/// Validates and applies one candidate move.
///
/// Rejection is exact: `NotFound` when the game does not exist, `GameOver`
/// when its status is terminal, `WrongTurn` when the caller does not own
/// the seat on turn, and `InvalidMove` exactly when the engine's verdict
/// ([`engine_step`]) on the current position and the candidate's UCI
/// rendering is negative — carrying the legal destinations of the origin
/// square as hints; nothing changes on rejection.  Success is owed exactly
/// when the verdict is positive: the move is appended, the turn flips, the
/// position becomes the verdict's successor FEN, and either a `MoveMade`
/// notification with the verdict's check and capture flags or, on
/// checkmate or stalemate, a terminal status with a `GameOver` notification
/// is addressed to the game's participants.  End reasons follow the
/// lowercase wording fixed for "checkmate" and "resignation", extended to
/// "stalemate".
pub fn make_move(
    st: &mut WsState,
    game_id: u64,
    player_id: u64,
    from: String,
    to: String,
    promotion: Option<String>,
) -> (r: (Result<(), CoordError>, Vec<BroadcastMessage>))
    requires
        old(st).wf(),
    ensures
        final(st).wf(),
        final(st).players == old(st).players,
        final(st).lobbies == old(st).lobbies,
        final(st).connections == old(st).connections,
        final(st).next_id == old(st).next_id,
        r.0 is Err ==> *final(st) == *old(st) && r.1@.len() == 0,
        (r.0 matches Err(e) && e is NotFound) <==> !old(st).has_game(game_id),
        (r.0 matches Err(e) && e is GameOver) <==> old(st).has_game(game_id) && is_terminal(
            old(st).spec_game(game_id).state,
        ),
        (r.0 matches Err(e) && e is WrongTurn) <==> old(st).has_game(game_id) && !is_terminal(
            old(st).spec_game(game_id).state,
        ) && player_id != old(st).spec_game(game_id).seat_to_move(),
        (r.0 matches Err(e) && e is InvalidMove) <==> old(st).has_game(game_id) && !is_terminal(
            old(st).spec_game(game_id).state,
        ) && player_id == old(st).spec_game(game_id).seat_to_move() && engine_step(
            old(st).spec_game(game_id).fen@,
            spec_uci(from@, to@, promotion),
        ) is None,
        r.0 is Err && r.0->Err_0 is InvalidMove ==> (match spec_square_index(from@) {
            Some(sq) => strings_view((r.0->Err_0)->InvalidMove_hints@) == spec_hints(
                legal_moves_of(old(st).spec_game(game_id).fen@),
                sq,
            ),
            None => (r.0->Err_0)->InvalidMove_hints@.len() == 0,
        }),
        r.0 is Ok <==> old(st).has_game(game_id) && !is_terminal(old(st).spec_game(game_id).state)
            && player_id == old(st).spec_game(game_id).seat_to_move() && engine_step(
            old(st).spec_game(game_id).fen@,
            spec_uci(from@, to@, promotion),
        ) is Some,
        r.0 is Ok ==> ({
            let gi = old(st).game_index(game_id);
            let og = old(st).games@[gi];
            let ng = final(st).games@[gi];
            &&& final(st).games@.len() == old(st).games@.len()
            &&& forall|j: int|
                0 <= j < old(st).games@.len() && j != gi ==> final(st).games@[j] == old(st).games@[j]
            &&& ng.id == og.id
            &&& ng.white_player == og.white_player
            &&& ng.black_player == og.black_player
            &&& ng.lobby_id == og.lobby_id
            &&& ng.spectators@ == og.spectators@
            &&& ng.time_control == og.time_control
            &&& ng.time_white == og.time_white
            &&& ng.time_black == og.time_black
            &&& ng.moves@.len() == og.moves@.len() + 1
            &&& forall|j: int| 0 <= j < og.moves@.len() ==> ng.moves@[j] == og.moves@[j]
            &&& ng.moves@.last()@ == spec_uci(from@, to@, promotion)
            &&& ng.white_to_move == !og.white_to_move
            &&& r.1@.len() == 1
            &&& r.1@[0].target == BroadcastTarget::Game(game_id)
            &&& (engine_step(og.fen@, spec_uci(from@, to@, promotion)) matches Some(v) && {
                &&& ng.fen@ == v.fen
                &&& ng.state == (if v.is_checkmate {
                    if og.white_to_move {
                        GameState::WhiteWins
                    } else {
                        GameState::BlackWins
                    }
                } else if v.is_stalemate {
                    GameState::Draw
                } else {
                    GameState::Playing
                })
                &&& (ng.state == GameState::Playing ==> (r.1@[0].message@ matches
                    ServerMessageV::GameMessage(gm) && gm matches GameMessageV::MoveMade {
                        player_id: mp,
                        from: mf,
                        to: mt,
                        fen: mfen,
                        san: ms,
                        is_check: mchk,
                        is_capture: mcap,
                    } && mp == player_id && mf == from && mt == to && mfen == ng.fen && mfen@
                    == v.fen && ms == ng.moves@.last() && mchk == v.is_check && mcap
                    == v.is_capture))
            })
            &&& ((ng.state == GameState::WhiteWins || ng.state == GameState::BlackWins)
                ==> r.1@[0].message@ == ServerMessageV::GameMessage(
                GameMessageV::GameOver { winner: Some(player_id), reason: "checkmate"@ },
            ))
            &&& (ng.state == GameState::Draw ==> r.1@[0].message@ == ServerMessageV::GameMessage(
                GameMessageV::GameOver { winner: None, reason: "stalemate"@ },
            ))
        }),
{
    let gi = match find_game_index(&st.games, game_id) {
        Some(gi) => gi,
        None => {
            proof {
                if old(st).has_game(game_id) {
                    let k = old(st).game_index(game_id);
                    assert(0 <= k < st.games@.len() && st.games@[k].id == game_id);
                }
            }
            return (Err(CoordError::NotFound), Vec::new());
        },
    };
    proof {
        assert((gi as int) < st.games@.len() && st.games@[gi as int].id == game_id);
        assert(old(st).game_index(game_id) == gi as int);
    }
    let terminal = match st.games[gi].state {
        GameState::Playing => false,
        _ => true,
    };
    if terminal {
        return (Err(CoordError::GameOver), Vec::new());
    }
    let og_white = st.games[gi].white_to_move;
    let expected = if og_white {
        st.games[gi].white_player
    } else {
        st.games[gi].black_player
    };
    if player_id != expected {
        return (Err(CoordError::WrongTurn), Vec::new());
    }
    let mut uci = from.clone();
    uci.append(to.as_str());
    match &promotion {
        Some(p) => uci.append(p.as_str()),
        None => {},
    }
    proof {
        assert(uci@ == spec_uci(from@, to@, promotion));
    }
    let step = match engine_try_move(st.games[gi].fen.as_str(), uci.as_str()) {
        Some(step) => step,
        None => {
            let hints = match parse_square(from.as_str()) {
                Some(fs) => {
                    let lm = engine_legal_moves(st.games[gi].fen.as_str());
                    hints_from_moves(&lm, fs)
                },
                None => Vec::new(),
            };
            return (Err(CoordError::InvalidMove { hints }), Vec::new());
        },
    };
    let EngineStep { fen, is_capture, is_check, is_checkmate, is_stalemate } = step;
    let msg_fen = fen.clone();
    let san = uci.clone();
    {
        let g = &mut st.games[gi];
        g.fen = fen;
        g.moves.push(uci);
        g.white_to_move = !og_white;
        if is_checkmate {
            g.state = if og_white {
                GameState::WhiteWins
            } else {
                GameState::BlackWins
            };
        } else if is_stalemate {
            g.state = GameState::Draw;
        }
    }
    let gmsg = if is_checkmate {
        let rs: &str = "checkmate";
        GameMessage::GameOver { winner: Some(player_id), reason: rs.to_owned() }
    } else if is_stalemate {
        let rs: &str = "stalemate";
        GameMessage::GameOver { winner: None, reason: rs.to_owned() }
    } else {
        GameMessage::MoveMade { player_id, from, to, fen: msg_fen, san, is_check, is_capture }
    };
    let mut out: Vec<BroadcastMessage> = Vec::new();
    out.push(
        BroadcastMessage {
            target: BroadcastTarget::Game(game_id),
            message: ServerMessage::GameMessage(gmsg),
        },
    );
    (Ok(()), out)
}

/// Concedes the game: the opponent of `player_id` wins unconditionally.
///
/// `NotFound` when the game does not exist or the caller holds no seat in
/// it, `GameOver` when the status is already terminal; nothing changes on
/// rejection.  On success only the status changes, and a `GameOver`
/// notification with reason "resignation" is addressed to the game's
/// participants.
pub fn resign(st: &mut WsState, game_id: u64, player_id: u64) -> (r: (
    Result<(), CoordError>,
    Vec<BroadcastMessage>,
))
    requires
        old(st).wf(),
    ensures
        final(st).wf(),
        final(st).players == old(st).players,
        final(st).lobbies == old(st).lobbies,
        final(st).connections == old(st).connections,
        final(st).next_id == old(st).next_id,
        r.0 is Err ==> *final(st) == *old(st) && r.1@.len() == 0,
        (r.0 matches Err(e) && e is NotFound) <==> !(old(st).has_game(game_id) && old(st).spec_game(game_id).is_seat(player_id)),
        (r.0 matches Err(e) && e is GameOver) <==> old(st).has_game(game_id) && old(st).spec_game(
            game_id,
        ).is_seat(player_id) && is_terminal(old(st).spec_game(game_id).state),
        r.0 is Ok <==> old(st).has_game(game_id) && old(st).spec_game(game_id).is_seat(player_id)
            && !is_terminal(old(st).spec_game(game_id).state),
        r.0 is Ok ==> ({
            let gi = old(st).game_index(game_id);
            let og = old(st).games@[gi];
            let ng = final(st).games@[gi];
            let opponent = if player_id == og.white_player {
                og.black_player
            } else {
                og.white_player
            };
            &&& final(st).games@.len() == old(st).games@.len()
            &&& forall|j: int|
                0 <= j < old(st).games@.len() && j != gi ==> final(st).games@[j] == old(st).games@[j]
            &&& ng.id == og.id
            &&& ng.white_player == og.white_player
            &&& ng.black_player == og.black_player
            &&& ng.fen == og.fen
            &&& ng.white_to_move == og.white_to_move
            &&& ng.moves@ == og.moves@
            &&& ng.lobby_id == og.lobby_id
            &&& ng.spectators@ == og.spectators@
            &&& ng.time_control == og.time_control
            &&& ng.time_white == og.time_white
            &&& ng.time_black == og.time_black
            &&& ng.state == (if player_id == og.white_player {
                GameState::BlackWins
            } else {
                GameState::WhiteWins
            })
            &&& r.1@.len() == 1
            &&& r.1@[0].target == BroadcastTarget::Game(game_id)
            &&& r.1@[0].message@ == ServerMessageV::GameMessage(
                GameMessageV::GameOver { winner: Some(opponent), reason: "resignation"@ },
            )
        }),
{
    let gi = match find_game_index(&st.games, game_id) {
        Some(gi) => gi,
        None => {
            proof {
                if old(st).has_game(game_id) {
                    let k = old(st).game_index(game_id);
                    assert(0 <= k < st.games@.len() && st.games@[k].id == game_id);
                }
            }
            return (Err(CoordError::NotFound), Vec::new());
        },
    };
    proof {
        assert((gi as int) < st.games@.len() && st.games@[gi as int].id == game_id);
        assert(old(st).game_index(game_id) == gi as int);
    }
    if player_id != st.games[gi].white_player && player_id != st.games[gi].black_player {
        return (Err(CoordError::NotFound), Vec::new());
    }
    let terminal = match st.games[gi].state {
        GameState::Playing => false,
        _ => true,
    };
    if terminal {
        return (Err(CoordError::GameOver), Vec::new());
    }
    let opponent = if player_id == st.games[gi].white_player {
        st.games[gi].black_player
    } else {
        st.games[gi].white_player
    };
    {
        let g = &mut st.games[gi];
        g.state = if player_id == g.white_player {
            GameState::BlackWins
        } else {
            GameState::WhiteWins
        };
    }
    let rs: &str = "resignation";
    let mut out: Vec<BroadcastMessage> = Vec::new();
    out.push(
        BroadcastMessage {
            target: BroadcastTarget::Game(game_id),
            message: ServerMessage::GameMessage(
                GameMessage::GameOver { winner: Some(opponent), reason: rs.to_owned() },
            ),
        },
    );
    (Ok(()), out)
}

/// Removes a spectator from a game's spectator set.
///
/// `NotFound` when the game does not exist or does not list the spectator;
/// nothing changes then.  Otherwise the spectator's placement returns to
/// idle and a `SpectatorLeft` notification goes to the game's remaining
/// participants.
pub fn leave_game_spectators(st: &mut WsState, game_id: u64, player_id: u64) -> (r: (
    Result<(), CoordError>,
    Vec<BroadcastMessage>,
))
    requires
        old(st).wf(),
    ensures
        final(st).wf(),
        final(st).lobbies == old(st).lobbies,
        final(st).connections == old(st).connections,
        final(st).next_id == old(st).next_id,
        r.0 is Err ==> *final(st) == *old(st) && r.1@.len() == 0,
        r.0 matches Err(e) ==> e is NotFound,
        r.0 is Ok <==> old(st).has_game(game_id) && old(st).spec_game(
            game_id,
        ).spectators@.contains(player_id),
        r.0 is Ok ==> ({
            let gi = old(st).game_index(game_id);
            let og = old(st).games@[gi];
            let ki = choose|k: int| 0 <= k < og.spectators@.len() && og.spectators@[k] == player_id;
            let ng = final(st).games@[gi];
            &&& placed(old(st).players@, final(st).players@, player_id, PlayerStatus::Online)
            &&& final(st).games@.len() == old(st).games@.len()
            &&& forall|j: int|
                0 <= j < old(st).games@.len() && j != gi ==> final(st).games@[j] == old(
                    st,
                ).games@[j]
            &&& ng.id == og.id
            &&& ng.white_player == og.white_player
            &&& ng.black_player == og.black_player
            &&& ng.fen == og.fen
            &&& ng.white_to_move == og.white_to_move
            &&& ng.moves@ == og.moves@
            &&& ng.state == og.state
            &&& ng.spectators@ == og.spectators@.remove(ki)
            &&& r.1@.len() == 1
            &&& r.1@[0].target == BroadcastTarget::Game(game_id)
            &&& r.1@[0].message@ == ServerMessageV::SpectatorLeft {
                spectator_id: player_id,
                spectator_count: ng.spectators@.len() as usize,
            }
        }),
{
    let gi = match find_game_index(&st.games, game_id) {
        Some(gi) => gi,
        None => {
            proof {
                if old(st).has_game(game_id) {
                    let k = old(st).game_index(game_id);
                    assert(0 <= k < st.games@.len() && st.games@[k].id == game_id);
                }
            }
            return (Err(CoordError::NotFound), Vec::new());
        },
    };
    proof {
        assert((gi as int) < st.games@.len() && st.games@[gi as int].id == game_id);
        assert(old(st).game_index(game_id) == gi as int);
    }
    let ki = match crate::util::find_id_index(&st.games[gi].spectators, player_id) {
        Some(ki) => ki,
        None => {
            proof {
                assert(!old(st).spec_game(game_id).spectators@.contains(player_id)) by {
                    if old(st).spec_game(game_id).spectators@.contains(player_id) {
                        let k = choose|k: int|
                            0 <= k < old(st).spec_game(game_id).spectators@.len() && old(
                                st,
                            ).spec_game(game_id).spectators@[k] == player_id;
                        assert(st.games@[gi as int].spectators@[k] == player_id);
                    }
                }
            }
            return (Err(CoordError::NotFound), Vec::new());
        },
    };
    let ghost og = st.games@[gi as int];
    proof {
        let kk = choose|k: int| 0 <= k < og.spectators@.len() && og.spectators@[k] == player_id;
        assert(og.spectators@.contains(player_id)) by {
            assert(og.spectators@[ki as int] == player_id);
        }
        assert(0 <= kk < og.spectators@.len() && og.spectators@[kk] == player_id);
        assert(kk == ki as int);
    }
    {
        let g = &mut st.games[gi];
        g.spectators.remove(ki);
    }
    proof {
        let ng = st.games@[gi as int];
        assert(ng.wf()) by {
            assert forall|a: int, b: int|
                0 <= a < b < ng.spectators@.len() implies ng.spectators@[a] != ng.spectators@[b] by {
                let oa = if a < ki as int {
                    a
                } else {
                    a + 1
                };
                let ob = if b < ki as int {
                    b
                } else {
                    b + 1
                };
                assert(ng.spectators@[a] == og.spectators@[oa]);
                assert(ng.spectators@[b] == og.spectators@[ob]);
            }
        }
    }
    let count = st.games[gi].spectators.len();
    set_placement(&mut st.players, player_id, PlayerStatus::Online);
    let mut out: Vec<BroadcastMessage> = Vec::new();
    out.push(
        BroadcastMessage {
            target: BroadcastTarget::Game(game_id),
            message: ServerMessage::SpectatorLeft {
                spectator_id: player_id,
                spectator_count: count,
            },
        },
    );
    (Ok(()), out)
}

impl Clone for GameMessage {
    fn clone(&self) -> (r: Self)
        ensures
            r@ == self@,
    {
        match self {
            GameMessage::GameStarted { game_id, white_player, black_player, fen } => {
                GameMessage::GameStarted {
                    game_id: *game_id,
                    white_player: white_player.clone(),
                    black_player: black_player.clone(),
                    fen: fen.clone(),
                }
            },
            GameMessage::MoveMade { player_id, from, to, fen, san, is_check, is_capture } => {
                GameMessage::MoveMade {
                    player_id: *player_id,
                    from: from.clone(),
                    to: to.clone(),
                    fen: fen.clone(),
                    san: san.clone(),
                    is_check: *is_check,
                    is_capture: *is_capture,
                }
            },
            GameMessage::GameOver { winner, reason } => GameMessage::GameOver {
                winner: match winner {
                    Some(w) => Some(*w),
                    None => None,
                },
                reason: reason.clone(),
            },
            GameMessage::InvalidMove { reason, hints } => GameMessage::InvalidMove {
                reason: reason.clone(),
                hints: clone_strings(hints),
            },
        }
    }
}

} // verus!
