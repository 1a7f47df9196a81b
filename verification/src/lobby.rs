//! Lobbies: pre-game grouping of participants awaiting a start.

use vstd::prelude::*;
use crate::errors::CoordError;
use crate::multiplayer::{ServerMessage, ServerMessageV};
use crate::player::{Player, PlayerStatus};
use crate::router::{BroadcastMessage, BroadcastTarget};
use crate::state::{
    find_game_index,
    find_lobby_index,
    find_player_index,
    placed,
    seq_has_player,
    seq_player,
    seq_player_index,
    set_placement,
    with_placement,
    WsState,
};
use crate::util::{contains_id, find_id_index};

verus! {

/// Matchmaking mode a lobby was opened for.
#[derive(Debug, Clone, Copy, PartialEq, Eq, Structural)]
pub enum GameMode {
    Deathmatch,
    Tournament,
    Training,
    Ranked,
    Custom,
}

/// Lifecycle state of a lobby.
#[derive(Debug, Clone, Copy, PartialEq, Eq, Structural)]
pub enum LobbyState {
    Waiting,
    Starting,
    InProgress,
    Finished,
}

/// Configuration chosen by the host at creation time.
#[derive(Debug)]
pub struct LobbyConfig {
    pub name: String,
    pub mode: GameMode,
    pub max_players: u8,
    pub time_control: String,
    pub rated: bool,
    pub voice_enabled: bool,
}

impl Clone for LobbyConfig {
    fn clone(&self) -> (r: Self)
        ensures
            r == *self,
    {
        LobbyConfig {
            name: self.name.clone(),
            mode: self.mode,
            max_players: self.max_players,
            time_control: self.time_control.clone(),
            rated: self.rated,
            voice_enabled: self.voice_enabled,
        }
    }
}

/// One lobby record.  `players` is the occupant list in join order (the
/// first entry after any host reassignment is the host); `spectators` do not
/// count toward `config.max_players`.
#[derive(Debug)]
pub struct Lobby {
    pub id: u64,
    pub name: String,
    pub host: u64,
    pub config: LobbyConfig,
    pub players: Vec<u64>,
    pub spectators: Vec<u64>,
    pub state: LobbyState,
    pub created_at: i64,
    pub game_id: Option<u64>,
}

impl Lobby {
    /// Record-local invariant: never more occupants than the configured
    /// maximum, occupants and spectators listed once each, and the host is
    /// an occupant until the lobby is finished.
    pub open spec fn wf(self) -> bool {
        &&& self.players@.len() <= self.config.max_players as int
        &&& forall|i: int, j: int|
            0 <= i < j < self.players@.len() ==> self.players@[i] != self.players@[j]
        &&& forall|i: int, j: int|
            0 <= i < j < self.spectators@.len() ==> self.spectators@[i] != self.spectators@[j]
        &&& self.state != LobbyState::Finished ==> self.players@.contains(self.host)
    }
}

/// Summary of one occupant, as carried in lobby snapshots.
#[derive(Debug, PartialEq, Eq)]
pub struct PlayerInfo {
    pub id: u64,
    pub username: String,
    pub rating: u32,
    pub ready: bool,
}

impl Clone for PlayerInfo {
    fn clone(&self) -> (r: Self)
        ensures
            r == *self,
    {
        PlayerInfo {
            id: self.id,
            username: self.username.clone(),
            rating: self.rating,
            ready: self.ready,
        }
    }
}

/// Snapshot of a lobby, as sent to clients.
#[derive(Debug)]
pub struct LobbyInfo {
    pub id: u64,
    pub name: String,
    pub host_name: String,
    pub mode: GameMode,
    pub players: Vec<PlayerInfo>,
    pub max_players: u8,
    pub state: LobbyState,
}

/// Mathematical model of a [`LobbyInfo`]: the occupant summaries as a
/// sequence.
pub struct LobbyInfoV {
    pub id: u64,
    pub name: String,
    pub host_name: Seq<char>,
    pub mode: GameMode,
    pub players: Seq<PlayerInfo>,
    pub max_players: u8,
    pub state: LobbyState,
}

impl View for LobbyInfo {
    type V = LobbyInfoV;

    open spec fn view(&self) -> LobbyInfoV {
        LobbyInfoV {
            id: self.id,
            name: self.name,
            host_name: self.host_name@,
            mode: self.mode,
            players: self.players@,
            max_players: self.max_players,
            state: self.state,
        }
    }
}

impl Clone for LobbyInfo {
    fn clone(&self) -> (r: Self)
        ensures
            r@ == self@,
    {
        let mut players: Vec<PlayerInfo> = Vec::new();
        let n = self.players.len();
        for i in 0..n
            invariant
                n == self.players@.len(),
                players@ =~= self.players@.subrange(0, i as int),
        {
            players.push(self.players[i].clone());
            assert(players@ =~= self.players@.subrange(0, i + 1 as int));
        }
        assert(players@ =~= self.players@);
        LobbyInfo {
            id: self.id,
            name: self.name.clone(),
            host_name: self.host_name.clone(),
            mode: self.mode,
            players,
            max_players: self.max_players,
            state: self.state,
        }
    }
}

/// Lobby-scoped notifications, broadcast to a lobby's occupants.
#[derive(Debug)]
pub enum LobbyMessage {
    LobbyCreated { lobby_id: u64, lobby: LobbyInfo },
    LobbyUpdated { lobby: LobbyInfo },
    PlayerJoined { player: PlayerInfo },
    PlayerLeft { player_id: u64 },
    GameStarting { countdown: u8 },
    GameStarted { game_id: u64 },
    LobbyClosed,
}

/// Mathematical model of a [`LobbyMessage`].
pub enum LobbyMessageV {
    LobbyCreated { lobby_id: u64, lobby: LobbyInfoV },
    LobbyUpdated { lobby: LobbyInfoV },
    PlayerJoined { player: PlayerInfo },
    PlayerLeft { player_id: u64 },
    GameStarting { countdown: u8 },
    GameStarted { game_id: u64 },
    LobbyClosed,
}

impl View for LobbyMessage {
    type V = LobbyMessageV;

    open spec fn view(&self) -> LobbyMessageV {
        match self {
            LobbyMessage::LobbyCreated { lobby_id, lobby } => LobbyMessageV::LobbyCreated {
                lobby_id: *lobby_id,
                lobby: lobby@,
            },
            LobbyMessage::LobbyUpdated { lobby } => LobbyMessageV::LobbyUpdated { lobby: lobby@ },
            LobbyMessage::PlayerJoined { player } => LobbyMessageV::PlayerJoined {
                player: *player,
            },
            LobbyMessage::PlayerLeft { player_id } => LobbyMessageV::PlayerLeft {
                player_id: *player_id,
            },
            LobbyMessage::GameStarting { countdown } => LobbyMessageV::GameStarting {
                countdown: *countdown,
            },
            LobbyMessage::GameStarted { game_id } => LobbyMessageV::GameStarted {
                game_id: *game_id,
            },
            LobbyMessage::LobbyClosed => LobbyMessageV::LobbyClosed,
        }
    }
}

/// The occupant summaries for `ids`, in order, skipping ids the directory
/// does not resolve.
pub open spec fn spec_player_infos(players: Seq<Player>, ids: Seq<u64>) -> Seq<PlayerInfo>
    decreases ids.len(),
{
    if ids.len() == 0 {
        Seq::empty()
    } else if seq_has_player(players, ids.first()) {
        seq![
            PlayerInfo {
                id: ids.first(),
                username: seq_player(players, ids.first()).username,
                rating: seq_player(players, ids.first()).rating,
                ready: false,
            },
        ] + spec_player_infos(players, ids.drop_first())
    } else {
        spec_player_infos(players, ids.drop_first())
    }
}

/// The snapshot a client sees of a lobby given by its fields, resolved
/// against the directory.
pub open spec fn spec_lobby_info_of(
    players: Seq<Player>,
    id: u64,
    name: String,
    host: u64,
    mode: GameMode,
    occupants: Seq<u64>,
    max_players: u8,
    state: LobbyState,
) -> LobbyInfoV {
    LobbyInfoV {
        id: id,
        name: name,
        host_name: if seq_has_player(players, host) {
            seq_player(players, host).username@
        } else {
            "Unknown"@
        },
        mode: mode,
        players: spec_player_infos(players, occupants),
        max_players: max_players,
        state: state,
    }
}

/// The snapshot a client sees of `l`, resolved against the directory.
pub open spec fn spec_lobby_info(players: Seq<Player>, l: Lobby) -> LobbyInfoV {
    spec_lobby_info_of(
        players,
        l.id,
        l.name,
        l.host,
        l.config.mode,
        l.players@,
        l.config.max_players,
        l.state,
    )
}

/// Builds the snapshot of a lobby, resolving each occupant through the
/// directory; occupants with no directory record are skipped.
pub fn create_lobby_info(players: &Vec<Player>, lobby: &Lobby) -> (info: LobbyInfo)
    requires
        forall|i: int, j: int|
            0 <= i < j < players@.len() ==> players@[i].id != players@[j].id,
    ensures
        info@ == spec_lobby_info(players@, *lobby),
{
    let mut infos: Vec<PlayerInfo> = Vec::new();
    let n = lobby.players.len();
    assert(lobby.players@.skip(0) == lobby.players@);
    for i in 0..n
        invariant
            n == lobby.players@.len(),
            forall|a: int, b: int|
                0 <= a < b < players@.len() ==> players@[a].id != players@[b].id,
            spec_player_infos(players@, lobby.players@) =~= infos@ + spec_player_infos(
                players@,
                lobby.players@.skip(i as int),
            ),
    {
        let pid = lobby.players[i];
        assert(lobby.players@.skip(i as int).first() == pid);
        assert(lobby.players@.skip(i as int).drop_first() == lobby.players@.skip(i + 1));
        match find_player_index(players, pid) {
            Some(pi) => {
                proof {
                    assert((pi as int) < players@.len() && players@[pi as int].id == pid);
                    assert(seq_player_index(players@, pid) == pi as int);
                }
                infos.push(
                    PlayerInfo {
                        id: players[pi].id,
                        username: players[pi].username.clone(),
                        rating: players[pi].rating,
                        ready: false,
                    },
                );
            },
            None => {
                proof {
                    if seq_has_player(players@, pid) {
                        let k = seq_player_index(players@, pid);
                        assert(0 <= k < players@.len() && players@[k].id == pid);
                    }
                }
            },
        }
    }
    assert(spec_player_infos(players@, lobby.players@.skip(n as int)) =~= Seq::<
        PlayerInfo,
    >::empty());
    assert(infos@ =~= spec_player_infos(players@, lobby.players@));
    let host_name: String = match find_player_index(players, lobby.host) {
        Some(hi) => {
            proof {
                assert((hi as int) < players@.len() && players@[hi as int].id == lobby.host);
                assert(seq_player_index(players@, lobby.host) == hi as int);
            }
            players[hi].username.clone()
        },
        None => {
            proof {
                if seq_has_player(players@, lobby.host) {
                    let k = seq_player_index(players@, lobby.host);
                    assert(0 <= k < players@.len() && players@[k].id == lobby.host);
                }
            }
            let u: &str = "Unknown";
            u.to_owned()
        },
    };
    LobbyInfo {
        id: lobby.id,
        name: lobby.name.clone(),
        host_name,
        mode: lobby.config.mode,
        players: infos,
        max_players: lobby.config.max_players,
        state: lobby.state,
    }
}

/// What a just-created lobby looks like: the host is the sole occupant and
/// nothing has started.
pub open spec fn is_fresh_lobby(l: Lobby, lid: u64, host: u64, config: LobbyConfig, now: i64) -> bool {
    &&& l.id == lid
    &&& l.name == config.name
    &&& l.host == host
    &&& l.config == config
    &&& l.players@ =~= seq![host]
    &&& l.spectators@.len() == 0
    &&& l.state == LobbyState::Waiting
    &&& l.created_at == now
    &&& l.game_id is None
}

/// Opens a lobby with `player_id` as host and sole occupant.
///
/// Fails with `NotFound` when the host is not in the directory, with
/// `AlreadyPlaced` when the host is anywhere but idle, and with `RoomFull`
/// when the configuration admits no occupant at all.  On success the host's
/// placement moves to the new lobby and a `LobbyCreated` notification with
/// the lobby snapshot is addressed to the host.
pub fn create_lobby(st: &mut WsState, player_id: u64, config: LobbyConfig, now: i64) -> (r: (
    Result<u64, CoordError>,
    Vec<BroadcastMessage>,
))
    requires
        old(st).wf(),
        old(st).next_id < u64::MAX,
    ensures
        final(st).wf(),
        final(st).games == old(st).games,
        final(st).connections == old(st).connections,
        r.0 is Err ==> *final(st) == *old(st) && r.1@.len() == 0,
        r.0 matches Err(e) ==> (e is NotFound <==> !old(st).has_player(player_id)),
        (r.0 matches Err(e) && e is AlreadyPlaced) <==> old(st).has_player(player_id) && old(st).spec_player(player_id).status != PlayerStatus::Online,
        (r.0 matches Err(e) && e is RoomFull) <==> old(st).has_player(player_id) && old(st).spec_player(player_id).status == PlayerStatus::Online && config.max_players < 1,
        r.0 is Ok <==> old(st).has_player(player_id) && old(st).spec_player(player_id).status
            == PlayerStatus::Online && config.max_players >= 1,
        r.0 matches Ok(lid) ==> {
            &&& lid == old(st).next_id
            &&& final(st).next_id == old(st).next_id + 1
            &&& final(st).lobbies@.len() == old(st).lobbies@.len() + 1
            &&& forall|j: int|
                0 <= j < old(st).lobbies@.len() ==> final(st).lobbies@[j] == old(st).lobbies@[j]
            &&& is_fresh_lobby(final(st).lobbies@.last(), lid, player_id, config, now)
            &&& placed(old(st).players@, final(st).players@, player_id, PlayerStatus::InLobby(lid))
            &&& r.1@.len() == 1
            &&& r.1@[0].target == BroadcastTarget::Player(player_id)
            &&& r.1@[0].message@ == ServerMessageV::LobbyMessage(
                LobbyMessageV::LobbyCreated {
                    lobby_id: lid,
                    lobby: spec_lobby_info(final(st).players@, final(st).lobbies@.last()),
                },
            )
        },
{
    let pi = match find_player_index(&st.players, player_id) {
        Some(pi) => pi,
        None => {
            proof {
                if old(st).has_player(player_id) {
                    let k = old(st).player_index(player_id);
                    assert(0 <= k < st.players@.len() && st.players@[k].id == player_id);
                }
            }
            return (Err(CoordError::NotFound), Vec::new());
        },
    };
    proof {
        assert((pi as int) < st.players@.len() && st.players@[pi as int].id == player_id);
        assert(old(st).player_index(player_id) == pi as int);
    }
    let idle = match st.players[pi].status {
        PlayerStatus::Online => true,
        _ => false,
    };
    if !idle {
        return (Err(CoordError::AlreadyPlaced), Vec::new());
    }
    if config.max_players < 1 {
        return (Err(CoordError::RoomFull), Vec::new());
    }
    let lid = st.alloc_id();
    let mut occupants: Vec<u64> = Vec::new();
    occupants.push(player_id);
    let lobby = Lobby {
        id: lid,
        name: config.name.clone(),
        host: player_id,
        config,
        players: occupants,
        spectators: Vec::new(),
        state: LobbyState::Waiting,
        created_at: now,
        game_id: None,
    };
    st.lobbies.push(lobby);
    set_placement(&mut st.players, player_id, PlayerStatus::InLobby(lid));
    let li = st.lobbies.len() - 1;
    let info = create_lobby_info(&st.players, &st.lobbies[li]);
    let msg = BroadcastMessage {
        target: BroadcastTarget::Player(player_id),
        message: ServerMessage::LobbyMessage(
            LobbyMessage::LobbyCreated { lobby_id: lid, lobby: info },
        ),
    };
    let mut out: Vec<BroadcastMessage> = Vec::new();
    out.push(msg);
    (Ok(lid), out)
}

/// How a lobby's record changes when an occupant leaves: the occupant at
/// position `ki` is removed, and the host seat passes to the new first
/// occupant if the host left.
pub open spec fn left_lobby(ol: Lobby, nl: Lobby, ki: int, pid: u64) -> bool {
    &&& nl.id == ol.id
    &&& nl.name == ol.name
    &&& nl.config == ol.config
    &&& nl.players@ == ol.players@.remove(ki)
    &&& nl.spectators@ == ol.spectators@
    &&& nl.state == ol.state
    &&& nl.created_at == ol.created_at
    &&& nl.game_id == ol.game_id
    &&& nl.host == (if ol.host == pid {
        ol.players@.remove(ki)[0]
    } else {
        ol.host
    })
}

/// Removes an occupant from a lobby.
///
/// `NotFound` when the lobby does not exist or does not list the leaver;
/// nothing changes then.  Otherwise the leaver's placement returns to idle;
/// if the leaver hosted and occupants remain, the next occupant in join
/// order becomes host and a `PlayerLeft` notification goes to the remaining
/// occupants; if the lobby empties, it is removed and a `LobbyClosed`
/// notification is addressed to the (now empty) lobby scope.
pub fn leave_lobby(st: &mut WsState, player_id: u64, lobby_id: u64) -> (r: (
    Result<(), CoordError>,
    Vec<BroadcastMessage>,
))
    requires
        old(st).wf(),
    ensures
        final(st).wf(),
        final(st).games == old(st).games,
        final(st).connections == old(st).connections,
        final(st).next_id == old(st).next_id,
        r.0 is Err ==> *final(st) == *old(st) && r.1@.len() == 0,
        r.0 matches Err(e) ==> e is NotFound,
        r.0 is Ok <==> old(st).has_lobby(lobby_id) && old(st).spec_lobby(
            lobby_id,
        ).players@.contains(player_id),
        r.0 is Ok ==> ({
            let li = old(st).lobby_index(lobby_id);
            let ol = old(st).lobbies@[li];
            let ki = choose|k: int| 0 <= k < ol.players@.len() && ol.players@[k] == player_id;
            let remaining = ol.players@.remove(ki);
            &&& placed(old(st).players@, final(st).players@, player_id, PlayerStatus::Online)
            &&& (remaining.len() == 0 ==> {
                &&& final(st).lobbies@ == old(st).lobbies@.remove(li)
                &&& r.1@.len() == 1
                &&& r.1@[0].target == BroadcastTarget::Lobby(lobby_id)
                &&& r.1@[0].message@ == ServerMessageV::LobbyMessage(LobbyMessageV::LobbyClosed)
            })
            &&& (remaining.len() > 0 ==> {
                &&& final(st).lobbies@.len() == old(st).lobbies@.len()
                &&& forall|j: int|
                    0 <= j < old(st).lobbies@.len() && j != li ==> final(st).lobbies@[j] == old(st).lobbies@[j]
                &&& left_lobby(ol, final(st).lobbies@[li], ki, player_id)
                &&& r.1@.len() == 1
                &&& r.1@[0].target == BroadcastTarget::Lobby(lobby_id)
                &&& r.1@[0].message@ == ServerMessageV::LobbyMessage(
                    LobbyMessageV::PlayerLeft { player_id },
                )
            })
        }),
{
    let li = match find_lobby_index(&st.lobbies, lobby_id) {
        Some(li) => li,
        None => {
            proof {
                if old(st).has_lobby(lobby_id) {
                    let k = old(st).lobby_index(lobby_id);
                    assert(0 <= k < st.lobbies@.len() && st.lobbies@[k].id == lobby_id);
                }
            }
            return (Err(CoordError::NotFound), Vec::new());
        },
    };
    proof {
        assert((li as int) < st.lobbies@.len() && st.lobbies@[li as int].id == lobby_id);
        assert(old(st).lobby_index(lobby_id) == li as int);
    }
    let ki = match find_id_index(&st.lobbies[li].players, player_id) {
        Some(ki) => ki,
        None => {
            proof {
                assert(!old(st).spec_lobby(lobby_id).players@.contains(player_id)) by {
                    if old(st).spec_lobby(lobby_id).players@.contains(player_id) {
                        let k = choose|k: int|
                            0 <= k < old(st).spec_lobby(lobby_id).players@.len() && old(st).spec_lobby(lobby_id).players@[k] == player_id;
                        assert(st.lobbies@[li as int].players@[k] == player_id);
                    }
                }
            }
            return (Err(CoordError::NotFound), Vec::new());
        },
    };
    let ghost ol = st.lobbies@[li as int];
    proof {
        let kk = choose|k: int| 0 <= k < ol.players@.len() && ol.players@[k] == player_id;
        assert(ol.players@.contains(player_id)) by {
            assert(ol.players@[ki as int] == player_id);
        }
        assert(0 <= kk < ol.players@.len() && ol.players@[kk] == player_id);
        assert(kk == ki as int);
    }
    let became_empty = {
        let l = &mut st.lobbies[li];
        l.players.remove(ki);
        if l.players.len() > 0 {
            if l.host == player_id {
                l.host = l.players[0];
            }
            false
        } else {
            true
        }
    };
    let mut out: Vec<BroadcastMessage> = Vec::new();
    if became_empty {
        st.lobbies.remove(li);
        out.push(
            BroadcastMessage {
                target: BroadcastTarget::Lobby(lobby_id),
                message: ServerMessage::LobbyMessage(LobbyMessage::LobbyClosed),
            },
        );
    } else {
        out.push(
            BroadcastMessage {
                target: BroadcastTarget::Lobby(lobby_id),
                message: ServerMessage::LobbyMessage(LobbyMessage::PlayerLeft { player_id }),
            },
        );
    }
    set_placement(&mut st.players, player_id, PlayerStatus::Online);
    proof {
        assert(st.lobbies@.len() == if became_empty {
            old(st).lobbies@.len() - 1
        } else {
            old(st).lobbies@.len() as int
        });
        if !became_empty {
            let nl = st.lobbies@[li as int];
            assert(nl.players@ == ol.players@.remove(ki as int));
            assert(nl.wf()) by {
                assert(forall|a: int, b: int|
                    0 <= a < b < nl.players@.len() ==> nl.players@[a] != nl.players@[b]) by {
                    assert forall|a: int, b: int|
                        0 <= a < b < nl.players@.len() implies nl.players@[a] != nl.players@[b] by {
                        let oa = if a < ki as int {
                            a
                        } else {
                            a + 1
                        };
                        let ob = if b < ki as int {
                            b
                        } else {
                            b + 1
                        };
                        assert(nl.players@[a] == ol.players@[oa]);
                        assert(nl.players@[b] == ol.players@[ob]);
                    }
                }
                if nl.state != LobbyState::Finished {
                    if ol.host == player_id {
                        assert(nl.players@.contains(nl.host)) by {
                            assert(nl.players@[0] == nl.host);
                        }
                    } else {
                        assert(ol.players@.contains(ol.host));
                        let hk = choose|k: int|
                            0 <= k < ol.players@.len() && ol.players@[k] == ol.host;
                        assert(ol.players@[ki as int] == player_id);
                        assert(hk != ki as int);
                        let nk = if hk < ki as int {
                            hk
                        } else {
                            hk - 1
                        };
                        assert(nl.players@[nk] == ol.players@[hk]);
                        assert(nl.players@.contains(nl.host));
                    }
                }
            }
        }
    }
    (Ok(()), out)
}

/// Adds a participant to a lobby, as an occupant or a spectator.
///
/// `NotFound` when the participant or the lobby does not resolve;
/// `AlreadyPlaced` when the joiner is anywhere but idle (re-joining the
/// same lobby is a harmless no-op); `RoomFull` when a seat join finds the
/// occupant list at its configured maximum — spectators are unbounded and
/// never count toward it.  A successful occupant join appends the joiner in
/// join order, announces it to the lobby and sends the joiner a snapshot;
/// when that join fills a two-seat lobby, the lobby is promoted into a game
/// at once.  A spectator joins the linked game's spectator set when the
/// game has started, and the lobby's otherwise.
#[verifier::rlimit(60)]
#[verifier::spinoff_prover]
pub fn join_lobby(st: &mut WsState, player_id: u64, lobby_id: u64, as_spectator: bool) -> (r: (
    Result<(), CoordError>,
    Vec<BroadcastMessage>,
))
    requires
        old(st).wf(),
        old(st).next_id < u64::MAX,
    ensures
        final(st).wf(),
        final(st).connections == old(st).connections,
        r.0 is Err ==> *final(st) == *old(st) && r.1@.len() == 0,
        (r.0 matches Err(e) && e is NotFound) <==> !(old(st).has_player(player_id) && old(st).has_lobby(lobby_id)),
        (r.0 matches Err(e) && e is AlreadyPlaced) <==> old(st).has_player(player_id) && old(st).has_lobby(lobby_id) && old(st).spec_player(player_id).status != PlayerStatus::Online && !(
        !as_spectator && old(st).spec_player(player_id).status == PlayerStatus::InLobby(lobby_id)),
        (r.0 matches Err(e) && e is RoomFull) <==> old(st).has_player(player_id) && old(st).has_lobby(lobby_id) && old(st).spec_player(player_id).status == PlayerStatus::Online
            && !as_spectator && old(st).spec_lobby(lobby_id).players@.len() >= old(st).spec_lobby(
            lobby_id,
        ).config.max_players as int,
        old(st).has_player(player_id) && old(st).has_lobby(lobby_id) && !as_spectator && old(st).spec_player(player_id).status == PlayerStatus::InLobby(lobby_id) ==> r.0 is Ok && *final(st) == *old(st) && r.1@.len() == 0,
        old(st).has_player(player_id) && old(st).has_lobby(lobby_id) && !as_spectator && old(st).spec_player(player_id).status == PlayerStatus::Online && old(st).spec_lobby(
            lobby_id,
        ).players@.len() < old(st).spec_lobby(lobby_id).config.max_players as int && old(st).spec_lobby(lobby_id).players@.contains(player_id) ==> r.0 is Ok && *final(st) == *old(st)
            && r.1@.len() == 0,
        old(st).has_player(player_id) && old(st).has_lobby(lobby_id) && !as_spectator && old(st).spec_player(player_id).status == PlayerStatus::Online && old(st).spec_lobby(
            lobby_id,
        ).players@.len() < old(st).spec_lobby(lobby_id).config.max_players as int && !old(st).spec_lobby(lobby_id).players@.contains(player_id) ==> ({
            let pl = old(st).spec_player(player_id);
            let li = old(st).lobby_index(lobby_id);
            let ol = old(st).lobbies@[li];
            let mid_players = with_placement(
                old(st).players@,
                player_id,
                PlayerStatus::InLobby(lobby_id),
            );
            let joined = ol.players@.push(player_id);
            let promote = ol.state == LobbyState::Waiting && ol.config.max_players == 2
                && joined.len() == 2;
            &&& r.0 is Ok
            &&& r.1@.len() >= 2
            &&& r.1@[0].target == BroadcastTarget::Lobby(lobby_id)
            &&& r.1@[0].message@ == ServerMessageV::LobbyMessage(
                LobbyMessageV::PlayerJoined {
                    player: PlayerInfo {
                        id: player_id,
                        username: pl.username,
                        rating: pl.rating,
                        ready: false,
                    },
                },
            )
            &&& r.1@[1].target == BroadcastTarget::Player(player_id)
            &&& r.1@[1].message@ == ServerMessageV::LobbyMessage(
                LobbyMessageV::LobbyUpdated {
                    lobby: spec_lobby_info_of(
                        mid_players,
                        ol.id,
                        ol.name,
                        ol.host,
                        ol.config.mode,
                        joined,
                        ol.config.max_players,
                        ol.state,
                    ),
                },
            )
            &&& (!promote ==> {
                &&& r.1@.len() == 2
                &&& final(st).next_id == old(st).next_id
                &&& final(st).games == old(st).games
                &&& placed(
                    old(st).players@,
                    final(st).players@,
                    player_id,
                    PlayerStatus::InLobby(lobby_id),
                )
                &&& final(st).lobbies@.len() == old(st).lobbies@.len()
                &&& forall|j: int|
                    0 <= j < old(st).lobbies@.len() && j != li ==> final(st).lobbies@[j] == old(st).lobbies@[j]
                &&& ({
                    let nl = final(st).lobbies@[li];
                    &&& nl.id == ol.id
                    &&& nl.name == ol.name
                    &&& nl.host == ol.host
                    &&& nl.config == ol.config
                    &&& nl.players@ == joined
                    &&& nl.spectators@ == ol.spectators@
                    &&& nl.state == ol.state
                    &&& nl.created_at == ol.created_at
                    &&& nl.game_id == ol.game_id
                })
            })
            &&& (promote ==> {
                let gid = old(st).next_id;
                let w = ol.players@[0];
                &&& final(st).next_id == gid + 1
                &&& final(st).lobbies@.len() == old(st).lobbies@.len()
                &&& forall|j: int|
                    0 <= j < old(st).lobbies@.len() && j != li ==> final(st).lobbies@[j] == old(st).lobbies@[j]
                &&& ({
                    let nl = final(st).lobbies@[li];
                    &&& nl.id == ol.id
                    &&& nl.host == ol.host
                    &&& nl.config == ol.config
                    &&& nl.players@ == joined
                    &&& nl.state == LobbyState::InProgress
                    &&& nl.game_id == Some(gid)
                })
                &&& final(st).games@.len() == old(st).games@.len() + 1
                &&& forall|j: int|
                    0 <= j < old(st).games@.len() ==> final(st).games@[j] == old(st).games@[j]
                &&& crate::game::is_fresh_game(
                    final(st).games@.last(),
                    gid,
                    w,
                    player_id,
                    lobby_id,
                    ol.config.time_control,
                )
                &&& crate::game::seats_placed(
                    mid_players,
                    final(st).players@,
                    w,
                    player_id,
                    PlayerStatus::InGame(gid),
                )
                &&& r.1@.len() >= 3
                &&& r.1@[2].target == BroadcastTarget::Lobby(lobby_id)
                &&& r.1@[2].message@ == ServerMessageV::LobbyMessage(
                    LobbyMessageV::GameStarted { game_id: gid },
                )
                &&& (seq_has_player(mid_players, w) ==> r.1@.len() == 4 && r.1@[3].target
                    == BroadcastTarget::Game(gid) && r.1@[3].message@
                    == ServerMessageV::GameMessage(
                    crate::game::GameMessageV::GameStarted {
                        game_id: gid,
                        white_player: crate::game::spec_seat_info(mid_players, w),
                        black_player: crate::game::spec_seat_info(mid_players, player_id),
                        fen: crate::engine::initial_fen(),
                    },
                ))
            })
        }),
        old(st).has_player(player_id) && old(st).has_lobby(lobby_id) && as_spectator && old(st).spec_player(player_id).status == PlayerStatus::Online ==> ({
            let li = old(st).lobby_index(lobby_id);
            let ol = old(st).lobbies@[li];
            let spectate_game = ol.state == LobbyState::InProgress && (ol.game_id matches Some(
                g,
            ) && old(st).has_game(g));
            &&& r.0 is Ok
            &&& final(st).next_id == old(st).next_id
            &&& r.1@.len() == 2
            &&& (spectate_game ==> {
                let gid = ol.game_id->0;
                let gi = old(st).game_index(gid);
                let og = old(st).games@[gi];
                let ng = final(st).games@[gi];
                &&& final(st).lobbies == old(st).lobbies
                &&& final(st).games@.len() == old(st).games@.len()
                &&& forall|j: int|
                    0 <= j < old(st).games@.len() && j != gi ==> final(st).games@[j] == old(st).games@[j]
                &&& ng.id == og.id
                &&& ng.white_player == og.white_player
                &&& ng.black_player == og.black_player
                &&& ng.fen == og.fen
                &&& ng.white_to_move == og.white_to_move
                &&& ng.moves@ == og.moves@
                &&& ng.state == og.state
                &&& ng.spectators@ == (if og.spectators@.contains(player_id) {
                    og.spectators@
                } else {
                    og.spectators@.push(player_id)
                })
                &&& placed(
                    old(st).players@,
                    final(st).players@,
                    player_id,
                    PlayerStatus::InGame(gid),
                )
                &&& r.1@[0].target == BroadcastTarget::Player(player_id)
                &&& r.1@[0].message@ == ServerMessageV::RoomJoined {
                    room_id: lobby_id,
                    game_state: Some(crate::multiplayer::spec_snapshot(ng)),
                    your_color: None,
                }
                &&& r.1@[1].target == BroadcastTarget::Game(gid)
                &&& r.1@[1].message@ == ServerMessageV::SpectatorJoined {
                    spectator_id: player_id,
                    spectator_count: ng.spectators@.len() as usize,
                }
            })
            &&& (!spectate_game ==> {
                let nl = final(st).lobbies@[li];
                &&& final(st).games == old(st).games
                &&& final(st).lobbies@.len() == old(st).lobbies@.len()
                &&& forall|j: int|
                    0 <= j < old(st).lobbies@.len() && j != li ==> final(st).lobbies@[j] == old(st).lobbies@[j]
                &&& nl.id == ol.id
                &&& nl.name == ol.name
                &&& nl.host == ol.host
                &&& nl.config == ol.config
                &&& nl.players@ == ol.players@
                &&& nl.state == ol.state
                &&& nl.created_at == ol.created_at
                &&& nl.game_id == ol.game_id
                &&& nl.spectators@ == (if ol.spectators@.contains(player_id) {
                    ol.spectators@
                } else {
                    ol.spectators@.push(player_id)
                })
                &&& placed(
                    old(st).players@,
                    final(st).players@,
                    player_id,
                    PlayerStatus::InLobby(lobby_id),
                )
                &&& r.1@[0].target == BroadcastTarget::Player(player_id)
                &&& r.1@[0].message@ == ServerMessageV::RoomJoined {
                    room_id: lobby_id,
                    game_state: None,
                    your_color: None,
                }
                &&& r.1@[1].target == BroadcastTarget::Lobby(lobby_id)
                &&& r.1@[1].message@ == ServerMessageV::SpectatorJoined {
                    spectator_id: player_id,
                    spectator_count: nl.spectators@.len() as usize,
                }
            })
        }),
{
    let pi = match find_player_index(&st.players, player_id) {
        Some(pi) => pi,
        None => {
            proof {
                if old(st).has_player(player_id) {
                    let k = old(st).player_index(player_id);
                    assert(0 <= k < st.players@.len() && st.players@[k].id == player_id);
                }
            }
            return (Err(CoordError::NotFound), Vec::new());
        },
    };
    proof {
        assert((pi as int) < st.players@.len() && st.players@[pi as int].id == player_id);
        assert(old(st).player_index(player_id) == pi as int);
    }
    let li = match find_lobby_index(&st.lobbies, lobby_id) {
        Some(li) => li,
        None => {
            proof {
                if old(st).has_lobby(lobby_id) {
                    let k = old(st).lobby_index(lobby_id);
                    assert(0 <= k < st.lobbies@.len() && st.lobbies@[k].id == lobby_id);
                }
            }
            return (Err(CoordError::NotFound), Vec::new());
        },
    };
    proof {
        assert((li as int) < st.lobbies@.len() && st.lobbies@[li as int].id == lobby_id);
        assert(old(st).lobby_index(lobby_id) == li as int);
    }
    let rejoining = match st.players[pi].status {
        PlayerStatus::InLobby(l) => l == lobby_id,
        _ => false,
    };
    if !as_spectator && rejoining {
        return (Ok(()), Vec::new());
    }
    let idle = match st.players[pi].status {
        PlayerStatus::Online => true,
        _ => false,
    };
    if !idle {
        return (Err(CoordError::AlreadyPlaced), Vec::new());
    }
    if as_spectator {
        let started = match st.lobbies[li].state {
            LobbyState::InProgress => true,
            _ => false,
        };
        let linked: Option<u64> = st.lobbies[li].game_id;
        let game_slot: Option<usize> = match linked {
            Some(gid) => {
                if started {
                    let found = find_game_index(&st.games, gid);
                    proof {
                        match found {
                            Some(gi) => {
                                assert((gi as int) < st.games@.len() && st.games@[gi as int].id
                                    == gid);
                                assert(old(st).game_index(gid) == gi as int);
                            },
                            None => {
                                if old(st).has_game(gid) {
                                    let k = old(st).game_index(gid);
                                    assert(0 <= k < st.games@.len() && st.games@[k].id == gid);
                                }
                            },
                        }
                    }
                    found
                } else {
                    None
                }
            },
            None => None,
        };
        match game_slot {
            Some(gi) => {
                let gid = st.games[gi].id;
                let ghost og = st.games@[gi as int];
                if !contains_id(&st.games[gi].spectators, player_id) {
                    let g = &mut st.games[gi];
                    g.spectators.push(player_id);
                    proof {
                        let ng = st.games@[gi as int];
                        assert(forall|k: int|
                            0 <= k < og.spectators@.len() ==> og.spectators@[k] != player_id);
                        assert(ng.wf());
                    }
                }
                set_placement(&mut st.players, player_id, PlayerStatus::InGame(gid));
                let snap = crate::multiplayer::game_snapshot(&st.games[gi]);
                let count = st.games[gi].spectators.len();
                let mut out: Vec<BroadcastMessage> = Vec::new();
                out.push(
                    BroadcastMessage {
                        target: BroadcastTarget::Player(player_id),
                        message: ServerMessage::RoomJoined {
                            room_id: lobby_id,
                            game_state: Some(snap),
                            your_color: None,
                        },
                    },
                );
                out.push(
                    BroadcastMessage {
                        target: BroadcastTarget::Game(gid),
                        message: ServerMessage::SpectatorJoined {
                            spectator_id: player_id,
                            spectator_count: count,
                        },
                    },
                );
                return (Ok(()), out);
            },
            None => {
                let ghost olb = st.lobbies@[li as int];
                if !contains_id(&st.lobbies[li].spectators, player_id) {
                    let l = &mut st.lobbies[li];
                    l.spectators.push(player_id);
                    proof {
                        let nl = st.lobbies@[li as int];
                        assert(forall|k: int|
                            0 <= k < olb.spectators@.len() ==> olb.spectators@[k] != player_id);
                        assert(nl.wf());
                    }
                }
                set_placement(&mut st.players, player_id, PlayerStatus::InLobby(lobby_id));
                let count = st.lobbies[li].spectators.len();
                let mut out: Vec<BroadcastMessage> = Vec::new();
                out.push(
                    BroadcastMessage {
                        target: BroadcastTarget::Player(player_id),
                        message: ServerMessage::RoomJoined {
                            room_id: lobby_id,
                            game_state: None,
                            your_color: None,
                        },
                    },
                );
                out.push(
                    BroadcastMessage {
                        target: BroadcastTarget::Lobby(lobby_id),
                        message: ServerMessage::SpectatorJoined {
                            spectator_id: player_id,
                            spectator_count: count,
                        },
                    },
                );
                return (Ok(()), out);
            },
        }
    }
    if st.lobbies[li].players.len() >= st.lobbies[li].config.max_players as usize {
        return (Err(CoordError::RoomFull), Vec::new());
    }
    if contains_id(&st.lobbies[li].players, player_id) {
        return (Ok(()), Vec::new());
    }
    let username = st.players[pi].username.clone();
    let rating = st.players[pi].rating;
    let ghost ol = st.lobbies@[li as int];
    {
        let l = &mut st.lobbies[li];
        l.players.push(player_id);
    }
    proof {
        assert(st.lobbies@[li as int].players@ == ol.players@.push(player_id));
        assert(st.lobbies@[li as int].wf()) by {
            let nl = st.lobbies@[li as int];
            assert(forall|k: int| 0 <= k < ol.players@.len() ==> ol.players@[k] != player_id);
            assert(forall|a: int, b: int|
                0 <= a < b < nl.players@.len() ==> nl.players@[a] != nl.players@[b]);
            if nl.state != LobbyState::Finished {
                let hk = choose|k: int| 0 <= k < ol.players@.len() && ol.players@[k] == ol.host;
                assert(nl.players@[hk] == nl.host);
                assert(nl.players@.contains(nl.host));
            }
        }
    }
    set_placement(&mut st.players, player_id, PlayerStatus::InLobby(lobby_id));
    let info = create_lobby_info(&st.players, &st.lobbies[li]);
    let mut out: Vec<BroadcastMessage> = Vec::new();
    out.push(
        BroadcastMessage {
            target: BroadcastTarget::Lobby(lobby_id),
            message: ServerMessage::LobbyMessage(
                LobbyMessage::PlayerJoined {
                    player: PlayerInfo { id: player_id, username, rating, ready: false },
                },
            ),
        },
    );
    out.push(
        BroadcastMessage {
            target: BroadcastTarget::Player(player_id),
            message: ServerMessage::LobbyMessage(LobbyMessage::LobbyUpdated { lobby: info }),
        },
    );
    let waiting = match st.lobbies[li].state {
        LobbyState::Waiting => true,
        _ => false,
    };
    if waiting && st.lobbies[li].config.max_players == 2 && st.lobbies[li].players.len() == 2 {
        proof {
            assert(st.has_lobby(lobby_id)) by {
                assert(st.lobbies@[li as int].id == lobby_id);
            }
            assert(st.lobby_index(lobby_id) == li as int) by {
                let k = st.lobby_index(lobby_id);
                assert(0 <= k < st.lobbies@.len() && st.lobbies@[k].id == lobby_id);
            }
            let mid_players = with_placement(
                old(st).players@,
                player_id,
                PlayerStatus::InLobby(lobby_id),
            );
            assert(seq_has_player(mid_players, player_id)) by {
                let k = old(st).player_index(player_id);
                assert(0 <= k < old(st).players@.len() && old(st).players@[k].id == player_id);
                assert(mid_players[k].id == player_id);
            }
        }
        let (_started, mut promo) = crate::game::create_game_from_lobby(st, lobby_id);
        out.append(&mut promo);
    }
    (Ok(()), out)
}

impl Clone for LobbyMessage {
    fn clone(&self) -> (r: Self)
        ensures
            r@ == self@,
    {
        match self {
            LobbyMessage::LobbyCreated { lobby_id, lobby } => LobbyMessage::LobbyCreated {
                lobby_id: *lobby_id,
                lobby: lobby.clone(),
            },
            LobbyMessage::LobbyUpdated { lobby } => LobbyMessage::LobbyUpdated {
                lobby: lobby.clone(),
            },
            LobbyMessage::PlayerJoined { player } => LobbyMessage::PlayerJoined {
                player: player.clone(),
            },
            LobbyMessage::PlayerLeft { player_id } => LobbyMessage::PlayerLeft {
                player_id: *player_id,
            },
            LobbyMessage::GameStarting { countdown } => LobbyMessage::GameStarting {
                countdown: *countdown,
            },
            LobbyMessage::GameStarted { game_id } => LobbyMessage::GameStarted {
                game_id: *game_id,
            },
            LobbyMessage::LobbyClosed => LobbyMessage::LobbyClosed,
        }
    }
}

} // verus!
