//! The request dispatch layer: admitting participants, dispatching inbound
//! messages to the lobby and game managers, routing their notifications,
//! and the disconnect / reconnect lifecycle.

use vstd::prelude::*;
use crate::errors::CoordError;
use crate::game::{create_game_from_lobby, leave_game_spectators, make_move, resign, GameMessage};
use crate::lobby::{create_lobby, join_lobby, leave_lobby, LobbyState};
use crate::multiplayer::{ClientMessage, ServerMessage, ServerMessageV};
use crate::player::{Player, PlayerStatus};
use crate::router::{entitled, route, BroadcastMessage, BroadcastTarget};
use crate::state::{
    bounded_push,
    find_player_index,
    msgs_view,
    set_connection,
    set_placement,
    with_connection,
    with_placement,
    WsState,
};

verus! {

/// Admits a participant with the profile the authentication collaborator
/// resolved from its identity proof, linked to connection `conn_id`.
///
/// Any participant previously linked to the same connection is unlinked
/// (a connection delivers to at most one participant), and a `Connected`
/// acknowledgement is addressed to the new participant.
pub fn connect(st: &mut WsState, conn_id: u64, username: String, rating: u32) -> (r: (
    u64,
    Vec<BroadcastMessage>,
))
    requires
        old(st).wf(),
        old(st).next_id < u64::MAX,
    ensures
        final(st).wf(),
        final(st).lobbies == old(st).lobbies,
        final(st).games == old(st).games,
        final(st).connections == old(st).connections,
        r.0 == old(st).next_id,
        final(st).next_id == old(st).next_id + 1,
        final(st).players@.len() == old(st).players@.len() + 1,
        forall|j: int|
            0 <= j < old(st).players@.len() ==> final(st).players@[j] == unlinked(
                old(st).players@,
                conn_id,
            )[j],
        ({
            let p = final(st).players@.last();
            &&& p.id == r.0
            &&& p.username == username
            &&& p.rating == rating
            &&& p.status == PlayerStatus::Online
            &&& p.connection_id == Some(conn_id)
        }),
        r.1@.len() == 1,
        r.1@[0].target == BroadcastTarget::Player(r.0),
        r.1@[0].message@ == (ServerMessageV::Connected { player_id: r.0 }),
{
    clear_connection_holders(&mut st.players, conn_id);
    let pid = st.alloc_id();
    st.players.push(
        Player {
            id: pid,
            username,
            rating,
            status: PlayerStatus::Online,
            connection_id: Some(conn_id),
        },
    );
    let mut out: Vec<BroadcastMessage> = Vec::new();
    out.push(
        BroadcastMessage {
            target: BroadcastTarget::Player(pid),
            message: ServerMessage::Connected { player_id: pid },
        },
    );
    (pid, out)
}

/// The directory after every link to `conn_id` is severed.
pub open spec fn unlinked(pre: Seq<Player>, conn_id: u64) -> Seq<Player> {
    pre.map_values(
        |p: Player|
            if p.connection_id == Some(conn_id) {
                Player {
                    id: p.id,
                    username: p.username,
                    rating: p.rating,
                    status: p.status,
                    connection_id: None,
                }
            } else {
                p
            },
    )
}

/// Severs every link to `conn_id` in the directory.
fn clear_connection_holders(players: &mut Vec<Player>, conn_id: u64)
    ensures
        final(players)@ == unlinked(old(players)@, conn_id),
{
    let n = players.len();
    for i in 0..n
        invariant
            n == players@.len() == old(players)@.len(),
            forall|j: int| i <= j < n ==> players@[j] == old(players)@[j],
            forall|j: int| 0 <= j < i ==> players@[j] == unlinked(old(players)@, conn_id)[j],
    {
        let linked = match players[i].connection_id {
            Some(c) => c == conn_id,
            None => false,
        };
        if linked {
            let p = &mut players[i];
            p.connection_id = None;
        }
    }
    assert(players@ =~= unlinked(old(players)@, conn_id));
}

/// Re-associates an existing participant with a new connection, superseding
/// any participant previously linked to it; an offline participant becomes
/// idle again, one still placed in a lobby or game resumes there.  Returns
/// false, changing nothing, for an unknown participant.
pub fn reattach_connection(st: &mut WsState, player_id: u64, conn_id: u64) -> (ok: bool)
    requires
        old(st).wf(),
    ensures
        final(st).wf(),
        final(st).lobbies == old(st).lobbies,
        final(st).games == old(st).games,
        final(st).connections == old(st).connections,
        final(st).next_id == old(st).next_id,
        ok == old(st).has_player(player_id),
        !ok ==> final(st).players == old(st).players,
        ok ==> ({
            let cleared = unlinked(old(st).players@, conn_id);
            let relinked = with_connection(cleared, player_id, Some(conn_id));
            final(st).players@ == (if seq_player_status(relinked, player_id)
                == PlayerStatus::Offline {
                with_placement(relinked, player_id, PlayerStatus::Online)
            } else {
                relinked
            })
        }),
{
    let pi = match find_player_index(&st.players, player_id) {
        Some(pi) => pi,
        None => {
            proof {
                if old(st).has_player(player_id) {
                    let k = old(st).player_index(player_id);
                    assert(0 <= k < st.players@.len() && st.players@[k].id == player_id);
                }
            }
            return false;
        },
    };
    proof {
        assert((pi as int) < st.players@.len() && st.players@[pi as int].id == player_id);
    }
    clear_connection_holders(&mut st.players, conn_id);
    set_connection(&mut st.players, player_id, Some(conn_id));
    proof {
        assert(st.players@[pi as int].id == player_id);
        assert(seq_player_status(st.players@, player_id) == st.players@[pi as int].status) by {
            let k = crate::state::seq_player_index(st.players@, player_id);
            assert(st.players@[pi as int].id == player_id);
            assert(0 <= k < st.players@.len() && st.players@[k].id == player_id);
            assert(k == pi as int);
        }
    }
    let offline = match st.players[pi].status {
        PlayerStatus::Offline => true,
        _ => false,
    };
    if offline {
        set_placement(&mut st.players, player_id, PlayerStatus::Online);
    }
    true
}

/// The placement of the participant keyed by `pid`, when present.
pub open spec fn seq_player_status(players: Seq<Player>, pid: u64) -> PlayerStatus {
    crate::state::seq_player(players, pid).status
}

/// Handles a dropped connection: the identity's connection link is severed
/// so no delivery is attempted; an occupant of a waiting lobby leaves it; a
/// participant seated in a game keeps the game placement so the same
/// identity can reconnect and resume.  Directory removal is deferred to
/// [`remove_offline`] behind the caller's grace period.
pub fn handle_disconnect(st: &mut WsState, player_id: u64) -> (out: Vec<BroadcastMessage>)
    requires
        old(st).wf(),
    ensures
        final(st).wf(),
        final(st).games == old(st).games,
        final(st).connections == old(st).connections,
        final(st).next_id == old(st).next_id,
        !old(st).has_player(player_id) ==> *final(st) == *old(st) && out@.len() == 0,
        old(st).has_player(player_id) && (old(st).spec_player(player_id).status matches
        PlayerStatus::InGame(g)) ==> final(st).lobbies == old(st).lobbies && final(st).players@
            == with_connection(old(st).players@, player_id, None) && out@.len() == 0,
        old(st).has_player(player_id) && old(st).spec_player(player_id).status is InLobby ==> ({
            let l = old(st).spec_player(player_id).status->InLobby_0;
            &&& (!(old(st).has_lobby(l) && old(st).spec_lobby(l).players@.contains(player_id))
                ==> final(st).lobbies == old(st).lobbies && out@.len() == 0)
            &&& (old(st).has_lobby(l) && old(st).spec_lobby(l).players@.contains(player_id)
                ==> ({
                let li = old(st).lobby_index(l);
                let ol = old(st).lobbies@[li];
                let ki = choose|k: int| 0 <= k < ol.players@.len() && ol.players@[k] == player_id;
                let remaining = ol.players@.remove(ki);
                &&& (remaining.len() == 0 ==> final(st).lobbies@ == old(st).lobbies@.remove(li)
                    && out@.len() == 1 && out@[0].target == BroadcastTarget::Lobby(l)
                    && out@[0].message@ == ServerMessageV::LobbyMessage(
                    crate::lobby::LobbyMessageV::LobbyClosed,
                ))
                &&& (remaining.len() > 0 ==> final(st).lobbies@.len() == old(st).lobbies@.len()
                    && (forall|j: int|
                    0 <= j < old(st).lobbies@.len() && j != li ==> final(st).lobbies@[j] == old(
                        st,
                    ).lobbies@[j]) && crate::lobby::left_lobby(
                    ol,
                    final(st).lobbies@[li],
                    ki,
                    player_id,
                ) && out@.len() == 1 && out@[0].target == BroadcastTarget::Lobby(l)
                    && out@[0].message@ == ServerMessageV::LobbyMessage(
                    crate::lobby::LobbyMessageV::PlayerLeft { player_id },
                ))
            }))
        }),
        old(st).has_player(player_id) && (old(st).spec_player(player_id).status
            == PlayerStatus::Online || old(st).spec_player(player_id).status
            == PlayerStatus::Offline) ==> final(st).lobbies == old(st).lobbies && final(st).players@ == with_connection(
            with_placement(old(st).players@, player_id, PlayerStatus::Offline),
            player_id,
            None,
        ) && out@.len() == 0,
        old(st).has_player(player_id) && (old(st).spec_player(player_id).status matches
        PlayerStatus::InLobby(l)) ==> final(st).players@ == with_connection(
            with_placement(old(st).players@, player_id, PlayerStatus::Offline),
            player_id,
            None,
        ),
{
    let pi = match find_player_index(&st.players, player_id) {
        Some(pi) => pi,
        None => {
            proof {
                if old(st).has_player(player_id) {
                    let k = old(st).player_index(player_id);
                    assert(0 <= k < st.players@.len() && st.players@[k].id == player_id);
                }
            }
            return Vec::new();
        },
    };
    proof {
        assert((pi as int) < st.players@.len() && st.players@[pi as int].id == player_id);
        assert(old(st).player_index(player_id) == pi as int);
    }
    let status = st.players[pi].status;
    let mut out: Vec<BroadcastMessage> = Vec::new();
    match status {
        PlayerStatus::InLobby(lobby_id) => {
            let (_res, mut msgs) = leave_lobby(st, player_id, lobby_id);
            out.append(&mut msgs);
            let ghost mid = st.players@;
            set_placement(&mut st.players, player_id, PlayerStatus::Offline);
            proof {
                if mid == with_placement(old(st).players@, player_id, PlayerStatus::Online) {
                    assert(st.players@ =~= with_placement(
                        old(st).players@,
                        player_id,
                        PlayerStatus::Offline,
                    ));
                }
            }
            set_connection(&mut st.players, player_id, None);
        },
        PlayerStatus::InGame(_) => {
            set_connection(&mut st.players, player_id, None);
        },
        _ => {
            set_placement(&mut st.players, player_id, PlayerStatus::Offline);
            set_connection(&mut st.players, player_id, None);
        },
    }
    out
}

/// Removes a participant from the directory, but only once its placement is
/// `Offline`: the grace period for reconnection has passed and it holds no
/// room membership.  A participant still seated in a game is never removed
/// this way.
pub fn remove_offline(st: &mut WsState, player_id: u64)
    requires
        old(st).wf(),
    ensures
        final(st).wf(),
        final(st).lobbies == old(st).lobbies,
        final(st).games == old(st).games,
        final(st).connections == old(st).connections,
        final(st).next_id == old(st).next_id,
        old(st).has_player(player_id) && old(st).spec_player(player_id).status
            == PlayerStatus::Offline ==> final(st).players@ == old(st).players@.remove(
            old(st).player_index(player_id),
        ),
        !(old(st).has_player(player_id) && old(st).spec_player(player_id).status
            == PlayerStatus::Offline) ==> final(st).players == old(st).players,
{
    let pi = match find_player_index(&st.players, player_id) {
        Some(pi) => pi,
        None => {
            proof {
                if old(st).has_player(player_id) {
                    let k = old(st).player_index(player_id);
                    assert(0 <= k < st.players@.len() && st.players@[k].id == player_id);
                }
            }
            return;
        },
    };
    proof {
        assert((pi as int) < st.players@.len() && st.players@[pi as int].id == player_id);
        assert(old(st).player_index(player_id) == pi as int);
    }
    let offline = match st.players[pi].status {
        PlayerStatus::Offline => true,
        _ => false,
    };
    if offline {
        st.players.remove(pi);
    }
}

/// The room a participant is playing or watching in: the game id its
/// placement points at, with its role there.
pub fn find_player_room(st: &WsState, player_id: u64) -> (r: Option<(u64, String)>)
    requires
        st.wf(),
    ensures
        r is Some <==> st.has_player(player_id) && (st.spec_player(player_id).status matches
            PlayerStatus::InGame(g) && st.has_game(g)),
        r matches Some((rid, role)) ==> {
            &&& st.spec_player(player_id).status == PlayerStatus::InGame(rid)
            &&& role@ == (if st.spec_game(rid).white_player == player_id {
                "white"@
            } else if st.spec_game(rid).black_player == player_id {
                "black"@
            } else {
                "spectator"@
            })
        },
{
    let pi = match find_player_index(&st.players, player_id) {
        Some(pi) => pi,
        None => {
            proof {
                if st.has_player(player_id) {
                    let k = st.player_index(player_id);
                    assert(0 <= k < st.players@.len() && st.players@[k].id == player_id);
                }
            }
            return None;
        },
    };
    proof {
        assert((pi as int) < st.players@.len() && st.players@[pi as int].id == player_id);
        assert(st.player_index(player_id) == pi as int);
    }
    let gid = match st.players[pi].status {
        PlayerStatus::InGame(g) => g,
        _ => {
            return None;
        },
    };
    let gi = match crate::state::find_game_index(&st.games, gid) {
        Some(gi) => gi,
        None => {
            proof {
                if st.has_game(gid) {
                    let k = st.game_index(gid);
                    assert(0 <= k < st.games@.len() && st.games@[k].id == gid);
                }
            }
            return None;
        },
    };
    proof {
        assert((gi as int) < st.games@.len() && st.games@[gi as int].id == gid);
        assert(st.game_index(gid) == gi as int);
    }
    let role: &str = if st.games[gi].white_player == player_id {
        "white"
    } else if st.games[gi].black_player == player_id {
        "black"
    } else {
        "spectator"
    };
    Some((gid, role.to_owned()))
}

/// A directory record found at a position is the one the model names.
proof fn lemma_player_index_agrees(st: WsState, pid: u64, pi: int)
    requires
        st.wf(),
        0 <= pi < st.players@.len(),
        st.players@[pi].id == pid,
    ensures
        st.has_player(pid),
        st.player_index(pid) == pi,
        st.spec_player(pid) == st.players@[pi],
{
    assert(st.has_player(pid));
    let k = st.player_index(pid);
    assert(0 <= k < st.players@.len() && st.players@[k].id == pid);
}

/// A lobby record found at a position is the one the model names.
proof fn lemma_lobby_index_agrees(st: WsState, lid: u64, li: int)
    requires
        st.wf(),
        0 <= li < st.lobbies@.len(),
        st.lobbies@[li].id == lid,
    ensures
        st.has_lobby(lid),
        st.lobby_index(lid) == li,
        st.spec_lobby(lid) == st.lobbies@[li],
{
    assert(st.has_lobby(lid));
    let k = st.lobby_index(lid);
    assert(0 <= k < st.lobbies@.len() && st.lobbies@[k].id == lid);
}

/// A game record found at a position is the one the model names.
proof fn lemma_game_index_agrees(st: WsState, gid: u64, gi: int)
    requires
        st.wf(),
        0 <= gi < st.games@.len(),
        st.games@[gi].id == gid,
    ensures
        st.has_game(gid),
        st.game_index(gid) == gi,
        st.spec_game(gid) == st.games@[gi],
{
    assert(st.has_game(gid));
    let k = st.game_index(gid);
    assert(0 <= k < st.games@.len() && st.games@[k].id == gid);
}

/// A connection record found at a position is the one the model names.
proof fn lemma_conn_index_agrees(st: WsState, cid: u64, ci: int)
    requires
        st.wf(),
        0 <= ci < st.connections@.len(),
        st.connections@[ci].id == cid,
    ensures
        st.has_conn(cid),
        st.conn_index(cid) == ci,
        st.spec_conn(cid) == st.connections@[ci],
{
    assert(st.has_conn(cid));
    let k = st.conn_index(cid);
    assert(0 <= k < st.connections@.len() && st.connections@[k].id == cid);
}

/// Routes every notification in `msgs` through the broadcast router.
fn route_all(st: &mut WsState, msgs: &Vec<BroadcastMessage>)
    requires
        old(st).wf(),
    ensures
        final(st).wf(),
        final(st).players == old(st).players,
        final(st).lobbies == old(st).lobbies,
        final(st).games == old(st).games,
        final(st).next_id == old(st).next_id,
{
    let n = msgs.len();
    for i in 0..n
        invariant
            n == msgs@.len(),
            st.wf(),
            st.players == old(st).players,
            st.lobbies == old(st).lobbies,
            st.games == old(st).games,
            st.next_id == old(st).next_id,
    {
        route(st, &msgs[i]);
    }
}

/// Reports a rejection to the originating participant: an illegal move
/// carries its hints back as an `InvalidMove` notification, every other
/// error becomes an `Error` message.
fn route_error(st: &mut WsState, player_id: u64, e: CoordError)
    requires
        old(st).wf(),
    ensures
        final(st).wf(),
        final(st).players == old(st).players,
        final(st).lobbies == old(st).lobbies,
        final(st).games == old(st).games,
        final(st).next_id == old(st).next_id,
{
    let text = e.text();
    let message = match e {
        CoordError::InvalidMove { hints } => ServerMessage::GameMessage(
            GameMessage::InvalidMove { reason: text.to_owned(), hints },
        ),
        _ => ServerMessage::Error { message: text.to_owned() },
    };
    let bm = BroadcastMessage { target: BroadcastTarget::Player(player_id), message };
    route(st, &bm);
}

/// Dispatches one inbound message from `player_id`.
///
/// Each message kind delegates to the manager operation that owns it and
/// routes the resulting notifications; a rejection is reported to the
/// sender alone.  `Connect` is handled by the transport layer before
/// dispatch, and draw negotiation is not part of this coordinator: both
/// leave the state untouched, as does an unplaced sender asking for a room
/// action.  Malformed frames never reach this function; the transport
/// drops them without closing the connection.
#[verifier::rlimit(90)]
#[verifier::spinoff_prover]
pub fn handle_message(st: &mut WsState, player_id: u64, msg: ClientMessage, now: i64)
    requires
        old(st).wf(),
        old(st).next_id < u64::MAX,
    ensures
        final(st).wf(),
        msg matches ClientMessage::Connect { .. } ==> *final(st) == *old(st),
        msg is OfferDraw || msg is AcceptDraw || msg is DeclineDraw ==> *final(st) == *old(st),
        msg is Ping ==> final(st).players == old(st).players && final(st).lobbies == old(st).lobbies && final(st).games == old(st).games && final(st).next_id == old(st).next_id,
        msg matches ClientMessage::CreateLobby { config } ==> (final(st).lobbies@.len() == old(st).lobbies@.len() + 1 <==> old(st).has_player(player_id) && old(st).spec_player(player_id).status == PlayerStatus::Online && config.max_players >= 1) && final(st).games == old(st).games,
        msg is Resign && old(st).has_player(player_id) && old(st).spec_player(
            player_id,
        ).status is InGame ==> ({
            let g = old(st).spec_player(player_id).status->InGame_0;
            old(st).has_game(g) && old(st).spec_game(g).is_seat(player_id)
                && !crate::game::is_terminal(old(st).spec_game(g).state) ==> final(st).has_game(g)
                && crate::game::is_terminal(final(st).spec_game(g).state)
        }),
        msg matches ClientMessage::JoinLobby { lobby_id, as_spectator } ==> ({
            let joinable = old(st).has_player(player_id) && old(st).has_lobby(lobby_id) && old(st).spec_player(player_id).status == PlayerStatus::Online;
            &&& (joinable && !as_spectator && old(st).spec_lobby(lobby_id).players@.len() < old(st).spec_lobby(lobby_id).config.max_players as int && !old(st).spec_lobby(
                lobby_id,
            ).players@.contains(player_id) ==> final(st).has_lobby(lobby_id) && final(st).spec_lobby(lobby_id).players@ == old(st).spec_lobby(lobby_id).players@.push(
                player_id,
            ))
            &&& (joinable && as_spectator ==> final(st).has_player(player_id) && (final(st).spec_player(player_id).status is InGame || final(st).spec_player(
                player_id,
            ).status is InLobby))
        }),
        msg is LeaveLobby && old(st).has_player(player_id) && old(st).spec_player(
            player_id,
        ).status is InLobby ==> ({
            let l = old(st).spec_player(player_id).status->InLobby_0;
            old(st).has_lobby(l) && old(st).spec_lobby(l).players@.contains(player_id) ==> final(st).has_player(player_id) && final(st).spec_player(player_id).status
                == PlayerStatus::Online
        }),
        msg is LeaveLobby && old(st).has_player(player_id) && old(st).spec_player(
            player_id,
        ).status is InGame ==> ({
            let g = old(st).spec_player(player_id).status->InGame_0;
            old(st).has_game(g) && old(st).spec_game(g).spectators@.contains(player_id) ==> final(st).has_player(player_id) && final(st).spec_player(player_id).status
                == PlayerStatus::Online
        }),
        msg is StartGame && old(st).has_player(player_id) && old(st).spec_player(
            player_id,
        ).status is InLobby ==> ({
            let l = old(st).spec_player(player_id).status->InLobby_0;
            old(st).has_lobby(l) && old(st).spec_lobby(l).state == LobbyState::Waiting && old(st).spec_lobby(l).players@.len() >= 2 ==> final(st).games@.len() == old(st).games@.len() + 1 && final(st).has_lobby(l) && final(st).spec_lobby(l).state
                == LobbyState::InProgress && final(st).spec_lobby(l).game_id is Some
        }),
        msg matches ClientMessage::MakeMove { from, to, promotion } ==> ({
            let pl = old(st).spec_player(player_id);
            old(st).has_player(player_id) && pl.status is InGame ==> ({
                let g = pl.status->InGame_0;
                let accepted = old(st).has_game(g) && !crate::game::is_terminal(
                    old(st).spec_game(g).state,
                ) && player_id == old(st).spec_game(g).seat_to_move()
                    && crate::engine::engine_step(
                    old(st).spec_game(g).fen@,
                    crate::game::spec_uci(from@, to@, promotion),
                ) is Some;
                &&& (accepted ==> final(st).has_game(g) && final(st).spec_game(g).moves@.len()
                    == old(st).spec_game(g).moves@.len() + 1 && final(st).spec_game(
                    g,
                ).white_to_move == !old(st).spec_game(g).white_to_move)
                &&& (!accepted ==> final(st).games == old(st).games)
            })
        }),
        msg is Ping && old(st).has_player(player_id) && old(st).spec_player(
            player_id,
        ).connection_id is Some ==> ({
            let c = old(st).spec_player(player_id).connection_id->0;
            old(st).has_conn(c) ==> final(st).has_conn(c) && msgs_view(
                final(st).spec_conn(c).queue@,
            ) == bounded_push(msgs_view(old(st).spec_conn(c).queue@), ServerMessageV::Pong)
        }),
        msg matches ClientMessage::SendChatMessage { text } ==> ({
            let pl = old(st).spec_player(player_id);
            let chat = ServerMessageV::ChatMessage {
                player_id: player_id,
                username: pl.username,
                text: text,
                timestamp: now,
            };
            &&& (old(st).has_player(player_id) && pl.status is InLobby && pl.connection_id is Some
                ==> ({
                let l = pl.status->InLobby_0;
                let c = pl.connection_id->0;
                old(st).has_lobby(l) && old(st).spec_lobby(l).players@.contains(player_id) && old(st).has_conn(c) ==> final(st).has_conn(c) && msgs_view(
                    final(st).spec_conn(c).queue@,
                ) == bounded_push(msgs_view(old(st).spec_conn(c).queue@), chat)
            }))
            &&& (old(st).has_player(player_id) && pl.status is InGame && pl.connection_id is Some
                ==> ({
                let g = pl.status->InGame_0;
                let c = pl.connection_id->0;
                old(st).has_game(g) && (old(st).spec_game(g).is_seat(player_id) || old(st).spec_game(g).spectators@.contains(player_id)) && old(st).has_conn(c) ==> final(st).has_conn(c) && msgs_view(
                    final(st).spec_conn(c).queue@,
                ) == bounded_push(msgs_view(old(st).spec_conn(c).queue@), chat)
            }))
        }),
{
    match msg {
        ClientMessage::Connect { token: _ } => {},
        ClientMessage::CreateLobby { config } => {
            let (res, msgs) = create_lobby(st, player_id, config, now);
            route_all(st, &msgs);
            match res {
                Ok(_) => {},
                Err(e) => route_error(st, player_id, e),
            }
        },
        ClientMessage::JoinLobby { lobby_id, as_spectator } => {
            let (res, msgs) = join_lobby(st, player_id, lobby_id, as_spectator);
            proof {
                if old(st).has_player(player_id) && old(st).has_lobby(lobby_id) && old(st).spec_player(player_id).status == PlayerStatus::Online {
                    let li = old(st).lobby_index(lobby_id);
                    assert(0 <= li < old(st).lobbies@.len() && old(st).lobbies@[li].id
                        == lobby_id);
                    if !as_spectator && old(st).spec_lobby(lobby_id).players@.len() < old(st).spec_lobby(lobby_id).config.max_players as int && !old(st).spec_lobby(
                        lobby_id,
                    ).players@.contains(player_id) {
                        lemma_lobby_index_agrees(*st, lobby_id, li);
                    }
                    if as_spectator {
                        let ko = old(st).player_index(player_id);
                        assert(0 <= ko < old(st).players@.len() && old(st).players@[ko].id
                            == player_id);
                        lemma_player_index_agrees(*st, player_id, ko);
                    }
                }
            }
            route_all(st, &msgs);
            match res {
                Ok(_) => {},
                Err(e) => route_error(st, player_id, e),
            }
        },
        ClientMessage::LeaveLobby => {
            let found = find_player_index(&st.players, player_id);
            proof {
                match found {
                    Some(pi) => lemma_player_index_agrees(*st, player_id, pi as int),
                    None => {
                        if old(st).has_player(player_id) {
                            let k = old(st).player_index(player_id);
                            assert(0 <= k < st.players@.len() && st.players@[k].id == player_id);
                        }
                    },
                }
            }
            let placement = match found {
                Some(pi) => st.players[pi].status,
                None => PlayerStatus::Offline,
            };
            match placement {
                PlayerStatus::InLobby(lobby_id) => {
                    let (res, msgs) = leave_lobby(st, player_id, lobby_id);
                    proof {
                        if old(st).has_lobby(lobby_id) && old(st).spec_lobby(
                            lobby_id,
                        ).players@.contains(player_id) {
                            let ko = old(st).player_index(player_id);
                            assert(0 <= ko < old(st).players@.len() && old(st).players@[ko].id
                                == player_id);
                            lemma_player_index_agrees(*st, player_id, ko);
                        }
                    }
                    route_all(st, &msgs);
                    match res {
                        Ok(_) => {},
                        Err(e) => route_error(st, player_id, e),
                    }
                },
                PlayerStatus::InGame(game_id) => {
                    let (res, msgs) = leave_game_spectators(st, game_id, player_id);
                    proof {
                        if old(st).has_game(game_id) && old(st).spec_game(
                            game_id,
                        ).spectators@.contains(player_id) {
                            let ko = old(st).player_index(player_id);
                            assert(0 <= ko < old(st).players@.len() && old(st).players@[ko].id
                                == player_id);
                            lemma_player_index_agrees(*st, player_id, ko);
                        }
                    }
                    route_all(st, &msgs);
                    match res {
                        Ok(_) => {},
                        Err(e) => route_error(st, player_id, e),
                    }
                },
                _ => route_error(st, player_id, CoordError::NotFound),
            }
        },
        ClientMessage::StartGame => {
            let found = find_player_index(&st.players, player_id);
            proof {
                match found {
                    Some(pi) => lemma_player_index_agrees(*st, player_id, pi as int),
                    None => {
                        if old(st).has_player(player_id) {
                            let k = old(st).player_index(player_id);
                            assert(0 <= k < st.players@.len() && st.players@[k].id == player_id);
                        }
                    },
                }
            }
            let placement = match found {
                Some(pi) => st.players[pi].status,
                None => PlayerStatus::Offline,
            };
            match placement {
                PlayerStatus::InLobby(lobby_id) => {
                    let (res, msgs) = create_game_from_lobby(st, lobby_id);
                    proof {
                        if old(st).has_lobby(lobby_id) && old(st).spec_lobby(lobby_id).state
                            == LobbyState::Waiting && old(st).spec_lobby(
                            lobby_id,
                        ).players@.len() >= 2 {
                            let li = old(st).lobby_index(lobby_id);
                            assert(0 <= li < old(st).lobbies@.len() && old(st).lobbies@[li].id
                                == lobby_id);
                            lemma_lobby_index_agrees(*st, lobby_id, li);
                        }
                    }
                    route_all(st, &msgs);
                    match res {
                        Ok(_) => {},
                        Err(e) => route_error(st, player_id, e),
                    }
                },
                _ => route_error(st, player_id, CoordError::NotFound),
            }
        },
        ClientMessage::MakeMove { from, to, promotion } => {
            let found = find_player_index(&st.players, player_id);
            proof {
                match found {
                    Some(pi) => lemma_player_index_agrees(*st, player_id, pi as int),
                    None => {
                        if old(st).has_player(player_id) {
                            let k = old(st).player_index(player_id);
                            assert(0 <= k < st.players@.len() && st.players@[k].id == player_id);
                        }
                    },
                }
            }
            let placement = match found {
                Some(pi) => st.players[pi].status,
                None => PlayerStatus::Offline,
            };
            match placement {
                PlayerStatus::InGame(game_id) => {
                    let (res, msgs) = make_move(st, game_id, player_id, from, to, promotion);
                    proof {
                        if res is Ok {
                            let gi = old(st).game_index(game_id);
                            assert(st.games@[gi].id == game_id);
                            lemma_game_index_agrees(*st, game_id, gi);
                        }
                    }
                    route_all(st, &msgs);
                    match res {
                        Ok(_) => {},
                        Err(e) => route_error(st, player_id, e),
                    }
                },
                _ => route_error(st, player_id, CoordError::NotFound),
            }
        },
        ClientMessage::OfferDraw => {},
        ClientMessage::AcceptDraw => {},
        ClientMessage::DeclineDraw => {},
        ClientMessage::Resign => {
            let found = find_player_index(&st.players, player_id);
            proof {
                match found {
                    Some(pi) => {
                        assert((pi as int) < st.players@.len() && st.players@[pi as int].id
                            == player_id);
                        assert(old(st).player_index(player_id) == pi as int);
                    },
                    None => {
                        if old(st).has_player(player_id) {
                            let k = old(st).player_index(player_id);
                            assert(0 <= k < st.players@.len() && st.players@[k].id == player_id);
                        }
                    },
                }
            }
            let placement = match found {
                Some(pi) => st.players[pi].status,
                None => PlayerStatus::Offline,
            };
            match placement {
                PlayerStatus::InGame(game_id) => {
                    let (res, msgs) = resign(st, game_id, player_id);
                    proof {
                        if res is Ok {
                            let gi = old(st).game_index(game_id);
                            assert(st.games@[gi].id == game_id);
                            assert(st.has_game(game_id));
                            assert(st.game_index(game_id) == gi) by {
                                let k = st.game_index(game_id);
                                assert(0 <= k < st.games@.len() && st.games@[k].id == game_id);
                            }
                            assert(crate::game::is_terminal(st.spec_game(game_id).state));
                        }
                    }
                    route_all(st, &msgs);
                    match res {
                        Ok(_) => {},
                        Err(e) => route_error(st, player_id, e),
                    }
                },
                _ => route_error(st, player_id, CoordError::NotFound),
            }
        },
        ClientMessage::SendChatMessage { text } => {
            let found = find_player_index(&st.players, player_id);
            proof {
                match found {
                    Some(pi) => lemma_player_index_agrees(*st, player_id, pi as int),
                    None => {
                        if old(st).has_player(player_id) {
                            let k = old(st).player_index(player_id);
                            assert(0 <= k < st.players@.len() && st.players@[k].id == player_id);
                        }
                    },
                }
            }
            let (placement, username) = match found {
                Some(pi) => (st.players[pi].status, st.players[pi].username.clone()),
                None => (PlayerStatus::Offline, String::new()),
            };
            let target = match placement {
                PlayerStatus::InLobby(lobby_id) => Some(BroadcastTarget::Lobby(lobby_id)),
                PlayerStatus::InGame(game_id) => Some(BroadcastTarget::Game(game_id)),
                _ => None,
            };
            match target {
                Some(target) => {
                    let bm = BroadcastMessage {
                        target,
                        message: ServerMessage::ChatMessage {
                            player_id,
                            username,
                            text,
                            timestamp: now,
                        },
                    };
                    route(st, &bm);
                    proof {
                        let pl = old(st).spec_player(player_id);
                        if pl.connection_id is Some {
                            let c = pl.connection_id->0;
                            if old(st).has_conn(c) {
                                let ci = old(st).conn_index(c);
                                assert(0 <= ci < old(st).connections@.len() && old(
                                    st,
                                ).connections@[ci].id == c);
                                let ko = old(st).player_index(player_id);
                                assert(0 <= ko < old(st).players@.len() && old(st).players@[ko]
                                    == pl);
                                if pl.status is InLobby && old(st).has_lobby(pl.status->InLobby_0)
                                    && old(st).spec_lobby(pl.status->InLobby_0).players@.contains(
                                    player_id,
                                ) {
                                    assert(entitled(*old(st), target, c));
                                    lemma_conn_index_agrees(*st, c, ci);
                                }
                                if pl.status is InGame && old(st).has_game(pl.status->InGame_0) && (
                                old(st).spec_game(pl.status->InGame_0).is_seat(player_id) || old(
                                    st,
                                ).spec_game(pl.status->InGame_0).spectators@.contains(player_id)) {
                                    assert(entitled(*old(st), target, c));
                                    lemma_conn_index_agrees(*st, c, ci);
                                }
                            }
                        }
                    }
                },
                None => {},
            }
        },
        ClientMessage::Ping => {
            let bm = BroadcastMessage {
                target: BroadcastTarget::Player(player_id),
                message: ServerMessage::Pong,
            };
            route(st, &bm);
            proof {
                if old(st).has_player(player_id) && old(st).spec_player(
                    player_id,
                ).connection_id is Some {
                    let c = old(st).spec_player(player_id).connection_id->0;
                    if old(st).has_conn(c) {
                        let ci = old(st).conn_index(c);
                        assert(0 <= ci < old(st).connections@.len() && old(st).connections@[ci].id
                            == c);
                        assert(entitled(*old(st), BroadcastTarget::Player(player_id), c)) by {
                            let ko = old(st).player_index(player_id);
                            assert(0 <= ko < old(st).players@.len() && old(st).players@[ko].id
                                == player_id && old(st).players@[ko].connection_id == Some(c));
                        }
                        lemma_conn_index_agrees(*st, c, ci);
                    }
                }
            }
        },
    }
}

} // verus!
