//! The broadcast router: logical targets, and their resolution to the
//! concrete set of connections entitled to a message.

use vstd::prelude::*;
use crate::multiplayer::{ServerMessage, ServerMessageV};
use crate::player::PlayerStatus;
use crate::state::{
    bounded_push,
    find_game_index,
    find_lobby_index,
    msgs_view,
    WsState,
    MAX_QUEUE,
};
use crate::util::contains_id;

verus! {

/// The logical addressing scope of an outbound message.
#[derive(Debug, Clone, Copy, PartialEq, Eq, Structural)]
pub enum BroadcastTarget {
    All,
    Player(u64),
    Lobby(u64),
    Game(u64),
}

/// A message together with the scope it is addressed to.
#[derive(Debug)]
pub struct BroadcastMessage {
    pub target: BroadcastTarget,
    pub message: ServerMessage,
}

/// Mathematical model of a [`BroadcastMessage`].
pub struct BroadcastMessageV {
    pub target: BroadcastTarget,
    pub message: ServerMessageV,
}

impl View for BroadcastMessage {
    type V = BroadcastMessageV;

    open spec fn view(&self) -> BroadcastMessageV {
        BroadcastMessageV { target: self.target, message: self.message@ }
    }
}

/// Whether connection `conn_id` is entitled to messages addressed to
/// `target`: everyone for `All`; the participant's own connection for
/// `Player`; for a room, the connections of participants that the room
/// still lists and whose directory placement still points at that room.
pub open spec fn entitled(st: WsState, target: BroadcastTarget, conn_id: u64) -> bool {
    match target {
        BroadcastTarget::All => true,
        BroadcastTarget::Player(pid) => exists|i: int|
            #![trigger st.players@[i]]
            0 <= i < st.players@.len() && st.players@[i].id == pid && st.players@[
                i
            ].connection_id == Some(conn_id),
        BroadcastTarget::Lobby(lid) => st.has_lobby(lid) && exists|i: int|
            #![trigger st.players@[i]]
            0 <= i < st.players@.len() && st.players@[i].connection_id == Some(conn_id)
                && st.players@[i].status == PlayerStatus::InLobby(lid) && st.spec_lobby(
                lid,
            ).players@.contains(st.players@[i].id),
        BroadcastTarget::Game(gid) => st.has_game(gid) && exists|i: int|
            #![trigger st.players@[i]]
            0 <= i < st.players@.len() && st.players@[i].connection_id == Some(conn_id)
                && st.players@[i].status == PlayerStatus::InGame(gid) && (st.spec_game(
                gid,
            ).is_seat(st.players@[i].id) || st.spec_game(gid).spectators@.contains(
                st.players@[i].id,
            )),
    }
}

/// Decides entitlement for one connection, consulting the directory and the
/// room records exactly as [`entitled`] states.
pub fn entitled_exec(st: &WsState, target: &BroadcastTarget, conn_id: u64) -> (r: bool)
    requires
        st.wf(),
    ensures
        r == entitled(*st, *target, conn_id),
{
    match target {
        BroadcastTarget::All => true,
        BroadcastTarget::Player(pid) => {
            let n = st.players.len();
            for i in 0..n
                invariant
                    *target == BroadcastTarget::Player(*pid),
                    n == st.players@.len(),
                    forall|k: int|
                        0 <= k < i ==> !(st.players@[k].id == *pid && st.players@[
                            k
                        ].connection_id == Some(conn_id)),
            {
                let linked = match st.players[i].connection_id {
                    Some(c) => c == conn_id,
                    None => false,
                };
                if st.players[i].id == *pid && linked {
                    proof {
                        assert((i as int) < st.players@.len() && st.players@[i as int].id == *pid
                            && st.players@[i as int].connection_id == Some(conn_id));
                    }
                    return true;
                }
            }
            false
        },
        BroadcastTarget::Lobby(lid) => {
            let li = match find_lobby_index(&st.lobbies, *lid) {
                Some(li) => li,
                None => {
                    proof {
                        if st.has_lobby(*lid) {
                            let k = st.lobby_index(*lid);
                            assert(0 <= k < st.lobbies@.len() && st.lobbies@[k].id == *lid);
                        }
                    }
                    return false;
                },
            };
            proof {
                assert((li as int) < st.lobbies@.len() && st.lobbies@[li as int].id == *lid);
                assert(st.lobby_index(*lid) == li as int);
            }
            let n = st.players.len();
            for i in 0..n
                invariant
                    *target == BroadcastTarget::Lobby(*lid),
                    n == st.players@.len(),
                    st.wf(),
                    li < st.lobbies@.len() && st.lobbies@[li as int].id == *lid,
                    st.lobby_index(*lid) == li as int,
                    forall|k: int|
                        0 <= k < i ==> !(st.players@[k].connection_id == Some(conn_id)
                            && st.players@[k].status == PlayerStatus::InLobby(*lid)
                            && st.spec_lobby(*lid).players@.contains(st.players@[k].id)),
            {
                let linked = match st.players[i].connection_id {
                    Some(c) => c == conn_id,
                    None => false,
                };
                let placed = match st.players[i].status {
                    PlayerStatus::InLobby(l) => l == *lid,
                    _ => false,
                };
                if linked && placed && contains_id(&st.lobbies[li].players, st.players[i].id) {
                    proof {
                        assert((i as int) < st.players@.len() && st.players@[
                            i as int
                        ].connection_id == Some(conn_id) && st.players@[i as int].status
                            == PlayerStatus::InLobby(*lid) && st.spec_lobby(
                            *lid,
                        ).players@.contains(st.players@[i as int].id));
                    }
                    return true;
                }
            }
            false
        },
        BroadcastTarget::Game(gid) => {
            let gi = match find_game_index(&st.games, *gid) {
                Some(gi) => gi,
                None => {
                    proof {
                        if st.has_game(*gid) {
                            let k = st.game_index(*gid);
                            assert(0 <= k < st.games@.len() && st.games@[k].id == *gid);
                        }
                    }
                    return false;
                },
            };
            proof {
                assert((gi as int) < st.games@.len() && st.games@[gi as int].id == *gid);
                assert(st.game_index(*gid) == gi as int);
            }
            let n = st.players.len();
            for i in 0..n
                invariant
                    *target == BroadcastTarget::Game(*gid),
                    n == st.players@.len(),
                    st.wf(),
                    gi < st.games@.len() && st.games@[gi as int].id == *gid,
                    st.game_index(*gid) == gi as int,
                    forall|k: int|
                        0 <= k < i ==> !(st.players@[k].connection_id == Some(conn_id)
                            && st.players@[k].status == PlayerStatus::InGame(*gid) && (st.spec_game(
                            *gid,
                        ).is_seat(st.players@[k].id) || st.spec_game(*gid).spectators@.contains(
                            st.players@[k].id,
                        ))),
            {
                let linked = match st.players[i].connection_id {
                    Some(c) => c == conn_id,
                    None => false,
                };
                let placed = match st.players[i].status {
                    PlayerStatus::InGame(g) => g == *gid,
                    _ => false,
                };
                let pid = st.players[i].id;
                if linked && placed && (pid == st.games[gi].white_player || pid
                    == st.games[gi].black_player || contains_id(&st.games[gi].spectators, pid)) {
                    proof {
                        assert((i as int) < st.players@.len() && st.players@[
                            i as int
                        ].connection_id == Some(conn_id) && st.players@[i as int].status
                            == PlayerStatus::InGame(*gid) && (st.spec_game(*gid).is_seat(
                            st.players@[i as int].id,
                        ) || st.spec_game(*gid).spectators@.contains(st.players@[i as int].id)));
                    }
                    return true;
                }
            }
            false
        },
    }
}

/// Delivers `bm.message` to the queue of every connection entitled to
/// `bm.target`, and to no other; each delivery is a bounded append.
pub fn route(st: &mut WsState, bm: &BroadcastMessage)
    requires
        old(st).wf(),
    ensures
        final(st).wf(),
        final(st).players == old(st).players,
        final(st).lobbies == old(st).lobbies,
        final(st).games == old(st).games,
        final(st).next_id == old(st).next_id,
        final(st).connections@.len() == old(st).connections@.len(),
        forall|i: int|
            0 <= i < old(st).connections@.len() && !entitled(
                *old(st),
                bm.target,
                old(st).connections@[i].id,
            ) ==> final(st).connections@[i] == old(st).connections@[i],
        forall|i: int|
            0 <= i < old(st).connections@.len() && entitled(
                *old(st),
                bm.target,
                old(st).connections@[i].id,
            ) ==> final(st).connections@[i].id == old(st).connections@[i].id && msgs_view(
                final(st).connections@[i].queue@,
            ) == bounded_push(msgs_view(old(st).connections@[i].queue@), bm.message@),
    {
        let n = st.connections.len();
        for i in 0..n
            invariant
                st.wf(),
                n == st.connections@.len(),
                st.players == old(st).players,
                st.lobbies == old(st).lobbies,
                st.games == old(st).games,
                st.next_id == old(st).next_id,
                st.connections@.len() == old(st).connections@.len(),
                forall|k: int|
                    i <= k < old(st).connections@.len() ==> st.connections@[k] == old(st).connections@[k],
                forall|k: int|
                    0 <= k < i && !entitled(*old(st), bm.target, old(st).connections@[k].id)
                        ==> st.connections@[k] == old(st).connections@[k],
                forall|k: int|
                    0 <= k < i && entitled(*old(st), bm.target, old(st).connections@[k].id)
                        ==> st.connections@[k].id == old(st).connections@[k].id && msgs_view(
                        st.connections@[k].queue@,
                    ) == bounded_push(msgs_view(old(st).connections@[k].queue@), bm.message@),
        {
            let cid = st.connections[i].id;
            let hit = entitled_exec(st, &bm.target, cid);
            if hit {
                let ghost oldq = st.connections@[i as int].queue@;
                let m = bm.message.clone();
                let c = &mut st.connections[i];
                if c.queue.len() >= MAX_QUEUE {
                    c.queue.remove(0);
                }
                c.queue.push(m);
                proof {
                    assert(msgs_view(st.connections@[i as int].queue@) =~= bounded_push(
                        msgs_view(oldq),
                        bm.message@,
                    ));
                }
            }
        }
    }

} // verus!
