//! The shared mutable state region of the coordinator.
//!
//! One [`WsState`] value owns the participant directory, the lobby and game
//! tables, and the connection registry with its per-connection outbound
//! queues.  Every request handler mutates it through `&mut`; the surrounding
//! process serializes access and drains the queues to the sockets.

use vstd::prelude::*;
use crate::game::Game;
use crate::lobby::Lobby;
use crate::multiplayer::{ServerMessage, ServerMessageV};
use crate::player::{Player, PlayerStatus};

verus! {

/// Bound on each connection's outbound queue; on overflow the oldest queued
/// message is dropped, never the connection.
pub const MAX_QUEUE: usize = 64;

/// One live connection: its identifier and the outbound queue that the
/// process drains to the socket.
#[derive(Debug)]
pub struct Connection {
    pub id: u64,
    pub queue: Vec<ServerMessage>,
}

/// The models of the messages in a queue, in delivery order.
pub open spec fn msgs_view(s: Seq<ServerMessage>) -> Seq<ServerMessageV> {
    s.map_values(|m: ServerMessage| m@)
}

/// A queue after a bounded append: the oldest entry is dropped once the
/// queue is full.
pub open spec fn bounded_push(q: Seq<ServerMessageV>, m: ServerMessageV) -> Seq<ServerMessageV> {
    if q.len() < MAX_QUEUE as int {
        q.push(m)
    } else {
        q.drop_first().push(m)
    }
}

/// The whole shared state.
pub struct WsState {
    pub players: Vec<Player>,
    pub lobbies: Vec<Lobby>,
    pub games: Vec<Game>,
    pub connections: Vec<Connection>,
    pub next_id: u64,
}

/// Whether the directory sequence holds a participant with this id.
pub open spec fn seq_has_player(players: Seq<Player>, id: u64) -> bool {
    exists|i: int| 0 <= i < players.len() && players[i].id == id
}

/// The position of the participant with this id.
pub open spec fn seq_player_index(players: Seq<Player>, id: u64) -> int {
    choose|i: int| 0 <= i < players.len() && players[i].id == id
}

/// The participant record with this id.
pub open spec fn seq_player(players: Seq<Player>, id: u64) -> Player {
    players[seq_player_index(players, id)]
}

/// The directory after one participant's placement is set: the record
/// keyed by `pid` gets `status`, everything else is untouched.
pub open spec fn with_placement(pre: Seq<Player>, pid: u64, status: PlayerStatus) -> Seq<Player> {
    pre.map_values(
        |p: Player|
            if p.id == pid {
                Player {
                    id: p.id,
                    username: p.username,
                    rating: p.rating,
                    status: status,
                    connection_id: p.connection_id,
                }
            } else {
                p
            },
    )
}

/// Whether `post` is `pre` with the placement of `pid` set to `status`.
pub open spec fn placed(pre: Seq<Player>, post: Seq<Player>, pid: u64, status: PlayerStatus) -> bool {
    post == with_placement(pre, pid, status)
}

/// Sets the placement of `pid`; the single mutation path for placement.
pub fn set_placement(players: &mut Vec<Player>, pid: u64, status: PlayerStatus)
    ensures
        placed(old(players)@, final(players)@, pid, status),
{
    let n = players.len();
    for i in 0..n
        invariant
            n == players@.len() == old(players)@.len(),
            forall|j: int| i <= j < n ==> players@[j] == old(players)@[j],
            forall|j: int|
                0 <= j < i ==> players@[j] == with_placement(old(players)@, pid, status)[j],
    {
        if players[i].id == pid {
            let p = &mut players[i];
            p.status = status;
        }
    }
    assert(players@ =~= with_placement(old(players)@, pid, status));
}

/// The directory after one participant's connection link is set.
pub open spec fn with_connection(pre: Seq<Player>, pid: u64, conn: Option<u64>) -> Seq<Player> {
    pre.map_values(
        |p: Player|
            if p.id == pid {
                Player {
                    id: p.id,
                    username: p.username,
                    rating: p.rating,
                    status: p.status,
                    connection_id: conn,
                }
            } else {
                p
            },
    )
}

/// Sets the connection link of `pid`.
pub fn set_connection(players: &mut Vec<Player>, pid: u64, conn: Option<u64>)
    ensures
        final(players)@ == with_connection(old(players)@, pid, conn),
{
    let n = players.len();
    for i in 0..n
        invariant
            n == players@.len() == old(players)@.len(),
            forall|j: int| i <= j < n ==> players@[j] == old(players)@[j],
            forall|j: int|
                0 <= j < i ==> players@[j] == with_connection(old(players)@, pid, conn)[j],
    {
        if players[i].id == pid {
            let p = &mut players[i];
            p.connection_id = conn;
        }
    }
    assert(players@ =~= with_connection(old(players)@, pid, conn));
}

impl WsState {
    // ------------------------------------------------------------------
    // Directory and table lookups, as mathematical predicates.
    // ------------------------------------------------------------------

    pub open spec fn has_player(self, id: u64) -> bool {
        seq_has_player(self.players@, id)
    }

    pub open spec fn player_index(self, id: u64) -> int {
        seq_player_index(self.players@, id)
    }

    pub open spec fn spec_player(self, id: u64) -> Player {
        seq_player(self.players@, id)
    }

    pub open spec fn has_lobby(self, id: u64) -> bool {
        exists|i: int| 0 <= i < self.lobbies@.len() && self.lobbies@[i].id == id
    }

    pub open spec fn lobby_index(self, id: u64) -> int {
        choose|i: int| 0 <= i < self.lobbies@.len() && self.lobbies@[i].id == id
    }

    pub open spec fn spec_lobby(self, id: u64) -> Lobby {
        self.lobbies@[self.lobby_index(id)]
    }

    pub open spec fn has_game(self, id: u64) -> bool {
        exists|i: int| 0 <= i < self.games@.len() && self.games@[i].id == id
    }

    pub open spec fn game_index(self, id: u64) -> int {
        choose|i: int| 0 <= i < self.games@.len() && self.games@[i].id == id
    }

    pub open spec fn spec_game(self, id: u64) -> Game {
        self.games@[self.game_index(id)]
    }

    pub open spec fn has_conn(self, id: u64) -> bool {
        exists|i: int| 0 <= i < self.connections@.len() && self.connections@[i].id == id
    }

    pub open spec fn conn_index(self, id: u64) -> int {
        choose|i: int| 0 <= i < self.connections@.len() && self.connections@[i].id == id
    }

    pub open spec fn spec_conn(self, id: u64) -> Connection {
        self.connections@[self.conn_index(id)]
    }

    // ------------------------------------------------------------------
    // Well-formedness.
    // ------------------------------------------------------------------

    /// Every table keys its records by a unique identifier.
    pub open spec fn unique_ids(self) -> bool {
        &&& forall|i: int, j: int|
            0 <= i < j < self.players@.len() ==> self.players@[i].id != self.players@[j].id
        &&& forall|i: int, j: int|
            0 <= i < j < self.lobbies@.len() ==> self.lobbies@[i].id != self.lobbies@[j].id
        &&& forall|i: int, j: int|
            0 <= i < j < self.games@.len() ==> self.games@[i].id != self.games@[j].id
        &&& forall|i: int, j: int|
            0 <= i < j < self.connections@.len() ==> self.connections@[i].id
                != self.connections@[j].id
    }

    /// A live connection delivers to at most one participant.
    pub open spec fn unique_conn_links(self) -> bool {
        forall|i: int, j: int|
            0 <= i < j < self.players@.len() ==> !(self.players@[i].connection_id is Some
                && self.players@[i].connection_id == self.players@[j].connection_id)
    }

    /// Every identifier in use was allocated below `next_id`.
    pub open spec fn ids_fresh(self) -> bool {
        &&& forall|i: int| 0 <= i < self.players@.len() ==> self.players@[i].id < self.next_id
        &&& forall|i: int| 0 <= i < self.lobbies@.len() ==> self.lobbies@[i].id < self.next_id
        &&& forall|i: int| 0 <= i < self.games@.len() ==> self.games@[i].id < self.next_id
        &&& forall|i: int|
            0 <= i < self.connections@.len() ==> self.connections@[i].id < self.next_id
    }

    /// Outbound queues never exceed their bound.
    pub open spec fn queues_bounded(self) -> bool {
        forall|i: int|
            0 <= i < self.connections@.len() ==> self.connections@[i].queue@.len()
                <= MAX_QUEUE as int
    }

    /// The global invariant every operation preserves.
    pub open spec fn wf(self) -> bool {
        &&& self.unique_ids()
        &&& self.unique_conn_links()
        &&& self.ids_fresh()
        &&& self.queues_bounded()
        &&& forall|i: int| 0 <= i < self.lobbies@.len() ==> self.lobbies@[i].wf()
        &&& forall|i: int| 0 <= i < self.games@.len() ==> self.games@[i].wf()
    }

    /// An empty coordinator with no participants, rooms or connections.
    pub fn new() -> (st: WsState)
        ensures
            st.wf(),
            st.players@.len() == 0,
            st.lobbies@.len() == 0,
            st.games@.len() == 0,
            st.connections@.len() == 0,
            st.next_id == 1,
    {
        WsState {
            players: Vec::new(),
            lobbies: Vec::new(),
            games: Vec::new(),
            connections: Vec::new(),
            next_id: 1,
        }
    }

    // ------------------------------------------------------------------
    // Identifier allocation.
    // ------------------------------------------------------------------

    /// Hands out a fresh identifier, never seen in any table.
    pub fn alloc_id(&mut self) -> (r: u64)
        requires
            old(self).wf(),
            old(self).next_id < u64::MAX,
        ensures
            final(self).wf(),
            r == old(self).next_id,
            final(self).next_id == old(self).next_id + 1,
            final(self).players == old(self).players,
            final(self).lobbies == old(self).lobbies,
            final(self).games == old(self).games,
            final(self).connections == old(self).connections,
    {
        let r = self.next_id;
        self.next_id = self.next_id + 1;
        r
    }

    // ------------------------------------------------------------------
    // Connection registry.
    // ------------------------------------------------------------------

    /// Registers a new connection and returns its identifier.
    pub fn register(&mut self) -> (r: u64)
        requires
            old(self).wf(),
            old(self).next_id < u64::MAX,
        ensures
            final(self).wf(),
            r == old(self).next_id,
            final(self).next_id == old(self).next_id + 1,
            final(self).players == old(self).players,
            final(self).lobbies == old(self).lobbies,
            final(self).games == old(self).games,
            final(self).connections@.len() == old(self).connections@.len() + 1,
            forall|i: int|
                0 <= i < old(self).connections@.len() ==> final(self).connections@[i] == old(self).connections@[i],
            final(self).connections@.last().id == r,
            final(self).connections@.last().queue@.len() == 0,
    {
        let r = self.alloc_id();
        self.connections.push(Connection { id: r, queue: Vec::new() });
        r
    }

    /// Drops a connection from the registry; a no-op if it is unknown.
    pub fn unregister(&mut self, conn_id: u64)
        requires
            old(self).wf(),
        ensures
            final(self).wf(),
            final(self).players == old(self).players,
            final(self).lobbies == old(self).lobbies,
            final(self).games == old(self).games,
            final(self).next_id == old(self).next_id,
            !old(self).has_conn(conn_id) ==> final(self).connections == old(self).connections,
            old(self).has_conn(conn_id) ==> final(self).connections@ == old(self).connections@.remove(old(self).conn_index(conn_id)),
            !final(self).has_conn(conn_id),
    {
        match find_conn_index(&self.connections, conn_id) {
            Some(i) => {
                self.connections.remove(i);
                proof {
                    let oi = old(self).conn_index(conn_id);
                    assert(0 <= oi < old(self).connections@.len() && old(self).connections@[oi].id == conn_id);
                    assert(oi == i as int);
                    assert forall|k: int|
                        0 <= k < self.connections@.len() implies self.connections@[k].id
                        != conn_id by {
                        if k < i as int {
                        } else {
                            assert(self.connections@[k] == old(self).connections@[k + 1]);
                        }
                    }
                }
            },
            None => {
                proof {
                    if self.has_conn(conn_id) {
                        let k = self.conn_index(conn_id);
                        assert(0 <= k < self.connections@.len() && self.connections@[k].id
                            == conn_id);
                    }
                }
            },
        }
    }

    /// Appends `msg` to the queue of `conn_id`, dropping the oldest entry if
    /// the queue is full.  Returns false, changing nothing, when the
    /// connection is unknown or closed; callers must not treat that as
    /// fatal.
    pub fn send(&mut self, conn_id: u64, msg: ServerMessage) -> (delivered: bool)
        requires
            old(self).wf(),
        ensures
            final(self).wf(),
            final(self).players == old(self).players,
            final(self).lobbies == old(self).lobbies,
            final(self).games == old(self).games,
            final(self).next_id == old(self).next_id,
            delivered == old(self).has_conn(conn_id),
            !delivered ==> final(self).connections == old(self).connections,
            delivered ==> {
                &&& final(self).connections@.len() == old(self).connections@.len()
                &&& forall|j: int|
                    0 <= j < old(self).connections@.len() && j != old(self).conn_index(conn_id)
                        ==> final(self).connections@[j] == old(self).connections@[j]
                &&& final(self).connections@[old(self).conn_index(conn_id)].id == conn_id
                &&& msgs_view(final(self).connections@[old(self).conn_index(conn_id)].queue@)
                    == bounded_push(
                    msgs_view(old(self).connections@[old(self).conn_index(conn_id)].queue@),
                    msg@,
                )
            },
    {
        match find_conn_index(&self.connections, conn_id) {
            Some(i) => {
                proof {
                    let oi = old(self).conn_index(conn_id);
                    assert(0 <= oi < old(self).connections@.len() && old(self).connections@[oi].id == conn_id);
                    assert(oi == i as int);
                }
                let ghost oldq = self.connections@[i as int].queue@;
                let c = &mut self.connections[i];
                if c.queue.len() >= MAX_QUEUE {
                    c.queue.remove(0);
                }
                c.queue.push(msg);
                proof {
                    assert(msgs_view(self.connections@[i as int].queue@) =~= bounded_push(
                        msgs_view(oldq),
                        msg@,
                    ));
                }
                true
            },
            None => {
                proof {
                    if old(self).has_conn(conn_id) {
                        let k = old(self).conn_index(conn_id);
                        assert(0 <= k < old(self).connections@.len() && old(self).connections@[k].id == conn_id);
                    }
                }
                false
            },
        }
    }

    /// Hands the queued messages of `conn_id` to the caller, leaving the
    /// queue empty.  Returns an empty list for an unknown connection.
    pub fn take_outbox(&mut self, conn_id: u64) -> (r: Vec<ServerMessage>)
        requires
            old(self).wf(),
        ensures
            final(self).wf(),
            final(self).players == old(self).players,
            final(self).lobbies == old(self).lobbies,
            final(self).games == old(self).games,
            final(self).next_id == old(self).next_id,
            !old(self).has_conn(conn_id) ==> r@.len() == 0 && final(self).connections == old(self).connections,
            old(self).has_conn(conn_id) ==> {
                &&& r == old(self).connections@[old(self).conn_index(conn_id)].queue
                &&& final(self).connections@.len() == old(self).connections@.len()
                &&& forall|j: int|
                    0 <= j < old(self).connections@.len() && j != old(self).conn_index(conn_id)
                        ==> final(self).connections@[j] == old(self).connections@[j]
                &&& final(self).connections@[old(self).conn_index(conn_id)].id == conn_id
                &&& final(self).connections@[old(self).conn_index(conn_id)].queue@.len() == 0
            },
    {
        match find_conn_index(&self.connections, conn_id) {
            Some(i) => {
                proof {
                    let oi = old(self).conn_index(conn_id);
                    assert(0 <= oi < old(self).connections@.len() && old(self).connections@[oi].id == conn_id);
                    assert(oi == i as int);
                }
                let c = &mut self.connections[i];
                let mut out: Vec<ServerMessage> = Vec::new();
                core::mem::swap(&mut c.queue, &mut out);
                out
            },
            None => {
                proof {
                    if old(self).has_conn(conn_id) {
                        let k = old(self).conn_index(conn_id);
                        assert(0 <= k < old(self).connections@.len() && old(self).connections@[k].id == conn_id);
                    }
                }
                Vec::new()
            },
        }
    }
}

// ----------------------------------------------------------------------
// Table lookups.
// ----------------------------------------------------------------------

/// Finds the position of the player record keyed by `id`.
pub fn find_player_index(players: &Vec<Player>, id: u64) -> (r: Option<usize>)
    ensures
        r matches Some(i) ==> i < players@.len() && players@[i as int].id == id,
        r is None ==> forall|k: int| 0 <= k < players@.len() ==> players@[k].id != id,
{
    let n = players.len();
    for i in 0..n
        invariant
            n == players@.len(),
            forall|k: int| 0 <= k < i ==> players@[k].id != id,
    {
        if players[i].id == id {
            return Some(i);
        }
    }
    None
}

/// Finds the position of the lobby record keyed by `id`.
pub fn find_lobby_index(lobbies: &Vec<Lobby>, id: u64) -> (r: Option<usize>)
    ensures
        r matches Some(i) ==> i < lobbies@.len() && lobbies@[i as int].id == id,
        r is None ==> forall|k: int| 0 <= k < lobbies@.len() ==> lobbies@[k].id != id,
{
    let n = lobbies.len();
    for i in 0..n
        invariant
            n == lobbies@.len(),
            forall|k: int| 0 <= k < i ==> lobbies@[k].id != id,
    {
        if lobbies[i].id == id {
            return Some(i);
        }
    }
    None
}

/// Finds the position of the game record keyed by `id`.
pub fn find_game_index(games: &Vec<Game>, id: u64) -> (r: Option<usize>)
    ensures
        r matches Some(i) ==> i < games@.len() && games@[i as int].id == id,
        r is None ==> forall|k: int| 0 <= k < games@.len() ==> games@[k].id != id,
{
    let n = games.len();
    for i in 0..n
        invariant
            n == games@.len(),
            forall|k: int| 0 <= k < i ==> games@[k].id != id,
    {
        if games[i].id == id {
            return Some(i);
        }
    }
    None
}

/// Finds the position of the connection record keyed by `id`.
pub fn find_conn_index(connections: &Vec<Connection>, id: u64) -> (r: Option<usize>)
    ensures
        r matches Some(i) ==> i < connections@.len() && connections@[i as int].id == id,
        r is None ==> forall|k: int| 0 <= k < connections@.len() ==> connections@[k].id != id,
{
    let n = connections.len();
    for i in 0..n
        invariant
            n == connections@.len(),
            forall|k: int| 0 <= k < i ==> connections@[k].id != id,
    {
        if connections[i].id == id {
            return Some(i);
        }
    }
    None
}

} // verus!
