//! Global guarantees of the coordinator, stated as proof functions over
//! the state model.  Each follows from the well-formedness invariant that
//! every operation of the library requires and re-establishes.

use vstd::prelude::*;
use crate::game::{is_terminal, Game, GameState};
use crate::state::WsState;

verus! {

/// However many joins a lobby has seen, at most its configured maximum of
/// occupants is ever recorded: every operation preserves well-formedness,
/// and a well-formed state bounds every lobby's occupant list by its
/// configuration.
pub proof fn lemma_occupancy_bounded(st: WsState)
    requires
        st.wf(),
    ensures
        forall|i: int|
            0 <= i < st.lobbies@.len() ==> st.lobbies@[i].players@.len() <= st.lobbies@[
                i
            ].config.max_players as int,
{
}

/// Accepted moves alternate seats starting with white: in a well-formed
/// game the seat on turn is determined by the parity of the applied move
/// list — white after an even number of moves, black after an odd number —
/// and a successful `make_move` appends exactly one move and flips the
/// turn.
pub proof fn lemma_moves_alternate(g: Game)
    requires
        g.wf(),
    ensures
        g.moves@.len() % 2 == 0 ==> g.seat_to_move() == g.white_player,
        g.moves@.len() % 2 == 1 ==> g.seat_to_move() == g.black_player,
{
}

/// At any one state of a game exactly one of the two seats owns the turn,
/// so two move attempts at the same logical turn, once serialized by the
/// per-game critical section, resolve into exactly one success: the other
/// seat fails `make_move`'s turn check and is rejected with `WrongTurn`
/// (or `GameOver` if the first move ended the game).
pub proof fn lemma_turn_exclusive(g: Game)
    requires
        g.wf(),
    ensures
        g.is_seat(g.seat_to_move()),
        g.seat_to_move() == g.white_player <==> g.seat_to_move() != g.black_player,
{
}

/// The seat that just moved cannot move again at the next turn: a
/// successful move flips the side to move, so the mover no longer owns the
/// turn in the successor state.
pub proof fn lemma_no_consecutive_moves(before: Game, after: Game, mover: u64)
    requires
        before.wf(),
        after.wf(),
        mover == before.seat_to_move(),
        after.white_player == before.white_player,
        after.black_player == before.black_player,
        after.white_to_move == !before.white_to_move,
    ensures
        mover != after.seat_to_move(),
{
}

} // verus!
