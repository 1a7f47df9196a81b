//! Real-time multiplayer chess session coordinator.
//!
//! The library organizes connected participants into lobbies, promotes a
//! filled lobby into a live two-player game with spectators, validates and
//! applies moves, and resolves each outbound notification to exactly the set
//! of connections entitled to see it.  All state is in memory and owned by a
//! single [`state::WsState`] value; the surrounding process performs the
//! socket I/O and hands plain values in and out.
//!
//! Layout: [`state`] holds the shared tables, their well-formedness
//! invariant and the connection registry; [`player`], [`lobby`] and
//! [`game`] hold the records and the manager operations on them;
//! [`multiplayer`] is the wire vocabulary; [`router`] resolves broadcast
//! targets to entitled connections; [`dispatch`] admits participants and
//! dispatches inbound messages; [`engine`] is the trusted boundary to the
//! chess rules; [`laws`] states the global guarantees as proof functions.

pub mod chess_engine;
pub mod coaching;
pub mod config;
pub mod dispatch;
pub mod engine;
pub mod errors;
pub mod game;
pub mod laws;
pub mod lobby;
pub mod multiplayer;
pub mod player;
pub mod puzzles;
pub mod router;
pub mod state;
pub mod util;
