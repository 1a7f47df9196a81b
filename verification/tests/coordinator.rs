//! End-to-end scenarios against the session coordinator: lobby lifecycle,
//! promotion into a game, move validation and fan-out of notifications.

use chess_app::dispatch::{connect, handle_disconnect, handle_message, reattach_connection};
use chess_app::errors::CoordError;
use chess_app::game::{make_move, resign, GameMessage, GameState};
use chess_app::lobby::{GameMode, LobbyConfig, LobbyMessage};
use chess_app::multiplayer::ClientMessage;
use chess_app::multiplayer::ServerMessage;
use chess_app::player::PlayerStatus;
use chess_app::router::route;
use chess_app::state::WsState;

const INITIAL_FEN: &str = "rnbqkbnr/pppppppp/8/8/8/8/PPPPPPPP/RNBQKBNR w KQkq - 0 1";

fn enter(st: &mut WsState, name: &str, rating: u32) -> (u64, u64) {
    let conn = st.register();
    let (pid, msgs) = connect(st, conn, name.to_string(), rating);
    for m in &msgs {
        route(st, m);
    }
    st.take_outbox(conn);
    (pid, conn)
}

fn config(name: &str, max_players: u8) -> LobbyConfig {
    LobbyConfig {
        name: name.to_string(),
        mode: GameMode::Custom,
        max_players,
        time_control: "5+0".to_string(),
        rated: false,
        voice_enabled: false,
    }
}

fn mv(from: &str, to: &str) -> ClientMessage {
    ClientMessage::MakeMove { from: from.to_string(), to: to.to_string(), promotion: None }
}

fn game_started_seats(out: &[ServerMessage]) -> Option<(u64, u64, String)> {
    for m in out {
        if let ServerMessage::GameMessage(GameMessage::GameStarted {
            white_player,
            black_player,
            fen,
            ..
        }) = m
        {
            return Some((white_player.id, black_player.id, fen.clone()));
        }
    }
    None
}

fn count_game_ended(out: &[ServerMessage]) -> usize {
    out.iter()
        .filter(|m| matches!(m, ServerMessage::GameMessage(GameMessage::GameOver { .. })))
        .count()
}

#[test]
fn lobby_fills_and_promotes_with_join_order_seats() {
    // CreateLobby(max 2) by A, JoinLobby by B: both receive GameStarted with
    // A seated white, B seated black, from the standard starting position.
    let mut st = WsState::new();
    let (a, ca) = enter(&mut st, "alice", 1500);
    let (b, cb) = enter(&mut st, "bob", 1400);
    handle_message(&mut st, a, ClientMessage::CreateLobby { config: config("main", 2) }, 7);
    let lobby_id = st.lobbies[0].id;
    st.take_outbox(ca);
    handle_message(
        &mut st,
        b,
        ClientMessage::JoinLobby { lobby_id, as_spectator: false },
        8,
    );
    let out_a = st.take_outbox(ca);
    let out_b = st.take_outbox(cb);
    let (w, blk, fen) = game_started_seats(&out_a).expect("white seat missed the game start");
    assert_eq!(w, a);
    assert_eq!(blk, b);
    assert_eq!(fen, INITIAL_FEN);
    let (w2, b2, fen2) = game_started_seats(&out_b).expect("black seat missed the game start");
    assert_eq!(w2, a);
    assert_eq!(b2, b);
    assert_eq!(fen2, INITIAL_FEN);
    assert_eq!(st.games.len(), 1);
    assert_eq!(st.games[0].white_player, a);
    assert_eq!(st.games[0].black_player, b);
}

#[test]
fn legal_move_reaches_seats_and_spectator_with_flags() {
    let mut st = WsState::new();
    let (a, ca) = enter(&mut st, "alice", 1500);
    let (b, cb) = enter(&mut st, "bob", 1400);
    let (s, cs) = enter(&mut st, "sally", 1000);
    handle_message(&mut st, a, ClientMessage::CreateLobby { config: config("main", 2) }, 7);
    let lobby_id = st.lobbies[0].id;
    handle_message(&mut st, b, ClientMessage::JoinLobby { lobby_id, as_spectator: false }, 8);
    handle_message(&mut st, s, ClientMessage::JoinLobby { lobby_id, as_spectator: true }, 9);
    st.take_outbox(ca);
    st.take_outbox(cb);
    st.take_outbox(cs);

    handle_message(&mut st, a, mv("e2", "e4"), 10);
    for (conn, who) in [(ca, "white"), (cb, "black"), (cs, "spectator")] {
        let out = st.take_outbox(conn);
        let got = out.iter().find_map(|m| {
            if let ServerMessage::GameMessage(GameMessage::MoveMade {
                from,
                to,
                fen,
                is_check,
                ..
            }) = m
            {
                Some((from.clone(), to.clone(), fen.clone(), *is_check))
            } else {
                None
            }
        });
        let (from, to, fen, is_check) =
            got.unwrap_or_else(|| panic!("{} did not receive the move", who));
        assert_eq!(from, "e2");
        assert_eq!(to, "e4");
        assert_eq!(fen, "rnbqkbnr/pppppppp/8/8/4P3/8/PPPP1PPP/RNBQKBNR b KQkq - 0 1");
        assert!(!is_check);
    }
}

#[test]
fn illegal_move_rejected_to_mover_only() {
    // A pawn cannot advance three squares: the mover alone hears about it,
    // with destination hints, and nothing is broadcast.
    let mut st = WsState::new();
    let (a, ca) = enter(&mut st, "alice", 1500);
    let (b, cb) = enter(&mut st, "bob", 1400);
    handle_message(&mut st, a, ClientMessage::CreateLobby { config: config("main", 2) }, 7);
    let lobby_id = st.lobbies[0].id;
    handle_message(&mut st, b, ClientMessage::JoinLobby { lobby_id, as_spectator: false }, 8);
    st.take_outbox(ca);
    st.take_outbox(cb);

    handle_message(&mut st, a, mv("e2", "e5"), 10);
    let out_a = st.take_outbox(ca);
    let rejection = out_a.iter().find_map(|m| {
        if let ServerMessage::GameMessage(GameMessage::InvalidMove { hints, .. }) = m {
            Some(hints.clone())
        } else {
            None
        }
    });
    let hints = rejection.expect("mover did not receive the rejection");
    // the pawn on e2 has exactly two legal destinations in the start position
    assert_eq!(hints.len(), 2);
    assert!(hints.contains(&"e3".to_string()));
    assert!(hints.contains(&"e4".to_string()));
    let out_b = st.take_outbox(cb);
    assert!(out_b
        .iter()
        .all(|m| !matches!(m, ServerMessage::GameMessage(GameMessage::MoveMade { .. }))));
    assert_eq!(st.games[0].moves.len(), 0);
}

#[test]
fn checkmate_ends_game_once_and_absorbs_later_moves() {
    // White delivers a scholar's mate; both seats receive exactly one game
    // end with winner white and reason checkmate; black's next move is
    // answered with the game-over error.
    let mut st = WsState::new();
    let (a, ca) = enter(&mut st, "alice", 1500);
    let (b, cb) = enter(&mut st, "bob", 1400);
    handle_message(&mut st, a, ClientMessage::CreateLobby { config: config("main", 2) }, 7);
    let lobby_id = st.lobbies[0].id;
    handle_message(&mut st, b, ClientMessage::JoinLobby { lobby_id, as_spectator: false }, 8);
    st.take_outbox(ca);
    st.take_outbox(cb);

    for (who, from, to) in [
        (a, "e2", "e4"),
        (b, "e7", "e5"),
        (a, "f1", "c4"),
        (b, "b8", "c6"),
        (a, "d1", "h5"),
        (b, "g8", "f6"),
        (a, "h5", "f7"),
    ] {
        handle_message(&mut st, who, mv(from, to), 11);
    }
    let out_a = st.take_outbox(ca);
    let out_b = st.take_outbox(cb);
    assert_eq!(count_game_ended(&out_a), 1);
    assert_eq!(count_game_ended(&out_b), 1);
    for out in [&out_a, &out_b] {
        let (winner, reason) = out
            .iter()
            .find_map(|m| {
                if let ServerMessage::GameMessage(GameMessage::GameOver { winner, reason }) = m {
                    Some((*winner, reason.clone()))
                } else {
                    None
                }
            })
            .expect("seat missed the game end");
        assert_eq!(winner, Some(a));
        assert_eq!(reason, "checkmate");
    }
    assert_eq!(st.games[0].state, GameState::WhiteWins);

    let game_id = st.games[0].id;
    let (res, msgs) = make_move(
        &mut st,
        game_id,
        b,
        "e7".to_string(),
        "e6".to_string(),
        None,
    );
    assert!(matches!(res, Err(CoordError::GameOver)));
    assert!(msgs.is_empty());
    assert_eq!(st.games[0].state, GameState::WhiteWins);
}

#[test]
fn host_departure_passes_host_to_next_joined() {
    // The host leaves a three-occupant waiting lobby: the two remaining
    // occupants are told, and the next-joined occupant inherits the host
    // seat.
    let mut st = WsState::new();
    let (a, ca) = enter(&mut st, "alice", 1500);
    let (b, cb) = enter(&mut st, "bob", 1400);
    let (c, cc) = enter(&mut st, "cara", 1300);
    handle_message(&mut st, a, ClientMessage::CreateLobby { config: config("trio", 3) }, 7);
    let lobby_id = st.lobbies[0].id;
    handle_message(&mut st, b, ClientMessage::JoinLobby { lobby_id, as_spectator: false }, 8);
    handle_message(&mut st, c, ClientMessage::JoinLobby { lobby_id, as_spectator: false }, 9);
    st.take_outbox(ca);
    st.take_outbox(cb);
    st.take_outbox(cc);

    handle_message(&mut st, a, ClientMessage::LeaveLobby, 10);
    assert_eq!(st.lobbies[0].host, b);
    assert_eq!(st.lobbies[0].players, vec![b, c]);
    for conn in [cb, cc] {
        let out = st.take_outbox(conn);
        assert!(out.iter().any(|m| matches!(
            m,
            ServerMessage::LobbyMessage(LobbyMessage::PlayerLeft { player_id }) if *player_id == a
        )));
    }
    assert!(st.take_outbox(ca).is_empty());
}

#[test]
fn occupancy_is_bounded_by_configuration() {
    // Two seats fill the lobby; a third occupant join is answered RoomFull.
    let mut st = WsState::new();
    let (a, _ca) = enter(&mut st, "alice", 1500);
    let (b, _cb) = enter(&mut st, "bob", 1400);
    let (c, cc) = enter(&mut st, "cara", 1300);
    handle_message(&mut st, a, ClientMessage::CreateLobby { config: config("duo", 2) }, 7);
    let lobby_id = st.lobbies[0].id;
    handle_message(&mut st, b, ClientMessage::JoinLobby { lobby_id, as_spectator: false }, 8);
    handle_message(&mut st, c, ClientMessage::JoinLobby { lobby_id, as_spectator: false }, 9);
    assert_eq!(st.lobbies[0].players.len(), 2);
    let out_c = st.take_outbox(cc);
    assert!(out_c.iter().any(|m| matches!(
        m,
        ServerMessage::Error { message } if message == "Lobby is full"
    )));
}

#[test]
fn turn_alternates_and_same_seat_is_rejected() {
    let mut st = WsState::new();
    let (a, _ca) = enter(&mut st, "alice", 1500);
    let (b, _cb) = enter(&mut st, "bob", 1400);
    handle_message(&mut st, a, ClientMessage::CreateLobby { config: config("main", 2) }, 7);
    let lobby_id = st.lobbies[0].id;
    handle_message(&mut st, b, ClientMessage::JoinLobby { lobby_id, as_spectator: false }, 8);
    let game_id = st.games[0].id;

    let (r1, _) = make_move(&mut st, game_id, a, "e2".to_string(), "e4".to_string(), None);
    assert!(r1.is_ok());
    let (r2, _) = make_move(&mut st, game_id, a, "d2".to_string(), "d4".to_string(), None);
    assert!(matches!(r2, Err(CoordError::WrongTurn)));
    let (r3, _) = make_move(&mut st, game_id, b, "e7".to_string(), "e5".to_string(), None);
    assert!(r3.is_ok());
    assert_eq!(st.games[0].moves, vec!["e2e4".to_string(), "e7e5".to_string()]);
}

#[test]
fn concurrent_attempts_at_one_turn_yield_one_success() {
    // Both seats submit for the same logical turn; the serialized order
    // admits exactly one of them.
    let mut st = WsState::new();
    let (a, _ca) = enter(&mut st, "alice", 1500);
    let (b, _cb) = enter(&mut st, "bob", 1400);
    handle_message(&mut st, a, ClientMessage::CreateLobby { config: config("main", 2) }, 7);
    let lobby_id = st.lobbies[0].id;
    handle_message(&mut st, b, ClientMessage::JoinLobby { lobby_id, as_spectator: false }, 8);
    let game_id = st.games[0].id;

    let (rb, _) = make_move(&mut st, game_id, b, "e7".to_string(), "e5".to_string(), None);
    let (ra, _) = make_move(&mut st, game_id, a, "e2".to_string(), "e4".to_string(), None);
    assert!(matches!(rb, Err(CoordError::WrongTurn)));
    assert!(ra.is_ok());
    assert_eq!(st.games[0].moves.len(), 1);
}

#[test]
fn resignation_awards_the_opponent() {
    let mut st = WsState::new();
    let (a, ca) = enter(&mut st, "alice", 1500);
    let (b, cb) = enter(&mut st, "bob", 1400);
    handle_message(&mut st, a, ClientMessage::CreateLobby { config: config("main", 2) }, 7);
    let lobby_id = st.lobbies[0].id;
    handle_message(&mut st, b, ClientMessage::JoinLobby { lobby_id, as_spectator: false }, 8);
    st.take_outbox(ca);
    st.take_outbox(cb);
    handle_message(&mut st, b, ClientMessage::Resign, 9);
    assert_eq!(st.games[0].state, GameState::WhiteWins);
    let out_a = st.take_outbox(ca);
    let (winner, reason) = out_a
        .iter()
        .find_map(|m| {
            if let ServerMessage::GameMessage(GameMessage::GameOver { winner, reason }) = m {
                Some((*winner, reason.clone()))
            } else {
                None
            }
        })
        .expect("white missed the resignation");
    assert_eq!(winner, Some(a));
    assert_eq!(reason, "resignation");

    let game_id = st.games[0].id;
    let (again, _) = resign(&mut st, game_id, a);
    assert!(matches!(again, Err(CoordError::GameOver)));
    assert_eq!(st.games[0].state, GameState::WhiteWins);
}

#[test]
fn spectators_join_and_leave_without_touching_turns() {
    let mut st = WsState::new();
    let (a, _ca) = enter(&mut st, "alice", 1500);
    let (b, _cb) = enter(&mut st, "bob", 1400);
    let (s, cs) = enter(&mut st, "sally", 1000);
    handle_message(&mut st, a, ClientMessage::CreateLobby { config: config("main", 2) }, 7);
    let lobby_id = st.lobbies[0].id;
    handle_message(&mut st, b, ClientMessage::JoinLobby { lobby_id, as_spectator: false }, 8);
    handle_message(&mut st, s, ClientMessage::JoinLobby { lobby_id, as_spectator: true }, 9);
    assert_eq!(st.games[0].spectators, vec![s]);
    let out_s = st.take_outbox(cs);
    assert!(out_s.iter().any(|m| matches!(
        m,
        ServerMessage::RoomJoined { game_state: Some(gs), your_color: None, .. }
            if gs.current_turn == "white"
    )));
    handle_message(&mut st, s, ClientMessage::LeaveLobby, 10);
    assert!(st.games[0].spectators.is_empty());
    assert_eq!(st.games[0].white_player, a);
    assert_eq!(st.games[0].black_player, b);
}

#[test]
fn disconnect_keeps_game_seat_and_reattach_resumes() {
    let mut st = WsState::new();
    let (a, _ca) = enter(&mut st, "alice", 1500);
    let (b, _cb) = enter(&mut st, "bob", 1400);
    handle_message(&mut st, a, ClientMessage::CreateLobby { config: config("main", 2) }, 7);
    let lobby_id = st.lobbies[0].id;
    handle_message(&mut st, b, ClientMessage::JoinLobby { lobby_id, as_spectator: false }, 8);
    let game_id = st.games[0].id;

    let msgs = handle_disconnect(&mut st, a);
    assert!(msgs.is_empty());
    let pa = st.players.iter().find(|p| p.id == a).unwrap();
    assert_eq!(pa.status, PlayerStatus::InGame(game_id));
    assert_eq!(pa.connection_id, None);

    let fresh = st.register();
    assert!(reattach_connection(&mut st, a, fresh));
    let pa = st.players.iter().find(|p| p.id == a).unwrap();
    assert_eq!(pa.status, PlayerStatus::InGame(game_id));
    assert_eq!(pa.connection_id, Some(fresh));

    let (r, _) = make_move(&mut st, game_id, a, "e2".to_string(), "e4".to_string(), None);
    assert!(r.is_ok());
}

#[test]
fn ping_pong_and_unknown_send() {
    let mut st = WsState::new();
    let (a, ca) = enter(&mut st, "alice", 1500);
    handle_message(&mut st, a, ClientMessage::Ping, 1);
    let out = st.take_outbox(ca);
    assert!(out.iter().any(|m| matches!(m, ServerMessage::Pong)));
    assert!(!st.send(9999, ServerMessage::Pong));
}

#[test]
fn outbound_queue_is_bounded_dropping_oldest() {
    let mut st = WsState::new();
    let conn = st.register();
    for i in 0..70u64 {
        st.send(conn, ServerMessage::Connected { player_id: i });
    }
    let out = st.take_outbox(conn);
    assert_eq!(out.len(), 64);
    assert!(matches!(out[0], ServerMessage::Connected { player_id: 6 }));
    assert!(matches!(out[63], ServerMessage::Connected { player_id: 69 }));
}
