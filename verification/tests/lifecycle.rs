//! Placement lifecycle, chat scoping and error reporting.

use chess_app::dispatch::{
    connect, find_player_room, handle_disconnect, handle_message, reattach_connection,
    remove_offline,
};
use chess_app::lobby::{GameMode, LobbyConfig};
use chess_app::multiplayer::{ClientMessage, ServerMessage};
use chess_app::player::PlayerStatus;
use chess_app::router::route;
use chess_app::state::WsState;

fn join(st: &mut WsState, name: &str) -> (u64, u64) {
    let conn = st.register();
    let (pid, msgs) = connect(st, conn, name.to_string(), 1200);
    for m in &msgs {
        route(st, m);
    }
    st.take_outbox(conn);
    (pid, conn)
}

fn cfg(max_players: u8) -> LobbyConfig {
    LobbyConfig {
        name: "room".to_string(),
        mode: GameMode::Ranked,
        max_players,
        time_control: "3+2".to_string(),
        rated: true,
        voice_enabled: false,
    }
}

#[test]
fn creating_while_placed_is_rejected() {
    let mut st = WsState::new();
    let (a, ca) = join(&mut st, "alice");
    handle_message(&mut st, a, ClientMessage::CreateLobby { config: cfg(2) }, 1);
    st.take_outbox(ca);
    handle_message(&mut st, a, ClientMessage::CreateLobby { config: cfg(2) }, 2);
    let out = st.take_outbox(ca);
    assert!(out.iter().any(|m| matches!(
        m,
        ServerMessage::Error { message } if message == "Already in a lobby or game"
    )));
    assert_eq!(st.lobbies.len(), 1);
}

#[test]
fn joining_unknown_lobby_is_rejected() {
    let mut st = WsState::new();
    let (a, ca) = join(&mut st, "alice");
    handle_message(
        &mut st,
        a,
        ClientMessage::JoinLobby { lobby_id: 424242, as_spectator: false },
        1,
    );
    let out = st.take_outbox(ca);
    assert!(out.iter().any(|m| matches!(
        m,
        ServerMessage::Error { message } if message == "Not found"
    )));
}

#[test]
fn chat_reaches_the_senders_room_only() {
    let mut st = WsState::new();
    let (a, ca) = join(&mut st, "alice");
    let (b, cb) = join(&mut st, "bob");
    let (_c, cc) = join(&mut st, "cara");
    handle_message(&mut st, a, ClientMessage::CreateLobby { config: cfg(3) }, 1);
    let lobby_id = st.lobbies[0].id;
    handle_message(&mut st, b, ClientMessage::JoinLobby { lobby_id, as_spectator: false }, 2);
    st.take_outbox(ca);
    st.take_outbox(cb);
    st.take_outbox(cc);
    handle_message(
        &mut st,
        a,
        ClientMessage::SendChatMessage { text: "good luck".to_string() },
        77,
    );
    for conn in [ca, cb] {
        let out = st.take_outbox(conn);
        assert!(out.iter().any(|m| matches!(
            m,
            ServerMessage::ChatMessage { player_id, text, timestamp, .. }
                if *player_id == a && text == "good luck" && *timestamp == 77
        )));
    }
    assert!(st.take_outbox(cc).is_empty());
}

#[test]
fn explicit_start_waits_for_two_occupants() {
    let mut st = WsState::new();
    let (a, ca) = join(&mut st, "alice");
    handle_message(&mut st, a, ClientMessage::CreateLobby { config: cfg(3) }, 1);
    let lobby_id = st.lobbies[0].id;
    st.take_outbox(ca);
    handle_message(&mut st, a, ClientMessage::StartGame, 2);
    let out = st.take_outbox(ca);
    assert!(out.iter().any(|m| matches!(
        m,
        ServerMessage::Error { message } if message == "Not enough players"
    )));
    assert!(st.games.is_empty());

    let (b, _cb) = join(&mut st, "bob");
    handle_message(&mut st, b, ClientMessage::JoinLobby { lobby_id, as_spectator: false }, 3);
    // a three-seat lobby never starts by itself
    assert!(st.games.is_empty());
    handle_message(&mut st, a, ClientMessage::StartGame, 4);
    assert_eq!(st.games.len(), 1);
    assert_eq!(st.games[0].white_player, a);
    assert_eq!(st.games[0].black_player, b);
    // repeating the start request is a no-op rather than a second game
    handle_message(&mut st, a, ClientMessage::StartGame, 5);
    assert_eq!(st.games.len(), 1);
}

#[test]
fn lobby_closes_when_last_occupant_leaves() {
    let mut st = WsState::new();
    let (a, _ca) = join(&mut st, "alice");
    handle_message(&mut st, a, ClientMessage::CreateLobby { config: cfg(2) }, 1);
    assert_eq!(st.lobbies.len(), 1);
    handle_message(&mut st, a, ClientMessage::LeaveLobby, 2);
    assert!(st.lobbies.is_empty());
    let pa = st.players.iter().find(|p| p.id == a).unwrap();
    assert_eq!(pa.status, PlayerStatus::Online);
}

#[test]
fn grace_period_removal_spares_seated_players() {
    let mut st = WsState::new();
    let (a, _ca) = join(&mut st, "alice");
    let (b, _cb) = join(&mut st, "bob");
    handle_message(&mut st, a, ClientMessage::CreateLobby { config: cfg(2) }, 1);
    let lobby_id = st.lobbies[0].id;
    handle_message(&mut st, b, ClientMessage::JoinLobby { lobby_id, as_spectator: false }, 2);

    handle_disconnect(&mut st, a);
    remove_offline(&mut st, a);
    // still seated in the running game: the directory keeps the identity
    assert!(st.players.iter().any(|p| p.id == a));

    // an idle participant is removed once the grace period expires
    let (c, _cc) = join(&mut st, "cara");
    handle_disconnect(&mut st, c);
    remove_offline(&mut st, c);
    assert!(st.players.iter().all(|p| p.id != c));
}

#[test]
fn reattach_supersedes_the_stale_connection() {
    let mut st = WsState::new();
    let (a, ca) = join(&mut st, "alice");
    let fresh = st.register();
    assert!(reattach_connection(&mut st, a, fresh));
    let pa = st.players.iter().find(|p| p.id == a).unwrap();
    assert_eq!(pa.connection_id, Some(fresh));
    // the stale connection no longer receives participant-addressed mail
    handle_message(&mut st, a, ClientMessage::Ping, 1);
    assert!(st.take_outbox(ca).is_empty());
    let out = st.take_outbox(fresh);
    assert!(out.iter().any(|m| matches!(m, ServerMessage::Pong)));
    assert!(!reattach_connection(&mut st, 999_999, fresh));
}

#[test]
fn rooms_resolve_through_the_directory() {
    let mut st = WsState::new();
    let (a, _ca) = join(&mut st, "alice");
    let (b, _cb) = join(&mut st, "bob");
    let (s, _cs) = join(&mut st, "sally");
    handle_message(&mut st, a, ClientMessage::CreateLobby { config: cfg(2) }, 1);
    let lobby_id = st.lobbies[0].id;
    handle_message(&mut st, b, ClientMessage::JoinLobby { lobby_id, as_spectator: false }, 2);
    handle_message(&mut st, s, ClientMessage::JoinLobby { lobby_id, as_spectator: true }, 3);
    let game_id = st.games[0].id;
    assert_eq!(find_player_room(&st, a), Some((game_id, "white".to_string())));
    assert_eq!(find_player_room(&st, b), Some((game_id, "black".to_string())));
    assert_eq!(find_player_room(&st, s), Some((game_id, "spectator".to_string())));
    assert_eq!(find_player_room(&st, 12345), None);
}

#[test]
fn broadcast_to_everyone_reaches_every_connection() {
    let mut st = WsState::new();
    let (_a, ca) = join(&mut st, "alice");
    let (_b, cb) = join(&mut st, "bob");
    let bm = chess_app::router::BroadcastMessage {
        target: chess_app::router::BroadcastTarget::All,
        message: ServerMessage::Pong,
    };
    route(&mut st, &bm);
    for conn in [ca, cb] {
        let out = st.take_outbox(conn);
        assert!(out.iter().any(|m| matches!(m, ServerMessage::Pong)));
    }
}
