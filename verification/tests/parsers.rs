//! Unit tests for the verified parsers, formatters and descriptions.

use chess_app::chess_engine::{validate_fen, ChessEngine};
use chess_app::coaching::CoachingAgent;
use chess_app::engine::{parse_square, square_name};
use chess_app::errors::CoordError;
use chess_app::game::parse_time_minutes;
use chess_app::multiplayer::generate_room_code;
use chess_app::puzzles::{Difficulty, Theme};

#[test]
fn initial_position_is_valid_fen() {
    assert!(validate_fen("rnbqkbnr/pppppppp/8/8/8/8/PPPPPPPP/RNBQKBNR w KQkq - 0 1"));
}

#[test]
fn mid_game_positions_are_valid_fen() {
    assert!(validate_fen("rnbqkbnr/pppppppp/8/8/4P3/8/PPPP1PPP/RNBQKBNR b KQkq - 0 1"));
    assert!(validate_fen("8/8/8/8/8/4k3/8/4K2R w K - 10 42"));
    assert!(validate_fen("r3k2r/8/8/3pP3/8/8/8/R3K2R w KQkq d6 0 25"));
}

#[test]
fn malformed_fen_is_rejected() {
    // a rank accounting for nine files
    assert!(!validate_fen("rnbqkbnr/ppppppppp/8/8/8/8/PPPPPPPP/RNBQKBNR w KQkq - 0 1"));
    // only seven ranks
    assert!(!validate_fen("rnbqkbnr/8/8/8/8/PPPPPPPP/RNBQKBNR w KQkq - 0 1"));
    // missing move counters
    assert!(!validate_fen("rnbqkbnr/pppppppp/8/8/8/8/PPPPPPPP/RNBQKBNR w KQkq -"));
    // bad side to move
    assert!(!validate_fen("rnbqkbnr/pppppppp/8/8/8/8/PPPPPPPP/RNBQKBNR x KQkq - 0 1"));
    // bad en passant square
    assert!(!validate_fen("rnbqkbnr/pppppppp/8/8/8/8/PPPPPPPP/RNBQKBNR w KQkq e5 0 1"));
    // stray piece letter
    assert!(!validate_fen("rnbqkbnr/pppppppp/8/8/8/8/PPPPPPPP/RNBQKBNX w KQkq - 0 1"));
    assert!(!validate_fen(""));
}

#[test]
fn squares_parse_and_print() {
    assert_eq!(parse_square("a1"), Some(0));
    assert_eq!(parse_square("h1"), Some(7));
    assert_eq!(parse_square("a8"), Some(56));
    assert_eq!(parse_square("e2"), Some(12));
    assert_eq!(parse_square("i2"), None);
    assert_eq!(parse_square("e9"), None);
    assert_eq!(parse_square("e"), None);
    assert_eq!(parse_square("e22"), None);
    assert_eq!(square_name(0), "a1");
    assert_eq!(square_name(12), "e2");
    assert_eq!(square_name(63), "h8");
    for idx in 0..64u8 {
        assert_eq!(parse_square(&square_name(idx)), Some(idx));
    }
}

#[test]
fn time_controls_parse_minutes() {
    assert_eq!(parse_time_minutes("5+0"), Some(5));
    assert_eq!(parse_time_minutes("15"), Some(15));
    assert_eq!(parse_time_minutes("180+2"), Some(180));
    assert_eq!(parse_time_minutes("blitz"), None);
    assert_eq!(parse_time_minutes(""), None);
    assert_eq!(parse_time_minutes("99999"), None);
}

#[test]
fn room_codes_have_shape() {
    for _ in 0..20 {
        let code = generate_room_code();
        assert_eq!(code.len(), 10);
        assert!(code.starts_with("CHESS-"));
        for c in code[6..].chars() {
            assert!(c.is_ascii_uppercase() || c.is_ascii_digit());
        }
    }
}

#[test]
fn coaching_personalities_read_as_documented() {
    assert_eq!(CoachingAgent::TacticalAssassin.personality(), "Aggressive, direct feedback");
    assert_eq!(CoachingAgent::PsychologyCoach.personality(), "Supportive, motivational");
}

#[test]
fn theme_descriptions_read_as_documented() {
    assert_eq!(Theme::Fork.get_description(), "Attack two pieces simultaneously");
    assert_eq!(Theme::Zugzwang.get_description(), "Any move worsens position");
    assert_ne!(Difficulty::Beginner, Difficulty::Expert);
}

#[test]
fn engine_handle_is_plain() {
    let e = ChessEngine::new();
    assert_eq!(e, ChessEngine::new());
}

#[test]
fn error_texts_cover_the_taxonomy() {
    assert_eq!(CoordError::NotFound.text(), "Not found");
    assert_eq!(CoordError::RoomFull.text(), "Lobby is full");
    assert_eq!(CoordError::WrongTurn.text(), "Not your turn");
    assert_eq!(CoordError::GameOver.text(), "Game is over");
    assert_eq!(CoordError::AlreadyPlaced.text(), "Already in a lobby or game");
    assert_eq!(CoordError::NotEnoughPlayers.text(), "Not enough players");
    assert_eq!(CoordError::InvalidMove { hints: vec![] }.text(), "Illegal move");
}
