use tennis_league::appointments::{
    CreateAppointmentInput, UpdateAppointmentInput, cancel_appointment, create_appointment,
    update_appointment,
};
use tennis_league::config::Config;
use tennis_league::errors::AppError;
use tennis_league::leagues::{CreateLeagueInput, JoinLeagueInput, create_league, join_league,
    get_player_league_role};
use tennis_league::matches::{AcceptMatchInput, CreateMatchInput, MatchQuery, accept_match,
    create_match, get_matches};
use tennis_league::model::{MatchType, Store};
use tennis_league::strutil::{str_contains_ci, str_eq, str_ieq};
use tennis_league::validate::match_type_tag;

#[test]
fn test_full_accept_scenario() {
    // Create league L with creator A (A becomes admin member); B joins L
    // as player; a pending singles match between them, accepted by A with
    // comments "ready", ends Scheduled with exactly one audit entry.
    let mut store = Store::new();
    create_league(
        &mut store,
        &CreateLeagueInput {
            league_name: "L".to_string(),
            description: None,
            skill_level: None,
            created_by: "A".to_string(),
            is_public: None,
        },
    )
    .unwrap();
    assert_eq!(get_player_league_role(&store, "L", "A").unwrap().role, "admin");
    join_league(&mut store, "L", &JoinLeagueInput { player_id: "B".to_string() }).unwrap();
    assert_eq!(get_player_league_role(&store, "L", "B").unwrap().role, "player");
    let id = create_match(
        &mut store,
        &CreateMatchInput {
            match_type: "Singles".to_string(),
            player1_id: Some("A".to_string()),
            player2_id: Some("B".to_string()),
            league_id: "L".to_string(),
            team1_player1_id: None,
            team1_player2_id: None,
            team2_player1_id: None,
            team2_player2_id: None,
            datetime: "2023-05-15T14:00:00".to_string(),
            location: "Tennis Court 1".to_string(),
            status: "Pending".to_string(),
            notes: None,
        },
    );
    accept_match(
        &mut store,
        id,
        &AcceptMatchInput { player_id: "A".to_string(), comments: Some("ready".to_string()) },
    )
    .unwrap();
    let listed = get_matches(&store, &MatchQuery { league_id: None, status: None });
    assert_eq!(listed[0].status, "Scheduled");
    assert_eq!(listed[0].notes, Some("-----------------\nAccepted: ready".to_string()));
}

#[test]
fn test_create_appointment() {
    let mut store = Store::new();
    let resp = create_appointment(
        &mut store,
        &CreateAppointmentInput {
            requester_id: 1,
            opponent_id: 2,
            start_time: "2025-03-01T10:00:00".to_string(),
            end_time: "2025-03-01T11:00:00".to_string(),
            league_id: None,
        },
    );
    assert_eq!(resp.appointment_id, 1);
    assert_eq!(resp.status, "pending");
    assert_eq!(store.appointments.len(), 1);
    assert_eq!(store.appointments[0].start_time, "2025-03-01T10:00:00");
    assert_eq!(store.appointments[0].status, "pending");
}

#[test]
fn test_update_appointment() {
    let mut store = Store::new();
    create_appointment(
        &mut store,
        &CreateAppointmentInput {
            requester_id: 1,
            opponent_id: 2,
            start_time: "2025-03-01T10:00:00".to_string(),
            end_time: "2025-03-01T11:00:00".to_string(),
            league_id: Some(4),
        },
    );
    assert!(update_appointment(
        &mut store,
        1,
        &UpdateAppointmentInput { status: "confirmed".to_string() },
    )
    .is_ok());
    assert_eq!(store.appointments[0].status, "confirmed");
    assert_eq!(store.appointments[0].league_id, Some(4));
    // An unknown identifier changes nothing and is not an error.
    assert!(update_appointment(
        &mut store,
        9,
        &UpdateAppointmentInput { status: "confirmed".to_string() },
    )
    .is_ok());
    assert_eq!(store.appointments.len(), 1);
}

#[test]
fn test_cancel_appointment() {
    let mut store = Store::new();
    create_appointment(
        &mut store,
        &CreateAppointmentInput {
            requester_id: 1,
            opponent_id: 2,
            start_time: "2025-03-01T10:00:00".to_string(),
            end_time: "2025-03-01T11:00:00".to_string(),
            league_id: None,
        },
    );
    assert!(cancel_appointment(&mut store, 1).is_ok());
    assert_eq!(store.appointments[0].status, "cancelled");
}

#[test]
fn test_error_messages_and_status_codes() {
    assert_eq!(AppError::InternalError.message(), "Internal Server Error");
    assert_eq!(AppError::InternalError.status_code(), 500);
    assert_eq!(AppError::BadRequest("nope".to_string()).message(), "nope");
    assert_eq!(AppError::BadRequest("nope".to_string()).status_code(), 400);
    assert_eq!(AppError::NotFound.message(), "Resource Not Found");
    assert_eq!(AppError::NotFound.status_code(), 404);
    assert_eq!(AppError::Conflict.message(), "Conflict");
    assert_eq!(AppError::Conflict.status_code(), 409);
}

#[test]
fn test_string_comparisons() {
    assert!(str_eq("Pending", "Pending"));
    assert!(!str_eq("Pending", "pending"));
    assert!(!str_eq("Pending", "Pendin"));
    assert!(str_ieq("SINGLES", "singles"));
    assert!(str_ieq("douBLes", "Doubles"));
    assert!(!str_ieq("singles", "doubles"));
    assert!(!str_ieq("singles", "single"));
    assert!(str_contains_ci("Viewable League", "LEAGUE"));
    assert!(str_contains_ci("abc", ""));
    assert!(!str_contains_ci("ab", "abc"));
    assert!(!str_contains_ci("Viewable League", "tennis"));
}

#[test]
fn test_match_type_tag() {
    assert_eq!(match_type_tag("SINGLES"), Some(MatchType::Singles));
    assert_eq!(match_type_tag("doubles"), Some(MatchType::Doubles));
    assert_eq!(match_type_tag("Practice"), Some(MatchType::Practice));
    assert_eq!(match_type_tag("exhibition"), None);
    assert_eq!(match_type_tag(""), None);
}

#[test]
fn test_config() {
    let config = Config::new("postgres://localhost/db".to_string(), "127.0.0.1:8080".to_string());
    assert_eq!(config.database_url, "postgres://localhost/db");
    assert_eq!(config.server_addr, "127.0.0.1:8080");
}
