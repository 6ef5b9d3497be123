use tennis_league::errors::AppError;
use tennis_league::leagues::{CreateLeagueInput, JoinLeagueInput, create_league, join_league};
use tennis_league::matches::{
    AcceptMatchInput, CreateMatchInput, MatchQuery, RejectMatchInput, accept_match, create_match,
    get_matches, get_player_matches, get_player_pending_matches, reject_match,
};
use tennis_league::model::Store;

fn league_with_members(store: &mut Store, league: &str, members: &[&str]) {
    let created = create_league(
        store,
        &CreateLeagueInput {
            league_name: league.to_string(),
            description: Some("Test league description".to_string()),
            skill_level: Some("Intermediate".to_string()),
            created_by: members[0].to_string(),
            is_public: Some(true),
        },
    );
    assert!(created.is_ok());
    for member in &members[1..] {
        let joined = join_league(
            store,
            league,
            &JoinLeagueInput { player_id: member.to_string() },
        );
        assert!(joined.is_ok());
    }
}

fn singles_input(league: &str, p1: Option<&str>, p2: Option<&str>, notes: Option<&str>) -> CreateMatchInput {
    CreateMatchInput {
        match_type: "Singles".to_string(),
        player1_id: p1.map(|s| s.to_string()),
        player2_id: p2.map(|s| s.to_string()),
        league_id: league.to_string(),
        team1_player1_id: None,
        team1_player2_id: None,
        team2_player1_id: None,
        team2_player2_id: None,
        datetime: "2023-05-15T14:00:00".to_string(),
        location: "Tennis Court 1".to_string(),
        status: "Pending".to_string(),
        notes: notes.map(|s| s.to_string()),
    }
}

fn doubles_input(league: &str, t1p1: &str, t1p2: &str, t2p1: &str, t2p2: &str) -> CreateMatchInput {
    CreateMatchInput {
        match_type: "doubles".to_string(),
        player1_id: None,
        player2_id: None,
        league_id: league.to_string(),
        team1_player1_id: Some(t1p1.to_string()),
        team1_player2_id: Some(t1p2.to_string()),
        team2_player1_id: Some(t2p1.to_string()),
        team2_player2_id: Some(t2p2.to_string()),
        datetime: "2023-06-15T14:00:00".to_string(),
        location: "Tennis Court 1".to_string(),
        status: "Pending".to_string(),
        notes: None,
    }
}

fn bad_request_message(err: AppError) -> String {
    match &err {
        AppError::BadRequest(_) => {}
        _ => panic!("expected a BadRequest"),
    }
    err.message()
}

#[test]
fn test_create_match() {
    let mut store = Store::new();
    league_with_members(&mut store, "test_league", &["test_user", "other_user"]);
    let id = create_match(
        &mut store,
        &singles_input("test_league", Some("test_user"), Some("other_user"), Some("Match request")),
    );
    assert_eq!(id, 1);
    let listed = get_matches(
        &store,
        &MatchQuery { league_id: Some("test_league".to_string()), status: None },
    );
    assert_eq!(listed.len(), 1);
    assert_eq!(listed[0].id, 1);
    assert_eq!(listed[0].match_type, "Singles");
    assert_eq!(listed[0].status, "Pending");
    assert_eq!(listed[0].notes, Some("Match request".to_string()));
    assert_eq!(listed[0].location, "Tennis Court 1");
    assert_eq!(listed[0].datetime, "2023-05-15T14:00:00");
    assert!(listed[0].score.is_none());
    assert!(listed[0].winner_id.is_none());
}

#[test]
fn test_accept_match() {
    let mut store = Store::new();
    league_with_members(&mut store, "test_league", &["test_user", "other_user"]);
    let id = create_match(
        &mut store,
        &singles_input("test_league", Some("test_user"), Some("other_user"), Some("Match request")),
    );
    let accepted = accept_match(
        &mut store,
        id,
        &AcceptMatchInput {
            player_id: "test_user".to_string(),
            comments: Some("Looking forward to the match!".to_string()),
        },
    );
    assert!(accepted.is_ok());
    let listed = get_matches(&store, &MatchQuery { league_id: None, status: None });
    assert_eq!(listed[0].status, "Scheduled");
    assert_eq!(
        listed[0].notes,
        Some("Match request\n-----------------\nAccepted: Looking forward to the match!".to_string()),
    );
}

#[test]
fn test_accept_doubles_match() {
    let mut store = Store::new();
    league_with_members(&mut store, "League", &["Player1", "Player2", "Player3", "Player4"]);
    let id = create_match(
        &mut store,
        &doubles_input("League", "Player1", "Player2", "Player3", "Player4"),
    );
    let accepted = accept_match(
        &mut store,
        id,
        &AcceptMatchInput { player_id: "Player1".to_string(), comments: None },
    );
    assert!(accepted.is_ok());
    let listed = get_matches(&store, &MatchQuery { league_id: None, status: None });
    assert_eq!(listed[0].status, "Scheduled");
    assert_eq!(
        listed[0].notes,
        Some("-----------------\nAccepted by player Player1".to_string()),
    );
}

#[test]
fn test_accept_doubles_reports_missing_member() {
    // A doubles match whose team2_player2 never joined the league: the
    // accept attempt fails naming exactly that slot.
    let mut store = Store::new();
    league_with_members(&mut store, "League", &["Player1", "Player2", "Player3"]);
    let id = create_match(
        &mut store,
        &doubles_input("League", "Player1", "Player2", "Player3", "PlayerC"),
    );
    let err = accept_match(
        &mut store,
        id,
        &AcceptMatchInput { player_id: "Player1".to_string(), comments: None },
    )
    .unwrap_err();
    let message = bad_request_message(err);
    assert_eq!(message, "Team 2 Player 2 (PlayerC) is not in the league");
    assert!(message.contains("Team 2 Player 2"));
    let listed = get_matches(&store, &MatchQuery { league_id: None, status: None });
    assert_eq!(listed[0].status, "Pending");
}

#[test]
fn test_accept_doubles_checks_slots_in_order() {
    // Both team1_player2 and team2_player1 are missing: the earlier slot
    // wins.
    let mut store = Store::new();
    league_with_members(&mut store, "League", &["Player1", "Player4"]);
    let id = create_match(
        &mut store,
        &doubles_input("League", "Player1", "PlayerB", "PlayerC", "Player4"),
    );
    let err = accept_match(
        &mut store,
        id,
        &AcceptMatchInput { player_id: "Player1".to_string(), comments: None },
    )
    .unwrap_err();
    assert_eq!(
        bad_request_message(err),
        "Team 1 Player 2 (PlayerB) is not in the league",
    );
}

#[test]
fn test_accept_singles_reports_first_slot() {
    let mut store = Store::new();
    league_with_members(&mut store, "L", &["A"]);
    // Neither slot player is a member: player1 is reported first.
    let id = create_match(&mut store, &singles_input("L", Some("X"), Some("Y"), None));
    let err = accept_match(
        &mut store,
        id,
        &AcceptMatchInput { player_id: "A".to_string(), comments: None },
    )
    .unwrap_err();
    assert_eq!(bad_request_message(err), "Player 1 is not in the league");
    // player1 passes, player2 fails: player2 is reported.
    let id2 = create_match(&mut store, &singles_input("L", Some("A"), Some("Y"), None));
    let err2 = accept_match(
        &mut store,
        id2,
        &AcceptMatchInput { player_id: "A".to_string(), comments: None },
    )
    .unwrap_err();
    assert_eq!(bad_request_message(err2), "Player 2 is not in the league");
}

#[test]
fn test_accept_singles_succeeds_with_both_members() {
    let mut store = Store::new();
    league_with_members(&mut store, "L", &["A", "B"]);
    let id = create_match(&mut store, &singles_input("L", Some("A"), Some("B"), None));
    assert!(accept_match(
        &mut store,
        id,
        &AcceptMatchInput { player_id: "B".to_string(), comments: None },
    )
    .is_ok());
}

#[test]
fn test_accept_skips_open_slots() {
    // A singles match created with an unassigned opponent slot can be
    // accepted: open slots are skipped.
    let mut store = Store::new();
    league_with_members(&mut store, "L", &["A"]);
    let id = create_match(&mut store, &singles_input("L", Some("A"), None, None));
    assert!(accept_match(
        &mut store,
        id,
        &AcceptMatchInput { player_id: "A".to_string(), comments: None },
    )
    .is_ok());
}

#[test]
fn test_accept_requires_acting_member() {
    let mut store = Store::new();
    league_with_members(&mut store, "L", &["A", "B"]);
    let id = create_match(&mut store, &singles_input("L", Some("A"), Some("B"), None));
    let err = accept_match(
        &mut store,
        id,
        &AcceptMatchInput { player_id: "Z".to_string(), comments: None },
    )
    .unwrap_err();
    assert_eq!(bad_request_message(err), "Player is not in the league");
}

#[test]
fn test_accept_match_not_found() {
    let mut store = Store::new();
    let err = accept_match(
        &mut store,
        7,
        &AcceptMatchInput { player_id: "A".to_string(), comments: None },
    )
    .unwrap_err();
    assert!(matches!(err, AppError::NotFound));
    assert_eq!(err.status_code(), 404);
    assert_eq!(err.message(), "Resource Not Found");
}

#[test]
fn test_accept_twice_conflicts() {
    let mut store = Store::new();
    league_with_members(&mut store, "L", &["A", "B"]);
    let id = create_match(&mut store, &singles_input("L", Some("A"), Some("B"), None));
    let input = AcceptMatchInput { player_id: "A".to_string(), comments: None };
    assert!(accept_match(&mut store, id, &input).is_ok());
    let err = accept_match(&mut store, id, &input).unwrap_err();
    assert!(matches!(err, AppError::Conflict));
    assert_eq!(err.status_code(), 409);
}

#[test]
fn test_match_type_tag_is_case_insensitive() {
    let mut store = Store::new();
    league_with_members(&mut store, "L", &["A"]);
    let mut input = singles_input("L", Some("X"), None, None);
    input.match_type = "SINGLES".to_string();
    let id = create_match(&mut store, &input);
    let err = accept_match(
        &mut store,
        id,
        &AcceptMatchInput { player_id: "A".to_string(), comments: None },
    )
    .unwrap_err();
    assert_eq!(bad_request_message(err), "Player 1 is not in the league");
}

#[test]
fn test_other_match_types_skip_slot_validation() {
    // A "practice" match validates no participant slots; only the acting
    // player's membership is checked.
    let mut store = Store::new();
    league_with_members(&mut store, "L", &["A"]);
    let mut input = singles_input("L", Some("X"), Some("Y"), None);
    input.match_type = "practice".to_string();
    let id = create_match(&mut store, &input);
    assert!(accept_match(
        &mut store,
        id,
        &AcceptMatchInput { player_id: "A".to_string(), comments: None },
    )
    .is_ok());
}

#[test]
fn test_reject_match() {
    // Rejection never requires the acting player to be a league member.
    let mut store = Store::new();
    league_with_members(&mut store, "League", &["Player"]);
    let id = create_match(
        &mut store,
        &singles_input(
            "League",
            Some("Player"),
            None,
            Some("Match request for rejection test"),
        ),
    );
    let rejected = reject_match(
        &mut store,
        id,
        &RejectMatchInput {
            player_id: "Outsider".to_string(),
            reason: Some("Schedule conflict".to_string()),
        },
    );
    assert!(rejected.is_ok());
    let listed = get_matches(
        &store,
        &MatchQuery { league_id: Some("League".to_string()), status: None },
    );
    assert_eq!(listed[0].status, "Rejected");
    let notes = listed[0].notes.clone().unwrap();
    assert!(notes.contains("-----------------"));
    assert_eq!(
        notes,
        "Match request for rejection test\n-----------------\nRejected: Schedule conflict",
    );
}

#[test]
fn test_reject_match_not_found() {
    let mut store = Store::new();
    let err = reject_match(
        &mut store,
        3,
        &RejectMatchInput { player_id: "A".to_string(), reason: None },
    )
    .unwrap_err();
    assert!(matches!(err, AppError::NotFound));
}

#[test]
fn test_reject_after_accept_conflicts() {
    let mut store = Store::new();
    league_with_members(&mut store, "L", &["A"]);
    let id = create_match(&mut store, &singles_input("L", Some("A"), None, None));
    assert!(accept_match(
        &mut store,
        id,
        &AcceptMatchInput { player_id: "A".to_string(), comments: None },
    )
    .is_ok());
    let err = reject_match(
        &mut store,
        id,
        &RejectMatchInput { player_id: "A".to_string(), reason: None },
    )
    .unwrap_err();
    assert!(matches!(err, AppError::Conflict));
}

#[test]
fn test_accept_notes_templates() {
    // All four accept templates, exactly.
    let mut store = Store::new();
    league_with_members(&mut store, "L", &["A", "B"]);
    let cases: [(Option<&str>, Option<&str>, &str); 4] = [
        (Some("X"), Some("Y"), "X\n-----------------\nAccepted: Y"),
        (None, Some("Y"), "-----------------\nAccepted: Y"),
        (Some("X"), None, "X\n-----------------\nAccepted by player A"),
        (None, None, "-----------------\nAccepted by player A"),
    ];
    for (notes, comments, expected) in cases {
        let id = create_match(&mut store, &singles_input("L", Some("A"), Some("B"), notes));
        accept_match(
            &mut store,
            id,
            &AcceptMatchInput {
                player_id: "A".to_string(),
                comments: comments.map(|s| s.to_string()),
            },
        )
        .unwrap();
        let listed = get_matches(&store, &MatchQuery { league_id: None, status: None });
        let row = listed.iter().find(|m| m.id == id).unwrap();
        assert_eq!(row.notes, Some(expected.to_string()));
    }
}

#[test]
fn test_reject_notes_templates() {
    let mut store = Store::new();
    league_with_members(&mut store, "L", &["A"]);
    let cases: [(Option<&str>, Option<&str>, &str); 4] = [
        (Some("X"), Some("Y"), "X\n-----------------\nRejected: Y"),
        (None, Some("Y"), "-----------------\nRejected: Y"),
        (Some("X"), None, "X\n-----------------\nRejected by player Z"),
        (None, None, "-----------------\nRejected by player Z"),
    ];
    for (notes, reason, expected) in cases {
        let id = create_match(&mut store, &singles_input("L", Some("A"), None, notes));
        reject_match(
            &mut store,
            id,
            &RejectMatchInput {
                player_id: "Z".to_string(),
                reason: reason.map(|s| s.to_string()),
            },
        )
        .unwrap();
        let listed = get_matches(&store, &MatchQuery { league_id: None, status: None });
        let row = listed.iter().find(|m| m.id == id).unwrap();
        assert_eq!(row.notes, Some(expected.to_string()));
    }
}

#[test]
fn test_get_player_matches() {
    // The six-way predicate: the player is found in any slot.
    let mut store = Store::new();
    league_with_members(&mut store, "L", &["A", "B", "C", "D", "E"]);
    create_match(&mut store, &singles_input("L", Some("A"), Some("B"), None));
    create_match(&mut store, &singles_input("L", Some("B"), Some("A"), None));
    create_match(&mut store, &doubles_input("L", "A", "B", "C", "D"));
    create_match(&mut store, &doubles_input("L", "B", "A", "C", "D"));
    create_match(&mut store, &doubles_input("L", "B", "C", "A", "D"));
    create_match(&mut store, &doubles_input("L", "B", "C", "D", "A"));
    create_match(&mut store, &singles_input("L", Some("B"), Some("C"), None));
    let mine = get_player_matches(&store, "A");
    assert_eq!(mine.len(), 6);
    assert!(mine.iter().all(|m| {
        [
            &m.player1_id,
            &m.player2_id,
            &m.team1_player1_id,
            &m.team1_player2_id,
            &m.team2_player1_id,
            &m.team2_player2_id,
        ]
        .iter()
        .any(|slot| slot.as_deref() == Some("A"))
    }));
    let others = get_player_matches(&store, "E");
    assert_eq!(others.len(), 0);
}

#[test]
fn test_get_player_pending_matches() {
    let mut store = Store::new();
    league_with_members(&mut store, "L", &["A", "B"]);
    let pending_id = create_match(&mut store, &singles_input("L", Some("A"), Some("B"), None));
    let accepted_id = create_match(&mut store, &singles_input("L", Some("B"), Some("A"), None));
    accept_match(
        &mut store,
        accepted_id,
        &AcceptMatchInput { player_id: "A".to_string(), comments: None },
    )
    .unwrap();
    create_match(&mut store, &singles_input("L", Some("B"), None, None));
    let pending = get_player_pending_matches(&store, "A");
    assert_eq!(pending.len(), 1);
    assert_eq!(pending[0].id, pending_id);
    assert_eq!(pending[0].status, "Pending");
    // Idempotent across repeated calls with no intervening writes.
    let again = get_player_pending_matches(&store, "A");
    assert_eq!(again.len(), pending.len());
    assert_eq!(again[0].id, pending[0].id);
    assert_eq!(again[0].notes, pending[0].notes);
}

#[test]
fn test_get_league_matches() {
    let mut store = Store::new();
    league_with_members(&mut store, "L1", &["A", "B"]);
    league_with_members(&mut store, "L2", &["A", "B"]);
    create_match(&mut store, &singles_input("L1", Some("A"), Some("B"), None));
    create_match(&mut store, &singles_input("L2", Some("A"), Some("B"), None));
    let id3 = create_match(&mut store, &singles_input("L1", Some("B"), Some("A"), None));
    accept_match(
        &mut store,
        id3,
        &AcceptMatchInput { player_id: "A".to_string(), comments: None },
    )
    .unwrap();
    let l1 = get_matches(
        &store,
        &MatchQuery { league_id: Some("L1".to_string()), status: None },
    );
    assert_eq!(l1.len(), 2);
    let l1_pending = get_matches(
        &store,
        &MatchQuery {
            league_id: Some("L1".to_string()),
            status: Some("Pending".to_string()),
        },
    );
    assert_eq!(l1_pending.len(), 1);
    let everything = get_matches(&store, &MatchQuery { league_id: None, status: None });
    assert_eq!(everything.len(), 3);
}
