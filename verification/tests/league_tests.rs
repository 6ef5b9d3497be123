use tennis_league::auth::{RegisterInput, register};
use tennis_league::errors::AppError;
use tennis_league::leagues::{
    CreateLeagueInput, JoinLeagueInput, JoinRequestInput, LeagueQuery, UpdateJoinRequestInput,
    UpdateRoleInput, WriteOutcome, create_join_request, create_league, create_league_txn,
    get_league_by_id, get_league_by_name, get_league_join_requests, get_league_players,
    get_player_league_role, join_league, leave_league, search_leagues, update_join_request_status,
    update_member_role,
};
use tennis_league::model::Store;

fn league_input(name: &str, created_by: &str) -> CreateLeagueInput {
    CreateLeagueInput {
        league_name: name.to_string(),
        description: Some("A test league for unit testing".to_string()),
        skill_level: None,
        created_by: created_by.to_string(),
        is_public: Some(true),
    }
}

#[test]
fn test_create_league() {
    let mut store = Store::new();
    let league = create_league(&mut store, &league_input("Test League", "League Creator")).unwrap();
    assert_eq!(league.league_id, 1);
    assert_eq!(league.league_name, "Test League");
    assert_eq!(league.created_by, "League Creator");
    assert!(league.is_public);
    // The creator is seeded as the league's first admin member.
    let role = get_player_league_role(&store, "Test League", "League Creator").unwrap();
    assert_eq!(role.role, "admin");
    let by_id = get_league_by_id(&store, 1).unwrap();
    assert_eq!(by_id.league_name, "Test League");
    let by_name = get_league_by_name(&store, "Test League").unwrap();
    assert_eq!(by_name.league_id, 1);
}

#[test]
fn test_create_league_defaults_to_public() {
    let mut store = Store::new();
    let mut input = league_input("L", "A");
    input.is_public = None;
    let league = create_league(&mut store, &input).unwrap();
    assert!(league.is_public);
}

#[test]
fn test_create_league_is_atomic() {
    // A failure on the membership insert after a successful league insert
    // leaves zero league rows: no orphan league survives the rollback.
    let mut store = Store::new();
    let err = create_league_txn(
        &mut store,
        &league_input("Orphan League", "A"),
        1000,
        WriteOutcome::Succeeds,
        WriteOutcome::Fails,
    )
    .unwrap_err();
    assert!(matches!(err, AppError::InternalError));
    assert_eq!(err.status_code(), 500);
    assert!(get_league_by_name(&store, "Orphan League").is_err());
    assert_eq!(search_leagues(&store, &LeagueQuery { search: None }).len(), 0);
    assert!(get_player_league_role(&store, "Orphan League", "A").is_err());
    // A failed league insert rolls back just the same.
    let err2 = create_league_txn(
        &mut store,
        &league_input("Orphan League", "A"),
        1000,
        WriteOutcome::Fails,
        WriteOutcome::Succeeds,
    )
    .unwrap_err();
    assert!(matches!(err2, AppError::InternalError));
    assert_eq!(search_leagues(&store, &LeagueQuery { search: None }).len(), 0);
}

#[test]
fn test_create_league_duplicate_name() {
    let mut store = Store::new();
    assert!(create_league(&mut store, &league_input("L", "A")).is_ok());
    let err = create_league(&mut store, &league_input("L", "B")).unwrap_err();
    assert!(matches!(err, AppError::InternalError));
    assert_eq!(search_leagues(&store, &LeagueQuery { search: None }).len(), 1);
}

#[test]
fn test_join_league() {
    let mut store = Store::new();
    create_league(&mut store, &league_input("Joinable League", "League Admin")).unwrap();
    let joined = join_league(
        &mut store,
        "Joinable League",
        &JoinLeagueInput { player_id: "League Member".to_string() },
    );
    assert!(joined.is_ok());
    let role = get_player_league_role(&store, "Joinable League", "League Member").unwrap();
    assert_eq!(role.role, "player");
    // A second membership row for the same pair is refused.
    let err = join_league(
        &mut store,
        "Joinable League",
        &JoinLeagueInput { player_id: "League Member".to_string() },
    )
    .unwrap_err();
    assert!(matches!(err, AppError::InternalError));
}

#[test]
fn test_leave_league() {
    let mut store = Store::new();
    create_league(&mut store, &league_input("L", "A")).unwrap();
    join_league(&mut store, "L", &JoinLeagueInput { player_id: "B".to_string() }).unwrap();
    assert!(leave_league(&mut store, "L", &JoinLeagueInput { player_id: "B".to_string() }).is_ok());
    assert!(get_player_league_role(&store, "L", "B").is_err());
    // Deleting zero rows is not an error.
    assert!(leave_league(&mut store, "L", &JoinLeagueInput { player_id: "B".to_string() }).is_ok());
    // The creator's membership is untouched.
    assert_eq!(get_player_league_role(&store, "L", "A").unwrap().role, "admin");
}

#[test]
fn test_update_member_role() {
    let mut store = Store::new();
    create_league(&mut store, &league_input("L", "A")).unwrap();
    join_league(&mut store, "L", &JoinLeagueInput { player_id: "B".to_string() }).unwrap();
    let msg = update_member_role(
        &mut store,
        "L",
        "B",
        &UpdateRoleInput { role: "admin".to_string() },
    )
    .unwrap();
    assert_eq!(msg, "Updated player B in league L to role admin");
    assert_eq!(get_player_league_role(&store, "L", "B").unwrap().role, "admin");
}

#[test]
fn test_update_member_role_rejects_unknown_role() {
    let mut store = Store::new();
    create_league(&mut store, &league_input("L", "A")).unwrap();
    let err = update_member_role(
        &mut store,
        "L",
        "A",
        &UpdateRoleInput { role: "owner".to_string() },
    )
    .unwrap_err();
    assert!(matches!(err, AppError::BadRequest(_)));
    assert_eq!(err.message(), "Invalid role");
    assert_eq!(err.status_code(), 400);
    assert_eq!(get_player_league_role(&store, "L", "A").unwrap().role, "admin");
}

#[test]
fn test_search_leagues() {
    let mut store = Store::new();
    create_league(&mut store, &league_input("Viewable League", "A")).unwrap();
    create_league(&mut store, &league_input("Hidden Group", "A")).unwrap();
    let all = search_leagues(&store, &LeagueQuery { search: None });
    assert_eq!(all.len(), 2);
    let hits = search_leagues(&store, &LeagueQuery { search: Some("LEAGUE".to_string()) });
    assert_eq!(hits.len(), 1);
    assert_eq!(hits[0].league_name, "Viewable League");
    let none = search_leagues(&store, &LeagueQuery { search: Some("tennis".to_string()) });
    assert_eq!(none.len(), 0);
}

#[test]
fn test_get_league_by_id_not_found() {
    let store = Store::new();
    let err = get_league_by_id(&store, 9).unwrap_err();
    assert!(matches!(err, AppError::NotFound));
}

#[test]
fn test_get_league_players() {
    let mut store = Store::new();
    register(
        &mut store,
        &RegisterInput {
            name: "players_creator".to_string(),
            email: "creator@example.com".to_string(),
            password: "password123".to_string(),
            skill_level: Some("intermediate".to_string()),
        },
    )
    .unwrap();
    register(
        &mut store,
        &RegisterInput {
            name: "member".to_string(),
            email: "member@example.com".to_string(),
            password: "password123".to_string(),
            skill_level: None,
        },
    )
    .unwrap();
    create_league(&mut store, &league_input("Players League", "players_creator")).unwrap();
    join_league(
        &mut store,
        "Players League",
        &JoinLeagueInput { player_id: "member".to_string() },
    )
    .unwrap();
    let players = get_league_players(&store, "Players League");
    assert_eq!(players.len(), 2);
    assert_eq!(players[0].name, "players_creator");
    assert_eq!(players[0].email, "creator@example.com");
    assert_eq!(players[0].skill_level, Some("intermediate".to_string()));
    assert_eq!(players[0].role, "admin");
    assert_eq!(players[1].name, "member");
    assert_eq!(players[1].role, "player");
}

#[test]
fn test_join_requests() {
    let mut store = Store::new();
    create_league(&mut store, &league_input("L", "A")).unwrap();
    create_join_request(
        &mut store,
        "L",
        &JoinRequestInput {
            player_id: "B".to_string(),
            description: Some("I want to join this league".to_string()),
        },
    )
    .unwrap();
    let pending = get_league_join_requests(&store, "L");
    assert_eq!(pending.len(), 1);
    assert_eq!(pending[0].request_id, 1);
    assert_eq!(pending[0].player_id, "B");
    assert_eq!(pending[0].status, "pending");
    assert_eq!(pending[0].description, Some("I want to join this league".to_string()));
    // Requests of other leagues are not listed.
    assert_eq!(get_league_join_requests(&store, "M").len(), 0);
}

#[test]
fn test_resolve_join_request_leaves_membership_alone() {
    // Resolving a request to "accepted" updates its status and nothing
    // else: no membership row appears until the player actually joins.
    let mut store = Store::new();
    create_league(&mut store, &league_input("L", "A")).unwrap();
    create_join_request(
        &mut store,
        "L",
        &JoinRequestInput { player_id: "B".to_string(), description: None },
    )
    .unwrap();
    update_join_request_status(
        &mut store,
        "L",
        1,
        &UpdateJoinRequestInput { status: "accepted".to_string() },
    )
    .unwrap();
    assert_eq!(get_league_join_requests(&store, "L").len(), 0);
    assert!(get_player_league_role(&store, "L", "B").is_err());
    // Resolving a request that does not exist changes nothing and is not
    // an error.
    assert!(update_join_request_status(
        &mut store,
        "L",
        9,
        &UpdateJoinRequestInput { status: "rejected".to_string() },
    )
    .is_ok());
}
