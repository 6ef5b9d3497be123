use tennis_league::auth::{LoginError, LoginInput, RegisterInput, register, login};
use tennis_league::errors::AppError;
use tennis_league::model::Store;
use tennis_league::players::{
    SearchQuery, UpdateRoleInput, get_all_players, search_players, update_player_role,
};

fn register_input(name: &str, email: &str) -> RegisterInput {
    RegisterInput {
        name: name.to_string(),
        email: email.to_string(),
        password: "password123".to_string(),
        skill_level: Some("intermediate".to_string()),
    }
}

#[test]
fn test_register() {
    let mut store = Store::new();
    assert!(register(&mut store, &register_input("Test_User", "register@example.com")).is_ok());
    let players = get_all_players(&store);
    assert_eq!(players.len(), 1);
    assert_eq!(players[0].player_id, 1);
    assert_eq!(players[0].name, "Test_User");
    assert_eq!(players[0].email, "register@example.com");
    assert_eq!(players[0].skill_level, Some("intermediate".to_string()));
    assert!(players[0].role.is_none());
    // The stored password is a hash, never the cleartext.
    assert_ne!(players[0].password, "password123");
}

#[test]
fn test_login() {
    let mut store = Store::new();
    register(&mut store, &register_input("Login User", "login@example.com")).unwrap();
    let name = login(
        &store,
        &LoginInput {
            email: "login@example.com".to_string(),
            password: "password123".to_string(),
        },
    )
    .unwrap();
    assert_eq!(name, "Login User");
    let wrong = login(
        &store,
        &LoginInput {
            email: "login@example.com".to_string(),
            password: "password124".to_string(),
        },
    )
    .unwrap_err();
    assert_eq!(wrong, LoginError::InvalidCredentials);
    let unknown = login(
        &store,
        &LoginInput {
            email: "nobody@example.com".to_string(),
            password: "password123".to_string(),
        },
    )
    .unwrap_err();
    assert_eq!(unknown, LoginError::InvalidCredentials);
}

#[test]
fn test_register_duplicate_email() {
    let mut store = Store::new();
    assert!(register(&mut store, &register_input("Duplicate User 1", "duplicate@example.com")).is_ok());
    let err = register(&mut store, &register_input("Duplicate User 2", "duplicate@example.com"))
        .unwrap_err();
    assert!(matches!(err, AppError::InternalError));
    assert_eq!(get_all_players(&store).len(), 1);
}

#[test]
fn test_register_duplicate_name() {
    let mut store = Store::new();
    assert!(register(&mut store, &register_input("Same Name", "first@example.com")).is_ok());
    let err = register(&mut store, &register_input("Same Name", "second@example.com")).unwrap_err();
    assert!(matches!(err, AppError::InternalError));
    assert_eq!(get_all_players(&store).len(), 1);
}

#[test]
fn test_get_all_players() {
    let mut store = Store::new();
    register(&mut store, &register_input("Test User", "one@example.com")).unwrap();
    register(&mut store, &register_input("Other User", "two@example.com")).unwrap();
    let players = get_all_players(&store);
    assert_eq!(players.len(), 2);
    assert_eq!(players[0].name, "Test User");
    assert_eq!(players[1].name, "Other User");
    assert_eq!(players[1].player_id, 2);
}

#[test]
fn test_search_players() {
    let mut store = Store::new();
    register(&mut store, &register_input("Searchable User", "s@example.com")).unwrap();
    register(&mut store, &register_input("Another Person", "a@example.com")).unwrap();
    let hits = search_players(&store, &SearchQuery { name: "searchable".to_string() });
    assert_eq!(hits.len(), 1);
    assert_eq!(hits[0].name, "Searchable User");
    let misses = search_players(&store, &SearchQuery { name: "missing".to_string() });
    assert_eq!(misses.len(), 0);
    let all = search_players(&store, &SearchQuery { name: "".to_string() });
    assert_eq!(all.len(), 2);
}

#[test]
fn test_update_player_role() {
    let mut store = Store::new();
    register(&mut store, &register_input("Role Update User", "role@example.com")).unwrap();
    assert!(update_player_role(
        &mut store,
        "Role Update User",
        &UpdateRoleInput { role: "admin".to_string() },
    )
    .is_ok());
    let players = get_all_players(&store);
    assert_eq!(players[0].role, Some("admin".to_string()));
    assert_eq!(players[0].name, "Role Update User");
    // Updating a name with no player row changes nothing and is not an
    // error.
    assert!(update_player_role(
        &mut store,
        "Nobody",
        &UpdateRoleInput { role: "admin".to_string() },
    )
    .is_ok());
    assert_eq!(get_all_players(&store).len(), 1);
}
