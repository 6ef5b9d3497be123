//! The league membership manager: league creation with its transactional
//! admin seed, join/leave, role assignment, league queries, and the
//! asynchronous join-request workflow.
//!
//! League creation runs two statements — the league insert and the
//! creator's admin membership insert — as one transaction: either both
//! rows land or neither does.  [`create_league_txn`] takes the outcome
//! the persistence collaborator reports for each statement, so the
//! rollback guarantee is stated and proved for a failure at either point.

use vstd::prelude::*;
use crate::errors::{AppError, AppErrorView};
use crate::model::{
    League, LeagueJoinRequest, LeaguePlayer, Player, Store, StoreView, find_membership_index,
    has_league_id, is_member, league_index_by_id, league_index_by_name, league_name_taken,
    lemma_league_id_index_unique, lemma_league_name_index_unique, lemma_membership_index_unique,
    membership_index, member_exists, wf,
};
use crate::strutil::{contains_ci, str_contains_ci, str_eq};
use crate::clock::now_timestamp;

verus! {

/// The fields a caller supplies to create a league.
pub struct CreateLeagueInput {
    pub league_name: String,
    pub description: Option<String>,
    pub skill_level: Option<String>,
    pub created_by: String,
    pub is_public: Option<bool>,
}

/// The player joining or leaving a league.
pub struct JoinLeagueInput {
    pub player_id: String,
}

/// An optional case-insensitive name filter for listing leagues.
pub struct LeagueQuery {
    pub search: Option<String>,
}

/// The new league-scoped role for a member.
pub struct UpdateRoleInput {
    pub role: String,
}

/// One row of a league's member listing.
pub struct LeaguePlayerInfo {
    pub name: String,
    pub email: String,
    pub skill_level: Option<String>,
    pub role: String,
}

/// A member's league-scoped role, on its own.
pub struct PlayerLeagueRole {
    pub role: String,
}

/// The player applying to join a league, with an optional description.
pub struct JoinRequestInput {
    pub player_id: String,
    pub description: Option<String>,
}

/// The resolution a join request is updated to ("accepted" or
/// "rejected").
pub struct UpdateJoinRequestInput {
    pub status: String,
}

/// The outcome the persistence collaborator reports for one write
/// statement of a transaction.
#[derive(Clone, Copy, PartialEq, Eq, Structural, Debug)]
pub enum WriteOutcome {
    Succeeds,
    Fails,
}

/// Everything but the membership table is the same in both stores.
pub open spec fn same_except_memberships(s0: StoreView, s1: StoreView) -> bool {
    &&& s1.players == s0.players
    &&& s1.leagues == s0.leagues
    &&& s1.matches == s0.matches
    &&& s1.join_requests == s0.join_requests
    &&& s1.appointments == s0.appointments
    &&& s1.next_player_id == s0.next_player_id
    &&& s1.next_league_id == s0.next_league_id
    &&& s1.next_match_id == s0.next_match_id
    &&& s1.next_request_id == s0.next_request_id
    &&& s1.next_appointment_id == s0.next_appointment_id
}

/// Everything but the league and membership tables and the league counter
/// is the same in both stores.
pub open spec fn same_except_leagues_and_memberships(s0: StoreView, s1: StoreView) -> bool {
    &&& s1.players == s0.players
    &&& s1.matches == s0.matches
    &&& s1.join_requests == s0.join_requests
    &&& s1.appointments == s0.appointments
    &&& s1.next_player_id == s0.next_player_id
    &&& s1.next_match_id == s0.next_match_id
    &&& s1.next_request_id == s0.next_request_id
    &&& s1.next_appointment_id == s0.next_appointment_id
}

/// What blocks a league creation: the name is already taken, or a
/// membership row already ties the creator to that league name (both are
/// storage-constraint violations, reported opaquely).
pub open spec fn create_league_blocked(s: StoreView, name: Seq<char>, created_by: Seq<char>) -> bool {
    league_name_taken(s.leagues, name) || is_member(s.memberships, created_by, name)
}

/// A freshly created league row: every field taken from the caller's
/// input, visibility defaulting to public, identifier and creation time
/// as given.
pub open spec fn new_league_row(l: League, input: CreateLeagueInput, id: i32, now: i64) -> bool {
    &&& l.league_id == id
    &&& l.league_name == input.league_name
    &&& l.skill_level == input.skill_level
    &&& l.is_public == (match input.is_public {
        Some(b) => b,
        None => true,
    })
    &&& l.description == input.description
    &&& l.created_by == input.created_by
    &&& l.created_at == now
}

/// The creator's membership row seeded with the league: keyed by the
/// league's name, role "admin", no rankings yet.
pub open spec fn admin_membership_row(m: LeaguePlayer, l: League, now: i64) -> bool {
    &&& m.player_id == l.created_by
    &&& m.league_id == l.league_name
    &&& m.role@ == "admin"@
    &&& m.singles_ranking is None
    &&& m.doubles_ranking is None
    &&& m.joined_at == now
}

/// The store after a successful league creation: the league row and the
/// creator's admin membership row both appended, the league counter
/// advanced, nothing else touched.
pub open spec fn create_league_effect(
    s0: StoreView,
    s1: StoreView,
    l: League,
    input: CreateLeagueInput,
    now: i64,
) -> bool {
    &&& same_except_leagues_and_memberships(s0, s1)
    &&& s1.next_league_id == s0.next_league_id + 1
    &&& s1.leagues == s0.leagues.push(l)
    &&& new_league_row(l, input, s0.next_league_id, now)
    &&& s1.memberships == s0.memberships.push(s1.memberships.last())
    &&& admin_membership_row(s1.memberships.last(), l, now)
}

/// Create a league and seed the creator's admin membership in one
/// transaction, with the persistence outcome of each statement given by
/// the caller.  A failure of either write — in particular of the
/// membership insert after a successful league insert — leaves the store
/// exactly as it was: no orphan league row survives.
pub fn create_league_txn(
    store: &mut Store,
    input: &CreateLeagueInput,
    now: i64,
    league_write: WriteOutcome,
    membership_write: WriteOutcome,
) -> (r: Result<League, AppError>)
    requires
        wf(old(store)@),
        old(store)@.next_league_id < i32::MAX,
    ensures
        wf(final(store)@),
        r is Err <==> (create_league_blocked(old(store)@, input.league_name@, input.created_by@)
            || league_write == WriteOutcome::Fails || membership_write == WriteOutcome::Fails),
        r matches Err(e) ==> e@ == AppErrorView::InternalError && final(store)@ == old(store)@,
        r matches Ok(l) ==> create_league_effect(old(store)@, final(store)@, l, *input, now),
{
    let name_taken = {
        let n = store.leagues.len();
        let mut i: usize = 0;
        let mut taken = false;
        while i < n
            invariant
                n == store@.leagues.len(),
                i <= n,
                taken == exists|j: int|
                    0 <= j < i && #[trigger] store@.leagues[j].league_name@ == input.league_name@,
            decreases n - i,
        {
            if str_eq(store.leagues[i].league_name.as_str(), input.league_name.as_str()) {
                taken = true;
            }
            i += 1;
        }
        taken
    };
    if name_taken {
        return Err(AppError::InternalError);
    }
    if member_exists(&store.memberships, input.created_by.as_str(), input.league_name.as_str()) {
        return Err(AppError::InternalError);
    }
    if matches!(league_write, WriteOutcome::Fails) || matches!(
        membership_write,
        WriteOutcome::Fails,
    ) {
        return Err(AppError::InternalError);
    }
    let id = store.next_league_id;
    let league = League {
        league_id: id,
        league_name: input.league_name.clone(),
        skill_level: clone_opt(&input.skill_level),
        is_public: match input.is_public {
            Some(b) => b,
            None => true,
        },
        description: clone_opt(&input.description),
        created_by: input.created_by.clone(),
        created_at: now,
    };
    let returned = league.clone();
    let membership = LeaguePlayer {
        player_id: input.created_by.clone(),
        league_id: input.league_name.clone(),
        role: "admin".to_owned(),
        singles_ranking: None,
        doubles_ranking: None,
        joined_at: now,
    };
    store.leagues.push(league);
    store.memberships.push(membership);
    store.next_league_id = id + 1;
    Ok(returned)
}

fn clone_opt(o: &Option<String>) -> (r: Option<String>)
    ensures
        r == *o,
{
    match o {
        Some(s) => Some(s.clone()),
        None => None,
    }
}

/// Create a league at the current clock time, with both writes
/// persisting.  The creator becomes the league's first admin member,
/// transactionally.
pub fn create_league(store: &mut Store, input: &CreateLeagueInput) -> (r: Result<League, AppError>)
    requires
        wf(old(store)@),
        old(store)@.next_league_id < i32::MAX,
    ensures
        wf(final(store)@),
        r is Err <==> create_league_blocked(old(store)@, input.league_name@, input.created_by@),
        r matches Err(e) ==> e@ == AppErrorView::InternalError && final(store)@ == old(store)@,
        r matches Ok(l) ==> create_league_effect(old(store)@, final(store)@, l, *input, l.created_at),
{
    let now = now_timestamp();
    create_league_txn(store, input, now, WriteOutcome::Succeeds, WriteOutcome::Succeeds)
}

/// A membership row appended by a join: the given player in the given
/// league, role "player", no rankings yet.
pub open spec fn player_membership_row(
    m: LeaguePlayer,
    player_id: String,
    league: Seq<char>,
    now: i64,
) -> bool {
    &&& m.player_id == player_id
    &&& m.league_id@ == league
    &&& m.role@ == "player"@
    &&& m.singles_ranking is None
    &&& m.doubles_ranking is None
    &&& m.joined_at == now
}

/// Join a league at instant `now`: append a membership row with role
/// "player".  A second membership for the same (player, league) pair is a
/// storage-constraint violation, reported opaquely.
pub fn join_league_at(store: &mut Store, league_id: &str, input: &JoinLeagueInput, now: i64) -> (r:
    Result<(), AppError>)
    requires
        wf(old(store)@),
    ensures
        wf(final(store)@),
        r is Err <==> is_member(old(store)@.memberships, input.player_id@, league_id@),
        r matches Err(e) ==> e@ == AppErrorView::InternalError && final(store)@ == old(store)@,
        r is Ok ==> same_except_memberships(old(store)@, final(store)@) && final(store)@.memberships
            == old(store)@.memberships.push(final(store)@.memberships.last())
            && player_membership_row(
            final(store)@.memberships.last(),
            input.player_id,
            league_id@,
            now,
        ),
{
    if member_exists(&store.memberships, input.player_id.as_str(), league_id) {
        return Err(AppError::InternalError);
    }
    let row = LeaguePlayer {
        player_id: input.player_id.clone(),
        league_id: league_id.to_owned(),
        role: "player".to_owned(),
        singles_ranking: None,
        doubles_ranking: None,
        joined_at: now,
    };
    store.memberships.push(row);
    Ok(())
}

/// Join a league at the current clock time.
pub fn join_league(store: &mut Store, league_id: &str, input: &JoinLeagueInput) -> (r: Result<
    (),
    AppError,
>)
    requires
        wf(old(store)@),
    ensures
        wf(final(store)@),
        r is Err <==> is_member(old(store)@.memberships, input.player_id@, league_id@),
        r matches Err(e) ==> e@ == AppErrorView::InternalError && final(store)@ == old(store)@,
        r is Ok ==> same_except_memberships(old(store)@, final(store)@) && final(store)@.memberships
            == old(store)@.memberships.push(final(store)@.memberships.last())
            && player_membership_row(
            final(store)@.memberships.last(),
            input.player_id,
            league_id@,
            final(store)@.memberships.last().joined_at,
        ),
{
    let now = now_timestamp();
    join_league_at(store, league_id, input, now)
}

/// Leave a league: delete the membership row for (player, league).
/// Deleting zero rows is not an error.
pub fn leave_league(store: &mut Store, league_id: &str, input: &JoinLeagueInput) -> (r: Result<
    (),
    AppError,
>)
    requires
        wf(old(store)@),
    ensures
        wf(final(store)@),
        r is Ok,
        same_except_memberships(old(store)@, final(store)@),
        final(store)@.memberships == if is_member(
            old(store)@.memberships,
            input.player_id@,
            league_id@,
        ) {
            old(store)@.memberships.remove(
                membership_index(old(store)@.memberships, input.player_id@, league_id@),
            )
        } else {
            old(store)@.memberships
        },
{
    match find_membership_index(&store.memberships, input.player_id.as_str(), league_id) {
        Some(i) => {
            proof {
                lemma_membership_index_unique(
                    store@.memberships,
                    input.player_id@,
                    league_id@,
                    i as int,
                );
            }
            store.memberships.remove(i);
            proof {
                let s0 = old(store)@.memberships;
                let s1 = store@.memberships;
                assert forall|a: int, b: int| 0 <= a < b < s1.len() implies !(
                    #[trigger] s1[a].player_id@ == #[trigger] s1[b].player_id@ && s1[a].league_id@
                    == s1[b].league_id@) by {
                    let a0: int = if a < i { a } else { a + 1 };
                    let b0: int = if b < i { b } else { b + 1 };
                    assert(s1[a] == s0[a0]);
                    assert(s1[b] == s0[b0]);
                }
            }
        },
        None => {},
    }
    Ok(())
}

/// The league-scoped roles a member can hold.
pub open spec fn role_is_valid(role: Seq<char>) -> bool {
    role == "admin"@ || role == "player"@
}

/// The two membership rows agree on every field but `role`.
pub open spec fn same_but_role(a: LeaguePlayer, b: LeaguePlayer) -> bool {
    &&& b.player_id == a.player_id
    &&& b.league_id == a.league_id
    &&& b.singles_ranking == a.singles_ranking
    &&& b.doubles_ranking == a.doubles_ranking
    &&& b.joined_at == a.joined_at
}

/// The confirmation message a role update returns.
pub open spec fn updated_role_message(player: Seq<char>, league: Seq<char>, role: Seq<char>) -> Seq<
    char,
> {
    "Updated player "@ + player + " in league "@ + league + " to role "@ + role
}

/// Overwrite a member's league-scoped role.  The new role must be one of
/// "admin" or "player"; updating a pair with no membership row changes
/// nothing and is not an error.
pub fn update_member_role(
    store: &mut Store,
    league_id: &str,
    player_id: &str,
    input: &UpdateRoleInput,
) -> (r: Result<String, AppError>)
    requires
        wf(old(store)@),
    ensures
        wf(final(store)@),
        r is Err <==> !role_is_valid(input.role@),
        r matches Err(e) ==> e@ == AppErrorView::BadRequest("Invalid role"@) && final(store)@
            == old(store)@,
        r matches Ok(msg) ==> msg@ == updated_role_message(player_id@, league_id@, input.role@)
            && same_except_memberships(old(store)@, final(store)@),
        r is Ok ==> if is_member(old(store)@.memberships, player_id@, league_id@) {
            let k = membership_index(old(store)@.memberships, player_id@, league_id@);
            &&& final(store)@.memberships == old(store)@.memberships.update(
                k,
                final(store)@.memberships[k],
            )
            &&& final(store)@.memberships[k].role@ == input.role@
            &&& same_but_role(old(store)@.memberships[k], final(store)@.memberships[k])
        } else {
            final(store)@.memberships == old(store)@.memberships
        },
{
    if !(str_eq(input.role.as_str(), "admin") || str_eq(input.role.as_str(), "player")) {
        return Err(AppError::BadRequest("Invalid role".to_owned()));
    }
    match find_membership_index(&store.memberships, player_id, league_id) {
        Some(k) => {
            proof {
                lemma_membership_index_unique(store@.memberships, player_id@, league_id@, k as int);
            }
            let mut row = store.memberships.remove(k);
            row.role = input.role.clone();
            store.memberships.insert(k, row);
            proof {
                let s0 = old(store)@.memberships;
                let s1 = store@.memberships;
                assert(s1 =~= s0.update(k as int, s1[k as int]));
                assert forall|a: int, b: int| 0 <= a < b < s1.len() implies !(
                    #[trigger] s1[a].player_id@ == #[trigger] s1[b].player_id@ && s1[a].league_id@
                    == s1[b].league_id@) by {
                    assert(s1[a].player_id@ == s0[a].player_id@ && s1[a].league_id@
                        == s0[a].league_id@);
                    assert(s1[b].player_id@ == s0[b].player_id@ && s1[b].league_id@
                        == s0[b].league_id@);
                }
            }
        },
        None => {},
    }
    let mut msg = "Updated player ".to_owned();
    msg.append(player_id);
    msg.append(" in league ");
    msg.append(league_id);
    msg.append(" to role ");
    msg.append(input.role.as_str());
    proof {
        assert(msg@ =~= updated_role_message(player_id@, league_id@, input.role@));
    }
    Ok(msg)
}

/// Whether a league passes the optional case-insensitive name filter.
pub open spec fn league_matches_query(l: League, q: LeagueQuery) -> bool {
    q.search matches Some(t) ==> contains_ci(l.league_name@, t@)
}

/// The leagues whose name contains the searched term (case-insensitive);
/// all leagues when no term is given.
pub fn search_leagues(store: &Store, query: &LeagueQuery) -> (r: Vec<League>)
    ensures
        r@ == store@.leagues.filter(|l: League| league_matches_query(l, *query)),
{
    let mut r: Vec<League> = Vec::new();
    let n = store.leagues.len();
    let mut i: usize = 0;
    proof {
        assert(store@.leagues.take(0).filter(|l: League| league_matches_query(l, *query))
            =~= Seq::<League>::empty());
    }
    while i < n
        invariant
            n == store@.leagues.len(),
            i <= n,
            r@ == store@.leagues.take(i as int).filter(|l: League| league_matches_query(l, *query)),
        decreases n - i,
    {
        let keep = match &query.search {
            Some(t) => str_contains_ci(store.leagues[i].league_name.as_str(), t.as_str()),
            None => true,
        };
        if keep {
            r.push(store.leagues[i].clone());
        }
        i += 1;
        proof {
            crate::model::lemma_filter_take_step(
                store@.leagues,
                |l: League| league_matches_query(l, *query),
                i - 1,
            );
        }
    }
    proof {
        assert(store@.leagues.take(n as int) =~= store@.leagues);
    }
    r
}

/// The league carrying `league_id`, or `NotFound`.
pub fn get_league_by_id(store: &Store, league_id: i32) -> (r: Result<League, AppError>)
    requires
        wf(store@),
    ensures
        r is Ok <==> has_league_id(store@.leagues, league_id),
        r matches Ok(l) ==> l == store@.leagues[league_index_by_id(store@.leagues, league_id)],
        r matches Err(e) ==> e@ == AppErrorView::NotFound,
{
    let n = store.leagues.len();
    let mut i: usize = 0;
    while i < n
        invariant
            wf(store@),
            n == store@.leagues.len(),
            i <= n,
            forall|j: int| 0 <= j < i ==> #[trigger] store@.leagues[j].league_id != league_id,
        decreases n - i,
    {
        if store.leagues[i].league_id == league_id {
            proof {
                lemma_league_id_index_unique(store@.leagues, league_id, i as int);
            }
            return Ok(store.leagues[i].clone());
        }
        i += 1;
    }
    Err(AppError::NotFound)
}

/// The league named `name`, or `NotFound`.
pub fn get_league_by_name(store: &Store, name: &str) -> (r: Result<League, AppError>)
    requires
        wf(store@),
    ensures
        r is Ok <==> league_name_taken(store@.leagues, name@),
        r matches Ok(l) ==> l == store@.leagues[league_index_by_name(store@.leagues, name@)],
        r matches Err(e) ==> e@ == AppErrorView::NotFound,
{
    let n = store.leagues.len();
    let mut i: usize = 0;
    while i < n
        invariant
            wf(store@),
            n == store@.leagues.len(),
            i <= n,
            forall|j: int| 0 <= j < i ==> #[trigger] store@.leagues[j].league_name@ != name@,
        decreases n - i,
    {
        if str_eq(store.leagues[i].league_name.as_str(), name) {
            proof {
                lemma_league_name_index_unique(store@.leagues, name@, i as int);
            }
            return Ok(store.leagues[i].clone());
        }
        i += 1;
    }
    Err(AppError::NotFound)
}

/// The member listing entry for player `p` of a league.
pub open spec fn league_player_info(s: StoreView, league: Seq<char>, p: Player) -> LeaguePlayerInfo {
    LeaguePlayerInfo {
        name: p.name,
        email: p.email,
        skill_level: p.skill_level,
        role: s.memberships[membership_index(s.memberships, p.name@, league)].role,
    }
}

/// The players of a league joined with their membership rows: name,
/// email, skill level, and league-scoped role, in player-table order.
pub fn get_league_players(store: &Store, league_id: &str) -> (r: Vec<LeaguePlayerInfo>)
    requires
        wf(store@),
    ensures
        r@ == store@.players.filter(
            |p: Player| is_member(store@.memberships, p.name@, league_id@),
        ).map_values(|p: Player| league_player_info(store@, league_id@, p)),
{
    let mut r: Vec<LeaguePlayerInfo> = Vec::new();
    let n = store.players.len();
    let mut i: usize = 0;
    proof {
        assert(store@.players.take(0).filter(
            |p: Player| is_member(store@.memberships, p.name@, league_id@),
        ).map_values(|p: Player| league_player_info(store@, league_id@, p))
            =~= Seq::<LeaguePlayerInfo>::empty());
    }
    while i < n
        invariant
            wf(store@),
            n == store@.players.len(),
            i <= n,
            r@ == store@.players.take(i as int).filter(
                |p: Player| is_member(store@.memberships, p.name@, league_id@),
            ).map_values(|p: Player| league_player_info(store@, league_id@, p)),
        decreases n - i,
    {
        let ghost pred = |p: Player| is_member(store@.memberships, p.name@, league_id@);
        let ghost f = |p: Player| league_player_info(store@, league_id@, p);
        let ghost prev = store@.players.take(i as int).filter(pred);
        match find_membership_index(&store.memberships, store.players[i].name.as_str(), league_id) {
            Some(mi) => {
                proof {
                    lemma_membership_index_unique(
                        store@.memberships,
                        store@.players[i as int].name@,
                        league_id@,
                        mi as int,
                    );
                }
                let info = LeaguePlayerInfo {
                    name: store.players[i].name.clone(),
                    email: store.players[i].email.clone(),
                    skill_level: clone_opt(&store.players[i].skill_level),
                    role: store.memberships[mi].role.clone(),
                };
                proof {
                    assert(info == f(store@.players[i as int]));
                }
                r.push(info);
                proof {
                    assert(prev.push(store@.players[i as int]).map_values(f) =~= prev.map_values(
                        f,
                    ).push(f(store@.players[i as int])));
                }
            },
            None => {},
        }
        i += 1;
        proof {
            crate::model::lemma_filter_take_step(store@.players, pred, i - 1);
        }
    }
    proof {
        assert(store@.players.take(n as int) =~= store@.players);
    }
    r
}

/// The league-scoped role of `player_name` in the league, or `NotFound`
/// when no membership row ties them.
pub fn get_player_league_role(store: &Store, league_id: &str, player_name: &str) -> (r: Result<
    PlayerLeagueRole,
    AppError,
>)
    requires
        wf(store@),
    ensures
        r is Ok <==> is_member(store@.memberships, player_name@, league_id@),
        r matches Ok(pr) ==> pr.role == store@.memberships[membership_index(
            store@.memberships,
            player_name@,
            league_id@,
        )].role,
        r matches Err(e) ==> e@ == AppErrorView::NotFound,
{
    match find_membership_index(&store.memberships, player_name, league_id) {
        Some(k) => {
            proof {
                lemma_membership_index_unique(store@.memberships, player_name@, league_id@, k as int);
            }
            Ok(PlayerLeagueRole { role: store.memberships[k].role.clone() })
        },
        None => Err(AppError::NotFound),
    }
}

/// Everything but the join-request table and its counter is the same in
/// both stores.
pub open spec fn same_except_join_requests(s0: StoreView, s1: StoreView) -> bool {
    &&& s1.players == s0.players
    &&& s1.leagues == s0.leagues
    &&& s1.memberships == s0.memberships
    &&& s1.matches == s0.matches
    &&& s1.appointments == s0.appointments
    &&& s1.next_player_id == s0.next_player_id
    &&& s1.next_league_id == s0.next_league_id
    &&& s1.next_match_id == s0.next_match_id
    &&& s1.next_appointment_id == s0.next_appointment_id
}

/// A freshly created join request: status "pending", no resolution notes.
pub open spec fn new_join_request_row(
    jr: LeagueJoinRequest,
    input: JoinRequestInput,
    league: Seq<char>,
    id: i32,
    now: i64,
) -> bool {
    &&& jr.request_id == id
    &&& jr.league_id@ == league
    &&& jr.player_id == input.player_id
    &&& jr.description == input.description
    &&& jr.status@ == "pending"@
    &&& jr.created_at == now
    &&& jr.notes is None
}

/// File a join request at instant `now`: append a "pending" request row.
pub fn create_join_request_at(
    store: &mut Store,
    league_id: &str,
    input: &JoinRequestInput,
    now: i64,
) -> (r: Result<(), AppError>)
    requires
        wf(old(store)@),
        old(store)@.next_request_id < i32::MAX,
    ensures
        wf(final(store)@),
        r is Ok,
        same_except_join_requests(old(store)@, final(store)@),
        final(store)@.next_request_id == old(store)@.next_request_id + 1,
        final(store)@.join_requests == old(store)@.join_requests.push(
            final(store)@.join_requests.last(),
        ),
        new_join_request_row(
            final(store)@.join_requests.last(),
            *input,
            league_id@,
            old(store)@.next_request_id,
            now,
        ),
{
    let id = store.next_request_id;
    let row = LeagueJoinRequest {
        request_id: id,
        league_id: league_id.to_owned(),
        player_id: input.player_id.clone(),
        description: clone_opt(&input.description),
        status: "pending".to_owned(),
        created_at: now,
        notes: None,
    };
    store.join_requests.push(row);
    store.next_request_id = id + 1;
    Ok(())
}

/// File a join request at the current clock time.
pub fn create_join_request(store: &mut Store, league_id: &str, input: &JoinRequestInput) -> (r:
    Result<(), AppError>)
    requires
        wf(old(store)@),
        old(store)@.next_request_id < i32::MAX,
    ensures
        wf(final(store)@),
        r is Ok,
        same_except_join_requests(old(store)@, final(store)@),
        final(store)@.next_request_id == old(store)@.next_request_id + 1,
        final(store)@.join_requests == old(store)@.join_requests.push(
            final(store)@.join_requests.last(),
        ),
        new_join_request_row(
            final(store)@.join_requests.last(),
            *input,
            league_id@,
            old(store)@.next_request_id,
            final(store)@.join_requests.last().created_at,
        ),
{
    let now = now_timestamp();
    create_join_request_at(store, league_id, input, now)
}

/// Whether a join request belongs to the league and still awaits
/// resolution.
pub open spec fn pending_request_in(jr: LeagueJoinRequest, league: Seq<char>) -> bool {
    jr.league_id@ == league && jr.status@ == "pending"@
}

/// The still-pending join requests of a league, in table order.
pub fn get_league_join_requests(store: &Store, league_id: &str) -> (r: Vec<LeagueJoinRequest>)
    ensures
        r@ == store@.join_requests.filter(
            |jr: LeagueJoinRequest| pending_request_in(jr, league_id@),
        ),
{
    let mut r: Vec<LeagueJoinRequest> = Vec::new();
    let n = store.join_requests.len();
    let mut i: usize = 0;
    proof {
        assert(store@.join_requests.take(0).filter(
            |jr: LeagueJoinRequest| pending_request_in(jr, league_id@),
        ) =~= Seq::<LeagueJoinRequest>::empty());
    }
    while i < n
        invariant
            n == store@.join_requests.len(),
            i <= n,
            r@ == store@.join_requests.take(i as int).filter(
                |jr: LeagueJoinRequest| pending_request_in(jr, league_id@),
            ),
        decreases n - i,
    {
        if str_eq(store.join_requests[i].league_id.as_str(), league_id) && str_eq(
            store.join_requests[i].status.as_str(),
            "pending",
        ) {
            r.push(store.join_requests[i].clone());
        }
        i += 1;
        proof {
            crate::model::lemma_filter_take_step(
                store@.join_requests,
                |jr: LeagueJoinRequest| pending_request_in(jr, league_id@),
                i - 1,
            );
        }
    }
    proof {
        assert(store@.join_requests.take(n as int) =~= store@.join_requests);
    }
    r
}

/// Whether a request row carries `rid` within the given league.
pub open spec fn has_request(s: Seq<LeagueJoinRequest>, league: Seq<char>, rid: i32) -> bool {
    exists|i: int| 0 <= i < s.len() && s[i].request_id == rid && s[i].league_id@ == league
}

/// The index of that request row (unique under [`wf`]).
pub open spec fn request_index(s: Seq<LeagueJoinRequest>, league: Seq<char>, rid: i32) -> int {
    choose|i: int| 0 <= i < s.len() && s[i].request_id == rid && s[i].league_id@ == league
}

/// The two request rows agree on every field but `status`.
pub open spec fn same_but_request_status(a: LeagueJoinRequest, b: LeagueJoinRequest) -> bool {
    &&& b.request_id == a.request_id
    &&& b.league_id == a.league_id
    &&& b.player_id == a.player_id
    &&& b.description == a.description
    &&& b.created_at == a.created_at
    &&& b.notes == a.notes
}

proof fn lemma_request_index_unique(s: Seq<LeagueJoinRequest>, league: Seq<char>, rid: i32, i: int)
    requires
        forall|a: int, b: int|
            0 <= a < b < s.len() ==> #[trigger] s[a].request_id != #[trigger] s[b].request_id,
        0 <= i < s.len(),
        s[i].request_id == rid,
        s[i].league_id@ == league,
    ensures
        request_index(s, league, rid) == i,
        has_request(s, league, rid),
{
    assert(has_request(s, league, rid));
    let k = request_index(s, league, rid);
    if k < i {
        assert(s[k].request_id != s[i].request_id);
    } else if i < k {
        assert(s[i].request_id != s[k].request_id);
    }
}

/// Resolve a join request: overwrite its status with the caller-supplied
/// value.  Resolving to "accepted" does not itself create a membership
/// row — joining stays a separate step.  Updating a request that does not
/// exist in the league changes nothing and is not an error.
pub fn update_join_request_status(
    store: &mut Store,
    league_id: &str,
    request_id: i32,
    input: &UpdateJoinRequestInput,
) -> (r: Result<(), AppError>)
    requires
        wf(old(store)@),
    ensures
        wf(final(store)@),
        r is Ok,
        same_except_join_requests(old(store)@, final(store)@),
        final(store)@.next_request_id == old(store)@.next_request_id,
        if has_request(old(store)@.join_requests, league_id@, request_id) {
            let k = request_index(old(store)@.join_requests, league_id@, request_id);
            &&& final(store)@.join_requests == old(store)@.join_requests.update(
                k,
                final(store)@.join_requests[k],
            )
            &&& final(store)@.join_requests[k].status@ == input.status@
            &&& same_but_request_status(
                old(store)@.join_requests[k],
                final(store)@.join_requests[k],
            )
        } else {
            final(store)@.join_requests == old(store)@.join_requests
        },
{
    match find_request_index(&store.join_requests, league_id, request_id) {
        Some(i) => {
            proof {
                lemma_request_index_unique(store@.join_requests, league_id@, request_id, i as int);
            }
            let mut row = store.join_requests.remove(i);
            row.status = input.status.clone();
            store.join_requests.insert(i, row);
            proof {
                let s0 = old(store)@.join_requests;
                let s1 = store@.join_requests;
                assert(s1 =~= s0.update(i as int, s1[i as int]));
                assert forall|a: int, b: int| 0 <= a < b < s1.len() implies #[trigger] s1[a].request_id
                    != #[trigger] s1[b].request_id by {
                    assert(s1[a].request_id == s0[a].request_id);
                    assert(s1[b].request_id == s0[b].request_id);
                }
                assert forall|a: int| 0 <= a < s1.len() implies #[trigger] s1[a].request_id
                    < store@.next_request_id by {
                    assert(s1[a].request_id == s0[a].request_id);
                }
            }
        },
        None => {},
    }
    Ok(())
}

fn find_request_index(v: &Vec<LeagueJoinRequest>, league_id: &str, request_id: i32) -> (r: Option<
    usize,
>)
    ensures
        match r {
            Some(i) => i < v@.len() && v@[i as int].request_id == request_id && v@[i as int].league_id@
                == league_id@,
            None => !has_request(v@, league_id@, request_id),
        },
{
    let n = v.len();
    let mut i: usize = 0;
    while i < n
        invariant
            n == v@.len(),
            i <= n,
            forall|j: int|
                0 <= j < i ==> !(#[trigger] v@[j].request_id == request_id && v@[j].league_id@
                    == league_id@),
        decreases n - i,
    {
        if v[i].request_id == request_id && str_eq(v[i].league_id.as_str(), league_id) {
            return Some(i);
        }
        i += 1;
    }
    None
}

} // verus!
