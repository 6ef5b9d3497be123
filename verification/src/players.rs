//! Player queries and app-wide role updates.

use vstd::prelude::*;
use crate::errors::AppError;
use crate::model::{
    Player, Store, StoreView, lemma_filter_take_step, lemma_player_name_index_unique,
    player_index_by_name, player_name_taken, wf,
};
use crate::strutil::{contains_ci, str_contains_ci, str_eq};

verus! {

/// A case-insensitive name filter for searching players.
pub struct SearchQuery {
    pub name: String,
}

/// The new app-wide role for a player.
pub struct UpdateRoleInput {
    pub role: String,
}

/// Everything but the player table and its counter is the same in both
/// stores.
pub open spec fn same_except_players(s0: StoreView, s1: StoreView) -> bool {
    &&& s1.leagues == s0.leagues
    &&& s1.memberships == s0.memberships
    &&& s1.matches == s0.matches
    &&& s1.join_requests == s0.join_requests
    &&& s1.appointments == s0.appointments
    &&& s1.next_league_id == s0.next_league_id
    &&& s1.next_match_id == s0.next_match_id
    &&& s1.next_request_id == s0.next_request_id
    &&& s1.next_appointment_id == s0.next_appointment_id
}

/// Every player row, in table order.
pub fn get_all_players(store: &Store) -> (r: Vec<Player>)
    ensures
        r@ == store@.players,
{
    let mut r: Vec<Player> = Vec::new();
    let n = store.players.len();
    let mut i: usize = 0;
    while i < n
        invariant
            n == store@.players.len(),
            i <= n,
            r@ == store@.players.take(i as int),
        decreases n - i,
    {
        r.push(store.players[i].clone());
        proof {
            assert(store@.players.take(i + 1) =~= store@.players.take(i as int).push(
                store@.players[i as int],
            ));
        }
        i += 1;
    }
    proof {
        assert(store@.players.take(n as int) =~= store@.players);
    }
    r
}

/// The players whose name contains the searched term, case-insensitively,
/// in table order.
pub fn search_players(store: &Store, query: &SearchQuery) -> (r: Vec<Player>)
    ensures
        r@ == store@.players.filter(|p: Player| contains_ci(p.name@, query.name@)),
{
    let mut r: Vec<Player> = Vec::new();
    let n = store.players.len();
    let mut i: usize = 0;
    proof {
        assert(store@.players.take(0).filter(|p: Player| contains_ci(p.name@, query.name@))
            =~= Seq::<Player>::empty());
    }
    while i < n
        invariant
            n == store@.players.len(),
            i <= n,
            r@ == store@.players.take(i as int).filter(
                |p: Player| contains_ci(p.name@, query.name@),
            ),
        decreases n - i,
    {
        if str_contains_ci(store.players[i].name.as_str(), query.name.as_str()) {
            r.push(store.players[i].clone());
        }
        i += 1;
        proof {
            lemma_filter_take_step(
                store@.players,
                |p: Player| contains_ci(p.name@, query.name@),
                i - 1,
            );
        }
    }
    proof {
        assert(store@.players.take(n as int) =~= store@.players);
    }
    r
}

/// The two player rows agree on every field but `role`.
pub open spec fn same_but_player_role(a: Player, b: Player) -> bool {
    &&& b.player_id == a.player_id
    &&& b.name == a.name
    &&& b.email == a.email
    &&& b.password == a.password
    &&& b.skill_level == a.skill_level
    &&& b.phone == a.phone
    &&& b.created_at == a.created_at
}

/// Overwrite the app-wide role of the player named `player_name`.
/// Updating a name with no player row changes nothing and is not an
/// error.
pub fn update_player_role(store: &mut Store, player_name: &str, input: &UpdateRoleInput) -> (r:
    Result<(), AppError>)
    requires
        wf(old(store)@),
    ensures
        wf(final(store)@),
        r is Ok,
        same_except_players(old(store)@, final(store)@),
        final(store)@.next_player_id == old(store)@.next_player_id,
        if player_name_taken(old(store)@.players, player_name@) {
            let k = player_index_by_name(old(store)@.players, player_name@);
            &&& final(store)@.players == old(store)@.players.update(k, final(store)@.players[k])
            &&& final(store)@.players[k].role matches Some(ro) && ro@ == input.role@
            &&& same_but_player_role(old(store)@.players[k], final(store)@.players[k])
        } else {
            final(store)@.players == old(store)@.players
        },
{
    match find_player_index_by_name(&store.players, player_name) {
        Some(k) => {
            proof {
                lemma_player_name_index_unique(store@.players, player_name@, k as int);
            }
            let mut row = store.players.remove(k);
            row.role = Some(input.role.clone());
            store.players.insert(k, row);
            proof {
                let s0 = old(store)@.players;
                let s1 = store@.players;
                assert(s1 =~= s0.update(k as int, s1[k as int]));
                assert forall|a: int, b: int| 0 <= a < b < s1.len() implies #[trigger] s1[a].player_id
                    != #[trigger] s1[b].player_id by {
                    assert(s1[a].player_id == s0[a].player_id);
                    assert(s1[b].player_id == s0[b].player_id);
                }
                assert forall|a: int, b: int| 0 <= a < b < s1.len() implies #[trigger] s1[a].name@
                    != #[trigger] s1[b].name@ by {
                    assert(s1[a].name@ == s0[a].name@);
                    assert(s1[b].name@ == s0[b].name@);
                }
                assert forall|a: int, b: int| 0 <= a < b < s1.len() implies #[trigger] s1[a].email@
                    != #[trigger] s1[b].email@ by {
                    assert(s1[a].email@ == s0[a].email@);
                    assert(s1[b].email@ == s0[b].email@);
                }
                assert forall|a: int| 0 <= a < s1.len() implies #[trigger] s1[a].player_id
                    < store@.next_player_id by {
                    assert(s1[a].player_id == s0[a].player_id);
                }
            }
        },
        None => {},
    }
    Ok(())
}

/// The index of the player row named `name`, if one exists.
pub fn find_player_index_by_name(v: &Vec<Player>, name: &str) -> (r: Option<usize>)
    ensures
        match r {
            Some(i) => i < v@.len() && v@[i as int].name@ == name@,
            None => !player_name_taken(v@, name@),
        },
{
    let n = v.len();
    let mut i: usize = 0;
    while i < n
        invariant
            n == v@.len(),
            i <= n,
            forall|j: int| 0 <= j < i ==> #[trigger] v@[j].name@ != name@,
        decreases n - i,
    {
        if str_eq(v[i].name.as_str(), name) {
            return Some(i);
        }
        i += 1;
    }
    None
}

} // verus!
