//! The match lifecycle: creation in `Pending`, transition to `Scheduled`
//! on accept or `Rejected` on reject, and the filtered match queries.
//!
//! Accepting a match validates the acting player and every filled
//! participant slot against the membership table (see [`crate::validate`]);
//! rejecting one checks only that the match exists.  Both transitions are
//! defined from `Pending` alone and answer `Conflict` from any other
//! state, append one audit entry to the notes, and write status and notes
//! together, so no partial application is ever observable.

use vstd::prelude::*;
use crate::errors::{AppError, AppErrorView};
use crate::model::{
    Match, Store, StoreView, has_match, is_member, match_at, match_index, find_match_index,
    lemma_match_index_unique, lemma_filter_take_step, wf,
};
use crate::notes::{accept_entry, appended_notes, format_accept_notes, format_reject_notes,
    reject_entry};
use crate::validate::{first_violation, slot_message_view, slot_pid, validate_participants,
    violation_message};
use crate::strutil::str_eq;
use crate::clock::now_timestamp;

verus! {

/// The fields a caller supplies to create a match.
pub struct CreateMatchInput {
    pub match_type: String,
    pub player1_id: Option<String>,
    pub player2_id: Option<String>,
    pub league_id: String,
    pub team1_player1_id: Option<String>,
    pub team1_player2_id: Option<String>,
    pub team2_player1_id: Option<String>,
    pub team2_player2_id: Option<String>,
    pub datetime: String,
    pub location: String,
    pub status: String,
    pub notes: Option<String>,
}

/// An optional league and status filter for listing matches.
pub struct MatchQuery {
    pub league_id: Option<String>,
    pub status: Option<String>,
}

/// The acting player and optional comments of an accept request.
pub struct AcceptMatchInput {
    pub player_id: String,
    pub comments: Option<String>,
}

/// The acting player and optional reason of a reject request.
pub struct RejectMatchInput {
    pub player_id: String,
    pub reason: Option<String>,
}

/// Everything but the match table and its counter is the same in both
/// stores.
pub open spec fn same_except_matches(s0: StoreView, s1: StoreView) -> bool {
    &&& s1.players == s0.players
    &&& s1.leagues == s0.leagues
    &&& s1.memberships == s0.memberships
    &&& s1.join_requests == s0.join_requests
    &&& s1.appointments == s0.appointments
    &&& s1.next_player_id == s0.next_player_id
    &&& s1.next_league_id == s0.next_league_id
    &&& s1.next_request_id == s0.next_request_id
    &&& s1.next_appointment_id == s0.next_appointment_id
}

/// The two match rows agree on every field but `status` and `notes`.
pub open spec fn same_but_status_notes(a: Match, b: Match) -> bool {
    &&& b.id == a.id
    &&& b.match_type == a.match_type
    &&& b.player1_id == a.player1_id
    &&& b.player2_id == a.player2_id
    &&& b.league_id == a.league_id
    &&& b.team1_player1_id == a.team1_player1_id
    &&& b.team1_player2_id == a.team1_player2_id
    &&& b.team2_player1_id == a.team2_player1_id
    &&& b.team2_player2_id == a.team2_player2_id
    &&& b.datetime == a.datetime
    &&& b.location == a.location
    &&& b.score == a.score
    &&& b.winner_id == a.winner_id
    &&& b.created_at == a.created_at
}

/// A freshly created match row: every field taken from the caller's
/// input, score and winner unset, identifier and creation time as given.
pub open spec fn new_match_row(m: Match, input: CreateMatchInput, id: i32, now: i64) -> bool {
    &&& m.id == id
    &&& m.match_type == input.match_type
    &&& m.player1_id == input.player1_id
    &&& m.player2_id == input.player2_id
    &&& m.league_id == input.league_id
    &&& m.team1_player1_id == input.team1_player1_id
    &&& m.team1_player2_id == input.team1_player2_id
    &&& m.team2_player1_id == input.team2_player1_id
    &&& m.team2_player2_id == input.team2_player2_id
    &&& m.datetime == input.datetime
    &&& m.location == input.location
    &&& m.score is None
    &&& m.winner_id is None
    &&& m.status == input.status
    &&& m.notes == input.notes
    &&& m.created_at == now
}

/// Why an accept request fails, or `None` when it is allowed: the match
/// must exist, be `Pending`, and the acting player and every filled slot
/// must belong to the match's league.  The first failing slot, in slot
/// order, names the error.
pub open spec fn accept_error(s: StoreView, mid: i32, player: Seq<char>) -> Option<AppErrorView> {
    if !has_match(s.matches, mid) {
        Some(AppErrorView::NotFound)
    } else {
        let m = match_at(s.matches, mid);
        if m.status@ != "Pending"@ {
            Some(AppErrorView::Conflict)
        } else if !is_member(s.memberships, player, m.league_id@) {
            Some(AppErrorView::BadRequest("Player is not in the league"@))
        } else {
            match first_violation(s.memberships, m) {
                Some(slot) => Some(
                    AppErrorView::BadRequest(slot_message_view(slot, slot_pid(m, slot))),
                ),
                None => None,
            }
        }
    }
}

/// Why a reject request fails, or `None` when it is allowed: only match
/// existence and the `Pending` state are checked — the acting player need
/// not be a league member.
pub open spec fn reject_error(s: StoreView, mid: i32) -> Option<AppErrorView> {
    if !has_match(s.matches, mid) {
        Some(AppErrorView::NotFound)
    } else if match_at(s.matches, mid).status@ != "Pending"@ {
        Some(AppErrorView::Conflict)
    } else {
        None
    }
}

/// The store after a successful accept: the one match row rewritten in a
/// single write — status `"Scheduled"`, the accept entry appended to its
/// notes — and nothing else touched.
pub open spec fn accept_updates(s0: StoreView, s1: StoreView, mid: i32, input: AcceptMatchInput) -> bool {
    let i = match_index(s0.matches, mid);
    let m0 = s0.matches[i];
    let m1 = s1.matches[i];
    &&& same_except_matches(s0, s1)
    &&& s1.next_match_id == s0.next_match_id
    &&& s1.matches == s0.matches.update(i, m1)
    &&& same_but_status_notes(m0, m1)
    &&& m1.status@ == "Scheduled"@
    &&& m1.notes matches Some(n) && n@ == appended_notes(
        m0.notes.deep_view(),
        accept_entry(input.comments.deep_view(), input.player_id@),
    )
}

/// The store after a successful reject: the one match row rewritten in a
/// single write — status `"Rejected"`, the reject entry appended — and
/// nothing else touched.
pub open spec fn reject_updates(s0: StoreView, s1: StoreView, mid: i32, input: RejectMatchInput) -> bool {
    let i = match_index(s0.matches, mid);
    let m0 = s0.matches[i];
    let m1 = s1.matches[i];
    &&& same_except_matches(s0, s1)
    &&& s1.next_match_id == s0.next_match_id
    &&& s1.matches == s0.matches.update(i, m1)
    &&& same_but_status_notes(m0, m1)
    &&& m1.status@ == "Rejected"@
    &&& m1.notes matches Some(n) && n@ == appended_notes(
        m0.notes.deep_view(),
        reject_entry(input.reason.deep_view(), input.player_id@),
    )
}

/// Persist a new match row, exactly as given, with status and notes taken
/// from the input and no participant validation — validation happens at
/// accept time.  `now` is the creation instant; the fresh identifier is
/// returned.
pub fn create_match_at(store: &mut Store, input: &CreateMatchInput, now: i64) -> (id: i32)
    requires
        wf(old(store)@),
        old(store)@.next_match_id < i32::MAX,
    ensures
        wf(final(store)@),
        id == old(store)@.next_match_id,
        same_except_matches(old(store)@, final(store)@),
        final(store)@.next_match_id == old(store)@.next_match_id + 1,
        final(store)@.matches == old(store)@.matches.push(final(store)@.matches.last()),
        new_match_row(final(store)@.matches.last(), *input, id, now),
{
    let id = store.next_match_id;
    let row = Match {
        id,
        match_type: input.match_type.clone(),
        player1_id: clone_opt(&input.player1_id),
        player2_id: clone_opt(&input.player2_id),
        league_id: input.league_id.clone(),
        team1_player1_id: clone_opt(&input.team1_player1_id),
        team1_player2_id: clone_opt(&input.team1_player2_id),
        team2_player1_id: clone_opt(&input.team2_player1_id),
        team2_player2_id: clone_opt(&input.team2_player2_id),
        datetime: input.datetime.clone(),
        location: input.location.clone(),
        score: None,
        winner_id: None,
        status: input.status.clone(),
        notes: clone_opt(&input.notes),
    created_at: now,
    };
    store.matches.push(row);
    store.next_match_id = id + 1;
    id
}

fn clone_opt(o: &Option<String>) -> (r: Option<String>)
    ensures
        r == *o,
{
    match o {
        Some(s) => Some(s.clone()),
        None => None,
    }
}

/// Persist a new match row stamped with the current clock time.
pub fn create_match(store: &mut Store, input: &CreateMatchInput) -> (id: i32)
    requires
        wf(old(store)@),
        old(store)@.next_match_id < i32::MAX,
    ensures
        wf(final(store)@),
        id == old(store)@.next_match_id,
        same_except_matches(old(store)@, final(store)@),
        final(store)@.next_match_id == old(store)@.next_match_id + 1,
        final(store)@.matches == old(store)@.matches.push(final(store)@.matches.last()),
        new_match_row(
            final(store)@.matches.last(),
            *input,
            id,
            final(store)@.matches.last().created_at,
        ),
{
    let now = now_timestamp();
    create_match_at(store, input, now)
}

/// Accept a pending match: confirm the acting player and every filled
/// participant slot are members of the match's league, append the accept
/// audit entry, and set the status to `"Scheduled"` in the same write.
pub fn accept_match(store: &mut Store, match_id: i32, input: &AcceptMatchInput) -> (r: Result<
    (),
    AppError,
>)
    requires
        wf(old(store)@),
    ensures
        wf(final(store)@),
        r is Ok <==> accept_error(old(store)@, match_id, input.player_id@) is None,
        r matches Err(e) ==> Some(e@) == accept_error(old(store)@, match_id, input.player_id@)
            && final(store)@ == old(store)@,
        r is Ok ==> accept_updates(old(store)@, final(store)@, match_id, *input),
{
    let idx = match find_match_index(&store.matches, match_id) {
        Some(i) => i,
        None => {
            return Err(AppError::NotFound);
        },
    };
    proof {
        lemma_match_index_unique(store@.matches, match_id, idx as int);
    }
    if !str_eq(store.matches[idx].status.as_str(), "Pending") {
        return Err(AppError::Conflict);
    }
    if !crate::model::member_exists(
        &store.memberships,
        input.player_id.as_str(),
        store.matches[idx].league_id.as_str(),
    ) {
        return Err(AppError::BadRequest("Player is not in the league".to_owned()));
    }
    if let Err(v) = validate_participants(&store.memberships, &store.matches[idx]) {
        return Err(AppError::BadRequest(violation_message(&v)));
    }
    let new_notes = format_accept_notes(
        &store.matches[idx].notes,
        &input.comments,
        input.player_id.as_str(),
    );
    let mut row = store.matches.remove(idx);
    row.status = "Scheduled".to_owned();
    row.notes = Some(new_notes);
    store.matches.insert(idx, row);
    proof {
        let s0 = old(store)@;
        let s1 = store@;
        assert(s1.matches =~= s0.matches.update(idx as int, s1.matches[idx as int]));
        assert forall|a: int, b: int| 0 <= a < b < s1.matches.len() implies #[trigger] s1.matches[a].id
            != #[trigger] s1.matches[b].id by {
            assert(s1.matches[a].id == s0.matches[a].id);
            assert(s1.matches[b].id == s0.matches[b].id);
        }
        assert forall|a: int| 0 <= a < s1.matches.len() implies #[trigger] s1.matches[a].id
            < s1.next_match_id by {
            assert(s1.matches[a].id == s0.matches[a].id);
        }
    }
    Ok(())
}

/// Reject a pending match: only its existence is checked — the acting
/// player need not be a league member.  The reject audit entry is
/// appended and the status set to `"Rejected"` in the same write.
pub fn reject_match(store: &mut Store, match_id: i32, input: &RejectMatchInput) -> (r: Result<
    (),
    AppError,
>)
    requires
        wf(old(store)@),
    ensures
        wf(final(store)@),
        r is Ok <==> reject_error(old(store)@, match_id) is None,
        r matches Err(e) ==> Some(e@) == reject_error(old(store)@, match_id) && final(store)@
            == old(store)@,
        r is Ok ==> reject_updates(old(store)@, final(store)@, match_id, *input),
{
    let idx = match find_match_index(&store.matches, match_id) {
        Some(i) => i,
        None => {
            return Err(AppError::NotFound);
        },
    };
    proof {
        lemma_match_index_unique(store@.matches, match_id, idx as int);
    }
    if !str_eq(store.matches[idx].status.as_str(), "Pending") {
        return Err(AppError::Conflict);
    }
    let new_notes = format_reject_notes(
        &store.matches[idx].notes,
        &input.reason,
        input.player_id.as_str(),
    );
    let mut row = store.matches.remove(idx);
    row.status = "Rejected".to_owned();
    row.notes = Some(new_notes);
    store.matches.insert(idx, row);
    proof {
        let s0 = old(store)@;
        let s1 = store@;
        assert(s1.matches =~= s0.matches.update(idx as int, s1.matches[idx as int]));
        assert forall|a: int, b: int| 0 <= a < b < s1.matches.len() implies #[trigger] s1.matches[a].id
            != #[trigger] s1.matches[b].id by {
            assert(s1.matches[a].id == s0.matches[a].id);
            assert(s1.matches[b].id == s0.matches[b].id);
        }
        assert forall|a: int| 0 <= a < s1.matches.len() implies #[trigger] s1.matches[a].id
            < s1.next_match_id by {
            assert(s1.matches[a].id == s0.matches[a].id);
        }
    }
    Ok(())
}

/// Whether an optional slot holds exactly the identifier `p`.
pub open spec fn opt_is(o: Option<String>, p: Seq<char>) -> bool {
    o matches Some(s) && s@ == p
}

/// Whether `p` occupies any of the six participant slots of `m`.
pub open spec fn involves_player(m: Match, p: Seq<char>) -> bool {
    ||| opt_is(m.player1_id, p)
    ||| opt_is(m.player2_id, p)
    ||| opt_is(m.team1_player1_id, p)
    ||| opt_is(m.team1_player2_id, p)
    ||| opt_is(m.team2_player1_id, p)
    ||| opt_is(m.team2_player2_id, p)
}

/// Whether `m` is pending and involves `p` in some slot.
pub open spec fn pending_involves(m: Match, p: Seq<char>) -> bool {
    m.status@ == "Pending"@ && involves_player(m, p)
}

/// Whether `m` passes the optional league and status filters of `q`.
pub open spec fn match_in_query(m: Match, q: MatchQuery) -> bool {
    &&& (q.league_id matches Some(l) ==> m.league_id@ == l@)
    &&& (q.status matches Some(st) ==> m.status@ == st@)
}

fn opt_slot_is(o: &Option<String>, p: &str) -> (r: bool)
    ensures
        r == opt_is(*o, p@),
{
    match o {
        Some(s) => str_eq(s.as_str(), p),
        None => false,
    }
}

/// Whether `p` occupies any participant slot of `m`.
pub fn match_involves(m: &Match, p: &str) -> (r: bool)
    ensures
        r == involves_player(*m, p@),
{
    opt_slot_is(&m.player1_id, p) || opt_slot_is(&m.player2_id, p) || opt_slot_is(
        &m.team1_player1_id,
        p,
    ) || opt_slot_is(&m.team1_player2_id, p) || opt_slot_is(&m.team2_player1_id, p) || opt_slot_is(
        &m.team2_player2_id,
        p,
    )
}

fn query_admits(m: &Match, q: &MatchQuery) -> (r: bool)
    ensures
        r == match_in_query(*m, *q),
{
    let league_ok = match &q.league_id {
        Some(l) => str_eq(m.league_id.as_str(), l.as_str()),
        None => true,
    };
    let status_ok = match &q.status {
        Some(st) => str_eq(m.status.as_str(), st.as_str()),
        None => true,
    };
    league_ok && status_ok
}

/// The matches passing the optional league and status filters, in table
/// order.
pub fn get_matches(store: &Store, query: &MatchQuery) -> (r: Vec<Match>)
    ensures
        r@ == store@.matches.filter(|m: Match| match_in_query(m, *query)),
{
    let mut r: Vec<Match> = Vec::new();
    let n = store.matches.len();
    let mut i: usize = 0;
    proof {
        assert(store@.matches.take(0).filter(|m: Match| match_in_query(m, *query))
            =~= Seq::<Match>::empty());
    }
    while i < n
        invariant
            n == store@.matches.len(),
            i <= n,
            r@ == store@.matches.take(i as int).filter(|m: Match| match_in_query(m, *query)),
        decreases n - i,
    {
        if query_admits(&store.matches[i], query) {
            r.push(store.matches[i].clone());
        }
        i += 1;
        proof {
            lemma_filter_take_step(
                store@.matches,
                |m: Match| match_in_query(m, *query),
                i - 1,
            );
        }
    }
    proof {
        assert(store@.matches.take(n as int) =~= store@.matches);
    }
    r
}

/// The matches in which `player_id` occupies any of the six participant
/// slots, in table order.
pub fn get_player_matches(store: &Store, player_id: &str) -> (r: Vec<Match>)
    ensures
        r@ == store@.matches.filter(|m: Match| involves_player(m, player_id@)),
{
    let mut r: Vec<Match> = Vec::new();
    let n = store.matches.len();
    let mut i: usize = 0;
    proof {
        assert(store@.matches.take(0).filter(|m: Match| involves_player(m, player_id@))
            =~= Seq::<Match>::empty());
    }
    while i < n
        invariant
            n == store@.matches.len(),
            i <= n,
            r@ == store@.matches.take(i as int).filter(|m: Match| involves_player(m, player_id@)),
        decreases n - i,
    {
        if match_involves(&store.matches[i], player_id) {
            r.push(store.matches[i].clone());
        }
        i += 1;
        proof {
            lemma_filter_take_step(
                store@.matches,
                |m: Match| involves_player(m, player_id@),
                i - 1,
            );
        }
    }
    proof {
        assert(store@.matches.take(n as int) =~= store@.matches);
    }
    r
}

/// The pending matches in which `player_id` occupies any participant
/// slot: exactly the rows that are `"Pending"` and involve the player, in
/// table order.
pub fn get_player_pending_matches(store: &Store, player_id: &str) -> (r: Vec<Match>)
    ensures
        r@ == store@.matches.filter(|m: Match| pending_involves(m, player_id@)),
{
    let mut r: Vec<Match> = Vec::new();
    let n = store.matches.len();
    let mut i: usize = 0;
    proof {
        assert(store@.matches.take(0).filter(|m: Match| pending_involves(m, player_id@))
            =~= Seq::<Match>::empty());
    }
    while i < n
        invariant
            n == store@.matches.len(),
            i <= n,
            r@ == store@.matches.take(i as int).filter(|m: Match| pending_involves(m, player_id@)),
        decreases n - i,
    {
        if str_eq(store.matches[i].status.as_str(), "Pending") && match_involves(
            &store.matches[i],
            player_id,
        ) {
            r.push(store.matches[i].clone());
        }
        i += 1;
        proof {
            lemma_filter_take_step(
                store@.matches,
                |m: Match| pending_involves(m, player_id@),
                i - 1,
            );
        }
    }
    proof {
        assert(store@.matches.take(n as int) =~= store@.matches);
    }
    r
}

} // verus!
