//! The library's laws: properties of the match lifecycle stated over the
//! same spec functions the operations' contracts use, and proved once and
//! for all.

use vstd::prelude::*;
use crate::errors::AppErrorView;
use crate::matches::{accept_error, involves_player, pending_involves, reject_error};
use crate::model::{Match, StoreView, has_match, is_member, match_at, wf};
use crate::validate::{
    Slot, is_doubles_type, is_singles_type, slot_bad, slot_message_view, slot_pid,
};

verus! {

/// Accepting a pending singles match with both player slots filled
/// succeeds exactly when the acting player and both slot players are
/// members of the match's league; a slot failure is reported as a
/// `BadRequest` naming the first non-member slot, player1 before player2.
pub proof fn lemma_accept_singles_iff_members(s: StoreView, mid: i32, player: Seq<char>)
    requires
        wf(s),
        has_match(s.matches, mid),
        is_singles_type(match_at(s.matches, mid).match_type@),
        match_at(s.matches, mid).status@ == "Pending"@,
        match_at(s.matches, mid).player1_id is Some,
        match_at(s.matches, mid).player2_id is Some,
    ensures
        ({
            let m = match_at(s.matches, mid);
            let lg = m.league_id@;
            &&& (accept_error(s, mid, player) is None <==> (is_member(s.memberships, player, lg)
                && !slot_bad(s.memberships, m, Slot::Player1) && !slot_bad(
                s.memberships,
                m,
                Slot::Player2,
            )))
            &&& (is_member(s.memberships, player, lg) && slot_bad(s.memberships, m, Slot::Player1)
                ==> accept_error(s, mid, player) == Some(
                AppErrorView::BadRequest("Player 1 is not in the league"@),
            ))
            &&& (is_member(s.memberships, player, lg) && !slot_bad(s.memberships, m, Slot::Player1)
                && slot_bad(s.memberships, m, Slot::Player2) ==> accept_error(s, mid, player)
                == Some(AppErrorView::BadRequest("Player 2 is not in the league"@)))
        }),
{
}

/// Accepting a pending doubles match checks the team slots in the fixed
/// order team1_player1, team1_player2, team2_player1, team2_player2, and
/// fails on the first non-member found, with the message carrying that
/// exact slot's label and identifier; it succeeds exactly when the acting
/// player and every filled slot pass.
pub proof fn lemma_accept_doubles_slot_order(s: StoreView, mid: i32, player: Seq<char>)
    requires
        wf(s),
        has_match(s.matches, mid),
        is_doubles_type(match_at(s.matches, mid).match_type@),
        match_at(s.matches, mid).status@ == "Pending"@,
    ensures
        ({
            let m = match_at(s.matches, mid);
            let lg = m.league_id@;
            let ms = s.memberships;
            let acting = is_member(ms, player, lg);
            &&& (accept_error(s, mid, player) is None <==> (acting && !slot_bad(
                ms,
                m,
                Slot::Team1Player1,
            ) && !slot_bad(ms, m, Slot::Team1Player2) && !slot_bad(ms, m, Slot::Team2Player1)
                && !slot_bad(ms, m, Slot::Team2Player2)))
            &&& (acting && slot_bad(ms, m, Slot::Team1Player1) ==> accept_error(s, mid, player)
                == Some(
                AppErrorView::BadRequest(
                    slot_message_view(Slot::Team1Player1, slot_pid(m, Slot::Team1Player1)),
                ),
            ))
            &&& (acting && !slot_bad(ms, m, Slot::Team1Player1) && slot_bad(
                ms,
                m,
                Slot::Team1Player2,
            ) ==> accept_error(s, mid, player) == Some(
                AppErrorView::BadRequest(
                    slot_message_view(Slot::Team1Player2, slot_pid(m, Slot::Team1Player2)),
                ),
            ))
            &&& (acting && !slot_bad(ms, m, Slot::Team1Player1) && !slot_bad(
                ms,
                m,
                Slot::Team1Player2,
            ) && slot_bad(ms, m, Slot::Team2Player1) ==> accept_error(s, mid, player) == Some(
                AppErrorView::BadRequest(
                    slot_message_view(Slot::Team2Player1, slot_pid(m, Slot::Team2Player1)),
                ),
            ))
            &&& (acting && !slot_bad(ms, m, Slot::Team1Player1) && !slot_bad(
                ms,
                m,
                Slot::Team1Player2,
            ) && !slot_bad(ms, m, Slot::Team2Player1) && slot_bad(ms, m, Slot::Team2Player2)
                ==> accept_error(s, mid, player) == Some(
                AppErrorView::BadRequest(
                    slot_message_view(Slot::Team2Player2, slot_pid(m, Slot::Team2Player2)),
                ),
            ))
        }),
{
    let mt = match_at(s.matches, mid).match_type@;
    assert(!is_singles_type(mt)) by {
        reveal_strlit("singles");
        reveal_strlit("doubles");
        if is_singles_type(mt) {
            assert(crate::strutil::char_ieq(mt[0], "singles"@[0]));
            assert(crate::strutil::char_ieq(mt[0], "doubles"@[0]));
        }
    }
}

/// Rejecting never requires the acting player to be a league member: the
/// reject outcome is defined without reference to any player, and for
/// every match that exists and is pending, rejection is allowed — whoever
/// acts.
pub proof fn lemma_reject_ignores_membership(s: StoreView, mid: i32)
    requires
        has_match(s.matches, mid),
        match_at(s.matches, mid).status@ == "Pending"@,
    ensures
        reject_error(s, mid) is None,
{
}

proof fn lemma_filter_subset<A>(s: Seq<A>, pred: spec_fn(A) -> bool, m: A)
    requires
        s.filter(pred).contains(m),
    ensures
        s.contains(m),
        pred(m),
    decreases s.len(),
{
    reveal(Seq::filter);
    if s.len() == 0 {
    } else {
        let rest = s.drop_last();
        if pred(s.last()) && m == s.last() {
            assert(s[s.len() - 1] == m);
        } else {
            assert(rest.filter(pred).contains(m));
            lemma_filter_subset(rest, pred, m);
            let i = choose|i: int| 0 <= i < rest.len() && rest[i] == m;
            assert(s[i] == m);
        }
    }
}

/// The pending-match listing for a player holds exactly the match rows
/// that carry the player in one of the six participant slots and are
/// still `"Pending"` — no others.  The listing is a function of the store
/// alone, so repeated calls with no intervening writes return the same
/// rows.
pub proof fn lemma_pending_matches_exact(s: StoreView, player: Seq<char>, m: Match)
    ensures
        s.matches.filter(|x: Match| pending_involves(x, player)).contains(m) <==> (s.matches.contains(
            m,
        ) && m.status@ == "Pending"@ && involves_player(m, player)),
{
    let pred = |x: Match| pending_involves(x, player);
    if s.matches.filter(pred).contains(m) {
        lemma_filter_subset(s.matches, pred, m);
    }
    if s.matches.contains(m) && pending_involves(m, player) {
        let i = choose|i: int| 0 <= i < s.matches.len() && s.matches[i] == m;
        s.matches.lemma_filter_contains(pred, i);
    }
}

} // verus!
