//! The membership validator.
//!
//! Before a match is accepted, every filled participant slot must name a
//! current member of the match's league.  Slots are checked in a fixed
//! order — player1, player2 for singles; team1_player1, team1_player2,
//! team2_player1, team2_player2 for doubles — and validation stops at the
//! first failure, reporting exactly which slot and identifier failed.
//! Unfilled slots are skipped: a match may be created with open slots to
//! be filled later.  A match whose type tag is neither singles nor doubles
//! has no slots to validate.

use vstd::prelude::*;
use crate::model::{LeaguePlayer, Match, MatchType, is_member, member_exists};
use crate::strutil::{seq_ieq, str_ieq};

verus! {

/// The participant slots of a match, in validation order.
#[derive(Clone, Copy, PartialEq, Eq, Structural, Debug)]
pub enum Slot {
    Player1,
    Player2,
    Team1Player1,
    Team1Player2,
    Team2Player1,
    Team2Player2,
}

/// The identifier a match carries in a given slot.
pub open spec fn slot_value(m: Match, s: Slot) -> Option<String> {
    match s {
        Slot::Player1 => m.player1_id,
        Slot::Player2 => m.player2_id,
        Slot::Team1Player1 => m.team1_player1_id,
        Slot::Team1Player2 => m.team1_player2_id,
        Slot::Team2Player1 => m.team2_player1_id,
        Slot::Team2Player2 => m.team2_player2_id,
    }
}

/// Whether a type tag reads "singles", compared case-insensitively.
pub open spec fn is_singles_type(mt: Seq<char>) -> bool {
    seq_ieq(mt, "singles"@)
}

/// Whether a type tag reads "doubles", compared case-insensitively.
pub open spec fn is_doubles_type(mt: Seq<char>) -> bool {
    seq_ieq(mt, "doubles"@)
}

/// The [`MatchType`] a free-form type string denotes, read
/// case-insensitively; `None` for a string that names no known type.
/// Singles is tried first, so the three cases are mutually exclusive.
pub open spec fn spec_match_type_tag(mt: Seq<char>) -> Option<MatchType> {
    if is_singles_type(mt) {
        Some(MatchType::Singles)
    } else if is_doubles_type(mt) {
        Some(MatchType::Doubles)
    } else if seq_ieq(mt, "practice"@) {
        Some(MatchType::Practice)
    } else {
        None
    }
}

/// Classify a free-form match type string.
pub fn match_type_tag(mt: &str) -> (r: Option<MatchType>)
    ensures
        r == spec_match_type_tag(mt@),
{
    if str_ieq(mt, "singles") {
        Some(MatchType::Singles)
    } else if str_ieq(mt, "doubles") {
        Some(MatchType::Doubles)
    } else if str_ieq(mt, "practice") {
        Some(MatchType::Practice)
    } else {
        None
    }
}

/// A slot fails validation when it is filled with a player who is not a
/// member of the match's league.
pub open spec fn slot_bad(ms: Seq<LeaguePlayer>, m: Match, s: Slot) -> bool {
    slot_value(m, s) matches Some(p) && !is_member(ms, p@, m.league_id@)
}

/// The first failing slot of a singles match, in slot order.
pub open spec fn singles_first_violation(ms: Seq<LeaguePlayer>, m: Match) -> Option<Slot> {
    if slot_bad(ms, m, Slot::Player1) {
        Some(Slot::Player1)
    } else if slot_bad(ms, m, Slot::Player2) {
        Some(Slot::Player2)
    } else {
        None
    }
}

/// The first failing slot of a doubles match, in slot order.
pub open spec fn doubles_first_violation(ms: Seq<LeaguePlayer>, m: Match) -> Option<Slot> {
    if slot_bad(ms, m, Slot::Team1Player1) {
        Some(Slot::Team1Player1)
    } else if slot_bad(ms, m, Slot::Team1Player2) {
        Some(Slot::Team1Player2)
    } else if slot_bad(ms, m, Slot::Team2Player1) {
        Some(Slot::Team2Player1)
    } else if slot_bad(ms, m, Slot::Team2Player2) {
        Some(Slot::Team2Player2)
    } else {
        None
    }
}

/// The first failing slot of a match, going by its type tag.  A match of
/// any other type has no slots to validate.
pub open spec fn first_violation(ms: Seq<LeaguePlayer>, m: Match) -> Option<Slot> {
    if is_singles_type(m.match_type@) {
        singles_first_violation(ms, m)
    } else if is_doubles_type(m.match_type@) {
        doubles_first_violation(ms, m)
    } else {
        None
    }
}

/// The identifier in a failing slot (empty when the slot is open, which a
/// failing slot never is).
pub open spec fn slot_pid(m: Match, s: Slot) -> Seq<char> {
    match slot_value(m, s) {
        Some(p) => p@,
        None => Seq::empty(),
    }
}

/// The message reported for a failing slot.
pub open spec fn slot_message_view(s: Slot, pid: Seq<char>) -> Seq<char> {
    match s {
        Slot::Player1 => "Player 1 is not in the league"@,
        Slot::Player2 => "Player 2 is not in the league"@,
        Slot::Team1Player1 => "Team 1 Player 1 ("@ + pid + ") is not in the league"@,
        Slot::Team1Player2 => "Team 1 Player 2 ("@ + pid + ") is not in the league"@,
        Slot::Team2Player1 => "Team 2 Player 1 ("@ + pid + ") is not in the league"@,
        Slot::Team2Player2 => "Team 2 Player 2 ("@ + pid + ") is not in the league"@,
    }
}

/// A validation failure: the first slot that failed, and the identifier
/// it holds.
pub struct SlotViolation {
    pub slot: Slot,
    pub player_id: String,
}

fn check_slot(ms: &Vec<LeaguePlayer>, league_id: &String, slot_id: &Option<String>, slot: Slot) -> (r:
    Option<SlotViolation>)
    ensures
        match r {
            Some(v) => v.slot == slot && (slot_id matches Some(p) && p == v.player_id && !is_member(
                ms@,
                p@,
                league_id@,
            )),
            None => !(slot_id matches Some(p) && !is_member(ms@, p@, league_id@)),
        },
{
    match slot_id {
        Some(p) => {
            if !member_exists(ms, p.as_str(), league_id.as_str()) {
                Some(SlotViolation { slot, player_id: p.clone() })
            } else {
                None
            }
        },
        None => None,
    }
}

/// Validate every filled participant slot of `m` against the membership
/// table, failing fast on the first slot whose player is not in the
/// match's league.
pub fn validate_participants(ms: &Vec<LeaguePlayer>, m: &Match) -> (r: Result<(), SlotViolation>)
    ensures
        match r {
            Ok(()) => first_violation(ms@, *m) is None,
            Err(v) => first_violation(ms@, *m) == Some(v.slot) && Some(v.player_id) == slot_value(
                *m,
                v.slot,
            ),
        },
{
    match match_type_tag(m.match_type.as_str()) {
        Some(MatchType::Singles) => {
            if let Some(v) = check_slot(ms, &m.league_id, &m.player1_id, Slot::Player1) {
                return Err(v);
            }
            if let Some(v) = check_slot(ms, &m.league_id, &m.player2_id, Slot::Player2) {
                return Err(v);
            }
        },
        Some(MatchType::Doubles) => {
            if let Some(v) = check_slot(ms, &m.league_id, &m.team1_player1_id, Slot::Team1Player1) {
                return Err(v);
            }
            if let Some(v) = check_slot(ms, &m.league_id, &m.team1_player2_id, Slot::Team1Player2) {
                return Err(v);
            }
            if let Some(v) = check_slot(ms, &m.league_id, &m.team2_player1_id, Slot::Team2Player1) {
                return Err(v);
            }
            if let Some(v) = check_slot(ms, &m.league_id, &m.team2_player2_id, Slot::Team2Player2) {
                return Err(v);
            }
        },
        _ => {},
    }
    Ok(())
}

/// The slot-specific, human-readable message of a validation failure.
pub fn violation_message(v: &SlotViolation) -> (r: String)
    ensures
        r@ == slot_message_view(v.slot, v.player_id@),
{
    match v.slot {
        Slot::Player1 => "Player 1 is not in the league".to_owned(),
        Slot::Player2 => "Player 2 is not in the league".to_owned(),
        Slot::Team1Player1 => {
            let mut s = "Team 1 Player 1 (".to_owned();
            s.append(v.player_id.as_str());
            s.append(") is not in the league");
            s
        },
        Slot::Team1Player2 => {
            let mut s = "Team 1 Player 2 (".to_owned();
            s.append(v.player_id.as_str());
            s.append(") is not in the league");
            s
        },
        Slot::Team2Player1 => {
            let mut s = "Team 2 Player 1 (".to_owned();
            s.append(v.player_id.as_str());
            s.append(") is not in the league");
            s
        },
        Slot::Team2Player2 => {
            let mut s = "Team 2 Player 2 (".to_owned();
            s.append(v.player_id.as_str());
            s.append(") is not in the league");
            s
        },
    }
}

} // verus!
