//! The data model: players, leagues, memberships, matches, join requests
//! and appointments, held together in an in-memory [`Store`].
//!
//! The store is the library's picture of the relational tables the platform
//! keeps.  Row identifiers are serial integers drawn from per-table
//! counters; player and league references inside membership and match rows
//! are plain strings, as they are on the wire.  [`wf`] is the invariant
//! every operation preserves: row identifiers are unique and below their
//! counter, league names and player names/emails are unique, and at most
//! one membership row exists per (player, league) pair.

use vstd::prelude::*;

verus! {

/// A registered player.  `password` holds the bcrypt hash, never the
/// cleartext.
#[derive(Debug)]
pub struct Player {
    pub player_id: i32,
    pub name: String,
    pub email: String,
    pub password: String,
    pub skill_level: Option<String>,
    pub role: Option<String>,
    pub phone: Option<String>,
    pub created_at: i64,
}

/// A named competitive group.  Identity is immutable after creation.
#[derive(Debug)]
pub struct League {
    pub league_id: i32,
    pub league_name: String,
    pub skill_level: Option<String>,
    pub is_public: bool,
    pub description: Option<String>,
    pub created_by: String,
    pub created_at: i64,
}

/// A membership row: one player in one league, with a league-scoped role
/// ("admin" or "player").
#[derive(Debug)]
pub struct LeaguePlayer {
    pub player_id: String,
    pub league_id: String,
    pub role: String,
    pub singles_ranking: Option<i32>,
    pub doubles_ranking: Option<i32>,
    pub joined_at: i64,
}

/// A proposed or confirmed contest.  Singles matches fill `player1_id` /
/// `player2_id`; doubles matches fill the four team slots.  Unfilled slots
/// are `None`.  `notes` is an append-only audit log.
#[derive(Debug)]
pub struct Match {
    pub id: i32,
    pub match_type: String,
    pub player1_id: Option<String>,
    pub player2_id: Option<String>,
    pub league_id: String,
    pub team1_player1_id: Option<String>,
    pub team1_player2_id: Option<String>,
    pub team2_player1_id: Option<String>,
    pub team2_player2_id: Option<String>,
    pub datetime: String,
    pub location: String,
    pub score: Option<String>,
    pub winner_id: Option<String>,
    pub status: String,
    pub notes: Option<String>,
    pub created_at: i64,
}

/// A pending application by a player to join a league.
#[derive(Debug)]
pub struct LeagueJoinRequest {
    pub request_id: i32,
    pub league_id: String,
    pub player_id: String,
    pub description: Option<String>,
    pub status: String,
    pub created_at: i64,
    pub notes: Option<String>,
}

/// A pairwise booking between two players, optionally tied to a league.
#[derive(Debug)]
pub struct Appointment {
    pub appointment_id: i32,
    pub requester_id: i32,
    pub opponent_id: i32,
    pub league_id: Option<i32>,
    pub start_time: String,
    pub end_time: String,
    pub status: String,
    pub created_at: i64,
    pub updated_at: i64,
}

/// The match type tags the platform distinguishes.
#[derive(Clone, Copy, PartialEq, Eq, Structural, Debug)]
pub enum MatchType {
    Singles,
    Doubles,
    Practice,
}

/// Downstream lifecycle states a match can carry beyond the validated
/// `Pending` -> `Scheduled` / `Rejected` transitions.
#[derive(Clone, Copy, PartialEq, Eq, Structural, Debug)]
pub enum MatchStatus {
    Scheduled,
    InProgress,
    Completed,
    Cancelled,
}

fn clone_opt_string(o: &Option<String>) -> (r: Option<String>)
    ensures
        r == *o,
{
    match o {
        Some(s) => Some(s.clone()),
        None => None,
    }
}

impl Clone for Player {
    fn clone(&self) -> (r: Self)
        ensures
            r == *self,
    {
        Player {
            player_id: self.player_id,
            name: self.name.clone(),
            email: self.email.clone(),
            password: self.password.clone(),
            skill_level: clone_opt_string(&self.skill_level),
            role: clone_opt_string(&self.role),
            phone: clone_opt_string(&self.phone),
            created_at: self.created_at,
        }
    }
}

impl Clone for League {
    fn clone(&self) -> (r: Self)
        ensures
            r == *self,
    {
        League {
            league_id: self.league_id,
            league_name: self.league_name.clone(),
            skill_level: clone_opt_string(&self.skill_level),
            is_public: self.is_public,
            description: clone_opt_string(&self.description),
            created_by: self.created_by.clone(),
            created_at: self.created_at,
        }
    }
}

impl Clone for LeaguePlayer {
    fn clone(&self) -> (r: Self)
        ensures
            r == *self,
    {
        LeaguePlayer {
            player_id: self.player_id.clone(),
            league_id: self.league_id.clone(),
            role: self.role.clone(),
            singles_ranking: self.singles_ranking,
            doubles_ranking: self.doubles_ranking,
            joined_at: self.joined_at,
        }
    }
}

impl Clone for Match {
    fn clone(&self) -> (r: Self)
        ensures
            r == *self,
    {
        Match {
            id: self.id,
            match_type: self.match_type.clone(),
            player1_id: clone_opt_string(&self.player1_id),
            player2_id: clone_opt_string(&self.player2_id),
            league_id: self.league_id.clone(),
            team1_player1_id: clone_opt_string(&self.team1_player1_id),
            team1_player2_id: clone_opt_string(&self.team1_player2_id),
            team2_player1_id: clone_opt_string(&self.team2_player1_id),
            team2_player2_id: clone_opt_string(&self.team2_player2_id),
            datetime: self.datetime.clone(),
            location: self.location.clone(),
            score: clone_opt_string(&self.score),
            winner_id: clone_opt_string(&self.winner_id),
            status: self.status.clone(),
            notes: clone_opt_string(&self.notes),
            created_at: self.created_at,
        }
    }
}

impl Clone for LeagueJoinRequest {
    fn clone(&self) -> (r: Self)
        ensures
            r == *self,
    {
        LeagueJoinRequest {
            request_id: self.request_id,
            league_id: self.league_id.clone(),
            player_id: self.player_id.clone(),
            description: clone_opt_string(&self.description),
            status: self.status.clone(),
            created_at: self.created_at,
            notes: clone_opt_string(&self.notes),
        }
    }
}

impl Clone for Appointment {
    fn clone(&self) -> (r: Self)
        ensures
            r == *self,
    {
        Appointment {
            appointment_id: self.appointment_id,
            requester_id: self.requester_id,
            opponent_id: self.opponent_id,
            league_id: self.league_id,
            start_time: self.start_time.clone(),
            end_time: self.end_time.clone(),
            status: self.status.clone(),
            created_at: self.created_at,
            updated_at: self.updated_at,
        }
    }
}

/// The in-memory store: one `Vec` per table, plus the serial-id counter
/// each table draws its next row identifier from.
pub struct Store {
    pub players: Vec<Player>,
    pub leagues: Vec<League>,
    pub memberships: Vec<LeaguePlayer>,
    pub matches: Vec<Match>,
    pub join_requests: Vec<LeagueJoinRequest>,
    pub appointments: Vec<Appointment>,
    pub next_player_id: i32,
    pub next_league_id: i32,
    pub next_match_id: i32,
    pub next_request_id: i32,
    pub next_appointment_id: i32,
}

/// The mathematical value of a [`Store`]: each table as a sequence.
#[verifier::ext_equal]
pub struct StoreView {
    pub players: Seq<Player>,
    pub leagues: Seq<League>,
    pub memberships: Seq<LeaguePlayer>,
    pub matches: Seq<Match>,
    pub join_requests: Seq<LeagueJoinRequest>,
    pub appointments: Seq<Appointment>,
    pub next_player_id: i32,
    pub next_league_id: i32,
    pub next_match_id: i32,
    pub next_request_id: i32,
    pub next_appointment_id: i32,
}

impl View for Store {
    type V = StoreView;

    open spec fn view(&self) -> StoreView {
        StoreView {
            players: self.players@,
            leagues: self.leagues@,
            memberships: self.memberships@,
            matches: self.matches@,
            join_requests: self.join_requests@,
            appointments: self.appointments@,
            next_player_id: self.next_player_id,
            next_league_id: self.next_league_id,
            next_match_id: self.next_match_id,
            next_request_id: self.next_request_id,
            next_appointment_id: self.next_appointment_id,
        }
    }
}

/// Whether a membership row ties `player` to `league`.
pub open spec fn is_member(ms: Seq<LeaguePlayer>, player: Seq<char>, league: Seq<char>) -> bool {
    exists|i: int|
        0 <= i < ms.len() && ms[i].player_id@ == player && ms[i].league_id@ == league
}

/// The index of the membership row tying `player` to `league` (unique
/// under [`wf`]).
pub open spec fn membership_index(ms: Seq<LeaguePlayer>, player: Seq<char>, league: Seq<char>) -> int {
    choose|i: int|
        0 <= i < ms.len() && ms[i].player_id@ == player && ms[i].league_id@ == league
}

/// Whether a match row carries identifier `id`.
pub open spec fn has_match(s: Seq<Match>, id: i32) -> bool {
    exists|i: int| 0 <= i < s.len() && s[i].id == id
}

/// The index of the match row carrying `id` (unique under [`wf`]).
pub open spec fn match_index(s: Seq<Match>, id: i32) -> int {
    choose|i: int| 0 <= i < s.len() && s[i].id == id
}

/// The match row carrying `id` (unique under [`wf`]).
pub open spec fn match_at(s: Seq<Match>, id: i32) -> Match {
    s[match_index(s, id)]
}

/// Whether a league row carries identifier `id`.
pub open spec fn has_league_id(s: Seq<League>, id: i32) -> bool {
    exists|i: int| 0 <= i < s.len() && s[i].league_id == id
}

/// The index of the league row carrying `id` (unique under [`wf`]).
pub open spec fn league_index_by_id(s: Seq<League>, id: i32) -> int {
    choose|i: int| 0 <= i < s.len() && s[i].league_id == id
}

/// Whether some league row carries the name `name`.
pub open spec fn league_name_taken(s: Seq<League>, name: Seq<char>) -> bool {
    exists|i: int| 0 <= i < s.len() && s[i].league_name@ == name
}

/// The index of the league row named `name` (unique under [`wf`]).
pub open spec fn league_index_by_name(s: Seq<League>, name: Seq<char>) -> int {
    choose|i: int| 0 <= i < s.len() && s[i].league_name@ == name
}

/// Whether some player row carries the name `name`.
pub open spec fn player_name_taken(s: Seq<Player>, name: Seq<char>) -> bool {
    exists|i: int| 0 <= i < s.len() && s[i].name@ == name
}

/// Whether some player row carries the email `email`.
pub open spec fn player_email_taken(s: Seq<Player>, email: Seq<char>) -> bool {
    exists|i: int| 0 <= i < s.len() && s[i].email@ == email
}

/// The index of the player row with email `email` (unique under [`wf`]).
pub open spec fn player_index_by_email(s: Seq<Player>, email: Seq<char>) -> int {
    choose|i: int| 0 <= i < s.len() && s[i].email@ == email
}

/// The index of the player row named `name` (unique under [`wf`]).
pub open spec fn player_index_by_name(s: Seq<Player>, name: Seq<char>) -> int {
    choose|i: int| 0 <= i < s.len() && s[i].name@ == name
}

/// The store invariant: serial identifiers are unique and below their
/// counter; league names and player names/emails are unique; at most one
/// membership row exists per (player, league) pair.
pub open spec fn wf(s: StoreView) -> bool {
    &&& forall|i: int, j: int|
        0 <= i < j < s.players.len() ==> #[trigger] s.players[i].player_id != #[trigger] s.players[j].player_id
    &&& forall|i: int, j: int|
        0 <= i < j < s.players.len() ==> #[trigger] s.players[i].name@ != #[trigger] s.players[j].name@
    &&& forall|i: int, j: int|
        0 <= i < j < s.players.len() ==> #[trigger] s.players[i].email@ != #[trigger] s.players[j].email@
    &&& forall|i: int| 0 <= i < s.players.len() ==> #[trigger] s.players[i].player_id < s.next_player_id
    &&& forall|i: int, j: int|
        0 <= i < j < s.leagues.len() ==> #[trigger] s.leagues[i].league_id != #[trigger] s.leagues[j].league_id
    &&& forall|i: int, j: int|
        0 <= i < j < s.leagues.len() ==> #[trigger] s.leagues[i].league_name@ != #[trigger] s.leagues[j].league_name@
    &&& forall|i: int| 0 <= i < s.leagues.len() ==> #[trigger] s.leagues[i].league_id < s.next_league_id
    &&& forall|i: int, j: int|
        0 <= i < j < s.memberships.len() ==> !(#[trigger] s.memberships[i].player_id@ == #[trigger] s.memberships[j].player_id@
            && s.memberships[i].league_id@ == s.memberships[j].league_id@)
    &&& forall|i: int, j: int|
        0 <= i < j < s.matches.len() ==> #[trigger] s.matches[i].id != #[trigger] s.matches[j].id
    &&& forall|i: int| 0 <= i < s.matches.len() ==> #[trigger] s.matches[i].id < s.next_match_id
    &&& forall|i: int, j: int|
        0 <= i < j < s.join_requests.len() ==> #[trigger] s.join_requests[i].request_id != #[trigger] s.join_requests[j].request_id
    &&& forall|i: int| 0 <= i < s.join_requests.len() ==> #[trigger] s.join_requests[i].request_id < s.next_request_id
    &&& forall|i: int, j: int|
        0 <= i < j < s.appointments.len() ==> #[trigger] s.appointments[i].appointment_id != #[trigger] s.appointments[j].appointment_id
    &&& forall|i: int| 0 <= i < s.appointments.len() ==> #[trigger] s.appointments[i].appointment_id < s.next_appointment_id
}

/// The store with no rows and all counters at 1.
pub open spec fn empty_store() -> StoreView {
    StoreView {
        players: Seq::empty(),
        leagues: Seq::empty(),
        memberships: Seq::empty(),
        matches: Seq::empty(),
        join_requests: Seq::empty(),
        appointments: Seq::empty(),
        next_player_id: 1,
        next_league_id: 1,
        next_match_id: 1,
        next_request_id: 1,
        next_appointment_id: 1,
    }
}

impl Store {
    /// A fresh store with no rows.
    pub fn new() -> (s: Store)
        ensures
            s@ == empty_store(),
            wf(s@),
    {
        let s = Store {
            players: Vec::new(),
            leagues: Vec::new(),
            memberships: Vec::new(),
            matches: Vec::new(),
            join_requests: Vec::new(),
            appointments: Vec::new(),
            next_player_id: 1,
            next_league_id: 1,
            next_match_id: 1,
            next_request_id: 1,
            next_appointment_id: 1,
        };
        proof {
            assert(s@ =~= empty_store());
        }
        s
    }
}

/// Whether a membership row matches `player` and `league`.
fn membership_matches(m: &LeaguePlayer, player: &str, league: &str) -> (r: bool)
    ensures
        r == (m.player_id@ == player@ && m.league_id@ == league@),
{
    crate::strutil::str_eq(m.player_id.as_str(), player) && crate::strutil::str_eq(
        m.league_id.as_str(),
        league,
    )
}

/// Whether `player` is a member of `league`, by scanning the membership
/// table.
pub fn member_exists(ms: &Vec<LeaguePlayer>, player: &str, league: &str) -> (r: bool)
    ensures
        r == is_member(ms@, player@, league@),
{
    let n = ms.len();
    let mut i: usize = 0;
    while i < n
        invariant
            n == ms@.len(),
            i <= n,
            forall|j: int|
                0 <= j < i ==> !(#[trigger] ms@[j].player_id@ == player@ && ms@[j].league_id@
                    == league@),
        decreases n - i,
    {
        if membership_matches(&ms[i], player, league) {
            return true;
        }
        i += 1;
    }
    false
}

/// The index of the membership row for (`player`, `league`), if one
/// exists.
pub fn find_membership_index(ms: &Vec<LeaguePlayer>, player: &str, league: &str) -> (r: Option<
    usize,
>)
    ensures
        match r {
            Some(i) => i < ms@.len() && ms@[i as int].player_id@ == player@ && ms@[i as int].league_id@
                == league@,
            None => !is_member(ms@, player@, league@),
        },
{
    let n = ms.len();
    let mut i: usize = 0;
    while i < n
        invariant
            n == ms@.len(),
            i <= n,
            forall|j: int|
                0 <= j < i ==> !(#[trigger] ms@[j].player_id@ == player@ && ms@[j].league_id@
                    == league@),
        decreases n - i,
    {
        if membership_matches(&ms[i], player, league) {
            return Some(i);
        }
        i += 1;
    }
    None
}

/// The index of the match row carrying `id`, if one exists.
pub fn find_match_index(v: &Vec<Match>, id: i32) -> (r: Option<usize>)
    ensures
        match r {
            Some(i) => i < v@.len() && v@[i as int].id == id,
            None => !has_match(v@, id),
        },
{
    let n = v.len();
    let mut i: usize = 0;
    while i < n
        invariant
            n == v@.len(),
            i <= n,
            forall|j: int| 0 <= j < i ==> #[trigger] v@[j].id != id,
        decreases n - i,
    {
        if v[i].id == id {
            return Some(i);
        }
        i += 1;
    }
    None
}

/// Extending a prefix by one element extends its filtered image exactly
/// when the element satisfies the predicate.  This is the step every
/// filtered-query loop in the crate takes.
pub proof fn lemma_filter_take_step<A>(s: Seq<A>, pred: spec_fn(A) -> bool, i: int)
    requires
        0 <= i < s.len(),
    ensures
        s.take(i + 1).filter(pred) == if pred(s[i]) {
            s.take(i).filter(pred).push(s[i])
        } else {
            s.take(i).filter(pred)
        },
{
    reveal(Seq::filter);
    assert(s.take(i + 1).drop_last() =~= s.take(i));
    assert(s.take(i + 1).last() == s[i]);
}

/// Under [`wf`], a membership row found at some index is the row
/// [`membership_index`] names.
pub proof fn lemma_membership_index_unique(
    ms: Seq<LeaguePlayer>,
    player: Seq<char>,
    league: Seq<char>,
    i: int,
)
    requires
        forall|a: int, b: int|
            0 <= a < b < ms.len() ==> !(#[trigger] ms[a].player_id@ == #[trigger] ms[b].player_id@
                && ms[a].league_id@ == ms[b].league_id@),
        0 <= i < ms.len(),
        ms[i].player_id@ == player,
        ms[i].league_id@ == league,
    ensures
        membership_index(ms, player, league) == i,
        is_member(ms, player, league),
{
    assert(is_member(ms, player, league));
    let k = membership_index(ms, player, league);
    if k < i {
        assert(!(ms[k].player_id@ == ms[i].player_id@ && ms[k].league_id@ == ms[i].league_id@));
    } else if i < k {
        assert(!(ms[i].player_id@ == ms[k].player_id@ && ms[i].league_id@ == ms[k].league_id@));
    }
}

/// Under [`wf`], a league row found at some index by identifier is the
/// row [`league_index_by_id`] names.
pub proof fn lemma_league_id_index_unique(s: Seq<League>, id: i32, i: int)
    requires
        forall|a: int, b: int|
            0 <= a < b < s.len() ==> #[trigger] s[a].league_id != #[trigger] s[b].league_id,
        0 <= i < s.len(),
        s[i].league_id == id,
    ensures
        league_index_by_id(s, id) == i,
        has_league_id(s, id),
{
    assert(has_league_id(s, id));
    let k = league_index_by_id(s, id);
    if k < i {
        assert(s[k].league_id != s[i].league_id);
    } else if i < k {
        assert(s[i].league_id != s[k].league_id);
    }
}

/// Under [`wf`], a league row found at some index by name is the row
/// [`league_index_by_name`] names.
pub proof fn lemma_league_name_index_unique(s: Seq<League>, name: Seq<char>, i: int)
    requires
        forall|a: int, b: int|
            0 <= a < b < s.len() ==> #[trigger] s[a].league_name@ != #[trigger] s[b].league_name@,
        0 <= i < s.len(),
        s[i].league_name@ == name,
    ensures
        league_index_by_name(s, name) == i,
        league_name_taken(s, name),
{
    assert(league_name_taken(s, name));
    let k = league_index_by_name(s, name);
    if k < i {
        assert(s[k].league_name@ != s[i].league_name@);
    } else if i < k {
        assert(s[i].league_name@ != s[k].league_name@);
    }
}

/// Under [`wf`], a player row found at some index by email is the row
/// [`player_index_by_email`] names.
pub proof fn lemma_player_email_index_unique(s: Seq<Player>, email: Seq<char>, i: int)
    requires
        forall|a: int, b: int|
            0 <= a < b < s.len() ==> #[trigger] s[a].email@ != #[trigger] s[b].email@,
        0 <= i < s.len(),
        s[i].email@ == email,
    ensures
        player_index_by_email(s, email) == i,
        player_email_taken(s, email),
{
    assert(player_email_taken(s, email));
    let k = player_index_by_email(s, email);
    if k < i {
        assert(s[k].email@ != s[i].email@);
    } else if i < k {
        assert(s[i].email@ != s[k].email@);
    }
}

/// Under [`wf`], a player row found at some index by name is the row
/// [`player_index_by_name`] names.
pub proof fn lemma_player_name_index_unique(s: Seq<Player>, name: Seq<char>, i: int)
    requires
        forall|a: int, b: int|
            0 <= a < b < s.len() ==> #[trigger] s[a].name@ != #[trigger] s[b].name@,
        0 <= i < s.len(),
        s[i].name@ == name,
    ensures
        player_index_by_name(s, name) == i,
        player_name_taken(s, name),
{
    assert(player_name_taken(s, name));
    let k = player_index_by_name(s, name);
    if k < i {
        assert(s[k].name@ != s[i].name@);
    } else if i < k {
        assert(s[i].name@ != s[k].name@);
    }
}

/// Under [`wf`], a match row found at some index is the row
/// [`match_index`] names.
pub proof fn lemma_match_index_unique(s: Seq<Match>, id: i32, i: int)
    requires
        forall|a: int, b: int| 0 <= a < b < s.len() ==> #[trigger] s[a].id != #[trigger] s[b].id,
        0 <= i < s.len(),
        s[i].id == id,
    ensures
        match_index(s, id) == i,
        has_match(s, id),
        match_at(s, id) == s[i],
{
    assert(has_match(s, id));
    let k = match_index(s, id);
    if k < i {
        assert(s[k].id != s[i].id);
    } else if i < k {
        assert(s[i].id != s[k].id);
    }
}

} // verus!
