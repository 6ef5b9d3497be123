//! Appointments: pairwise bookings between two players, optionally tied
//! to a league.  A lower-complexity sibling of matches, with no
//! membership validation.

use vstd::prelude::*;
use crate::errors::AppError;
use crate::model::{Appointment, Store, StoreView, wf};
use crate::clock::now_timestamp;

verus! {

/// The fields a caller supplies to book an appointment.
pub struct CreateAppointmentInput {
    pub requester_id: i32,
    pub opponent_id: i32,
    pub start_time: String,
    pub end_time: String,
    pub league_id: Option<i32>,
}

/// What a booking returns: the fresh identifier and the initial status.
pub struct AppointmentResponse {
    pub appointment_id: i32,
    pub status: String,
}

/// The new status for an appointment.
pub struct UpdateAppointmentInput {
    pub status: String,
}

/// Everything but the appointment table and its counter is the same in
/// both stores.
pub open spec fn same_except_appointments(s0: StoreView, s1: StoreView) -> bool {
    &&& s1.players == s0.players
    &&& s1.leagues == s0.leagues
    &&& s1.memberships == s0.memberships
    &&& s1.matches == s0.matches
    &&& s1.join_requests == s0.join_requests
    &&& s1.next_player_id == s0.next_player_id
    &&& s1.next_league_id == s0.next_league_id
    &&& s1.next_match_id == s0.next_match_id
    &&& s1.next_request_id == s0.next_request_id
}

/// A freshly booked appointment row: status "pending", created and
/// updated at the booking instant.
pub open spec fn new_appointment_row(
    a: Appointment,
    input: CreateAppointmentInput,
    id: i32,
    now: i64,
) -> bool {
    &&& a.appointment_id == id
    &&& a.requester_id == input.requester_id
    &&& a.opponent_id == input.opponent_id
    &&& a.league_id == input.league_id
    &&& a.start_time == input.start_time
    &&& a.end_time == input.end_time
    &&& a.status@ == "pending"@
    &&& a.created_at == now
    &&& a.updated_at == now
}

/// Whether an appointment row carries identifier `id`.
pub open spec fn has_appointment(s: Seq<Appointment>, id: i32) -> bool {
    exists|i: int| 0 <= i < s.len() && s[i].appointment_id == id
}

/// The index of that appointment row (unique under [`wf`]).
pub open spec fn appointment_index(s: Seq<Appointment>, id: i32) -> int {
    choose|i: int| 0 <= i < s.len() && s[i].appointment_id == id
}

/// The two appointment rows agree on every field but `status` and
/// `updated_at`.
pub open spec fn same_but_appointment_status(a: Appointment, b: Appointment) -> bool {
    &&& b.appointment_id == a.appointment_id
    &&& b.requester_id == a.requester_id
    &&& b.opponent_id == a.opponent_id
    &&& b.league_id == a.league_id
    &&& b.start_time == a.start_time
    &&& b.end_time == a.end_time
    &&& b.created_at == a.created_at
}

proof fn lemma_appointment_index_unique(s: Seq<Appointment>, id: i32, i: int)
    requires
        forall|a: int, b: int|
            0 <= a < b < s.len() ==> #[trigger] s[a].appointment_id != #[trigger] s[b].appointment_id,
        0 <= i < s.len(),
        s[i].appointment_id == id,
    ensures
        appointment_index(s, id) == i,
        has_appointment(s, id),
{
    assert(has_appointment(s, id));
    let k = appointment_index(s, id);
    if k < i {
        assert(s[k].appointment_id != s[i].appointment_id);
    } else if i < k {
        assert(s[i].appointment_id != s[k].appointment_id);
    }
}

/// Book an appointment at instant `now`: append a "pending" row and
/// return its identifier with the initial status.
pub fn create_appointment_at(store: &mut Store, input: &CreateAppointmentInput, now: i64) -> (resp:
    AppointmentResponse)
    requires
        wf(old(store)@),
        old(store)@.next_appointment_id < i32::MAX,
    ensures
        wf(final(store)@),
        same_except_appointments(old(store)@, final(store)@),
        final(store)@.next_appointment_id == old(store)@.next_appointment_id + 1,
        final(store)@.appointments == old(store)@.appointments.push(
            final(store)@.appointments.last(),
        ),
        new_appointment_row(
            final(store)@.appointments.last(),
            *input,
            old(store)@.next_appointment_id,
            now,
        ),
        resp.appointment_id == old(store)@.next_appointment_id,
        resp.status@ == "pending"@,
{
    let id = store.next_appointment_id;
    let row = Appointment {
        appointment_id: id,
        requester_id: input.requester_id,
        opponent_id: input.opponent_id,
        league_id: input.league_id,
        start_time: input.start_time.clone(),
        end_time: input.end_time.clone(),
        status: "pending".to_owned(),
        created_at: now,
        updated_at: now,
    };
    store.appointments.push(row);
    store.next_appointment_id = id + 1;
    AppointmentResponse { appointment_id: id, status: "pending".to_owned() }
}

/// Book an appointment at the current clock time.
pub fn create_appointment(store: &mut Store, input: &CreateAppointmentInput) -> (resp:
    AppointmentResponse)
    requires
        wf(old(store)@),
        old(store)@.next_appointment_id < i32::MAX,
    ensures
        wf(final(store)@),
        same_except_appointments(old(store)@, final(store)@),
        final(store)@.next_appointment_id == old(store)@.next_appointment_id + 1,
        final(store)@.appointments == old(store)@.appointments.push(
            final(store)@.appointments.last(),
        ),
        new_appointment_row(
            final(store)@.appointments.last(),
            *input,
            old(store)@.next_appointment_id,
            final(store)@.appointments.last().created_at,
        ),
        resp.appointment_id == old(store)@.next_appointment_id,
        resp.status@ == "pending"@,
{
    let now = now_timestamp();
    create_appointment_at(store, input, now)
}

fn set_appointment_status(store: &mut Store, appointment_id: i32, status: &String, now: i64)
    requires
        wf(old(store)@),
    ensures
        wf(final(store)@),
        same_except_appointments(old(store)@, final(store)@),
        final(store)@.next_appointment_id == old(store)@.next_appointment_id,
        if has_appointment(old(store)@.appointments, appointment_id) {
            let k = appointment_index(old(store)@.appointments, appointment_id);
            &&& final(store)@.appointments == old(store)@.appointments.update(
                k,
                final(store)@.appointments[k],
            )
            &&& final(store)@.appointments[k].status@ == status@
            &&& final(store)@.appointments[k].updated_at == now
            &&& same_but_appointment_status(
                old(store)@.appointments[k],
                final(store)@.appointments[k],
            )
        } else {
            final(store)@.appointments == old(store)@.appointments
        },
{
    match find_appointment_index(&store.appointments, appointment_id) {
        Some(k) => {
            proof {
                lemma_appointment_index_unique(store@.appointments, appointment_id, k as int);
            }
            let mut row = store.appointments.remove(k);
            row.status = status.clone();
            row.updated_at = now;
            store.appointments.insert(k, row);
            proof {
                let s0 = old(store)@.appointments;
                let s1 = store@.appointments;
                assert(s1 =~= s0.update(k as int, s1[k as int]));
                assert forall|a: int, b: int| 0 <= a < b < s1.len() implies
                    #[trigger] s1[a].appointment_id != #[trigger] s1[b].appointment_id by {
                    assert(s1[a].appointment_id == s0[a].appointment_id);
                    assert(s1[b].appointment_id == s0[b].appointment_id);
                }
                assert forall|a: int| 0 <= a < s1.len() implies #[trigger] s1[a].appointment_id
                    < store@.next_appointment_id by {
                    assert(s1[a].appointment_id == s0[a].appointment_id);
                }
            }
        },
        None => {},
    }
}

fn find_appointment_index(v: &Vec<Appointment>, id: i32) -> (r: Option<usize>)
    ensures
        match r {
            Some(i) => i < v@.len() && v@[i as int].appointment_id == id,
            None => !has_appointment(v@, id),
        },
{
    let n = v.len();
    let mut i: usize = 0;
    while i < n
        invariant
            n == v@.len(),
            i <= n,
            forall|j: int| 0 <= j < i ==> #[trigger] v@[j].appointment_id != id,
        decreases n - i,
    {
        if v[i].appointment_id == id {
            return Some(i);
        }
        i += 1;
    }
    None
}

/// Overwrite an appointment's status, stamping the update time.  Updating
/// an identifier with no row changes nothing and is not an error.
pub fn update_appointment(
    store: &mut Store,
    appointment_id: i32,
    input: &UpdateAppointmentInput,
) -> (r: Result<(), AppError>)
    requires
        wf(old(store)@),
    ensures
        wf(final(store)@),
        r is Ok,
        same_except_appointments(old(store)@, final(store)@),
        final(store)@.next_appointment_id == old(store)@.next_appointment_id,
        if has_appointment(old(store)@.appointments, appointment_id) {
            let k = appointment_index(old(store)@.appointments, appointment_id);
            &&& final(store)@.appointments == old(store)@.appointments.update(
                k,
                final(store)@.appointments[k],
            )
            &&& final(store)@.appointments[k].status@ == input.status@
            &&& same_but_appointment_status(
                old(store)@.appointments[k],
                final(store)@.appointments[k],
            )
        } else {
            final(store)@.appointments == old(store)@.appointments
        },
{
    let now = now_timestamp();
    set_appointment_status(store, appointment_id, &input.status, now);
    Ok(())
}

/// Cancel an appointment: overwrite its status with "cancelled", stamping
/// the update time.  Cancelling an identifier with no row changes nothing
/// and is not an error.
pub fn cancel_appointment(store: &mut Store, appointment_id: i32) -> (r: Result<(), AppError>)
    requires
        wf(old(store)@),
    ensures
        wf(final(store)@),
        r is Ok,
        same_except_appointments(old(store)@, final(store)@),
        final(store)@.next_appointment_id == old(store)@.next_appointment_id,
        if has_appointment(old(store)@.appointments, appointment_id) {
            let k = appointment_index(old(store)@.appointments, appointment_id);
            &&& final(store)@.appointments == old(store)@.appointments.update(
                k,
                final(store)@.appointments[k],
            )
            &&& final(store)@.appointments[k].status@ == "cancelled"@
            &&& same_but_appointment_status(
                old(store)@.appointments[k],
                final(store)@.appointments[k],
            )
        } else {
            final(store)@.appointments == old(store)@.appointments
        },
{
    let now = now_timestamp();
    let status = "cancelled".to_owned();
    set_appointment_status(store, appointment_id, &status, now);
    Ok(())
}

} // verus!
