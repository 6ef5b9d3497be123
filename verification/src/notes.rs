//! Audit notes for match lifecycle transitions.
//!
//! Accepting or rejecting a match appends one entry to the match's
//! free-text notes.  Exactly one of four templated forms applies,
//! depending on whether prior notes exist and whether the acting player
//! supplied a comment (or rejection reason); the resulting string must be
//! reproduced exactly for audit-trail compatibility.

use vstd::prelude::*;

verus! {

/// The entry appended on acceptance: the divider line, then either the
/// acting player's comments or a note naming the player.
pub open spec fn accept_entry(comments: Option<Seq<char>>, player: Seq<char>) -> Seq<char> {
    match comments {
        Some(c) => "-----------------\nAccepted: "@ + c,
        None => "-----------------\nAccepted by player "@ + player,
    }
}

/// The entry appended on rejection, worded with "Rejected" and the
/// rejection reason in place of comments.
pub open spec fn reject_entry(reason: Option<Seq<char>>, player: Seq<char>) -> Seq<char> {
    match reason {
        Some(c) => "-----------------\nRejected: "@ + c,
        None => "-----------------\nRejected by player "@ + player,
    }
}

/// An entry appended to the prior notes: separated from them by a newline
/// when they exist, standing alone when they do not.
pub open spec fn appended_notes(prior: Option<Seq<char>>, entry: Seq<char>) -> Seq<char> {
    match prior {
        Some(n) => n + "\n"@ + entry,
        None => entry,
    }
}

fn push_prior(out: &mut String, prior: &Option<String>)
    requires
        old(out)@ == Seq::<char>::empty(),
    ensures
        forall|e: Seq<char>| #![trigger appended_notes(prior.deep_view(), e)]
            final(out)@ + e == appended_notes(prior.deep_view(), e),
{
    match prior {
        Some(n) => {
            out.append(n.as_str());
            out.append("\n");
            proof {
                assert forall|e: Seq<char>|
                    final(out)@ + e == #[trigger] appended_notes(prior.deep_view(), e) by {
                    assert((Seq::<char>::empty() + n@ + "\n"@) + e =~= n@ + "\n"@ + e);
                }
            }
        },
        None => {
            proof {
                assert forall|e: Seq<char>|
                    final(out)@ + e == #[trigger] appended_notes(prior.deep_view(), e) by {
                    assert(Seq::<char>::empty() + e =~= e);
                }
            }
        },
    }
}

/// The notes after an acceptance: the prior notes (if any) with the accept
/// entry appended.
pub fn format_accept_notes(prior: &Option<String>, comments: &Option<String>, player_id: &str) -> (r:
    String)
    ensures
        r@ == appended_notes(prior.deep_view(), accept_entry(comments.deep_view(), player_id@)),
{
    let mut out = String::new();
    push_prior(&mut out, prior);
    let ghost base = out@;
    match comments {
        Some(c) => {
            out.append("-----------------\nAccepted: ");
            out.append(c.as_str());
            proof {
                assert(out@ =~= base + ("-----------------\nAccepted: "@ + c@));
            }
        },
        None => {
            out.append("-----------------\nAccepted by player ");
            out.append(player_id);
            proof {
                assert(out@ =~= base + ("-----------------\nAccepted by player "@ + player_id@));
            }
        },
    }
    out
}

/// The notes after a rejection: the prior notes (if any) with the reject
/// entry appended.
pub fn format_reject_notes(prior: &Option<String>, reason: &Option<String>, player_id: &str) -> (r:
    String)
    ensures
        r@ == appended_notes(prior.deep_view(), reject_entry(reason.deep_view(), player_id@)),
{
    let mut out = String::new();
    push_prior(&mut out, prior);
    let ghost base = out@;
    match reason {
        Some(c) => {
            out.append("-----------------\nRejected: ");
            out.append(c.as_str());
            proof {
                assert(out@ =~= base + ("-----------------\nRejected: "@ + c@));
            }
        },
        None => {
            out.append("-----------------\nRejected by player ");
            out.append(player_id);
            proof {
                assert(out@ =~= base + ("-----------------\nRejected by player "@ + player_id@));
            }
        },
    }
    out
}

/// The four accept templates written out in full: with prior notes `n` and
/// comments `c` the result is `n + "\n-----------------\nAccepted: " + c`;
/// without prior notes the leading newline and prior text are omitted;
/// without comments the entry reads `"Accepted by player "` followed by
/// the acting player's identifier.
pub proof fn lemma_accept_note_templates(n: Seq<char>, c: Seq<char>, player: Seq<char>)
    ensures
        appended_notes(Some(n), accept_entry(Some(c), player)) == n + "\n-----------------\nAccepted: "@
            + c,
        appended_notes(None, accept_entry(Some(c), player)) == "-----------------\nAccepted: "@ + c,
        appended_notes(Some(n), accept_entry(None, player)) == n
            + "\n-----------------\nAccepted by player "@ + player,
        appended_notes(None, accept_entry(None, player)) == "-----------------\nAccepted by player "@
            + player,
{
    reveal_strlit("\n");
    reveal_strlit("-----------------\nAccepted: ");
    reveal_strlit("\n-----------------\nAccepted: ");
    reveal_strlit("-----------------\nAccepted by player ");
    reveal_strlit("\n-----------------\nAccepted by player ");
    assert("\n"@ + "-----------------\nAccepted: "@ =~= "\n-----------------\nAccepted: "@);
    assert("\n"@ + "-----------------\nAccepted by player "@
        =~= "\n-----------------\nAccepted by player "@);
    assert(appended_notes(Some(n), accept_entry(Some(c), player)) =~= n
        + "\n-----------------\nAccepted: "@ + c);
    assert(appended_notes(Some(n), accept_entry(None, player)) =~= n
        + "\n-----------------\nAccepted by player "@ + player);
}

} // verus!
