//! Decisions the database layer takes on what it read.
use crate::models::{expired_at, FeatureVote, Secret, Session};
use vstd::prelude::*;

verus! {

/// The secrets to delete for the sessions of `s` that have expired at
/// `now`: each session's own secret and that of its token, in order.
pub open spec fn expired_secrets(s: Seq<Session>, now: i64) -> Seq<(Secret, Secret)>
    decreases s.len(),
{
    if s.len() == 0 {
        Seq::empty()
    } else {
        let rest = expired_secrets(s.drop_last(), now);
        if expired_at(s.last().expiration, now) {
            rest.push((s.last().secret, s.last().api_secret))
        } else {
            rest
        }
    }
}

/// Whether a vote is over: a vote that is not stored counts as over.
pub fn is_vote_ended(found: &Option<FeatureVote>) -> (r: bool)
    ensures
        r == match *found {
            None => true,
            Some(v) => v.is_vote_ended,
        },
{
    match found {
        None => true,
        Some(vote) => vote.is_vote_ended,
    }
}

/// What removing the expired sessions deletes, given every stored session:
/// for each expired one, its secret and that of its token.
pub fn delete_expired_sessions(sessions: &Vec<Session>, now: i64) -> (r: Vec<(Secret, Secret)>)
    ensures
        r@ == expired_secrets(sessions@, now),
{
    let mut out: Vec<(Secret, Secret)> = Vec::new();
    let mut i: usize = 0;
    while i < sessions.len()
        invariant
            i <= sessions@.len(),
            out@ == expired_secrets(sessions@.take(i as int), now),
        decreases sessions@.len() - i,
    {
        let s = &sessions[i];
        proof {
            assert(sessions@.take(i + 1).drop_last() =~= sessions@.take(i as int));
        }
        if s.is_expired(now) {
            out.push((s.secret.clone(), s.api_secret.clone()));
        }
        i = i + 1;
    }
    assert(sessions@.take(sessions@.len() as int) =~= sessions@);
    out
}

} // verus!
