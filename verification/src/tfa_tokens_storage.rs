//! The in-memory store of two-factor tokens.
use crate::models::{expired_at, fits, DiscordUserId, Secret, TFAToken};
use vstd::prelude::*;

verus! {

/// The tokens of `s` that have not expired at `now`, in order.
pub open spec fn live_tokens(s: Seq<TFAToken>, now: i64) -> Seq<TFAToken>
    decreases s.len(),
{
    if s.len() == 0 {
        Seq::empty()
    } else {
        let rest = live_tokens(s.drop_last(), now);
        if expired_at(s.last().expiration, now) {
            rest
        } else {
            rest.push(s.last())
        }
    }
}

/// No two tokens of `s` share a secret.
pub open spec fn unique_secrets(s: Seq<TFAToken>) -> bool {
    forall|i: int, j: int|
        0 <= i < s.len() && 0 <= j < s.len() && i != j ==> (#[trigger] s[i]).secret.0@ != (
        #[trigger] s[j]).secret.0@
}

/// Whether some token of `s` has the secret `secret`.
pub open spec fn has_secret(s: Seq<TFAToken>, secret: Seq<char>) -> bool {
    exists|i: int| 0 <= i < s.len() && (#[trigger] s[i]).secret.0@ == secret
}

/// Index of the first token of `s` at or after `i` with the given secret,
/// or `s.len()`.
pub open spec fn first_with_secret(s: Seq<TFAToken>, secret: Seq<char>, i: int) -> int
    decreases s.len() - i,
{
    if i < 0 || i >= s.len() {
        s.len() as int
    } else if s[i].secret.0@ == secret {
        i
    } else {
        first_with_secret(s, secret, i + 1)
    }
}

/// Index of the first token of `s` at or after `i` for the given user, or
/// `s.len()`.
pub open spec fn first_for_user(s: Seq<TFAToken>, user: DiscordUserId, i: int) -> int
    decreases s.len() - i,
{
    if i < 0 || i >= s.len() {
        s.len() as int
    } else if s[i].discord_user_id == user {
        i
    } else {
        first_for_user(s, user, i + 1)
    }
}

/// The search for a user's token ends within the sequence or just past it.
pub proof fn lemma_first_for_user_bounds(s: Seq<TFAToken>, user: DiscordUserId, i: int)
    requires
        0 <= i <= s.len(),
    ensures
        i <= first_for_user(s, user, i) <= s.len(),
        first_for_user(s, user, i) < s.len() ==> s[first_for_user(s, user, i)].discord_user_id
            == user,
        forall|k: int|
            i <= k < first_for_user(s, user, i) ==> (#[trigger] s[k]).discord_user_id != user,
    decreases s.len() - i,
{
    if i < s.len() && s[i].discord_user_id != user {
        lemma_first_for_user_bounds(s, user, i + 1);
    }
}

/// The search for a secret ends within the sequence or just past it.
pub proof fn lemma_first_with_secret_bounds(s: Seq<TFAToken>, secret: Seq<char>, i: int)
    requires
        0 <= i <= s.len(),
    ensures
        i <= first_with_secret(s, secret, i) <= s.len(),
        first_with_secret(s, secret, i) < s.len() ==> s[first_with_secret(s, secret, i)].secret.0@
            == secret,
        forall|k: int|
            i <= k < first_with_secret(s, secret, i) ==> (#[trigger] s[k]).secret.0@ != secret,
    decreases s.len() - i,
{
    if i < s.len() && s[i].secret.0@ != secret {
        lemma_first_with_secret_bounds(s, secret, i + 1);
    }
}

/// The token of `s` found at `index`, or nothing when the index is past the end.
pub open spec fn found_at(s: Seq<TFAToken>, index: int) -> Option<TFAToken> {
    if 0 <= index < s.len() {
        Some(s[index])
    } else {
        None
    }
}

/// Each kept token is a token of `s` that is live at `now`.
pub proof fn lemma_live_tokens_from(s: Seq<TFAToken>, now: i64, k: int)
    requires
        0 <= k < live_tokens(s, now).len(),
    ensures
        exists|j: int| 0 <= j < s.len() && s[j] == live_tokens(s, now)[k],
        !expired_at(live_tokens(s, now)[k].expiration, now),
    decreases s.len(),
{
    let rest = live_tokens(s.drop_last(), now);
    if k < rest.len() {
        lemma_live_tokens_from(s.drop_last(), now, k);
        let j = choose|j: int| 0 <= j < s.drop_last().len() && s.drop_last()[j] == rest[k];
        assert(s[j] == live_tokens(s, now)[k]);
    } else {
        assert(s[s.len() - 1] == live_tokens(s, now)[k]);
    }
}

proof fn lemma_live_tokens_unique(s: Seq<TFAToken>, now: i64)
    requires
        unique_secrets(s),
    ensures
        unique_secrets(live_tokens(s, now)),
    decreases s.len(),
{
    if s.len() > 0 {
        let d = s.drop_last();
        assert(unique_secrets(d)) by {
            assert forall|i: int, j: int|
                0 <= i < d.len() && 0 <= j < d.len() && i != j implies (#[trigger] d[i]).secret.0@
                != (#[trigger] d[j]).secret.0@ by {
                assert(d[i] == s[i] && d[j] == s[j]);
            }
        }
        lemma_live_tokens_unique(d, now);
        let rest = live_tokens(d, now);
        if !expired_at(s.last().expiration, now) {
            let l = rest.push(s.last());
            assert forall|i: int, j: int|
                0 <= i < l.len() && 0 <= j < l.len() && i != j implies (#[trigger] l[i]).secret.0@
                != (#[trigger] l[j]).secret.0@ by {
                if i < rest.len() && j < rest.len() {
                    assert(l[i] == rest[i] && l[j] == rest[j]);
                } else if i < rest.len() {
                    lemma_live_tokens_from(d, now, i);
                    let a = choose|a: int| 0 <= a < d.len() && d[a] == rest[i];
                    assert(s[a] == l[i]);
                    assert(s[s.len() - 1] == l[j]);
                } else {
                    lemma_live_tokens_from(d, now, j);
                    let a = choose|a: int| 0 <= a < d.len() && d[a] == rest[j];
                    assert(s[a] == l[j]);
                    assert(s[s.len() - 1] == l[i]);
                }
            }
        }
    }
}

/// Every token of `s` that has not expired at `now` is kept.
proof fn lemma_live_tokens_keeps(s: Seq<TFAToken>, now: i64, j: int)
    requires
        0 <= j < s.len(),
        !expired_at(s[j].expiration, now),
    ensures
        exists|k: int| 0 <= k < live_tokens(s, now).len() && live_tokens(s, now)[k] == s[j],
    decreases s.len(),
{
    if j < s.len() - 1 {
        lemma_live_tokens_keeps(s.drop_last(), now, j);
        let k = choose|k: int|
            0 <= k < live_tokens(s.drop_last(), now).len() && live_tokens(s.drop_last(), now)[k]
                == s.drop_last()[j];
        assert(live_tokens(s, now)[k] == s[j]);
    } else {
        let rest = live_tokens(s.drop_last(), now);
        assert(live_tokens(s, now)[rest.len() as int] == s[j]);
    }
}

/// The two-factor tokens handed out and not yet expired. No two of them
/// share a secret.
#[derive(Debug)]
pub struct TFATokensStorage {
    tokens: Vec<TFAToken>,
}

impl View for TFATokensStorage {
    type V = Seq<TFAToken>;

    closed spec fn view(&self) -> Seq<TFAToken> {
        self.tokens@
    }
}

impl TFATokensStorage {
    #[verifier::type_invariant]
    spec fn inv(self) -> bool {
        unique_secrets(self.tokens@)
    }

    /// An empty store.
    pub fn new() -> (r: TFATokensStorage)
        ensures
            r@ == Seq::<TFAToken>::empty(),
    {
        TFATokensStorage { tokens: Vec::new() }
    }

    /// The number of stored tokens.
    pub fn len(&self) -> (n: usize)
        ensures
            n == self@.len(),
    {
        self.tokens.len()
    }

    /// Drops every token that has expired at `now`.
    pub fn remove_expired_tokens(&mut self, now: i64)
        ensures
            final(self)@ == live_tokens(old(self)@, now),
            unique_secrets(final(self)@),
    {
        proof {
            use_type_invariant(&*self);
        }
        let mut kept: Vec<TFAToken> = Vec::new();
        let mut i: usize = 0;
        let n = self.tokens.len();
        while i < n
            invariant
                n == self.tokens@.len(),
                i <= n,
                kept@ == live_tokens(self.tokens@.take(i as int), now),
            decreases n - i,
        {
            let t = &self.tokens[i];
            proof {
                assert(self.tokens@.take(i + 1).drop_last() =~= self.tokens@.take(i as int));
            }
            if !t.is_expired(now) {
                kept.push(t.clone());
            }
            i = i + 1;
        }
        proof {
            assert(self.tokens@.take(n as int) =~= self.tokens@);
            lemma_live_tokens_unique(self.tokens@, now);
        }
        self.tokens = kept;
    }

    /// Whether a stored token has the secret `secret`.
    pub fn has_secret(&self, secret: &Secret) -> (r: bool)
        ensures
            r == has_secret(self@, secret.0@),
    {
        let mut i: usize = 0;
        while i < self.tokens.len()
            invariant
                i <= self.tokens@.len(),
                forall|k: int| 0 <= k < i ==> (#[trigger] self.tokens@[k]).secret.0@ != secret.0@,
            decreases self.tokens@.len() - i,
        {
            if self.tokens[i].secret.same(secret) {
                return true;
            }
            i = i + 1;
        }
        false
    }

    /// Hands out a token with secret `secret` for `discord_user_id`, valid
    /// for `duration` from `now`, after dropping the expired tokens. When a
    /// live token already has that secret, nothing is added and the result
    /// is `None`: the caller draws another secret.
    pub fn new_token(
        &mut self,
        discord_user_id: DiscordUserId,
        duration: i64,
        now: i64,
        secret: Secret,
    ) -> (r: Option<TFAToken>)
        requires
            fits(now, duration),
        ensures
            has_secret(live_tokens(old(self)@, now), secret.0@) ==> r is None && final(self)@
                == live_tokens(old(self)@, now),
            !has_secret(live_tokens(old(self)@, now), secret.0@) ==> r == Some(
                TFAToken { secret, discord_user_id, expiration: (now + duration) as i64 },
            ) && final(self)@ == live_tokens(old(self)@, now).push(r->0),
            unique_secrets(final(self)@),
    {
        self.remove_expired_tokens(now);
        if self.has_secret(&secret) {
            return None;
        }
        proof {
            use_type_invariant(&*self);
        }
        let token = TFAToken::new(secret, discord_user_id, duration, now);
        let copy = token.clone();
        let mut tokens: Vec<TFAToken> = Vec::new();
        std::mem::swap(&mut tokens, &mut self.tokens);
        tokens.push(token);
        self.tokens = tokens;
        proof {
            use_type_invariant(&*self);
        }
        Some(copy)
    }

    /// The live token with secret `secret`, after dropping the expired tokens.
    pub fn find_by_secret(&mut self, secret: &Secret, now: i64) -> (r: Option<TFAToken>)
        ensures
            final(self)@ == live_tokens(old(self)@, now),
            r == found_at(final(self)@, first_with_secret(final(self)@, secret.0@, 0)),
    {
        self.remove_expired_tokens(now);
        let mut i: usize = 0;
        while i < self.tokens.len()
            invariant
                self@ == live_tokens(old(self)@, now),
                i <= self.tokens@.len(),
                first_with_secret(self.tokens@, secret.0@, i as int) == first_with_secret(
                    self.tokens@,
                    secret.0@,
                    0,
                ),
            decreases self.tokens@.len() - i,
        {
            if self.tokens[i].secret.same(secret) {
                return Some(self.tokens[i].clone());
            }
            i = i + 1;
        }
        None
    }

    /// The first live token of `discord_user_id`, after dropping the expired
    /// tokens.
    pub fn find_by_discord_user_id(&mut self, discord_user_id: DiscordUserId, now: i64) -> (r:
        Option<TFAToken>)
        ensures
            final(self)@ == live_tokens(old(self)@, now),
            r == found_at(final(self)@, first_for_user(final(self)@, discord_user_id, 0)),
    {
        self.remove_expired_tokens(now);
        let mut i: usize = 0;
        while i < self.tokens.len()
            invariant
                self@ == live_tokens(old(self)@, now),
                i <= self.tokens@.len(),
                first_for_user(self.tokens@, discord_user_id, i as int) == first_for_user(
                    self.tokens@,
                    discord_user_id,
                    0,
                ),
            decreases self.tokens@.len() - i,
        {
            if self.tokens[i].discord_user_id.0 == discord_user_id.0 {
                return Some(self.tokens[i].clone());
            }
            i = i + 1;
        }
        None
    }
}

/// Dropping the expired tokens a second time at the same instant changes
/// nothing.
pub proof fn lemma_live_tokens_idempotent(s: Seq<TFAToken>, now: i64)
    ensures
        live_tokens(live_tokens(s, now), now) == live_tokens(s, now),
    decreases s.len(),
{
    if s.len() > 0 {
        lemma_live_tokens_idempotent(s.drop_last(), now);
        let rest = live_tokens(s.drop_last(), now);
        if !expired_at(s.last().expiration, now) {
            assert(rest.push(s.last()).drop_last() =~= rest);
        }
    }
}

/// Every token left after dropping the expired ones is live at that
/// instant, and every live token is left.
pub proof fn lemma_live_tokens_exact(s: Seq<TFAToken>, now: i64)
    ensures
        forall|k: int|
            0 <= k < live_tokens(s, now).len() ==> !expired_at(
                (#[trigger] live_tokens(s, now)[k]).expiration,
                now,
            ),
        forall|j: int|
            0 <= j < s.len() && !expired_at((#[trigger] s[j]).expiration, now) ==> exists|k: int|
                0 <= k < live_tokens(s, now).len() && live_tokens(s, now)[k] == s[j],
{
    assert forall|k: int| 0 <= k < live_tokens(s, now).len() implies !expired_at(
        (#[trigger] live_tokens(s, now)[k]).expiration,
        now,
    ) by {
        lemma_live_tokens_from(s, now, k);
    }
    assert forall|j: int| 0 <= j < s.len() && !expired_at((#[trigger] s[j]).expiration, now) implies exists|k: int|
        0 <= k < live_tokens(s, now).len() && live_tokens(s, now)[k] == s[j] by {
        lemma_live_tokens_keeps(s, now, j);
    }
}

} // verus!
