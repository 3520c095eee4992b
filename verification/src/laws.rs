//! Properties that relate several operations of the library.
use crate::api::account::{
    add_role_verdict, connect_caller_verdict, create_account_verdict, remove_role_verdict,
    tfa_get_or_create,
};
use crate::api::token::{create_token_verdict, delete_token_verdict};
use crate::api::webhook::{create_webhook_verdict, delete_webhook_verdict};
use crate::api::{msg_bad_api_token, msg_forbidden, valid_token};
use crate::api::session::opened_session;
use crate::api::{outranked, ErrorKind, ResolvedCaller, Verdict};
use crate::models::{
    Webhook, ServiceError, expired_at, has_role, Account, ApiToken, DiscordUserId, Role, RoleId, Secret, Session,
    TFAToken, SESSION_DURATION, TFA_TOKEN_DURATION,
};
use crate::rights::{all_rights, rights_le, scope_nonempty, RightsView, ServiceId};
use crate::services::{planned_delivery, MessageInfo, DESCRIPTION_MAX, PATCH_WINDOW};
use crate::tfa_tokens_storage::{
    first_for_user, first_with_secret, found_at, has_secret, lemma_first_for_user_bounds,
    lemma_first_with_secret_bounds, lemma_live_tokens_exact, lemma_live_tokens_from, lemma_live_tokens_idempotent,
    live_tokens, unique_secrets,
};
use vstd::prelude::*;

verus! {

proof fn lemma_live_push(s: Seq<TFAToken>, t: TFAToken, now: i64)
    requires
        !expired_at(t.expiration, now),
    ensures
        live_tokens(s.push(t), now) == live_tokens(s, now).push(t),
{
    assert(s.push(t).drop_last() =~= s);
}

proof fn lemma_first_for_user_push(s: Seq<TFAToken>, t: TFAToken, user: DiscordUserId)
    requires
        first_for_user(s, user, 0) == s.len(),
        t.discord_user_id == user,
    ensures
        first_for_user(s.push(t), user, 0) == s.len(),
{
    lemma_first_for_user_bounds(s, user, 0);
    lemma_first_for_user_bounds(s.push(t), user, 0);
    let j = first_for_user(s.push(t), user, 0);
    if j < s.len() {
        assert(s.push(t)[j] == s[j]);
    }
    if j > s.len() {
        assert(s.push(t)[s.len() as int] == t);
    }
}

proof fn lemma_first_with_secret_push(s: Seq<TFAToken>, t: TFAToken, secret: Seq<char>)
    requires
        !has_secret(s, secret),
        t.secret.0@ == secret,
    ensures
        first_with_secret(s.push(t), secret, 0) == s.len(),
{
    lemma_first_with_secret_bounds(s.push(t), secret, 0);
    let j = first_with_secret(s.push(t), secret, 0);
    if j < s.len() {
        assert(s.push(t)[j] == s[j]);
        assert(has_secret(s, secret));
    }
    if j > s.len() {
        assert(s.push(t)[s.len() as int] == t);
    }
}

/// Whether a verdict is a refusal of the given kind.
pub open spec fn refuses_as(v: Verdict, kind: ErrorKind) -> bool {
    v matches Verdict::Refuse(k, _) && k == kind
}

/// A call made with a token that does not exist or has expired is refused
/// as unauthorised, whatever it asks for.
pub proof fn law_bad_token_is_unauthorized(
    t: Option<ApiToken>,
    now: i64,
    role_id: RoleId,
    role: Option<Role>,
    roles: Seq<Role>,
    rights: RightsView,
    duration: Option<i64>,
    is_service: bool,
    target: Option<ApiToken>,
    service: ServiceId,
    registered: bool,
    name: Seq<char>,
    check: Result<(), ServiceError>,
    webhook: Option<Webhook>,
)
    requires
        !valid_token(t, now),
    ensures
        ({
            let c = ResolvedCaller::Token(t);
            let u = Verdict::Refuse(ErrorKind::Unauthorized, msg_bad_api_token());
            &&& create_account_verdict(c, now) == u
            &&& connect_caller_verdict(c, now) == u
            &&& add_role_verdict(c, role_id, role, roles, now) == u
            &&& remove_role_verdict(c, role_id, role, roles, now) == u
            &&& create_token_verdict(c, rights, duration, is_service, now) == u
            &&& delete_token_verdict(c, target, now) == u
            &&& create_webhook_verdict(c, service, registered, name, check, now) == u
            &&& delete_webhook_verdict(c, webhook, now) == u
        }),
{
}

/// The server itself is never refused for want of rights: its calls are
/// refused only for what they ask, never as unauthorised or forbidden.
pub proof fn law_internal_caller_never_forbidden(
    now: i64,
    role_id: RoleId,
    role: Option<Role>,
    roles: Seq<Role>,
    rights: RightsView,
    duration: Option<i64>,
    is_service: bool,
    target: Option<ApiToken>,
    service: ServiceId,
    registered: bool,
    name: Seq<char>,
    check: Result<(), ServiceError>,
    webhook: Option<Webhook>,
)
    ensures
        ({
            let c = ResolvedCaller::Internal;
            &&& create_account_verdict(c, now) == Verdict::Allow
            &&& connect_caller_verdict(c, now) == Verdict::Allow
            &&& !refuses_as(add_role_verdict(c, role_id, role, roles, now), ErrorKind::Forbidden)
            &&& !refuses_as(remove_role_verdict(c, role_id, role, roles, now), ErrorKind::Forbidden)
            &&& !refuses_as(create_token_verdict(c, rights, duration, is_service, now), ErrorKind::Forbidden)
            &&& !refuses_as(delete_token_verdict(c, target, now), ErrorKind::Forbidden)
            &&& !refuses_as(create_webhook_verdict(c, service, registered, name, check, now), ErrorKind::Forbidden)
            &&& !refuses_as(delete_webhook_verdict(c, webhook, now), ErrorKind::Forbidden)
            &&& !refuses_as(add_role_verdict(c, role_id, role, roles, now), ErrorKind::Unauthorized)
            &&& !refuses_as(create_token_verdict(c, rights, duration, is_service, now), ErrorKind::Unauthorized)
        }),
{
}

/// A two-factor token handed out is found by its secret for as long as it
/// has not expired: after `new_token` added `t` to the tokens `before`
/// left live at `now`, looking up `t`'s secret at any later instant `later`
/// at which `t` has not expired answers `t`.
pub proof fn law_tfa_token_found_after_creation(
    before: Seq<TFAToken>,
    t: TFAToken,
    now: i64,
    later: i64,
)
    requires
        !has_secret(live_tokens(before, now), t.secret.0@),
        now <= later,
        !expired_at(t.expiration, later),
    ensures
        ({
            let after = live_tokens(before, now).push(t);
            let kept = live_tokens(after, later);
            found_at(kept, first_with_secret(kept, t.secret.0@, 0)) == Some(t)
        }),
{
    let live = live_tokens(before, now);
    let after = live.push(t);
    lemma_live_push(live, t, later);
    let kept_rest = live_tokens(live, later);
    assert(!has_secret(kept_rest, t.secret.0@)) by {
        if has_secret(kept_rest, t.secret.0@) {
            let k = choose|k: int|
                0 <= k < kept_rest.len() && (#[trigger] kept_rest[k]).secret.0@ == t.secret.0@;
            lemma_live_tokens_from(live, later, k);
            let j = choose|j: int| 0 <= j < live.len() && live[j] == kept_rest[k];
            assert(live[j].secret.0@ == t.secret.0@);
        }
    }
    lemma_first_with_secret_push(kept_rest, t, t.secret.0@);
}

/// Once a two-factor token has expired it is no longer found by its
/// secret: after `new_token` added `t` to the tokens `before` left live at
/// `now`, looking up `t`'s secret at an instant after `t` expired answers
/// nothing.
pub proof fn law_tfa_token_gone_after_expiry(
    before: Seq<TFAToken>,
    t: TFAToken,
    now: i64,
    later: i64,
)
    requires
        !has_secret(live_tokens(before, now), t.secret.0@),
        expired_at(t.expiration, later),
    ensures
        ({
            let after = live_tokens(before, now).push(t);
            let kept = live_tokens(after, later);
            found_at(kept, first_with_secret(kept, t.secret.0@, 0)) is None
        }),
{
    let live = live_tokens(before, now);
    let after = live.push(t);
    assert(after.drop_last() =~= live);
    let kept = live_tokens(after, later);
    assert(kept == live_tokens(live, later));
    assert(!has_secret(kept, t.secret.0@)) by {
        if has_secret(kept, t.secret.0@) {
            let k = choose|k: int| 0 <= k < kept.len() && (#[trigger] kept[k]).secret.0@ == t.secret.0@;
            lemma_live_tokens_from(live, later, k);
            let j = choose|j: int| 0 <= j < live.len() && live[j] == kept[k];
            assert(live[j].secret.0@ == t.secret.0@);
        }
    }
    lemma_first_with_secret_bounds(kept, t.secret.0@, 0);
}

/// A token that may delete service tokens but not ordinary ones is refused
/// any token deletion without learning whether the target exists.
pub proof fn law_delete_token_no_probe(
    t: ApiToken,
    target: Option<ApiToken>,
    now: i64,
)
    requires
        valid_token(Some(t), now),
        !t.rights.token.token_delete,
        t.rights.token.service_token_delete,
    ensures
        delete_token_verdict(ResolvedCaller::Token(Some(t)), target, now) == Verdict::Refuse(
            ErrorKind::Forbidden,
            msg_forbidden(),
        ),
{
}

/// A token that may delete no webhook at all is refused any webhook
/// deletion without learning whether the webhook exists.
pub proof fn law_delete_webhook_no_probe(t: ApiToken, webhook: Option<Webhook>, now: i64)
    requires
        valid_token(Some(t), now),
        !scope_nonempty(t.rights.service.delete_webhooks@),
    ensures
        delete_webhook_verdict(ResolvedCaller::Token(Some(t)), webhook, now) == Verdict::Refuse(
            ErrorKind::Forbidden,
            msg_forbidden(),
        ),
{
}

/// Getting or creating a user's two-factor token twice at the same instant
/// answers the same token the second time, whatever fresh secret is
/// offered then, and changes nothing more.
pub proof fn law_tfa_get_or_create_stable(
    tokens: Seq<TFAToken>,
    user: DiscordUserId,
    first_secret: Secret,
    second_secret: Secret,
    now: i64,
)
    requires
        now + TFA_TOKEN_DURATION <= i64::MAX,
        tfa_get_or_create(tokens, user, first_secret, now).0 is Some,
    ensures
        ({
            let (r1, s1) = tfa_get_or_create(tokens, user, first_secret, now);
            let (r2, s2) = tfa_get_or_create(s1, user, second_secret, now);
            r2 == r1 && s2 == s1
        }),
{
    let live = live_tokens(tokens, now);
    lemma_live_tokens_idempotent(tokens, now);
    lemma_first_for_user_bounds(live, user, 0);
    let i = first_for_user(live, user, 0);
    if i >= live.len() {
        let t = TFAToken {
            secret: first_secret,
            discord_user_id: user,
            expiration: (now + TFA_TOKEN_DURATION) as i64,
        };
        let s1 = live.push(t);
        lemma_live_push(live, t, now);
        assert(live_tokens(s1, now) == s1);
        lemma_first_for_user_push(live, t, user);
        assert(s1[live.len() as int] == t);
    }
}

proof fn lemma_first_for_user_from(s: Seq<TFAToken>, user: DiscordUserId, i: int, j: int)
    requires
        0 <= i <= j <= s.len(),
        j < s.len() ==> s[j].discord_user_id == user,
        forall|k: int| i <= k < j ==> (#[trigger] s[k]).discord_user_id != user,
    ensures
        first_for_user(s, user, i) == j,
    decreases j - i,
{
    if i < j {
        lemma_first_for_user_from(s, user, i + 1, j);
    }
}

/// Dropping expired tokens keeps the first token of a user in front of that
/// user's other tokens, as long as it is live.
proof fn lemma_live_keeps_first_for_user(s: Seq<TFAToken>, user: DiscordUserId, now: i64)
    requires
        first_for_user(s, user, 0) < s.len(),
        !expired_at(s[first_for_user(s, user, 0)].expiration, now),
    ensures
        first_for_user(live_tokens(s, now), user, 0) < live_tokens(s, now).len(),
        live_tokens(s, now)[first_for_user(live_tokens(s, now), user, 0)] == s[first_for_user(
            s,
            user,
            0,
        )],
    decreases s.len(),
{
    let i = first_for_user(s, user, 0);
    let d = s.drop_last();
    let rest = live_tokens(d, now);
    lemma_first_for_user_bounds(s, user, 0);
    if i < s.len() - 1 {
        assert forall|k: int| 0 <= k < i implies (#[trigger] d[k]).discord_user_id != user by {
            assert(d[k] == s[k]);
        }
        assert(d[i] == s[i]);
        lemma_first_for_user_from(d, user, 0, i);
        lemma_live_keeps_first_for_user(d, user, now);
        let j = first_for_user(rest, user, 0);
        lemma_first_for_user_bounds(rest, user, 0);
        if !expired_at(s.last().expiration, now) {
            let l = rest.push(s.last());
            assert forall|k: int| 0 <= k < j implies (#[trigger] l[k]).discord_user_id != user by {
                assert(l[k] == rest[k]);
            }
            assert(l[j] == rest[j]);
            lemma_first_for_user_from(l, user, 0, j);
        }
    } else {
        assert forall|k: int| 0 <= k < rest.len() implies (#[trigger] rest[k]).discord_user_id
            != user by {
            lemma_live_tokens_from(d, now, k);
            let a = choose|a: int| 0 <= a < d.len() && d[a] == rest[k];
            assert(d[a] == s[a]);
        }
        let l = rest.push(s.last());
        assert(live_tokens(s, now) == l);
        assert forall|k: int| 0 <= k < rest.len() implies (#[trigger] l[k]).discord_user_id
            != user by {
            assert(l[k] == rest[k]);
        }
        lemma_first_for_user_from(l, user, 0, rest.len() as int);
    }
}

/// A user's two-factor token is handed out again for as long as it lives:
/// when getting or creating the token of `user` at `now` answered `t`, a
/// second call at any instant `later` at which `t` has not expired answers
/// `t` again, whatever fresh secret is offered then, and adds no token: it
/// only drops the tokens expired by then.
pub proof fn law_tfa_get_or_create_later(
    tokens: Seq<TFAToken>,
    user: DiscordUserId,
    first_secret: Secret,
    second_secret: Secret,
    now: i64,
    later: i64,
)
    requires
        now + TFA_TOKEN_DURATION <= i64::MAX,
        tfa_get_or_create(tokens, user, first_secret, now).0 matches Some(t) && !expired_at(
            t.expiration,
            later,
        ),
    ensures
        ({
            let (r1, s1) = tfa_get_or_create(tokens, user, first_secret, now);
            let (r2, s2) = tfa_get_or_create(s1, user, second_secret, later);
            r2 == r1 && s2 == live_tokens(s1, later)
        }),
{
    let live = live_tokens(tokens, now);
    lemma_first_for_user_bounds(live, user, 0);
    let i = first_for_user(live, user, 0);
    let (r1, s1) = tfa_get_or_create(tokens, user, first_secret, now);
    if i >= live.len() {
        let t = TFAToken {
            secret: first_secret,
            discord_user_id: user,
            expiration: (now + TFA_TOKEN_DURATION) as i64,
        };
        lemma_first_for_user_push(live, t, user);
        assert(s1[live.len() as int] == t);
    }
    assert(s1[first_for_user(s1, user, 0)] == r1->0);
    lemma_live_keeps_first_for_user(s1, user, later);
}

/// The identifiers of the roles in `roles`.
pub open spec fn role_ids(roles: Seq<Role>) -> Set<RoleId> {
    Set::new(|id: RoleId| has_role(roles, id))
}

/// For the server itself, adding a role and then removing it is a round
/// trip: when adding role `role_id` to an account holding `roles` is
/// allowed, and the account then holds `after_add`, whose identifiers are
/// those of `roles` and `role_id`, the role cannot be added again, it can
/// be removed, and once removed the account holds the identifiers of
/// `roles` again.
pub proof fn law_internal_role_round_trip(
    role_id: RoleId,
    role: Option<Role>,
    roles: Seq<Role>,
    after_add: Seq<Role>,
    now: i64,
)
    requires
        add_role_verdict(ResolvedCaller::Internal, role_id, role, roles, now) == Verdict::Allow,
        role_ids(after_add) == role_ids(roles).insert(role_id),
    ensures
        remove_role_verdict(ResolvedCaller::Internal, role_id, role, after_add, now)
            == Verdict::Allow,
        add_role_verdict(ResolvedCaller::Internal, role_id, role, after_add, now) is Refuse,
        role_ids(after_add).remove(role_id) == role_ids(roles),
{
    assert(role_ids(after_add).contains(role_id));
    assert(has_role(after_add, role_id));
    assert(!role_ids(roles).contains(role_id));
    assert(role_ids(after_add).remove(role_id) =~= role_ids(roles));
}

/// A role can be added only when the account does not hold it yet, and
/// removed only when it does, whoever asks.
pub proof fn law_role_membership(
    caller: ResolvedCaller,
    role_id: RoleId,
    role: Option<Role>,
    roles: Seq<Role>,
    now: i64,
)
    ensures
        has_role(roles, role_id) ==> add_role_verdict(caller, role_id, role, roles, now) is Refuse,
        !has_role(roles, role_id) ==> remove_role_verdict(caller, role_id, role, roles, now) is Refuse,
{
}

/// An ordinary token with every right is never outranked, and a service
/// token with every right is outranked only by every right.
pub proof fn law_full_rights_token(tok: ApiToken, target: RightsView)
    requires
        tok.rights@ == all_rights(),
    ensures
        !tok.is_service ==> !outranked(tok, target),
        tok.is_service ==> (outranked(tok, target) <==> rights_le(all_rights(), target)),
{
}

/// A session opened for an account uses the token opened with it, belongs
/// to that account, and neither has expired when they are opened; so
/// ending the session later deletes that very token.
pub proof fn law_session_uses_its_token(
    p: (ApiToken, Session),
    account: Account,
    roles: Seq<Role>,
    created: Option<i64>,
    api_secret: Secret,
    session_secret: Secret,
    csrf_secret: Secret,
    user_agent: String,
    ip: String,
    now: i64,
)
    requires
        now + SESSION_DURATION <= i64::MAX,
        opened_session(
            p,
            account,
            roles,
            created,
            api_secret,
            session_secret,
            csrf_secret,
            user_agent,
            ip,
            now,
        ),
    ensures
        p.1.api_secret == p.0.secret,
        p.1.account_id == account.id,
        !expired_at(p.1.expiration, now),
        p.0.expiration == Some(p.1.expiration),
{
}

/// Renewing a session keeps its creation instant and moves its end to
/// three days after the renewal.
pub proof fn law_session_renewal(
    old: Session,
    p: (ApiToken, Session),
    account: Account,
    roles: Seq<Role>,
    api_secret: Secret,
    session_secret: Secret,
    csrf_secret: Secret,
    user_agent: String,
    ip: String,
    now: i64,
)
    requires
        now + SESSION_DURATION <= i64::MAX,
        opened_session(
            p,
            account,
            roles,
            Some(old.created_at),
            api_secret,
            session_secret,
            csrf_secret,
            user_agent,
            ip,
            now,
        ),
    ensures
        p.1.created_at == old.created_at,
        p.0.created_at == old.created_at,
        p.1.expiration == now + SESSION_DURATION,
{
}

/// A chat message that follows the last one sent through the same Discord
/// webhook within the window, and fits beside it, is folded into that
/// message; a message after the window is posted anew.
pub proof fn law_chat_folding(info: MessageInfo, message: Seq<char>, now: i64)
    ensures
        info.message@.len() + message.len() <= DESCRIPTION_MAX && now - info.last_send
            < PATCH_WINDOW ==> planned_delivery(Some(info), message, now) == (
            Some(info.id),
            info.message@ + "\n"@ + message,
        ),
        now - info.last_send >= PATCH_WINDOW ==> planned_delivery(Some(info), message, now) == (
            None::<u64>,
            message,
        ),
        planned_delivery(None, message, now) == (None::<u64>, message),
{
}

/// The expired two-factor tokens are exactly the ones dropped, and no two
/// kept tokens share a secret when none did before.
pub proof fn law_tfa_cleanup(tokens: Seq<TFAToken>, now: i64)
    requires
        unique_secrets(tokens),
    ensures
        forall|k: int|
            0 <= k < live_tokens(tokens, now).len() ==> !expired_at(
                (#[trigger] live_tokens(tokens, now)[k]).expiration,
                now,
            ),
        forall|j: int|
            0 <= j < tokens.len() && !expired_at((#[trigger] tokens[j]).expiration, now) ==> exists|k: int|
                0 <= k < live_tokens(tokens, now).len() && live_tokens(tokens, now)[k] == tokens[j],
        live_tokens(live_tokens(tokens, now), now) == live_tokens(tokens, now),
{
    lemma_live_tokens_exact(tokens, now);
    lemma_live_tokens_idempotent(tokens, now);
}

} // verus!
