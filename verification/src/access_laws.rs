//! What each guarded operation demands of its caller and its inputs, stated
//! over the fields of the caller's token and the values involved.
use crate::api::account::{
    add_role_verdict, change_avatar_url_verdict, change_username_verdict, create_account_verdict, connect_byond_verdict, connect_caller_verdict, connect_ss14_verdict, then,
    remove_role_verdict, tfa_account_verdict,
};
use crate::api::token::{create_token_verdict, delete_token_verdict};
use crate::api::webhook::{create_webhook_verdict, delete_webhook_verdict};
use crate::api::{outranked, ErrorKind, ResolvedCaller, Verdict};
use crate::models::{
    Account, AccountIntegrations, ApiToken, ByondUserId, Role, RoleId, SS14UserId, ServiceError,
    TFAToken, Webhook,
};
use crate::rights::{rights_le, rights_lt, sum_rights, RightsView, ServiceId, ServiceScope};
use crate::models::role_rights;
use crate::text::{is_ws, trimmed};
use vstd::prelude::*;

verus! {

/// The refusal for want of rights.
pub open spec fn forbidden() -> Verdict {
    Verdict::Refuse(ErrorKind::Forbidden, "Недостаточно доступа"@)
}

/// A token that has not expired at `now`.
pub open spec fn live(t: ApiToken, now: i64) -> bool {
    t.expiration matches Some(e) ==> now <= e
}

/// Whether `scope` covers the service named `name`: all services, or one
/// listed under that name.
pub open spec fn covers(scope: ServiceScope, name: Seq<char>) -> bool {
    scope.all || exists|i: int| 0 <= i < scope.services@.len() && (#[trigger] scope.services@[i]).0@ == name
}

/// Whether `s` holds a character other than whitespace.
pub open spec fn has_text(s: Seq<char>) -> bool {
    exists|i: int| 0 <= i < s.len() && !is_ws(#[trigger] s[i])
}

/// Whether none of `roles` has the identifier `id`.
pub open spec fn lacks_role(roles: Seq<Role>, id: RoleId) -> bool {
    forall|i: int| 0 <= i < roles.len() ==> (#[trigger] roles[i]).id != id
}

proof fn lemma_covers(scope: ServiceScope, name: Seq<char>)
    ensures
        covers(scope, name) == (scope@.all || scope@.services.contains(name)),
{
    if scope@.services.contains(name) {
        let i = choose|i: int| 0 <= i < scope.services@.len() && (#[trigger] scope.services@[i]).0@ == name;
        assert(0 <= i < scope.services@.len() && scope.services@[i].0@ == name);
    }
    if exists|i: int| 0 <= i < scope.services@.len() && (#[trigger] scope.services@[i]).0@ == name {
        let i = choose|i: int| 0 <= i < scope.services@.len() && (#[trigger] scope.services@[i]).0@ == name;
        assert(scope@.services.contains(name));
    }
}

// ---------------------------------------------------------------- tokens

/// A token that may not create ordinary tokens is refused an ordinary
/// token for want of rights, whatever rights and lifetime it asks for.
pub proof fn law_create_token_needs_token_create(
    t: ApiToken,
    rights: RightsView,
    duration: Option<i64>,
    now: i64,
)
    requires
        live(t, now),
        !t.rights.token.token_create,
    ensures
        create_token_verdict(ResolvedCaller::Token(Some(t)), rights, duration, false, now)
            == forbidden(),
{
}

/// A token that may not create service tokens is refused a service token
/// for want of rights.
pub proof fn law_create_service_token_needs_its_right(
    t: ApiToken,
    rights: RightsView,
    duration: Option<i64>,
    now: i64,
)
    requires
        live(t, now),
        !t.rights.token.service_token_create,
    ensures
        create_token_verdict(ResolvedCaller::Token(Some(t)), rights, duration, true, now)
            == forbidden(),
{
}

/// A token never creates a token with more rights than its own: asking
/// for rights strictly above the caller's is refused for want of rights.
pub proof fn law_create_token_no_escalation(
    t: ApiToken,
    rights: RightsView,
    duration: Option<i64>,
    is_service: bool,
    now: i64,
)
    requires
        live(t, now),
        rights_lt(t.rights@, rights),
    ensures
        create_token_verdict(ResolvedCaller::Token(Some(t)), rights, duration, is_service, now)
            == forbidden(),
{
}

/// When a token's request for a new token goes through, the token was live,
/// held the right to create that kind of token, and is not strictly below
/// the rights it handed out.
pub proof fn law_create_token_allowed_only_with_rights(
    t: ApiToken,
    rights: RightsView,
    duration: Option<i64>,
    is_service: bool,
    now: i64,
)
    requires
        create_token_verdict(ResolvedCaller::Token(Some(t)), rights, duration, is_service, now)
            == Verdict::Allow,
    ensures
        live(t, now),
        is_service ==> t.rights.token.service_token_create,
        !is_service ==> t.rights.token.token_create,
        !rights_lt(t.rights@, rights),
{
}

/// A live token with the right to create the kind of token asked for, and
/// not strictly below the rights asked for, creates a token that never
/// expires.
pub proof fn law_create_token_allowed(t: ApiToken, rights: RightsView, is_service: bool, now: i64)
    requires
        live(t, now),
        is_service ==> t.rights.token.service_token_create,
        !is_service ==> t.rights.token.token_create,
        !rights_lt(t.rights@, rights),
    ensures
        create_token_verdict(ResolvedCaller::Token(Some(t)), rights, None, is_service, now)
            == Verdict::Allow,
{
}

/// A token strictly below the rights of the token it tries to delete is
/// refused for want of rights.
pub proof fn law_delete_token_no_outranking(t: ApiToken, target: ApiToken, now: i64)
    requires
        live(t, now),
        rights_lt(t.rights@, target.rights@),
    ensures
        delete_token_verdict(ResolvedCaller::Token(Some(t)), Some(target), now) == forbidden(),
{
}

/// Deleting an ordinary token needs the right to delete ordinary tokens,
/// and deleting a service token the right to delete service tokens.
pub proof fn law_delete_token_needs_its_right(t: ApiToken, target: ApiToken, now: i64)
    requires
        live(t, now),
        (target.is_service && !t.rights.token.service_token_delete) || (!target.is_service
            && !t.rights.token.token_delete),
    ensures
        delete_token_verdict(ResolvedCaller::Token(Some(t)), Some(target), now) == forbidden(),
{
}

/// When a token's deletion of another token goes through, the target
/// existed, the caller was live, held the right for the target's kind, and
/// was not strictly below the target's rights.
pub proof fn law_delete_token_allowed_only_with_rights(
    t: ApiToken,
    target: Option<ApiToken>,
    now: i64,
)
    requires
        delete_token_verdict(ResolvedCaller::Token(Some(t)), target, now) == Verdict::Allow,
    ensures
        live(t, now),
        target matches Some(g) && {
            &&& !rights_lt(t.rights@, g.rights@)
            &&& g.is_service ==> t.rights.token.service_token_delete
            &&& !g.is_service ==> t.rights.token.token_delete
        },
{
}

/// A live token that may delete ordinary tokens deletes an existing
/// ordinary token whose rights are not above its own.
pub proof fn law_delete_token_allowed(t: ApiToken, target: ApiToken, now: i64)
    requires
        live(t, now),
        t.rights.token.token_delete,
        !target.is_service,
        !rights_lt(t.rights@, target.rights@),
    ensures
        delete_token_verdict(ResolvedCaller::Token(Some(t)), Some(target), now) == Verdict::Allow,
{
}

// -------------------------------------------------------------- webhooks

/// A token whose creation scope does not cover the target service is
/// refused for want of rights, whatever the service, name or configuration.
pub proof fn law_create_webhook_needs_scope(
    t: ApiToken,
    target: ServiceId,
    registered: bool,
    name: Seq<char>,
    check: Result<(), ServiceError>,
    now: i64,
)
    requires
        live(t, now),
        !covers(t.rights.service.create_webhooks, target.0@),
    ensures
        create_webhook_verdict(ResolvedCaller::Token(Some(t)), target, registered, name, check, now)
            == forbidden(),
{
    lemma_covers(t.rights.service.create_webhooks, target.0@);
}

/// When a token's webhook creation goes through, its scope covers the
/// service, the service is registered, the name holds text and the service
/// accepted the configuration.
pub proof fn law_create_webhook_allowed_only_when_sound(
    t: ApiToken,
    target: ServiceId,
    registered: bool,
    name: Seq<char>,
    check: Result<(), ServiceError>,
    now: i64,
)
    requires
        create_webhook_verdict(ResolvedCaller::Token(Some(t)), target, registered, name, check, now)
            == Verdict::Allow,
    ensures
        live(t, now),
        covers(t.rights.service.create_webhooks, target.0@),
        registered,
        has_text(name),
        check is Ok,
{
    lemma_covers(t.rights.service.create_webhooks, target.0@);
}

/// A live token whose scope covers a registered service creates a webhook
/// for it under a name with text when the service accepts the
/// configuration.
pub proof fn law_create_webhook_allowed(t: ApiToken, target: ServiceId, name: Seq<char>, now: i64)
    requires
        live(t, now),
        covers(t.rights.service.create_webhooks, target.0@),
        has_text(name),
    ensures
        create_webhook_verdict(ResolvedCaller::Token(Some(t)), target, true, name, Ok(()), now)
            == Verdict::Allow,
{
    lemma_covers(t.rights.service.create_webhooks, target.0@);
}

/// A token whose deletion scope does not cover the service of an existing
/// webhook is refused its deletion for want of rights.
pub proof fn law_delete_webhook_needs_scope(t: ApiToken, webhook: Webhook, now: i64)
    requires
        live(t, now),
        !covers(t.rights.service.delete_webhooks, webhook.service_id.0@),
    ensures
        delete_webhook_verdict(ResolvedCaller::Token(Some(t)), Some(webhook), now) == forbidden(),
{
    lemma_covers(t.rights.service.delete_webhooks, webhook.service_id.0@);
}

/// A live token whose deletion scope covers the service of an existing
/// webhook deletes it.
pub proof fn law_delete_webhook_allowed(t: ApiToken, webhook: Webhook, now: i64)
    requires
        live(t, now),
        covers(t.rights.service.delete_webhooks, webhook.service_id.0@),
    ensures
        delete_webhook_verdict(ResolvedCaller::Token(Some(t)), Some(webhook), now)
            == Verdict::Allow,
{
    lemma_covers(t.rights.service.delete_webhooks, webhook.service_id.0@);
}

// ----------------------------------------------------------------- roles

/// A token that may not add roles is refused adding any role for want of
/// rights.
pub proof fn law_add_role_needs_add_roles(
    t: ApiToken,
    role_id: RoleId,
    role: Option<Role>,
    account_roles: Seq<Role>,
    now: i64,
)
    requires
        live(t, now),
        !t.rights.user.add_roles,
    ensures
        add_role_verdict(ResolvedCaller::Token(Some(t)), role_id, role, account_roles, now)
            == forbidden(),
{
}

/// A token that may not remove roles is refused removing any role for want
/// of rights.
pub proof fn law_remove_role_needs_remove_roles(
    t: ApiToken,
    role_id: RoleId,
    role: Option<Role>,
    account_roles: Seq<Role>,
    now: i64,
)
    requires
        live(t, now),
        !t.rights.user.remove_roles,
    ensures
        remove_role_verdict(ResolvedCaller::Token(Some(t)), role_id, role, account_roles, now)
            == forbidden(),
{
}

/// When a token adds a role, it was live, held the right to add roles, the
/// role exists and outranks neither it nor the account's rights, and the
/// account did not hold the role.
pub proof fn law_add_role_allowed_only_when_sound(
    t: ApiToken,
    role_id: RoleId,
    role: Option<Role>,
    account_roles: Seq<Role>,
    now: i64,
)
    requires
        add_role_verdict(ResolvedCaller::Token(Some(t)), role_id, role, account_roles, now)
            == Verdict::Allow,
    ensures
        live(t, now),
        t.rights.user.add_roles,
        role matches Some(r) && !outranked(t, r.rights@),
        !outranked(t, sum_rights(role_rights(account_roles))),
        lacks_role(account_roles, role_id),
{
}

/// When a token removes a role, it was live, held the right to remove
/// roles, the role exists and outranks neither it nor the account's
/// rights, and the account held the role.
pub proof fn law_remove_role_allowed_only_when_sound(
    t: ApiToken,
    role_id: RoleId,
    role: Option<Role>,
    account_roles: Seq<Role>,
    now: i64,
)
    requires
        remove_role_verdict(ResolvedCaller::Token(Some(t)), role_id, role, account_roles, now)
            == Verdict::Allow,
    ensures
        live(t, now),
        t.rights.user.remove_roles,
        role matches Some(r) && !outranked(t, r.rights@),
        !outranked(t, sum_rights(role_rights(account_roles))),
        !lacks_role(account_roles, role_id),
{
}

/// A live token with the right to add roles, outranked neither by the role
/// nor by the account, adds a role the account does not hold.
pub proof fn law_add_role_allowed(
    t: ApiToken,
    role_id: RoleId,
    role: Role,
    account_roles: Seq<Role>,
    now: i64,
)
    requires
        live(t, now),
        t.rights.user.add_roles,
        !outranked(t, role.rights@),
        !outranked(t, sum_rights(role_rights(account_roles))),
        lacks_role(account_roles, role_id),
    ensures
        add_role_verdict(ResolvedCaller::Token(Some(t)), role_id, Some(role), account_roles, now)
            == Verdict::Allow,
{
}

// ------------------------------------------------------ connected accounts

/// A BYOND ckey with text connects to an existing account that has no BYOND
/// account yet, whatever SS14 account it has.
pub proof fn law_connect_byond_allowed(ckey: ByondUserId, integrations: AccountIntegrations)
    requires
        has_text(ckey.0@),
        integrations.byond_ckey is None,
    ensures
        connect_byond_verdict(ckey, Some(integrations)) == Verdict::Allow,
{
}

/// An SS14 id with text connects to an existing account that has no SS14
/// account yet, whatever BYOND account it has.
pub proof fn law_connect_ss14_allowed(id: SS14UserId, integrations: AccountIntegrations)
    requires
        has_text(id.0@),
        integrations.ss14_guid is None,
    ensures
        connect_ss14_verdict(id, Some(integrations)) == Verdict::Allow,
{
}

/// A BYOND connection goes through only for a ckey with text and an
/// existing account without a BYOND account.
pub proof fn law_connect_byond_allowed_only_when_sound(
    ckey: ByondUserId,
    integrations: Option<AccountIntegrations>,
)
    requires
        connect_byond_verdict(ckey, integrations) == Verdict::Allow,
    ensures
        has_text(ckey.0@),
        integrations matches Some(i) && i.byond_ckey is None,
{
}

/// An SS14 connection goes through only for an id with text and an
/// existing account without an SS14 account.
pub proof fn law_connect_ss14_allowed_only_when_sound(
    id: SS14UserId,
    integrations: Option<AccountIntegrations>,
)
    requires
        connect_ss14_verdict(id, integrations) == Verdict::Allow,
    ensures
        has_text(id.0@),
        integrations matches Some(i) && i.ss14_guid is None,
{
}

/// The server connects a BYOND ckey with text, by a live two-factor token,
/// to the token's account when that account has no BYOND account yet,
/// whatever SS14 account it has.
pub proof fn law_connect_byond_by_tfa_allowed(
    tfa_token: TFAToken,
    account: Account,
    integrations: AccountIntegrations,
    ckey: ByondUserId,
    now: i64,
)
    requires
        has_text(ckey.0@),
        integrations.byond_ckey is None,
    ensures
        then(
            connect_caller_verdict(ResolvedCaller::Internal, now),
            then(
                tfa_account_verdict(Some(tfa_token), Some(account)),
                connect_byond_verdict(ckey, Some(integrations)),
            ),
        ) == Verdict::Allow,
{
}

/// The server connects an SS14 id with text, by a live two-factor token,
/// to the token's account when that account has no SS14 account yet,
/// whatever BYOND account it has.
pub proof fn law_connect_ss14_by_tfa_allowed(
    tfa_token: TFAToken,
    account: Account,
    integrations: AccountIntegrations,
    id: SS14UserId,
    now: i64,
)
    requires
        has_text(id.0@),
        integrations.ss14_guid is None,
    ensures
        then(
            connect_caller_verdict(ResolvedCaller::Internal, now),
            then(
                tfa_account_verdict(Some(tfa_token), Some(account)),
                connect_ss14_verdict(id, Some(integrations)),
            ),
        ) == Verdict::Allow,
{
}

/// A token that may not add connected accounts is refused any connection
/// by two-factor token for want of rights.
pub proof fn law_connect_needs_add_connected_accounts(t: ApiToken, now: i64)
    requires
        live(t, now),
        !t.rights.user.add_connected_accounts,
    ensures
        connect_caller_verdict(ResolvedCaller::Token(Some(t)), now) == forbidden(),
{
}

// ---------------------------------------------------------------- accounts

/// A live token that may not create accounts is refused creating one for
/// want of rights; one that may, creates it.
pub proof fn law_create_account_needs_create_accounts(t: ApiToken, now: i64)
    requires
        live(t, now),
    ensures
        !t.rights.user.create_accounts ==> create_account_verdict(ResolvedCaller::Token(Some(t)), now)
            == forbidden(),
        t.rights.user.create_accounts ==> create_account_verdict(ResolvedCaller::Token(Some(t)), now)
            == Verdict::Allow,
{
}

/// A ckey made only of whitespace is never connected.
pub proof fn law_connect_byond_blank_refused(ckey: ByondUserId, integrations: Option<AccountIntegrations>)
    requires
        !has_text(ckey.0@),
    ensures
        connect_byond_verdict(ckey, integrations) == Verdict::Refuse(ErrorKind::Other, "Пустой ckey"@),
{
}

/// An account that has a BYOND account already is never given another.
pub proof fn law_connect_byond_only_once(ckey: ByondUserId, integrations: AccountIntegrations)
    requires
        has_text(ckey.0@),
        integrations.byond_ckey is Some,
    ensures
        connect_byond_verdict(ckey, Some(integrations)) == Verdict::Refuse(
            ErrorKind::Other,
            "Аккаунт BYOND уже подключен"@,
        ),
{
}

/// An account that has an SS14 account already is never given another.
pub proof fn law_connect_ss14_only_once(id: SS14UserId, integrations: AccountIntegrations)
    requires
        has_text(id.0@),
        integrations.ss14_guid is Some,
    ensures
        connect_ss14_verdict(id, Some(integrations)) == Verdict::Refuse(
            ErrorKind::Other,
            "Аккаунт SS14 уже подключен"@,
        ),
{
}

/// A name is accepted exactly when, trimmed, it holds between 1 and 25
/// characters, is free and the account exists.
pub proof fn law_change_username(requested: Seq<char>, is_free: bool, account: Option<Account>)
    ensures
        (change_username_verdict(requested, is_free, account) == Verdict::Allow) <==> (1
            <= trimmed(requested).len() <= 25 && is_free && account is Some),
        trimmed(requested).len() > 25 ==> change_username_verdict(requested, is_free, account)
            == Verdict::Refuse(
            ErrorKind::Other,
            "Имя пользователя не должно быть длинее 25 символов!"@,
        ),
{
}

/// An avatar link is accepted exactly when it holds at most 200 characters
/// and the account exists.
pub proof fn law_change_avatar_url(requested: Seq<char>, account: Option<Account>)
    ensures
        (change_avatar_url_verdict(requested, account) == Verdict::Allow) <==> (requested.len()
            <= 200 && account is Some),
{
}

// ----------------------------------------------------------------- ranks

/// No rights are strictly below themselves, and being strictly below is
/// transitive.
pub proof fn law_rights_lt_strict_order(a: RightsView, b: RightsView, c: RightsView)
    ensures
        !rights_lt(a, a),
        rights_lt(a, b) && rights_lt(b, c) ==> rights_lt(a, c),
        rights_lt(a, b) ==> !rights_lt(b, a),
{
}

/// Rights that grant something the other does not are not below it.
pub proof fn law_rights_le_needs_every_flag(a: RightsView, b: RightsView)
    requires
        (a.user.add_roles && !b.user.add_roles) || (a.user.remove_roles && !b.user.remove_roles)
            || (a.user.create_accounts && !b.user.create_accounts) || (a.token.token_create
            && !b.token.token_create) || (a.token.token_delete && !b.token.token_delete) || (
        a.token.service_token_create && !b.token.service_token_create) || (
        a.token.service_token_delete && !b.token.service_token_delete) || (a.create_webhooks.all
            && !b.create_webhooks.all) || (a.delete_webhooks.all && !b.delete_webhooks.all),
    ensures
        !rights_le(a, b),
        !rights_lt(a, b),
{
}

/// A role or account with exactly the rights of an ordinary token does not
/// outrank it; it does outrank a service token.
pub proof fn law_outranked_at_equal_rights(t: ApiToken)
    ensures
        !t.is_service ==> !outranked(t, t.rights@),
        t.is_service ==> outranked(t, t.rights@),
{
}

// ------------------------------------------------------- what is asked for

/// The server deletes any existing token; a missing one is reported as
/// such.
pub proof fn law_internal_delete_token(target: Option<ApiToken>, now: i64)
    ensures
        target is Some ==> delete_token_verdict(ResolvedCaller::Internal, target, now)
            == Verdict::Allow,
        target is None ==> delete_token_verdict(ResolvedCaller::Internal, target, now)
            == Verdict::Refuse(ErrorKind::Other, "Целевой токен не существует"@),
{
}

/// The server deletes any existing webhook; a missing one is reported as
/// such.
pub proof fn law_internal_delete_webhook(webhook: Option<Webhook>, now: i64)
    ensures
        webhook is Some ==> delete_webhook_verdict(ResolvedCaller::Internal, webhook, now)
            == Verdict::Allow,
        webhook is None ==> delete_webhook_verdict(ResolvedCaller::Internal, webhook, now)
            == Verdict::Refuse(ErrorKind::Other, "Некорректный вебхук"@),
{
}

/// For the server, a webhook is refused for an unregistered service, for a
/// blank name, and with the service's own words for a configuration it
/// rejects; otherwise it is created.
pub proof fn law_internal_create_webhook(
    target: ServiceId,
    registered: bool,
    name: Seq<char>,
    check: Result<(), ServiceError>,
    now: i64,
)
    ensures
        !registered ==> create_webhook_verdict(ResolvedCaller::Internal, target, registered, name, check, now)
            == Verdict::Refuse(ErrorKind::Other, "Некорректный сервис"@),
        registered && !has_text(name) ==> create_webhook_verdict(
            ResolvedCaller::Internal,
            target,
            registered,
            name,
            check,
            now,
        ) == Verdict::Refuse(ErrorKind::Other, "Пустое название вебхука"@),
        registered && has_text(name) ==> (check matches Err(ServiceError::Any(m))
            ==> create_webhook_verdict(ResolvedCaller::Internal, target, registered, name, check, now)
            == Verdict::Refuse(ErrorKind::Other, "Некорректная конфигурация: "@ + m@)),
        registered && has_text(name) && check is Ok ==> create_webhook_verdict(
            ResolvedCaller::Internal,
            target,
            registered,
            name,
            check,
            now,
        ) == Verdict::Allow,
{
}

/// A token may not create a token that has already expired: a lifetime
/// ending before the instant of creation is refused.
pub proof fn law_create_token_not_already_expired(
    caller: ResolvedCaller,
    rights: RightsView,
    d: i64,
    is_service: bool,
    now: i64,
)
    requires
        d < 0,
        i64::MIN <= now + d,
    ensures
        create_token_verdict(caller, rights, Some(d), is_service, now) is Refuse,
        create_token_verdict(ResolvedCaller::Internal, rights, Some(d), is_service, now)
            == Verdict::Refuse(ErrorKind::Other, "Новый токен уже устаревший"@),
{
}

} // verus!
