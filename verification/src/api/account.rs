//! Decisions on accounts: creation, connected accounts, roles, names and
//! avatars.
use crate::api::{
    actor_of_token, caller_actor, error, follows, is_outranked, msg_bad_session,
    msg_bad_tfa_token, msg_bad_user_id, msg_forbidden, msg_no_account, outranked,
    validate_api_token, valid_token, Api, ErrorKind, ResolvedCaller, Verdict, msg_bad_api_token,
};
use crate::models::{
    has_role, role_rights, roles_contain, Account, AccountId, AccountIntegrations, ActionType,
    Actor, ApiError, ByondUserId, JournalRecord, Role, RoleId, SS14UserId, Secret, Session,
    TFAToken, DiscordUserId, fits, TFA_TOKEN_DURATION,
};
use crate::rights::{sum_rights, Rights};
use crate::text::{char_count, decimal, is_blank, is_blank_seq, owned, push_decimal, trim, trimmed};
use crate::tfa_tokens_storage::{found_at, first_with_secret, first_for_user, live_tokens, has_secret};
use vstd::prelude::*;

verus! {

/// The longest username, in characters.
pub const USERNAME_MAX: usize = 25;

/// The longest avatar link, in characters.
pub const AVATAR_URL_MAX: usize = 200;

/// The `attempt`-th username tried for a new account: the wanted name,
/// then the name followed by 1, 2, ...
pub open spec fn username_candidate(base: Seq<char>, attempt: nat) -> Seq<char> {
    if attempt == 0 {
        base
    } else {
        base + decimal(attempt)
    }
}

/// Position of the first `true` of `free` at or after `i`, or `free.len()`.
pub open spec fn first_free(free: Seq<bool>, i: int) -> int
    decreases free.len() - i,
{
    if i < 0 || i >= free.len() {
        free.len() as int
    } else if free[i] {
        i
    } else {
        first_free(free, i + 1)
    }
}

proof fn lemma_first_free_from(free: Seq<bool>, i: int, j: int)
    requires
        0 <= i <= j < free.len(),
        free[j],
        forall|k: int| i <= k < j ==> !free[k],
    ensures
        first_free(free, i) == j,
    decreases j - i,
{
    if i < j {
        lemma_first_free_from(free, i + 1, j);
    }
}

/// The avatar link kept for a requested one: the default picture for a
/// blank link.
pub open spec fn avatar_url_for(requested: Seq<char>) -> Seq<char> {
    if is_blank_seq(requested) {
        "/public/images/avatar.png"@
    } else {
        requested
    }
}

/// What getting or creating the two-factor token of `user` with fresh
/// secret `secret` at `now` answers, and the tokens kept afterwards: the
/// expired tokens are dropped; the first live token of the user is
/// answered; without one, a token with `secret` valid for a minute is added
/// and answered, unless `secret` is in use, which is answered with nothing.
pub open spec fn tfa_get_or_create(
    tokens: Seq<TFAToken>,
    user: DiscordUserId,
    secret: Secret,
    now: i64,
) -> (Option<TFAToken>, Seq<TFAToken>) {
    let live = live_tokens(tokens, now);
    let i = first_for_user(live, user, 0);
    if i < live.len() {
        (Some(live[i]), live)
    } else if has_secret(live, secret.0@) {
        (None, live)
    } else {
        let t = TFAToken {
            secret,
            discord_user_id: user,
            expiration: (now + TFA_TOKEN_DURATION) as i64,
        };
        (Some(t), live.push(t))
    }
}

/// A Discord user, as far as creating an account for it needs: its name,
/// its avatar link if it has set one, and Discord's default avatar link.
#[derive(Debug, PartialEq, Eq)]
pub struct DiscordUserInfo {
    pub name: String,
    pub avatar_url: Option<String>,
    pub default_avatar_url: String,
}

/// The avatar link of a new account for a Discord user: its own avatar,
/// else Discord's default one.
pub open spec fn discord_avatar(u: DiscordUserInfo) -> Seq<char> {
    match u.avatar_url {
        Some(a) => a@,
        None => u.default_avatar_url@,
    }
}

/// Verdict on creating an account.
pub open spec fn create_account_verdict(caller: ResolvedCaller, now: i64) -> Verdict {
    match caller {
        ResolvedCaller::Internal => Verdict::Allow,
        ResolvedCaller::Token(t) => if !valid_token(t, now) {
            Verdict::Refuse(ErrorKind::Unauthorized, msg_bad_api_token())
        } else if !t->0.rights.user.create_accounts {
            Verdict::Refuse(ErrorKind::Forbidden, msg_forbidden())
        } else {
            Verdict::Allow
        },
    }
}

/// Verdict on finding the account of a two-factor token.
pub open spec fn tfa_account_verdict(tfa_token: Option<TFAToken>, account: Option<Account>) -> Verdict {
    if tfa_token is None {
        Verdict::Refuse(ErrorKind::Other, msg_bad_tfa_token())
    } else if account is None {
        Verdict::Refuse(ErrorKind::Other, msg_bad_user_id())
    } else {
        Verdict::Allow
    }
}

/// Verdict on connecting a BYOND account.
pub open spec fn connect_byond_verdict(ckey: ByondUserId, integrations: Option<AccountIntegrations>) -> Verdict {
    if is_blank_seq(ckey.0@) {
        Verdict::Refuse(ErrorKind::Other, "Пустой ckey"@)
    } else if integrations is None {
        Verdict::Refuse(ErrorKind::Other, msg_no_account())
    } else if integrations->0.byond_ckey is Some {
        Verdict::Refuse(ErrorKind::Other, "Аккаунт BYOND уже подключен"@)
    } else {
        Verdict::Allow
    }
}

/// Verdict on connecting an SS14 account.
pub open spec fn connect_ss14_verdict(id: SS14UserId, integrations: Option<AccountIntegrations>) -> Verdict {
    if is_blank_seq(id.0@) {
        Verdict::Refuse(ErrorKind::Other, "Пустой ss14_user_id"@)
    } else if integrations is None {
        Verdict::Refuse(ErrorKind::Other, msg_no_account())
    } else if integrations->0.ss14_guid is Some {
        Verdict::Refuse(ErrorKind::Other, "Аккаунт SS14 уже подключен"@)
    } else {
        Verdict::Allow
    }
}

/// Verdict on the caller of a two-factor connection.
pub open spec fn connect_caller_verdict(caller: ResolvedCaller, now: i64) -> Verdict {
    match caller {
        ResolvedCaller::Internal => Verdict::Allow,
        ResolvedCaller::Token(t) => if !valid_token(t, now) {
            Verdict::Refuse(ErrorKind::Unauthorized, msg_bad_api_token())
        } else if !t->0.rights.user.add_connected_accounts {
            Verdict::Refuse(ErrorKind::Forbidden, msg_forbidden())
        } else {
            Verdict::Allow
        },
    }
}

/// The first verdict of a chain that refuses, else `Allow`.
pub open spec fn then(first: Verdict, second: Verdict) -> Verdict {
    match first {
        Verdict::Allow => second,
        _ => first,
    }
}

/// Verdict on a caller that changes the roles of an account: it needs the
/// right `right`, the role must exist, and the caller must not be outranked
/// by the role nor by the account.
pub open spec fn role_caller_verdict(
    caller: ResolvedCaller,
    right: bool,
    role: Option<Role>,
    account_roles: Seq<Role>,
    now: i64,
) -> Verdict {
    match caller {
        ResolvedCaller::Internal => Verdict::Allow,
        ResolvedCaller::Token(t) => if !valid_token(t, now) {
            Verdict::Refuse(ErrorKind::Unauthorized, msg_bad_api_token())
        } else if !right {
            Verdict::Refuse(ErrorKind::Forbidden, msg_forbidden())
        } else if role is None {
            Verdict::Refuse(ErrorKind::Other, "Некорректный role_id"@)
        } else if outranked(t->0, role->0.rights@) {
            Verdict::Refuse(ErrorKind::Forbidden, msg_forbidden())
        } else if outranked(t->0, sum_rights(role_rights(account_roles))) {
            Verdict::Refuse(ErrorKind::Forbidden, msg_forbidden())
        } else {
            Verdict::Allow
        },
    }
}

/// Whether the caller's token may add roles (when `add`) or remove them (otherwise).
pub open spec fn token_right(caller: ResolvedCaller, add: bool) -> bool {
    match caller {
        ResolvedCaller::Token(Some(t)) => if add {
            t.rights.user.add_roles
        } else {
            t.rights.user.remove_roles
        },
        _ => false,
    }
}

/// Verdict on adding role `role_id` to an account holding `account_roles`.
pub open spec fn add_role_verdict(
    caller: ResolvedCaller,
    role_id: RoleId,
    role: Option<Role>,
    account_roles: Seq<Role>,
    now: i64,
) -> Verdict {
    then(
        role_caller_verdict(caller, token_right(caller, true), role, account_roles, now),
        if has_role(account_roles, role_id) {
            Verdict::Refuse(ErrorKind::Other, "Пользователь уже имеет эту роль"@)
        } else {
            Verdict::Allow
        },
    )
}

/// Verdict on removing role `role_id` from an account holding `account_roles`.
pub open spec fn remove_role_verdict(
    caller: ResolvedCaller,
    role_id: RoleId,
    role: Option<Role>,
    account_roles: Seq<Role>,
    now: i64,
) -> Verdict {
    then(
        role_caller_verdict(caller, token_right(caller, false), role, account_roles, now),
        if !has_role(account_roles, role_id) {
            Verdict::Refuse(ErrorKind::Other, "Пользователь не имеет этой роли"@)
        } else {
            Verdict::Allow
        },
    )
}

/// Verdict on renaming an account to `requested`, trimmed; `is_free` tells
/// whether the trimmed name is unused.
pub open spec fn change_username_verdict(requested: Seq<char>, is_free: bool, account: Option<Account>) -> Verdict {
    let name = trimmed(requested);
    if name.len() == 0 {
        Verdict::Refuse(ErrorKind::Other, "Имя пользователя не должно быть пустым"@)
    } else if name.len() > USERNAME_MAX {
        Verdict::Refuse(ErrorKind::Other, "Имя пользователя не должно быть длинее 25 символов!"@)
    } else if !is_free {
        Verdict::Refuse(ErrorKind::Other, "Имя пользователя занято"@)
    } else if account is None {
        Verdict::Refuse(ErrorKind::Other, msg_bad_user_id())
    } else {
        Verdict::Allow
    }
}

/// Verdict on changing the avatar link of an account.
pub open spec fn change_avatar_url_verdict(requested: Seq<char>, account: Option<Account>) -> Verdict {
    if requested.len() > AVATAR_URL_MAX {
        Verdict::Refuse(ErrorKind::Other, "Ссылка не должна быть длинее 200 символов!"@)
    } else if account is None {
        Verdict::Refuse(ErrorKind::Other, msg_bad_user_id())
    } else {
        Verdict::Allow
    }
}

impl Api {
    /// The `attempt`-th username tried for a new account wanting `username`.
    pub fn username_candidate(username: &str, attempt: u64) -> (r: String)
        ensures
            r@ == username_candidate(username@, attempt as nat),
    {
        let mut s = owned(username);
        if attempt > 0 {
            push_decimal(&mut s, attempt);
        }
        s
    }

    /// Whether the caller may create an account, and who to journal as its
    /// creator. `free[k]` tells whether the `k`-th candidate name for
    /// `username` is unused; the new account is named after the first free
    /// candidate.
    pub fn create_account(&self, caller: &ResolvedCaller, username: &str, free: &Vec<bool>, now: i64) -> (r:
        Result<(String, Actor), ApiError>)
        requires
            exists|k: int| 0 <= k < free@.len() && free@[k],
        ensures
            follows(r, create_account_verdict(*caller, now)),
            r matches Ok((name, actor)) ==> {
                let k = first_free(free@, 0);
                &&& 0 <= k < free@.len()
                &&& free@[k]
                &&& forall|j: int| 0 <= j < k ==> !free@[j]
                &&& name@ == username_candidate(username@, k as nat)
                &&& actor == caller_actor(*caller)
            },
    {
        let actor = Self::check_create_account(caller, now)?;
        let k = Self::first_free_candidate(free);
        Ok((Self::username_candidate(username, k as u64), actor))
    }

    /// Whether the caller may create accounts, and who to journal as the
    /// creator.
    pub fn check_create_account(caller: &ResolvedCaller, now: i64) -> (r: Result<Actor, ApiError>)
        ensures
            follows(r, create_account_verdict(*caller, now)),
            r matches Ok(a) ==> a == caller_actor(*caller),
    {
        let mut actor = Actor::System;
        if let ResolvedCaller::Token(found) = caller {
            validate_api_token(found, now)?;
            let token = found.as_ref().unwrap();
            if !token.rights.user.create_accounts {
                return Err(error(ErrorKind::Forbidden, "Недостаточно доступа"));
            }
            actor = actor_of_token(token);
        }
        Ok(actor)
    }

    /// Position of the first `true` of `free`, which holds one.
    fn first_free_candidate(free: &Vec<bool>) -> (k: usize)
        requires
            exists|k: int| 0 <= k < free@.len() && free@[k],
        ensures
            k == first_free(free@, 0),
            k < free@.len(),
            free@[k as int],
            forall|j: int| 0 <= j < k ==> !free@[j],
    {
        let ghost w = choose|k: int| 0 <= k < free@.len() && free@[k];
        let mut i: usize = 0;
        while !free[i]
            invariant
                0 <= w < free@.len(),
                free@[w],
                i <= w,
                forall|j: int| 0 <= j < i ==> !free@[j],
            decreases w - i,
        {
            assert(!free@[i as int]);
            assert(i < w);
            assert(w < free.len());
            i = i + 1;
        }
        proof {
            lemma_first_free_from(free@, 0, i as int);
        }
        i
    }

    /// The journal entry for a created account.
    pub fn account_created_record(actor: Actor, account_id: AccountId) -> (r: JournalRecord)
        ensures
            r == (JournalRecord {
                object: actor,
                subject: Some(Actor::User(account_id)),
                action: ActionType::AccountCreated,
            }),
    {
        JournalRecord {
            object: actor,
            subject: Some(Actor::User(account_id)),
            action: ActionType::AccountCreated,
        }
    }

    /// The account found by one of its identifiers, or a refusal.
    pub fn find_account_by_id(found: &Option<Account>) -> (r: Result<Account, ApiError>)
        ensures
            found is None ==> follows(r, Verdict::Refuse(ErrorKind::Other, msg_bad_user_id())),
            found matches Some(a) ==> r == Ok::<Account, ApiError>(*a),
    {
        match found {
            Some(a) => Ok(a.clone()),
            None => Err(error(ErrorKind::Other, "Неверный user_id")),
        }
    }

    /// The connected accounts found for an account, or a refusal.
    pub fn find_integrations_by_account_id(found: &Option<AccountIntegrations>) -> (r: Result<
        AccountIntegrations,
        ApiError,
    >)
        ensures
            found is None ==> follows(r, Verdict::Refuse(ErrorKind::Other, msg_no_account())),
            found matches Some(i) ==> r == Ok::<AccountIntegrations, ApiError>(*i),
    {
        match found {
            Some(i) => Ok(i.clone()),
            None => Err(error(ErrorKind::Other, "Аккаунт не существует")),
        }
    }

    /// The live two-factor token with `secret`; expired tokens are dropped.
    pub fn find_tfa_token_by_secret(&mut self, secret: &Secret, now: i64) -> (r: Option<TFAToken>)
        ensures
            final(self).tokens_storage@ == live_tokens(old(self).tokens_storage@, now),
            r == found_at(
                final(self).tokens_storage@,
                first_with_secret(final(self).tokens_storage@, secret.0@, 0),
            ),
            final(self).services_storage == old(self).services_storage,
    {
        self.tokens_storage.find_by_secret(secret, now)
    }

    /// The live two-factor token of `discord_user_id`, or a new one with
    /// `secret` valid for a minute. `None` when no token exists and `secret`
    /// is already in use: the caller draws another secret.
    pub fn get_or_create_tfa_token(&mut self, discord_user_id: DiscordUserId, secret: Secret, now: i64) -> (r:
        Option<TFAToken>)
        requires
            fits(now, TFA_TOKEN_DURATION),
        ensures
            (r, final(self).tokens_storage@) == tfa_get_or_create(
                old(self).tokens_storage@,
                discord_user_id,
                secret,
                now,
            ),
            final(self).services_storage == old(self).services_storage,
    {
        proof {
            crate::tfa_tokens_storage::lemma_first_for_user_bounds(
                live_tokens(old(self).tokens_storage@, now),
                discord_user_id,
                0,
            );
        }
        match self.tokens_storage.find_by_discord_user_id(discord_user_id, now) {
            Some(token) => Some(token),
            None => {
                proof {
                    crate::tfa_tokens_storage::lemma_live_tokens_idempotent(old(self).tokens_storage@, now);
                }
                self.tokens_storage.new_token(discord_user_id, TFA_TOKEN_DURATION, now, secret)
            },
        }
    }

    /// Before handing out a two-factor token to a Discord user: nothing to
    /// do when the user has an account (`account_exists`); else the name
    /// and avatar link of the account to create for it, from `discord_user`
    /// as Discord answered; an error when Discord knows no such user.
    pub fn tfa_account_request(account_exists: bool, discord_user: &Option<DiscordUserInfo>) -> (r:
        Result<Option<(String, String)>, ApiError>)
        ensures
            account_exists ==> r == Ok::<Option<(String, String)>, ApiError>(None),
            !account_exists && discord_user is None ==> follows(
                r,
                Verdict::Refuse(ErrorKind::Other, "Пользователя не существует"@),
            ),
            !account_exists ==> (discord_user matches Some(u) ==> (r matches Ok(Some((name, avatar)))
                && name@ == u.name@ && avatar@ == discord_avatar(*u))),
    {
        if account_exists {
            return Ok(None);
        }
        match discord_user {
            None => Err(error(ErrorKind::Other, "Пользователя не существует")),
            Some(u) => {
                let avatar = match &u.avatar_url {
                    Some(a) => a.clone(),
                    None => u.default_avatar_url.clone(),
                };
                Ok(Some((u.name.clone(), avatar)))
            },
        }
    }

    /// The account of a two-factor token: `tfa_token` is the live token
    /// found by its secret, `account` the account of its Discord user.
    pub fn find_account_by_tfa_token_secret(tfa_token: &Option<TFAToken>, account: &Option<Account>) -> (r:
        Result<Account, ApiError>)
        ensures
            follows(r, tfa_account_verdict(*tfa_token, *account)),
            r is Ok ==> r == Ok::<Account, ApiError>(account->0),
    {
        if tfa_token.is_none() {
            return Err(error(ErrorKind::Other, "Некорректный TFA токен"));
        }
        Self::find_account_by_id(account)
    }

    /// Whether BYOND account `ckey` may be connected to the account whose
    /// connected accounts are `integrations`.
    pub fn connect_byond_account(&self, ckey: &ByondUserId, integrations: &Option<AccountIntegrations>) -> (r:
        Result<(), ApiError>)
        ensures
            follows(r, connect_byond_verdict(*ckey, *integrations)),
    {
        if is_blank(ckey.0.as_str()) {
            return Err(error(ErrorKind::Other, "Пустой ckey"));
        }
        let found = Self::find_integrations_by_account_id(integrations)?;
        if found.byond_ckey.is_some() {
            return Err(error(ErrorKind::Other, "Аккаунт BYOND уже подключен"));
        }
        Ok(())
    }

    /// Whether SS14 account `ss14_user_id` may be connected to the account
    /// whose connected accounts are `integrations`.
    pub fn connect_ss14_account(&self, ss14_user_id: &SS14UserId, integrations: &Option<AccountIntegrations>) -> (r:
        Result<(), ApiError>)
        ensures
            follows(r, connect_ss14_verdict(*ss14_user_id, *integrations)),
    {
        if is_blank(ss14_user_id.0.as_str()) {
            return Err(error(ErrorKind::Other, "Пустой ss14_user_id"));
        }
        let found = Self::find_integrations_by_account_id(integrations)?;
        if found.ss14_guid.is_some() {
            return Err(error(ErrorKind::Other, "Аккаунт SS14 уже подключен"));
        }
        Ok(())
    }

    /// Whether the caller may connect accounts, and who to journal as
    /// acting.
    pub fn check_connect_caller(caller: &ResolvedCaller, now: i64) -> (r: Result<Actor, ApiError>)
        ensures
            follows(r, connect_caller_verdict(*caller, now)),
            r matches Ok(a) ==> a == caller_actor(*caller),
    {
        let mut actor = Actor::System;
        if let ResolvedCaller::Token(found) = caller {
            validate_api_token(found, now)?;
            let token = found.as_ref().unwrap();
            if !token.rights.user.add_connected_accounts {
                return Err(error(ErrorKind::Forbidden, "Недостаточно доступа"));
            }
            actor = actor_of_token(token);
        }
        Ok(actor)
    }

    /// Connects BYOND account `ckey` to the account a two-factor token
    /// belongs to. `tfa_token` is the live token found by its secret,
    /// `account` the account of its Discord user and `integrations` that
    /// account's connected accounts. On success, the account to connect and
    /// the journal entry.
    pub fn connect_byond_account_by_2fa(
        &self,
        caller: &ResolvedCaller,
        tfa_token: &Option<TFAToken>,
        account: &Option<Account>,
        integrations: &Option<AccountIntegrations>,
        ckey: &ByondUserId,
        now: i64,
    ) -> (r: Result<(AccountId, JournalRecord), ApiError>)
        ensures
            follows(
                r,
                then(
                    connect_caller_verdict(*caller, now),
                    then(
                        tfa_account_verdict(*tfa_token, *account),
                        connect_byond_verdict(*ckey, *integrations),
                    ),
                ),
            ),
            r matches Ok((id, rec)) ==> id == account->0.id && rec == (JournalRecord {
                object: caller_actor(*caller),
                subject: Some(Actor::User(account->0.id)),
                action: ActionType::ByondConnected { ckey: *ckey },
            }),
    {
        let actor = Self::check_connect_caller(caller, now)?;
        let found = Self::find_account_by_tfa_token_secret(tfa_token, account)?;
        self.connect_byond_account(ckey, integrations)?;
        Ok(
            (
                found.id,
                JournalRecord {
                    object: actor,
                    subject: Some(Actor::User(found.id)),
                    action: ActionType::ByondConnected { ckey: ckey.clone() },
                },
            ),
        )
    }

    /// Connects SS14 account `user_id` to the account a two-factor token
    /// belongs to; the arguments are those of `connect_byond_account_by_2fa`.
    pub fn connect_ss14_account_by_2fa(
        &self,
        caller: &ResolvedCaller,
        tfa_token: &Option<TFAToken>,
        account: &Option<Account>,
        integrations: &Option<AccountIntegrations>,
        user_id: &SS14UserId,
        now: i64,
    ) -> (r: Result<(AccountId, JournalRecord), ApiError>)
        ensures
            follows(
                r,
                then(
                    connect_caller_verdict(*caller, now),
                    then(
                        tfa_account_verdict(*tfa_token, *account),
                        connect_ss14_verdict(*user_id, *integrations),
                    ),
                ),
            ),
            r matches Ok((id, rec)) ==> id == account->0.id && rec == (JournalRecord {
                object: caller_actor(*caller),
                subject: Some(Actor::User(account->0.id)),
                action: ActionType::SS14Connected { ss14_guid: *user_id },
            }),
    {
        let actor = Self::check_connect_caller(caller, now)?;
        let found = Self::find_account_by_tfa_token_secret(tfa_token, account)?;
        self.connect_ss14_account(user_id, integrations)?;
        Ok(
            (
                found.id,
                JournalRecord {
                    object: actor,
                    subject: Some(Actor::User(found.id)),
                    action: ActionType::SS14Connected { ss14_guid: user_id.clone() },
                },
            ),
        )
    }

    /// The rights of an account: everything its roles grant.
    pub fn get_account_rights(&self, roles: &Vec<Role>) -> (r: Rights)
        ensures
            r@ == sum_rights(role_rights(roles@)),
    {
        Role::sum_roles_rights(roles)
    }

    fn check_role_caller(
        caller: &ResolvedCaller,
        add: bool,
        role: &Option<Role>,
        account_roles: &Vec<Role>,
        now: i64,
    ) -> (r: Result<Actor, ApiError>)
        ensures
            follows(
                r,
                role_caller_verdict(*caller, token_right(*caller, add), *role, account_roles@, now),
            ),
            r matches Ok(a) ==> a == caller_actor(*caller),
    {
        let mut actor = Actor::System;
        if let ResolvedCaller::Token(found) = caller {
            validate_api_token(found, now)?;
            let token = found.as_ref().unwrap();
            let right = if add {
                token.rights.user.add_roles
            } else {
                token.rights.user.remove_roles
            };
            if !right {
                return Err(error(ErrorKind::Forbidden, "Недостаточно доступа"));
            }
            let role = match role {
                Some(role) => role,
                None => {
                    return Err(error(ErrorKind::Other, "Некорректный role_id"));
                },
            };
            if is_outranked(token, &role.rights) {
                return Err(error(ErrorKind::Forbidden, "Недостаточно доступа"));
            }
            let account_rights = Role::sum_roles_rights(account_roles);
            if is_outranked(token, &account_rights) {
                return Err(error(ErrorKind::Forbidden, "Недостаточно доступа"));
            }
            actor = actor_of_token(token);
        }
        Ok(actor)
    }

    /// Adds role `role_id` to account `account_id`. `role` is the role read
    /// by its identifier, `account_roles` the roles the account holds. On
    /// success, the journal entry; the role is then to be added.
    pub fn add_role_to_account(
        &self,
        caller: &ResolvedCaller,
        account_id: AccountId,
        role_id: RoleId,
        role: &Option<Role>,
        account_roles: &Vec<Role>,
        now: i64,
    ) -> (r: Result<JournalRecord, ApiError>)
        ensures
            follows(r, add_role_verdict(*caller, role_id, *role, account_roles@, now)),
            r matches Ok(rec) ==> rec == (JournalRecord {
                object: caller_actor(*caller),
                subject: Some(Actor::User(account_id)),
                action: ActionType::RoleAdded { role_id },
            }),
    {
        let actor = Self::check_role_caller(caller, true, role, account_roles, now)?;
        if roles_contain(account_roles, role_id) {
            return Err(error(ErrorKind::Other, "Пользователь уже имеет эту роль"));
        }
        Ok(
            JournalRecord {
                object: actor,
                subject: Some(Actor::User(account_id)),
                action: ActionType::RoleAdded { role_id },
            },
        )
    }

    /// Removes role `role_id` from account `account_id`; the arguments are
    /// those of `add_role_to_account`. On success, the journal entry; the
    /// role is then to be removed.
    pub fn remove_role_from_account(
        &self,
        caller: &ResolvedCaller,
        account_id: AccountId,
        role_id: RoleId,
        role: &Option<Role>,
        account_roles: &Vec<Role>,
        now: i64,
    ) -> (r: Result<JournalRecord, ApiError>)
        ensures
            follows(r, remove_role_verdict(*caller, role_id, *role, account_roles@, now)),
            r matches Ok(rec) ==> rec == (JournalRecord {
                object: caller_actor(*caller),
                subject: Some(Actor::User(account_id)),
                action: ActionType::RoleRemoved { role_id },
            }),
    {
        let actor = Self::check_role_caller(caller, false, role, account_roles, now)?;
        if !roles_contain(account_roles, role_id) {
            return Err(error(ErrorKind::Other, "Пользователь не имеет этой роли"));
        }
        Ok(
            JournalRecord {
                object: actor,
                subject: Some(Actor::User(account_id)),
                action: ActionType::RoleRemoved { role_id },
            },
        )
    }

    /// Renames an account to `new_username`, trimmed. `is_free` tells
    /// whether the trimmed name is unused, `account` is the account read by
    /// its identifier. On success, the account and its new name.
    pub fn change_username(&self, new_username: &str, is_free: bool, account: &Option<Account>) -> (r:
        Result<(AccountId, String), ApiError>)
        ensures
            follows(r, change_username_verdict(new_username@, is_free, *account)),
            r matches Ok((id, name)) ==> id == account->0.id && name@ == trimmed(new_username@),
    {
        let name = trim(new_username);
        if char_count(name.as_str()) == 0 {
            return Err(error(ErrorKind::Other, "Имя пользователя не должно быть пустым"));
        }
        if char_count(name.as_str()) > USERNAME_MAX {
            return Err(
                error(ErrorKind::Other, "Имя пользователя не должно быть длинее 25 символов!"),
            );
        }
        if !is_free {
            return Err(error(ErrorKind::Other, "Имя пользователя занято"));
        }
        let found = Self::find_account_by_id(account)?;
        Ok((found.id, name))
    }

    /// Changes the avatar link of an account; a blank link stands for the
    /// default picture. `account` is the account read by its identifier. On
    /// success, the account and the link to keep.
    pub fn change_avatar_url(&self, new_avatar_url: &str, account: &Option<Account>) -> (r: Result<
        (AccountId, String),
        ApiError,
    >)
        ensures
            follows(r, change_avatar_url_verdict(new_avatar_url@, *account)),
            r matches Ok((id, url)) ==> id == account->0.id && url@ == avatar_url_for(
                new_avatar_url@,
            ),
    {
        if char_count(new_avatar_url) > AVATAR_URL_MAX {
            return Err(error(ErrorKind::Other, "Ссылка не должна быть длинее 200 символов!"));
        }
        let url = if is_blank(new_avatar_url) {
            owned("/public/images/avatar.png")
        } else {
            owned(new_avatar_url)
        };
        let found = Self::find_account_by_id(account)?;
        Ok((found.id, url))
    }

    /// The account of a session: `session` is the session read by its
    /// secret, `account` the account read by the session's account.
    pub fn find_account_by_session(session: &Option<Session>, account: &Option<Account>) -> (r:
        Result<Account, ApiError>)
        ensures
            session is None ==> follows(r, Verdict::Refuse(ErrorKind::Other, msg_bad_session())),
            session is Some ==> follows(
                r,
                if account is None {
                    Verdict::Refuse(ErrorKind::Other, msg_bad_user_id())
                } else {
                    Verdict::Allow
                },
            ),
            r is Ok ==> r == Ok::<Account, ApiError>(account->0),
    {
        if session.is_none() {
            return Err(error(ErrorKind::Other, "Некорректная сессия"));
        }
        Self::find_account_by_id(account)
    }
}

} // verus!
