//! The values the API works with: identifiers, secrets, tokens, sessions,
//! roles, accounts, votes, webhooks, errors and journal records. Instants
//! are nanoseconds since the Unix epoch, durations nanoseconds.
use crate::rights::{Rights, RightsView, sum_rights};
use vstd::prelude::*;

verus! {

/// Nanoseconds in a second.
pub const NANOS_PER_SECOND: i64 = 1000000000;

/// How long a session and the API token behind it live: three days.
pub const SESSION_DURATION: i64 = 259200000000000;

/// How long a two-factor token lives: one minute.
pub const TFA_TOKEN_DURATION: i64 = 60000000000;

/// Internal identifier of an account.
#[derive(Clone, Copy, Debug, PartialEq, Eq, Structural)]
pub struct AccountId(pub i64);

/// Identifier of a role.
#[derive(Clone, Copy, Debug, PartialEq, Eq, Structural)]
pub struct RoleId(pub i64);

/// Identifier of a Discord user.
#[derive(Clone, Copy, Debug, PartialEq, Eq, Structural)]
pub struct DiscordUserId(pub u64);

/// A BYOND account name (ckey).
#[derive(Debug, PartialEq, Eq)]
pub struct ByondUserId(pub String);

/// A Space Station 14 account identifier.
#[derive(Debug, PartialEq, Eq)]
pub struct SS14UserId(pub String);

/// A secret string: of an API token, a session, a CSRF check, a
/// two-factor token or a webhook.
#[derive(Debug, PartialEq, Eq)]
pub struct Secret(pub String);

impl Clone for ByondUserId {
    fn clone(&self) -> (r: Self)
        ensures
            r == *self,
    {
        ByondUserId(self.0.clone())
    }
}

impl Clone for SS14UserId {
    fn clone(&self) -> (r: Self)
        ensures
            r == *self,
    {
        SS14UserId(self.0.clone())
    }
}

impl Clone for Secret {
    fn clone(&self) -> (r: Self)
        ensures
            r == *self,
    {
        Secret(self.0.clone())
    }
}

impl Secret {
    /// Whether the two secrets are the same string.
    pub fn same(&self, other: &Secret) -> (r: bool)
        ensures
            r == (self.0@ == other.0@),
    {
        self.0.eq(&other.0)
    }
}

} // verus!

verus! {

/// Any of the identifiers by which an account can be found.
#[derive(Debug, PartialEq, Eq)]
pub enum AnyUserId {
    DiscordId(DiscordUserId),
    ByondCkey(ByondUserId),
    SS14Guid(SS14UserId),
    AccountId(AccountId),
}

impl Clone for AnyUserId {
    fn clone(&self) -> (r: Self)
        ensures
            r == *self,
    {
        match self {
            AnyUserId::DiscordId(id) => AnyUserId::DiscordId(*id),
            AnyUserId::ByondCkey(ckey) => AnyUserId::ByondCkey(ckey.clone()),
            AnyUserId::SS14Guid(guid) => AnyUserId::SS14Guid(guid.clone()),
            AnyUserId::AccountId(id) => AnyUserId::AccountId(*id),
        }
    }
}

/// A role: a named, coloured set of rights that accounts can hold.
#[derive(Debug, PartialEq, Eq)]
pub struct Role {
    pub id: RoleId,
    pub name: String,
    pub color: u32,
    pub rights: Rights,
}

impl Clone for Role {
    fn clone(&self) -> (r: Self)
        ensures
            r.id == self.id,
            r.name == self.name,
            r.color == self.color,
            r.rights@ == self.rights@,
    {
        Role { id: self.id, name: self.name.clone(), color: self.color, rights: self.rights.clone() }
    }
}

/// The rights of each role in `roles`, in order.
pub open spec fn role_rights(roles: Seq<Role>) -> Seq<RightsView> {
    roles.map_values(|r: Role| r.rights@)
}

/// Whether one of `roles` has the identifier `id`.
pub open spec fn has_role(roles: Seq<Role>, id: RoleId) -> bool {
    exists|i: int| 0 <= i < roles.len() && (#[trigger] roles[i]).id == id
}

impl Role {
    /// Everything that at least one of `roles` grants.
    pub fn sum_roles_rights(roles: &Vec<Role>) -> (r: Rights)
        ensures
            r@ == sum_rights(role_rights(roles@)),
    {
        let mut acc = Rights::empty();
        let mut i: usize = 0;
        while i < roles.len()
            invariant
                i <= roles.len(),
                acc@ == sum_rights(role_rights(roles@.take(i as int))),
            decreases roles.len() - i,
        {
            let ghost prefix = role_rights(roles@.take(i as int));
            acc = acc.union(&roles[i].rights);
            proof {
                let next = role_rights(roles@.take(i + 1));
                assert(next.drop_last() =~= prefix);
                assert(next.last() == roles@[i as int].rights@);
            }
            i = i + 1;
        }
        assert(roles@.take(roles.len() as int) =~= roles@);
        acc
    }
}

/// Whether a role with identifier `id` is among `roles`.
pub fn roles_contain(roles: &Vec<Role>, id: RoleId) -> (r: bool)
    ensures
        r == has_role(roles@, id),
{
    let mut i: usize = 0;
    while i < roles.len()
        invariant
            i <= roles.len(),
            forall|k: int| 0 <= k < i ==> (#[trigger] roles@[k]).id != id,
        decreases roles.len() - i,
    {
        if roles[i].id.0 == id.0 {
            assert(roles@[i as int].id == id);
            return true;
        }
        i = i + 1;
    }
    false
}

/// An API token: a secret that grants rights until it expires.
#[derive(Debug, PartialEq, Eq)]
pub struct ApiToken {
    pub secret: Secret,
    pub expiration: Option<i64>,
    pub rights: Rights,
    pub created_at: i64,
    pub creator: Option<AccountId>,
    pub is_service: bool,
}

/// Whether an instant plus a duration stays within the range of `i64`.
pub open spec fn fits(now: i64, duration: i64) -> bool {
    i64::MIN <= now + duration <= i64::MAX
}

/// An expiration has passed once the current instant lies after it.
pub open spec fn expired_at(expiration: i64, now: i64) -> bool {
    expiration < now
}

impl ApiToken {
    /// A token created at `now` (or at `custom_creation_date` when given),
    /// which expires `duration` after `now`, or never without a duration.
    pub fn new(
        secret: Secret,
        rights: Rights,
        creator: Option<AccountId>,
        duration: Option<i64>,
        is_service: bool,
        custom_creation_date: Option<i64>,
        now: i64,
    ) -> (r: ApiToken)
        requires
            duration matches Some(d) ==> fits(now, d),
        ensures
            r.secret == secret,
            r.rights == rights,
            r.creator == creator,
            r.is_service == is_service,
            r.created_at == (match custom_creation_date {
                Some(c) => c,
                None => now,
            }),
            r.expiration == (match duration {
                Some(d) => Some((now + d) as i64),
                None => None::<i64>,
            }),
    {
        let created_at = match custom_creation_date {
            Some(c) => c,
            None => now,
        };
        let expiration = match duration {
            Some(d) => Some(now + d),
            None => None,
        };
        ApiToken { secret, expiration, rights, created_at, creator, is_service }
    }

    /// Whether the token has expired at `now`.
    pub fn is_expired(&self, now: i64) -> (r: bool)
        ensures
            r == (self.expiration matches Some(e) && expired_at(e, now)),
    {
        match self.expiration {
            Some(e) => e < now,
            None => false,
        }
    }
}

impl Clone for ApiToken {
    fn clone(&self) -> (r: Self)
        ensures
            r.secret == self.secret,
            r.expiration == self.expiration,
            r.rights@ == self.rights@,
            r.created_at == self.created_at,
            r.creator == self.creator,
            r.is_service == self.is_service,
    {
        ApiToken {
            secret: self.secret.clone(),
            expiration: self.expiration,
            rights: self.rights.clone(),
            created_at: self.created_at,
            creator: self.creator,
            is_service: self.is_service,
        }
    }
}

/// A login session of an account, with the API token it uses.
#[derive(Debug, PartialEq, Eq)]
pub struct Session {
    pub secret: Secret,
    pub api_secret: Secret,
    pub csrf_secret: Secret,
    pub account_id: AccountId,
    pub created_at: i64,
    pub expiration: i64,
    pub user_agent: String,
    pub ip: String,
}

impl Session {
    /// A session created at `now` (or at `custom_creation_date` when given)
    /// that expires `duration` after `now`.
    pub fn new(
        secret: Secret,
        api_secret: Secret,
        csrf_secret: Secret,
        account_id: AccountId,
        custom_creation_date: Option<i64>,
        duration: i64,
        user_agent: String,
        ip: String,
        now: i64,
    ) -> (r: Session)
        requires
            fits(now, duration),
        ensures
            r.secret == secret,
            r.api_secret == api_secret,
            r.csrf_secret == csrf_secret,
            r.account_id == account_id,
            r.created_at == (match custom_creation_date {
                Some(c) => c,
                None => now,
            }),
            r.expiration == now + duration,
            r.user_agent == user_agent,
            r.ip == ip,
    {
        let created_at = match custom_creation_date {
            Some(c) => c,
            None => now,
        };
        Session {
            secret,
            api_secret,
            csrf_secret,
            account_id,
            created_at,
            expiration: now + duration,
            user_agent,
            ip,
        }
    }

    /// Whether the session has expired at `now`.
    pub fn is_expired(&self, now: i64) -> (r: bool)
        ensures
            r == expired_at(self.expiration, now),
    {
        self.expiration < now
    }
}

impl Clone for Session {
    fn clone(&self) -> (r: Self)
        ensures
            r == *self,
    {
        Session {
            secret: self.secret.clone(),
            api_secret: self.api_secret.clone(),
            csrf_secret: self.csrf_secret.clone(),
            account_id: self.account_id,
            created_at: self.created_at,
            expiration: self.expiration,
            user_agent: self.user_agent.clone(),
            ip: self.ip.clone(),
        }
    }
}

/// A short-lived two-factor token that proves control of a Discord account.
#[derive(Debug, PartialEq, Eq)]
pub struct TFAToken {
    pub secret: Secret,
    pub discord_user_id: DiscordUserId,
    pub expiration: i64,
}

impl TFAToken {
    /// A token for `discord_user_id` that expires `duration` after `now`.
    pub fn new(secret: Secret, discord_user_id: DiscordUserId, duration: i64, now: i64) -> (r:
        TFAToken)
        requires
            fits(now, duration),
        ensures
            r.secret == secret,
            r.discord_user_id == discord_user_id,
            r.expiration == now + duration,
    {
        TFAToken { secret, discord_user_id, expiration: now + duration }
    }

    /// Whether the token has expired at `now`.
    pub fn is_expired(&self, now: i64) -> (r: bool)
        ensures
            r == expired_at(self.expiration, now),
    {
        self.expiration < now
    }
}

impl Clone for TFAToken {
    fn clone(&self) -> (r: Self)
        ensures
            r == *self,
    {
        TFAToken {
            secret: self.secret.clone(),
            discord_user_id: self.discord_user_id,
            expiration: self.expiration,
        }
    }
}

/// An account.
#[derive(Debug, PartialEq, Eq)]
pub struct Account {
    pub id: AccountId,
    pub username: String,
    pub avatar_url: String,
    pub created_at: i64,
}

impl Clone for Account {
    fn clone(&self) -> (r: Self)
        ensures
            r == *self,
    {
        Account {
            id: self.id,
            username: self.username.clone(),
            avatar_url: self.avatar_url.clone(),
            created_at: self.created_at,
        }
    }
}

/// The outside accounts connected to an account.
#[derive(Debug, PartialEq, Eq)]
pub struct AccountIntegrations {
    pub account_id: AccountId,
    pub discord_user_id: DiscordUserId,
    pub byond_ckey: Option<ByondUserId>,
    pub ss14_guid: Option<SS14UserId>,
}

impl Clone for AccountIntegrations {
    fn clone(&self) -> (r: Self)
        ensures
            r == *self,
    {
        AccountIntegrations {
            account_id: self.account_id,
            discord_user_id: self.discord_user_id,
            byond_ckey: match &self.byond_ckey {
                Some(c) => Some(c.clone()),
                None => None,
            },
            ss14_guid: match &self.ss14_guid {
                Some(g) => Some(g.clone()),
                None => None,
            },
        }
    }
}

/// Identifies a feature vote: its Discord message and channel.
#[derive(Clone, Copy, Debug, PartialEq, Eq, Structural)]
pub struct FeatureVoteDescriptor(pub u64, pub u64);

/// A vote on a proposed feature.
#[derive(Clone, Copy, Debug, PartialEq, Eq, Structural)]
pub struct FeatureVote {
    pub descriptor: FeatureVoteDescriptor,
    pub author_id: DiscordUserId,
    pub created_at: i64,
    pub is_vote_ended: bool,
}

/// Identifies a bug report by the number of its issue.
#[derive(Clone, Copy, Debug, PartialEq, Eq, Structural)]
pub struct BugReportDescriptor(pub u64);

/// A bug report.
#[derive(Clone, Copy, Debug, PartialEq, Eq, Structural)]
pub struct BugReport {
    pub descriptor: BugReportDescriptor,
    pub author_id: DiscordUserId,
}

/// The JSON text a webhook was configured with.
#[derive(Debug, PartialEq, Eq)]
pub struct WebhookConfiguration(pub String);

/// The JSON text a webhook event carries.
#[derive(Debug, PartialEq, Eq)]
pub struct WebhookPayload(pub String);

/// The JSON text a service answers a webhook event with.
#[derive(Debug, PartialEq, Eq)]
pub struct WebhookResponse(pub String);

/// A webhook: a secret through which events reach a service.
#[derive(Debug, PartialEq, Eq)]
pub struct Webhook {
    pub name: String,
    pub secret: Secret,
    pub service_id: crate::rights::ServiceId,
    pub created_at: i64,
    pub configuration: WebhookConfiguration,
}

impl Clone for WebhookConfiguration {
    fn clone(&self) -> (r: Self)
        ensures
            r == *self,
    {
        WebhookConfiguration(self.0.clone())
    }
}

impl Clone for Webhook {
    fn clone(&self) -> (r: Self)
        ensures
            r == *self,
    {
        Webhook {
            name: self.name.clone(),
            secret: self.secret.clone(),
            service_id: self.service_id.clone(),
            created_at: self.created_at,
            configuration: self.configuration.clone(),
        }
    }
}

impl Webhook {
    /// A webhook created at `now` (or at `custom_creation_date` when given).
    pub fn new(
        name: String,
        secret: Secret,
        service_id: crate::rights::ServiceId,
        custom_creation_date: Option<i64>,
        configuration: WebhookConfiguration,
        now: i64,
    ) -> (r: Webhook)
        ensures
            r == (Webhook {
                name,
                secret,
                service_id,
                created_at: match custom_creation_date {
                    Some(c) => c,
                    None => now,
                },
                configuration,
            }),
    {
        let created_at = match custom_creation_date {
            Some(c) => c,
            None => now,
        };
        Webhook { name, secret, service_id, created_at, configuration }
    }
}

/// Why an API call was refused.
#[derive(Debug, PartialEq, Eq)]
pub enum ApiError {
    Unauthorized(String),
    Forbidden(String),
    Other(String),
    Internal(String),
}

impl ApiError {
    /// The text of the error, as shown to the caller.
    pub fn message(&self) -> (m: &String)
        ensures
            *m == match *self {
                ApiError::Unauthorized(m) => m,
                ApiError::Forbidden(m) => m,
                ApiError::Other(m) => m,
                ApiError::Internal(m) => m,
            },
    {
        match self {
            ApiError::Unauthorized(m) => m,
            ApiError::Forbidden(m) => m,
            ApiError::Other(m) => m,
            ApiError::Internal(m) => m,
        }
    }
}

impl Clone for ApiError {
    fn clone(&self) -> (r: Self)
        ensures
            r == *self,
    {
        match self {
            ApiError::Unauthorized(m) => ApiError::Unauthorized(m.clone()),
            ApiError::Forbidden(m) => ApiError::Forbidden(m.clone()),
            ApiError::Other(m) => ApiError::Other(m.clone()),
            ApiError::Internal(m) => ApiError::Internal(m.clone()),
        }
    }
}

/// Why a service could not handle a webhook event.
#[derive(Debug, PartialEq, Eq)]
pub enum ServiceError {
    Any(String),
}

/// Who calls the API: the server itself, or a client with an API token.
#[derive(Debug, PartialEq, Eq)]
pub enum ApiCaller {
    Internal,
    Token(Secret),
}

/// Who performed, or underwent, a journalled action.
#[derive(Debug, PartialEq, Eq)]
pub enum Actor {
    System,
    User(AccountId),
    Webhook(String),
}

/// The kinds of journalled actions.
#[derive(Debug, PartialEq, Eq)]
pub enum ActionType {
    AccountCreated,
    ByondConnected { ckey: ByondUserId },
    SS14Connected { ss14_guid: SS14UserId },
    RoleAdded { role_id: RoleId },
    RoleRemoved { role_id: RoleId },
    ApiTokenCreated,
    ApiTokenDeleted,
    WebhookCreated,
    WebhookDeleted,
}

/// An entry for the journal: `object` did `action` to `subject`.
#[derive(Debug, PartialEq, Eq)]
pub struct JournalRecord {
    pub object: Actor,
    pub subject: Option<Actor>,
    pub action: ActionType,
}

} // verus!
