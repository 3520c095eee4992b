//! The SQL statements of the database tables, with the values bound to
//! their placeholders `$1`, `$2`, ... in order. Running them is left to the
//! database driver.
use crate::models::{
    AccountId, AnyUserId, ApiToken, BugReport, ByondUserId, DiscordUserId, FeatureVote,
    FeatureVoteDescriptor, Role, RoleId, SS14UserId, Secret, Session,
};
use crate::rights::Rights;
use crate::text::owned;
use vstd::prelude::*;

verus! {

/// A value bound to a placeholder. Instants are written as text by the
/// driver; rights are stored as JSON.
#[derive(Debug, PartialEq, Eq)]
pub enum Bind {
    BigInt(i64),
    Int(i32),
    Bool(bool),
    Text(String),
    OptText(Option<String>),
    OptBigInt(Option<i64>),
    Instant(i64),
    OptInstant(Option<i64>),
    Rights(Rights),
    BigIntList(Vec<i64>),
}

/// A statement and the values of its placeholders.
#[derive(Debug, PartialEq, Eq)]
pub struct Query {
    pub sql: String,
    pub binds: Vec<Bind>,
}

/// The column that holds an identifier of the kind of `id`, in the
/// `account` table.
pub open spec fn account_column(id: AnyUserId) -> Seq<char> {
    match id {
        AnyUserId::DiscordId(_) => "discord_id"@,
        AnyUserId::ByondCkey(_) => "byond_ckey"@,
        AnyUserId::SS14Guid(_) => "ss14_guid"@,
        AnyUserId::AccountId(_) => "id"@,
    }
}

/// The column that holds an identifier of the kind of `id`, in the
/// `account_integrations` table.
pub open spec fn integrations_column(id: AnyUserId) -> Seq<char> {
    match id {
        AnyUserId::DiscordId(_) => "discord_user_id"@,
        AnyUserId::ByondCkey(_) => "byond_ckey"@,
        AnyUserId::SS14Guid(_) => "ss14_guid"@,
        AnyUserId::AccountId(_) => "account_id"@,
    }
}

/// The value an identifier is bound as.
pub open spec fn id_bind(id: AnyUserId) -> Bind {
    match id {
        AnyUserId::DiscordId(d) => Bind::BigInt(d.0 as i64),
        AnyUserId::ByondCkey(c) => Bind::Text(c.0),
        AnyUserId::SS14Guid(g) => Bind::Text(g.0),
        AnyUserId::AccountId(a) => Bind::BigInt(a.0),
    }
}

fn bind_id(id: AnyUserId) -> (b: Bind)
    ensures
        b == id_bind(id),
{
    match id {
        AnyUserId::DiscordId(d) => Bind::BigInt(d.0 as i64),
        AnyUserId::ByondCkey(c) => Bind::Text(c.0),
        AnyUserId::SS14Guid(g) => Bind::Text(g.0),
        AnyUserId::AccountId(a) => Bind::BigInt(a.0),
    }
}

fn query(sql: &str, binds: Vec<Bind>) -> (q: Query)
    ensures
        q.sql@ == sql@,
        q.binds == binds,
{
    Query { sql: owned(sql), binds }
}

/// Statements of the `account` table.
pub struct AccountTable;

impl AccountTable {
    /// Creates the table when it is missing.
    pub fn create() -> (q: Query)
        ensures
            q.sql@ == "
create table if not exists account
(
    id         bigserial not null
        constraint account_pk
            primary key,
    discord_id bigint not null,
    byond_ckey text,
    ss14_guid  text,
    created_at text not null
);
"@,
            q.binds@.len() == 0,
    {
        query(
            "
create table if not exists account
(
    id         bigserial not null
        constraint account_pk
            primary key,
    discord_id bigint not null,
    byond_ckey text,
    ss14_guid  text,
    created_at text not null
);
",
            Vec::new(),
        )
    }

    /// Adds an account of a Discord user, created at `created_at`.
    pub fn insert(discord_user_id: DiscordUserId, created_at: i64) -> (q: Query)
        ensures
            q.sql@ == "
INSERT INTO account (id, discord_id, byond_ckey, ss14_guid, created_at)
VALUES (DEFAULT, $1, null, null, $2)
"@,
            q.binds@ == seq![Bind::BigInt(discord_user_id.0 as i64), Bind::Instant(created_at)],
    {
        let mut binds = Vec::new();
        binds.push(Bind::BigInt(discord_user_id.0 as i64));
        binds.push(Bind::Instant(created_at));
        query(
            "
INSERT INTO account (id, discord_id, byond_ckey, ss14_guid, created_at)
VALUES (DEFAULT, $1, null, null, $2)
",
            binds,
        )
    }

    /// Finds the account with identifier `user_id`.
    pub fn find_by_user_id(user_id: AnyUserId) -> (q: Query)
        ensures
            q.sql@ == "SELECT * FROM account WHERE "@ + account_column(user_id) + " = $1"@,
            q.binds@ == seq![id_bind(user_id)],
    {
        proof {
            reveal_strlit("SELECT * FROM account WHERE discord_id = $1");
            reveal_strlit("SELECT * FROM account WHERE byond_ckey = $1");
            reveal_strlit("SELECT * FROM account WHERE ss14_guid = $1");
            reveal_strlit("SELECT * FROM account WHERE id = $1");
            reveal_strlit("SELECT * FROM account WHERE ");
            reveal_strlit(" = $1");
            reveal_strlit("discord_id");
            reveal_strlit("byond_ckey");
            reveal_strlit("ss14_guid");
            reveal_strlit("id");
        }
        let sql = match &user_id {
            AnyUserId::DiscordId(_) => "SELECT * FROM account WHERE discord_id = $1",
            AnyUserId::ByondCkey(_) => "SELECT * FROM account WHERE byond_ckey = $1",
            AnyUserId::SS14Guid(_) => "SELECT * FROM account WHERE ss14_guid = $1",
            AnyUserId::AccountId(_) => "SELECT * FROM account WHERE id = $1",
        };
        let mut binds = Vec::new();
        binds.push(bind_id(user_id));
        let q = query(sql, binds);
        assert(q.sql@ =~= "SELECT * FROM account WHERE "@ + account_column(user_id) + " = $1"@);
        q
    }

    /// Sets identifier `new_user_id` on the account with identifier
    /// `user_id`. The internal identifier of an account never changes.
    pub fn update_user_id(user_id: AnyUserId, new_user_id: AnyUserId) -> (q: Query)
        requires
            !(new_user_id is AccountId),
        ensures
            q.sql@ == "UPDATE account SET "@ + account_column(new_user_id) + " = $1 WHERE "@
                + account_column(user_id) + " = $2;"@,
            q.binds@ == seq![id_bind(new_user_id), id_bind(user_id)],
    {
        proof {
            reveal_strlit("discord_id");
            reveal_strlit("byond_ckey");
            reveal_strlit("ss14_guid");
            reveal_strlit("id");
        }
        let set_part = match &new_user_id {
            AnyUserId::DiscordId(_) => "discord_id",
            AnyUserId::ByondCkey(_) => "byond_ckey",
            _ => "ss14_guid",
        };
        let where_part = match &user_id {
            AnyUserId::DiscordId(_) => "discord_id",
            AnyUserId::ByondCkey(_) => "byond_ckey",
            AnyUserId::SS14Guid(_) => "ss14_guid",
            AnyUserId::AccountId(_) => "id",
        };
        let mut sql = owned("UPDATE account SET ");
        sql.append(set_part);
        sql.append(" = $1 WHERE ");
        sql.append(where_part);
        sql.append(" = $2;");
        let mut binds = Vec::new();
        binds.push(bind_id(new_user_id));
        binds.push(bind_id(user_id));
        Query { sql, binds }
    }
}

/// A row of the `account_integrations` table: the outside accounts
/// connected to an account.
#[derive(Debug, PartialEq, Eq)]
pub struct AccountIntegrationsTable {
    pub account_id: AccountId,
    pub discord_user_id: DiscordUserId,
    pub byond_ckey: Option<ByondUserId>,
    pub ss14_guid: Option<SS14UserId>,
}

/// The text of an optional BYOND name.
pub open spec fn ckey_text(c: Option<ByondUserId>) -> Option<String> {
    match c {
        Some(k) => Some(k.0),
        None => None,
    }
}

/// The text of an optional SS14 identifier.
pub open spec fn guid_text(g: Option<SS14UserId>) -> Option<String> {
    match g {
        Some(k) => Some(k.0),
        None => None,
    }
}

impl AccountIntegrationsTable {
    /// Creates the table when it is missing.
    pub fn create() -> (q: Query)
        ensures
            q.sql@ == "
create table if not exists account_integrations
(
    account_id      bigserial not null
        constraint account_integrations_pk
            primary key,
    discord_user_id bigint not null,
    byond_ckey      text,
    ss14_guid       text
);
"@,
            q.binds@.len() == 0,
    {
        query(
            "
create table if not exists account_integrations
(
    account_id      bigserial not null
        constraint account_integrations_pk
            primary key,
    discord_user_id bigint not null,
    byond_ckey      text,
    ss14_guid       text
);
",
            Vec::new(),
        )
    }

    /// Stores a row.
    pub fn insert(account_integrations: AccountIntegrationsTable) -> (q: Query)
        ensures
            q.sql@ == "INSERT INTO account_integrations (account_id, discord_user_id, byond_ckey, ss14_guid) VALUES ($1, $2, $3, $4)"@,
            q.binds@ == seq![
                Bind::BigInt(account_integrations.account_id.0),
                Bind::BigInt(account_integrations.discord_user_id.0 as i64),
                Bind::OptText(ckey_text(account_integrations.byond_ckey)),
                Bind::OptText(guid_text(account_integrations.ss14_guid)),
            ],
    {
        let AccountIntegrationsTable { account_id, discord_user_id, byond_ckey, ss14_guid } =
            account_integrations;
        let ckey = match byond_ckey {
            Some(k) => Some(k.0),
            None => None,
        };
        let guid = match ss14_guid {
            Some(g) => Some(g.0),
            None => None,
        };
        let mut binds = Vec::new();
        binds.push(Bind::BigInt(account_id.0));
        binds.push(Bind::BigInt(discord_user_id.0 as i64));
        binds.push(Bind::OptText(ckey));
        binds.push(Bind::OptText(guid));
        query(
            "INSERT INTO account_integrations (account_id, discord_user_id, byond_ckey, ss14_guid) VALUES ($1, $2, $3, $4)",
            binds,
        )
    }

    /// Finds the row of the account with identifier `user_id`.
    pub fn find_by_id(user_id: AnyUserId) -> (q: Query)
        ensures
            q.sql@ == "SELECT * FROM account_integrations WHERE "@ + integrations_column(user_id)
                + " = $1"@,
            q.binds@ == seq![id_bind(user_id)],
    {
        proof {
            reveal_strlit("discord_user_id");
            reveal_strlit("byond_ckey");
            reveal_strlit("ss14_guid");
            reveal_strlit("account_id");
        }
        let column = match &user_id {
            AnyUserId::DiscordId(_) => "discord_user_id",
            AnyUserId::ByondCkey(_) => "byond_ckey",
            AnyUserId::SS14Guid(_) => "ss14_guid",
            AnyUserId::AccountId(_) => "account_id",
        };
        let mut sql = owned("SELECT * FROM account_integrations WHERE ");
        sql.append(column);
        sql.append(" = $1");
        let mut binds = Vec::new();
        binds.push(bind_id(user_id));
        Query { sql, binds }
    }

    /// Connects `integration_id` to the account with identifier `user_id`.
    /// The account identifier itself never changes.
    pub fn set_integration(user_id: AnyUserId, integration_id: AnyUserId) -> (q: Query)
        requires
            !(integration_id is AccountId),
        ensures
            q.sql@ == "UPDATE account_integrations SET "@ + integrations_column(integration_id)
                + " = $1 WHERE "@ + integrations_column(user_id) + " = $2;"@,
            q.binds@ == seq![id_bind(integration_id), id_bind(user_id)],
    {
        proof {
            reveal_strlit("discord_user_id");
            reveal_strlit("byond_ckey");
            reveal_strlit("ss14_guid");
            reveal_strlit("account_id");
        }
        let set_part = match &integration_id {
            AnyUserId::DiscordId(_) => "discord_user_id",
            AnyUserId::ByondCkey(_) => "byond_ckey",
            _ => "ss14_guid",
        };
        let where_part = match &user_id {
            AnyUserId::DiscordId(_) => "discord_user_id",
            AnyUserId::ByondCkey(_) => "byond_ckey",
            AnyUserId::SS14Guid(_) => "ss14_guid",
            AnyUserId::AccountId(_) => "account_id",
        };
        let mut sql = owned("UPDATE account_integrations SET ");
        sql.append(set_part);
        sql.append(" = $1 WHERE ");
        sql.append(where_part);
        sql.append(" = $2;");
        let mut binds = Vec::new();
        binds.push(bind_id(integration_id));
        binds.push(bind_id(user_id));
        Query { sql, binds }
    }
}

/// Statements of the `bug_message` table.
pub struct BugMessageTable;

impl BugMessageTable {
    /// Creates the table when it is missing.
    pub fn create() -> (q: Query)
        ensures
            q.sql@ == "
create table if not exists bug_message
(
    id           bigserial not null
        constraint bug_message_pk
            primary key,
    user_id      bigint not null,
    issue_number bigint not null
);
"@,
            q.binds@.len() == 0,
    {
        query(
            "
create table if not exists bug_message
(
    id           bigserial not null
        constraint bug_message_pk
            primary key,
    user_id      bigint not null,
    issue_number bigint not null
);
",
            Vec::new(),
        )
    }

    /// Stores a bug report.
    pub fn insert(bug_report: BugReport) -> (q: Query)
        ensures
            q.sql@ == "
INSERT INTO bug_message (id, user_id, issue_number)
VALUES (DEFAULT, $1, $2);
"@,
            q.binds@ == seq![
                Bind::BigInt(bug_report.author_id.0 as i64),
                Bind::BigInt(bug_report.descriptor.0 as i64),
            ],
    {
        let mut binds = Vec::new();
        binds.push(Bind::BigInt(bug_report.author_id.0 as i64));
        binds.push(Bind::BigInt(bug_report.descriptor.0 as i64));
        query(
            "
INSERT INTO bug_message (id, user_id, issue_number)
VALUES (DEFAULT, $1, $2);
",
            binds,
        )
    }
}

/// Statements of the `feature_message` table.
pub struct FeatureMessageTable;

impl FeatureMessageTable {
    /// Creates the table when it is missing.
    pub fn create() -> (q: Query)
        ensures
            q.sql@ == "
create table if not exists feature_message
(
    id            bigserial not null
        constraint feature_message_pk
            primary key,
    channel_id    bigint not null,
    message_id    bigint not null,
    user_id       bigint not null,
    is_vote_ended boolean not null,
    created_at    text    not null
);
"@,
            q.binds@.len() == 0,
    {
        query(
            "
create table if not exists feature_message
(
    id            bigserial not null
        constraint feature_message_pk
            primary key,
    channel_id    bigint not null,
    message_id    bigint not null,
    user_id       bigint not null,
    is_vote_ended boolean not null,
    created_at    text    not null
);
",
            Vec::new(),
        )
    }

    /// Stores a feature vote.
    pub fn insert(feature: FeatureVote) -> (q: Query)
        ensures
            q.sql@ == "
INSERT INTO feature_message (id, channel_id, message_id, user_id, is_vote_ended, created_at)
VALUES (DEFAULT, $1, $2, $3, $4, $5);
        "@,
            q.binds@ == seq![
                Bind::BigInt(feature.descriptor.1 as i64),
                Bind::BigInt(feature.descriptor.0 as i64),
                Bind::BigInt(feature.author_id.0 as i64),
                Bind::Bool(feature.is_vote_ended),
                Bind::Instant(feature.created_at),
            ],
    {
        let mut binds = Vec::new();
        binds.push(Bind::BigInt(feature.descriptor.1 as i64));
        binds.push(Bind::BigInt(feature.descriptor.0 as i64));
        binds.push(Bind::BigInt(feature.author_id.0 as i64));
        binds.push(Bind::Bool(feature.is_vote_ended));
        binds.push(Bind::Instant(feature.created_at));
        query(
            "
INSERT INTO feature_message (id, channel_id, message_id, user_id, is_vote_ended, created_at)
VALUES (DEFAULT, $1, $2, $3, $4, $5);
        ",
            binds,
        )
    }

    /// Finds the vote of a message.
    pub fn find_by_descriptor(descriptor: FeatureVoteDescriptor) -> (q: Query)
        ensures
            q.sql@ == "SELECT id FROM feature_message WHERE channel_id = $1 AND message_id = $2"@,
            q.binds@ == seq![
                Bind::BigInt(descriptor.1 as i64),
                Bind::BigInt(descriptor.0 as i64),
            ],
    {
        let mut binds = Vec::new();
        binds.push(Bind::BigInt(descriptor.1 as i64));
        binds.push(Bind::BigInt(descriptor.0 as i64));
        query("SELECT id FROM feature_message WHERE channel_id = $1 AND message_id = $2", binds)
    }

    /// Marks the vote of a message as ended.
    pub fn end_vote(descriptor: FeatureVoteDescriptor) -> (q: Query)
        ensures
            q.sql@ == "UPDATE feature_message SET is_vote_ended = true WHERE channel_id = $1 AND message_id = $2"@,
            q.binds@ == seq![
                Bind::BigInt(descriptor.1 as i64),
                Bind::BigInt(descriptor.0 as i64),
            ],
    {
        let mut binds = Vec::new();
        binds.push(Bind::BigInt(descriptor.1 as i64));
        binds.push(Bind::BigInt(descriptor.0 as i64));
        query(
            "UPDATE feature_message SET is_vote_ended = true WHERE channel_id = $1 AND message_id = $2",
            binds,
        )
    }
}

/// Statements of the `role` table.
pub struct RoleTable;

impl RoleTable {
    /// Creates the table when it is missing.
    pub fn create() -> (q: Query)
        ensures
            q.sql@ == "
create table if not exists role
(
    id     bigserial not null
        constraint role_pk
            primary key,
    name   text not null,
    color  bigint not null,
    rights jsonb not null
);
"@,
            q.binds@.len() == 0,
    {
        query(
            "
create table if not exists role
(
    id     bigserial not null
        constraint role_pk
            primary key,
    name   text not null,
    color  bigint not null,
    rights jsonb not null
);
",
            Vec::new(),
        )
    }

    /// Stores a role; its identifier is assigned by the database.
    pub fn insert(role: Role) -> (q: Query)
        ensures
            q.sql@ == "INSERT INTO role (id, name, color, rights) VALUES (DEFAULT, $1, $2, $3)"@,
            q.binds@ == seq![
                Bind::Text(role.name),
                Bind::Int(role.color as i32),
                Bind::Rights(role.rights),
            ],
    {
        let Role { id: _, name, color, rights } = role;
        let mut binds = Vec::new();
        binds.push(Bind::Text(name));
        binds.push(Bind::Int(color as i32));
        binds.push(Bind::Rights(rights));
        query("INSERT INTO role (id, name, color, rights) VALUES (DEFAULT, $1, $2, $3)", binds)
    }

    /// Finds the role with identifier `id`.
    pub fn find_by_id(id: RoleId) -> (q: Query)
        ensures
            q.sql@ == "SELECT * FROM role WHERE id = $1"@,
            q.binds@ == seq![Bind::BigInt(id.0)],
    {
        let mut binds = Vec::new();
        binds.push(Bind::BigInt(id.0));
        query("SELECT * FROM role WHERE id = $1", binds)
    }

    /// Finds the roles with the identifiers `ids`.
    pub fn find_by_ids(ids: &Vec<RoleId>) -> (q: Query)
        ensures
            q.sql@ == "SELECT * FROM role WHERE id = ANY ($1);"@,
            q.binds@.len() == 1,
            q.binds@[0] matches Bind::BigIntList(v) && v@ == ids@.map_values(|r: RoleId| r.0),
    {
        let mut list: Vec<i64> = Vec::new();
        let mut i: usize = 0;
        while i < ids.len()
            invariant
                i <= ids@.len(),
                list@ == ids@.take(i as int).map_values(|r: RoleId| r.0),
            decreases ids@.len() - i,
        {
            list.push(ids[i].0);
            proof {
                assert(ids@.take(i + 1).map_values(|r: RoleId| r.0) =~= ids@.take(i as int).map_values(
                    |r: RoleId| r.0,
                ).push(ids@[i as int].0));
            }
            i = i + 1;
        }
        assert(ids@.take(ids@.len() as int) =~= ids@);
        let mut binds = Vec::new();
        binds.push(Bind::BigIntList(list));
        query("SELECT * FROM role WHERE id = ANY ($1);", binds)
    }
}

/// Statements of the `session` table.
pub struct SessionTable;

impl SessionTable {
    /// Creates the table when it is missing.
    pub fn create() -> (q: Query)
        ensures
            q.sql@ == "
create table if not exists session
(
    secret     text      not null
        constraint session_pk
                    primary key,
    api_secret text   not null,
    account_id bigint not null,
    created_at text   not null,
    expiration text   not null,
    user_agent text   not null,
    ip         text   not null
);
"@,
            q.binds@.len() == 0,
    {
        query(
            "
create table if not exists session
(
    secret     text      not null
        constraint session_pk
                    primary key,
    api_secret text   not null,
    account_id bigint not null,
    created_at text   not null,
    expiration text   not null,
    user_agent text   not null,
    ip         text   not null
);
",
            Vec::new(),
        )
    }

    /// Stores a session.
    pub fn insert(session: Session) -> (q: Query)
        ensures
            q.sql@ == "INSERT INTO session (secret, api_secret, account_id, created_at, expiration, user_agent, ip) VALUES ($1, $2, $3, $4, $5, $6, $7)"@,
            q.binds@ == seq![
                Bind::Text(session.secret.0),
                Bind::Text(session.api_secret.0),
                Bind::BigInt(session.account_id.0),
                Bind::Instant(session.created_at),
                Bind::Instant(session.expiration),
                Bind::Text(session.user_agent),
                Bind::Text(session.ip),
            ],
    {
        let Session {
            secret,
            api_secret,
            csrf_secret: _,
            account_id,
            created_at,
            expiration,
            user_agent,
            ip,
        } = session;
        let mut binds = Vec::new();
        binds.push(Bind::Text(secret.0));
        binds.push(Bind::Text(api_secret.0));
        binds.push(Bind::BigInt(account_id.0));
        binds.push(Bind::Instant(created_at));
        binds.push(Bind::Instant(expiration));
        binds.push(Bind::Text(user_agent));
        binds.push(Bind::Text(ip));
        query(
            "INSERT INTO session (secret, api_secret, account_id, created_at, expiration, user_agent, ip) VALUES ($1, $2, $3, $4, $5, $6, $7)",
            binds,
        )
    }

    /// Reads every session.
    pub fn get_all() -> (q: Query)
        ensures
            q.sql@ == "SELECT * FROM session"@,
            q.binds@.len() == 0,
    {
        query("SELECT * FROM session", Vec::new())
    }

    /// Deletes the session with secret `session_secret`.
    pub fn delete_by_secret(session_secret: Secret) -> (q: Query)
        ensures
            q.sql@ == "DELETE FROM session WHERE secret = $1"@,
            q.binds@ == seq![Bind::Text(session_secret.0)],
    {
        let mut binds = Vec::new();
        binds.push(Bind::Text(session_secret.0));
        query("DELETE FROM session WHERE secret = $1", binds)
    }

    /// Finds the session with secret `session_secret`.
    pub fn find_by_secret(session_secret: Secret) -> (q: Query)
        ensures
            q.sql@ == "SELECT * FROM session WHERE secret = $1"@,
            q.binds@ == seq![Bind::Text(session_secret.0)],
    {
        let mut binds = Vec::new();
        binds.push(Bind::Text(session_secret.0));
        query("SELECT * FROM session WHERE secret = $1", binds)
    }
}

/// Statements of the `token` table.
pub struct TokenTable;

impl TokenTable {
    /// Creates the table when it is missing.
    pub fn create() -> (q: Query)
        ensures
            q.sql@ == "
create table if not exists token
(
    secret     text      not null
        constraint token_pk
                    primary key,
    expiration text      null,
    rights     jsonb     not null,
    created_at text      not null,
    creator    bigint    null,
    is_service bool      not null
);
            "@,
            q.binds@.len() == 0,
    {
        query(
            "
create table if not exists token
(
    secret     text      not null
        constraint token_pk
                    primary key,
    expiration text      null,
    rights     jsonb     not null,
    created_at text      not null,
    creator    bigint    null,
    is_service bool      not null
);
            ",
            Vec::new(),
        )
    }

    /// Stores a token.
    pub fn insert(token: ApiToken) -> (q: Query)
        ensures
            q.sql@ == "INSERT INTO token (secret, expiration, rights, created_at, creator, is_service) VALUES ($1, $2, $3, $4, $5, $6)"@,
            q.binds@ == seq![
                Bind::Text(token.secret.0),
                Bind::OptInstant(token.expiration),
                Bind::Rights(token.rights),
                Bind::Instant(token.created_at),
                Bind::OptBigInt(
                    match token.creator {
                        Some(a) => Some(a.0),
                        None => None,
                    },
                ),
                Bind::Bool(token.is_service),
            ],
    {
        let ApiToken { secret, expiration, rights, created_at, creator, is_service } = token;
        let creator_id = match creator {
            Some(a) => Some(a.0),
            None => None,
        };
        let mut binds = Vec::new();
        binds.push(Bind::Text(secret.0));
        binds.push(Bind::OptInstant(expiration));
        binds.push(Bind::Rights(rights));
        binds.push(Bind::Instant(created_at));
        binds.push(Bind::OptBigInt(creator_id));
        binds.push(Bind::Bool(is_service));
        query(
            "INSERT INTO token (secret, expiration, rights, created_at, creator, is_service) VALUES ($1, $2, $3, $4, $5, $6)",
            binds,
        )
    }

    /// Deletes the token with secret `api_secret`.
    pub fn delete_by_secret(api_secret: Secret) -> (q: Query)
        ensures
            q.sql@ == "DELETE FROM token WHERE secret = $1"@,
            q.binds@ == seq![Bind::Text(api_secret.0)],
    {
        let mut binds = Vec::new();
        binds.push(Bind::Text(api_secret.0));
        query("DELETE FROM token WHERE secret = $1", binds)
    }

    /// Replaces secret, expiration and rights of the first token.
    pub fn update(new_secret: Secret, new_expiration: Option<i64>, new_rights: Rights) -> (q: Query)
        ensures
            q.sql@ == "UPDATE token SET secret = $1, expiration = $2, rights = $3 WHERE id = 1"@,
            q.binds@ == seq![
                Bind::Text(new_secret.0),
                Bind::OptInstant(new_expiration),
                Bind::Rights(new_rights),
            ],
    {
        let mut binds = Vec::new();
        binds.push(Bind::Text(new_secret.0));
        binds.push(Bind::OptInstant(new_expiration));
        binds.push(Bind::Rights(new_rights));
        query("UPDATE token SET secret = $1, expiration = $2, rights = $3 WHERE id = 1", binds)
    }

    /// Finds the token with secret `api_secret`.
    pub fn find_by_secret(api_secret: Secret) -> (q: Query)
        ensures
            q.sql@ == "SELECT * FROM token WHERE secret = $1"@,
            q.binds@ == seq![Bind::Text(api_secret.0)],
    {
        let mut binds = Vec::new();
        binds.push(Bind::Text(api_secret.0));
        query("SELECT * FROM token WHERE secret = $1", binds)
    }
}

} // verus!
