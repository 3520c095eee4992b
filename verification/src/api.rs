//! The API's decisions. Each call takes what was read from the database
//! for it and answers with the refusal or with what to write and journal;
//! the reads and writes themselves happen outside the library.
use crate::models::{expired_at, Actor, ApiError, ApiToken, Secret, TFAToken};
use crate::rights::{all_rights, rights_le, rights_lt, Rights, RightsView};
use crate::services::{ServiceKind, ServicesStorage};
use crate::tfa_tokens_storage::TFATokensStorage;
use vstd::prelude::*;

pub mod account;
pub mod session;
pub mod token;
pub mod webhook;

verus! {

/// The kinds of refusal.
#[derive(Clone, Copy, Debug, PartialEq, Eq, Structural)]
pub enum ErrorKind {
    Unauthorized,
    Forbidden,
    Other,
    Internal,
}

/// What the API owes a call: to go ahead, or a refusal of a kind with a
/// message.
pub enum Verdict {
    Allow,
    Refuse(ErrorKind, Seq<char>),
}

/// Kind and message of an error.
pub open spec fn error_view(e: ApiError) -> (ErrorKind, Seq<char>) {
    match e {
        ApiError::Unauthorized(m) => (ErrorKind::Unauthorized, m@),
        ApiError::Forbidden(m) => (ErrorKind::Forbidden, m@),
        ApiError::Other(m) => (ErrorKind::Other, m@),
        ApiError::Internal(m) => (ErrorKind::Internal, m@),
    }
}

/// `r` is the answer the verdict asks for.
pub open spec fn follows<T>(r: Result<T, ApiError>, v: Verdict) -> bool {
    match v {
        Verdict::Allow => r is Ok,
        Verdict::Refuse(k, m) => r matches Err(e) && error_view(e) == (k, m),
    }
}

/// An error of kind `kind` with message `msg`.
pub fn error(kind: ErrorKind, msg: &str) -> (e: ApiError)
    ensures
        error_view(e) == (kind, msg@),
{
    let m = String::from_str(msg);
    match kind {
        ErrorKind::Unauthorized => ApiError::Unauthorized(m),
        ErrorKind::Forbidden => ApiError::Forbidden(m),
        ErrorKind::Other => ApiError::Other(m),
        ErrorKind::Internal => ApiError::Internal(m),
    }
}

pub open spec fn msg_bad_api_token() -> Seq<char> {
    "Некорректный API токен"@
}

pub open spec fn msg_forbidden() -> Seq<char> {
    "Недостаточно доступа"@
}

pub open spec fn msg_bad_tfa_token() -> Seq<char> {
    "Некорректный TFA токен"@
}

pub open spec fn msg_bad_user_id() -> Seq<char> {
    "Неверный user_id"@
}

pub open spec fn msg_no_account() -> Seq<char> {
    "Аккаунт не существует"@
}

pub open spec fn msg_bad_session() -> Seq<char> {
    "Некорректная сессия"@
}

/// The caller of a call, with the API token its secret names as read from
/// the database.
#[derive(Debug)]
pub enum ResolvedCaller {
    Internal,
    Token(Option<ApiToken>),
}

/// Whether `t` is a token that has not expired at `now`.
pub open spec fn valid_token(t: Option<ApiToken>, now: i64) -> bool {
    t matches Some(tok) && !(tok.expiration matches Some(e) && expired_at(e, now))
}

/// The actor a token acts as: the account that created it, or the system.
pub open spec fn token_actor(tok: ApiToken) -> Actor {
    match tok.creator {
        Some(id) => Actor::User(id),
        None => Actor::System,
    }
}

/// The actor a call acts as.
pub open spec fn caller_actor(caller: ResolvedCaller) -> Actor {
    match caller {
        ResolvedCaller::Internal => Actor::System,
        ResolvedCaller::Token(t) => token_actor(t->0),
    }
}

/// Whether a token may not act on `target` rights: an ordinary token when
/// it has strictly fewer rights, a service token when it has no more.
pub open spec fn outranked(tok: ApiToken, target: RightsView) -> bool {
    ||| !tok.is_service && rights_lt(tok.rights@, target)
    ||| tok.is_service && rights_le(tok.rights@, target)
}

/// The check every call with a token begins with: the token must exist and
/// not have expired.
pub fn validate_api_token(found: &Option<ApiToken>, now: i64) -> (r: Result<(), ApiError>)
    ensures
        valid_token(*found, now) ==> r is Ok,
        !valid_token(*found, now) ==> follows(
            r,
            Verdict::Refuse(ErrorKind::Unauthorized, msg_bad_api_token()),
        ),
{
    match found {
        Some(t) => {
            if t.is_expired(now) {
                Err(error(ErrorKind::Unauthorized, "Некорректный API токен"))
            } else {
                Ok(())
            }
        },
        None => Err(error(ErrorKind::Unauthorized, "Некорректный API токен")),
    }
}

/// The actor of a valid token.
pub fn actor_of_token(tok: &ApiToken) -> (a: Actor)
    ensures
        a == token_actor(*tok),
{
    match tok.creator {
        Some(id) => Actor::User(id),
        None => Actor::System,
    }
}

/// Whether `tok` may not act on `target`.
pub fn is_outranked(tok: &ApiToken, target: &Rights) -> (r: bool)
    ensures
        r == outranked(*tok, target@),
{
    (!tok.is_service && tok.rights.lt(target)) || (tok.is_service && tok.rights.le(target))
}

/// The in-process state of the API: the two-factor tokens handed out and
/// the registered webhook services.
#[derive(Debug)]
pub struct Api {
    pub tokens_storage: TFATokensStorage,
    pub services_storage: ServicesStorage,
}

impl Api {
    /// An API with no two-factor tokens and the three services registered,
    /// with the root token to store under the configured `root_secret`:
    /// none when a token with that secret is already stored
    /// (`root_stored`), else `root_token(root_secret, now)`.
    pub fn new(root_secret: Secret, root_stored: bool, now: i64) -> (r: (Api, Option<ApiToken>))
        ensures
            r.0.tokens_storage@ == Seq::<TFAToken>::empty(),
            r.0.services_storage.lookup("echo"@) == Some(ServiceKind::Echo),
            r.0.services_storage.lookup("chat_to_discord"@) == Some(ServiceKind::ChatToDiscord),
            r.0.services_storage.lookup("round_end"@) == Some(ServiceKind::RoundEnd),
            forall|name: Seq<char>|
                name != "echo"@ && name != "chat_to_discord"@ && name != "round_end"@
                    ==> r.0.services_storage.lookup(name) is None,
            root_stored ==> r.1 is None,
            !root_stored ==> (r.1 matches Some(t) && {
                &&& t.secret == root_secret
                &&& t.rights@ == all_rights()
                &&& t.creator is None
                &&& t.expiration is None
                &&& t.is_service
                &&& t.created_at == now
            }),
    {
        let mut services_storage = ServicesStorage::new();
        services_storage.register();
        let root = if root_stored {
            None
        } else {
            Some(Self::root_token(root_secret, now))
        };
        (Api { tokens_storage: TFATokensStorage::new(), services_storage }, root)
    }

    /// The root token stored at start-up under the configured secret: a
    /// service token with every right, created by no account, that never
    /// expires.
    pub fn root_token(root_secret: Secret, now: i64) -> (t: ApiToken)
        ensures
            t.secret == root_secret,
            t.rights@ == all_rights(),
            t.creator is None,
            t.expiration is None,
            t.is_service,
            t.created_at == now,
    {
        ApiToken::new(root_secret, Rights::full(), None, None, true, None, now)
    }
}

} // verus!
