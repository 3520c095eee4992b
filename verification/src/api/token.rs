//! Decisions on API tokens.
use crate::api::{
    actor_of_token, caller_actor, error, follows, msg_bad_api_token, msg_forbidden,
    validate_api_token, valid_token, Api, ErrorKind, ResolvedCaller, Verdict,
};
use crate::api::account::then;
use crate::models::{expired_at, fits, AccountId, ActionType, Actor, ApiError, ApiToken, JournalRecord, Secret};
use crate::rights::{rights_lt, Rights, RightsView};
use vstd::prelude::*;

verus! {

/// The account a caller acts for, if any.
pub open spec fn caller_creator(caller: ResolvedCaller) -> Option<AccountId> {
    match caller {
        ResolvedCaller::Internal => None,
        ResolvedCaller::Token(t) => t->0.creator,
    }
}

/// Verdict on creating a token with `rights`, valid for `duration` from
/// `now` (or forever), that is a service token when `is_service`.
pub open spec fn create_token_verdict(
    caller: ResolvedCaller,
    rights: RightsView,
    duration: Option<i64>,
    is_service: bool,
    now: i64,
) -> Verdict {
    then(
        match caller {
            ResolvedCaller::Internal => Verdict::Allow,
            ResolvedCaller::Token(t) => if !valid_token(t, now) {
                Verdict::Refuse(ErrorKind::Unauthorized, msg_bad_api_token())
            } else if (is_service && !t->0.rights.token.service_token_create) || (!is_service
                && !t->0.rights.token.token_create) {
                Verdict::Refuse(ErrorKind::Forbidden, msg_forbidden())
            } else if rights_lt(t->0.rights@, rights) {
                Verdict::Refuse(ErrorKind::Forbidden, msg_forbidden())
            } else {
                Verdict::Allow
            },
        },
        if duration matches Some(d) && expired_at((now + d) as i64, now) {
            Verdict::Refuse(ErrorKind::Other, "Новый токен уже устаревший"@)
        } else {
            Verdict::Allow
        },
    )
}

/// Verdict on deleting the token `target`, as read by its secret.
pub open spec fn delete_token_verdict(caller: ResolvedCaller, target: Option<ApiToken>, now: i64) -> Verdict {
    then(
        match caller {
            ResolvedCaller::Internal => Verdict::Allow,
            ResolvedCaller::Token(t) => {
                let r = t->0.rights.token;
                if !valid_token(t, now) {
                    Verdict::Refuse(ErrorKind::Unauthorized, msg_bad_api_token())
                } else if !r.token_delete && r.service_token_delete {
                    Verdict::Refuse(ErrorKind::Forbidden, msg_forbidden())
                } else if target is None {
                    Verdict::Refuse(ErrorKind::Other, "Целевой токен не существует"@)
                } else if rights_lt(t->0.rights@, target->0.rights@) {
                    Verdict::Refuse(ErrorKind::Forbidden, msg_forbidden())
                } else if (target->0.is_service && !r.service_token_delete) || (
                !target->0.is_service && !r.token_delete) {
                    Verdict::Refuse(ErrorKind::Forbidden, msg_forbidden())
                } else {
                    Verdict::Allow
                }
            },
        },
        if target is None {
            Verdict::Refuse(ErrorKind::Other, "Целевой токен не существует"@)
        } else {
            Verdict::Allow
        },
    )
}

/// The journal subject for a token: the account that created it.
pub open spec fn creator_subject(creator: Option<AccountId>) -> Option<Actor> {
    match creator {
        Some(id) => Some(Actor::User(id)),
        None => None,
    }
}

impl Api {
    /// Creates a token with secret `secret` (unused by any token), `rights`
    /// and the given lifetime. On success, the token to store and the
    /// journal entry.
    pub fn create_api_token(
        &self,
        caller: &ResolvedCaller,
        rights: Rights,
        duration: Option<i64>,
        is_service: bool,
        secret: Secret,
        now: i64,
    ) -> (r: Result<(ApiToken, JournalRecord), ApiError>)
        requires
            duration matches Some(d) ==> fits(now, d),
        ensures
            follows(r, create_token_verdict(*caller, rights@, duration, is_service, now)),
            r matches Ok((tok, rec)) ==> {
                &&& tok.secret == secret
                &&& tok.rights == rights
                &&& tok.creator == caller_creator(*caller)
                &&& tok.created_at == now
                &&& tok.expiration == (match duration {
                    Some(d) => Some((now + d) as i64),
                    None => None::<i64>,
                })
                &&& tok.is_service == is_service
                &&& rec == (JournalRecord {
                    object: caller_actor(*caller),
                    subject: creator_subject(caller_creator(*caller)),
                    action: ActionType::ApiTokenCreated,
                })
            },
    {
        let mut actor = Actor::System;
        let mut creator: Option<AccountId> = None;
        if let ResolvedCaller::Token(found) = caller {
            validate_api_token(found, now)?;
            let token = found.as_ref().unwrap();
            if (is_service && !token.rights.token.service_token_create) || (!is_service
                && !token.rights.token.token_create) {
                return Err(error(ErrorKind::Forbidden, "Недостаточно доступа"));
            }
            if token.rights.lt(&rights) {
                return Err(error(ErrorKind::Forbidden, "Недостаточно доступа"));
            }
            creator = token.creator;
            actor = actor_of_token(token);
        }
        let new_token = ApiToken::new(secret, rights, creator, duration, is_service, None, now);
        if new_token.is_expired(now) {
            return Err(error(ErrorKind::Other, "Новый токен уже устаревший"));
        }
        let subject = match creator {
            Some(id) => Some(Actor::User(id)),
            None => None,
        };
        Ok(
            (
                new_token,
                JournalRecord { object: actor, subject, action: ActionType::ApiTokenCreated },
            ),
        )
    }

    /// Deletes the token `target`, as read by its secret. On success, the
    /// secret of the token to delete and the journal entry.
    pub fn delete_api_token(&self, caller: &ResolvedCaller, target: &Option<ApiToken>, now: i64) -> (r:
        Result<(Secret, JournalRecord), ApiError>)
        ensures
            follows(r, delete_token_verdict(*caller, *target, now)),
            r matches Ok((secret, rec)) ==> secret == target->0.secret && rec == (JournalRecord {
                object: caller_actor(*caller),
                subject: creator_subject(target->0.creator),
                action: ActionType::ApiTokenDeleted,
            }),
    {
        let mut actor = Actor::System;
        if let ResolvedCaller::Token(found) = caller {
            validate_api_token(found, now)?;
            let token = found.as_ref().unwrap();
            if !token.rights.token.token_delete && token.rights.token.service_token_delete {
                return Err(error(ErrorKind::Forbidden, "Недостаточно доступа"));
            }
            let target_token = match target {
                Some(t) => t,
                None => {
                    return Err(error(ErrorKind::Other, "Целевой токен не существует"));
                },
            };
            if token.rights.lt(&target_token.rights) {
                return Err(error(ErrorKind::Forbidden, "Недостаточно доступа"));
            }
            if (target_token.is_service && !token.rights.token.service_token_delete) || (
            !target_token.is_service && !token.rights.token.token_delete) {
                return Err(error(ErrorKind::Forbidden, "Недостаточно доступа"));
            }
            actor = actor_of_token(token);
        }
        let target_token = match target {
            Some(t) => t,
            None => {
                return Err(error(ErrorKind::Other, "Целевой токен не существует"));
            },
        };
        let subject = match target_token.creator {
            Some(id) => Some(Actor::User(id)),
            None => None,
        };
        Ok(
            (
                target_token.secret.clone(),
                JournalRecord { object: actor, subject, action: ActionType::ApiTokenDeleted },
            ),
        )
    }
}

} // verus!
