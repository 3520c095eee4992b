//! Decisions on login sessions.
use crate::api::{error, follows, msg_bad_session, Api, ErrorKind, Verdict};
use crate::api::account::tfa_account_verdict;
use crate::models::{
    fits, role_rights, Account, AccountId, ApiError, ApiToken, Role, Secret, Session, TFAToken,
    SESSION_DURATION,
};
use crate::rights::sum_rights;
use vstd::prelude::*;

verus! {

/// What renewing a session replaces: the old session and its token are
/// deleted, and a new session is opened for the same account with the same
/// creation instant.
#[derive(Debug, PartialEq, Eq)]
pub struct SessionRenewal {
    pub old_secret: Secret,
    pub old_api_secret: Secret,
    pub account_id: AccountId,
    pub created_at: i64,
}

/// What opening a session for `account` holding `account_roles` yields:
/// a token with the account's rights and a session using it, both created
/// at `created` (or `now`) and valid for three days from `now`.
pub open spec fn opened_session(
    r: (ApiToken, Session),
    account: Account,
    account_roles: Seq<Role>,
    created: Option<i64>,
    api_secret: Secret,
    session_secret: Secret,
    csrf_secret: Secret,
    user_agent: String,
    ip: String,
    now: i64,
) -> bool {
    let (tok, s) = r;
    let created_at = match created {
        Some(c) => c,
        None => now,
    };
    &&& tok.secret == api_secret
    &&& tok.rights@ == sum_rights(role_rights(account_roles))
    &&& tok.creator is None
    &&& tok.is_service == false
    &&& tok.created_at == created_at
    &&& tok.expiration == Some((now + SESSION_DURATION) as i64)
    &&& s == (Session {
        secret: session_secret,
        api_secret,
        csrf_secret,
        account_id: account.id,
        created_at,
        expiration: (now + SESSION_DURATION) as i64,
        user_agent,
        ip,
    })
}

impl Api {
    /// Ends `session`, as read by its secret. On success, the secrets of
    /// the session and of its token, both to delete.
    pub fn delete_session(&self, session: &Option<Session>) -> (r: Result<(Secret, Secret), ApiError>)
        ensures
            session is None ==> follows(r, Verdict::Refuse(ErrorKind::Other, msg_bad_session())),
            session matches Some(s) ==> r == Ok::<(Secret, Secret), ApiError>((s.secret, s.api_secret)),
    {
        match session {
            None => Err(error(ErrorKind::Other, "Некорректная сессия")),
            Some(s) => Ok((s.secret.clone(), s.api_secret.clone())),
        }
    }

    /// Renews `session`, as read by its secret.
    pub fn extend_session(&self, session: &Option<Session>) -> (r: Result<SessionRenewal, ApiError>)
        ensures
            session is None ==> follows(r, Verdict::Refuse(ErrorKind::Other, msg_bad_session())),
            session matches Some(s) ==> r == Ok::<SessionRenewal, ApiError>(
                SessionRenewal {
                    old_secret: s.secret,
                    old_api_secret: s.api_secret,
                    account_id: s.account_id,
                    created_at: s.created_at,
                },
            ),
    {
        let (old_secret, old_api_secret) = self.delete_session(session)?;
        let s = session.as_ref().unwrap();
        Ok(SessionRenewal { old_secret, old_api_secret, account_id: s.account_id, created_at: s.created_at })
    }

    /// Opens a session for `account` (as read by its identifier), which
    /// holds `account_roles`, with three fresh secrets. On success, the
    /// token and the session to store.
    pub fn create_session_for_account(
        &self,
        account: &Option<Account>,
        custom_creation_date: Option<i64>,
        account_roles: &Vec<Role>,
        api_secret: Secret,
        session_secret: Secret,
        csrf_secret: Secret,
        user_agent: String,
        ip: String,
        now: i64,
    ) -> (r: Result<(ApiToken, Session), ApiError>)
        requires
            fits(now, SESSION_DURATION),
        ensures
            account is None ==> follows(
                r,
                Verdict::Refuse(ErrorKind::Internal, "Некорректный user_id"@),
            ),
            account matches Some(a) ==> (r matches Ok(p) && opened_session(
                p,
                *a,
                account_roles@,
                custom_creation_date,
                api_secret,
                session_secret,
                csrf_secret,
                user_agent,
                ip,
                now,
            )),
    {
        let account = match account {
            Some(a) => a,
            None => {
                return Err(error(ErrorKind::Internal, "Некорректный user_id"));
            },
        };
        let rights = self.get_account_rights(account_roles);
        let api_token = ApiToken::new(
            api_secret,
            rights,
            None,
            Some(SESSION_DURATION),
            false,
            custom_creation_date,
            now,
        );
        let session = Session::new(
            session_secret,
            api_token.secret.clone(),
            csrf_secret,
            account.id,
            custom_creation_date,
            SESSION_DURATION,
            user_agent,
            ip,
            now,
        );
        Ok((api_token, session))
    }

    /// Opens a session in exchange for a two-factor token: `tfa_token` is
    /// the live token found by its secret, `account` the account of its
    /// Discord user, which holds `account_roles`.
    pub fn create_session_by_tfa(
        &self,
        tfa_token: &Option<TFAToken>,
        account: &Option<Account>,
        account_roles: &Vec<Role>,
        api_secret: Secret,
        session_secret: Secret,
        csrf_secret: Secret,
        user_agent: String,
        ip: String,
        now: i64,
    ) -> (r: Result<(ApiToken, Session), ApiError>)
        requires
            fits(now, SESSION_DURATION),
        ensures
            follows(r, tfa_account_verdict(*tfa_token, *account)),
            r matches Ok(p) ==> opened_session(
                p,
                account->0,
                account_roles@,
                None,
                api_secret,
                session_secret,
                csrf_secret,
                user_agent,
                ip,
                now,
            ),
    {
        let found = Self::find_account_by_tfa_token_secret(tfa_token, account)?;
        self.create_session_for_account(
            account,
            None,
            account_roles,
            api_secret,
            session_secret,
            csrf_secret,
            user_agent,
            ip,
            now,
        )
    }
}

} // verus!
