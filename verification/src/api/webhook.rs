//! Decisions on webhooks.
use crate::api::{
    actor_of_token, caller_actor, error, follows, msg_bad_api_token, msg_forbidden,
    validate_api_token, valid_token, Api, ErrorKind, ResolvedCaller, Verdict,
};
use crate::api::account::then;
use crate::models::{
    ActionType, Actor, ApiError, JournalRecord, Secret, ServiceError, Webhook,
    WebhookConfiguration,
};
use crate::rights::{scope_grants, scope_nonempty, ServiceId};
use crate::services::ServiceKind;
use crate::text::{is_blank, is_blank_seq};
use vstd::prelude::*;

verus! {

/// Verdict on creating a webhook named `name` for service `target`;
/// `registered` tells whether the service exists and `check` is what the
/// service said of the configuration.
pub open spec fn create_webhook_verdict(
    caller: ResolvedCaller,
    target: ServiceId,
    registered: bool,
    name: Seq<char>,
    check: Result<(), ServiceError>,
    now: i64,
) -> Verdict {
    then(
        match caller {
            ResolvedCaller::Internal => Verdict::Allow,
            ResolvedCaller::Token(t) => if !valid_token(t, now) {
                Verdict::Refuse(ErrorKind::Unauthorized, msg_bad_api_token())
            } else if !scope_grants(t->0.rights.service.create_webhooks@, target.0@) {
                Verdict::Refuse(ErrorKind::Forbidden, msg_forbidden())
            } else {
                Verdict::Allow
            },
        },
        if !registered {
            Verdict::Refuse(ErrorKind::Other, "Некорректный сервис"@)
        } else if is_blank_seq(name) {
            Verdict::Refuse(ErrorKind::Other, "Пустое название вебхука"@)
        } else {
            match check {
                Err(ServiceError::Any(m)) => Verdict::Refuse(
                    ErrorKind::Other,
                    "Некорректная конфигурация: "@ + m@,
                ),
                Ok(_) => Verdict::Allow,
            }
        },
    )
}

/// Verdict on deleting `webhook`, as read by its secret.
pub open spec fn delete_webhook_verdict(caller: ResolvedCaller, webhook: Option<Webhook>, now: i64) -> Verdict {
    then(
        match caller {
            ResolvedCaller::Internal => Verdict::Allow,
            ResolvedCaller::Token(t) => if !valid_token(t, now) {
                Verdict::Refuse(ErrorKind::Unauthorized, msg_bad_api_token())
            } else if !scope_nonempty(t->0.rights.service.delete_webhooks@) {
                Verdict::Refuse(ErrorKind::Forbidden, msg_forbidden())
            } else if webhook is None {
                Verdict::Refuse(ErrorKind::Other, "Некорректный вебхук"@)
            } else if !scope_grants(
                t->0.rights.service.delete_webhooks@,
                webhook->0.service_id.0@,
            ) {
                Verdict::Refuse(ErrorKind::Forbidden, msg_forbidden())
            } else {
                Verdict::Allow
            },
        },
        if webhook is None {
            Verdict::Refuse(ErrorKind::Other, "Некорректный вебхук"@)
        } else {
            Verdict::Allow
        },
    )
}

impl Api {
    /// The checks made before a webhook's configuration is looked at:
    /// the caller's rights, the service and the name. On success, who to
    /// journal as acting.
    pub fn check_create_webhook(
        &self,
        caller: &ResolvedCaller,
        target: &ServiceId,
        name: &String,
        now: i64,
    ) -> (r: Result<Actor, ApiError>)
        ensures
            follows(
                r,
                create_webhook_verdict(
                    *caller,
                    *target,
                    self.services_storage.lookup(target.0@) is Some,
                    name@,
                    Ok(()),
                    now,
                ),
            ),
            r matches Ok(a) ==> a == caller_actor(*caller),
    {
        let mut actor = Actor::System;
        if let ResolvedCaller::Token(found) = caller {
            validate_api_token(found, now)?;
            let token = found.as_ref().unwrap();
            if !token.rights.service.can_create_webhooks_for_service(target) {
                return Err(error(ErrorKind::Forbidden, "Недостаточно доступа"));
            }
            actor = actor_of_token(token);
        }
        if !self.services_storage.is_service_exists(target) {
            return Err(error(ErrorKind::Other, "Некорректный сервис"));
        }
        if is_blank(name.as_str()) {
            return Err(error(ErrorKind::Other, "Пустое название вебхука"));
        }
        Ok(actor)
    }

    /// Creates a webhook named `name` for service `target` with secret
    /// `secret` (unused by any webhook). `check` is what the service said of
    /// `configuration`; it is only looked at for a registered service. On
    /// success, the webhook to store and the journal entry.
    pub fn create_webhook(
        &self,
        caller: &ResolvedCaller,
        target: ServiceId,
        name: String,
        configuration: WebhookConfiguration,
        check: &Result<(), ServiceError>,
        secret: Secret,
        now: i64,
    ) -> (r: Result<(Webhook, JournalRecord), ApiError>)
        ensures
            follows(
                r,
                create_webhook_verdict(
                    *caller,
                    target,
                    self.services_storage.lookup(target.0@) is Some,
                    name@,
                    *check,
                    now,
                ),
            ),
            r matches Ok((w, rec)) ==> w == (Webhook {
                name,
                secret,
                service_id: target,
                created_at: now,
                configuration,
            }) && rec == (JournalRecord {
                object: caller_actor(*caller),
                subject: Some(Actor::Webhook(name)),
                action: ActionType::WebhookCreated,
            }),
    {
        let actor = self.check_create_webhook(caller, &target, &name, now)?;
        match check {
            Ok(_) => {},
            Err(ServiceError::Any(m)) => {
                let mut msg = String::from_str("Некорректная конфигурация: ");
                msg.append(m.as_str());
                return Err(ApiError::Other(msg));
            },
        }
        let journal_name = name.clone();
        let webhook = Webhook::new(name, secret, target, None, configuration, now);
        Ok(
            (
                webhook,
                JournalRecord {
                    object: actor,
                    subject: Some(Actor::Webhook(journal_name)),
                    action: ActionType::WebhookCreated,
                },
            ),
        )
    }

    /// Deletes `webhook`, as read by its secret. On success, the secret of
    /// the webhook to delete and the journal entry.
    pub fn delete_webhook(&self, caller: &ResolvedCaller, webhook: &Option<Webhook>, now: i64) -> (r:
        Result<(Secret, JournalRecord), ApiError>)
        ensures
            follows(r, delete_webhook_verdict(*caller, *webhook, now)),
            r matches Ok((secret, rec)) ==> secret == webhook->0.secret && rec == (JournalRecord {
                object: caller_actor(*caller),
                subject: Some(Actor::Webhook(webhook->0.name)),
                action: ActionType::WebhookDeleted,
            }),
    {
        let mut actor = Actor::System;
        if let ResolvedCaller::Token(found) = caller {
            validate_api_token(found, now)?;
            let token = found.as_ref().unwrap();
            if !token.rights.service.can_delete_webhooks_at_all() {
                return Err(error(ErrorKind::Forbidden, "Недостаточно доступа"));
            }
            let w = match webhook {
                Some(w) => w,
                None => {
                    return Err(error(ErrorKind::Other, "Некорректный вебхук"));
                },
            };
            if !token.rights.service.can_delete_webhooks_for_service(&w.service_id) {
                return Err(error(ErrorKind::Forbidden, "Недостаточно доступа"));
            }
            actor = actor_of_token(token);
        }
        let w = match webhook {
            Some(w) => w,
            None => {
                return Err(error(ErrorKind::Other, "Некорректный вебхук"));
            },
        };
        Ok(
            (
                w.secret.clone(),
                JournalRecord {
                    object: actor,
                    subject: Some(Actor::Webhook(w.name.clone())),
                    action: ActionType::WebhookDeleted,
                },
            ),
        )
    }

    /// The service that handles an event for `webhook`, as read by its
    /// secret; a stored webhook's service must be registered.
    pub fn handle_webhook(&self, webhook: &Option<Webhook>) -> (r: Result<ServiceKind, ServiceError>)
        requires
            webhook matches Some(w) ==> self.services_storage.lookup(w.service_id.0@) is Some,
        ensures
            webhook is None ==> (r matches Err(ServiceError::Any(m)) && m@ == "Некорректный вебхук"@),
            webhook matches Some(w) ==> (r matches Ok(k) && self.services_storage.lookup(
                w.service_id.0@,
            ) == Some(k)),
    {
        match webhook {
            None => Err(ServiceError::Any(String::from_str("Некорректный вебхук"))),
            Some(w) => Ok(self.services_storage.handle(&w.service_id)),
        }
    }
}

} // verus!
