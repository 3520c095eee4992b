use app_api::api::account::DiscordUserInfo;
use app_api::api::{Api, ResolvedCaller};
use app_api::models::{
    Account, AccountId, AccountIntegrations, ActionType, Actor, ApiError, ApiToken, ByondUserId,
    DiscordUserId, JournalRecord, Role, RoleId, SS14UserId, Secret, ServiceError, Session,
    TFAToken, Webhook, WebhookConfiguration,
};
use app_api::rights::{Rights, ServiceId, ServiceScope};
use app_api::services::ServiceKind;

/// Nanoseconds in a second.
const S: i64 = 1_000_000_000;

fn token(rights: Rights, creator: Option<i64>, is_service: bool, expiration: Option<i64>) -> ApiToken {
    ApiToken {
        secret: Secret("tok".to_string()),
        expiration,
        rights,
        created_at: 0,
        creator: creator.map(AccountId),
        is_service,
    }
}

fn caller(t: ApiToken) -> ResolvedCaller {
    ResolvedCaller::Token(Some(t))
}

fn account(id: i64) -> Account {
    Account { id: AccountId(id), username: "user".to_string(), avatar_url: String::new(), created_at: 0 }
}

fn integrations(byond: Option<&str>, ss14: Option<&str>) -> AccountIntegrations {
    AccountIntegrations {
        account_id: AccountId(5),
        discord_user_id: DiscordUserId(9),
        byond_ckey: byond.map(|c| ByondUserId(c.to_string())),
        ss14_guid: ss14.map(|g| SS14UserId(g.to_string())),
    }
}

fn tfa() -> Option<TFAToken> {
    Some(TFAToken { secret: Secret("tfa".to_string()), discord_user_id: DiscordUserId(9), expiration: 100 })
}

fn role(id: i64, rights: Rights) -> Role {
    Role { id: RoleId(id), name: format!("role{id}"), color: 0, rights }
}

fn other(msg: &str) -> ApiError {
    ApiError::Other(msg.to_string())
}

fn forbidden() -> ApiError {
    ApiError::Forbidden("Недостаточно доступа".to_string())
}

fn unauthorized() -> ApiError {
    ApiError::Unauthorized("Некорректный API токен".to_string())
}

fn with_user_rights(f: impl Fn(&mut Rights)) -> Rights {
    let mut r = Rights::empty();
    f(&mut r);
    r
}

#[test]
fn account_creation_rights() {
    let api = api_under_test();
    let ok = api.create_account(&ResolvedCaller::Internal, "bob", &vec![true], 0).unwrap();
    assert_eq!(ok, ("bob".to_string(), Actor::System));
    let t = token(with_user_rights(|r| r.user.create_accounts = true), Some(4), false, None);
    assert_eq!(api.create_account(&caller(t), "bob", &vec![false, false, true], 0).unwrap(), ("bob2".to_string(), Actor::User(AccountId(4))));
    let t = token(Rights::empty(), None, false, None);
    assert_eq!(api.create_account(&caller(t), "bob", &vec![true], 0), Err(forbidden()));
    assert_eq!(api.create_account(&ResolvedCaller::Token(None), "bob", &vec![true], 0), Err(unauthorized()));
    let expired = token(Rights::full(), None, false, Some(10));
    assert_eq!(api.create_account(&caller(expired), "bob", &vec![true], 11), Err(unauthorized()));
}

#[test]
fn username_candidates() {
    assert_eq!(Api::username_candidate("alice", 0), "alice");
    assert_eq!(Api::username_candidate("alice", 1), "alice1");
    assert_eq!(Api::username_candidate("alice", 12), "alice12");
    let rec = Api::account_created_record(Actor::System, AccountId(3));
    assert_eq!(rec, JournalRecord { object: Actor::System, subject: Some(Actor::User(AccountId(3))), action: ActionType::AccountCreated });
}

#[test]
fn connect_byond_by_tfa() {
    let api = api_under_test();
    let ckey = ByondUserId("ckey".to_string());
    let r = api.connect_byond_account_by_2fa(&ResolvedCaller::Internal, &tfa(), &Some(account(5)), &Some(integrations(None, None)), &ckey, 0);
    assert_eq!(
        r,
        Ok((AccountId(5), JournalRecord { object: Actor::System, subject: Some(Actor::User(AccountId(5))), action: ActionType::ByondConnected { ckey: ckey.clone() } }))
    );
    let r = api.connect_byond_account_by_2fa(&ResolvedCaller::Internal, &None, &Some(account(5)), &None, &ckey, 0);
    assert_eq!(r, Err(other("Некорректный TFA токен")));
    let r = api.connect_byond_account_by_2fa(&ResolvedCaller::Internal, &tfa(), &None, &None, &ckey, 0);
    assert_eq!(r, Err(other("Неверный user_id")));
    let r = api.connect_byond_account_by_2fa(&ResolvedCaller::Internal, &tfa(), &Some(account(5)), &Some(integrations(Some("x"), None)), &ckey, 0);
    assert_eq!(r, Err(other("Аккаунт BYOND уже подключен")));
    let r = api.connect_byond_account_by_2fa(&ResolvedCaller::Internal, &tfa(), &Some(account(5)), &Some(integrations(None, None)), &ByondUserId("  ".to_string()), 0);
    assert_eq!(r, Err(other("Пустой ckey")));
    let t = token(Rights::empty(), None, false, None);
    let r = api.connect_byond_account_by_2fa(&caller(t), &tfa(), &Some(account(5)), &Some(integrations(None, None)), &ckey, 0);
    assert_eq!(r, Err(forbidden()));
}

#[test]
fn connect_ss14_by_tfa() {
    let api = api_under_test();
    let guid = SS14UserId("guid".to_string());
    let t = token(with_user_rights(|r| r.user.add_connected_accounts = true), Some(8), false, None);
    let r = api.connect_ss14_account_by_2fa(&caller(t), &tfa(), &Some(account(5)), &Some(integrations(Some("x"), None)), &guid, 0);
    assert_eq!(
        r,
        Ok((AccountId(5), JournalRecord { object: Actor::User(AccountId(8)), subject: Some(Actor::User(AccountId(5))), action: ActionType::SS14Connected { ss14_guid: guid.clone() } }))
    );
    let r = api.connect_ss14_account_by_2fa(&ResolvedCaller::Internal, &tfa(), &Some(account(5)), &Some(integrations(None, Some("g"))), &guid, 0);
    assert_eq!(r, Err(other("Аккаунт SS14 уже подключен")));
    assert_eq!(api.connect_ss14_account(&SS14UserId(String::new()), &None), Err(other("Пустой ss14_user_id")));
    assert_eq!(api.connect_ss14_account(&guid, &None), Err(other("Аккаунт не существует")));
}

#[test]
fn adding_and_removing_roles() {
    let api = api_under_test();
    let admin = role(1, Rights::full());
    let helper = role(2, with_user_rights(|r| r.user.add_roles = true));
    let r = api.add_role_to_account(&ResolvedCaller::Internal, AccountId(5), RoleId(2), &Some(role(2, Rights::empty())), &vec![], 0);
    assert_eq!(r, Ok(JournalRecord { object: Actor::System, subject: Some(Actor::User(AccountId(5))), action: ActionType::RoleAdded { role_id: RoleId(2) } }));
    let held = vec![role(2, Rights::empty())];
    assert_eq!(api.add_role_to_account(&ResolvedCaller::Internal, AccountId(5), RoleId(2), &None, &held, 0), Err(other("Пользователь уже имеет эту роль")));
    assert!(api.remove_role_from_account(&ResolvedCaller::Internal, AccountId(5), RoleId(2), &None, &held, 0).is_ok());
    assert_eq!(api.remove_role_from_account(&ResolvedCaller::Internal, AccountId(5), RoleId(3), &None, &held, 0), Err(other("Пользователь не имеет этой роли")));
    // a token with fewer rights than the role may not grant it
    let t = token(helper.rights.clone(), Some(1), false, None);
    assert_eq!(api.add_role_to_account(&caller(t.clone()), AccountId(5), RoleId(1), &Some(admin.clone()), &vec![], 0), Err(forbidden()));
    assert_eq!(api.add_role_to_account(&caller(t.clone()), AccountId(5), RoleId(9), &None, &vec![], 0), Err(other("Некорректный role_id")));
    // nor act on an account that outranks it
    assert_eq!(api.add_role_to_account(&caller(t.clone()), AccountId(5), RoleId(2), &Some(helper.clone()), &vec![admin.clone()], 0), Err(forbidden()));
    // equal rights suffice for an ordinary token, not for a service token
    assert!(api.add_role_to_account(&caller(t.clone()), AccountId(5), RoleId(2), &Some(helper.clone()), &vec![], 0).is_ok());
    let st = token(helper.rights.clone(), None, true, None);
    assert_eq!(api.add_role_to_account(&caller(st), AccountId(5), RoleId(2), &Some(helper.clone()), &vec![], 0), Err(forbidden()));
    // removing needs the matching right
    assert_eq!(api.remove_role_from_account(&caller(t), AccountId(5), RoleId(2), &Some(helper), &vec![], 0), Err(forbidden()));
}

#[test]
fn account_rights_are_the_union_of_roles() {
    let api = api_under_test();
    let r = api.get_account_rights(&vec![role(1, with_user_rights(|r| r.user.add_roles = true)), role(2, with_user_rights(|r| r.token.token_delete = true))]);
    assert!(r.user.add_roles && r.token.token_delete && !r.user.remove_roles);
}

#[test]
fn username_changes() {
    let api = api_under_test();
    assert_eq!(api.change_username("  new name ", true, &Some(account(3))), Ok((AccountId(3), "new name".to_string())));
    assert_eq!(api.change_username("   ", true, &Some(account(3))), Err(other("Имя пользователя не должно быть пустым")));
    assert_eq!(api.change_username(&"ы".repeat(26), true, &Some(account(3))), Err(other("Имя пользователя не должно быть длинее 25 символов!")));
    assert!(api.change_username(&"ы".repeat(25), true, &Some(account(3))).is_ok());
    assert_eq!(api.change_username("taken", false, &Some(account(3))), Err(other("Имя пользователя занято")));
    assert_eq!(api.change_username("free", true, &None), Err(other("Неверный user_id")));
}

#[test]
fn avatar_changes() {
    let api = api_under_test();
    assert_eq!(api.change_avatar_url(" ", &Some(account(3))), Ok((AccountId(3), "/public/images/avatar.png".to_string())));
    assert_eq!(api.change_avatar_url("https://x/a.png", &Some(account(3))), Ok((AccountId(3), "https://x/a.png".to_string())));
    assert_eq!(api.change_avatar_url(&"a".repeat(201), &Some(account(3))), Err(other("Ссылка не должна быть длинее 200 символов!")));
    assert_eq!(api.change_avatar_url("x", &None), Err(other("Неверный user_id")));
}

#[test]
fn account_lookups() {
    assert_eq!(Api::find_account_by_id(&Some(account(1))), Ok(account(1)));
    assert_eq!(Api::find_account_by_id(&None), Err(other("Неверный user_id")));
    assert_eq!(Api::find_account_by_tfa_token_secret(&None, &Some(account(1))), Err(other("Некорректный TFA токен")));
    assert_eq!(Api::find_integrations_by_account_id(&None), Err(other("Аккаунт не существует")));
    assert_eq!(Api::find_integrations_by_account_id(&Some(integrations(Some("c"), None))), Ok(integrations(Some("c"), None)));
    let s = Session { secret: Secret("s".into()), api_secret: Secret("a".into()), csrf_secret: Secret("c".into()), account_id: AccountId(1), created_at: 0, expiration: 10, user_agent: String::new(), ip: String::new() };
    assert_eq!(Api::find_account_by_session(&None, &Some(account(1))), Err(other("Некорректная сессия")));
    assert_eq!(Api::find_account_by_session(&Some(s.clone()), &None), Err(other("Неверный user_id")));
    assert_eq!(Api::find_account_by_session(&Some(s), &Some(account(1))), Ok(account(1)));
}

#[test]
fn api_token_creation() {
    let api = api_under_test();
    let mut creator_rights = Rights::empty();
    creator_rights.token.token_create = true;
    creator_rights.user.add_roles = true;
    let t = token(creator_rights.clone(), Some(2), false, None);
    let (created, rec) = api.create_api_token(&caller(t.clone()), with_user_rights(|r| r.user.add_roles = true), Some(60), false, Secret("new".into()), 100).unwrap();
    assert_eq!(created.secret, Secret("new".into()));
    assert_eq!(created.expiration, Some(160));
    assert_eq!(created.created_at, 100);
    assert_eq!(created.creator, Some(AccountId(2)));
    assert_eq!(rec, JournalRecord { object: Actor::User(AccountId(2)), subject: Some(Actor::User(AccountId(2))), action: ActionType::ApiTokenCreated });
    // more rights than the creator holds
    assert_eq!(api.create_api_token(&caller(t.clone()), Rights::full(), None, false, Secret("n".into()), 0), Err(forbidden()));
    // a service token needs its own right
    assert_eq!(api.create_api_token(&caller(t), Rights::empty(), None, true, Secret("n".into()), 0), Err(forbidden()));
    // already expired
    assert_eq!(api.create_api_token(&ResolvedCaller::Internal, Rights::empty(), Some(-1), false, Secret("n".into()), 0), Err(other("Новый токен уже устаревший")));
    let (internal, rec) = api.create_api_token(&ResolvedCaller::Internal, Rights::full(), None, true, Secret("n".into()), 0).unwrap();
    assert_eq!(internal.expiration, None);
    assert_eq!(rec.subject, None);
}

#[test]
fn api_token_deletion() {
    let api = api_under_test();
    let target = token(Rights::empty(), Some(7), false, None);
    let (secret, rec) = api.delete_api_token(&ResolvedCaller::Internal, &Some(target.clone()), 0).unwrap();
    assert_eq!(secret, Secret("tok".into()));
    assert_eq!(rec, JournalRecord { object: Actor::System, subject: Some(Actor::User(AccountId(7))), action: ActionType::ApiTokenDeleted });
    assert_eq!(api.delete_api_token(&ResolvedCaller::Internal, &None, 0), Err(other("Целевой токен не существует")));
    let mut only_service = Rights::empty();
    only_service.token.service_token_delete = true;
    assert_eq!(api.delete_api_token(&caller(token(only_service, None, false, None)), &Some(target.clone()), 0), Err(forbidden()));
    // no deletion right at all: the target is looked at, then refused
    assert_eq!(api.delete_api_token(&caller(token(Rights::empty(), None, false, None)), &None, 0), Err(other("Целевой токен не существует")));
    assert_eq!(api.delete_api_token(&caller(token(Rights::empty(), None, false, None)), &Some(target.clone()), 0), Err(forbidden()));
    let mut deleter = Rights::empty();
    deleter.token.token_delete = true;
    assert!(api.delete_api_token(&caller(token(deleter, None, false, None)), &Some(target), 0).is_ok());
}

fn webhook(service: &str) -> Webhook {
    Webhook {
        name: "hook".to_string(),
        secret: Secret("wh".to_string()),
        service_id: ServiceId(service.to_string()),
        created_at: 0,
        configuration: WebhookConfiguration("{}".to_string()),
    }
}

#[test]
fn webhook_creation() {
    let api = api_under_test();
    let ok = api.create_webhook(&ResolvedCaller::Internal, ServiceId("echo".into()), "hook".into(), WebhookConfiguration("{}".into()), &Ok(()), Secret("wh".into()), 50);
    assert_eq!(ok, Ok((Webhook { created_at: 50, ..webhook("echo") }, JournalRecord { object: Actor::System, subject: Some(Actor::Webhook("hook".into())), action: ActionType::WebhookCreated })));
    let bad = api.create_webhook(&ResolvedCaller::Internal, ServiceId("nope".into()), "hook".into(), WebhookConfiguration("{}".into()), &Ok(()), Secret("wh".into()), 0);
    assert_eq!(bad, Err(other("Некорректный сервис")));
    let unnamed = api.create_webhook(&ResolvedCaller::Internal, ServiceId("echo".into()), " ".into(), WebhookConfiguration("{}".into()), &Ok(()), Secret("wh".into()), 0);
    assert_eq!(unnamed, Err(other("Пустое название вебхука")));
    let misconfigured = api.create_webhook(&ResolvedCaller::Internal, ServiceId("echo".into()), "hook".into(), WebhookConfiguration("{}".into()), &Err(ServiceError::Any("missing field `message`".into())), Secret("wh".into()), 0);
    assert_eq!(misconfigured, Err(other("Некорректная конфигурация: missing field `message`")));
    let t = token(Rights::empty(), None, false, None);
    let refused = api.create_webhook(&caller(t), ServiceId("echo".into()), "hook".into(), WebhookConfiguration("{}".into()), &Ok(()), Secret("wh".into()), 0);
    assert_eq!(refused, Err(forbidden()));
}

#[test]
fn webhook_deletion_and_dispatch() {
    let api = api_under_test();
    let (secret, rec) = api.delete_webhook(&ResolvedCaller::Internal, &Some(webhook("echo")), 0).unwrap();
    assert_eq!(secret, Secret("wh".into()));
    assert_eq!(rec.subject, Some(Actor::Webhook("hook".into())));
    assert_eq!(api.delete_webhook(&ResolvedCaller::Internal, &None, 0), Err(other("Некорректный вебхук")));
    let mut r = Rights::empty();
    r.service.delete_webhooks = ServiceScope { all: false, services: vec![ServiceId("round_end".into())] };
    let t = token(r, None, false, None);
    assert_eq!(api.delete_webhook(&caller(t.clone()), &Some(webhook("echo")), 0), Err(forbidden()));
    assert!(api.delete_webhook(&caller(t.clone()), &Some(webhook("round_end")), 0).is_ok());
    assert_eq!(api.delete_webhook(&caller(t), &None, 0), Err(other("Некорректный вебхук")));
    assert_eq!(api.delete_webhook(&caller(token(Rights::empty(), None, false, None)), &None, 0), Err(forbidden()));
    assert_eq!(api.handle_webhook(&Some(webhook("echo"))), Ok(ServiceKind::Echo));
    assert_eq!(api.handle_webhook(&None), Err(ServiceError::Any("Некорректный вебхук".into())));
}

#[test]
fn sessions_open_extend_and_end() {
    let api = api_under_test();
    let roles = vec![role(1, with_user_rights(|r| r.user.add_roles = true))];
    let (tok, s) = api.create_session_for_account(&Some(account(4)), None, &roles, Secret("api".into()), Secret("ses".into()), Secret("csrf".into()), "ua".into(), "1.2.3.4".into(), 1000).unwrap();
    assert_eq!(tok.secret, Secret("api".into()));
    assert_eq!(tok.expiration, Some(1000 + 259_200 * S));
    assert!(tok.rights.user.add_roles && !tok.is_service);
    assert_eq!(s.api_secret, tok.secret);
    assert_eq!(s.account_id, AccountId(4));
    assert_eq!((s.created_at, s.expiration), (1000, 1000 + 259_200 * S));
    assert_eq!(api.delete_session(&Some(s.clone())), Ok((Secret("ses".into()), Secret("api".into()))));
    assert_eq!(api.delete_session(&None), Err(other("Некорректная сессия")));
    let renewal = api.extend_session(&Some(s)).unwrap();
    assert_eq!(renewal.created_at, 1000);
    let (_, renewed) = api.create_session_for_account(&Some(account(4)), Some(renewal.created_at), &roles, Secret("api2".into()), Secret("ses2".into()), Secret("csrf2".into()), "ua".into(), "ip".into(), 5000).unwrap();
    assert_eq!((renewed.created_at, renewed.expiration), (1000, 5000 + 259_200 * S));
    assert_eq!(api.create_session_for_account(&None, None, &roles, Secret("a".into()), Secret("b".into()), Secret("c".into()), "ua".into(), "ip".into(), 0), Err(ApiError::Internal("Некорректный user_id".into())));
    assert_eq!(api.create_session_by_tfa(&None, &Some(account(4)), &roles, Secret("a".into()), Secret("b".into()), Secret("c".into()), "ua".into(), "ip".into(), 0), Err(other("Некорректный TFA токен")));
    assert!(api.create_session_by_tfa(&tfa(), &Some(account(4)), &roles, Secret("a".into()), Secret("b".into()), Secret("c".into()), "ua".into(), "ip".into(), 0).is_ok());
}

#[test]
fn tfa_token_is_reused_until_it_expires() {
    let mut api = api_under_test();
    let first = api.get_or_create_tfa_token(DiscordUserId(9), Secret("one".into()), 0).unwrap();
    assert_eq!(first.expiration, 60 * S);
    let again = api.get_or_create_tfa_token(DiscordUserId(9), Secret("two".into()), 30 * S).unwrap();
    assert_eq!(again, first);
    assert_eq!(api.find_tfa_token_by_secret(&Secret("one".into()), 30 * S), Some(first.clone()));
    // another user may not get a secret in use
    assert_eq!(api.get_or_create_tfa_token(DiscordUserId(10), Secret("one".into()), 30 * S), None);
    let fresh = api.get_or_create_tfa_token(DiscordUserId(9), Secret("three".into()), 61 * S).unwrap();
    assert_eq!(fresh.secret, Secret("three".into()));
    assert_eq!(api.find_tfa_token_by_secret(&Secret("one".into()), 61 * S), None);
}

#[test]
fn error_messages() {
    assert_eq!(forbidden().message(), "Недостаточно доступа");
    assert_eq!(ApiError::Internal("x".into()).message(), "x");
}

#[test]
fn root_token_is_an_everlasting_service_token_with_full_rights() {
    let t = Api::root_token(Secret("root".to_string()), 42);
    assert_eq!(t.secret, Secret("root".to_string()));
    assert_eq!(t.rights, Rights::full());
    assert_eq!(t.creator, None);
    assert_eq!(t.expiration, None);
    assert!(t.is_service);
    assert_eq!(t.created_at, 42);
}

#[test]
fn new_account_takes_the_first_free_candidate() {
    let api = api_under_test();
    let free = vec![false, false, false, true, true];
    let (name, actor) = api.create_account(&ResolvedCaller::Internal, "bob", &free, 0).unwrap();
    assert_eq!(name, "bob3");
    assert_eq!(actor, Actor::System);
    assert_eq!(api.create_account(&ResolvedCaller::Internal, "bob", &vec![true, true], 0).unwrap().0, "bob");
}

fn api_under_test() -> Api {
    Api::new(Secret("root".to_string()), true, 0).0
}

#[test]
fn new_api_hands_out_the_root_token_only_when_missing() {
    let (api, root) = Api::new(Secret("root".to_string()), false, 7);
    let root = root.unwrap();
    assert_eq!(root, Api::root_token(Secret("root".to_string()), 7));
    assert!(api.services_storage.is_service_exists(&ServiceId("echo".to_string())));
    assert!(api.services_storage.is_service_exists(&ServiceId("chat_to_discord".to_string())));
    assert!(api.services_storage.is_service_exists(&ServiceId("round_end".to_string())));
    assert!(!api.services_storage.is_service_exists(&ServiceId("other".to_string())));
    let (_, none) = Api::new(Secret("root".to_string()), true, 7);
    assert_eq!(none, None);
}

#[test]
fn account_for_a_two_factor_token() {
    let with_avatar = Some(DiscordUserInfo {
        name: "ann".to_string(),
        avatar_url: Some("https://a/own.png".to_string()),
        default_avatar_url: "https://a/0.png".to_string(),
    });
    let without_avatar = Some(DiscordUserInfo {
        name: "ben".to_string(),
        avatar_url: None,
        default_avatar_url: "https://a/3.png".to_string(),
    });
    assert_eq!(Api::tfa_account_request(true, &None), Ok(None));
    assert_eq!(Api::tfa_account_request(true, &with_avatar), Ok(None));
    assert_eq!(
        Api::tfa_account_request(false, &with_avatar),
        Ok(Some(("ann".to_string(), "https://a/own.png".to_string())))
    );
    assert_eq!(
        Api::tfa_account_request(false, &without_avatar),
        Ok(Some(("ben".to_string(), "https://a/3.png".to_string())))
    );
    assert_eq!(Api::tfa_account_request(false, &None), Err(other("Пользователя не существует")));
}

#[test]
fn webhook_checks_before_configuration() {
    let api = api_under_test();
    let echo = ServiceId("echo".to_string());
    assert_eq!(api.check_create_webhook(&ResolvedCaller::Internal, &echo, &"hook".to_string(), 0), Ok(Actor::System));
    assert_eq!(
        api.check_create_webhook(&ResolvedCaller::Internal, &ServiceId("nope".to_string()), &"hook".to_string(), 0),
        Err(other("Некорректный сервис"))
    );
    assert_eq!(
        api.check_create_webhook(&ResolvedCaller::Internal, &echo, &"  ".to_string(), 0),
        Err(other("Пустое название вебхука"))
    );
    let t = token(Rights::empty(), None, false, None);
    assert_eq!(api.check_create_webhook(&caller(t), &echo, &"hook".to_string(), 0), Err(forbidden()));
}

#[test]
fn connecting_accounts_needs_the_right() {
    let t = token(Rights::empty(), Some(3), false, None);
    assert_eq!(Api::check_connect_caller(&caller(t), 0), Err(forbidden()));
    let t = token(with_user_rights(|r| r.user.add_connected_accounts = true), Some(3), false, None);
    assert_eq!(Api::check_connect_caller(&caller(t), 0), Ok(Actor::User(AccountId(3))));
    assert_eq!(Api::check_connect_caller(&ResolvedCaller::Internal, 0), Ok(Actor::System));
}

#[test]
fn tfa_token_expires_to_the_nanosecond() {
    let mut api = api_under_test();
    let t = api.get_or_create_tfa_token(DiscordUserId(9), Secret("one".into()), 500).unwrap();
    assert_eq!(t.expiration, 60 * S + 500);
    assert_eq!(api.find_tfa_token_by_secret(&Secret("one".into()), 60 * S + 500), Some(t.clone()));
    assert_eq!(api.find_tfa_token_by_secret(&Secret("one".into()), 60 * S + 501), None);
}
