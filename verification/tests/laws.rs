use app_api::api::{Api, ResolvedCaller};
use app_api::models::{
    AccountId, ApiError, ApiToken, ByondUserId, Role, RoleId, Secret, ServiceError, Webhook,
    WebhookConfiguration,
};
use app_api::rights::{Rights, ServiceId};

fn token(rights: Rights, is_service: bool, expiration: Option<i64>) -> ApiToken {
    ApiToken { secret: Secret("t".into()), expiration, rights, created_at: 0, creator: None, is_service }
}

fn unauthorized<T: std::fmt::Debug + PartialEq>(r: Result<T, ApiError>) {
    assert_eq!(r.unwrap_err(), ApiError::Unauthorized("Некорректный API токен".into()));
}

#[test]
fn expired_token_is_refused_everywhere() {
    let api = api_under_test();
    let c = ResolvedCaller::Token(Some(token(Rights::full(), false, Some(100))));
    let now = 101;
    unauthorized(api.create_account(&c, "n", &vec![true], now));
    unauthorized(api.add_role_to_account(&c, AccountId(1), RoleId(1), &None, &vec![], now));
    unauthorized(api.remove_role_from_account(&c, AccountId(1), RoleId(1), &None, &vec![], now));
    unauthorized(api.create_api_token(&c, Rights::empty(), None, false, Secret("s".into()), now));
    unauthorized(api.delete_api_token(&c, &None, now));
    unauthorized(api.create_webhook(&c, ServiceId("echo".into()), "w".into(), WebhookConfiguration("{}".into()), &Ok(()), Secret("s".into()), now));
    unauthorized(api.delete_webhook(&c, &None, now));
    unauthorized(api.connect_byond_account_by_2fa(&c, &None, &None, &None, &ByondUserId("c".into()), now));
    // at its expiration instant the token still works
    assert!(api.create_account(&c, "n", &vec![true], 100).is_ok());
}

#[test]
fn internal_caller_is_never_forbidden() {
    let api = api_under_test();
    let c = ResolvedCaller::Internal;
    assert!(api.create_account(&c, "n", &vec![true], 0).is_ok());
    assert!(api.create_api_token(&c, Rights::full(), None, true, Secret("s".into()), 0).is_ok());
    assert!(api.add_role_to_account(&c, AccountId(1), RoleId(1), &None, &vec![], 0).is_ok());
    let w = Webhook { name: "w".into(), secret: Secret("s".into()), service_id: ServiceId("nope".into()), created_at: 0, configuration: WebhookConfiguration("{}".into()) };
    assert!(api.delete_webhook(&c, &Some(w), 0).is_ok());
}

#[test]
fn internal_role_round_trip() {
    let api = api_under_test();
    let c = ResolvedCaller::Internal;
    let r = Role { id: RoleId(4), name: "r".into(), color: 1, rights: Rights::empty() };
    assert!(api.add_role_to_account(&c, AccountId(1), RoleId(4), &None, &vec![], 0).is_ok());
    let held = vec![r];
    assert!(api.remove_role_from_account(&c, AccountId(1), RoleId(4), &None, &held, 0).is_ok());
    assert!(api.add_role_to_account(&c, AccountId(1), RoleId(4), &None, &held, 0).is_err());
}

#[test]
fn full_rights_tokens() {
    let api = api_under_test();
    let admin = Role { id: RoleId(1), name: "admin".into(), color: 0, rights: Rights::full() };
    let ordinary = ResolvedCaller::Token(Some(token(Rights::full(), false, None)));
    assert!(api.add_role_to_account(&ordinary, AccountId(1), RoleId(1), &Some(admin.clone()), &vec![admin.clone()], 0).is_err());
    assert!(api.add_role_to_account(&ordinary, AccountId(1), RoleId(1), &Some(admin.clone()), &vec![], 0).is_ok());
    let service = ResolvedCaller::Token(Some(token(Rights::full(), true, None)));
    assert_eq!(
        api.add_role_to_account(&service, AccountId(1), RoleId(1), &Some(admin), &vec![], 0),
        Err(ApiError::Forbidden("Недостаточно доступа".into()))
    );
    let lesser = Role { id: RoleId(2), name: "helper".into(), color: 0, rights: Rights::empty() };
    assert!(api.add_role_to_account(&service, AccountId(1), RoleId(2), &Some(lesser), &vec![], 0).is_ok());
}

#[test]
fn deletion_without_rights_reveals_nothing() {
    let api = api_under_test();
    let mut only_service = Rights::empty();
    only_service.token.service_token_delete = true;
    let c = ResolvedCaller::Token(Some(token(only_service, false, None)));
    let forbidden = Err(ApiError::Forbidden("Недостаточно доступа".into()));
    assert_eq!(api.delete_api_token(&c, &None, 0), forbidden);
    assert_eq!(api.delete_api_token(&c, &Some(token(Rights::empty(), false, None)), 0), forbidden);
    let none = ResolvedCaller::Token(Some(token(Rights::empty(), false, None)));
    let w = Webhook { name: "w".into(), secret: Secret("s".into()), service_id: ServiceId("echo".into()), created_at: 0, configuration: WebhookConfiguration("{}".into()) };
    assert_eq!(api.delete_webhook(&none, &None, 0), forbidden);
    assert_eq!(api.delete_webhook(&none, &Some(w), 0), forbidden);
    assert_eq!(api.handle_webhook(&None), Err(ServiceError::Any("Некорректный вебхук".into())));
}

fn api_under_test() -> Api {
    Api::new(Secret("root".to_string()), true, 0).0
}
