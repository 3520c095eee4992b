use app_api::models::{Role, RoleId};
use app_api::rights::{Rights, ServiceId, ServiceRights, ServiceScope, TokenRights, UserRights};

fn scope(all: bool, names: &[&str]) -> ServiceScope {
    ServiceScope { all, services: names.iter().map(|n| ServiceId(n.to_string())).collect() }
}

fn rights(add_roles: bool, token_create: bool, create: ServiceScope) -> Rights {
    Rights {
        user: UserRights {
            create_accounts: false,
            add_connected_accounts: false,
            add_roles,
            remove_roles: false,
        },
        token: TokenRights {
            token_create,
            service_token_create: false,
            token_delete: false,
            service_token_delete: false,
        },
        service: ServiceRights { create_webhooks: create, delete_webhooks: scope(false, &[]) },
    }
}

#[test]
fn empty_and_full_bound_everything() {
    let r = rights(true, false, scope(false, &["echo"]));
    assert!(Rights::empty().le(&r));
    assert!(r.le(&Rights::full()));
    assert!(Rights::empty().lt(&Rights::full()));
    assert!(!Rights::full().le(&r));
}

#[test]
fn rights_order_is_partial() {
    let a = rights(true, false, scope(false, &[]));
    let b = rights(false, true, scope(false, &[]));
    assert!(!a.le(&b));
    assert!(!b.le(&a));
    assert!(!a.lt(&b));
    assert!(!b.lt(&a));
    assert!(a.le(&a));
    assert!(!a.lt(&a));
}

#[test]
fn service_scopes_compare_by_services() {
    let small = rights(false, false, scope(false, &["echo"]));
    let big = rights(false, false, scope(false, &["round_end", "echo"]));
    let all = rights(false, false, scope(true, &[]));
    assert!(small.lt(&big));
    assert!(big.lt(&all));
    assert!(!all.le(&big));
    assert!(small.service.can_create_webhooks_for_service(&ServiceId("echo".to_string())));
    assert!(!small.service.can_create_webhooks_for_service(&ServiceId("round_end".to_string())));
    assert!(all.service.can_create_webhooks_for_service(&ServiceId("anything".to_string())));
}

#[test]
fn deleting_webhooks_at_all() {
    let mut r = Rights::empty();
    assert!(!r.service.can_delete_webhooks_at_all());
    r.service.delete_webhooks = scope(false, &["echo"]);
    assert!(r.service.can_delete_webhooks_at_all());
    assert!(Rights::full().service.can_delete_webhooks_at_all());
}

#[test]
fn union_is_an_upper_bound() {
    let a = rights(true, false, scope(false, &["echo"]));
    let b = rights(false, true, scope(false, &["round_end"]));
    let u = a.union(&b);
    assert!(a.le(&u) && b.le(&u));
    assert!(u.user.add_roles && u.token.token_create);
    assert!(u.service.can_create_webhooks_for_service(&ServiceId("round_end".to_string())));
}

#[test]
fn sum_of_roles_rights() {
    let roles = vec![
        Role { id: RoleId(1), name: "a".to_string(), color: 0xff0000, rights: rights(true, false, scope(false, &[])) },
        Role { id: RoleId(2), name: "b".to_string(), color: 0x00ff00, rights: rights(false, true, scope(false, &["echo"])) },
    ];
    let sum = Role::sum_roles_rights(&roles);
    assert!(sum.user.add_roles);
    assert!(sum.token.token_create);
    assert!(!sum.user.create_accounts);
    assert!(roles[0].rights.le(&sum) && roles[1].rights.le(&sum));
    assert!(Role::sum_roles_rights(&vec![]).le(&Rights::empty()));
}
