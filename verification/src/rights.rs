//! Access rights of API tokens and roles, and their order.
use vstd::prelude::*;

verus! {

/// Identifier of a webhook service, such as `echo`.
#[derive(Debug, PartialEq, Eq)]
pub struct ServiceId(pub String);

/// Rights over user accounts.
#[derive(Clone, Copy, Debug, PartialEq, Eq, Structural)]
pub struct UserRights {
    pub create_accounts: bool,
    pub add_connected_accounts: bool,
    pub add_roles: bool,
    pub remove_roles: bool,
}

/// Rights over API tokens.
#[derive(Clone, Copy, Debug, PartialEq, Eq, Structural)]
pub struct TokenRights {
    pub token_create: bool,
    pub service_token_create: bool,
    pub token_delete: bool,
    pub service_token_delete: bool,
}

/// The services for which one kind of webhook operation is allowed: all of
/// them, or the listed ones.
#[derive(Debug, PartialEq, Eq)]
pub struct ServiceScope {
    pub all: bool,
    pub services: Vec<ServiceId>,
}

/// Rights over the webhooks of each service.
#[derive(Debug, PartialEq, Eq)]
pub struct ServiceRights {
    pub create_webhooks: ServiceScope,
    pub delete_webhooks: ServiceScope,
}

/// The rights a token carries or a role grants.
#[derive(Debug, PartialEq, Eq)]
pub struct Rights {
    pub user: UserRights,
    pub token: TokenRights,
    pub service: ServiceRights,
}

/// Mathematical value of a service scope.
pub struct ScopeView {
    pub all: bool,
    pub services: Set<Seq<char>>,
}

/// Mathematical value of a set of rights.
pub struct RightsView {
    pub user: UserRights,
    pub token: TokenRights,
    pub create_webhooks: ScopeView,
    pub delete_webhooks: ScopeView,
}

/// The service names listed in `v`.
pub open spec fn ids_of(v: Seq<ServiceId>) -> Set<Seq<char>> {
    Set::new(|x: Seq<char>| exists|i: int| 0 <= i < v.len() && (#[trigger] v[i]).0@ == x)
}

impl View for ServiceScope {
    type V = ScopeView;

    open spec fn view(&self) -> ScopeView {
        ScopeView { all: self.all, services: ids_of(self.services@) }
    }
}

impl View for Rights {
    type V = RightsView;

    open spec fn view(&self) -> RightsView {
        RightsView {
            user: self.user,
            token: self.token,
            create_webhooks: self.service.create_webhooks@,
            delete_webhooks: self.service.delete_webhooks@,
        }
    }
}

/// Whether a scope allows the operation for the service named `sid`.
pub open spec fn scope_grants(s: ScopeView, sid: Seq<char>) -> bool {
    s.all || s.services.contains(sid)
}

/// Whether a scope allows the operation for at least one service.
pub open spec fn scope_nonempty(s: ScopeView) -> bool {
    s.all || exists|sid: Seq<char>| s.services.contains(sid)
}

pub open spec fn user_le(a: UserRights, b: UserRights) -> bool {
    &&& a.create_accounts ==> b.create_accounts
    &&& a.add_connected_accounts ==> b.add_connected_accounts
    &&& a.add_roles ==> b.add_roles
    &&& a.remove_roles ==> b.remove_roles
}

pub open spec fn token_le(a: TokenRights, b: TokenRights) -> bool {
    &&& a.token_create ==> b.token_create
    &&& a.service_token_create ==> b.service_token_create
    &&& a.token_delete ==> b.token_delete
    &&& a.service_token_delete ==> b.service_token_delete
}

/// `a` allows no more services than `b`: `b` covers every service, or `a`
/// does not and each service it lists is allowed by `b`.
pub open spec fn scope_le(a: ScopeView, b: ScopeView) -> bool {
    b.all || (!a.all && a.services.subset_of(b.services))
}

/// The partial order of rights: `a` grants nothing that `b` does not.
pub open spec fn rights_le(a: RightsView, b: RightsView) -> bool {
    &&& user_le(a.user, b.user)
    &&& token_le(a.token, b.token)
    &&& scope_le(a.create_webhooks, b.create_webhooks)
    &&& scope_le(a.delete_webhooks, b.delete_webhooks)
}

/// Strictly fewer rights: `a <= b` and not `b <= a`.
pub open spec fn rights_lt(a: RightsView, b: RightsView) -> bool {
    rights_le(a, b) && !rights_le(b, a)
}

pub open spec fn user_union(a: UserRights, b: UserRights) -> UserRights {
    UserRights {
        create_accounts: a.create_accounts || b.create_accounts,
        add_connected_accounts: a.add_connected_accounts || b.add_connected_accounts,
        add_roles: a.add_roles || b.add_roles,
        remove_roles: a.remove_roles || b.remove_roles,
    }
}

pub open spec fn token_union(a: TokenRights, b: TokenRights) -> TokenRights {
    TokenRights {
        token_create: a.token_create || b.token_create,
        service_token_create: a.service_token_create || b.service_token_create,
        token_delete: a.token_delete || b.token_delete,
        service_token_delete: a.service_token_delete || b.service_token_delete,
    }
}

pub open spec fn scope_union(a: ScopeView, b: ScopeView) -> ScopeView {
    ScopeView { all: a.all || b.all, services: a.services.union(b.services) }
}

/// Everything that `a` or `b` grants.
pub open spec fn rights_union(a: RightsView, b: RightsView) -> RightsView {
    RightsView {
        user: user_union(a.user, b.user),
        token: token_union(a.token, b.token),
        create_webhooks: scope_union(a.create_webhooks, b.create_webhooks),
        delete_webhooks: scope_union(a.delete_webhooks, b.delete_webhooks),
    }
}

/// The rights of nothing.
pub open spec fn no_rights() -> RightsView {
    RightsView {
        user: UserRights {
            create_accounts: false,
            add_connected_accounts: false,
            add_roles: false,
            remove_roles: false,
        },
        token: TokenRights {
            token_create: false,
            service_token_create: false,
            token_delete: false,
            service_token_delete: false,
        },
        create_webhooks: ScopeView { all: false, services: Set::empty() },
        delete_webhooks: ScopeView { all: false, services: Set::empty() },
    }
}

/// Every right, for every service.
pub open spec fn all_rights() -> RightsView {
    RightsView {
        user: UserRights {
            create_accounts: true,
            add_connected_accounts: true,
            add_roles: true,
            remove_roles: true,
        },
        token: TokenRights {
            token_create: true,
            service_token_create: true,
            token_delete: true,
            service_token_delete: true,
        },
        create_webhooks: ScopeView { all: true, services: Set::empty() },
        delete_webhooks: ScopeView { all: true, services: Set::empty() },
    }
}

/// The union of all rights in `s`, in order.
pub open spec fn sum_rights(s: Seq<RightsView>) -> RightsView
    decreases s.len(),
{
    if s.len() == 0 {
        no_rights()
    } else {
        rights_union(sum_rights(s.drop_last()), s.last())
    }
}

/// Whether `name` is among the names of `v`.
pub fn contains_service(v: &Vec<ServiceId>, name: &String) -> (r: bool)
    ensures
        r == ids_of(v@).contains(name@),
{
    let mut i: usize = 0;
    while i < v.len()
        invariant
            i <= v.len(),
            forall|k: int| 0 <= k < i ==> (#[trigger] v@[k]).0@ != name@,
        decreases v.len() - i,
    {
        if v[i].0.eq(name) {
            assert(ids_of(v@).contains(name@)) by {
                assert(v@[i as int].0@ == name@);
            }
            return true;
        }
        i = i + 1;
    }
    false
}

/// A copy of `v`, name for name.
pub fn clone_ids(v: &Vec<ServiceId>) -> (r: Vec<ServiceId>)
    ensures
        r@.len() == v@.len(),
        forall|k: int| 0 <= k < v@.len() ==> (#[trigger] r@[k]).0@ == v@[k].0@,
        ids_of(r@) == ids_of(v@),
{
    let mut r: Vec<ServiceId> = Vec::new();
    let mut i: usize = 0;
    while i < v.len()
        invariant
            i <= v.len(),
            r@.len() == i,
            forall|k: int| 0 <= k < i ==> (#[trigger] r@[k]).0@ == v@[k].0@,
        decreases v.len() - i,
    {
        r.push(ServiceId(v[i].0.clone()));
        i = i + 1;
    }
    assert forall|x: Seq<char>| ids_of(r@).contains(x) <==> ids_of(v@).contains(x) by {
        if ids_of(r@).contains(x) {
            let k = choose|k: int| 0 <= k < r@.len() && (#[trigger] r@[k]).0@ == x;
            assert(v@[k].0@ == x);
        }
        if ids_of(v@).contains(x) {
            let k = choose|k: int| 0 <= k < v@.len() && (#[trigger] v@[k]).0@ == x;
            assert(r@[k].0@ == x);
        }
    }
    assert(ids_of(r@) =~= ids_of(v@));
    r
}

proof fn lemma_ids_of_concat(a: Seq<ServiceId>, b: Seq<ServiceId>)
    ensures
        ids_of(a + b) == ids_of(a).union(ids_of(b)),
{
    assert forall|x: Seq<char>| ids_of(a + b).contains(x) implies ids_of(a).union(
        ids_of(b),
    ).contains(x) by {
        let i = choose|i: int| 0 <= i < (a + b).len() && (#[trigger] (a + b)[i]).0@ == x;
        if i < a.len() {
            assert(a[i].0@ == x);
        } else {
            assert(b[i - a.len()].0@ == x);
        }
    }
    assert forall|x: Seq<char>| ids_of(a).union(ids_of(b)).contains(x) implies ids_of(
        a + b,
    ).contains(x) by {
        if ids_of(a).contains(x) {
            let i = choose|i: int| 0 <= i < a.len() && (#[trigger] a[i]).0@ == x;
            assert((a + b)[i].0@ == x);
        } else {
            let i = choose|i: int| 0 <= i < b.len() && (#[trigger] b[i]).0@ == x;
            assert((a + b)[i + a.len()].0@ == x);
        }
    }
    assert(ids_of(a + b) =~= ids_of(a).union(ids_of(b)));
}

impl Clone for ServiceId {
    fn clone(&self) -> (r: Self)
        ensures
            r == *self,
    {
        ServiceId(self.0.clone())
    }
}

impl Clone for ServiceScope {
    fn clone(&self) -> (r: Self)
        ensures
            r@ == self@,
    {
        ServiceScope { all: self.all, services: clone_ids(&self.services) }
    }
}

impl Clone for ServiceRights {
    fn clone(&self) -> (r: Self)
        ensures
            r.create_webhooks@ == self.create_webhooks@,
            r.delete_webhooks@ == self.delete_webhooks@,
    {
        ServiceRights {
            create_webhooks: self.create_webhooks.clone(),
            delete_webhooks: self.delete_webhooks.clone(),
        }
    }
}

impl Clone for Rights {
    fn clone(&self) -> (r: Self)
        ensures
            r@ == self@,
    {
        Rights { user: self.user, token: self.token, service: self.service.clone() }
    }
}

impl ServiceScope {
    /// Whether the scope allows the operation for `service`.
    pub fn grants(&self, service: &ServiceId) -> (r: bool)
        ensures
            r == scope_grants(self@, service.0@),
    {
        self.all || contains_service(&self.services, &service.0)
    }

    /// Whether the scope allows the operation for some service.
    pub fn is_nonempty(&self) -> (r: bool)
        ensures
            r == scope_nonempty(self@),
    {
        if self.all {
            return true;
        }
        if self.services.len() > 0 {
            assert(self@.services.contains(self.services@[0].0@));
            true
        } else {
            assert forall|sid: Seq<char>| !self@.services.contains(sid) by {}
            false
        }
    }

    /// Whether this scope allows no more services than `other`.
    pub fn le(&self, other: &ServiceScope) -> (r: bool)
        ensures
            r == scope_le(self@, other@),
    {
        if other.all {
            return true;
        }
        if self.all {
            return false;
        }
        let mut i: usize = 0;
        while i < self.services.len()
            invariant
                !self.all,
                !other.all,
                i <= self.services.len(),
                forall|k: int|
                    0 <= k < i ==> ids_of(other.services@).contains(
                        (#[trigger] self.services@[k]).0@,
                    ),
            decreases self.services.len() - i,
        {
            if !contains_service(&other.services, &self.services[i].0) {
                let ghost x = self.services@[i as int].0@;
                assert(self@.services.contains(x));
                assert(!other@.services.contains(x));
                assert(!self@.services.subset_of(other@.services));
                assert(!scope_le(self@, other@));
                return false;
            }
            i = i + 1;
        }
        assert(self@.services.subset_of(other@.services)) by {
            assert forall|x: Seq<char>| self@.services.contains(x) implies other@.services.contains(
                x,
            ) by {
                let k = choose|k: int|
                    0 <= k < self.services@.len() && (#[trigger] self.services@[k]).0@ == x;
            }
        }
        true
    }

    /// Everything this scope or `other` allows.
    pub fn union(&self, other: &ServiceScope) -> (r: ServiceScope)
        ensures
            r@ == scope_union(self@, other@),
    {
        let mut services = clone_ids(&self.services);
        let mut extra = clone_ids(&other.services);
        let ghost before = services@;
        let ghost added = extra@;
        services.append(&mut extra);
        proof {
            lemma_ids_of_concat(before, added);
            assert(services@ =~= before + added);
        }
        ServiceScope { all: self.all || other.all, services }
    }
}

impl UserRights {
    pub fn le(&self, other: &UserRights) -> (r: bool)
        ensures
            r == user_le(*self, *other),
    {
        (!self.create_accounts || other.create_accounts) && (!self.add_connected_accounts
            || other.add_connected_accounts) && (!self.add_roles || other.add_roles) && (
        !self.remove_roles || other.remove_roles)
    }
}

impl TokenRights {
    pub fn le(&self, other: &TokenRights) -> (r: bool)
        ensures
            r == token_le(*self, *other),
    {
        (!self.token_create || other.token_create) && (!self.service_token_create
            || other.service_token_create) && (!self.token_delete || other.token_delete) && (
        !self.service_token_delete || other.service_token_delete)
    }
}

impl ServiceRights {
    /// Whether webhooks of `service` may be created.
    pub fn can_create_webhooks_for_service(&self, service: &ServiceId) -> (r: bool)
        ensures
            r == scope_grants(self.create_webhooks@, service.0@),
    {
        self.create_webhooks.grants(service)
    }

    /// Whether webhooks of `service` may be deleted.
    pub fn can_delete_webhooks_for_service(&self, service: &ServiceId) -> (r: bool)
        ensures
            r == scope_grants(self.delete_webhooks@, service.0@),
    {
        self.delete_webhooks.grants(service)
    }

    /// Whether the webhooks of at least one service may be deleted.
    pub fn can_delete_webhooks_at_all(&self) -> (r: bool)
        ensures
            r == scope_nonempty(self.delete_webhooks@),
    {
        self.delete_webhooks.is_nonempty()
    }
}

impl Rights {
    /// No rights at all.
    pub fn empty() -> (r: Rights)
        ensures
            r@ == no_rights(),
    {
        let r = Rights {
            user: UserRights {
                create_accounts: false,
                add_connected_accounts: false,
                add_roles: false,
                remove_roles: false,
            },
            token: TokenRights {
                token_create: false,
                service_token_create: false,
                token_delete: false,
                service_token_delete: false,
            },
            service: ServiceRights {
                create_webhooks: ServiceScope { all: false, services: Vec::new() },
                delete_webhooks: ServiceScope { all: false, services: Vec::new() },
            },
        };
        assert(r@.create_webhooks.services =~= Set::empty());
        assert(r@.delete_webhooks.services =~= Set::empty());
        r
    }

    /// Every right for every service.
    pub fn full() -> (r: Rights)
        ensures
            r@ == all_rights(),
    {
        let r = Rights {
            user: UserRights {
                create_accounts: true,
                add_connected_accounts: true,
                add_roles: true,
                remove_roles: true,
            },
            token: TokenRights {
                token_create: true,
                service_token_create: true,
                token_delete: true,
                service_token_delete: true,
            },
            service: ServiceRights {
                create_webhooks: ServiceScope { all: true, services: Vec::new() },
                delete_webhooks: ServiceScope { all: true, services: Vec::new() },
            },
        };
        assert(r@.create_webhooks.services =~= Set::empty());
        assert(r@.delete_webhooks.services =~= Set::empty());
        r
    }

    /// `self <= other`: these rights grant nothing `other` does not.
    pub fn le(&self, other: &Rights) -> (r: bool)
        ensures
            r == rights_le(self@, other@),
    {
        self.user.le(&other.user) && self.token.le(&other.token)
            && self.service.create_webhooks.le(&other.service.create_webhooks)
            && self.service.delete_webhooks.le(&other.service.delete_webhooks)
    }

    /// `self < other`: `self <= other` and the two differ.
    pub fn lt(&self, other: &Rights) -> (r: bool)
        ensures
            r == rights_lt(self@, other@),
    {
        self.le(other) && !other.le(self)
    }

    /// Everything `self` or `other` grants.
    pub fn union(&self, other: &Rights) -> (r: Rights)
        ensures
            r@ == rights_union(self@, other@),
    {
        Rights {
            user: UserRights {
                create_accounts: self.user.create_accounts || other.user.create_accounts,
                add_connected_accounts: self.user.add_connected_accounts
                    || other.user.add_connected_accounts,
                add_roles: self.user.add_roles || other.user.add_roles,
                remove_roles: self.user.remove_roles || other.user.remove_roles,
            },
            token: TokenRights {
                token_create: self.token.token_create || other.token.token_create,
                service_token_create: self.token.service_token_create
                    || other.token.service_token_create,
                token_delete: self.token.token_delete || other.token.token_delete,
                service_token_delete: self.token.service_token_delete
                    || other.token.service_token_delete,
            },
            service: ServiceRights {
                create_webhooks: self.service.create_webhooks.union(
                    &other.service.create_webhooks,
                ),
                delete_webhooks: self.service.delete_webhooks.union(
                    &other.service.delete_webhooks,
                ),
            },
        }
    }
}

/// The order of rights is reflexive and transitive.
pub proof fn lemma_rights_le_preorder(a: RightsView, b: RightsView, c: RightsView)
    ensures
        rights_le(a, a),
        rights_le(a, b) && rights_le(b, c) ==> rights_le(a, c),
{
}

/// `a <= b` means that every service `a` allows is allowed by `b`.
pub proof fn lemma_rights_le_grants(a: RightsView, b: RightsView, sid: Seq<char>)
    requires
        rights_le(a, b),
    ensures
        scope_grants(a.create_webhooks, sid) ==> scope_grants(b.create_webhooks, sid),
        scope_grants(a.delete_webhooks, sid) ==> scope_grants(b.delete_webhooks, sid),
{
}

/// The union of two rights is their least upper bound.
pub proof fn lemma_union_least_upper_bound(a: RightsView, b: RightsView, c: RightsView)
    ensures
        rights_le(a, rights_union(a, b)),
        rights_le(b, rights_union(a, b)),
        rights_le(a, c) && rights_le(b, c) ==> rights_le(rights_union(a, b), c),
{
}

/// No rights lie below everything; all rights lie above everything.
pub proof fn lemma_no_rights_bottom_all_rights_top(a: RightsView)
    ensures
        rights_le(no_rights(), a),
        rights_le(a, all_rights()),
{
}

/// The sum of a sequence of rights lies above each of them.
pub proof fn lemma_sum_rights_upper_bound(s: Seq<RightsView>, i: int)
    requires
        0 <= i < s.len(),
    ensures
        rights_le(s[i], sum_rights(s)),
    decreases s.len(),
{
    if i < s.len() - 1 {
        lemma_sum_rights_upper_bound(s.drop_last(), i);
        lemma_union_least_upper_bound(sum_rights(s.drop_last()), s.last(), sum_rights(s));
        lemma_rights_le_preorder(s[i], sum_rights(s.drop_last()), sum_rights(s));
    }
}

} // verus!
