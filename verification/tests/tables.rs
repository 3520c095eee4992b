use app_api::models::{AccountId, AnyUserId, ApiToken, BugReport, BugReportDescriptor, ByondUserId, DiscordUserId, FeatureVoteDescriptor, RoleId, SS14UserId, Secret};
use app_api::rights::Rights;
use app_api::tables::{
    AccountIntegrationsTable, AccountTable, Bind, BugMessageTable, FeatureMessageTable, RoleTable,
    SessionTable, TokenTable,
};

#[test]
fn account_lookup_by_each_identifier() {
    let q = AccountTable::find_by_user_id(AnyUserId::DiscordId(DiscordUserId(12)));
    assert_eq!(q.sql, "SELECT * FROM account WHERE discord_id = $1");
    assert_eq!(q.binds, vec![Bind::BigInt(12)]);
    let q = AccountTable::find_by_user_id(AnyUserId::ByondCkey(ByondUserId("ck".into())));
    assert_eq!(q.sql, "SELECT * FROM account WHERE byond_ckey = $1");
    assert_eq!(q.binds, vec![Bind::Text("ck".into())]);
    let q = AccountTable::find_by_user_id(AnyUserId::AccountId(AccountId(3)));
    assert_eq!(q.sql, "SELECT * FROM account WHERE id = $1");
}

#[test]
fn account_identifier_update() {
    let q = AccountTable::update_user_id(AnyUserId::AccountId(AccountId(3)), AnyUserId::SS14Guid(SS14UserId("g".into())));
    assert_eq!(q.sql, "UPDATE account SET ss14_guid = $1 WHERE id = $2;");
    assert_eq!(q.binds, vec![Bind::Text("g".into()), Bind::BigInt(3)]);
    let q = AccountIntegrationsTable::set_integration(AnyUserId::DiscordId(DiscordUserId(u64::MAX)), AnyUserId::ByondCkey(ByondUserId("c".into())));
    assert_eq!(q.sql, "UPDATE account_integrations SET byond_ckey = $1 WHERE discord_user_id = $2;");
    assert_eq!(q.binds, vec![Bind::Text("c".into()), Bind::BigInt(-1)]);
}

#[test]
fn integrations_rows() {
    let q = AccountIntegrationsTable::find_by_id(AnyUserId::AccountId(AccountId(8)));
    assert_eq!(q.sql, "SELECT * FROM account_integrations WHERE account_id = $1");
    let q = AccountIntegrationsTable::insert(AccountIntegrationsTable {
        account_id: AccountId(8),
        discord_user_id: DiscordUserId(9),
        byond_ckey: None,
        ss14_guid: Some(SS14UserId("g".into())),
    });
    assert_eq!(q.binds, vec![Bind::BigInt(8), Bind::BigInt(9), Bind::OptText(None), Bind::OptText(Some("g".into()))]);
    assert!(AccountIntegrationsTable::create().sql.contains("create table if not exists account_integrations"));
}

#[test]
fn votes_reports_and_roles() {
    let q = FeatureMessageTable::find_by_descriptor(FeatureVoteDescriptor(10, 20));
    assert_eq!(q.binds, vec![Bind::BigInt(20), Bind::BigInt(10)]);
    let q = FeatureMessageTable::end_vote(FeatureVoteDescriptor(10, 20));
    assert_eq!(q.sql, "UPDATE feature_message SET is_vote_ended = true WHERE channel_id = $1 AND message_id = $2");
    let q = BugMessageTable::insert(BugReport { descriptor: BugReportDescriptor(77), author_id: DiscordUserId(5) });
    assert_eq!(q.binds, vec![Bind::BigInt(5), Bind::BigInt(77)]);
    let q = RoleTable::find_by_ids(&vec![RoleId(1), RoleId(4)]);
    assert_eq!(q.sql, "SELECT * FROM role WHERE id = ANY ($1);");
    assert_eq!(q.binds, vec![Bind::BigIntList(vec![1, 4])]);
    assert_eq!(RoleTable::find_by_id(RoleId(2)).binds, vec![Bind::BigInt(2)]);
}

#[test]
fn sessions_and_tokens_rows() {
    assert_eq!(SessionTable::get_all().sql, "SELECT * FROM session");
    assert_eq!(SessionTable::delete_by_secret(Secret("s".into())).binds, vec![Bind::Text("s".into())]);
    let q = TokenTable::insert(ApiToken { secret: Secret("t".into()), expiration: None, rights: Rights::empty(), created_at: 5, creator: Some(AccountId(2)), is_service: true });
    assert_eq!(q.binds, vec![Bind::Text("t".into()), Bind::OptInstant(None), Bind::Rights(Rights::empty()), Bind::Instant(5), Bind::OptBigInt(Some(2)), Bind::Bool(true)]);
    assert_eq!(TokenTable::find_by_secret(Secret("t".into())).sql, "SELECT * FROM token WHERE secret = $1");
}
