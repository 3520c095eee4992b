use app_api::models::{DiscordUserId, Secret};
use app_api::tfa_tokens_storage::TFATokensStorage;

fn secret(s: &str) -> Secret {
    Secret(s.to_string())
}

#[test]
fn new_token_is_found_by_secret() {
    let mut s = TFATokensStorage::new();
    let t = s.new_token(DiscordUserId(7), 60, 1000, secret("abc")).unwrap();
    assert_eq!(t.expiration, 1060);
    assert_eq!(t.discord_user_id, DiscordUserId(7));
    assert_eq!(s.find_by_secret(&secret("abc"), 1030), Some(t.clone()));
    assert_eq!(s.find_by_secret(&secret("abc"), 1060), Some(t));
    assert_eq!(s.find_by_secret(&secret("zzz"), 1030), None);
}

#[test]
fn colliding_secret_is_refused() {
    let mut s = TFATokensStorage::new();
    assert!(s.new_token(DiscordUserId(1), 60, 0, secret("same")).is_some());
    assert!(s.new_token(DiscordUserId(2), 60, 10, secret("same")).is_none());
    assert_eq!(s.len(), 1);
}

#[test]
fn expired_tokens_are_dropped() {
    let mut s = TFATokensStorage::new();
    s.new_token(DiscordUserId(1), 60, 0, secret("one")).unwrap();
    s.new_token(DiscordUserId(2), 60, 30, secret("two")).unwrap();
    assert_eq!(s.find_by_secret(&secret("one"), 61), None);
    assert_eq!(s.len(), 1);
    // the secret of an expired token may be handed out again
    assert!(s.new_token(DiscordUserId(3), 60, 61, secret("one")).is_some());
    s.remove_expired_tokens(200);
    assert_eq!(s.len(), 0);
}

#[test]
fn token_found_by_user() {
    let mut s = TFATokensStorage::new();
    s.new_token(DiscordUserId(1), 60, 0, secret("a")).unwrap();
    let t = s.new_token(DiscordUserId(2), 60, 0, secret("b")).unwrap();
    assert_eq!(s.find_by_discord_user_id(DiscordUserId(2), 5), Some(t));
    assert_eq!(s.find_by_discord_user_id(DiscordUserId(3), 5), None);
    assert!(!s.has_secret(&secret("c")));
    assert!(s.has_secret(&secret("a")));
}
