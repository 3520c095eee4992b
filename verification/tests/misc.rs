use app_api::database::{delete_expired_sessions, is_vote_ended};
use app_api::github::split_repository;
use app_api::models::{AccountId, DiscordUserId, FeatureVote, FeatureVoteDescriptor, Secret, Session};

#[test]
fn unknown_vote_counts_as_ended() {
    assert!(is_vote_ended(&None));
    let vote = FeatureVote {
        descriptor: FeatureVoteDescriptor(1, 2),
        author_id: DiscordUserId(3),
        created_at: 0,
        is_vote_ended: false,
    };
    assert!(!is_vote_ended(&Some(vote)));
    assert!(is_vote_ended(&Some(FeatureVote { is_vote_ended: true, ..vote })));
}

fn session(name: &str, expiration: i64) -> Session {
    Session {
        secret: Secret(format!("s-{name}")),
        api_secret: Secret(format!("a-{name}")),
        csrf_secret: Secret(format!("c-{name}")),
        account_id: AccountId(1),
        created_at: 0,
        expiration,
        user_agent: "ua".to_string(),
        ip: "127.0.0.1".to_string(),
    }
}

#[test]
fn expired_sessions_and_their_tokens_are_deleted() {
    let sessions = vec![session("old", 10), session("live", 100), session("older", 5)];
    let gone = delete_expired_sessions(&sessions, 50);
    assert_eq!(
        gone,
        vec![
            (Secret("s-old".to_string()), Secret("a-old".to_string())),
            (Secret("s-older".to_string()), Secret("a-older".to_string())),
        ]
    );
    assert!(delete_expired_sessions(&sessions, 5).is_empty());
}

#[test]
fn repository_is_split_at_first_slash() {
    assert_eq!(split_repository("owner/repo"), ("owner".to_string(), "repo".to_string()));
    assert_eq!(split_repository("a/b/c"), ("a".to_string(), "b/c".to_string()));
    assert_eq!(split_repository("/x"), (String::new(), "x".to_string()));
}
