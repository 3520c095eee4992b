use app_api::rights::ServiceId;
use app_api::services::{
    ChatToDiscordConfig, ChatToDiscordService, RoundEndConfig, RoundEndPayload, RoundEndService,
    ServiceKind, ServicesStorage,
};

/// Nanoseconds in a second.
const S: i64 = 1_000_000_000;

fn id(s: &str) -> ServiceId {
    ServiceId(s.to_string())
}

#[test]
fn registered_services_exist() {
    let mut s = ServicesStorage::new();
    assert!(!s.is_service_exists(&id("echo")));
    s.register();
    assert!(s.is_service_exists(&id("echo")));
    assert!(s.is_service_exists(&id("chat_to_discord")));
    assert!(s.is_service_exists(&id("round_end")));
    assert!(!s.is_service_exists(&id("nope")));
    assert_eq!(s.handle(&id("round_end")), ServiceKind::RoundEnd);
    assert_eq!(s.configure_webhook(&id("chat_to_discord")), ServiceKind::ChatToDiscord);
}

#[test]
fn registering_twice_keeps_one_entry_per_name() {
    let mut s = ServicesStorage::new();
    s.register();
    s.register();
    s.insert(id("echo"), ServiceKind::RoundEnd);
    assert_eq!(s.handle(&id("echo")), ServiceKind::RoundEnd);
    assert_eq!(s.handle(&id("chat_to_discord")), ServiceKind::ChatToDiscord);
}

fn config(prefix: Option<&str>, postfix: Option<&str>) -> ChatToDiscordConfig {
    ChatToDiscordConfig {
        prefix: prefix.map(|p| p.to_string()),
        timestamp_postfix: postfix.map(|p| p.to_string()),
        discord_webhook: "https://discord.example/hook".to_string(),
    }
}

#[test]
fn chat_message_format() {
    assert_eq!(ChatToDiscordService::format_message(&config(None, None), "hi", 5), "hi");
    assert_eq!(
        ChatToDiscordService::format_message(&config(Some("[OOC]"), Some("T")), "hi", 1_700_000_000 * S + 999_999_999),
        "<t:1700000000:T> [OOC] hi"
    );
}

#[test]
fn long_chat_message_is_cut() {
    let long = "x".repeat(4000);
    let out = ChatToDiscordService::format_message(&config(Some("p"), None), &long, 0);
    assert_eq!(out.chars().count(), 2 + 3997 + 3);
    assert!(out.starts_with("p xxx"));
    assert!(out.ends_with("x..."));
    let fits = "y".repeat(3998);
    let out = ChatToDiscordService::format_message(&config(Some("p"), None), &fits, 0);
    assert_eq!(out, format!("p {fits}"));
}

#[test]
fn chat_messages_are_folded_within_the_window() {
    let mut svc = ChatToDiscordService::new();
    let c = config(None, None);
    let first = svc.plan_delivery(&c, "one", 100 * S);
    assert_eq!(first.patch_message_id, None);
    assert_eq!(first.message, "one");
    svc.update_last_id(&c.discord_webhook, 555, first.message, 100 * S);
    let second = svc.plan_delivery(&c, "two", 115 * S - 1);
    assert_eq!(second.patch_message_id, Some(555));
    assert_eq!(second.message, "one\ntwo");
    let late = svc.plan_delivery(&c, "three", 115 * S);
    assert_eq!(late.patch_message_id, None);
    assert_eq!(late.message, "three");
}

#[test]
fn chat_messages_too_long_together_are_not_folded() {
    let mut svc = ChatToDiscordService::new();
    let c = config(None, None);
    svc.update_last_id(&c.discord_webhook, 9, "a".repeat(3000), 0);
    let d = svc.plan_delivery(&c, &"b".repeat(1001), S);
    assert_eq!(d.patch_message_id, None);
    let d = svc.plan_delivery(&c, &"b".repeat(1000), S);
    assert_eq!(d.patch_message_id, Some(9));
    assert_eq!(svc.get_message_info_for_webhook("other").is_none(), true);
}

#[test]
fn round_end_message() {
    let p = RoundEndPayload {
        players: "42".to_string(),
        game_mode: "Extended".to_string(),
        round_id: "1337".to_string(),
        round_duration: "01:23".to_string(),
    };
    assert_eq!(
        RoundEndService::format_message(&p),
        "Раунд **1337** закончился\n**Режим:** Extended\n**Игроков:** 42\n**Продолжительность:** 01:23"
    );
}

#[test]
fn round_end_mention() {
    let with = RoundEndConfig { discord_webhook: "w".to_string(), role_id_to_mention: Some(123456789) };
    assert_eq!(RoundEndService::mention(&with), "<@&123456789>");
    let without = RoundEndConfig { discord_webhook: "w".to_string(), role_id_to_mention: None };
    assert_eq!(RoundEndService::mention(&without), "");
}

#[test]
fn timestamp_mark_rounds_down_to_whole_seconds() {
    assert_eq!(
        ChatToDiscordService::format_message(&config(None, Some("R")), "x", -1),
        "<t:-1:R> x"
    );
    assert_eq!(
        ChatToDiscordService::format_message(&config(None, Some("R")), "x", 2 * S),
        "<t:2:R> x"
    );
}

#[test]
fn discord_answer_is_recorded_or_passed_on() {
    let mut svc = ChatToDiscordService::new();
    let c = config(None, None);
    assert_eq!(
        svc.finish_delivery(&c.discord_webhook, "one".to_string(), Err("{\"code\":50035}".to_string()), 0),
        Err(app_api::models::ServiceError::Any("{\"code\":50035}".to_string()))
    );
    assert!(svc.get_message_info_for_webhook(&c.discord_webhook).is_none());
    assert_eq!(svc.finish_delivery(&c.discord_webhook, "one".to_string(), Ok(77), 5 * S), Ok(()));
    let info = svc.get_message_info_for_webhook(&c.discord_webhook).unwrap();
    assert_eq!((info.id, info.message.as_str(), info.last_send), (77, "one", 5 * S));
}
