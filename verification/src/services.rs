//! The webhook services: which exist, and the messages the Discord-facing
//! ones build.
use crate::models::{ServiceError, NANOS_PER_SECOND};
use crate::rights::ServiceId;
use crate::text::{decimal, owned, push_decimal, push_signed_decimal, signed_decimal};
use vstd::prelude::*;
use vstd::string::*;

verus! {

/// The services a webhook can be bound to.
#[derive(Clone, Copy, Debug, PartialEq, Eq, Structural)]
pub enum ServiceKind {
    Echo,
    ChatToDiscord,
    RoundEnd,
}

/// Position of the first entry of `s` at or after `i` named `name`, or `s.len()`.
pub open spec fn first_service(s: Seq<(ServiceId, ServiceKind)>, name: Seq<char>, i: int) -> int
    decreases s.len() - i,
{
    if i < 0 || i >= s.len() {
        s.len() as int
    } else if s[i].0.0@ == name {
        i
    } else {
        first_service(s, name, i + 1)
    }
}

/// The service registered under `name`, if any.
pub open spec fn service_of(s: Seq<(ServiceId, ServiceKind)>, name: Seq<char>) -> Option<
    ServiceKind,
> {
    let i = first_service(s, name, 0);
    if i < s.len() {
        Some(s[i].1)
    } else {
        None
    }
}

proof fn lemma_first_service_bounds(s: Seq<(ServiceId, ServiceKind)>, name: Seq<char>, i: int)
    requires
        0 <= i <= s.len(),
    ensures
        i <= first_service(s, name, i) <= s.len(),
        first_service(s, name, i) < s.len() ==> s[first_service(s, name, i)].0.0@ == name,
        forall|k: int| i <= k < first_service(s, name, i) ==> (#[trigger] s[k]).0.0@ != name,
    decreases s.len() - i,
{
    if i < s.len() && s[i].0.0@ != name {
        lemma_first_service_bounds(s, name, i + 1);
    }
}

proof fn lemma_first_service_exact(s: Seq<(ServiceId, ServiceKind)>, name: Seq<char>, j: int)
    requires
        0 <= j <= s.len(),
        j < s.len() ==> s[j].0.0@ == name,
        forall|k: int| 0 <= k < j ==> (#[trigger] s[k]).0.0@ != name,
    ensures
        first_service(s, name, 0) == j,
{
    lemma_first_service_from(s, name, 0, j);
}

proof fn lemma_first_service_from(s: Seq<(ServiceId, ServiceKind)>, name: Seq<char>, i: int, j: int)
    requires
        0 <= i <= j <= s.len(),
        j < s.len() ==> s[j].0.0@ == name,
        forall|k: int| 0 <= k < j ==> (#[trigger] s[k]).0.0@ != name,
    ensures
        first_service(s, name, i) == j,
    decreases j - i,
{
    if i < j {
        lemma_first_service_from(s, name, i + 1, j);
    }
}

/// The registry of webhook services, by name.
#[derive(Debug, PartialEq, Eq)]
pub struct ServicesStorage {
    services: Vec<(ServiceId, ServiceKind)>,
}

impl ServicesStorage {
    /// The service registered under `name`, if any.
    pub closed spec fn lookup(&self, name: Seq<char>) -> Option<ServiceKind> {
        service_of(self.services@, name)
    }

    /// An empty registry.
    pub fn new() -> (r: ServicesStorage)
        ensures
            forall|name: Seq<char>| r.lookup(name) is None,
    {
        ServicesStorage { services: Vec::new() }
    }

    fn position(&self, name: &String) -> (r: usize)
        ensures
            r == first_service(self.services@, name@, 0),
    {
        let mut i: usize = 0;
        while i < self.services.len()
            invariant
                i <= self.services@.len(),
                forall|k: int| 0 <= k < i ==> (#[trigger] self.services@[k]).0.0@ != name@,
            decreases self.services@.len() - i,
        {
            if self.services[i].0.0.eq(name) {
                proof {
                    lemma_first_service_exact(self.services@, name@, i as int);
                }
                return i;
            }
            i = i + 1;
        }
        proof {
            lemma_first_service_exact(self.services@, name@, i as int);
        }
        i
    }

    /// Registers `kind` under `id`, replacing what was registered there.
    pub fn insert(&mut self, id: ServiceId, kind: ServiceKind)
        ensures
            final(self).lookup(id.0@) == Some(kind),
            forall|name: Seq<char>| name != id.0@ ==> final(self).lookup(name) == old(self).lookup(name),
    {
        let ghost key = id.0@;
        let p = self.position(&id.0);
        let ghost old_s = self.services@;
        proof {
            lemma_first_service_bounds(old_s, key, 0);
        }
        if p < self.services.len() {
            self.services.set(p, (id, kind));
        } else {
            self.services.push((id, kind));
        }
        proof {
            let s = self.services@;
            lemma_first_service_bounds(old_s, key, 0);
            lemma_first_service_exact(s, key, p as int);
            assert forall|name: Seq<char>| name != key implies service_of(s, name) == service_of(
                old_s,
                name,
            ) by {
                lemma_first_service_bounds(old_s, name, 0);
                let j = first_service(old_s, name, 0);
                if j < old_s.len() {
                    assert(j != p);
                    assert(s[j] == old_s[j]);
                    assert forall|k: int| 0 <= k < j implies (#[trigger] s[k]).0.0@ != name by {
                        if k == p {
                        } else {
                            assert(s[k] == old_s[k]);
                        }
                    }
                    lemma_first_service_exact(s, name, j);
                } else {
                    assert forall|k: int| 0 <= k < s.len() implies (#[trigger] s[k]).0.0@ != name by {
                        if k == p {
                        } else {
                            assert(s[k] == old_s[k]);
                        }
                    }
                    lemma_first_service_exact(s, name, s.len() as int);
                }
            }
        }
    }

    /// Registers the three services: `echo`, `chat_to_discord` and `round_end`.
    pub fn register(&mut self)
        ensures
            final(self).lookup("echo"@) == Some(ServiceKind::Echo),
            final(self).lookup("chat_to_discord"@) == Some(ServiceKind::ChatToDiscord),
            final(self).lookup("round_end"@) == Some(ServiceKind::RoundEnd),
            forall|name: Seq<char>|
                name != "echo"@ && name != "chat_to_discord"@ && name != "round_end"@
                    ==> final(self).lookup(name) == old(self).lookup(name),
    {
        proof {
            reveal_strlit("echo");
            reveal_strlit("chat_to_discord");
            reveal_strlit("round_end");
            assert("echo"@.len() == 4);
            assert("chat_to_discord"@.len() == 15);
            assert("round_end"@.len() == 9);
        }
        self.insert(ServiceId(owned("echo")), ServiceKind::Echo);
        self.insert(ServiceId(owned("chat_to_discord")), ServiceKind::ChatToDiscord);
        self.insert(ServiceId(owned("round_end")), ServiceKind::RoundEnd);
    }

    /// Whether a service is registered under `service_id`.
    pub fn is_service_exists(&self, service_id: &ServiceId) -> (r: bool)
        ensures
            r == self.lookup(service_id.0@) is Some,
    {
        self.position(&service_id.0) < self.services.len()
    }

    /// The service that checks a configuration for `service_id`, which must
    /// be registered.
    pub fn configure_webhook(&self, service_id: &ServiceId) -> (r: ServiceKind)
        requires
            self.lookup(service_id.0@) is Some,
        ensures
            self.lookup(service_id.0@) == Some(r),
    {
        let p = self.position(&service_id.0);
        self.services[p].1
    }

    /// The service that handles the events of `service_id`, which must be
    /// registered.
    pub fn handle(&self, service_id: &ServiceId) -> (r: ServiceKind)
        requires
            self.lookup(service_id.0@) is Some,
        ensures
            self.lookup(service_id.0@) == Some(r),
    {
        self.configure_webhook(service_id)
    }
}

/// The most characters a Discord embed description holds.
pub const DESCRIPTION_MAX: usize = 4000;

/// The window, fifteen seconds in nanoseconds, within which a new chat
/// message is appended to the last one sent through the same Discord
/// webhook.
pub const PATCH_WINDOW: i64 = 15000000000;

/// Configuration of a `chat_to_discord` webhook.
#[derive(Debug, PartialEq, Eq)]
pub struct ChatToDiscordConfig {
    pub prefix: Option<String>,
    pub timestamp_postfix: Option<String>,
    pub discord_webhook: String,
}

/// The last message sent through a Discord webhook.
#[derive(Debug, PartialEq, Eq)]
pub struct MessageInfo {
    pub message: String,
    pub id: u64,
    pub last_send: i64,
}

impl Clone for MessageInfo {
    fn clone(&self) -> (r: Self)
        ensures
            r == *self,
    {
        MessageInfo { message: self.message.clone(), id: self.id, last_send: self.last_send }
    }
}

/// How to deliver a chat message: as a new Discord message, or by editing
/// the message with the given id.
#[derive(Debug, PartialEq, Eq)]
pub struct Delivery {
    pub patch_message_id: Option<u64>,
    pub message: String,
}

/// The Discord timestamp mark put before a message: `<t:SECONDS:POSTFIX> `,
/// with the whole seconds of `now` (rounded down).
pub open spec fn timestamp_mark(postfix: Option<String>, now: i64) -> Seq<char> {
    match postfix {
        None => Seq::empty(),
        Some(p) => "<t:"@ + signed_decimal(now / NANOS_PER_SECOND) + ":"@ + p@ + "> "@,
    }
}

/// The prefix put before a message: `PREFIX `.
pub open spec fn prefix_mark(prefix: Option<String>) -> Seq<char> {
    match prefix {
        None => Seq::empty(),
        Some(p) => p@ + " "@,
    }
}

/// A chat message as posted: timestamp mark, prefix, then the message,
/// which is cut to its first 3997 characters and `...` when the whole would
/// exceed the description limit.
pub open spec fn formatted_chat_message(config: ChatToDiscordConfig, message: Seq<char>, now: i64) -> Seq<char> {
    let t = timestamp_mark(config.timestamp_postfix, now);
    let p = prefix_mark(config.prefix);
    let body = if t.len() + p.len() + message.len() > DESCRIPTION_MAX {
        message.take(if message.len() < DESCRIPTION_MAX - 3 { message.len() as int } else {
            DESCRIPTION_MAX - 3
        }) + "..."@
    } else {
        message
    };
    t + p + body
}

/// Where and what to send for the formatted `message` at `now`, given the
/// last message sent through the same Discord webhook: the id of the
/// message to edit (none for a new one) and the text.
pub open spec fn planned_delivery(last: Option<MessageInfo>, message: Seq<char>, now: i64) -> (
    Option<u64>,
    Seq<char>,
) {
    match last {
        Some(info) => if info.message@.len() + message.len() <= DESCRIPTION_MAX && now
            - info.last_send < PATCH_WINDOW {
            (Some(info.id), info.message@ + "\n"@ + message)
        } else {
            (None, message)
        },
        None => (None, message),
    }
}

/// Position of the entry for `webhook` in `s`, or `s.len()`.
pub open spec fn first_webhook(s: Seq<(String, MessageInfo)>, webhook: Seq<char>, i: int) -> int
    decreases s.len() - i,
{
    if i < 0 || i >= s.len() {
        s.len() as int
    } else if s[i].0@ == webhook {
        i
    } else {
        first_webhook(s, webhook, i + 1)
    }
}

/// The last message recorded for `webhook`, if any.
pub open spec fn info_of(s: Seq<(String, MessageInfo)>, webhook: Seq<char>) -> Option<MessageInfo> {
    let i = first_webhook(s, webhook, 0);
    if i < s.len() {
        Some(s[i].1)
    } else {
        None
    }
}

proof fn lemma_first_webhook_from(s: Seq<(String, MessageInfo)>, name: Seq<char>, i: int, j: int)
    requires
        0 <= i <= j <= s.len(),
        j < s.len() ==> s[j].0@ == name,
        forall|k: int| 0 <= k < j ==> (#[trigger] s[k]).0@ != name,
    ensures
        first_webhook(s, name, i) == j,
    decreases j - i,
{
    if i < j {
        lemma_first_webhook_from(s, name, i + 1, j);
    }
}

proof fn lemma_first_webhook_bounds(s: Seq<(String, MessageInfo)>, name: Seq<char>, i: int)
    requires
        0 <= i <= s.len(),
    ensures
        i <= first_webhook(s, name, i) <= s.len(),
        first_webhook(s, name, i) < s.len() ==> s[first_webhook(s, name, i)].0@ == name,
        forall|k: int| i <= k < first_webhook(s, name, i) ==> (#[trigger] s[k]).0@ != name,
    decreases s.len() - i,
{
    if i < s.len() && s[i].0@ != name {
        lemma_first_webhook_bounds(s, name, i + 1);
    }
}

/// Relays in-game chat to a Discord channel, folding messages that follow
/// each other closely into one Discord message.
#[derive(Debug, PartialEq, Eq)]
pub struct ChatToDiscordService {
    last_message_per_webhook: Vec<(String, MessageInfo)>,
}

impl ChatToDiscordService {
    /// The last message recorded for the Discord webhook `webhook`.
    pub closed spec fn last_message(&self, webhook: Seq<char>) -> Option<MessageInfo> {
        info_of(self.last_message_per_webhook@, webhook)
    }

    /// A service that has sent nothing yet.
    pub fn new() -> (r: ChatToDiscordService)
        ensures
            forall|w: Seq<char>| r.last_message(w) is None,
    {
        ChatToDiscordService { last_message_per_webhook: Vec::new() }
    }

    /// The message as it is posted to Discord at instant `now`.
    pub fn format_message(config: &ChatToDiscordConfig, message: &str, now: i64) -> (r: String)
        ensures
            r@ == formatted_chat_message(*config, message@, now),
    {
        proof {
            reveal_strlit("<t:");
            reveal_strlit(":");
            reveal_strlit("> ");
            reveal_strlit(" ");
            reveal_strlit("...");
        }
        let mut timestamp = String::new();
        match &config.timestamp_postfix {
            None => {},
            Some(postfix) => {
                timestamp.append("<t:");
                let seconds = now.checked_div_euclid(NANOS_PER_SECOND).unwrap();
                push_signed_decimal(&mut timestamp, seconds);
                timestamp.append(":");
                timestamp.append(postfix.as_str());
                timestamp.append("> ");
            },
        }
        let mut prefix = String::new();
        match &config.prefix {
            None => {},
            Some(p) => {
                prefix.append(p.as_str());
                prefix.append(" ");
            },
        }
        let tl = timestamp.as_str().unicode_len();
        let pl = prefix.as_str().unicode_len();
        let ml = message.unicode_len();
        let mut result = timestamp;
        result.append(prefix.as_str());
        if (tl as u128) + (pl as u128) + (ml as u128) > DESCRIPTION_MAX as u128 {
            let cut = message.substring_char(0, if ml < DESCRIPTION_MAX - 3 { ml } else { DESCRIPTION_MAX - 3 });
            result.append(cut);
            result.append("...");
        } else {
            result.append(message);
        }
        result
    }

    fn position(&self, webhook: &str) -> (r: usize)
        ensures
            r == first_webhook(self.last_message_per_webhook@, webhook@, 0),
    {
        let target = owned(webhook);
        let mut i: usize = 0;
        while i < self.last_message_per_webhook.len()
            invariant
                target@ == webhook@,
                i <= self.last_message_per_webhook@.len(),
                forall|k: int|
                    0 <= k < i ==> (#[trigger] self.last_message_per_webhook@[k]).0@ != webhook@,
            decreases self.last_message_per_webhook@.len() - i,
        {
            if self.last_message_per_webhook[i].0.eq(&target) {
                proof {
                    lemma_first_webhook_from(self.last_message_per_webhook@, webhook@, 0, i as int);
                }
                return i;
            }
            i = i + 1;
        }
        proof {
            lemma_first_webhook_from(self.last_message_per_webhook@, webhook@, 0, i as int);
        }
        i
    }

    /// The last message recorded for the Discord webhook `webhook`.
    pub fn get_message_info_for_webhook(&self, webhook: &str) -> (r: Option<MessageInfo>)
        ensures
            r == self.last_message(webhook@),
    {
        let p = self.position(webhook);
        if p < self.last_message_per_webhook.len() {
            Some(self.last_message_per_webhook[p].1.clone())
        } else {
            None
        }
    }

    /// Records that `message`, with Discord id `id`, was sent through
    /// `webhook` at `now`.
    pub fn update_last_id(&mut self, webhook: &str, id: u64, message: String, now: i64)
        ensures
            final(self).last_message(webhook@) == Some(MessageInfo { message, id, last_send: now }),
            forall|w: Seq<char>| w != webhook@ ==> final(self).last_message(w) == old(self).last_message(w),
    {
        let ghost key = webhook@;
        let p = self.position(webhook);
        let ghost old_s = self.last_message_per_webhook@;
        let info = MessageInfo { message, id, last_send: now };
        let entry = (owned(webhook), info);
        if p < self.last_message_per_webhook.len() {
            self.last_message_per_webhook.set(p, entry);
        } else {
            self.last_message_per_webhook.push(entry);
        }
        proof {
            let s = self.last_message_per_webhook@;
            lemma_first_webhook_bounds(old_s, key, 0);
            lemma_first_webhook_from(s, key, 0, p as int);
            assert forall|name: Seq<char>| name != key implies info_of(s, name) == info_of(old_s, name) by {
                lemma_first_webhook_bounds(old_s, name, 0);
                let j = first_webhook(old_s, name, 0);
                let stop = if j < old_s.len() { j } else { s.len() as int };
                assert forall|k: int| 0 <= k < stop implies (#[trigger] s[k]).0@ != name by {
                    if k != p {
                        assert(s[k] == old_s[k]);
                    }
                }
                if j < old_s.len() {
                    assert(s[j] == old_s[j]);
                }
                lemma_first_webhook_from(s, name, 0, stop);
            }
        }
    }

    /// What Discord answered a delivery of `message` through `webhook`:
    /// the id of the message it holds, or, when it refused, the body of
    /// its answer. A refusal is passed on as the service's error and
    /// records nothing; otherwise the message is recorded as sent at `now`.
    pub fn finish_delivery(
        &mut self,
        webhook: &str,
        message: String,
        response: Result<u64, String>,
        now: i64,
    ) -> (r: Result<(), ServiceError>)
        ensures
            response matches Err(body) ==> r == Err::<(), ServiceError>(ServiceError::Any(body))
                && *final(self) == *old(self),
            response matches Ok(id) ==> r is Ok && final(self).last_message(webhook@) == Some(
                MessageInfo { message, id, last_send: now },
            ),
            response is Ok ==> forall|w: Seq<char>|
                w != webhook@ ==> final(self).last_message(w) == old(self).last_message(w),
    {
        match response {
            Err(body) => Err(ServiceError::Any(body)),
            Ok(id) => {
                self.update_last_id(webhook, id, message, now);
                Ok(())
            },
        }
    }

    /// How to deliver `payload_message` for a webhook configured with
    /// `config` at `now`: the message is formatted; when the last message
    /// sent through the same Discord webhook was sent less than
    /// `PATCH_WINDOW` ago and the two fit the description limit
    /// together, that message is edited to hold both, one per line;
    /// otherwise a new message is posted.
    pub fn plan_delivery(&self, config: &ChatToDiscordConfig, payload_message: &str, now: i64) -> (r:
        Delivery)
        ensures
            (r.patch_message_id, r.message@) == planned_delivery(
                self.last_message(config.discord_webhook@),
                formatted_chat_message(*config, payload_message@, now),
                now,
            ),
    {
        proof {
            reveal_strlit("\n");
        }
        let message = Self::format_message(config, payload_message, now);
        let last = self.get_message_info_for_webhook(config.discord_webhook.as_str());
        match last {
            Some(info) => {
                let total = (info.message.as_str().unicode_len() as u128) + (
                message.as_str().unicode_len() as u128);
                let recent = (now as i128) - (info.last_send as i128) < PATCH_WINDOW as i128;
                if total <= DESCRIPTION_MAX as u128 && recent {
                    let mut joined = info.message.clone();
                    joined.append("\n");
                    joined.append(message.as_str());
                    Delivery { patch_message_id: Some(info.id), message: joined }
                } else {
                    Delivery { patch_message_id: None, message }
                }
            },
            None => Delivery { patch_message_id: None, message },
        }
    }
}

/// What a game server reports at the end of a round.
#[derive(Debug, PartialEq, Eq)]
pub struct RoundEndPayload {
    pub players: String,
    pub game_mode: String,
    pub round_id: String,
    pub round_duration: String,
}

/// Configuration of a `round_end` webhook.
#[derive(Debug, PartialEq, Eq)]
pub struct RoundEndConfig {
    pub discord_webhook: String,
    pub role_id_to_mention: Option<u64>,
}

/// The round summary posted to Discord.
pub open spec fn round_end_message(p: RoundEndPayload) -> Seq<char> {
    "Раунд **"@ + p.round_id@ + "** закончился\n**Режим:** "@ + p.game_mode@ + "\n**Игроков:** "@
        + p.players@ + "\n**Продолжительность:** "@ + p.round_duration@
}

/// The text that mentions the configured role, or nothing.
pub open spec fn role_mention(role: Option<u64>) -> Seq<char> {
    match role {
        None => Seq::empty(),
        Some(id) => "<@&"@ + decimal(id as nat) + ">"@,
    }
}

/// Announces the end of a round in a Discord channel.
#[derive(Debug, PartialEq, Eq)]
pub struct RoundEndService;

impl RoundEndService {
    /// The round summary posted to Discord.
    pub fn format_message(payload: &RoundEndPayload) -> (r: String)
        ensures
            r@ == round_end_message(*payload),
    {
        let mut s = owned("Раунд **");
        s.append(payload.round_id.as_str());
        s.append("** закончился\n**Режим:** ");
        s.append(payload.game_mode.as_str());
        s.append("\n**Игроков:** ");
        s.append(payload.players.as_str());
        s.append("\n**Продолжительность:** ");
        s.append(payload.round_duration.as_str());
        s
    }

    /// The message content that mentions the configured role, if any.
    pub fn mention(config: &RoundEndConfig) -> (r: String)
        ensures
            r@ == role_mention(config.role_id_to_mention),
    {
        match config.role_id_to_mention {
            None => String::new(),
            Some(id) => {
                proof {
                    reveal_strlit("<@&");
                    reveal_strlit(">");
                }
                let mut s = owned("<@&");
                push_decimal(&mut s, id);
                s.append(">");
                s
            },
        }
    }
}

} // verus!
