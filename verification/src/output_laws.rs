//! What the texts the library builds hold, stated over their inputs.
use crate::api::account::{avatar_url_for, username_candidate};
use crate::services::{formatted_chat_message, ChatToDiscordConfig};
use crate::text::is_ws;
use vstd::prelude::*;

verus! {

/// A chat message sent without timestamp or prefix is the message itself
/// when it holds at most 4000 characters; a longer one is cut to its first
/// 3997 characters followed by `...`, exactly 4000 characters in all.
pub proof fn law_chat_message_fits_the_limit(config: ChatToDiscordConfig, message: Seq<char>, now: i64)
    requires
        config.prefix is None,
        config.timestamp_postfix is None,
    ensures
        message.len() <= 4000 ==> formatted_chat_message(config, message, now) == message,
        message.len() > 4000 ==> {
            let r = formatted_chat_message(config, message, now);
            &&& r.len() == 4000
            &&& r.take(3997) == message.take(3997)
            &&& r.skip(3997) == "..."@
        },
{
    reveal_strlit("...");
    if message.len() > 4000 {
        let r = formatted_chat_message(config, message, now);
        assert(r == message.take(3997) + "..."@);
        assert(r.take(3997) =~= message.take(3997));
        assert(r.skip(3997) =~= "..."@);
    } else {
        assert(formatted_chat_message(config, message, now) =~= message);
    }
}

/// A prefix is put before the message with one space, and the message is
/// kept whole while the two fit the limit together.
pub proof fn law_chat_message_prefix(config: ChatToDiscordConfig, message: Seq<char>, now: i64)
    requires
        config.timestamp_postfix is None,
        config.prefix matches Some(p) && p@.len() + 1 + message.len() <= 4000,
    ensures
        formatted_chat_message(config, message, now) == config.prefix->0@ + " "@ + message,
{
    reveal_strlit(" ");
    assert(formatted_chat_message(config, message, now) =~= config.prefix->0@ + " "@ + message);
}

/// The first name tried for a new account is the wanted name itself; every
/// later one starts with it and is longer.
pub proof fn law_username_candidates(base: Seq<char>, attempt: nat)
    ensures
        username_candidate(base, 0) == base,
        attempt > 0 ==> {
            let c = username_candidate(base, attempt);
            &&& c.len() > base.len()
            &&& c.take(base.len() as int) == base
        },
{
    if attempt > 0 {
        let c = username_candidate(base, attempt);
        assert(c.take(base.len() as int) =~= base);
    }
}

/// An avatar link with text is kept as it is; a blank one becomes the
/// default picture.
pub proof fn law_avatar_url(requested: Seq<char>)
    ensures
        (exists|i: int| 0 <= i < requested.len() && !is_ws(#[trigger] requested[i]))
            ==> avatar_url_for(requested) == requested,
        (forall|i: int| 0 <= i < requested.len() ==> is_ws(#[trigger] requested[i]))
            ==> avatar_url_for(requested) == "/public/images/avatar.png"@,
{
}

} // verus!
