//! Inbound-event decoding and classification. A raw frame is decoded into
//! the plain fields the pipeline reads, then classified into a closed set of
//! variants: a chat message with its addressing, a control event, a
//! directory change, or noise.

use vstd::prelude::*;

use crate::json::{json_get, json_as_str};
use crate::runtime_error::{Error, JsonError};
use crate::slack::ChannelType;
use crate::strings::{eq_str, make_mention, mention_spec, starts_with_spec, str_starts_with};
use crate::strings::{trim_char, trim_spec};

verus! {

/// The fields of a wire event the pipeline reads, each as the payload
/// carried it. A directory-change event carries its subject under the same
/// key a chat message uses for its author, so both readings are kept.
#[derive(Debug)]
pub struct RawEvent {
    pub event_type: Option<String>,
    pub channel: Option<String>,
    pub user: Option<String>,
    pub text: Option<String>,
    pub ts: Option<String>,
    /// The identifier of the member a directory-change event speaks of.
    pub changed_user_id: Option<String>,
    /// The display name of that member.
    pub changed_user_name: Option<String>,
}

fn get_str(v: &serde_json::Value, key: &str) -> Option<String> {
    match json_get(v, key) {
        Some(x) => json_as_str(&x),
        None => None,
    }
}

fn get_str2(v: &serde_json::Value, k1: &str, k2: &str) -> Option<String> {
    match json_get(v, k1) {
        Some(x) => match json_get(&x, k2) {
            Some(y) => json_as_str(&y),
            None => None,
        },
        None => None,
    }
}

fn get_str3(v: &serde_json::Value, k1: &str, k2: &str, k3: &str) -> Option<String> {
    match json_get(v, k1) {
        Some(x) => match json_get(&x, k2) {
            Some(y) => match json_get(&y, k3) {
                Some(z) => json_as_str(&z),
                None => None,
            },
            None => None,
        },
        None => None,
    }
}

/// Reads the fields of a decoded frame. The values are whatever the payload
/// held; classification makes sense of them.
pub fn decode_event(v: &serde_json::Value) -> RawEvent {
    RawEvent {
        event_type: get_str(v, "type"),
        channel: get_str(v, "channel"),
        user: get_str(v, "user"),
        text: get_str(v, "text"),
        ts: get_str(v, "ts"),
        changed_user_id: get_str2(v, "user", "id"),
        changed_user_name: get_str3(v, "user", "profile", "display_name_normalized"),
    }
}

/// Decodes one wire frame: well-formed JSON gives the event's fields, and
/// anything else gives nothing.
pub fn decode_frame(text: &str) -> Option<RawEvent> {
    match crate::json::json_parse(text) {
        Some(v) => Some(decode_event(&v)),
        None => None,
    }
}

/// How a chat message is addressed to the bot.
#[derive(Clone, Copy, Debug, PartialEq, Eq, Structural)]
pub enum Addressing {
    /// Sent in a direct message by someone else: command-bearing.
    Direct,
    /// Sent in a monitored channel, opening with the bot's mention:
    /// command-bearing.
    InChannel,
    /// A legitimate chat message the bot is not asked by; it still carries a
    /// timestamp for the watermark.
    NotAddressed,
}

/// A classified inbound event.
#[derive(Debug)]
pub enum InboundEvent {
    ChatMessage { channel: String, author: String, text: String, ts: String, addressed: Addressing },
    Hello,
    Goodbye,
    UserChanged { id: String, name: String },
    UserJoined { id: String, name: String },
    Ignorable,
}

/// Whether the event's type marker, shed of quotes, is `name`.
pub open spec fn has_type(ev: RawEvent, name: Seq<char>) -> bool {
    ev.event_type matches Some(t) && trim_spec(t@, '"') == name
}

/// Whether the fields a direct-message check reads are present.
pub open spec fn dm_fields_present(ev: RawEvent) -> bool {
    ev.event_type is Some && ev.channel is Some && ev.user is Some
}

/// Whether the fields of a whole chat message are present.
pub open spec fn chat_fields_present(ev: RawEvent) -> bool {
    ev.channel is Some && ev.user is Some && ev.text is Some && ev.ts is Some
}

/// Whether the text opens with the bot's mention, after shedding quotes.
pub open spec fn mentions_me_first(text: Seq<char>, my_id: Seq<char>) -> bool {
    starts_with_spec(trim_spec(text, '"'), mention_spec(my_id))
}

/// A direct message by someone else, given that the conversation is of the
/// direct kind.
pub open spec fn is_dm_message(ev: RawEvent, kind: Option<ChannelType>, my_id: Seq<char>) -> bool {
    dm_fields_present(ev) && kind == Some(ChannelType::DirectMessage) && trim_spec(
        ev.event_type->0@,
        '"',
    ) == "message"@ && trim_spec(ev.user->0@, '"') != my_id
}

/// A message by someone else that opens with the bot's mention.
pub open spec fn channel_message_to_me(ev: RawEvent, my_id: Seq<char>) -> bool {
    dm_fields_present(ev) && ev.text is Some && trim_spec(ev.event_type->0@, '"') == "message"@
        && trim_spec(ev.user->0@, '"') != my_id && mentions_me_first(ev.text->0@, my_id)
}

/// The first monitored channel equal to the message's channel, if any.
pub open spec fn first_channel_match(cs: Seq<Seq<char>>, ch: Seq<char>) -> Option<Seq<char>>
    decreases cs.len(),
{
    if cs.len() == 0 {
        None
    } else if cs[0] == ch {
        Some(cs[0])
    } else {
        first_channel_match(cs.drop_first(), ch)
    }
}

/// A message outside a direct conversation whose text does not open with
/// the bot's mention is never command-bearing, whatever else it says; it can
/// at most stand as unaddressed chat, which only moves the watermark.
pub proof fn lemma_no_mention_no_command(
    ev: RawEvent,
    kind: Option<ChannelType>,
    my_id: Seq<char>,
    cs: Seq<Seq<char>>,
)
    requires
        ev.text matches Some(t) && !mentions_me_first(t@, my_id),
        kind != Some(ChannelType::DirectMessage),
    ensures
        chat_class(ev, kind, my_id, cs) != ChatClass::Direct,
        chat_class(ev, kind, my_id, cs) != ChatClass::Addressed,
{
}

/// The channel a command-bearing channel message came through: the message
/// must be addressed to the bot by someone else and sit in a monitored
/// channel.
pub fn channel_of_message_to_me_at_channels(
    ev: &RawEvent,
    my_id: &str,
    channels: &Vec<String>,
) -> (r: Option<String>)
    ensures
        channel_message_to_me(*ev, my_id@) ==> (match r {
            Some(c) => first_channel_match(channels.deep_view(), trim_spec(ev.channel->0@, '"'))
                == Some(c@),
            None => first_channel_match(channels.deep_view(), trim_spec(ev.channel->0@, '"'))
                is None,
        }),
        !channel_message_to_me(*ev, my_id@) ==> r is None,
{
    let t = match &ev.event_type {
        Some(t) => t,
        None => {
            return None;
        },
    };
    let c = match &ev.channel {
        Some(c) => c,
        None => {
            return None;
        },
    };
    let u = match &ev.user {
        Some(u) => u,
        None => {
            return None;
        },
    };
    let x = match &ev.text {
        Some(x) => x,
        None => {
            return None;
        },
    };
    let mention = make_mention(my_id);
    if !eq_str(trim_char(t.as_str(), '"').as_str(), "message") {
        return None;
    }
    if eq_str(trim_char(u.as_str(), '"').as_str(), my_id) {
        return None;
    }
    if !str_starts_with(trim_char(x.as_str(), '"').as_str(), mention.as_str()) {
        return None;
    }
    let ch = trim_char(c.as_str(), '"');
    let ghost dv = channels.deep_view();
    let mut i: usize = 0;
    proof {
        assert(dv.skip(0) =~= dv);
    }
    while i < channels.len()
        invariant
            i <= channels.len(),
            dv == channels.deep_view(),
            channel_message_to_me(*ev, my_id@),
            ch@ == trim_spec(ev.channel->0@, '"'),
            first_channel_match(dv, ch@) == first_channel_match(dv.skip(i as int), ch@),
        decreases channels.len() - i,
    {
        proof {
            assert(dv.skip(i as int)[0] == dv[i as int]);
            assert(dv.skip(i as int).drop_first() =~= dv.skip(i as int + 1));
        }
        if eq_str(ch.as_str(), channels[i].as_str()) {
            let found = channels[i].clone();
            proof {
                assert(found@ == dv[i as int]);
            }
            return Some(found);
        }
        i += 1;
    }
    None
}

/// Whether the message sits in a direct conversation and comes from someone
/// else. The conversation kind is looked up by the driver; a failed lookup
/// is a per-event error.
pub fn is_message_at_dm(ev: &RawEvent, kind: Option<ChannelType>, my_id: &str) -> (r: Result<
    bool,
    Error,
>)
    ensures
        !dm_fields_present(*ev) ==> r == Result::<bool, Error>::Ok(false),
        dm_fields_present(*ev) && kind is None ==> r matches Err(Error::ConversationLookup),
        dm_fields_present(*ev) && kind is Some ==> r == Result::<bool, Error>::Ok(
            is_dm_message(*ev, kind, my_id@),
        ),
{
    let t = match &ev.event_type {
        Some(t) => t,
        None => {
            return Ok(false);
        },
    };
    if ev.channel.is_none() {
        return Ok(false);
    }
    let u = match &ev.user {
        Some(u) => u,
        None => {
            return Ok(false);
        },
    };
    match kind {
        None => Err(Error::ConversationLookup),
        Some(ChannelType::DirectMessage) => Ok(
            eq_str(trim_char(t.as_str(), '"').as_str(), "message") && !eq_str(
                trim_char(u.as_str(), '"').as_str(),
                my_id,
            ),
        ),
        Some(_) => Ok(false),
    }
}

/// How the chat-message rules classify an event, step by step: the kind
/// lookup first, then the direct path, then the monitored-channel path, then
/// mere chatter; whatever lacks its fields is a decoding failure.
#[derive(Clone, Copy, Debug, PartialEq, Eq, Structural)]
pub enum ChatClass {
    LookupFailed,
    MissingField,
    Direct,
    Addressed,
    Unaddressed,
}

pub open spec fn chat_class(
    ev: RawEvent,
    kind: Option<ChannelType>,
    my_id: Seq<char>,
    cs: Seq<Seq<char>>,
) -> ChatClass {
    if dm_fields_present(ev) && kind is None {
        ChatClass::LookupFailed
    } else if is_dm_message(ev, kind, my_id) {
        if ev.text is Some && ev.ts is Some {
            ChatClass::Direct
        } else {
            ChatClass::MissingField
        }
    } else if channel_message_to_me(ev, my_id) && first_channel_match(
        cs,
        trim_spec(ev.channel->0@, '"'),
    ) is Some {
        if ev.ts is Some {
            ChatClass::Addressed
        } else {
            ChatClass::MissingField
        }
    } else if chat_fields_present(ev) {
        ChatClass::Unaddressed
    } else {
        ChatClass::MissingField
    }
}

/// Classifies a decoded event. Control and directory events go by the type
/// marker; a message event is a `ChatMessage` carrying how it addresses the
/// bot. A missing field is the typed decoding failure, never a crash.
pub fn classify(
    ev: &RawEvent,
    kind: Option<ChannelType>,
    my_id: &str,
    channels: &Vec<String>,
) -> (r: Result<InboundEvent, Error>)
    ensures
        ev.event_type is None ==> r matches Err(Error::NonEvent),
        ev.event_type matches Some(t) && trim_spec(t@, '"') == "hello"@ ==> r matches Ok(
            InboundEvent::Hello,
        ),
        ev.event_type matches Some(t) && trim_spec(t@, '"') == "goodbye"@ ==> r matches Ok(
            InboundEvent::Goodbye,
        ),
        ev.event_type matches Some(t) && trim_spec(t@, '"') == "user_change"@ ==> (match (
            ev.changed_user_id,
            ev.changed_user_name,
        ) {
            (Some(i), Some(n)) => r matches Ok(InboundEvent::UserChanged { id, name }) && id == i
                && name == n,
            _ => r matches Err(Error::Json(JsonError::AsStr)),
        }),
        ev.event_type matches Some(t) && trim_spec(t@, '"') == "team_join"@ ==> (match (
            ev.changed_user_id,
            ev.changed_user_name,
        ) {
            (Some(i), Some(n)) => r matches Ok(InboundEvent::UserJoined { id, name }) && id == i
                && name == n,
            _ => r matches Err(Error::Json(JsonError::AsStr)),
        }),
        ev.event_type matches Some(t) && (trim_spec(t@, '"') == "user_typing"@ || trim_spec(
            t@,
            '"',
        ) == "desktop_notification"@) ==> r matches Ok(InboundEvent::Ignorable),
        ev.event_type matches Some(t) && trim_spec(t@, '"') == "message"@ ==> (match chat_class(
            *ev,
            kind,
            my_id@,
            channels.deep_view(),
        ) {
            ChatClass::LookupFailed => r matches Err(Error::ConversationLookup),
            ChatClass::MissingField => r matches Err(Error::Json(JsonError::AsStr)),
            ChatClass::Direct => r matches Ok(
                InboundEvent::ChatMessage { channel, author, text, ts, addressed },
            ) && Some(channel) == ev.channel && Some(author) == ev.user && Some(text) == ev.text
                && Some(ts) == ev.ts && addressed matches Addressing::Direct,
            ChatClass::Addressed => r matches Ok(
                InboundEvent::ChatMessage { channel, author, text, ts, addressed },
            ) && first_channel_match(channels.deep_view(), trim_spec(ev.channel->0@, '"'))
                == Some(channel@) && Some(author) == ev.user && Some(text) == ev.text && Some(ts)
                == ev.ts && addressed matches Addressing::InChannel,
            ChatClass::Unaddressed => r matches Ok(
                InboundEvent::ChatMessage { channel, author, text, ts, addressed },
            ) && Some(channel) == ev.channel && Some(author) == ev.user && Some(text) == ev.text
                && Some(ts) == ev.ts && addressed matches Addressing::NotAddressed,
        }),
        ev.event_type matches Some(t) && !(trim_spec(t@, '"') == "hello"@ || trim_spec(t@, '"')
            == "goodbye"@ || trim_spec(t@, '"') == "user_change"@ || trim_spec(t@, '"')
            == "team_join"@ || trim_spec(t@, '"') == "user_typing"@ || trim_spec(t@, '"')
            == "desktop_notification"@ || trim_spec(t@, '"') == "message"@) ==> r matches Ok(
            InboundEvent::Ignorable,
        ),
{
    proof {
        reveal_strlit("hello");
        reveal_strlit("goodbye");
        reveal_strlit("user_change");
        reveal_strlit("team_join");
        reveal_strlit("user_typing");
        reveal_strlit("desktop_notification");
        reveal_strlit("message");
        assert("hello"@.len() == 5);
        assert("goodbye"@.len() == 7);
        assert("user_change"@.len() == 11);
        assert("team_join"@.len() == 9);
        assert("user_typing"@.len() == 11);
        assert("desktop_notification"@.len() == 20);
        assert("message"@.len() == 7);
        assert("user_change"@[5] == 'c');
        assert("user_typing"@[5] == 't');
        assert("goodbye"@[0] == 'g');
        assert("message"@[0] == 'm');
    }
    let t = match &ev.event_type {
        Some(t) => t,
        None => {
            return Err(Error::NonEvent);
        },
    };
    let tt = trim_char(t.as_str(), '"');
    if eq_str(tt.as_str(), "hello") {
        return Ok(InboundEvent::Hello);
    }
    if eq_str(tt.as_str(), "goodbye") {
        return Ok(InboundEvent::Goodbye);
    }
    if eq_str(tt.as_str(), "user_change") {
        return match (&ev.changed_user_id, &ev.changed_user_name) {
            (Some(i), Some(n)) => Ok(InboundEvent::UserChanged { id: i.clone(), name: n.clone() }),
            _ => Err(Error::Json(JsonError::AsStr)),
        };
    }
    if eq_str(tt.as_str(), "team_join") {
        return match (&ev.changed_user_id, &ev.changed_user_name) {
            (Some(i), Some(n)) => Ok(InboundEvent::UserJoined { id: i.clone(), name: n.clone() }),
            _ => Err(Error::Json(JsonError::AsStr)),
        };
    }
    if eq_str(tt.as_str(), "user_typing") || eq_str(tt.as_str(), "desktop_notification") {
        return Ok(InboundEvent::Ignorable);
    }
    if !eq_str(tt.as_str(), "message") {
        return Ok(InboundEvent::Ignorable);
    }
    let direct = match is_message_at_dm(ev, kind, my_id) {
        Ok(d) => d,
        Err(e) => {
            return Err(e);
        },
    };
    if direct {
        return match (&ev.channel, &ev.user, &ev.text, &ev.ts) {
            (Some(c), Some(u), Some(x), Some(s)) => Ok(
                InboundEvent::ChatMessage {
                    channel: c.clone(),
                    author: u.clone(),
                    text: x.clone(),
                    ts: s.clone(),
                    addressed: Addressing::Direct,
                },
            ),
            _ => Err(Error::Json(JsonError::AsStr)),
        };
    }
    match channel_of_message_to_me_at_channels(ev, my_id, channels) {
        Some(c) => match (&ev.user, &ev.text, &ev.ts) {
            (Some(u), Some(x), Some(s)) => Ok(
                InboundEvent::ChatMessage {
                    channel: c,
                    author: u.clone(),
                    text: x.clone(),
                    ts: s.clone(),
                    addressed: Addressing::InChannel,
                },
            ),
            _ => Err(Error::Json(JsonError::AsStr)),
        },
        None => match (&ev.channel, &ev.user, &ev.text, &ev.ts) {
            (Some(c), Some(u), Some(x), Some(s)) => Ok(
                InboundEvent::ChatMessage {
                    channel: c.clone(),
                    author: u.clone(),
                    text: x.clone(),
                    ts: s.clone(),
                    addressed: Addressing::NotAddressed,
                },
            ),
            _ => Err(Error::Json(JsonError::AsStr)),
        },
    }
}

} // verus!
