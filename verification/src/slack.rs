//! The platform-facing values: conversation kinds, channel records, the
//! outbound calls the dispatcher plans, and the decisions of the paged
//! directory requests. The driver performs each `Effect` against the chat
//! platform's REST interface; the exact body and endpoint of every call are
//! pinned here.

use vstd::prelude::*;

use crate::help::Attachment;
use crate::runtime_error::Error;
use crate::strings::concat3;

verus! {

/// The kind of a conversation, as the platform reports it.
#[derive(Clone, Copy, Debug, PartialEq, Eq, Structural)]
pub enum ChannelType {
    PublicChannel,
    PrivateChannel,
    DirectMessage,
    GroupDirectMessage,
}

pub open spec fn channel_type_name_spec(x: ChannelType) -> Seq<char> {
    match x {
        ChannelType::PublicChannel => "public_channel"@,
        ChannelType::PrivateChannel => "private_channel"@,
        ChannelType::DirectMessage => "im"@,
        ChannelType::GroupDirectMessage => "mpim"@,
    }
}

/// The name the platform's interface uses for each conversation kind.
pub fn get_channel_type_name_for_slack_api(x: ChannelType) -> (r: &'static str)
    ensures
        r@ == channel_type_name_spec(x),
{
    match x {
        ChannelType::PublicChannel => "public_channel",
        ChannelType::PrivateChannel => "private_channel",
        ChannelType::DirectMessage => "im",
        ChannelType::GroupDirectMessage => "mpim",
    }
}

/// The kind a conversation record denotes, from its marker flags, in the
/// order the record is probed: group-direct, public, private, direct. A
/// record carrying none of the markers denotes no conversation.
pub fn channel_type_of_flags(
    is_mpim: Option<bool>,
    is_channel: Option<bool>,
    is_group: Option<bool>,
    is_im: Option<bool>,
) -> (r: Result<ChannelType, Error>)
    ensures
        is_mpim == Some(true) ==> r == Result::<ChannelType, Error>::Ok(
            ChannelType::GroupDirectMessage,
        ),
        is_mpim != Some(true) && is_channel == Some(true) ==> r == Result::<ChannelType, Error>::Ok(
            ChannelType::PublicChannel,
        ),
        is_mpim != Some(true) && is_channel != Some(true) && is_group == Some(true) ==> r
            == Result::<ChannelType, Error>::Ok(ChannelType::PrivateChannel),
        is_mpim != Some(true) && is_channel != Some(true) && is_group != Some(true) && is_im
            == Some(true) ==> r == Result::<ChannelType, Error>::Ok(ChannelType::DirectMessage),
        is_mpim != Some(true) && is_channel != Some(true) && is_group != Some(true) && is_im
            != Some(true) ==> r matches Err(Error::InvalidConversation),
{
    if let Some(true) = is_mpim {
        Ok(ChannelType::GroupDirectMessage)
    } else if let Some(true) = is_channel {
        Ok(ChannelType::PublicChannel)
    } else if let Some(true) = is_group {
        Ok(ChannelType::PrivateChannel)
    } else if let Some(true) = is_im {
        Ok(ChannelType::DirectMessage)
    } else {
        Err(Error::InvalidConversation)
    }
}

/// How many reachability probes startup makes before giving up.
pub const MAX_CONNECT_ATTEMPTS: u64 = 5;

/// The seconds slept between two reachability probes.
pub const CONNECT_RETRY_DELAY_SECS: u64 = 10;

/// What the reachability probe does next.
#[derive(Clone, Copy, Debug, PartialEq, Eq, Structural)]
pub enum RetryAction {
    /// The platform answered: stop probing.
    Stop,
    /// The probe failed with attempts left: sleep and probe again.
    SleepAndRetry,
    /// The last allowed probe failed: give up, which is fatal at startup.
    Fail,
}

/// The bounded-retry policy of the reachability probe: a fixed attempt
/// count with a fixed delay between attempts. `attempt` counts the probes
/// already made, from zero.
pub fn retry_step(attempt: u64, ok: bool) -> (r: RetryAction)
    ensures
        ok ==> r matches RetryAction::Stop,
        !ok && attempt + 1 < MAX_CONNECT_ATTEMPTS ==> r matches RetryAction::SleepAndRetry,
        !ok && attempt + 1 >= MAX_CONNECT_ATTEMPTS ==> r matches RetryAction::Fail,
{
    if ok {
        RetryAction::Stop
    } else if attempt < MAX_CONNECT_ATTEMPTS - 1 {
        RetryAction::SleepAndRetry
    } else {
        RetryAction::Fail
    }
}

fn flag_of(v: &serde_json::Value, key: &str) -> Option<bool> {
    match crate::json::json_get(v, key) {
        Some(x) => crate::json::json_as_bool(&x),
        None => None,
    }
}

/// The kind a conversation record denotes, read from its marker flags.
pub fn channel_type_of_value(conversation: &serde_json::Value) -> (r: Result<ChannelType, Error>) {
    channel_type_of_flags(
        flag_of(conversation, "is_mpim"),
        flag_of(conversation, "is_channel"),
        flag_of(conversation, "is_group"),
        flag_of(conversation, "is_im"),
    )
}

/// A public channel's identifier and name.
#[derive(Debug)]
pub struct Channel {
    pub id: String,
    pub name: String,
}

/// One outbound call the driver must perform against the platform.
#[derive(Debug)]
pub enum Effect {
    /// Post `text` in a channel.
    Post { channel: String, text: String },
    /// Post `text` in the thread under the message at `ts`.
    PostToThread { channel: String, ts: String, text: String },
    /// Show the command reference to one user only.
    PostEphemeralHelp { channel: String, user: String, attachments: Vec<Attachment> },
    /// Mark the message at `ts` with the named reaction.
    React { channel: String, ts: String, name: String },
}

/// Plans posting `text` to `channel`.
pub fn post_message(channel: &str, text: &str) -> (e: Effect)
    ensures
        e matches Effect::Post { channel: c, text: t } && c@ == channel@ && t@ == text@,
{
    Effect::Post { channel: channel.to_owned(), text: text.to_owned() }
}

/// Plans posting `text` in the thread under the message at `ts`.
pub fn post_message_to_thread(channel: &str, ts: &str, text: &str) -> (e: Effect)
    ensures
        e matches Effect::PostToThread { channel: c, ts: t0, text: t } && c@ == channel@ && t0@
            == ts@ && t@ == text@,
{
    Effect::PostToThread { channel: channel.to_owned(), ts: ts.to_owned(), text: text.to_owned() }
}

/// Plans marking the message at `ts` with `reaction`.
pub fn add_reaction(channel: &str, ts: &str, reaction: &str) -> (e: Effect)
    ensures
        e matches Effect::React { channel: c, ts: t0, name: n } && c@ == channel@ && t0@ == ts@
            && n@ == reaction@,
{
    Effect::React { channel: channel.to_owned(), ts: ts.to_owned(), name: reaction.to_owned() }
}

impl Effect {
    /// The string parameters of the call's body. The attachments of the
    /// ephemeral reference travel beside these and are serialized by the
    /// driver.
    pub fn params(&self) -> (r: Vec<(String, String)>)
        ensures
            match self {
                Effect::Post { channel, text } => r@.len() == 3 && r@[0].0@ == "channel"@
                    && r@[0].1 == channel && r@[1].0@ == "text"@ && r@[1].1 == text && r@[2].0@
                    == "as_user"@ && r@[2].1@ == "true"@,
                Effect::PostToThread { channel, ts, text } => r@.len() == 4 && r@[0].0@
                    == "channel"@ && r@[0].1 == channel && r@[1].0@ == "text"@ && r@[1].1 == text
                    && r@[2].0@ == "as_user"@ && r@[2].1@ == "true"@ && r@[3].0@ == "thread_ts"@
                    && r@[3].1 == ts,
                Effect::PostEphemeralHelp { channel, user, .. } => r@.len() == 3 && r@[0].0@
                    == "channel"@ && r@[0].1 == channel && r@[1].0@ == "user"@ && r@[1].1 == user
                    && r@[2].0@ == "as_user"@ && r@[2].1@ == "true"@,
                Effect::React { channel, ts, name } => r@.len() == 3 && r@[0].0@ == "name"@
                    && r@[0].1 == name && r@[1].0@ == "channel"@ && r@[1].1 == channel && r@[2].0@
                    == "timestamp"@ && r@[2].1 == ts,
            },
    {
        match self {
            Effect::Post { channel, text } => {
                let mut r: Vec<(String, String)> = Vec::new();
                r.push(("channel".to_owned(), channel.clone()));
                r.push(("text".to_owned(), text.clone()));
                r.push(("as_user".to_owned(), "true".to_owned()));
                r
            },
            Effect::PostToThread { channel, ts, text } => {
                let mut r: Vec<(String, String)> = Vec::new();
                r.push(("channel".to_owned(), channel.clone()));
                r.push(("text".to_owned(), text.clone()));
                r.push(("as_user".to_owned(), "true".to_owned()));
                r.push(("thread_ts".to_owned(), ts.clone()));
                r
            },
            Effect::PostEphemeralHelp { channel, user, .. } => {
                let mut r: Vec<(String, String)> = Vec::new();
                r.push(("channel".to_owned(), channel.clone()));
                r.push(("user".to_owned(), user.clone()));
                r.push(("as_user".to_owned(), "true".to_owned()));
                r
            },
            Effect::React { channel, ts, name } => {
                let mut r: Vec<(String, String)> = Vec::new();
                r.push(("name".to_owned(), name.clone()));
                r.push(("channel".to_owned(), channel.clone()));
                r.push(("timestamp".to_owned(), ts.clone()));
                r
            },
        }
    }

    /// The endpoint the call goes to.
    pub fn endpoint(&self) -> (r: &'static str)
        ensures
            match self {
                Effect::Post { .. } => r@ == "https://slack.com/api/chat.postMessage"@,
                Effect::PostToThread { .. } => r@ == "https://slack.com/api/chat.postMessage"@,
                Effect::PostEphemeralHelp { .. } => r@ == "https://slack.com/api/chat.postEphemeral"@,
                Effect::React { .. } => r@ == "https://slack.com/api/reactions.add"@,
            },
    {
        match self {
            Effect::Post { .. } => "https://slack.com/api/chat.postMessage",
            Effect::PostToThread { .. } => "https://slack.com/api/chat.postMessage",
            Effect::PostEphemeralHelp { .. } => "https://slack.com/api/chat.postEphemeral",
            Effect::React { .. } => "https://slack.com/api/reactions.add",
        }
    }
}

/// The query of a paged conversations request; the driver serializes it.
#[derive(Debug)]
pub struct UsersConversationsParams<'a> {
    pub token: &'a str,
    pub cursor: Option<&'a str>,
    pub exclude_archive: Option<bool>,
    pub limit: Option<u16>,
    pub team_id: Option<&'a str>,
    pub types: Option<&'a str>,
    pub user: Option<&'a str>,
}

impl<'a> UsersConversationsParams<'a> {
    /// A request with the token alone; every filter is left unset.
    pub fn new(token: &'a str) -> (r: Self)
        ensures
            r.token@ == token@,
            r.cursor is None,
            r.exclude_archive is None,
            r.limit is None,
            r.team_id is None,
            r.types is None,
            r.user is None,
    {
        UsersConversationsParams {
            token,
            cursor: None,
            exclude_archive: None,
            limit: None,
            team_id: None,
            types: None,
            user: None,
        }
    }
}

/// What one page of a conversations listing decides: on a refusal, the
/// typed failure with the platform's own words; on success, the channels of
/// the page and the cursor of the next one, with an empty cursor closing
/// the listing.
pub fn conversations_page_outcome(
    ok: bool,
    channels: Option<Vec<Channel>>,
    next_cursor: Option<String>,
    error: Option<String>,
) -> (r: Result<(Vec<Channel>, Option<String>), Error>)
    requires
        ok ==> channels is Some && next_cursor is Some,
    ensures
        ok && next_cursor->0@.len() == 0 ==> (r matches Ok((cs, n)) && Some(cs) == channels && n
            is None),
        ok && next_cursor->0@.len() > 0 ==> (r matches Ok((cs, n)) && Some(cs) == channels && n
            == next_cursor),
        !ok && error is Some ==> (r matches Err(Error::Api(m)) && m@
            == "API error: users.conversations failed \""@ + error->0@ + "\""@),
        !ok && error is None ==> (r matches Err(Error::Api(m)) && m@
            == "API error: users.conversations failed"@),
{
    if ok {
        let cs = match channels {
            Some(cs) => cs,
            None => {
                proof {
                    assert(false);
                }
                Vec::new()
            },
        };
        let next = match next_cursor {
            Some(n) => n,
            None => {
                proof {
                    assert(false);
                }
                String::new()
            },
        };
        if next.as_str().unicode_len() == 0 {
            Ok((cs, None))
        } else {
            Ok((cs, Some(next)))
        }
    } else {
        let message = match error {
            Some(e) => concat3("API error: users.conversations failed \"", e.as_str(), "\""),
            None => "API error: users.conversations failed".to_owned(),
        };
        Err(Error::Api(message))
    }
}

/// The cursor of the next page of a users listing: an absent or empty
/// cursor closes the listing.
pub fn next_cursor_of(s: Option<String>) -> (r: Option<String>)
    ensures
        match s {
            None => r is None,
            Some(x) => if x@.len() == 0 {
                r is None
            } else {
                r == Some(x)
            },
        },
{
    match s {
        None => None,
        Some(x) => if x.as_str().unicode_len() == 0 {
            None
        } else {
            Some(x)
        },
    }
}

} // verus!
