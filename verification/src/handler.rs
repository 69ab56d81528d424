//! The session state and the dispatch pipeline: the directory cache, the
//! handler owning the watermark, and the planning of every response the bot
//! gives. Each method returns the effects the driver must perform; nothing
//! here touches the network.

use vstd::prelude::*;

use crate::command::{parse, parse_shape, ParsedCommand, effective_tokens};
use crate::events::{chat_class, classify, Addressing, ChatClass, InboundEvent, RawEvent};
use crate::help::{help_message_ok, make_help_message};
use crate::json::json_get;
use crate::linux_user_manage::{create_account, join_group, update_account};
use crate::linux_user_manage::{ProvisionTask, Stage};
use crate::runtime_error::{as_str, Error, JsonError};
use crate::slack::{add_reaction, post_message, post_message_to_thread, Channel, ChannelType,
    Effect};
use crate::strings::{concat2, concat3, eq_str, fill_spec, fill_template, make_mention,
    mention_spec, trim_spec};
use crate::timestamp::{parse_timestamp, spec_parse_ts, wm_fold, wm_le, wm_update, Timestamp};

verus! {

/// One directory entry: a member's identifier and display name.
#[derive(Debug)]
pub struct UserEntry {
    pub id: String,
    pub name: String,
}

/// The members a lookup sees: the latest entry for an identifier wins.
pub open spec fn entries_map(es: Seq<UserEntry>) -> Map<Seq<char>, Seq<char>>
    decreases es.len(),
{
    if es.len() == 0 {
        Map::empty()
    } else {
        entries_map(es.drop_last()).insert(es.last().id@, es.last().name@)
    }
}

/// The in-memory member directory, rebuilt in full on every connect and
/// patched by directory-change events.
#[derive(Debug)]
pub struct Directory {
    entries: Vec<UserEntry>,
}

impl View for Directory {
    type V = Map<Seq<char>, Seq<char>>;

    closed spec fn view(&self) -> Map<Seq<char>, Seq<char>> {
        entries_map(self.entries@)
    }
}

impl Directory {
    /// An empty directory.
    pub fn new() -> (d: Directory)
        ensures
            d@ == Map::<Seq<char>, Seq<char>>::empty(),
    {
        let d = Directory { entries: Vec::new() };
        proof {
            assert(d.entries@.len() == 0);
        }
        d
    }

    /// Records a member's display name, replacing any earlier one.
    pub fn upsert(&mut self, id: String, name: String)
        ensures
            final(self)@ == old(self)@.insert(id@, name@),
    {
        let ghost pre = self.entries@;
        let ghost k = id@;
        let ghost v = name@;
        self.entries.push(UserEntry { id, name });
        proof {
            assert(self.entries@.drop_last() =~= pre);
            assert(self.entries@.last().id@ == k);
            assert(self.entries@.last().name@ == v);
        }
    }

    /// The display name recorded for an identifier, if any.
    pub fn get(&self, id: &str) -> (r: Option<String>)
        ensures
            match r {
                Some(n) => self@.contains_key(id@) && self@[id@] == n@,
                None => !self@.contains_key(id@),
            },
    {
        let ghost es = self.entries@;
        let ghost k = id@;
        let mut i: usize = self.entries.len();
        proof {
            assert(es.take(es.len() as int) =~= es);
        }
        while i > 0
            invariant
                i <= es.len(),
                es == self.entries@,
                k == id@,
                entries_map(es).contains_key(k) == entries_map(es.take(i as int)).contains_key(k),
                entries_map(es).contains_key(k) ==> entries_map(es)[k] == entries_map(
                    es.take(i as int),
                )[k],
            decreases i,
        {
            i -= 1;
            proof {
                assert(es.take(i as int + 1).drop_last() =~= es.take(i as int));
                assert(es.take(i as int + 1).last() == es[i as int]);
            }
            if eq_str(self.entries[i].id.as_str(), id) {
                return Some(self.entries[i].name.clone());
            }
        }
        proof {
            assert(es.take(0) =~= Seq::<UserEntry>::empty());
        }
        None
    }
}

/// The identifier of the last listed channel bearing a name, if any; a later
/// record shadows an earlier one of the same name.
pub open spec fn channel_id_of(cs: Seq<Channel>, name: Seq<char>) -> Option<Seq<char>>
    decreases cs.len(),
{
    if cs.len() == 0 {
        None
    } else if cs.last().name@ == name {
        Some(cs.last().id@)
    } else {
        channel_id_of(cs.drop_last(), name)
    }
}

/// Reads the known host list: one name per line, outer newlines shed, empty
/// inner lines kept. The first entry is the designated responder host.
pub fn parse_host_list(text: &str) -> (r: Vec<String>)
    ensures
        r.deep_view() == crate::strings::split_char_spec(
            crate::strings::trim_spec(text@, '\n'),
            '\n',
        ),
{
    let trimmed = crate::strings::trim_char(text, '\n');
    crate::strings::split_char(trimmed.as_str(), '\n')
}

/// The identifier of the last listed channel bearing `name`, if any.
fn lookup_channel(public_channels: &Vec<Channel>, name: &str) -> (r: Option<String>)
    ensures
        match r {
            Some(id) => channel_id_of(public_channels@, name@) == Some(id@),
            None => channel_id_of(public_channels@, name@) is None,
        },
{
    let ghost cs = public_channels@;
    let mut j: usize = public_channels.len();
    proof {
        assert(cs.take(cs.len() as int) =~= cs);
    }
    while j > 0
        invariant
            j <= cs.len(),
            cs == public_channels@,
            channel_id_of(cs, name@) == channel_id_of(cs.take(j as int), name@),
        decreases j,
    {
        j -= 1;
        proof {
            assert(cs.take(j as int + 1).drop_last() =~= cs.take(j as int));
            assert(cs.take(j as int + 1).last() == cs[j as int]);
        }
        if eq_str(public_channels[j].name.as_str(), name) {
            return Some(public_channels[j].id.clone());
        }
    }
    proof {
        assert(cs.take(0) =~= Seq::<Channel>::empty());
    }
    None
}

/// Resolves each monitored channel name to its public channel identifier;
/// the first name without a channel is the typed failure.
pub fn check_channels(public_channels: &Vec<Channel>, channel_names: &Vec<String>) -> (r: Result<
    Vec<String>,
    Error,
>)
    ensures
        r matches Ok(ids) ==> ids@.len() == channel_names@.len() && (forall|i: int|
            0 <= i < channel_names@.len() ==> channel_id_of(
                public_channels@,
                channel_names.deep_view()[i],
            ) == Some(ids.deep_view()[i])),
        r matches Err(e) ==> (e matches Error::NoChannel(n) && (exists|i: int|
            0 <= i < channel_names@.len() && channel_names.deep_view()[i] == n@ && channel_id_of(
                public_channels@,
                n@,
            ) is None)),
{
    let ghost cs = public_channels@;
    let mut ids: Vec<String> = Vec::new();
    let mut i: usize = 0;
    while i < channel_names.len()
        invariant
            i <= channel_names@.len(),
            cs == public_channels@,
            ids@.len() == i,
            forall|j: int|
                0 <= j < i ==> channel_id_of(cs, channel_names.deep_view()[j]) == Some(
                    ids.deep_view()[j],
                ),
        decreases channel_names@.len() - i,
    {
        let name = &channel_names[i];
        let ghost n = channel_names.deep_view()[i as int];
        proof {
            assert(n == name@);
        }
        match lookup_channel(public_channels, name.as_str()) {
            Some(id) => {
                let ghost pre = ids.deep_view();
                ids.push(id);
                proof {
                    assert(ids.deep_view() =~= pre.push(ids@.last()@));
                }
            },
            None => {
                return Err(Error::NoChannel(name.clone()));
            },
        }
        i += 1;
    }
    Ok(ids)
}

/// The member snapshot a list of id/display-name pairs denotes: each id
/// maps to its display name, a later pair winning over an earlier one.
pub open spec fn pairs_map(ps: Seq<(String, String)>) -> Map<Seq<char>, Seq<char>>
    decreases ps.len(),
{
    if ps.len() == 0 {
        Map::empty()
    } else {
        pairs_map(ps.drop_last()).insert(ps.last().0@, ps.last().1@)
    }
}

/// Builds the member directory from id/display-name pairs: exactly their
/// snapshot, which replaces, never merges into, an earlier one.
pub fn build_directory(pairs: Vec<(String, String)>) -> (d: Directory)
    ensures
        d@ == pairs_map(pairs@),
{
    let mut d = Directory::new();
    let mut i: usize = 0;
    proof {
        assert(pairs@.take(0) =~= Seq::<(String, String)>::empty());
    }
    while i < pairs.len()
        invariant
            i <= pairs@.len(),
            d@ == pairs_map(pairs@.take(i as int)),
        decreases pairs@.len() - i,
    {
        proof {
            assert(pairs@.take(i as int + 1).drop_last() =~= pairs@.take(i as int));
            assert(pairs@.take(i as int + 1).last() == pairs@[i as int]);
        }
        d.upsert(pairs[i].0.clone(), pairs[i].1.clone());
        i += 1;
    }
    proof {
        assert(pairs@.take(pairs@.len() as int) =~= pairs@);
    }
    d
}

/// Reads each member record's identifier and normalized display name, in
/// order; a record lacking either is the typed failure.
pub fn member_pairs(members: &Vec<serde_json::Value>) -> (r: Result<Vec<(String, String)>, Error>)
    ensures
        r matches Err(e) ==> e matches Error::Json(JsonError::AsStr),
{
    let mut pairs: Vec<(String, String)> = Vec::new();
    let mut i: usize = 0;
    while i < members.len()
        decreases members@.len() - i,
    {
        let id = match json_get(&members[i], "id") {
            Some(v) => match as_str(&v) {
                Ok(s) => s,
                Err(e) => {
                    return Err(e);
                },
            },
            None => {
                return Err(Error::Json(JsonError::AsStr));
            },
        };
        let name = match json_get(&members[i], "profile") {
            Some(p) => match json_get(&p, "display_name_normalized") {
                Some(v) => match as_str(&v) {
                    Ok(s) => s,
                    Err(e) => {
                        return Err(e);
                    },
                },
                None => {
                    return Err(Error::Json(JsonError::AsStr));
                },
            },
            None => {
                return Err(Error::Json(JsonError::AsStr));
            },
        };
        pairs.push((id, name));
        i += 1;
    }
    Ok(pairs)
}

/// Builds the member directory from the listed member records: the records'
/// id/display-name pairs are read in order and the directory is their
/// snapshot, a later record winning over an earlier one. A record without
/// either field is the typed failure, and the refresh that asked aborts.
pub fn get_users(members: &Vec<serde_json::Value>) -> (r: Result<Directory, Error>)
    ensures
        r matches Ok(d) ==> (exists|ps: Vec<(String, String)>| d@ == pairs_map(ps@)),
        r matches Err(e) ==> e matches Error::Json(JsonError::AsStr),
{
    match member_pairs(members) {
        Ok(pairs) => {
            let ghost witness = pairs;
            let d = build_directory(pairs);
            proof {
                assert(d@ == pairs_map(witness@));
            }
            Ok(d)
        },
        Err(e) => Err(e),
    }
}

/// Shape of a channel post.
pub open spec fn is_post(e: Effect, channel: Seq<char>, text: Seq<char>) -> bool {
    e matches Effect::Post { channel: c, text: t } && c@ == channel && t@ == text
}

/// Shape of a threaded post.
pub open spec fn is_thread_post(e: Effect, channel: Seq<char>, ts: Seq<char>, text: Seq<char>) -> bool {
    e matches Effect::PostToThread { channel: c, ts: t0, text: t } && c@ == channel && t0@ == ts
        && t@ == text
}

/// Shape of a reaction mark.
pub open spec fn is_react(e: Effect, channel: Seq<char>, ts: Seq<char>, name: Seq<char>) -> bool {
    e matches Effect::React { channel: c, ts: t0, name: n } && c@ == channel && t0@ == ts && n@
        == name
}

/// Shape of the ephemeral command reference, with its content pinned.
pub open spec fn is_ephemeral_help(
    e: Effect,
    channel: Seq<char>,
    user: Seq<char>,
    id: Seq<char>,
    cs: Seq<Seq<char>>,
    uri: Seq<char>,
    hosts: Seq<Seq<char>>,
) -> bool {
    e matches Effect::PostEphemeralHelp { channel: c, user: u, attachments } && c@ == channel && u@
        == user && help_message_ok(attachments@, id, cs, uri, hosts)
}

/// Whether a host name stands in the known host list.
pub open spec fn host_known(hosts: Seq<Seq<char>>, h: Seq<char>) -> bool {
    exists|i: int| 0 <= i < hosts.len() && hosts[i] == h
}

/// An account action waiting for the driver, and where to report its
/// outcome.
#[derive(Debug)]
pub struct PendingAction {
    pub task: ProvisionTask,
    pub user_id: String,
    pub channel: String,
    pub timestamp: String,
    pub info_message: String,
    pub slack_message: String,
}

/// What processing one chat message decides: the replies, at most one
/// account action, and the timestamp for the watermark.
#[derive(Debug)]
pub struct MessageOutcome {
    pub effects: Vec<Effect>,
    pub pending: Option<PendingAction>,
    pub ts: Option<Timestamp>,
}

/// What processing one inbound frame decides. `goodbye` tells the driver to
/// leave the listen loop; a skipped event carries the per-event error to
/// log.
#[derive(Debug)]
pub struct EventOutcome {
    pub effects: Vec<Effect>,
    pub pending: Option<PendingAction>,
    pub goodbye: bool,
    pub skipped: Option<Error>,
}

/// The session's command handler: the configuration of this process, the
/// directory cache and the watermark.
#[derive(Debug)]
pub struct CommandHandler {
    /// Whether this process is the designated responder for error and help
    /// messages: true on the first listed host.
    pub pic_of_response: bool,
    pub api_token: String,
    pub local_host_name: String,
    pub hosts: Vec<String>,
    pub channels: Vec<String>,
    pub users: Directory,
    pub my_id: String,
    pub uri_format: String,
    pub last_timestamp: Option<Timestamp>,
}

/// The configuration fields a dispatch never changes.
pub open spec fn same_config(o: CommandHandler, f: CommandHandler) -> bool {
    f.pic_of_response == o.pic_of_response && f.api_token == o.api_token && f.local_host_name
        == o.local_host_name && f.hosts == o.hosts && f.channels == o.channels && f.my_id
        == o.my_id && f.uri_format == o.uri_format
}

/// The pending action a `create` command leaves: a key probe first, then
/// the account and its keys, reported with the create wording.
pub open spec fn pending_create_ok(
    h: CommandHandler,
    p: PendingAction,
    user_id: Seq<char>,
    name: Seq<char>,
    channel: Seq<char>,
    timestamp: Seq<char>,
) -> bool {
    p.task.stage matches Stage::CheckKeys && p.task.user_name@ == name && p.task.local_host_name@
        == h.local_host_name@ && p.task.uri_format@ == h.uri_format@ && p.task.uid is None
        && p.task.gid is None && p.task.failure is None && p.task.wf() && p.user_id@ == user_id
        && p.channel@ == channel && p.timestamp@ == timestamp && p.info_message@ == name
        + " create account"@ && p.slack_message@ == "creating account is succeeded."@
}

/// The pending action an `update` command leaves.
pub open spec fn pending_update_ok(
    h: CommandHandler,
    p: PendingAction,
    user_id: Seq<char>,
    name: Seq<char>,
    channel: Seq<char>,
    timestamp: Seq<char>,
) -> bool {
    p.task.stage matches Stage::LookupHome && p.task.user_name@ == name && p.task.local_host_name@
        == h.local_host_name@ && p.task.uri_format@ == h.uri_format@ && p.task.failure is None
        && p.task.wf() && p.user_id@ == user_id && p.channel@ == channel && p.timestamp@
        == timestamp && p.info_message@ == name + " update keys"@ && p.slack_message@
        == "updating key is succeeded."@
}

/// The pending action a `join` command leaves.
pub open spec fn pending_join_ok(
    h: CommandHandler,
    p: PendingAction,
    user_id: Seq<char>,
    name: Seq<char>,
    group: Seq<char>,
    channel: Seq<char>,
    timestamp: Seq<char>,
) -> bool {
    p.task.stage matches Stage::CheckUserJoin && p.task.user_name@ == name
        && p.task.local_host_name@ == h.local_host_name@ && p.task.group_name@ == group
        && p.task.failure is None && p.task.wf() && p.user_id@ == user_id && p.channel@ == channel
        && p.timestamp@ == timestamp && p.info_message@ == name + " joined "@ + group + " group."@
        && p.slack_message@ == "joined "@ + group + " group."@
}

/// What `help` answers: nothing unless this process is the designated
/// responder; the reference and, when asked, an acknowledging mark; the
/// typed failure for a requester without a directory entry.
pub open spec fn help_effects_ok(
    h: CommandHandler,
    user_id: Seq<char>,
    channel: Seq<char>,
    timestamp: Seq<char>,
    check: bool,
    r: Result<Vec<Effect>, Error>,
) -> bool {
    if !h.pic_of_response {
        r matches Ok(es) && es@.len() == 0
    } else if !h.users@.contains_key(user_id) {
        r matches Err(Error::UnknownUser(u)) && u@ == user_id
    } else {
        r matches Ok(es) && (if check {
            es@.len() == 2 && is_ephemeral_help(
                es@[0],
                channel,
                user_id,
                h.my_id@,
                h.channels.deep_view(),
                fill_spec(h.uri_format@, h.users@[user_id]),
                h.hosts.deep_view(),
            ) && is_react(es@[1], channel, timestamp, "ballot_box_with_check"@)
        } else {
            es@.len() == 1 && is_ephemeral_help(
                es@[0],
                channel,
                user_id,
                h.my_id@,
                h.channels.deep_view(),
                fill_spec(h.uri_format@, h.users@[user_id]),
                h.hosts.deep_view(),
            )
        })
    }
}

/// What the invalid-command notice answers: the notice, a cross, and the
/// reference, from the designated responder only.
pub open spec fn invalid_seq_effects_ok(
    h: CommandHandler,
    user_id: Seq<char>,
    channel: Seq<char>,
    timestamp: Seq<char>,
    r: Result<Vec<Effect>, Error>,
) -> bool {
    if !h.pic_of_response {
        r matches Ok(es) && es@.len() == 0
    } else if !h.users@.contains_key(user_id) {
        r matches Err(Error::UnknownUser(u)) && u@ == user_id
    } else {
        r matches Ok(es) && es@.len() == 3 && is_post(
            es@[0],
            channel,
            mention_spec(user_id) + " Invalid command sequence."@,
        ) && is_react(es@[1], channel, timestamp, "x"@) && is_ephemeral_help(
            es@[2],
            channel,
            user_id,
            h.my_id@,
            h.channels.deep_view(),
            fill_spec(h.uri_format@, h.users@[user_id]),
            h.hosts.deep_view(),
        )
    }
}

/// The notice text for a missing or unknown host name.
pub open spec fn invalid_host_text(user_id: Seq<char>, hostname: Option<Seq<char>>) -> Seq<char> {
    match hostname {
        None => mention_spec(user_id) + " Invalid hostname."@,
        Some(x) => mention_spec(user_id) + " Invalid hostname '"@ + x + "'."@,
    }
}

/// What the host check answers: whether the named host is this one, and, on
/// a missing or unknown name, the notice with the reference from the
/// designated responder.
pub open spec fn host_check_ok(
    h: CommandHandler,
    user_id: Seq<char>,
    channel: Seq<char>,
    timestamp: Seq<char>,
    hostname: Option<Seq<char>>,
    r: Result<(Vec<Effect>, bool), Error>,
) -> bool {
    let is_local = hostname matches Some(x) && x == h.local_host_name@;
    let flagged = h.pic_of_response && !(hostname matches Some(x) && host_known(
        h.hosts.deep_view(),
        x,
    ));
    if flagged && !h.users@.contains_key(user_id) {
        r matches Err(Error::UnknownUser(u)) && u@ == user_id
    } else {
        r matches Ok((es, b)) && b == is_local && (if flagged {
            es@.len() == 3 && is_post(es@[0], channel, invalid_host_text(user_id, hostname))
                && is_react(es@[1], channel, timestamp, "x"@) && is_ephemeral_help(
                es@[2],
                channel,
                user_id,
                h.my_id@,
                h.channels.deep_view(),
                fill_spec(h.uri_format@, h.users@[user_id]),
                h.hosts.deep_view(),
            )
        } else {
            es@.len() == 0
        })
    }
}

/// What a mutating command answers: the host gate's effects, and, when the
/// named host is this one, the pending action for the requester's display
/// name. A needed display name that the directory lacks is the typed
/// failure.
pub open spec fn create_dispatch_ok(
    h: CommandHandler,
    user_id: Seq<char>,
    channel: Seq<char>,
    timestamp: Seq<char>,
    host: Seq<char>,
    r: Result<(Vec<Effect>, Option<PendingAction>), Error>,
) -> bool {
    let is_local = host == h.local_host_name@;
    let flagged = h.pic_of_response && !host_known(h.hosts.deep_view(), host);
    let has_user = h.users@.contains_key(user_id);
    if (flagged || is_local) && !has_user {
        r matches Err(Error::UnknownUser(u)) && u@ == user_id
    } else {
        r matches Ok((es, p)) && (if flagged {
            es@.len() == 3 && is_post(es@[0], channel, invalid_host_text(user_id, Some(host)))
                && is_react(es@[1], channel, timestamp, "x"@) && is_ephemeral_help(
                es@[2],
                channel,
                user_id,
                h.my_id@,
                h.channels.deep_view(),
                fill_spec(h.uri_format@, h.users@[user_id]),
                h.hosts.deep_view(),
            )
        } else {
            es@.len() == 0
        }) && (if is_local {
            p matches Some(pa) && pending_create_ok(
                h,
                pa,
                user_id,
                h.users@[user_id],
                channel,
                timestamp,
            )
        } else {
            p is None
        })
    }
}

/// As `create_dispatch_ok`, with the update action.
pub open spec fn update_dispatch_ok(
    h: CommandHandler,
    user_id: Seq<char>,
    channel: Seq<char>,
    timestamp: Seq<char>,
    host: Seq<char>,
    r: Result<(Vec<Effect>, Option<PendingAction>), Error>,
) -> bool {
    let is_local = host == h.local_host_name@;
    let flagged = h.pic_of_response && !host_known(h.hosts.deep_view(), host);
    let has_user = h.users@.contains_key(user_id);
    if (flagged || is_local) && !has_user {
        r matches Err(Error::UnknownUser(u)) && u@ == user_id
    } else {
        r matches Ok((es, p)) && (if flagged {
            es@.len() == 3 && is_post(es@[0], channel, invalid_host_text(user_id, Some(host)))
                && is_react(es@[1], channel, timestamp, "x"@) && is_ephemeral_help(
                es@[2],
                channel,
                user_id,
                h.my_id@,
                h.channels.deep_view(),
                fill_spec(h.uri_format@, h.users@[user_id]),
                h.hosts.deep_view(),
            )
        } else {
            es@.len() == 0
        }) && (if is_local {
            p matches Some(pa) && pending_update_ok(
                h,
                pa,
                user_id,
                h.users@[user_id],
                channel,
                timestamp,
            )
        } else {
            p is None
        })
    }
}

/// As `create_dispatch_ok`, with the join action on the named group.
pub open spec fn join_dispatch_ok(
    h: CommandHandler,
    user_id: Seq<char>,
    channel: Seq<char>,
    timestamp: Seq<char>,
    group: Seq<char>,
    host: Seq<char>,
    r: Result<(Vec<Effect>, Option<PendingAction>), Error>,
) -> bool {
    let is_local = host == h.local_host_name@;
    let flagged = h.pic_of_response && !host_known(h.hosts.deep_view(), host);
    let has_user = h.users@.contains_key(user_id);
    if (flagged || is_local) && !has_user {
        r matches Err(Error::UnknownUser(u)) && u@ == user_id
    } else {
        r matches Ok((es, p)) && (if flagged {
            es@.len() == 3 && is_post(es@[0], channel, invalid_host_text(user_id, Some(host)))
                && is_react(es@[1], channel, timestamp, "x"@) && is_ephemeral_help(
                es@[2],
                channel,
                user_id,
                h.my_id@,
                h.channels.deep_view(),
                fill_spec(h.uri_format@, h.users@[user_id]),
                h.hosts.deep_view(),
            )
        } else {
            es@.len() == 0
        }) && (if is_local {
            p matches Some(pa) && pending_join_ok(
                h,
                pa,
                user_id,
                h.users@[user_id],
                group,
                channel,
                timestamp,
            )
        } else {
            p is None
        })
    }
}

/// What dispatching each command variant answers.
pub open spec fn dispatch_ok(
    h: CommandHandler,
    c: ParsedCommand,
    user_id: Seq<char>,
    channel: Seq<char>,
    timestamp: Seq<char>,
    r: Result<(Vec<Effect>, Option<PendingAction>), Error>,
) -> bool {
    match c {
        ParsedCommand::Help => match r {
            Ok((es, p)) => p is None && help_effects_ok(
                h,
                user_id,
                channel,
                timestamp,
                true,
                Result::<Vec<Effect>, Error>::Ok(es),
            ),
            Err(e) => help_effects_ok(
                h,
                user_id,
                channel,
                timestamp,
                true,
                Result::<Vec<Effect>, Error>::Err(e),
            ),
        },
        ParsedCommand::Ping => r matches Ok((es, p)) && p is None && es@.len() == 1
            && is_thread_post(es@[0], channel, timestamp, "pong@"@ + h.local_host_name@),
        ParsedCommand::Create { host } => create_dispatch_ok(
            h,
            user_id,
            channel,
            timestamp,
            host@,
            r,
        ),
        ParsedCommand::Update { host } => update_dispatch_ok(
            h,
            user_id,
            channel,
            timestamp,
            host@,
            r,
        ),
        ParsedCommand::Join { group, host } => join_dispatch_ok(
            h,
            user_id,
            channel,
            timestamp,
            group@,
            host@,
            r,
        ),
        ParsedCommand::Invalid => match r {
            Ok((es, p)) => p is None && invalid_seq_effects_ok(
                h,
                user_id,
                channel,
                timestamp,
                Result::<Vec<Effect>, Error>::Ok(es),
            ),
            Err(e) => invalid_seq_effects_ok(
                h,
                user_id,
                channel,
                timestamp,
                Result::<Vec<Effect>, Error>::Err(e),
            ),
        },
    }
}

/// What processing the text of one command-bearing message answers: the
/// parsed command dispatched, and the message's own timestamp for the
/// watermark; a dispatch failure or an unreadable timestamp is the typed
/// failure.
pub open spec fn command_outcome_ok(
    h: CommandHandler,
    is_direct: bool,
    channel: Seq<char>,
    user_id: Seq<char>,
    text: Seq<char>,
    timestamp: Seq<char>,
    r: Result<MessageOutcome, Error>,
) -> bool {
    match r {
        Ok(o) => (exists|c: ParsedCommand, es: Vec<Effect>, p: Option<PendingAction>|
            parse_shape(effective_tokens(text, is_direct, h.my_id@), is_direct, c) && dispatch_ok(
                h,
                c,
                user_id,
                channel,
                timestamp,
                Result::<(Vec<Effect>, Option<PendingAction>), Error>::Ok((es, p)),
            ) && o.effects == es && o.pending == p) && spec_parse_ts(timestamp) is Some && o.ts
            == spec_parse_ts(timestamp),
        Err(e) => (exists|c: ParsedCommand|
            parse_shape(effective_tokens(text, is_direct, h.my_id@), is_direct, c) && dispatch_ok(
                h,
                c,
                user_id,
                channel,
                timestamp,
                Result::<(Vec<Effect>, Option<PendingAction>), Error>::Err(e),
            )) || (e matches Error::BadTimestamp && spec_parse_ts(timestamp) is None),
    }
}

/// Whether `h` stands in the host list.
fn contains_host(hosts: &Vec<String>, h: &str) -> (r: bool)
    ensures
        r == host_known(hosts.deep_view(), h@),
{
    let ghost dv = hosts.deep_view();
    let mut i: usize = 0;
    while i < hosts.len()
        invariant
            i <= dv.len(),
            dv == hosts.deep_view(),
            forall|j: int| 0 <= j < i ==> dv[j] != h@,
        decreases dv.len() - i,
    {
        if eq_str(hosts[i].as_str(), h) {
            proof {
                assert(dv[i as int] == h@);
            }
            return true;
        }
        i += 1;
    }
    false
}

impl CommandHandler {
    /// Announces this process in every monitored channel.
    pub fn report_startup(&self) -> (r: Vec<Effect>)
        ensures
            r@.len() == self.channels@.len(),
            forall|i: int|
                0 <= i < r@.len() ==> is_post(
                    #[trigger] r@[i],
                    self.channels.deep_view()[i],
                    "Hello, this is sacana@"@ + self.local_host_name@ + "."@,
                ),
    {
        let mut text = concat2("Hello, this is sacana@", self.local_host_name.as_str());
        text.append(".");
        let mut r: Vec<Effect> = Vec::new();
        let mut i: usize = 0;
        while i < self.channels.len()
            invariant
                i <= self.channels@.len(),
                text@ == "Hello, this is sacana@"@ + self.local_host_name@ + "."@,
                r@.len() == i,
                forall|j: int|
                    0 <= j < i ==> is_post(
                        #[trigger] r@[j],
                        self.channels.deep_view()[j],
                        "Hello, this is sacana@"@ + self.local_host_name@ + "."@,
                    ),
            decreases self.channels@.len() - i,
        {
            r.push(post_message(self.channels[i].as_str(), text.as_str()));
            i += 1;
        }
        r
    }

    /// Answers a ping in-thread with the local liveness token. Every process
    /// answers, whatever its responder flag.
    pub fn ping(&self, channel: &str, timestamp: &str) -> (e: Effect)
        ensures
            is_thread_post(e, channel@, timestamp@, "pong@"@ + self.local_host_name@),
    {
        let text = concat2("pong@", self.local_host_name.as_str());
        post_message_to_thread(channel, timestamp, text.as_str())
    }

    /// Moves the watermark forward to a processed event's timestamp; an
    /// earlier or absent timestamp leaves it untouched.
    pub fn update_timestamp(&mut self, timestamp: Option<Timestamp>)
        ensures
            final(self).last_timestamp == wm_update(old(self).last_timestamp, timestamp),
            same_config(*old(self), *final(self)),
            final(self).users == old(self).users,
            final(self).api_token == old(self).api_token,
    {
        if let Some(x) = timestamp {
            let mut flag = false;
            match &self.last_timestamp {
                Some(sx) => {
                    if crate::timestamp::ts_before(sx, &x) {
                        flag = true;
                    }
                },
                None => {
                    flag = true;
                },
            }
            if flag {
                self.last_timestamp = Some(x);
            }
        }
    }

    /// Folds a batch of catch-up timestamps into the watermark, one channel
    /// after the other.
    pub fn absorb_timestamps(&mut self, timestamps: Vec<Option<Timestamp>>)
        ensures
            final(self).last_timestamp == wm_fold(old(self).last_timestamp, timestamps@),
            same_config(*old(self), *final(self)),
            final(self).users == old(self).users,
    {
        let ghost all = timestamps@;
        let ghost w0 = self.last_timestamp;
        let mut i: usize = 0;
        proof {
            assert(all.skip(0) =~= all);
        }
        while i < timestamps.len()
            invariant
                i <= all.len(),
                all == timestamps@,
                wm_fold(w0, all) == wm_fold(self.last_timestamp, all.skip(i as int)),
                same_config(*old(self), *self),
                self.users == old(self).users,
            decreases all.len() - i,
        {
            proof {
                assert(all.skip(i as int)[0] == all[i as int]);
                assert(all.skip(i as int).drop_first() =~= all.skip(i as int + 1));
            }
            self.update_timestamp(timestamps[i]);
            i += 1;
        }
    }

    /// Reports a finished account action to the requester: the failure's own
    /// words with a cross, or the success wording with a circle.
    pub fn handle_command_result(
        &self,
        user_id: &str,
        channel: &str,
        timestamp: &str,
        result: Result<(), Error>,
        info_message: &str,
        slack_message: &str,
    ) -> (r: Vec<Effect>)
        ensures
            result matches Err(e) ==> r@.len() == 2 && is_post(
                r@[0],
                channel@,
                mention_spec(user_id@) + " "@ + e.spec_message(),
            ) && is_react(r@[1], channel@, timestamp@, "x"@),
            result is Ok ==> r@.len() == 2 && is_post(
                r@[0],
                channel@,
                mention_spec(user_id@) + " "@ + slack_message@,
            ) && is_react(r@[1], channel@, timestamp@, "o"@),
    {
        let _ = info_message;
        let mention = make_mention(user_id);
        let mut r: Vec<Effect> = Vec::new();
        match result {
            Err(e) => {
                let mut text = concat2(mention.as_str(), " ");
                text.append(e.message().as_str());
                r.push(post_message(channel, text.as_str()));
                r.push(add_reaction(channel, timestamp, "x"));
            },
            Ok(_) => {
                let mut text = concat2(mention.as_str(), " ");
                text.append(slack_message);
                r.push(post_message(channel, text.as_str()));
                r.push(add_reaction(channel, timestamp, "o"));
            },
        }
        r
    }

    /// Plans creating an account for a requester on the local host.
    pub fn create(&self, user_id: &str, user_name: &str, channel: &str, timestamp: &str) -> (p:
        PendingAction)
        ensures
            pending_create_ok(*self, p, user_id@, user_name@, channel@, timestamp@),
    {
        PendingAction {
            task: create_account(
                user_name,
                self.local_host_name.as_str(),
                self.uri_format.as_str(),
                None,
                None,
            ),
            user_id: user_id.to_owned(),
            channel: channel.to_owned(),
            timestamp: timestamp.to_owned(),
            info_message: concat2(user_name, " create account"),
            slack_message: "creating account is succeeded.".to_owned(),
        }
    }

    /// Plans refreshing a requester's authorized keys on the local host.
    pub fn update(&self, user_id: &str, user_name: &str, channel: &str, timestamp: &str) -> (p:
        PendingAction)
        ensures
            pending_update_ok(*self, p, user_id@, user_name@, channel@, timestamp@),
    {
        PendingAction {
            task: update_account(
                user_name,
                self.local_host_name.as_str(),
                self.uri_format.as_str(),
            ),
            user_id: user_id.to_owned(),
            channel: channel.to_owned(),
            timestamp: timestamp.to_owned(),
            info_message: concat2(user_name, " update keys"),
            slack_message: "updating key is succeeded.".to_owned(),
        }
    }

    /// Shows the command reference to the requester alone, with an optional
    /// acknowledging mark. Only the designated responder answers; a
    /// requester without a directory entry is the typed failure.
    pub fn help(&self, user_id: &str, channel: &str, timestamp: &str, check: bool) -> (r: Result<
        Vec<Effect>,
        Error,
    >)
        ensures
            help_effects_ok(*self, user_id@, channel@, timestamp@, check, r),
    {
        if !self.pic_of_response {
            return Ok(Vec::new());
        }
        let name = match self.users.get(user_id) {
            Some(n) => n,
            None => {
                return Err(Error::UnknownUser(user_id.to_owned()));
            },
        };
        let uri = fill_template(self.uri_format.as_str(), name.as_str());
        let atts = make_help_message(self.my_id.as_str(), &self.channels, uri.as_str(), &self.hosts);
        let mut es: Vec<Effect> = Vec::new();
        es.push(
            Effect::PostEphemeralHelp {
                channel: channel.to_owned(),
                user: user_id.to_owned(),
                attachments: atts,
            },
        );
        if check {
            es.push(add_reaction(channel, timestamp, "ballot_box_with_check"));
        }
        Ok(es)
    }

    /// Rejects an unparseable command: a notice, a cross, and the reference
    /// replayed, when this process is the designated responder.
    pub fn invalid_command_sequence(&self, user_id: &str, channel: &str, timestamp: &str) -> (r:
        Result<Vec<Effect>, Error>)
        ensures
            invalid_seq_effects_ok(*self, user_id@, channel@, timestamp@, r),
    {
        if !self.pic_of_response {
            return Ok(Vec::new());
        }
        let mention = make_mention(user_id);
        let text = concat2(mention.as_str(), " Invalid command sequence.");
        let mut es: Vec<Effect> = Vec::new();
        es.push(post_message(channel, text.as_str()));
        es.push(add_reaction(channel, timestamp, "x"));
        match self.help(user_id, channel, timestamp, false) {
            Ok(mut hs) => {
                es.append(&mut hs);
            },
            Err(e) => {
                return Err(e);
            },
        }
        Ok(es)
    }

    /// Validates the host a command names, telling the requester about an
    /// unknown one, and says whether the named host is this one. The answer
    /// does not depend on the validation: only the local host acts.
    pub fn check_host_name(
        &self,
        user_id: &str,
        channel: &str,
        timestamp: &str,
        hostname: Option<&String>,
    ) -> (r: Result<(Vec<Effect>, bool), Error>)
        ensures
            host_check_ok(
                *self,
                user_id@,
                channel@,
                timestamp@,
                match hostname {
                    Some(h) => Some(h@),
                    None => None,
                },
                r,
            ),
    {
        let is_local = match hostname {
            Some(h) => eq_str(h.as_str(), self.local_host_name.as_str()),
            None => false,
        };
        let mut es: Vec<Effect> = Vec::new();
        if self.pic_of_response {
            let flagged = match hostname {
                Some(h) => !contains_host(&self.hosts, h.as_str()),
                None => true,
            };
            if flagged {
                let mention = make_mention(user_id);
                let text = match hostname {
                    None => concat2(mention.as_str(), " Invalid hostname."),
                    Some(h) => {
                        let mut t = concat3(mention.as_str(), " Invalid hostname '", h.as_str());
                        t.append("'.");
                        t
                    },
                };
                es.push(post_message(channel, text.as_str()));
                es.push(add_reaction(channel, timestamp, "x"));
                match self.help(user_id, channel, timestamp, false) {
                    Ok(mut hs) => {
                        es.append(&mut hs);
                    },
                    Err(e) => {
                        return Err(e);
                    },
                }
            }
        }
        Ok((es, is_local))
    }

    /// Executes a parsed command: the reference, a liveness answer, an
    /// account action behind the host gate, or the invalid-command notice.
    pub fn dispatch_command(
        &self,
        c: &ParsedCommand,
        user_id: &str,
        channel: &str,
        timestamp: &str,
    ) -> (r: Result<(Vec<Effect>, Option<PendingAction>), Error>)
        ensures
            dispatch_ok(*self, *c, user_id@, channel@, timestamp@, r),
    {
        match c {
            ParsedCommand::Help => match self.help(user_id, channel, timestamp, true) {
                Ok(es) => Ok((es, None)),
                Err(e) => Err(e),
            },
            ParsedCommand::Ping => {
                let mut es: Vec<Effect> = Vec::new();
                es.push(self.ping(channel, timestamp));
                Ok((es, None))
            },
            ParsedCommand::Create { host } => {
                let (es, on_me) = match self.check_host_name(
                    user_id,
                    channel,
                    timestamp,
                    Some(host),
                ) {
                    Ok(x) => x,
                    Err(e) => {
                        return Err(e);
                    },
                };
                if on_me {
                    let name = match self.users.get(user_id) {
                        Some(n) => n,
                        None => {
                            return Err(Error::UnknownUser(user_id.to_owned()));
                        },
                    };
                    Ok((es, Some(self.create(user_id, name.as_str(), channel, timestamp))))
                } else {
                    Ok((es, None))
                }
            },
            ParsedCommand::Update { host } => {
                let (es, on_me) = match self.check_host_name(
                    user_id,
                    channel,
                    timestamp,
                    Some(host),
                ) {
                    Ok(x) => x,
                    Err(e) => {
                        return Err(e);
                    },
                };
                if on_me {
                    let name = match self.users.get(user_id) {
                        Some(n) => n,
                        None => {
                            return Err(Error::UnknownUser(user_id.to_owned()));
                        },
                    };
                    Ok((es, Some(self.update(user_id, name.as_str(), channel, timestamp))))
                } else {
                    Ok((es, None))
                }
            },
            ParsedCommand::Join { group, host } => {
                let (es, on_me) = match self.check_host_name(
                    user_id,
                    channel,
                    timestamp,
                    Some(host),
                ) {
                    Ok(x) => x,
                    Err(e) => {
                        return Err(e);
                    },
                };
                if on_me {
                    let name = match self.users.get(user_id) {
                        Some(n) => n,
                        None => {
                            return Err(Error::UnknownUser(user_id.to_owned()));
                        },
                    };
                    Ok(
                        (
                            es,
                            Some(
                                self.join(
                                    user_id,
                                    name.as_str(),
                                    channel,
                                    timestamp,
                                    group.as_str(),
                                ),
                            ),
                        ),
                    )
                } else {
                    Ok((es, None))
                }
            },
            ParsedCommand::Invalid => match self.invalid_command_sequence(
                user_id,
                channel,
                timestamp,
            ) {
                Ok(es) => Ok((es, None)),
                Err(e) => Err(e),
            },
        }
    }

    /// Parses and dispatches one command-bearing message, and reads its
    /// timestamp for the watermark.
    fn run_command(
        &self,
        is_direct: bool,
        channel: &str,
        user_id: &str,
        text: &str,
        timestamp: &str,
    ) -> (r: Result<MessageOutcome, Error>)
        ensures
            command_outcome_ok(*self, is_direct, channel@, user_id@, text@, timestamp@, r),
    {
        let cmd = parse(text, is_direct, self.my_id.as_str());
        match self.dispatch_command(&cmd, user_id, channel, timestamp) {
            Err(e) => {
                proof {
                    assert(parse_shape(
                        effective_tokens(text@, is_direct, self.my_id@),
                        is_direct,
                        cmd,
                    ) && dispatch_ok(
                        *self,
                        cmd,
                        user_id@,
                        channel@,
                        timestamp@,
                        Result::<(Vec<Effect>, Option<PendingAction>), Error>::Err(e),
                    ));
                }
                Err(e)
            },
            Ok((es, p)) => {
                let ghost ges = es;
                let ghost gp = p;
                match parse_timestamp(timestamp) {
                    None => Err(Error::BadTimestamp),
                    Some(t) => {
                        let o = MessageOutcome { effects: es, pending: p, ts: Some(t) };
                        proof {
                            assert(parse_shape(
                                effective_tokens(text@, is_direct, self.my_id@),
                                is_direct,
                                cmd,
                            ) && dispatch_ok(
                                *self,
                                cmd,
                                user_id@,
                                channel@,
                                timestamp@,
                                Result::<(Vec<Effect>, Option<PendingAction>), Error>::Ok(
                                    (ges, gp),
                                ),
                            ) && o.effects == ges && o.pending == gp);
                        }
                        Ok(o)
                    },
                }
            },
        }
    }

    /// Processes a command-bearing direct message.
    pub fn dm(&self, channel: &str, user_id: &str, text: &str, timestamp: &str) -> (r: Result<
        MessageOutcome,
        Error,
    >)
        ensures
            command_outcome_ok(*self, true, channel@, user_id@, text@, timestamp@, r),
    {
        self.run_command(true, channel, user_id, text, timestamp)
    }

    /// Processes one inbound frame's chat content: a direct or channel
    /// command is dispatched, other chat moves only the watermark, and
    /// everything that is no chat message is left to `handle_events`.
    pub fn message(&self, ev: &RawEvent, kind: Option<ChannelType>) -> (r: Result<
        MessageOutcome,
        Error,
    >)
        ensures
            !crate::events::has_type(*ev, "message"@) ==> (r matches Ok(o) && o.effects@.len() == 0
                && o.pending is None && o.ts is None),
            crate::events::has_type(*ev, "message"@) ==> (match chat_class(
                *ev,
                kind,
                self.my_id@,
                self.channels.deep_view(),
            ) {
                ChatClass::LookupFailed => r matches Err(Error::ConversationLookup),
                ChatClass::MissingField => r matches Err(Error::Json(JsonError::AsStr)),
                ChatClass::Direct => command_outcome_ok(
                    *self,
                    true,
                    ev.channel->0@,
                    ev.user->0@,
                    ev.text->0@,
                    ev.ts->0@,
                    r,
                ),
                ChatClass::Addressed => command_outcome_ok(
                    *self,
                    false,
                    crate::events::first_channel_match(
                        self.channels.deep_view(),
                        trim_spec(ev.channel->0@, '"'),
                    )->0,
                    ev.user->0@,
                    ev.text->0@,
                    ev.ts->0@,
                    r,
                ),
                ChatClass::Unaddressed => (match spec_parse_ts(ev.ts->0@) {
                    Some(t) => r matches Ok(o) && o.effects@.len() == 0 && o.pending is None
                        && o.ts == Some(t),
                    None => r matches Err(Error::BadTimestamp),
                }),
            }),
    {
        match &ev.event_type {
            None => {
                return Ok(MessageOutcome { effects: Vec::new(), pending: None, ts: None });
            },
            Some(t) => {
                if !eq_str(crate::strings::trim_char(t.as_str(), '"').as_str(), "message") {
                    return Ok(MessageOutcome { effects: Vec::new(), pending: None, ts: None });
                }
            },
        }
        let classified = match classify(ev, kind, self.my_id.as_str(), &self.channels) {
            Ok(c) => c,
            Err(e) => {
                return Err(e);
            },
        };
        match classified {
            InboundEvent::ChatMessage { channel, author, text, ts, addressed } => match addressed {
                Addressing::Direct => self.run_command(
                    true,
                    channel.as_str(),
                    author.as_str(),
                    text.as_str(),
                    ts.as_str(),
                ),
                Addressing::InChannel => self.run_command(
                    false,
                    channel.as_str(),
                    author.as_str(),
                    text.as_str(),
                    ts.as_str(),
                ),
                Addressing::NotAddressed => match parse_timestamp(ts.as_str()) {
                    Some(t) => Ok(
                        MessageOutcome { effects: Vec::new(), pending: None, ts: Some(t) },
                    ),
                    None => Err(Error::BadTimestamp),
                },
            },
            _ => {
                proof {
                    assert(false);
                }
                Ok(MessageOutcome { effects: Vec::new(), pending: None, ts: None })
            },
        }
    }

    /// Applies a classified control or directory event: directory changes
    /// patch the cache, the session-termination marker ends the listen loop,
    /// and chat messages are left for `message`.
    pub fn handle_events(&mut self, ev: &InboundEvent) -> (r: Result<bool, Error>)
        ensures
            same_config(*old(self), *final(self)),
            final(self).last_timestamp == old(self).last_timestamp,
            match ev {
                InboundEvent::UserChanged { id, name } => r == Result::<bool, Error>::Ok(true)
                    && final(self).users@ == old(self).users@.insert(id@, name@),
                InboundEvent::UserJoined { id, name } => r == Result::<bool, Error>::Ok(true)
                    && final(self).users@ == old(self).users@.insert(id@, name@),
                InboundEvent::Goodbye => (r matches Err(Error::CaughtGoodBye)) && final(self).users
                    == old(self).users,
                InboundEvent::ChatMessage { .. } => r == Result::<bool, Error>::Ok(false)
                    && final(self).users == old(self).users,
                _ => r == Result::<bool, Error>::Ok(true) && final(self).users == old(self).users,
            },
    {
        match ev {
            InboundEvent::Hello => Ok(true),
            InboundEvent::Goodbye => Err(Error::CaughtGoodBye),
            InboundEvent::UserChanged { id, name } => {
                self.users.upsert(id.clone(), name.clone());
                Ok(true)
            },
            InboundEvent::UserJoined { id, name } => {
                self.users.upsert(id.clone(), name.clone());
                Ok(true)
            },
            InboundEvent::Ignorable => Ok(true),
            InboundEvent::ChatMessage { .. } => Ok(false),
        }
    }

    /// Processes one inbound frame end to end: classification, directory
    /// upkeep, dispatch, and the watermark. Per-event failures are carried
    /// out as `skipped` for the driver to log; only the termination marker
    /// sets `goodbye`.
    pub fn on_event(&mut self, ev: &RawEvent, kind: Option<ChannelType>) -> (r: EventOutcome)
        ensures
            same_config(*old(self), *final(self)),
            wm_le(old(self).last_timestamp, final(self).last_timestamp),
            r.goodbye == crate::events::has_type(*ev, "goodbye"@),
            r.skipped is Some ==> r.effects@.len() == 0 && r.pending is None
                && final(self).last_timestamp == old(self).last_timestamp
                && final(self).users@ == old(self).users@,
            ev.event_type is None ==> r.skipped matches Some(Error::NonEvent),
            (crate::events::has_type(*ev, "user_change"@) || crate::events::has_type(
                *ev,
                "team_join"@,
            )) ==> (match (ev.changed_user_id, ev.changed_user_name) {
                (Some(i), Some(n)) => r.skipped is None && r.effects@.len() == 0 && r.pending
                    is None && final(self).users@ == old(self).users@.insert(i@, n@)
                    && final(self).last_timestamp == old(self).last_timestamp,
                _ => r.skipped matches Some(Error::Json(JsonError::AsStr)),
            }),
            crate::events::has_type(*ev, "message"@) ==> final(self).users@ == old(self).users@
                && (match chat_class(*ev, kind, old(self).my_id@, old(self).channels.deep_view()) {
                ChatClass::LookupFailed => r.skipped matches Some(Error::ConversationLookup),
                ChatClass::MissingField => r.skipped matches Some(Error::Json(JsonError::AsStr)),
                ChatClass::Direct => (match r.skipped {
                    None => final(self).last_timestamp == wm_update(
                        old(self).last_timestamp,
                        spec_parse_ts(ev.ts->0@),
                    ) && (exists|c: ParsedCommand, es: Vec<Effect>, p: Option<PendingAction>|
                        parse_shape(
                            effective_tokens(ev.text->0@, true, old(self).my_id@),
                            true,
                            c,
                        ) && dispatch_ok(
                            *old(self),
                            c,
                            ev.user->0@,
                            ev.channel->0@,
                            ev.ts->0@,
                            Result::<(Vec<Effect>, Option<PendingAction>), Error>::Ok((es, p)),
                        ) && r.effects == es && r.pending == p),
                    Some(e) => (exists|c: ParsedCommand|
                        parse_shape(
                            effective_tokens(ev.text->0@, true, old(self).my_id@),
                            true,
                            c,
                        ) && dispatch_ok(
                            *old(self),
                            c,
                            ev.user->0@,
                            ev.channel->0@,
                            ev.ts->0@,
                            Result::<(Vec<Effect>, Option<PendingAction>), Error>::Err(e),
                        )) || (e matches Error::BadTimestamp && spec_parse_ts(ev.ts->0@) is None),
                }),
                ChatClass::Addressed => (match r.skipped {
                    None => final(self).last_timestamp == wm_update(
                        old(self).last_timestamp,
                        spec_parse_ts(ev.ts->0@),
                    ) && (exists|c: ParsedCommand, es: Vec<Effect>, p: Option<PendingAction>|
                        parse_shape(
                            effective_tokens(ev.text->0@, false, old(self).my_id@),
                            false,
                            c,
                        ) && dispatch_ok(
                            *old(self),
                            c,
                            ev.user->0@,
                            crate::events::first_channel_match(
                                old(self).channels.deep_view(),
                                trim_spec(ev.channel->0@, '"'),
                            )->0,
                            ev.ts->0@,
                            Result::<(Vec<Effect>, Option<PendingAction>), Error>::Ok((es, p)),
                        ) && r.effects == es && r.pending == p),
                    Some(e) => (exists|c: ParsedCommand|
                        parse_shape(
                            effective_tokens(ev.text->0@, false, old(self).my_id@),
                            false,
                            c,
                        ) && dispatch_ok(
                            *old(self),
                            c,
                            ev.user->0@,
                            crate::events::first_channel_match(
                                old(self).channels.deep_view(),
                                trim_spec(ev.channel->0@, '"'),
                            )->0,
                            ev.ts->0@,
                            Result::<(Vec<Effect>, Option<PendingAction>), Error>::Err(e),
                        )) || (e matches Error::BadTimestamp && spec_parse_ts(ev.ts->0@) is None),
                }),
                ChatClass::Unaddressed => (match spec_parse_ts(ev.ts->0@) {
                    Some(_) => r.skipped is None && r.effects@.len() == 0 && r.pending is None
                        && final(self).last_timestamp == wm_update(
                        old(self).last_timestamp,
                        spec_parse_ts(ev.ts->0@),
                    ),
                    None => r.skipped matches Some(Error::BadTimestamp),
                }),
            }),
    {
        let classified = match classify(ev, kind, self.my_id.as_str(), &self.channels) {
            Ok(c) => c,
            Err(e) => {
                return EventOutcome {
                    effects: Vec::new(),
                    pending: None,
                    goodbye: false,
                    skipped: Some(e),
                };
            },
        };
        match self.handle_events(&classified) {
            Err(_) => {
                return EventOutcome {
                    effects: Vec::new(),
                    pending: None,
                    goodbye: true,
                    skipped: None,
                };
            },
            Ok(true) => {
                return EventOutcome {
                    effects: Vec::new(),
                    pending: None,
                    goodbye: false,
                    skipped: None,
                };
            },
            Ok(false) => {},
        }
        match self.message(ev, kind) {
            Ok(o) => {
                self.update_timestamp(o.ts);
                EventOutcome {
                    effects: o.effects,
                    pending: o.pending,
                    goodbye: false,
                    skipped: None,
                }
            },
            Err(e) => EventOutcome {
                effects: Vec::new(),
                pending: None,
                goodbye: false,
                skipped: Some(e),
            },
        }
    }

    /// Plans adding a requester to a group on the local host.
    pub fn join(
        &self,
        user_id: &str,
        user_name: &str,
        channel: &str,
        timestamp: &str,
        group_name: &str,
    ) -> (p: PendingAction)
        ensures
            pending_join_ok(*self, p, user_id@, user_name@, group_name@, channel@, timestamp@),
    {
        let mut info = concat3(user_name, " joined ", group_name);
        info.append(" group.");
        PendingAction {
            task: join_group(user_name, group_name, self.local_host_name.as_str()),
            user_id: user_id.to_owned(),
            channel: channel.to_owned(),
            timestamp: timestamp.to_owned(),
            info_message: info,
            slack_message: concat3("joined ", group_name, " group."),
        }
    }
}

/// How a replayed record relates to the fetched one: the same message with
/// the channel field set to the channel the history was fetched from.
pub open spec fn replay_item_ok(src: RawEvent, dst: RawEvent, channel: Seq<char>) -> bool {
    dst.event_type == src.event_type && (dst.channel matches Some(c) && c@ == channel)
        && dst.user == src.user && dst.text == src.text && dst.ts == src.ts && dst.changed_user_id
        == src.changed_user_id && dst.changed_user_name == src.changed_user_name
}

/// Orders fetched history for replay: the page arrives newest first and is
/// replayed oldest first, each record carrying the channel it came from.
pub fn prepare_replay(messages: Vec<RawEvent>, channel: &str) -> (r: Vec<RawEvent>)
    ensures
        r@.len() == messages@.len(),
        forall|i: int|
            0 <= i < r@.len() ==> replay_item_ok(
                messages@[messages@.len() - 1 - i],
                #[trigger] r@[i],
                channel@,
            ),
{
    let ghost orig = messages@;
    let mut ms = messages;
    let mut r: Vec<RawEvent> = Vec::new();
    while ms.len() > 0
        invariant
            r@.len() + ms@.len() == orig.len(),
            ms@ == orig.subrange(0, ms@.len() as int),
            forall|i: int|
                0 <= i < r@.len() ==> replay_item_ok(
                    orig[orig.len() - 1 - i],
                    #[trigger] r@[i],
                    channel@,
                ),
        decreases ms@.len(),
    {
        let mut m = match ms.pop() {
            Some(m) => m,
            None => {
                proof {
                    assert(false);
                }
                return r;
            },
        };
        m.channel = Some(channel.to_owned());
        r.push(m);
    }
    r
}

/// The newest timestamp of a fetched history page: the first record's, the
/// page being newest first. A record without a readable timestamp makes the
/// whole reconciliation fail.
pub fn newest_timestamp(messages: &Vec<RawEvent>) -> (r: Result<Option<Timestamp>, Error>)
    ensures
        messages@.len() == 0 ==> r == Result::<Option<Timestamp>, Error>::Ok(None),
        messages@.len() > 0 ==> (match messages@[0].ts {
            None => r matches Err(Error::Json(JsonError::AsStr)),
            Some(s) => (match spec_parse_ts(s@) {
                None => r matches Err(Error::BadTimestamp),
                Some(t) => r == Result::<Option<Timestamp>, Error>::Ok(Some(t)),
            }),
        }),
{
    if messages.len() == 0 {
        return Ok(None);
    }
    match &messages[0].ts {
        None => Err(Error::Json(JsonError::AsStr)),
        Some(s) => match parse_timestamp(s.as_str()) {
            None => Err(Error::BadTimestamp),
            Some(t) => Ok(Some(t)),
        },
    }
}

} // verus!
