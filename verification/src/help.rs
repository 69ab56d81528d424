//! The command reference the bot shows on request: six colored attachments
//! describing the commands, their fields, and the known host list. The
//! driver serializes these values; their exact text is pinned here.

use vstd::prelude::*;

use crate::strings::{concat2, concat3, eq_str, head_lower_spec, join_spec, join_strings};
use crate::strings::{make_head_lower, make_mention, mention_spec};

verus! {

/// A titled field of an attachment; `short` marks it for two-column layout.
#[derive(Debug)]
pub struct Field {
    pub title: String,
    pub value: String,
    pub short: bool,
}

/// The body of an attachment: a description, or a list rendered line by
/// line.
#[derive(Debug)]
pub enum DescriptionOrList {
    Description(String),
    List(Vec<String>),
}

/// One block handed to `make_attributes`: a bold title line, a body, and
/// optional fields.
#[derive(Debug)]
pub struct AttributeEntry {
    pub text: String,
    pub body: DescriptionOrList,
    pub fields: Option<Vec<Field>>,
}

/// A rendered attachment.
#[derive(Debug)]
pub struct Attachment {
    pub color: String,
    pub text: String,
    pub fallback: String,
    pub fields: Option<Vec<Field>>,
    /// Whether markup applies to the fields as well as the text.
    pub mrkdwn_fields: bool,
}

/// A field with the title the command reference uses for host names.
pub fn make_hostname_field(what: &str) -> (r: Field)
    ensures
        r.title@ == "_HOSTNAME_"@,
        r.value@ == "The host name on which you want to "@ + what@
            + " (see below _HOSTNAME_ list)"@,
        !r.short,
{
    Field {
        title: "_HOSTNAME_".to_owned(),
        value: concat3(
            "The host name on which you want to ",
            what,
            " (see below _HOSTNAME_ list)",
        ),
        short: false,
    }
}

/// The field naming where a command is available.
pub fn make_available_channel_field(channel_name: String) -> (r: Field)
    ensures
        r.title@ == "available on"@,
        r.value == channel_name,
        !r.short,
{
    Field { title: "available on".to_owned(), value: channel_name, short: false }
}

/// What `format_fields` leaves: the fields unchanged but for the two-column
/// mark, set on the first even number of them.
pub open spec fn fields_formatted(fa: Seq<Field>, fe: Seq<Field>) -> bool {
    fa.len() == fe.len() && (forall|i: int|
        0 <= i < fa.len() ==> (#[trigger] fa[i]).title == fe[i].title && fa[i].value
            == fe[i].value) && (forall|i: int|
        0 <= i < fa.len() ==> (#[trigger] fa[i]).short == (fe[i].short || i < 2 * (
        fe.len() as int / 2)))
}

/// Marks the first even number of fields for two-column layout, leaving a
/// trailing odd field full-width.
pub fn format_fields(fields: &Vec<Field>) -> (r: Vec<Field>)
    ensures
        fields_formatted(r@, fields@),
{
    let size = if fields.len() % 2 == 0 {
        fields.len()
    } else {
        fields.len() - 1
    };
    let mut r: Vec<Field> = Vec::new();
    let mut i: usize = 0;
    while i < fields.len()
        invariant
            i <= fields.len(),
            r@.len() == i,
            size == 2 * (fields@.len() as int / 2),
            forall|j: int|
                0 <= j < i ==> (#[trigger] r@[j]).title == fields@[j].title && r@[j].value
                    == fields@[j].value && r@[j].short == (fields@[j].short || j < size),
        decreases fields.len() - i,
    {
        let f = &fields[i];
        r.push(Field { title: f.title.clone(), value: f.value.clone(), short: f.short || i < size });
        i += 1;
    }
    r
}

/// The color of the attachment at each position of the reference.
pub open spec fn color_of(i: int) -> Seq<char> {
    if i == 0 { "#007dc6"@ } else if i == 1 { "#ed1b23"@ } else if i == 2 { "#fdb811"@ }
    else if i == 3 { "#71bf44"@ } else if i == 4 { "#00a650"@ } else { "#6c6e71"@ }
}

fn color_literal(i: usize) -> (r: &'static str)
    requires
        i < 6,
    ensures
        r@ == color_of(i as int),
{
    if i == 0 { "#007dc6" } else if i == 1 { "#ed1b23" } else if i == 2 { "#fdb811" }
    else if i == 3 { "#71bf44" } else if i == 4 { "#00a650" } else { "#6c6e71" }
}

/// How a rendered attachment relates to its entry: the body joined under the
/// title, a one-line fallback, and the fields formatted.
pub open spec fn matches_entry(a: Attachment, e: AttributeEntry, color: Seq<char>) -> bool {
    a.color@ == color && (match e.body {
        DescriptionOrList::Description(d) => a.text@ == e.text@ + "\n"@ + d@ && a.fallback@
            == e.text@ + ": "@ + head_lower_spec(d@),
        DescriptionOrList::List(l) => a.text@ == e.text@ + "\n    "@ + join_spec(
            l.deep_view(),
            "\n    "@,
        ) && a.fallback@ == e.text@ + ": "@ + join_spec(l.deep_view(), ", "@),
    }) && (match (a.fields, e.fields) {
        (Some(fa), Some(fe)) => fields_formatted(fa@, fe@) && a.mrkdwn_fields,
        (None, None) => !a.mrkdwn_fields,
        _ => false,
    })
}

/// Renders the six entries of the reference, one color each.
pub fn make_attributes(data: Vec<AttributeEntry>) -> (r: Vec<Attachment>)
    requires
        data@.len() == 6,
    ensures
        r@.len() == 6,
        forall|i: int| 0 <= i < 6 ==> matches_entry(#[trigger] r@[i], data@[i], color_of(i)),
{
    let mut r: Vec<Attachment> = Vec::new();
    let mut i: usize = 0;
    while i < data.len()
        invariant
            data@.len() == 6,
            i <= 6,
            r@.len() == i,
            forall|j: int| 0 <= j < i ==> matches_entry(#[trigger] r@[j], data@[j], color_of(j)),
        decreases data.len() - i,
    {
        let e = &data[i];
        let color = color_literal(i).to_owned();
        let text: String;
        let fallback: String;
        match &e.body {
            DescriptionOrList::Description(d) => {
                text = concat3(e.text.as_str(), "\n", d.as_str());
                let mut fb = concat2(e.text.as_str(), ": ");
                fb.append(make_head_lower(d.as_str()).as_str());
                fallback = fb;
            },
            DescriptionOrList::List(l) => {
                let mut t = concat2(e.text.as_str(), "\n    ");
                t.append(join_strings(l, "\n    ").as_str());
                text = t;
                let mut fb = concat2(e.text.as_str(), ": ");
                fb.append(join_strings(l, ", ").as_str());
                fallback = fb;
            },
        }
        let fields: Option<Vec<Field>>;
        let mrkdwn_fields: bool;
        match &e.fields {
            Some(fe) => {
                fields = Some(format_fields(fe));
                mrkdwn_fields = true;
            },
            None => {
                fields = None;
                mrkdwn_fields = false;
            },
        }
        r.push(Attachment { color, text, fallback, fields, mrkdwn_fields });
        i += 1;
    }
    r
}

/// The inline reference to a channel.
pub open spec fn channel_ref_spec(c: Seq<char>) -> Seq<char> {
    "<#"@ + c + ">"@
}

/// The monitored channels as inline references, comma-joined.
pub open spec fn channel_names_spec(cs: Seq<Seq<char>>) -> Seq<char> {
    join_spec(cs.map_values(|c: Seq<char>| channel_ref_spec(c)), ", "@)
}

fn channel_names(channels: &Vec<String>) -> (r: String)
    ensures
        r@ == channel_names_spec(channels.deep_view()),
{
    let mut refs: Vec<String> = Vec::new();
    let mut i: usize = 0;
    while i < channels.len()
        invariant
            i <= channels.len(),
            refs.deep_view() =~= channels.deep_view().take(i as int).map_values(
                |c: Seq<char>| channel_ref_spec(c),
            ),
        decreases channels.len() - i,
    {
        let ghost pre = refs.deep_view();
        refs.push(concat3("<#", channels[i].as_str(), ">"));
        proof {
            assert(refs.deep_view() =~= pre.push(channel_ref_spec(channels.deep_view()[i as int])));
            assert(refs.deep_view() =~= channels.deep_view().take(i as int + 1).map_values(
                |c: Seq<char>| channel_ref_spec(c),
            ));
        }
        i += 1;
    }
    proof {
        assert(channels.deep_view().take(channels@.len() as int) =~= channels.deep_view());
    }
    join_strings(&refs, ", ")
}

/// The direct-message reference: `DM(` + the bot's mention + `)`.
pub open spec fn dm_ref_spec(id: Seq<char>) -> Seq<char> {
    "DM("@ + mention_spec(id) + ")"@
}

/// Where ping answers: the channel references and the direct message,
/// comma-joined.
pub open spec fn channels_and_dm_spec(cs: Seq<Seq<char>>, id: Seq<char>) -> Seq<char> {
    if channel_names_spec(cs).len() == 0 {
        dm_ref_spec(id)
    } else {
        channel_names_spec(cs) + ", "@ + dm_ref_spec(id)
    }
}

/// A command title line of the reference: `*` + the bot's mention + the
/// command's tail.
pub open spec fn cmd_title_spec(id: Seq<char>, tail: Seq<char>) -> Seq<char> {
    "*"@ + mention_spec(id) + tail
}

/// The description of the update command, naming the key source.
pub open spec fn update_desc_spec(uri: Seq<char>) -> Seq<char> {
    "Retrieves all public keys from `"@ + uri
        + "` and add them to `$HOME/.ssh/authorized_keys` (this command *WILL OVERWRITE* your `$HOME/.ssh/authorized_keys`)"@
}

/// The hostname field's value for a given purpose.
pub open spec fn hostname_value_spec(what: Seq<char>) -> Seq<char> {
    "The host name on which you want to "@ + what + " (see below _HOSTNAME_ list)"@
}

/// A description attachment of the reference: the title line over the
/// description, the one-line fallback, and the given fields.
pub open spec fn desc_attachment_ok(
    a: Attachment,
    i: int,
    title: Seq<char>,
    desc: Seq<char>,
) -> bool {
    a.color@ == color_of(i) && a.text@ == title + "\n"@ + desc && a.fallback@ == title + ": "@
        + head_lower_spec(desc) && a.mrkdwn_fields
}

/// The whole command reference: what each of the six attachments says, with
/// the bot's mention, the monitored channels, the key-source URI and the
/// host list filled in.
pub open spec fn help_message_ok(
    r: Seq<Attachment>,
    id: Seq<char>,
    cs: Seq<Seq<char>>,
    uri: Seq<char>,
    hosts: Seq<Seq<char>>,
) -> bool {
    r.len() == 6 && desc_attachment_ok(
        r[0],
        0,
        cmd_title_spec(id, " create _HOSTNAME_*"@),
        "Creates you an account on _HOSTNAME_"@,
    ) && (r[0].fields matches Some(fs) && fs@.len() == 2 && fs@[0].title@ == "_HOSTNAME_"@
        && fs@[0].value@ == hostname_value_spec("create your account"@) && fs@[0].short
        && fs@[1].title@ == "available on"@ && fs@[1].value@ == channel_names_spec(cs)
        && fs@[1].short) && desc_attachment_ok(
        r[1],
        1,
        cmd_title_spec(id, " update _HOSTNAME_*"@),
        update_desc_spec(uri),
    ) && (r[1].fields matches Some(fs) && fs@.len() == 2 && fs@[0].title@ == "_HOSTNAME_"@
        && fs@[0].value@ == hostname_value_spec("update your `authorized_keys`"@) && fs@[0].short
        && fs@[1].title@ == "available on"@ && fs@[1].value@ == channel_names_spec(cs)
        && fs@[1].short) && desc_attachment_ok(
        r[2],
        2,
        cmd_title_spec(id, " join _GROUPNAME_ _HOSTNAME_*"@),
        "Join _GROUPNAME_ group on _HOSTNAME_"@,
    ) && (r[2].fields matches Some(fs) && fs@.len() == 3 && fs@[0].title@ == "_GROUPNAME_"@
        && fs@[0].value@
        == "The group name which you want to join on _HOSTNAME_ . You can check the available groups on _HOSTNAME_ using `cat /etc/groups` ."@
        && fs@[0].short && fs@[1].title@ == "_HOSTNAME_"@ && fs@[1].value@ == hostname_value_spec(
        "join the group"@,
    ) && fs@[1].short && fs@[2].title@ == "available on"@ && fs@[2].value@ == channel_names_spec(
        cs,
    ) && !fs@[2].short) && desc_attachment_ok(
        r[3],
        3,
        cmd_title_spec(id, " ping*"@),
        "Get pongs from alive bots"@,
    ) && (r[3].fields matches Some(fs) && fs@.len() == 1 && fs@[0].title@ == "available on"@
        && fs@[0].value@ == channels_and_dm_spec(cs, id) && !fs@[0].short) && desc_attachment_ok(
        r[4],
        4,
        cmd_title_spec(id, " help*"@),
        "Shows this message"@,
    ) && (r[4].fields matches Some(fs) && fs@.len() == 1 && fs@[0].title@ == "available on"@
        && fs@[0].value@ == dm_ref_spec(id) && !fs@[0].short) && r[5].color@ == color_of(5)
        && r[5].text@ == "*_HOSTNAME_ list*"@ + "\n    "@ + join_spec(hosts, "\n    "@)
        && r[5].fallback@ == "*_HOSTNAME_ list*"@ + ": "@ + join_spec(hosts, ", "@)
        && r[5].fields is None && !r[5].mrkdwn_fields
}

/// Builds the command reference shown to a requester.
pub fn make_help_message(
    my_id: &str,
    channels: &Vec<String>,
    uri: &str,
    hosts: &Vec<String>,
) -> (r: Vec<Attachment>)
    ensures
        help_message_ok(r@, my_id@, channels.deep_view(), uri@, hosts.deep_view()),
{
    let names = channel_names(channels);
    let mention = make_mention(my_id);
    let mut dm = "DM(".to_owned();
    dm.append(mention.as_str());
    dm.append(")");
    let channels_and_dm: String;
    if names.as_str().unicode_len() == 0 {
        channels_and_dm = dm.clone();
    } else {
        let mut s = names.clone();
        s.append(", ");
        s.append(dm.as_str());
        channels_and_dm = s;
    }
    let mut data: Vec<AttributeEntry> = Vec::new();
    data.push(
        AttributeEntry {
            text: concat3("*", mention.as_str(), " create _HOSTNAME_*"),
            body: DescriptionOrList::Description("Creates you an account on _HOSTNAME_".to_owned()),
            fields: Some(
                vec![
                    make_hostname_field("create your account"),
                    make_available_channel_field(names.clone()),
                ],
            ),
        },
    );
    data.push(
        AttributeEntry {
            text: concat3("*", mention.as_str(), " update _HOSTNAME_*"),
            body: DescriptionOrList::Description(
                {
                    let mut d = concat3(
                        "Retrieves all public keys from `",
                        uri,
                        "` and add them to `$HOME/.ssh/authorized_keys` (this command *WILL OVERWRITE* your `$HOME/.ssh/authorized_keys`)",
                    );
                    d
                },
            ),
            fields: Some(
                vec![
                    make_hostname_field("update your `authorized_keys`"),
                    make_available_channel_field(names.clone()),
                ],
            ),
        },
    );
    data.push(
        AttributeEntry {
            text: concat3("*", mention.as_str(), " join _GROUPNAME_ _HOSTNAME_*"),
            body: DescriptionOrList::Description(
                "Join _GROUPNAME_ group on _HOSTNAME_".to_owned(),
            ),
            fields: Some(
                vec![
                    Field {
                        title: "_GROUPNAME_".to_owned(),
                        value:
                        "The group name which you want to join on _HOSTNAME_ . You can check the available groups on _HOSTNAME_ using `cat /etc/groups` .".to_owned(),
                        short: false,
                    },
                    make_hostname_field("join the group"),
                    make_available_channel_field(names.clone()),
                ],
            ),
        },
    );
    data.push(
        AttributeEntry {
            text: concat3("*", mention.as_str(), " ping*"),
            body: DescriptionOrList::Description("Get pongs from alive bots".to_owned()),
            fields: Some(vec![make_available_channel_field(channels_and_dm)]),
        },
    );
    data.push(
        AttributeEntry {
            text: concat3("*", mention.as_str(), " help*"),
            body: DescriptionOrList::Description("Shows this message".to_owned()),
            fields: Some(vec![make_available_channel_field(dm)]),
        },
    );
    data.push(
        AttributeEntry {
            text: "*_HOSTNAME_ list*".to_owned(),
            body: DescriptionOrList::List(crate::strings::clone_strings(hosts)),
            fields: None,
        },
    );
    make_attributes(data)
}

} // verus!
