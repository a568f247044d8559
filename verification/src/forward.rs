//! Forwarding: from a Discord event to a payload for the target, and from the target's response
//! to acts.

use isahc::http::header::HeaderValue;
use isahc::http::HeaderMap;
use vstd::prelude::*;

use crate::act::{id_or, pick_id, Act, Stage};
use crate::command::{command_under, opt_texts, CommandsView};
use crate::discord;
use crate::discord::{ActivityType, Event, UpdateStatusInfo};
use crate::raccord::{
    direct_message_of, member_of, server_message_of, Activity, Client, Command, Connected,
    DirectMessage, Member, Presence, Sendable, ServerJoin, ServerMessage,
};
use crate::text::texts;
use crate::wire::{
    field, field_number, field_text, header_entries, is_field_name, is_plain_media, media_equal,
    media_names, number_field, parse_media, same_media, RequestBuilder,
};

verus! {

/// What is sent to the target for one event.
#[derive(Debug)]
pub enum Payload {
    ServerCommand(Command<ServerMessage>),
    ServerMessage(ServerMessage),
    DirectCommand(Command<DirectMessage>),
    DirectMessage(DirectMessage),
    ServerJoin(ServerJoin),
    Connected(Connected),
}

impl Sendable for Payload {
    open spec fn path(&self) -> Seq<char> {
        match self {
            Payload::ServerCommand(p) => p.path(),
            Payload::ServerMessage(p) => p.path(),
            Payload::DirectCommand(p) => p.path(),
            Payload::DirectMessage(p) => p.path(),
            Payload::ServerJoin(p) => p.path(),
            Payload::Connected(p) => p.path(),
        }
    }

    open spec fn metadata(&self) -> Seq<(Seq<char>, Seq<char>)> {
        match self {
            Payload::ServerCommand(p) => p.metadata(),
            Payload::ServerMessage(p) => p.metadata(),
            Payload::DirectCommand(p) => p.metadata(),
            Payload::DirectMessage(p) => p.metadata(),
            Payload::ServerJoin(p) => p.metadata(),
            Payload::Connected(p) => p.metadata(),
        }
    }

    open spec fn contents(&self) -> Option<Seq<char>> {
        match self {
            Payload::ServerCommand(p) => p.contents(),
            Payload::ServerMessage(p) => p.contents(),
            Payload::DirectCommand(p) => p.contents(),
            Payload::DirectMessage(p) => p.contents(),
            Payload::ServerJoin(p) => p.contents(),
            Payload::Connected(p) => p.contents(),
        }
    }

    fn url(&self) -> (r: String) {
        match self {
            Payload::ServerCommand(p) => p.url(),
            Payload::ServerMessage(p) => p.url(),
            Payload::DirectCommand(p) => p.url(),
            Payload::DirectMessage(p) => p.url(),
            Payload::ServerJoin(p) => p.url(),
            Payload::Connected(p) => p.url(),
        }
    }

    fn customise(&self, req: RequestBuilder) -> (r: RequestBuilder) {
        match self {
            Payload::ServerCommand(p) => p.customise(req),
            Payload::ServerMessage(p) => p.customise(req),
            Payload::DirectCommand(p) => p.customise(req),
            Payload::DirectMessage(p) => p.customise(req),
            Payload::ServerJoin(p) => p.customise(req),
            Payload::Connected(p) => p.customise(req),
        }
    }

    fn body(&self) -> (r: Option<Vec<u8>>) {
        match self {
            Payload::ServerCommand(p) => p.body(),
            Payload::ServerMessage(p) => p.body(),
            Payload::DirectCommand(p) => p.body(),
            Payload::DirectMessage(p) => p.body(),
            Payload::ServerJoin(p) => p.body(),
            Payload::Connected(p) => p.body(),
        }
    }
}

/// A payload for the target, and where the event that it tells of took place.
#[derive(Debug)]
pub struct Dispatch {
    pub payload: Payload,
    pub from_server: Option<u64>,
    pub from_channel: Option<u64>,
}

/// Whether a dispatch is the one for an event. The words are those of the command that a message
/// is, if it is one.
pub open spec fn is_dispatch_for(
    r: Option<Dispatch>,
    shard_id: u64,
    event: Event,
    words: Option<Seq<Seq<char>>>,
) -> bool {
    match event {
        Event::MessageCreate(message) => {
            &&& r is Some
            &&& r->0.from_server == message.guild_id
            &&& r->0.from_channel == Some(message.channel_id)
            &&& match (message.guild_id, words) {
                (Some(_), Some(w)) => r->0.payload matches Payload::ServerCommand(c)
                    && texts(c.command@) == w && c.message@ == server_message_of(
                    message@,
                ),
                (Some(_), None) => r->0.payload matches Payload::ServerMessage(m) && m@
                    == server_message_of(message@),
                (None, Some(w)) => r->0.payload matches Payload::DirectCommand(c)
                    && texts(c.command@) == w && c.message@ == direct_message_of(
                    message@,
                ),
                (None, None) => r->0.payload matches Payload::DirectMessage(m) && m@
                    == direct_message_of(message@),
            }
        },
        Event::MemberAdd(member) => {
            &&& r is Some
            &&& r->0.from_server == Some(member.guild_id)
            &&& r->0.from_channel is None
            &&& r->0.payload matches Payload::ServerJoin(j) && j.0@ == member_of(member@)
        },
        Event::ShardConnected => {
            &&& r is Some
            &&& r->0.from_server is None
            &&& r->0.from_channel is None
            &&& r->0.payload matches Payload::Connected(c) && c.shard == shard_id
        },
        Event::Other => r is None,
    }
}

/// Makes the payload for an event, given the words of the command that a message is, if it is one.
pub fn dispatch_event(shard_id: u64, event: &Event, command: Option<Vec<String>>) -> (r: Option<
    Dispatch,
>)
    ensures
        is_dispatch_for(r, shard_id, *event, opt_texts(command)),
{
    match event {
        Event::MessageCreate(message) => {
            let payload: Payload = if message.guild_id.is_some() {
                let msg: ServerMessage = ServerMessage::from(message);
                match command {
                    Some(command) => Payload::ServerCommand(Command { command, message: msg }),
                    None => Payload::ServerMessage(msg),
                }
            } else {
                let msg: DirectMessage = DirectMessage::from(message);
                match command {
                    Some(command) => Payload::DirectCommand(Command { command, message: msg }),
                    None => Payload::DirectMessage(msg),
                }
            };
            Some(
                Dispatch {
                    payload,
                    from_server: message.guild_id,
                    from_channel: Some(message.channel_id),
                },
            )
        },
        Event::MemberAdd(member) => Some(
            Dispatch {
                payload: Payload::ServerJoin(ServerJoin(Member::from(member))),
                from_server: Some(member.guild_id),
                from_channel: None,
            },
        ),
        Event::ShardConnected => Some(
            Dispatch {
                payload: Payload::Connected(Connected { shard: shard_id }),
                from_server: None,
                from_channel: None,
            },
        ),
        Event::Other => None,
    }
}

/// The words of the command that an event's message is under given patterns.
pub open spec fn event_command(
    patterns: CommandsView,
    event: Event,
) -> Option<Seq<Seq<char>>> {
    match event {
        Event::MessageCreate(message) => command_under(patterns, message.content@),
        _ => None,
    }
}

/// Makes the payload that tells the target of an event, or none for an event that is not
/// forwarded.
pub fn try_event(target: &Client, shard_id: u64, event: &Event) -> (r: Option<Dispatch>)
    ensures
        is_dispatch_for(r, shard_id, *event, event_command(target.patterns(), *event)),
{
    let command: Option<Vec<String>> = match event {
        Event::MessageCreate(message) => target.parse_command(message.content.as_str()),
        _ => None,
    };
    dispatch_event(shard_id, event, command)
}

/// Why a response leads to no act.
#[derive(Clone, Copy, Debug, PartialEq, Eq, Structural)]
pub enum Ignored {
    /// There is nothing to do.
    NoAction,
    /// A choice between several locations, of which none is taken.
    MultipleChoice,
    /// The response refers to a cache, of which there is none.
    NotModified,
    /// A redirection through a proxy.
    ProxyRedirect,
    /// A redirection of no known kind.
    InvalidRedirect,
    /// The target reports an error.
    TargetError,
    /// The status is none that a response can end with.
    InvalidStatus,
}

/// Whether a status is a redirection that has been followed before anyone sees the response.
pub open spec fn is_followed_redirect(status: u16) -> bool {
    status == 301 || status == 302 || status == 303 || status == 307 || status == 308
}

/// Why a response with a given status leads to no act, if it does not.
pub open spec fn status_verdict(status: u16) -> Option<Ignored> {
    if status == 204 || status == 404 {
        Some(Ignored::NoAction)
    } else if status == 300 {
        Some(Ignored::MultipleChoice)
    } else if status == 304 {
        Some(Ignored::NotModified)
    } else if status == 305 || status == 306 {
        Some(Ignored::ProxyRedirect)
    } else if 300 <= status < 400 {
        Some(Ignored::InvalidRedirect)
    } else if 400 <= status < 600 {
        Some(Ignored::TargetError)
    } else if 200 <= status < 300 {
        None
    } else {
        Some(Ignored::InvalidStatus)
    }
}

/// Judges a response by its status.
pub fn judge_status(status: u16) -> (r: Option<Ignored>)
    requires
        !is_followed_redirect(status),
    ensures
        r == status_verdict(status),
{
    if status == 204 || status == 404 {
        return Some(Ignored::NoAction);
    }
    if 300 <= status && status < 400 {
        let why: Ignored = match status {
            300 => Ignored::MultipleChoice,
            304 => Ignored::NotModified,
            305 | 306 => Ignored::ProxyRedirect,
            _ => Ignored::InvalidRedirect,
        };
        return Some(why);
    }
    if 400 <= status && status < 600 {
        return Some(Ignored::TargetError);
    }
    if !(200 <= status && status < 300) {
        return Some(Ignored::InvalidStatus);
    }
    None
}

/// What the bridge reads of a response's header fields.
#[derive(Debug)]
pub struct Fields {
    /// The type and the subtype of the content, where they are given.
    pub media: Option<(String, String)>,
    pub server_id: Option<u64>,
    pub channel_id: Option<u64>,
    pub content_length: Option<u64>,
}

/// What [`Fields`] holds.
#[verifier::ext_equal]
pub struct FieldsView {
    pub media: Option<(Seq<char>, Seq<char>)>,
    pub server_id: Option<u64>,
    pub channel_id: Option<u64>,
    pub content_length: Option<u64>,
}

/// The two names of an optional media type.
pub open spec fn opt_names(media: Option<(String, String)>) -> Option<(Seq<char>, Seq<char>)> {
    match media {
        Some((kind, sub)) => Some((kind@, sub@)),
        None => None,
    }
}

impl View for Fields {
    type V = FieldsView;

    open spec fn view(&self) -> FieldsView {
        FieldsView {
            media: opt_names(self.media),
            server_id: self.server_id,
            channel_id: self.channel_id,
            content_length: self.content_length,
        }
    }
}

/// What the header fields of a response say.
pub open spec fn fields_of(entries: Map<Seq<char>, Seq<Seq<u8>>>) -> FieldsView {
    FieldsView {
        media: match field_text(entries, "content-type"@) {
            Some(text) => media_names(text),
            None => None,
        },
        server_id: field_number(entries, "accord-server-id"@, u64::MAX),
        channel_id: field_number(entries, "accord-channel-id"@, u64::MAX),
        content_length: field_number(entries, "content-length"@, usize::MAX as u64),
    }
}

/// Whether the content type of a response is given in plain words.
pub open spec fn has_content_type(
    entries: Map<Seq<char>, Seq<Seq<u8>>>,
    kind: Seq<char>,
    sub: Seq<char>,
) -> bool {
    match field_text(entries, "content-type"@) {
        Some(text) => is_plain_media(text, kind, sub),
        None => false,
    }
}

/// The names of the fields that are read are field names.
proof fn lemma_field_names()
    ensures
        is_field_name("content-type"@),
        is_field_name("accord-server-id"@),
        is_field_name("accord-channel-id"@),
        is_field_name("content-length"@),
{
    reveal_strlit("content-type");
    reveal_strlit("accord-server-id");
    reveal_strlit("accord-channel-id");
    reveal_strlit("content-length");
}

/// Reads the header fields of a response. A content type in plain words is given as it stands.
pub fn read_fields(headers: &HeaderMap<HeaderValue>) -> (r: Fields)
    ensures
        r@ == fields_of(header_entries(*headers)),
        forall|kind: Seq<char>, sub: Seq<char>|
            has_content_type(header_entries(*headers), kind, sub) ==> r@.media == Some((kind, sub)),
{
    proof {
        lemma_field_names();
    }
    let media: Option<(String, String)> = match field(headers, "content-type") {
        Some(text) => parse_media(text.as_str()),
        None => None,
    };
    Fields {
        media,
        server_id: number_field(headers, "accord-server-id", u64::MAX),
        channel_id: number_field(headers, "accord-channel-id", u64::MAX),
        content_length: number_field(headers, "content-length", usize::MAX as u64),
    }
}

/// The server and the channel for acts that name none.
#[derive(Clone, Copy, Debug, PartialEq, Eq, Structural)]
pub struct Defaults {
    pub server_id: Option<u64>,
    pub channel_id: Option<u64>,
}

/// What a response asks for.
#[derive(Debug)]
pub enum Reply {
    /// Nothing.
    Nothing(Ignored),
    /// Nothing that is understood: the content is of some other type.
    Unhandled(String, String),
    /// The body is one act in JSON.
    OneAct(Defaults),
    /// The body is a stream of acts in JSON.
    ManyActs(Defaults),
    /// The body is the text of a message, for a channel that the response may name.
    Text(Option<u64>, Defaults),
}

/// What a [`Reply`] holds.
#[verifier::ext_equal]
pub enum ReplyView {
    Nothing(Ignored),
    Unhandled(Seq<char>, Seq<char>),
    OneAct(Defaults),
    ManyActs(Defaults),
    Text(Option<u64>, Defaults),
}

impl View for Reply {
    type V = ReplyView;

    open spec fn view(&self) -> ReplyView {
        match self {
            Reply::Nothing(why) => ReplyView::Nothing(*why),
            Reply::Unhandled(kind, sub) => ReplyView::Unhandled(kind@, sub@),
            Reply::OneAct(defaults) => ReplyView::OneAct(*defaults),
            Reply::ManyActs(defaults) => ReplyView::ManyActs(*defaults),
            Reply::Text(channel, defaults) => ReplyView::Text(*channel, *defaults),
        }
    }
}

/// What a response asks for, by its status and its header fields. Content without a type, or with
/// one that cannot be read, is of the type `application/octet-stream`. The response may name the
/// server and the channel that it is about; what it does not name is that of the event. A text is
/// posted in the channel that the response names itself.
pub open spec fn reply_of(
    status: u16,
    fields: FieldsView,
    from_server: Option<u64>,
    from_channel: Option<u64>,
) -> ReplyView {
    match status_verdict(status) {
        Some(why) => ReplyView::Nothing(why),
        None => {
            let (kind, sub) = match fields.media {
                Some(names) => names,
                None => ("application"@, "octet-stream"@),
            };
            if kind == "application"@ && sub == "json"@ {
                let defaults = Defaults {
                    server_id: id_or(fields.server_id, from_server),
                    channel_id: id_or(fields.channel_id, from_channel),
                };
                if fields.content_length is Some && fields.content_length->0 > 0 {
                    ReplyView::OneAct(defaults)
                } else {
                    ReplyView::ManyActs(defaults)
                }
            } else if kind == "text"@ && sub == "plain"@ {
                ReplyView::Text(
                    fields.channel_id,
                    Defaults {
                        server_id: id_or(fields.server_id, from_server),
                        channel_id: from_channel,
                    },
                )
            } else {
                ReplyView::Unhandled(kind, sub)
            }
        },
    }
}

/// Finds what a response asks for, by its status and what its header fields say.
pub fn decide_reply(
    status: u16,
    fields: Fields,
    from_server: Option<u64>,
    from_channel: Option<u64>,
) -> (r: Reply)
    requires
        !is_followed_redirect(status),
    ensures
        r@ == reply_of(status, fields@, from_server, from_channel),
{
    match judge_status(status) {
        Some(why) => Reply::Nothing(why),
        None => {
            let (kind, sub): (String, String) = match fields.media {
                Some(names) => names,
                None => ("application".to_owned(), "octet-stream".to_owned()),
            };
            if kind == "application".to_owned() && sub == "json".to_owned() {
                let defaults: Defaults = Defaults {
                    server_id: pick_id(fields.server_id, from_server),
                    channel_id: pick_id(fields.channel_id, from_channel),
                };
                match fields.content_length {
                    Some(n) => {
                        if n > 0 {
                            Reply::OneAct(defaults)
                        } else {
                            Reply::ManyActs(defaults)
                        }
                    },
                    None => Reply::ManyActs(defaults),
                }
            } else if kind == "text".to_owned() && sub == "plain".to_owned() {
                Reply::Text(
                    fields.channel_id,
                    Defaults {
                        server_id: pick_id(fields.server_id, from_server),
                        channel_id: from_channel,
                    },
                )
            } else {
                Reply::Unhandled(kind, sub)
            }
        },
    }
}

/// Finds what a response asks for. The server and the channel are those of the event that the
/// target responds to. Content of the type `text/plain` is the text of a message, and content of
/// the type `application/json` is an act, or several.
pub fn handle_response(
    status: u16,
    headers: &HeaderMap<HeaderValue>,
    from_server: Option<u64>,
    from_channel: Option<u64>,
) -> (r: Reply)
    requires
        !is_followed_redirect(status),
    ensures
        r@ == reply_of(status, fields_of(header_entries(*headers)), from_server, from_channel),
        200 <= status < 300 && status != 204 && has_content_type(
            header_entries(*headers),
            "text"@,
            "plain"@,
        ) ==> r is Text,
        200 <= status < 300 && status != 204 && has_content_type(
            header_entries(*headers),
            "application"@,
            "json"@,
        ) ==> r is OneAct || r is ManyActs,
{
    proof {
        reveal_strlit("application");
        reveal_strlit("text");
    }
    decide_reply(status, read_fields(headers), from_server, from_channel)
}

/// Stages an act with the defaults of the response that it came with.
pub fn stage_act(act: Act, defaults: Defaults) -> (r: Stage)
    ensures
        r == (Stage {
            act,
            default_server_id: defaults.server_id,
            default_channel_id: defaults.channel_id,
        }),
{
    Stage { act, default_server_id: defaults.server_id, default_channel_id: defaults.channel_id }
}

/// The stages of the acts of a stream, and whether the stream broke off: it does so at the first
/// payload that is no act, and nothing that follows is staged.
pub open spec fn staged(parsed: Seq<Option<Act>>, defaults: Defaults) -> (Seq<Stage>, bool)
    decreases parsed.len(),
{
    if parsed.len() == 0 {
        (seq![], false)
    } else {
        match parsed[0] {
            Some(act) => {
                let (stages, broke_off) = staged(parsed.skip(1), defaults);
                (
                    seq![
                        Stage {
                            act,
                            default_server_id: defaults.server_id,
                            default_channel_id: defaults.channel_id,
                        },
                    ] + stages,
                    broke_off,
                )
            },
            None => (seq![], true),
        }
    }
}

/// Stages the acts of a stream, each with the defaults of the response, up to the first payload
/// that is no act. Tells whether there was one.
pub fn stage_all(parsed: Vec<Option<Act>>, defaults: Defaults) -> (r: (Vec<Stage>, bool))
    ensures
        (r.0@, r.1) == staged(parsed@, defaults),
{
    let mut stages: Vec<Stage> = Vec::new();
    let ghost all = parsed@;
    assert(all.skip(0) == all);
    assert(Seq::<Stage>::empty() + staged(all, defaults).0 == staged(all, defaults).0);
    for next in iter: parsed
        invariant
            iter.seq() == all,
            staged(all, defaults) == (
                stages@ + staged(all.skip(iter.index() as int), defaults).0,
                staged(all.skip(iter.index() as int), defaults).1,
            ),
    {
        let ghost rest = all.skip(iter.index() as int);
        let ghost before = stages@;
        assert(rest[0] == next);
        assert(rest.skip(1) == all.skip(iter.index() + 1));
        match next {
            Some(act) => {
                stages.push(stage_act(act, defaults));
                assert(stages@ + staged(rest.skip(1), defaults).0 == before + staged(
                    rest,
                    defaults,
                ).0);
            },
            None => {
                assert(before + Seq::<Stage>::empty() == before);
                return (stages, true);
            },
        }
    }
    assert(all.skip(all.len() as int).len() == 0);
    assert(stages@ + Seq::<Stage>::empty() == stages@);
    (stages, false)
}

/// However the payloads of a stream come in, the same acts are staged: a part that broke off has
/// the last word, and any other is followed by what the next part gives.
pub proof fn law_parts_are_staged_in_turn(
    a: Seq<Option<Act>>,
    b: Seq<Option<Act>>,
    defaults: Defaults,
)
    ensures
        staged(a + b, defaults) == (if staged(a, defaults).1 {
            staged(a, defaults)
        } else {
            (staged(a, defaults).0 + staged(b, defaults).0, staged(b, defaults).1)
        }),
    decreases a.len(),
{
    if a.len() == 0 {
        assert(a + b == b);
        assert(Seq::<Stage>::empty() + staged(b, defaults).0 == staged(b, defaults).0);
    } else {
        assert((a + b)[0] == a[0]);
        assert((a + b).skip(1) == a.skip(1) + b);
        law_parts_are_staged_in_turn(a.skip(1), b, defaults);
        match a[0] {
            Some(act) => {
                let first = seq![
                    Stage {
                        act,
                        default_server_id: defaults.server_id,
                        default_channel_id: defaults.channel_id,
                    },
                ];
                let rest = staged(a.skip(1), defaults).0;
                assert(first + (rest + staged(b, defaults).0) == first + rest + staged(
                    b,
                    defaults,
                ).0);
            },
            None => {},
        }
    }
}

/// The staged act of posting a response's text.
pub open spec fn text_stage(content: String, channel_id: Option<u64>, defaults: Defaults) -> Stage {
    Stage {
        act: Act::CreateMessage { content, channel_id },
        default_server_id: defaults.server_id,
        default_channel_id: defaults.channel_id,
    }
}

/// Stages the act of posting a response's text.
pub fn stage_text(content: String, channel_id: Option<u64>, defaults: Defaults) -> (r: Stage)
    ensures
        r == text_stage(content, channel_id, defaults),
{
    stage_act(Act::CreateMessage { content, channel_id }, defaults)
}

/// Whether the response to the announcement of a connection holds a presence: it is a success, and
/// its content is JSON and nothing but JSON.
pub open spec fn holds_presence(status: u16, is_json: bool) -> bool {
    200 <= status < 300 && is_json
}

/// Whether a response's content is of the type `application/json`, without parameters.
pub open spec fn is_json(entries: Map<Seq<char>, Seq<Seq<u8>>>) -> bool {
    match field_text(entries, "content-type"@) {
        Some(text) => media_equal(text, "application/json"@),
        None => false,
    }
}

/// The media type of JSON is in plain words.
proof fn lemma_json_is_plain()
    ensures
        is_plain_media("application/json"@, "application"@, "json"@),
{
    reveal_strlit("application/json");
    reveal_strlit("application");
    reveal_strlit("json");
    assert("application/json"@ == "application"@.push('/') + "json"@);
}

/// Tells whether the response to the announcement of a connection holds a presence, given whether
/// its content is JSON.
pub fn takes_presence(status: u16, json: bool) -> (r: bool)
    ensures
        r == holds_presence(status, json),
{
    200 <= status && status < 300 && json
}

/// Tells whether the response to the announcement of a connection holds a presence. Content of the
/// type `application/json` does.
pub fn offers_presence(status: u16, headers: &HeaderMap<HeaderValue>) -> (r: bool)
    ensures
        r == holds_presence(status, is_json(header_entries(*headers))),
        forall|kind: Seq<char>, sub: Seq<char>| #[trigger]
            has_content_type(header_entries(*headers), kind, sub) ==> r == (200 <= status < 300
                && field_text(header_entries(*headers), "content-type"@) == Some(
                "application/json"@,
            )),
{
    proof {
        lemma_field_names();
        lemma_json_is_plain();
    }
    let json: bool = match field(headers, "content-type") {
        Some(text) => same_media(text.as_str(), "application/json"),
        None => false,
    };
    takes_presence(status, json)
}

/// The kind and the name of an activity.
pub open spec fn activity_of(activity: Activity) -> discord::Activity {
    match activity {
        Activity::Playing { name } => discord::Activity { kind: ActivityType::Playing, name },
        Activity::Streaming { name } => discord::Activity { kind: ActivityType::Streaming, name },
        Activity::Listening { name } => discord::Activity { kind: ActivityType::Listening, name },
        Activity::Watching { name } => discord::Activity { kind: ActivityType::Watching, name },
        Activity::Custom { name } => discord::Activity { kind: ActivityType::Custom, name },
    }
}

/// Turns the presence that the target wants into the one that the bot takes on. The bot is away
/// and online unless the target says otherwise.
pub fn update_status(presence: Presence) -> (r: UpdateStatusInfo)
    ensures
        r.afk == (match presence.afk {
            Some(afk) => afk,
            None => true,
        }),
        r.since == presence.since,
        r.status == (match presence.status {
            Some(status) => status,
            None => discord::Status::Online,
        }),
        match (presence.activity, r.activities) {
            (Some(wanted), Some(shown)) => shown@ == seq![activity_of(wanted)],
            (None, None) => true,
            _ => false,
        },
{
    let activities: Option<Vec<discord::Activity>> = match presence.activity {
        Some(activity) => {
            let (kind, name): (ActivityType, String) = match activity {
                Activity::Playing { name } => (ActivityType::Playing, name),
                Activity::Streaming { name } => (ActivityType::Streaming, name),
                Activity::Listening { name } => (ActivityType::Listening, name),
                Activity::Watching { name } => (ActivityType::Watching, name),
                Activity::Custom { name } => (ActivityType::Custom, name),
            };
            Some(vec![discord::Activity { kind, name }])
        },
        None => None,
    };
    UpdateStatusInfo {
        afk: presence.afk.unwrap_or(true),
        since: presence.since,
        status: presence.status.unwrap_or(discord::Status::Online),
        activities,
    }
}

} // verus!
