use accord::act::{send_to_discord, Act, ActError, Call};
use accord::discord::{ActivityType, Event, Member, Message, MessageType, Status, User};
use accord::forward::{
    decide_reply, dispatch_event, handle_response, judge_status, offers_presence, read_fields,
    stage_act, stage_all, stage_text, takes_presence, try_event, update_status, Defaults, Dispatch, Fields,
    Ignored, Payload, Reply,
};
use accord::raccord::{Activity, Client, Presence, Sendable};
use accord::wire::{Method, RequestBuilder};
use isahc::http::header::HeaderValue;
use isahc::http::HeaderMap;

fn user() -> User {
    User {
        avatar: None,
        bot: false,
        discriminator: "0001".to_string(),
        email: None,
        flags: None,
        id: 42,
        locale: None,
        mfa_enabled: None,
        name: "test".to_string(),
        premium_type: None,
        public_flags: None,
        system: None,
        verified: None,
    }
}

fn message(guild_id: Option<u64>, content: &str) -> Event {
    Event::MessageCreate(Message {
        activity: None,
        application: None,
        attachments: vec![],
        author: user(),
        channel_id: 456,
        content: content.to_string(),
        edited_timestamp: None,
        embeds: vec![],
        flags: None,
        guild_id,
        id: 789,
        kind: MessageType::Regular,
        member: None,
        mention_channels: vec![],
        mention_everyone: false,
        mention_roles: vec![],
        mentions: vec![],
        pinned: false,
        reactions: vec![],
        reference: None,
        referenced_message: None,
        stickers: vec![],
        timestamp: "then".to_string(),
        tts: false,
        webhook_id: None,
    })
}

fn join() -> Event {
    Event::MemberAdd(Member { guild_id: 123, nick: None, roles: vec![7], user: user() })
}

fn target() -> Client {
    let pattern = r"(?:^~|\s+)(\w+)".to_string();
    match Client::try_new(
        "http://localhost:1234".to_string(),
        Some("^~".to_string()),
        Some(pattern),
    ) {
        Ok(client) => client,
        Err(_) => panic!("the patterns are good"),
    }
}

fn map(list: &[(&'static str, &[u8])]) -> HeaderMap<HeaderValue> {
    let mut headers = HeaderMap::new();
    for (name, value) in list {
        headers.append(*name, HeaderValue::from_bytes(value).unwrap());
    }
    headers
}

fn reply(status: u16, list: &[(&'static str, &[u8])]) -> Reply {
    handle_response(status, &map(list), Some(123), Some(456))
}

fn defaults(server_id: u64, channel_id: u64) -> Defaults {
    Defaults { server_id: Some(server_id), channel_id: Some(channel_id) }
}

fn from(dispatch: &Dispatch) -> (Option<u64>, Option<u64>) {
    (dispatch.from_server, dispatch.from_channel)
}

#[test]
fn message_in_a_server_is_dispatched() {
    let dispatch = try_event(&target(), 3, &message(Some(123), "!roll d20")).unwrap();
    assert!(matches!(dispatch.payload, Payload::ServerMessage(_)));
    assert_eq!(dispatch.payload.url(), "/server/123/channel/456/message");
    assert_eq!(from(&dispatch), (Some(123), Some(456)));
}

#[test]
fn command_in_a_server_is_dispatched() {
    let event = message(Some(123), "~command sub command");
    let dispatch = try_event(&target(), 3, &event).unwrap();
    assert!(matches!(dispatch.payload, Payload::ServerCommand(_)));
    assert_eq!(dispatch.payload.url(), "/command/command/sub/command");
    assert_eq!(from(&dispatch), (Some(123), Some(456)));
    let request = target().post(dispatch.payload, vec![1]).unwrap();
    assert_eq!(request.head.uri, "http://localhost:1234/command/command/sub/command");
    assert!(request
        .head
        .headers
        .contains(&("accord-server-id".to_string(), "123".to_string())));
    assert_eq!(request.body, vec![1]);
}

#[test]
fn direct_message_is_dispatched() {
    let dispatch = try_event(&target(), 3, &message(None, "hi")).unwrap();
    assert!(matches!(dispatch.payload, Payload::DirectMessage(_)));
    assert_eq!(dispatch.payload.url(), "/direct/456/message");
    assert_eq!(from(&dispatch), (None, Some(456)));
}

#[test]
fn direct_command_is_dispatched() {
    let dispatch = try_event(&target(), 3, &message(None, "~hi")).unwrap();
    assert!(matches!(dispatch.payload, Payload::DirectCommand(_)));
    assert_eq!(dispatch.payload.url(), "/command/hi");
    assert_eq!(from(&dispatch), (None, Some(456)));
    let req = RequestBuilder::new(Method::Post, String::new());
    let headers = dispatch.payload.customise(req).headers;
    assert!(headers.contains(&("accord-channel-type".to_string(), "direct".to_string())));
}

#[test]
fn join_is_dispatched() {
    let dispatch = try_event(&target(), 3, &join()).unwrap();
    assert!(matches!(dispatch.payload, Payload::ServerJoin(_)));
    assert_eq!(dispatch.payload.url(), "/server/123/join/42");
    assert_eq!(from(&dispatch), (Some(123), None));
}

#[test]
fn connection_is_dispatched() {
    let dispatch = try_event(&target(), 3, &Event::ShardConnected).unwrap();
    assert!(matches!(&dispatch.payload, Payload::Connected(c) if c.shard == 3));
    assert_eq!(dispatch.payload.url(), "/discord/connected");
    assert_eq!(from(&dispatch), (None, None));
}

#[test]
fn other_events_are_not_dispatched() {
    assert!(try_event(&target(), 3, &Event::Other).is_none());
    assert!(accord::handle_event(&target(), 3, &Event::Other).is_none());
}

#[test]
fn words_make_a_message_a_command() {
    let words = vec!["a".to_string(), "b".to_string()];
    let dispatch = dispatch_event(0, &message(Some(1), "x"), Some(words.clone())).unwrap();
    assert!(matches!(&dispatch.payload, Payload::ServerCommand(c) if c.command == words));
    let dispatch = dispatch_event(0, &message(None, "x"), Some(vec![])).unwrap();
    assert_eq!(dispatch.payload.url(), "/command/");
    let dispatch = dispatch_event(0, &join(), Some(words)).unwrap();
    assert!(matches!(dispatch.payload, Payload::ServerJoin(_)));
}

#[test]
fn statuses_are_judged() {
    assert_eq!(judge_status(200), None);
    assert_eq!(judge_status(201), None);
    assert_eq!(judge_status(299), None);
    assert_eq!(judge_status(204), Some(Ignored::NoAction));
    assert_eq!(judge_status(404), Some(Ignored::NoAction));
    assert_eq!(judge_status(300), Some(Ignored::MultipleChoice));
    assert_eq!(judge_status(304), Some(Ignored::NotModified));
    assert_eq!(judge_status(305), Some(Ignored::ProxyRedirect));
    assert_eq!(judge_status(306), Some(Ignored::ProxyRedirect));
    assert_eq!(judge_status(309), Some(Ignored::InvalidRedirect));
    assert_eq!(judge_status(399), Some(Ignored::InvalidRedirect));
    assert_eq!(judge_status(400), Some(Ignored::TargetError));
    assert_eq!(judge_status(500), Some(Ignored::TargetError));
    assert_eq!(judge_status(599), Some(Ignored::TargetError));
    assert_eq!(judge_status(100), Some(Ignored::InvalidStatus));
    assert_eq!(judge_status(600), Some(Ignored::InvalidStatus));
}

#[test]
fn fields_are_read() {
    let fields = read_fields(&map(&[
        ("content-type", b"Text/Plain; charset=utf-8"),
        ("accord-server-id", b"12"),
        ("accord-channel-id", b"+34"),
        ("content-length", b"56"),
    ]));
    assert_eq!(fields.media, Some(("text".to_string(), "plain".to_string())));
    assert_eq!(fields.server_id, Some(12));
    assert_eq!(fields.channel_id, Some(34));
    assert_eq!(fields.content_length, Some(56));
    let fields = read_fields(&HeaderMap::new());
    assert_eq!(fields.media, None);
    assert_eq!(fields.server_id, None);
    assert_eq!(fields.channel_id, None);
    assert_eq!(fields.content_length, None);
}

#[test]
fn unreadable_fields_are_not_there() {
    let fields = read_fields(&map(&[
        ("content-type", b"text"),
        ("accord-server-id", b"\xff"),
        ("accord-channel-id", b"twelve"),
        ("content-length", b"-1"),
    ]));
    assert_eq!(fields.media, None);
    assert_eq!(fields.server_id, None);
    assert_eq!(fields.channel_id, None);
    assert_eq!(fields.content_length, None);
}

#[test]
fn first_value_of_a_field_counts() {
    let fields = read_fields(&map(&[("accord-server-id", b"1"), ("accord-server-id", b"2")]));
    assert_eq!(fields.server_id, Some(1));
    let fields = read_fields(&map(&[("accord-server-id", b"x"), ("accord-server-id", b"2")]));
    assert_eq!(fields.server_id, None);
}

#[test]
fn media_types_are_told_apart() {
    let media = |text: &'static [u8]| read_fields(&map(&[("content-type", text)])).media;
    let names = |kind: &str, sub: &str| Some((kind.to_string(), sub.to_string()));
    assert_eq!(media(b"application/json"), names("application", "json"));
    assert_eq!(media(b"APPLICATION/JSON;charset=utf-8"), names("application", "json"));
    assert_eq!(media(b"application/octet-stream"), names("application", "octet-stream"));
    assert_eq!(media(b"image/svg+xml"), names("image", "svg"));
    assert_eq!(media(b"x-a/b-"), names("x-a", "b-"));
    assert_eq!(media(b"text/"), names("text", ""));
    assert_eq!(media(b"/plain"), None);
    assert_eq!(media(b"text plain"), None);
}

#[test]
fn no_content_asks_for_nothing() {
    let json: &[(&'static str, &[u8])] = &[("content-type", b"application/json")];
    assert!(matches!(reply(204, json), Reply::Nothing(Ignored::NoAction)));
    assert!(matches!(reply(404, json), Reply::Nothing(Ignored::NoAction)));
    assert!(matches!(reply(300, json), Reply::Nothing(Ignored::MultipleChoice)));
    assert!(matches!(reply(500, json), Reply::Nothing(Ignored::TargetError)));
    assert!(matches!(reply(100, json), Reply::Nothing(Ignored::InvalidStatus)));
}

#[test]
fn json_with_a_length_is_one_act() {
    let r = reply(200, &[("content-type", b"application/json"), ("content-length", b"10")]);
    assert!(matches!(r, Reply::OneAct(d) if d == defaults(123, 456)));
}

#[test]
fn json_without_a_length_is_several_acts() {
    let r = reply(200, &[("content-type", b"application/json")]);
    assert!(matches!(r, Reply::ManyActs(d) if d == defaults(123, 456)));
    let r = reply(200, &[("content-type", b"application/json"), ("content-length", b"0")]);
    assert!(matches!(r, Reply::ManyActs(_)));
    let r = reply(200, &[("content-type", b"application/json"), ("content-length", b"many")]);
    assert!(matches!(r, Reply::ManyActs(_)));
}

#[test]
fn response_names_the_defaults_of_its_acts() {
    let r = reply(
        200,
        &[
            ("content-type", b"application/json"),
            ("accord-server-id", b"1"),
            ("accord-channel-id", b"2"),
            ("content-length", b"5"),
        ],
    );
    assert!(matches!(r, Reply::OneAct(d) if d == defaults(1, 2)));
    let r = reply(200, &[("content-type", b"application/json"), ("accord-channel-id", b"2")]);
    assert!(matches!(r, Reply::ManyActs(d) if d == defaults(123, 2)));
}

#[test]
fn text_is_a_message() {
    let r = reply(200, &[("content-type", b"text/plain")]);
    assert!(matches!(r, Reply::Text(None, d) if d == defaults(123, 456)));
    let r = reply(
        200,
        &[
            ("content-type", b"text/plain"),
            ("accord-channel-id", b"2"),
            ("accord-server-id", b"1"),
        ],
    );
    assert!(matches!(r, Reply::Text(Some(2), d) if d == defaults(1, 456)));
}

#[test]
fn text_is_staged_with_the_server_that_the_response_names() {
    let headers = map(&[("content-type", b"text/plain"), ("accord-server-id", b"11")]);
    match handle_response(200, &headers, Some(1), Some(2)) {
        Reply::Text(channel_id, d) => {
            let stage = stage_text("17".to_string(), channel_id, d);
            assert_eq!(stage.default_server_id, Some(11));
            assert_eq!(stage.default_channel_id, Some(2));
            assert!(matches!(
                stage.act,
                Act::CreateMessage { content, channel_id: None } if content == "17"
            ));
        }
        _ => panic!("a text is a message"),
    }
}

#[test]
fn stream_breaks_off_at_what_is_no_act() {
    let act = |content: &str| {
        Some(Act::CreateMessage { content: content.to_string(), channel_id: None })
    };
    let shown = |parsed: Vec<Option<Act>>| {
        let (stages, broke_off) = stage_all(parsed, defaults(1, 2));
        let contents: Vec<String> = stages
            .into_iter()
            .map(|stage| {
                assert_eq!(stage.default_server_id, Some(1));
                assert_eq!(stage.default_channel_id, Some(2));
                match stage.act {
                    Act::CreateMessage { content, .. } => content,
                    _ => panic!("no such act"),
                }
            })
            .collect();
        (contents, broke_off)
    };
    let strings = |list: &[&str]| -> Vec<String> { list.iter().map(|s| s.to_string()).collect() };
    assert_eq!(shown(vec![]), (vec![], false));
    assert_eq!(shown(vec![act("a"), act("b")]), (strings(&["a", "b"]), false));
    assert_eq!(shown(vec![act("a"), None, act("b"), None]), (strings(&["a"]), true));
    assert_eq!(shown(vec![None]), (vec![], true));
}

#[test]
fn other_content_is_unhandled() {
    let r = reply(200, &[("content-type", b"image/png")]);
    assert!(matches!(r, Reply::Unhandled(t, s) if t == "image" && s == "png"));
    let r = reply(200, &[("content-type", b"text/html")]);
    assert!(matches!(r, Reply::Unhandled(t, s) if t == "text" && s == "html"));
    let r = reply(200, &[]);
    assert!(matches!(r, Reply::Unhandled(t, s) if t == "application" && s == "octet-stream"));
    let r = reply(200, &[("content-type", b"nonsense")]);
    assert!(matches!(r, Reply::Unhandled(t, s) if t == "application" && s == "octet-stream"));
}

#[test]
fn replies_are_decided_by_status_and_fields() {
    let fields = |kind: &str, sub: &str, content_length: Option<u64>| Fields {
        media: Some((kind.to_string(), sub.to_string())),
        server_id: None,
        channel_id: Some(9),
        content_length,
    };
    let r = decide_reply(200, fields("application", "json", Some(1)), None, None);
    let d = Defaults { server_id: None, channel_id: Some(9) };
    assert!(matches!(r, Reply::OneAct(e) if e == d));
    let r = decide_reply(200, fields("application", "json", None), None, Some(4));
    assert!(matches!(r, Reply::ManyActs(e) if e == d));
    let r = decide_reply(200, fields("text", "plain", None), None, None);
    let none = Defaults { server_id: None, channel_id: None };
    assert!(matches!(r, Reply::Text(Some(9), e) if e == none));
    let r = decide_reply(204, fields("text", "plain", None), None, None);
    assert!(matches!(r, Reply::Nothing(Ignored::NoAction)));
}

#[test]
fn text_reply_is_posted_in_the_channel_of_the_message() {
    let dispatch = try_event(&target(), 0, &message(Some(123), "!roll d20")).unwrap();
    let headers = map(&[("content-type", b"text/plain")]);
    let r = handle_response(200, &headers, dispatch.from_server, dispatch.from_channel);
    match r {
        Reply::Text(channel_id, d) => {
            let call = send_to_discord(stage_text("17".to_string(), channel_id, d));
            assert!(matches!(
                call,
                Ok(Call::CreateMessage { channel_id: 456, content }) if content == "17"
            ));
        }
        _ => panic!("a text is a message"),
    }
}

#[test]
fn text_reply_to_a_join_needs_a_channel() {
    let dispatch = try_event(&target(), 0, &join()).unwrap();
    let headers = map(&[("content-type", b"text/plain")]);
    let r = handle_response(200, &headers, dispatch.from_server, dispatch.from_channel);
    match r {
        Reply::Text(channel_id, d) => {
            let call = send_to_discord(stage_text("hi".to_string(), channel_id, d));
            assert!(matches!(call, Err(ActError::Channel(_))));
        }
        _ => panic!("a text is a message"),
    }
}

#[test]
fn echoed_ids_are_understood() {
    let dispatch = try_event(&target(), 0, &message(Some(u64::MAX), "hi")).unwrap();
    let req = RequestBuilder::new(Method::Post, String::new());
    let sent = dispatch.payload.customise(req).headers;
    let mut headers = HeaderMap::new();
    for (name, value) in sent {
        if name == "accord-server-id" {
            headers.append("accord-server-id", HeaderValue::from_str(&value).unwrap());
        }
        if name == "accord-channel-id" {
            headers.append("accord-channel-id", HeaderValue::from_str(&value).unwrap());
        }
    }
    let fields = read_fields(&headers);
    assert_eq!(fields.server_id, Some(u64::MAX));
    assert_eq!(fields.channel_id, Some(456));
}

#[test]
fn acts_are_staged_with_their_defaults() {
    let act = Act::CreateMessage { content: "a".to_string(), channel_id: None };
    let stage = stage_act(act, defaults(1, 2));
    assert_eq!(stage.default_server_id, Some(1));
    assert_eq!(stage.default_channel_id, Some(2));
    assert!(matches!(stage.act, Act::CreateMessage { content, channel_id: None } if content == "a"));
    let role = Act::AssignRole { role_id: 3, user_id: 4, server_id: None, reason: None };
    assert!(matches!(
        send_to_discord(stage_act(role, defaults(1, 2))),
        Ok(Call::AddRole { server_id: 1, user_id: 4, role_id: 3, reason: None })
    ));
}

#[test]
fn acts_in_response_to_a_server_message_miss_nothing() {
    let acts = || {
        vec![
            Act::CreateMessage { content: "a".to_string(), channel_id: None },
            Act::AssignRole { role_id: 3, user_id: 4, server_id: None, reason: None },
            Act::RemoveRole { role_id: 3, user_id: 4, server_id: None, reason: None },
        ]
    };
    let dispatch = try_event(&target(), 0, &message(Some(123), "hi")).unwrap();
    let headers = map(&[("content-type", b"application/json")]);
    let r = handle_response(200, &headers, dispatch.from_server, dispatch.from_channel);
    match r {
        Reply::ManyActs(d) => {
            for act in acts() {
                assert!(send_to_discord(stage_act(act, d)).is_ok());
            }
        }
        _ => panic!("json is an act, or several"),
    }
    let dispatch = try_event(&target(), 0, &message(None, "hi")).unwrap();
    let r = handle_response(200, &headers, dispatch.from_server, dispatch.from_channel);
    match r {
        Reply::ManyActs(d) => {
            let ends: Vec<bool> =
                acts().into_iter().map(|act| send_to_discord(stage_act(act, d)).is_ok()).collect();
            assert_eq!(ends, vec![true, false, false]);
        }
        _ => panic!("json is an act, or several"),
    }
}

#[test]
fn presence_is_offered_in_json() {
    let offers = |status: u16, text: &'static [u8]| {
        offers_presence(status, &map(&[("content-type", text)]))
    };
    assert!(offers(200, b"application/json"));
    assert!(offers(204, b"Application/JSON"));
    assert!(!offers(200, b"application/json; charset=utf-8"));
    assert!(!offers(200, b"text/plain"));
    assert!(!offers(404, b"application/json"));
    assert!(!offers(300, b"application/json"));
    assert!(!offers_presence(200, &HeaderMap::new()));
    assert!(takes_presence(200, true));
    assert!(!takes_presence(200, false));
    assert!(!takes_presence(199, true));
}

#[test]
fn presence_is_taken_on() {
    let info = update_status(Presence {
        afk: Some(false),
        activity: Some(Activity::Watching { name: "you".to_string() }),
        since: Some(5),
        status: Some(Status::Idle),
    });
    assert!(!info.afk);
    assert_eq!(info.since, Some(5));
    assert_eq!(info.status, Status::Idle);
    let activities = info.activities.unwrap();
    assert_eq!(activities.len(), 1);
    assert_eq!(activities[0].kind, ActivityType::Watching);
    assert_eq!(activities[0].name, "you");
}

#[test]
fn presence_has_defaults() {
    let info = update_status(Presence { afk: None, activity: None, since: None, status: None });
    assert!(info.afk);
    assert_eq!(info.since, None);
    assert_eq!(info.status, Status::Online);
    assert!(info.activities.is_none());
}

#[test]
fn activities_have_kinds() {
    let kind = |activity: Activity| {
        let info = update_status(Presence {
            afk: None,
            activity: Some(activity),
            since: None,
            status: None,
        });
        info.activities.unwrap()[0].kind
    };
    let name = || "n".to_string();
    assert_eq!(kind(Activity::Playing { name: name() }), ActivityType::Playing);
    assert_eq!(kind(Activity::Streaming { name: name() }), ActivityType::Streaming);
    assert_eq!(kind(Activity::Listening { name: name() }), ActivityType::Listening);
    assert_eq!(kind(Activity::Watching { name: name() }), ActivityType::Watching);
    assert_eq!(kind(Activity::Custom { name: name() }), ActivityType::Custom);
}
