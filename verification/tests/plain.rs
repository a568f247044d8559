use accord::command::BadPattern;
use accord::discord;
use accord::discord::Event;
use accord::plain::{
    can_leave, handle_event, payload_for, Client, Command, Connected, DirectMessage, Member,
    Payload, Sendable, ServerJoin, ServerMessage, User,
};
use accord::raccord::MessageFlag;
use accord::wire::{Method, RequestBuilder, RequestError};
use twilight_model::channel::message::MessageFlags;

fn discord_user() -> discord::User {
    discord::User {
        avatar: None,
        bot: false,
        discriminator: "0001".to_string(),
        email: None,
        flags: None,
        id: 42,
        locale: None,
        mfa_enabled: None,
        name: "Zoë".to_string(),
        premium_type: None,
        public_flags: None,
        system: None,
        verified: None,
    }
}

fn discord_message(guild_id: Option<u64>) -> discord::Message {
    discord::Message {
        activity: None,
        application: None,
        attachments: vec![],
        author: discord_user(),
        channel_id: 456,
        content: "!roll é".to_string(),
        edited_timestamp: None,
        embeds: vec![],
        flags: Some(MessageFlags::URGENT | MessageFlags::CROSSPOSTED),
        guild_id,
        id: 789,
        kind: discord::MessageType::Reply,
        member: Some(discord::PartialMember {
            deaf: false,
            joined_at: None,
            mute: false,
            nick: Some("z".to_string()),
            roles: vec![10, 11],
        }),
        mention_channels: vec![],
        mention_everyone: false,
        mention_roles: vec![],
        mentions: vec![],
        pinned: false,
        reactions: vec![],
        reference: None,
        referenced_message: None,
        stickers: vec![],
        timestamp: "then".to_string(),
        tts: false,
        webhook_id: None,
    }
}

fn discord_member() -> discord::Member {
    discord::Member {
        guild_id: 123,
        nick: Some("z".to_string()),
        roles: vec![10, 11],
        user: discord_user(),
    }
}

fn groups<S: Sendable>(payload: &S) -> Vec<(String, Vec<String>)> {
    payload.headers().into_iter().map(|(n, v)| (n.to_string(), v)).collect()
}

fn expected(list: &[(&str, &[&str])]) -> Vec<(String, Vec<String>)> {
    list.iter()
        .map(|(n, v)| (n.to_string(), v.iter().map(|s| s.to_string()).collect()))
        .collect()
}

fn target() -> Client {
    Client::try_new("http://localhost".to_string(), Some("^!".to_string()), None).ok().unwrap()
}

#[test]
fn plain_connection_is_a_greeting() {
    assert_eq!(Connected { shard: 1 }.url(), "/hello/discord");
    assert_eq!(groups(&Connected { shard: 1 }), expected(&[]));
}

#[test]
fn plain_server_message_has_plain_header_fields() {
    let msg = ServerMessage::from(&discord_message(Some(123)));
    assert_eq!(msg.kind, discord::MessageType::Reply);
    assert_eq!(msg.url(), "/server/123/channel/456/message");
    assert_eq!(
        groups(&msg),
        expected(&[
            ("message-id", &["789"]),
            ("server-id", &["123"]),
            ("channel-id", &["456"]),
            ("author-type", &["user"]),
            ("author-id", &["42"]),
            ("author-name", &["Zoë"]),
            ("content-length", &["8"]),
            ("author-role-ids", &["10", "11"]),
            ("message-flags", &["crossposted", "urgent"]),
        ])
    );
    let mut msg = msg;
    msg.author.pseudonym = Some("p".to_string());
    msg.author.roles = Some(vec![]);
    msg.flags = vec![];
    assert_eq!(
        groups(&msg)[7..].to_vec(),
        expected(&[("author-pseudonym", &["p"])])
    );
}

#[test]
fn plain_direct_message_has_plain_header_fields() {
    let msg = DirectMessage::from(&discord_message(None));
    assert_eq!(msg.url(), "/direct/456/message");
    assert_eq!(
        groups(&msg),
        expected(&[
            ("message-id", &["789"]),
            ("direct-message", &["true"]),
            ("channel-id", &["456"]),
            ("author-type", &["user"]),
            ("author-id", &["42"]),
            ("author-name", &["Zoë"]),
            ("content-length", &["8"]),
            ("message-flags", &["crossposted", "urgent"]),
        ])
    );
}

#[test]
fn plain_join_has_plain_header_fields() {
    let join = ServerJoin(Member::from(&discord_member()));
    assert_eq!(join.url(), "/server/123/join/42");
    assert_eq!(
        groups(&join),
        expected(&[
            ("server-id", &["123"]),
            ("member-id", &["42"]),
            ("member-name", &["Zoë"]),
            ("member-pseudonym", &["z"]),
            ("member-role-ids", &["10", "11"]),
        ])
    );
}

#[test]
fn plain_author_has_no_pseudonym() {
    let author = Member::from(&discord_message(None));
    assert_eq!(author.server_id, 0);
    assert_eq!(author.roles, Some(vec![10, 11]));
    assert_eq!(author.pseudonym, None);
    assert_eq!(User::from(&discord_user()).roles, None);
    assert_eq!(Member::from(&discord_member()).pseudonym, Some("z".to_string()));
}

#[test]
fn plain_command_keeps_the_header_fields_of_its_message() {
    let message = DirectMessage::from(&discord_message(None));
    let kept = groups(&message);
    let command = Command { command: vec!["a".to_string(), "b".to_string()], message };
    assert_eq!(command.url(), "/command/a/b");
    assert_eq!(groups(&command), kept);
}

#[test]
fn groups_are_spread_in_order() {
    let req = RequestBuilder::new(Method::Post, "http://x/".to_string());
    let req = Client::add_headers(
        req,
        vec![
            ("a", vec!["1".to_string(), "2".to_string()]),
            ("b", vec![]),
            ("c", vec!["3".to_string()]),
        ],
    );
    let fields: Vec<(&str, &str)> =
        req.headers.iter().map(|(n, v)| (n.as_str(), v.as_str())).collect();
    assert_eq!(fields, vec![("a", "1"), ("a", "2"), ("c", "3")]);
}

#[test]
fn plain_request_ends_with_the_content_type() {
    let msg = ServerMessage::from(&discord_message(Some(123)));
    let request = target().try_post(msg, b"{}".to_vec()).unwrap();
    assert_eq!(request.head.method, Method::Post);
    assert_eq!(request.head.uri, "http://localhost/server/123/channel/456/message");
    assert_eq!(request.head.headers.len(), 12);
    assert_eq!(request.head.headers[0], ("message-id".to_string(), "789".to_string()));
    assert_eq!(
        request.head.headers[11],
        ("content-type".to_string(), "text/plain; charset=utf-8".to_string())
    );
    assert_eq!(request.body, "!roll é".as_bytes().to_vec());
    let request = target().post(DirectMessage::from(&discord_message(None)), vec![]);
    assert_eq!(request.body, "!roll é".as_bytes().to_vec());
    let request = target().post(Connected { shard: 1 }, b"{}".to_vec());
    assert_eq!(request.head.uri, "http://localhost/hello/discord");
    assert_eq!(
        request.head.headers,
        vec![("content-type".to_string(), "application/json".to_string())]
    );
    assert_eq!(request.body, b"{}".to_vec());
}

#[test]
fn plain_author_with_a_control_character_cannot_be_told_of() {
    let mut msg = ServerMessage::from(&discord_message(Some(123)));
    msg.author.user.name = "a\nb".to_string();
    assert_eq!(target().try_post(msg, vec![]).err(), Some(RequestError::InvalidHeaderValue));
    let mut msg = DirectMessage::from(&discord_message(None));
    assert!(target().try_post(msg, vec![]).is_ok());
    msg = DirectMessage::from(&discord_message(None));
    msg.author.name = "\u{7f}".to_string();
    assert_eq!(target().try_post(msg, vec![]).err(), Some(RequestError::InvalidHeaderValue));
    let mut member = Member::from(&discord_member());
    assert!(target().try_post(ServerJoin(member.clone()), vec![]).is_ok());
    member.pseudonym = Some("\r".to_string());
    assert_eq!(
        target().try_post(ServerJoin(member), vec![]).err(),
        Some(RequestError::InvalidHeaderValue)
    );
    let bad = Client::try_new("no where".to_string(), None, None).ok().unwrap();
    assert_eq!(
        bad.try_post(Connected { shard: 1 }, vec![]).err(),
        Some(RequestError::InvalidUri)
    );
}

#[test]
fn plain_client_needs_good_patterns() {
    let bad = Some("(".to_string());
    assert_eq!(
        Client::try_new(String::new(), bad.clone(), None).err(),
        Some(BadPattern::CommandMatch)
    );
    assert_eq!(Client::try_new(String::new(), None, bad).err(), Some(BadPattern::CommandParse));
    let client = Client::new(String::new(), Some("a".to_string()), Some("(a)".to_string()));
    assert_eq!(client.parse_command("banana"), Some(vec!["a".to_string(); 3]));
}

#[test]
fn plain_events_have_payloads() {
    let event = Event::MessageCreate(discord_message(Some(123)));
    let payload = handle_event(&target(), 0, &event).unwrap();
    assert!(matches!(&payload, Payload::ServerCommand(c) if c.command.is_empty()));
    assert_eq!(payload.url(), "/command/");
    assert_eq!(groups(&payload)[1].0, "server-id");
    let payload = payload_for(0, &event, None).unwrap();
    assert!(matches!(payload, Payload::ServerMessage(m) if m.flags
        == vec![MessageFlag::Crossposted, MessageFlag::Urgent]));
    let event = Event::MessageCreate(discord_message(None));
    assert!(matches!(handle_event(&target(), 0, &event), Some(Payload::DirectCommand(_))));
    assert!(matches!(payload_for(0, &event, None), Some(Payload::DirectMessage(_))));
    let event = Event::MemberAdd(discord_member());
    assert!(matches!(handle_event(&target(), 0, &event), Some(Payload::ServerJoin(_))));
    let payload = handle_event(&target(), 9, &Event::ShardConnected);
    assert!(matches!(payload, Some(Payload::Connected(c)) if c.shard == 9));
    assert!(handle_event(&target(), 0, &Event::Other).is_none());
}

#[test]
fn only_responses_to_server_messages_are_looked_at() {
    let server = Event::MessageCreate(discord_message(Some(123)));
    for status in [200u16, 204, 299, 404] {
        assert!(can_leave(&server, status));
    }
    for status in [100u16, 199, 300, 301, 304, 400, 403, 405, 500, 600] {
        assert!(!can_leave(&server, status));
        assert!(can_leave(&Event::MessageCreate(discord_message(None)), status));
        assert!(can_leave(&Event::MemberAdd(discord_member()), status));
        assert!(can_leave(&Event::ShardConnected, status));
        assert!(can_leave(&Event::Other, status));
    }
}
