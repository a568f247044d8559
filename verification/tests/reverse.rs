use accord::act::{Act, Stage};
use accord::discord::Event;
use accord::forward::{try_event, Payload};
use accord::raccord::{
    Client, DirectMessage, Member, MessageType, Sendable, ServerMessage, User,
};
use accord::reverse::{summon_direct, summon_server};
use accord::tester::Wrap;

fn user() -> User {
    User { id: 42, name: "boo".to_string(), discriminator: "".to_string(), bot: true }
}

fn server_message(content: &str) -> ServerMessage {
    ServerMessage {
        id: 789,
        server_id: 123,
        channel_id: 456,
        author: Member { user: user(), server_id: 123, roles: None, pseudonym: None },
        timestamp_created: "then".to_string(),
        timestamp_edited: None,
        kind: MessageType::default(),
        content: content.to_string(),
        attachments: vec![],
        embeds: vec![],
        reactions: vec![],
        application: None,
        flags: vec![],
    }
}

fn direct_message() -> DirectMessage {
    DirectMessage {
        id: 789,
        channel_id: 456,
        author: user(),
        timestamp_created: "then".to_string(),
        timestamp_edited: None,
        kind: MessageType::default(),
        content: "boo".to_string(),
        attachments: vec![],
        embeds: vec![],
        reactions: vec![],
        application: None,
        flags: vec![],
    }
}

fn target() -> Client {
    Client::try_new("http://localhost".to_string(), Some("^!".to_string()), None).ok().unwrap()
}

#[test]
fn ghost_of_a_server_message_is_forwarded() {
    let (shard, event) = summon_server(&server_message("boo"));
    assert_eq!(shard, 0);
    assert!(matches!(&event, Event::MessageCreate(m) if m.guild_id == Some(123)));
    let dispatch = try_event(&target(), shard, &event).unwrap();
    assert_eq!(dispatch.payload.url(), server_message("boo").url());
    assert_eq!((dispatch.from_server, dispatch.from_channel), (Some(123), Some(456)));
    assert_eq!(dispatch.payload.body(), Some(b"boo".to_vec()));
    match dispatch.payload {
        Payload::ServerMessage(told) => {
            assert_eq!(told.content, "boo");
            assert_eq!(told.author.user.name, "boo");
            assert_eq!(told.author.roles, Some(vec![]));
        }
        _ => panic!("no command"),
    }
}

#[test]
fn ghost_can_be_a_command() {
    let (shard, event) = summon_server(&server_message("!boo"));
    let dispatch = try_event(&target(), shard, &event).unwrap();
    assert!(matches!(dispatch.payload, Payload::ServerCommand(_)));
    assert_eq!(dispatch.payload.url(), "/command/");
}

#[test]
fn ghost_of_a_direct_message_is_forwarded() {
    let (shard, event) = summon_direct(&direct_message());
    assert_eq!(shard, 0);
    assert!(matches!(&event, Event::MessageCreate(m) if m.guild_id.is_none()));
    let dispatch = try_event(&target(), shard, &event).unwrap();
    assert_eq!(dispatch.payload.url(), "/direct/456/message");
    assert_eq!((dispatch.from_server, dispatch.from_channel), (None, Some(456)));
}

#[test]
fn staged_act_is_sent_to_the_target_for_trial() {
    let stage = Stage {
        act: Act::CreateMessage { content: "a".to_string(), channel_id: None },
        default_server_id: None,
        default_channel_id: Some(1),
    };
    let request = target().post(Wrap(stage), b"x".to_vec()).unwrap();
    assert_eq!(request.head.uri, "http://localhost/test/act");
    assert_eq!(
        request.head.headers,
        vec![("content-type".to_string(), "application/json".to_string())]
    );
    assert_eq!(request.body, b"x".to_vec());
}
