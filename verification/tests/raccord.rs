use accord::command::BadPattern;
use accord::discord;
use accord::raccord::{
    message_body, Client, Command, Connected, Connecting, DirectMessage, Member, MessageFlag, MessageType,
    Sendable, ServerJoin, ServerMessage, User,
};
use accord::wire::{Method, RequestBuilder, RequestError};
use twilight_model::channel::embed::Embed;
use twilight_model::channel::message::{MessageApplication, MessageFlags, MessageReaction};
use twilight_model::channel::{Attachment, ReactionType};
use twilight_model::id::{ApplicationId, AttachmentId};

fn attachment() -> Attachment {
    Attachment {
        filename: "a.png".to_string(),
        height: Some(184),
        id: AttachmentId(9),
        proxy_url: "https://cdn.example.com/1.png".to_string(),
        size: 13_593,
        url: "https://example.com/1.png".to_string(),
        width: None,
    }
}

fn embed() -> Embed {
    Embed {
        author: None,
        color: Some(123),
        description: Some("a description".to_string()),
        fields: vec![],
        footer: None,
        image: None,
        kind: "rich".to_string(),
        provider: None,
        thumbnail: None,
        timestamp: None,
        title: None,
        url: None,
        video: None,
    }
}

fn reaction() -> MessageReaction {
    MessageReaction {
        count: 7,
        emoji: ReactionType::Unicode { name: "a".to_string() },
        me: true,
    }
}

fn application() -> MessageApplication {
    MessageApplication {
        cover_image: None,
        description: "a description".to_string(),
        icon: None,
        id: ApplicationId(1),
        name: "application".to_string(),
    }
}

fn user() -> User {
    User { id: 42, name: "Zoë".to_string(), discriminator: "0001".to_string(), bot: false }
}

fn server_message() -> ServerMessage {
    ServerMessage {
        id: 789,
        server_id: 123,
        channel_id: 456,
        author: Member {
            user: user(),
            server_id: 123,
            roles: Some(vec![10, 11]),
            pseudonym: Some("z".to_string()),
        },
        timestamp_created: "then".to_string(),
        timestamp_edited: Some("now".to_string()),
        kind: MessageType::Reply,
        content: "¡roll d20".to_string(),
        attachments: vec![attachment()],
        embeds: vec![embed(), embed()],
        reactions: vec![reaction()],
        application: Some(application()),
        flags: vec![MessageFlag::Crossposted, MessageFlag::Urgent],
    }
}

fn direct_message() -> DirectMessage {
    DirectMessage {
        id: 789,
        channel_id: 456,
        author: User { bot: true, ..user() },
        timestamp_created: "then".to_string(),
        timestamp_edited: None,
        kind: MessageType::Regular,
        content: "hi".to_string(),
        attachments: vec![],
        embeds: vec![],
        reactions: vec![],
        application: None,
        flags: vec![],
    }
}

fn discord_user() -> discord::User {
    discord::User {
        avatar: Some("face".to_string()),
        bot: true,
        discriminator: "0002".to_string(),
        email: None,
        flags: None,
        id: 42,
        locale: None,
        mfa_enabled: None,
        name: "test".to_string(),
        premium_type: None,
        public_flags: None,
        system: None,
        verified: Some(true),
    }
}

fn discord_message() -> discord::Message {
    discord::Message {
        activity: None,
        application: Some(application()),
        attachments: vec![attachment()],
        author: discord_user(),
        channel_id: 456,
        content: "!roll d20".to_string(),
        edited_timestamp: None,
        embeds: vec![embed()],
        flags: Some(MessageFlags::IS_CROSSPOST | MessageFlags::URGENT),
        guild_id: Some(123),
        id: 789,
        kind: discord::MessageType::Reply,
        member: Some(discord::PartialMember {
            deaf: true,
            joined_at: Some("once".to_string()),
            mute: true,
            nick: Some("nick".to_string()),
            roles: vec![10, 11],
        }),
        mention_channels: vec![],
        mention_everyone: true,
        mention_roles: vec![5],
        mentions: vec![discord_user()],
        pinned: true,
        reactions: vec![reaction()],
        reference: None,
        referenced_message: None,
        stickers: vec![],
        timestamp: "then".to_string(),
        tts: true,
        webhook_id: Some(6),
    }
}

fn pairs(list: &[(&str, &str)]) -> Vec<(String, String)> {
    list.iter().map(|(n, v)| (n.to_string(), v.to_string())).collect()
}

fn headers<S: Sendable>(payload: &S) -> Vec<(String, String)> {
    payload.customise(RequestBuilder::new(Method::Post, "http://x/".to_string())).headers
}

fn client(base: &str) -> Client {
    match Client::try_new(base.to_string(), None, None) {
        Ok(client) => client,
        Err(_) => panic!("no patterns"),
    }
}

#[test]
fn announcements_have_a_path_and_no_header_fields() {
    assert_eq!(Connecting.url(), "/discord/connecting");
    assert_eq!(headers(&Connecting), pairs(&[]));
    assert_eq!(Connected { shard: 3 }.url(), "/discord/connected");
    assert_eq!(headers(&Connected { shard: 3 }), pairs(&[]));
}

#[test]
fn server_message_has_its_path_and_header_fields() {
    let msg = server_message();
    assert_eq!(msg.url(), "/server/123/channel/456/message");
    assert_eq!(
        headers(&msg),
        pairs(&[
            ("accord-message-id", "789"),
            ("accord-server-id", "123"),
            ("accord-channel-type", "text"),
            ("accord-channel-id", "456"),
            ("accord-author-type", "user"),
            ("accord-author-id", "42"),
            ("accord-author-name", "\\u{5a}\\u{6f}\\u{eb}"),
            ("accord-content-length", "10"),
            ("accord-author-pseudonym", "\\u{7a}"),
            ("accord-author-role-ids", "10"),
            ("accord-author-role-ids", "11"),
            ("accord-message-flags", "crossposted"),
            ("accord-message-flags", "urgent"),
            ("accord-has-attachments", "1"),
            ("accord-has-embeds", "2"),
            ("accord-has-reactions", "1"),
        ])
    );
}

#[test]
fn server_message_leaves_out_what_is_empty() {
    let mut msg = server_message();
    msg.author.roles = None;
    msg.author.pseudonym = None;
    msg.author.user.bot = true;
    msg.flags = vec![];
    msg.attachments = vec![];
    msg.embeds = vec![];
    msg.reactions = vec![];
    msg.content = String::new();
    assert_eq!(
        headers(&msg),
        pairs(&[
            ("accord-message-id", "789"),
            ("accord-server-id", "123"),
            ("accord-channel-type", "text"),
            ("accord-channel-id", "456"),
            ("accord-author-type", "bot"),
            ("accord-author-id", "42"),
            ("accord-author-name", "\\u{5a}\\u{6f}\\u{eb}"),
            ("accord-content-length", "0"),
        ])
    );
}

#[test]
fn direct_message_has_its_path_and_header_fields() {
    let mut msg = direct_message();
    msg.flags = vec![MessageFlag::SuppressEmbeds];
    msg.embeds = vec![embed()];
    assert_eq!(msg.url(), "/direct/456/message");
    assert_eq!(
        headers(&msg),
        pairs(&[
            ("accord-message-id", "789"),
            ("accord-channel-type", "direct"),
            ("accord-channel-id", "456"),
            ("accord-author-type", "bot"),
            ("accord-author-id", "42"),
            ("accord-author-name", "\\u{5a}\\u{6f}\\u{eb}"),
            ("accord-content-length", "2"),
            ("accord-message-flags", "suppress-embeds"),
            ("accord-has-embeds", "1"),
        ])
    );
}

#[test]
fn join_has_its_path_and_header_fields() {
    let join = ServerJoin(server_message().author);
    assert_eq!(join.url(), "/server/123/join/42");
    assert_eq!(
        headers(&join),
        pairs(&[
            ("accord-server-id", "123"),
            ("accord-member-id", "42"),
            ("accord-member-name", "\\u{5a}\\u{6f}\\u{eb}"),
            ("accord-member-pseudonym", "z"),
            ("accord-member-role-ids", "10"),
            ("accord-member-role-ids", "11"),
        ])
    );
}

#[test]
fn command_has_its_own_path_and_its_messages_header_fields() {
    let words: Vec<String> = ["command", "sub", "command"].iter().map(|w| w.to_string()).collect();
    let command = Command { command: words, message: server_message() };
    assert_eq!(command.url(), "/command/command/sub/command");
    assert_eq!(headers(&command), headers(&server_message()));
    let bare = Command { command: vec![], message: direct_message() };
    assert_eq!(bare.url(), "/command/");
    assert_eq!(headers(&bare), headers(&direct_message()));
}

#[test]
fn header_fields_are_added_after_those_of_the_request() {
    let req = RequestBuilder::new(Method::Post, "http://x/".to_string())
        .header("first", "1".to_string());
    let req = direct_message().customise(req);
    assert_eq!(req.headers[0], ("first".to_string(), "1".to_string()));
    assert_eq!(req.headers[1..].to_vec(), headers(&direct_message()));
}

#[test]
fn message_is_posted_to_the_target() {
    let mut msg = server_message();
    msg.content = "!roll d20".to_string();
    let fields = headers(&msg);
    let request = client("http://localhost:1234").post(msg, b"{}".to_vec()).unwrap();
    assert_eq!(request.head.method, Method::Post);
    assert_eq!(request.head.uri, "http://localhost:1234/server/123/channel/456/message");
    assert_eq!(
        request.head.headers[0],
        ("content-type".to_string(), "text/plain; charset=utf-8".to_string())
    );
    assert_eq!(request.head.headers[1..].to_vec(), fields);
    assert_eq!(request.body, b"!roll d20".to_vec());
}

#[test]
fn message_is_told_in_its_contents() {
    assert_eq!(message_body(&"¡é🎲".to_string()), "¡é🎲".as_bytes().to_vec());
    assert_eq!(message_body(&String::new()), Vec::<u8>::new());
    let request = client("http://localhost").post(server_message(), vec![]).unwrap();
    assert_eq!(request.body, "¡roll d20".as_bytes().to_vec());
    let length = ("accord-content-length".to_string(), request.body.len().to_string());
    assert!(request.head.headers.contains(&length));
    let request = client("http://localhost").post(direct_message(), b"{}".to_vec()).unwrap();
    assert_eq!(request.body, b"hi".to_vec());
    assert_eq!(
        request.head.headers[0],
        ("content-type".to_string(), "text/plain; charset=utf-8".to_string())
    );
}

#[test]
fn anything_but_a_message_is_told_in_json() {
    let json = ("content-type".to_string(), "application/json".to_string());
    let target = client("http://localhost");
    let request = target.post(Connected { shard: 1 }, b"{1}".to_vec()).unwrap();
    assert_eq!((request.head.headers[0].clone(), request.body), (json.clone(), b"{1}".to_vec()));
    let join = ServerJoin(server_message().author);
    let request = target.post(join, b"{2}".to_vec()).unwrap();
    assert_eq!((request.head.headers[0].clone(), request.body), (json.clone(), b"{2}".to_vec()));
    let command = Command { command: vec![], message: direct_message() };
    let request = target.post(command, b"{3}".to_vec()).unwrap();
    assert_eq!((request.head.headers[0].clone(), request.body), (json, b"{3}".to_vec()));
}

#[test]
fn connection_is_announced_to_the_target() {
    let request = client("http://localhost:1234").get(Connecting).unwrap();
    assert_eq!(request.method, Method::Get);
    assert_eq!(request.uri, "http://localhost:1234/discord/connecting");
    assert_eq!(request.headers, pairs(&[("content-type", "application/json")]));
}

#[test]
fn bad_base_makes_no_request() {
    for base in ["http://local host", "http://", "http://[", "http://x:\u{0}"] {
        assert_eq!(client(base).get(Connecting).err(), Some(RequestError::InvalidUri), "{}", base);
        assert_eq!(
            client(base).post(server_message(), vec![]).err(),
            Some(RequestError::InvalidUri),
            "{}",
            base
        );
    }
}

#[test]
fn any_author_can_be_told_of() {
    let mut msg = server_message();
    msg.author.user.name = "\u{0}\r\n\u{7f}é".to_string();
    msg.author.pseudonym = Some("\n".to_string());
    assert!(client("http://localhost").post(msg, vec![]).is_ok());
    let mut msg = direct_message();
    msg.author.name = "\n".to_string();
    assert!(client("http://localhost").post(msg, vec![]).is_ok());
}

#[test]
fn newcomer_with_a_control_character_in_the_pseudonym_cannot_be_told_of() {
    let mut member = server_message().author;
    member.user.name = "\n".to_string();
    assert!(client("http://localhost").post(ServerJoin(member.clone()), vec![]).is_ok());
    member.pseudonym = Some("Zoë\t".to_string());
    assert!(client("http://localhost").post(ServerJoin(member.clone()), vec![]).is_ok());
    member.pseudonym = Some("a\nb".to_string());
    assert_eq!(
        client("http://localhost").post(ServerJoin(member), vec![]).err(),
        Some(RequestError::InvalidHeaderValue)
    );
}

#[test]
fn command_with_a_space_makes_a_bad_uri() {
    let command = Command { command: vec!["a b".to_string()], message: direct_message() };
    assert_eq!(
        client("http://localhost").post(command, vec![]).err(),
        Some(RequestError::InvalidUri)
    );
}

#[test]
fn client_needs_good_patterns() {
    let bad = Some("(".to_string());
    let good = Some("^!".to_string());
    let base = || "http://localhost".to_string();
    assert_eq!(
        Client::try_new(base(), bad.clone(), good.clone()).err(),
        Some(BadPattern::CommandMatch)
    );
    assert_eq!(
        Client::try_new(base(), good.clone(), bad.clone()).err(),
        Some(BadPattern::CommandParse)
    );
    let target = Client::try_new(base(), good.clone(), Some(r"(\w+)".to_string())).ok().unwrap();
    assert_eq!(
        target.parse_command("!roll d20"),
        Some(vec!["roll".to_string(), "d20".to_string()])
    );
    assert_eq!(target.parse_command("roll d20"), None);
    let target = Client::new(base(), good, None);
    assert_eq!(target.parse_command("!roll"), Some(vec![]));
}

#[test]
fn flags_are_listed_in_the_order_of_their_bits() {
    assert_eq!(MessageFlag::from_discord(MessageFlags::empty()), vec![]);
    assert_eq!(
        MessageFlag::from_discord(MessageFlags::all()),
        vec![
            MessageFlag::Crossposted,
            MessageFlag::IsCrosspost,
            MessageFlag::SuppressEmbeds,
            MessageFlag::SourceMessageDeleted,
            MessageFlag::Urgent,
        ]
    );
    assert_eq!(
        MessageFlag::from_discord(MessageFlags::URGENT | MessageFlags::IS_CROSSPOST),
        vec![MessageFlag::IsCrosspost, MessageFlag::Urgent]
    );
}

#[test]
fn flags_are_packed() {
    assert_eq!(MessageFlag::to_discord(&[]), None);
    assert_eq!(
        MessageFlag::to_discord(&[MessageFlag::Urgent, MessageFlag::Crossposted]),
        Some(MessageFlags::URGENT | MessageFlags::CROSSPOSTED)
    );
    assert_eq!(
        MessageFlag::to_discord(&[
            MessageFlag::IsCrosspost,
            MessageFlag::SuppressEmbeds,
            MessageFlag::SourceMessageDeleted,
            MessageFlag::IsCrosspost,
        ]),
        Some(
            MessageFlags::IS_CROSSPOST
                | MessageFlags::SUPPRESS_EMBEDS
                | MessageFlags::SOURCE_MESSAGE_DELETED
        )
    );
}

#[test]
fn flags_survive_the_round_trip() {
    for bits in 0u64..32 {
        let flags = MessageFlags::from_bits_truncate(bits);
        let listed = MessageFlag::from_discord(flags);
        let packed = MessageFlag::to_discord(&listed);
        assert_eq!(packed.is_none(), flags.is_empty());
        assert_eq!(packed.unwrap_or(MessageFlags::empty()), flags);
        let again = packed.map(MessageFlag::from_discord).unwrap_or_default();
        assert_eq!(again, listed);
    }
    let mixed = [MessageFlag::Urgent, MessageFlag::Crossposted, MessageFlag::Urgent];
    let packed = MessageFlag::to_discord(&mixed).unwrap();
    assert_eq!(
        MessageFlag::from_discord(packed),
        vec![MessageFlag::Crossposted, MessageFlag::Urgent]
    );
}

#[test]
fn flags_have_names() {
    assert_eq!(MessageFlag::Crossposted.to_string(), "crossposted");
    assert_eq!(MessageFlag::IsCrosspost.to_string(), "is-crosspost");
    assert_eq!(MessageFlag::SuppressEmbeds.to_string(), "suppress-embeds");
    assert_eq!(MessageFlag::SourceMessageDeleted.to_string(), "source-message-deleted");
    assert_eq!(MessageFlag::Urgent.to_string(), "urgent");
}

#[test]
fn kinds_survive_the_round_trip() {
    let kinds = [
        MessageType::Regular,
        MessageType::RecipientAdd,
        MessageType::RecipientRemove,
        MessageType::Call,
        MessageType::ChannelNameChange,
        MessageType::ChannelIconChange,
        MessageType::ChannelMessagePinned,
        MessageType::GuildMemberJoin,
        MessageType::UserPremiumSub,
        MessageType::UserPremiumSubTier1,
        MessageType::UserPremiumSubTier2,
        MessageType::UserPremiumSubTier3,
        MessageType::ChannelFollowAdd,
        MessageType::GuildDiscoveryDisqualified,
        MessageType::GuildDiscoveryRequalified,
        MessageType::Reply,
    ];
    for kind in kinds {
        let dis = discord::MessageType::from(kind);
        assert_eq!(format!("{:?}", dis), format!("{:?}", kind));
        assert_eq!(MessageType::from(dis), kind);
    }
    assert_eq!(MessageType::default(), MessageType::Regular);
}

#[test]
fn user_is_told_of() {
    let told = User::from(&discord_user());
    assert_eq!(told.id, 42);
    assert_eq!(told.name, "test");
    assert_eq!(told.discriminator, "0002");
    assert!(told.bot);
}

#[test]
fn user_survives_the_round_trip() {
    let dis = discord::User::from(&user());
    assert_eq!(dis.avatar, None);
    assert_eq!(dis.verified, None);
    let back = User::from(&dis);
    assert_eq!(back.id, 42);
    assert_eq!(back.name, "Zoë");
    assert_eq!(back.discriminator, "0001");
    assert!(!back.bot);
}

#[test]
fn author_is_told_of_as_a_member() {
    let author = Member::from(&discord_message());
    assert_eq!(author.user.id, 42);
    assert_eq!(author.server_id, 123);
    assert_eq!(author.roles, Some(vec![10, 11]));
    assert_eq!(author.pseudonym, Some("nick".to_string()));
    let mut message = discord_message();
    message.member = None;
    message.guild_id = None;
    let author = Member::from(&message);
    assert_eq!(author.server_id, 0);
    assert_eq!(author.roles, None);
    assert_eq!(author.pseudonym, None);
}

#[test]
fn member_is_told_of() {
    let member = Member::from(&discord::Member {
        guild_id: 8,
        nick: Some("n".to_string()),
        roles: vec![],
        user: discord_user(),
    });
    assert_eq!(member.user.name, "test");
    assert_eq!(member.server_id, 8);
    assert_eq!(member.roles, Some(vec![]));
    assert_eq!(member.pseudonym, Some("n".to_string()));
}

#[test]
fn membership_stands_for_a_member() {
    let partial = discord::PartialMember::from(&server_message().author);
    assert_eq!(partial.roles, vec![10, 11]);
    assert_eq!(partial.nick, Some("z".to_string()));
    assert!(!partial.deaf && !partial.mute);
    assert_eq!(partial.joined_at, None);
    let mut member = server_message().author;
    member.roles = None;
    assert_eq!(discord::PartialMember::from(&member).roles, Vec::<u64>::new());
}

#[test]
fn message_in_a_server_is_told() {
    let msg = ServerMessage::from(&discord_message());
    assert_eq!((msg.id, msg.server_id, msg.channel_id), (789, 123, 456));
    assert_eq!(msg.author.pseudonym, Some("nick".to_string()));
    assert_eq!(msg.timestamp_created, "then");
    assert_eq!(msg.timestamp_edited, None);
    assert_eq!(msg.kind, MessageType::Reply);
    assert_eq!(msg.content, "!roll d20");
    assert_eq!(msg.attachments, vec![attachment()]);
    assert_eq!(msg.embeds, vec![embed()]);
    assert_eq!(msg.reactions, vec![reaction()]);
    assert_eq!(msg.application, Some(application()));
    assert_eq!(msg.flags, vec![MessageFlag::IsCrosspost, MessageFlag::Urgent]);
}

#[test]
fn direct_message_is_told() {
    let mut dis = discord_message();
    dis.flags = None;
    let msg = DirectMessage::from(&dis);
    assert_eq!((msg.id, msg.channel_id, msg.author.id), (789, 456, 42));
    assert_eq!(msg.content, "!roll d20");
    assert_eq!(msg.reactions, vec![reaction()]);
    assert_eq!(msg.flags, vec![]);
}

#[test]
fn discord_message_stands_for_a_message_in_a_server() {
    let dis = discord::Message::from(&server_message());
    assert_eq!((dis.id, dis.guild_id, dis.channel_id), (789, Some(123), 456));
    assert_eq!(dis.author.name, "Zoë");
    let member = dis.member.as_ref().unwrap();
    assert_eq!(member.roles, vec![10, 11]);
    assert_eq!(member.nick, Some("z".to_string()));
    assert_eq!(dis.timestamp, "then");
    assert_eq!(dis.edited_timestamp, Some("now".to_string()));
    assert_eq!(dis.kind, discord::MessageType::Reply);
    assert_eq!(dis.content, "¡roll d20");
    assert_eq!(dis.attachments, vec![attachment()]);
    assert_eq!(dis.embeds, vec![embed(), embed()]);
    assert_eq!(dis.reactions, vec![reaction()]);
    assert_eq!(dis.application, Some(application()));
    assert_eq!(dis.flags, Some(MessageFlags::CROSSPOSTED | MessageFlags::URGENT));
    assert!(dis.activity.is_none() && dis.reference.is_none() && dis.referenced_message.is_none());
    assert!(dis.mention_channels.is_empty() && dis.mention_roles.is_empty());
    assert!(dis.mentions.is_empty() && dis.stickers.is_empty());
    assert!(!dis.mention_everyone && !dis.tts && !dis.pinned);
    assert_eq!(dis.webhook_id, None);
}

#[test]
fn discord_message_stands_for_a_direct_message() {
    let dis = discord::Message::from(&direct_message());
    assert_eq!((dis.id, dis.guild_id, dis.channel_id), (789, None, 456));
    assert!(dis.member.is_none());
    assert_eq!(dis.author.discriminator, "0001");
    assert_eq!(dis.kind, discord::MessageType::Regular);
    assert_eq!(dis.content, "hi");
    assert_eq!(dis.flags, None);
}

#[test]
fn ghost_of_a_told_message_is_told_alike() {
    let msg = ServerMessage::from(&discord_message());
    let again = ServerMessage::from(&discord::Message::from(&msg));
    assert_eq!(format!("{:?}", again), format!("{:?}", msg));
    let mut dis = discord_message();
    dis.member = None;
    let msg = ServerMessage::from(&dis);
    let again = ServerMessage::from(&discord::Message::from(&msg));
    assert_eq!(again.author.roles, Some(vec![]));
    assert_eq!(again.url(), msg.url());
    assert_eq!(headers(&again), headers(&msg));
    let msg = DirectMessage::from(&discord_message());
    let again = DirectMessage::from(&discord::Message::from(&msg));
    assert_eq!(format!("{:?}", again), format!("{:?}", msg));
}

#[test]
fn ghost_of_a_message_is_the_message_put_in_order() {
    let mut msg = server_message();
    msg.author.server_id = 7;
    msg.author.roles = None;
    msg.flags = vec![MessageFlag::Urgent, MessageFlag::Crossposted, MessageFlag::Urgent];
    let again = ServerMessage::from(&discord::Message::from(&msg));
    assert_eq!(again.author.server_id, 123);
    assert_eq!(again.author.roles, Some(vec![]));
    assert_eq!(again.flags, vec![MessageFlag::Crossposted, MessageFlag::Urgent]);
    assert_eq!(again.content, msg.content);
    assert_eq!(again.url(), msg.url());
}
