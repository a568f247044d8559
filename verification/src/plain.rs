//! The plain flavour of the bridge: header fields without a prefix, texts as they stand, and no
//! acts in return.

use twilight_model::channel::embed::Embed;
use twilight_model::channel::message::{MessageApplication, MessageReaction};
use twilight_model::channel::Attachment;
use vstd::prelude::*;

use crate::command::{
    command_under, opt_compiles, opt_texts, patterns_in_use, BadPattern, Commands, CommandsView,
};
use crate::discord;
use crate::discord::{Event, MessageType};
use crate::laws::{
    lemma_decimal_is_value, lemma_fault_of_values, lemma_flag_name_is_value, names_ok, values_ok,
};
use crate::raccord::{
    author_type, author_type_text, body_of, byte_length, byte_length_text, clone_attachments,
    clone_embeds, clone_reactions, clone_roles, command_path, content_type, decimals, flag_names,
    flags_of, message_body, opt_encoded, opt_flags_listed, opt_roles, repeated, MessageFlag, Request,
};
use crate::stream::opt_bytes;
use crate::text::{clone_opt, decimal, decimal_text, opt_text, slash_join, texts};
use crate::wire::{
    fault_in, fault_of, few_names, law_few_names_have_room, lemma_names_of_fields,
    lemma_names_of_one, lemma_names_of_parts, may_fault, name_set, sure_fault, uri_accepted,
    uri_parses, valid_name, valid_value, Method, RequestBuilder, RequestError, RequestView,
};

verus! {

/// The values of header fields, under the name that they share.
pub type HeaderGroup = (Seq<char>, Seq<Seq<char>>);

/// What a list of header groups holds.
pub open spec fn group_views(groups: Seq<(&str, Vec<String>)>) -> Seq<HeaderGroup> {
    groups.map_values(|g: (&str, Vec<String>)| (g.0@, texts(g.1@)))
}

/// One header field for each value of each group, in order.
pub open spec fn spread(groups: Seq<HeaderGroup>) -> Seq<(Seq<char>, Seq<char>)>
    decreases groups.len(),
{
    if groups.len() == 0 {
        seq![]
    } else {
        spread(groups.drop_last()) + repeated(groups.last().0, groups.last().1)
    }
}

/// Something that the target is told.
pub trait Sendable {
    /// The path that it is sent to, under the target's base.
    spec fn path(&self) -> Seq<char>;

    /// The header fields that go with it, in groups.
    spec fn header_groups(&self) -> Seq<HeaderGroup>;

    /// The text that it is told in, where it is a message. Anything else is told in JSON.
    spec fn contents(&self) -> Option<Seq<char>>;

    /// Writes the path.
    fn url(&self) -> (r: String)
        ensures
            r@ == self.path(),
    ;

    /// Makes the header fields.
    fn headers(&self) -> (r: Vec<(&str, Vec<String>)>)
        ensures
            group_views(r@) == self.header_groups(),
    ;

    /// Writes the text that it is told in, where it is a message.
    fn body(&self) -> (r: Option<Vec<u8>>)
        ensures
            opt_bytes(r) == opt_encoded(self.contents()),
    ;
}

/// A list of one text.
fn one(value: String) -> (r: Vec<String>)
    ensures
        texts(r@) == seq![value@],
{
    let r: Vec<String> = vec![value];
    assert(texts(r@) == seq![value@]);
    r
}

/// Adds one group of header fields to a list.
fn add_group<'a>(groups: &mut Vec<(&'a str, Vec<String>)>, name: &'a str, values: Vec<String>)
    ensures
        group_views(final(groups)@) == group_views(old(groups)@).push((name@, texts(values@))),
{
    groups.push((name, values));
    assert(group_views(groups@) == group_views(old(groups)@).push((name@, texts(values@))));
}

/// A group, unless it has no values.
pub open spec fn if_filled(name: Seq<char>, values: Seq<Seq<char>>) -> Seq<HeaderGroup> {
    if values.len() > 0 {
        seq![(name, values)]
    } else {
        seq![]
    }
}

/// A group with one count, unless it is zero.
pub open spec fn count_group(name: Seq<char>, n: nat) -> Seq<HeaderGroup> {
    if n > 0 {
        seq![(name, seq![decimal(n)])]
    } else {
        seq![]
    }
}

/// Adds a group with one count to a list, unless the count is zero.
fn add_count_group<'a>(groups: &mut Vec<(&'a str, Vec<String>)>, name: &'a str, n: usize)
    ensures
        group_views(final(groups)@) == group_views(old(groups)@) + count_group(name@, n as nat),
{
    let ghost before = group_views(groups@);
    if n > 0 {
        add_group(groups, name, one(decimal_text(n as u64)));
    }
    assert(group_views(groups@) == before + count_group(name@, n as nat));
}

/// Writes numbers in base ten.
fn decimal_texts(numbers: &Vec<u64>) -> (r: Vec<String>)
    ensures
        texts(r@) == decimals(numbers@),
{
    let mut r: Vec<String> = Vec::new();
    let mut i: usize = 0;
    while i < numbers.len()
        invariant
            i <= numbers.len(),
            texts(r@) == decimals(numbers@).take(i as int),
        decreases numbers.len() - i,
    {
        let ghost before = r@;
        r.push(decimal_text(numbers[i]));
        assert(texts(r@) == texts(before).push(decimal(numbers@[i as int] as nat)));
        assert(decimals(numbers@).take(i + 1) == decimals(numbers@).take(i as int).push(
            decimal(numbers@[i as int] as nat),
        ));
        i = i + 1;
    }
    assert(decimals(numbers@).take(i as int) == decimals(numbers@));
    r
}

/// The groups of optional roles.
pub open spec fn role_group(name: Seq<char>, roles: Option<Seq<u64>>) -> Seq<HeaderGroup> {
    match roles {
        Some(ids) => if_filled(name, decimals(ids)),
        None => seq![],
    }
}

/// Adds the group of optional roles to a list, unless there are none.
fn add_role_group<'a>(
    groups: &mut Vec<(&'a str, Vec<String>)>,
    name: &'a str,
    roles: &Option<Vec<u64>>,
)
    ensures
        group_views(final(groups)@) == group_views(old(groups)@) + role_group(
            name@,
            opt_roles(*roles),
        ),
{
    let ghost before = group_views(groups@);
    match roles {
        Some(ids) => {
            if !ids.is_empty() {
                add_group(groups, name, decimal_texts(ids));
            }
        },
        None => {},
    }
    assert(group_views(groups@) == before + role_group(name@, opt_roles(*roles)));
}

/// Writes the names of flags.
fn flag_texts(flags: &Vec<MessageFlag>) -> (r: Vec<String>)
    ensures
        texts(r@) == flag_names(flags@),
{
    let mut r: Vec<String> = Vec::new();
    let mut i: usize = 0;
    while i < flags.len()
        invariant
            i <= flags.len(),
            texts(r@) == flag_names(flags@).take(i as int),
        decreases flags.len() - i,
    {
        let ghost before = r@;
        r.push(flags[i].to_string());
        assert(texts(r@) == texts(before).push(flag_names(flags@)[i as int]));
        assert(flag_names(flags@).take(i + 1) == flag_names(flags@).take(i as int).push(
            flag_names(flags@)[i as int],
        ));
        i = i + 1;
    }
    assert(flag_names(flags@).take(i as int) == flag_names(flags@));
    r
}

/// Adds the group of flags to a list, unless there are none.
fn add_flag_group<'a>(
    groups: &mut Vec<(&'a str, Vec<String>)>,
    name: &'a str,
    flags: &Vec<MessageFlag>,
)
    ensures
        group_views(final(groups)@) == group_views(old(groups)@) + if_filled(
            name@,
            flag_names(flags@),
        ),
{
    let ghost before = group_views(groups@);
    if !flags.is_empty() {
        add_group(groups, name, flag_texts(flags));
    }
    assert(group_views(groups@) == before + if_filled(name@, flag_names(flags@)));
}

/// The groups of an optional text.
pub open spec fn text_group(name: Seq<char>, value: Option<Seq<char>>) -> Seq<HeaderGroup> {
    match value {
        Some(text) => seq![(name, seq![text])],
        None => seq![],
    }
}

/// Adds the group of an optional text to a list.
fn add_text_group<'a>(
    groups: &mut Vec<(&'a str, Vec<String>)>,
    name: &'a str,
    value: &Option<String>,
)
    ensures
        group_views(final(groups)@) == group_views(old(groups)@) + text_group(
            name@,
            opt_text(*value),
        ),
{
    let ghost before = group_views(groups@);
    match value {
        Some(text) => {
            add_group(groups, name, one(text.clone()));
        },
        None => {},
    }
    assert(group_views(groups@) == before + text_group(name@, opt_text(*value)));
}

/// A shard of the bridge is connected to Discord.
#[derive(Clone, Debug)]
pub struct Connected {
    pub shard: u64,
}

impl Sendable for Connected {
    open spec fn path(&self) -> Seq<char> {
        "/hello/discord"@
    }

    open spec fn header_groups(&self) -> Seq<HeaderGroup> {
        seq![]
    }

    open spec fn contents(&self) -> Option<Seq<char>> {
        None
    }

    fn url(&self) -> (r: String) {
        "/hello/discord".to_owned()
    }

    fn headers(&self) -> (r: Vec<(&str, Vec<String>)>) {
        let r: Vec<(&str, Vec<String>)> = Vec::new();
        assert(group_views(r@) == Seq::<HeaderGroup>::empty());
        r
    }

    fn body(&self) -> (r: Option<Vec<u8>>) {
        None
    }
}

/// The account of a person or a bot.
#[derive(Clone, Debug)]
pub struct User {
    pub id: u64,
    pub name: String,
    pub bot: bool,
    pub roles: Option<Vec<u64>>,
}

/// What a [`User`] holds.
#[verifier::ext_equal]
pub struct UserView {
    pub id: u64,
    pub name: Seq<char>,
    pub bot: bool,
    pub roles: Option<Seq<u64>>,
}

impl View for User {
    type V = UserView;

    open spec fn view(&self) -> UserView {
        UserView { id: self.id, name: self.name@, bot: self.bot, roles: opt_roles(self.roles) }
    }
}

/// What the target is told of a Discord user, whose roles are left unsaid.
pub open spec fn user_of(dis: discord::UserView) -> UserView {
    UserView { id: dis.id, name: dis.name, bot: dis.bot, roles: None }
}

impl<'a> vstd::std_specs::convert::FromSpecImpl<&'a discord::User> for User {
    open spec fn obeys_from_spec() -> bool {
        true
    }

    open spec fn from_spec(dis: &'a discord::User) -> User {
        User { id: dis.id, name: dis.name, bot: dis.bot, roles: None }
    }
}

impl<'a> From<&'a discord::User> for User {
    /// What the target is told of a Discord user.
    fn from(dis: &'a discord::User) -> (r: Self)
        ensures
            r@ == user_of(dis@),
    {
        User { id: dis.id, name: dis.name.clone(), bot: dis.bot, roles: None }
    }
}

/// A user's membership in a server.
#[derive(Clone, Debug)]
pub struct Member {
    pub user: User,
    pub server_id: u64,
    pub roles: Option<Vec<u64>>,
    pub pseudonym: Option<String>,
}

/// What a [`Member`] holds.
#[verifier::ext_equal]
pub struct MemberView {
    pub user: UserView,
    pub server_id: u64,
    pub roles: Option<Seq<u64>>,
    pub pseudonym: Option<Seq<char>>,
}

impl View for Member {
    type V = MemberView;

    open spec fn view(&self) -> MemberView {
        MemberView {
            user: self.user@,
            server_id: self.server_id,
            roles: opt_roles(self.roles),
            pseudonym: opt_text(self.pseudonym),
        }
    }
}

/// What the target is told of the author of a Discord message, without a pseudonym. A message
/// without a server counts as one of server 0.
pub open spec fn author_of(dis: discord::MessageView) -> MemberView {
    MemberView {
        user: user_of(dis.author),
        server_id: match dis.guild_id {
            Some(id) => id,
            None => 0,
        },
        roles: match dis.member {
            Some(m) => Some(m.roles),
            None => None,
        },
        pseudonym: None,
    }
}

impl<'a> vstd::std_specs::convert::FromSpecImpl<&'a discord::Message> for Member {
    // What `from` gives is stated by its own `ensures`, over views.
    open spec fn obeys_from_spec() -> bool {
        false
    }

    open spec fn from_spec(dis: &'a discord::Message) -> Member {
        arbitrary()
    }
}

impl<'a> From<&'a discord::Message> for Member {
    /// What the target is told of the author of a Discord message.
    fn from(dis: &'a discord::Message) -> (r: Self)
        ensures
            r@ == author_of(dis@),
    {
        let server_id: u64 = match dis.guild_id {
            Some(id) => id,
            None => 0,
        };
        let roles: Option<Vec<u64>> = match &dis.member {
            Some(m) => Some(clone_roles(&m.roles)),
            None => None,
        };
        Member { user: User::from(&dis.author), server_id, roles, pseudonym: None }
    }
}

/// What the target is told of a member of a Discord server.
pub open spec fn member_of(dis: discord::MemberView) -> MemberView {
    MemberView {
        user: user_of(dis.user),
        server_id: dis.guild_id,
        roles: Some(dis.roles),
        pseudonym: dis.nick,
    }
}

impl<'a> vstd::std_specs::convert::FromSpecImpl<&'a discord::Member> for Member {
    // What `from` gives is stated by its own `ensures`, over views.
    open spec fn obeys_from_spec() -> bool {
        false
    }

    open spec fn from_spec(dis: &'a discord::Member) -> Member {
        arbitrary()
    }
}

impl<'a> From<&'a discord::Member> for Member {
    /// What the target is told of a member of a Discord server.
    fn from(dis: &'a discord::Member) -> (r: Self)
        ensures
            r@ == member_of(dis@),
    {
        Member {
            user: User::from(&dis.user),
            server_id: dis.guild_id,
            roles: Some(clone_roles(&dis.roles)),
            pseudonym: clone_opt(&dis.nick),
        }
    }
}

/// Someone has joined a server.
#[derive(Clone, Debug)]
pub struct ServerJoin(pub Member);

/// The path of a join.
pub open spec fn join_path(member: MemberView) -> Seq<char> {
    "/server/"@ + decimal(member.server_id as nat) + "/join/"@ + decimal(member.user.id as nat)
}

/// The header fields of a join.
pub open spec fn join_groups(member: MemberView) -> Seq<HeaderGroup> {
    seq![
        ("server-id"@, seq![decimal(member.server_id as nat)]),
        ("member-id"@, seq![decimal(member.user.id as nat)]),
        ("member-name"@, seq![member.user.name]),
    ] + text_group("member-pseudonym"@, member.pseudonym) + role_group(
        "member-role-ids"@,
        member.roles,
    )
}

impl Sendable for ServerJoin {
    open spec fn path(&self) -> Seq<char> {
        join_path(self.0@)
    }

    open spec fn header_groups(&self) -> Seq<HeaderGroup> {
        join_groups(self.0@)
    }

    open spec fn contents(&self) -> Option<Seq<char>> {
        None
    }

    fn url(&self) -> (r: String) {
        let mut r: String = "/server/".to_owned();
        r.append(decimal_text(self.0.server_id).as_str());
        r.append("/join/");
        r.append(decimal_text(self.0.user.id).as_str());
        r
    }

    fn headers(&self) -> (r: Vec<(&str, Vec<String>)>) {
        let mut h: Vec<(&str, Vec<String>)> = Vec::new();
        add_group(&mut h, "server-id", one(decimal_text(self.0.server_id)));
        add_group(&mut h, "member-id", one(decimal_text(self.0.user.id)));
        add_group(&mut h, "member-name", one(self.0.user.name.clone()));
        add_text_group(&mut h, "member-pseudonym", &self.0.pseudonym);
        add_role_group(&mut h, "member-role-ids", &self.0.roles);
        assert(group_views(h@) == self.header_groups());
        h
    }

    fn body(&self) -> (r: Option<Vec<u8>>) {
        None
    }
}

/// A message in a channel of a server.
#[derive(Debug)]
pub struct ServerMessage {
    pub id: u64,
    pub server_id: u64,
    pub channel_id: u64,
    pub author: Member,
    pub timestamp_created: String,
    pub timestamp_edited: Option<String>,
    pub kind: MessageType,
    pub content: String,
    pub attachments: Vec<Attachment>,
    pub embeds: Vec<Embed>,
    pub reactions: Vec<MessageReaction>,
    pub application: Option<MessageApplication>,
    pub flags: Vec<MessageFlag>,
}

/// What a [`ServerMessage`] holds.
#[verifier::ext_equal]
pub struct ServerMessageView {
    pub id: u64,
    pub server_id: u64,
    pub channel_id: u64,
    pub author: MemberView,
    pub timestamp_created: Seq<char>,
    pub timestamp_edited: Option<Seq<char>>,
    pub kind: MessageType,
    pub content: Seq<char>,
    pub attachments: Seq<Attachment>,
    pub embeds: Seq<Embed>,
    pub reactions: Seq<MessageReaction>,
    pub application: Option<MessageApplication>,
    pub flags: Seq<MessageFlag>,
}

impl View for ServerMessage {
    type V = ServerMessageView;

    open spec fn view(&self) -> ServerMessageView {
        ServerMessageView {
            id: self.id,
            server_id: self.server_id,
            channel_id: self.channel_id,
            author: self.author@,
            timestamp_created: self.timestamp_created@,
            timestamp_edited: opt_text(self.timestamp_edited),
            kind: self.kind,
            content: self.content@,
            attachments: self.attachments@,
            embeds: self.embeds@,
            reactions: self.reactions@,
            application: self.application,
            flags: self.flags@,
        }
    }
}

/// The path of a message in a server.
pub open spec fn server_message_path(msg: ServerMessageView) -> Seq<char> {
    "/server/"@ + decimal(msg.server_id as nat) + "/channel/"@ + decimal(msg.channel_id as nat)
        + "/message"@
}

/// The header fields of a message in a server.
pub open spec fn server_message_groups(msg: ServerMessageView) -> Seq<HeaderGroup> {
    seq![
        ("message-id"@, seq![decimal(msg.id as nat)]),
        ("server-id"@, seq![decimal(msg.server_id as nat)]),
        ("channel-id"@, seq![decimal(msg.channel_id as nat)]),
        ("author-type"@, seq![author_type(msg.author.user.bot)]),
        ("author-id"@, seq![decimal(msg.author.user.id as nat)]),
        ("author-name"@, seq![msg.author.user.name]),
        ("content-length"@, seq![decimal(byte_length(msg.content))]),
    ] + text_group("author-pseudonym"@, msg.author.pseudonym) + role_group(
        "author-role-ids"@,
        msg.author.roles,
    ) + if_filled("message-flags"@, flag_names(msg.flags)) + count_group(
        "has-attachments"@,
        msg.attachments.len(),
    ) + count_group("has-embeds"@, msg.embeds.len()) + count_group(
        "has-reactions"@,
        msg.reactions.len(),
    )
}

impl Sendable for ServerMessage {
    open spec fn path(&self) -> Seq<char> {
        server_message_path(self@)
    }

    open spec fn header_groups(&self) -> Seq<HeaderGroup> {
        server_message_groups(self@)
    }

    open spec fn contents(&self) -> Option<Seq<char>> {
        Some(self.content@)
    }

    fn url(&self) -> (r: String) {
        let mut r: String = "/server/".to_owned();
        r.append(decimal_text(self.server_id).as_str());
        r.append("/channel/");
        r.append(decimal_text(self.channel_id).as_str());
        r.append("/message");
        r
    }

    fn headers(&self) -> (r: Vec<(&str, Vec<String>)>) {
        let mut h: Vec<(&str, Vec<String>)> = Vec::new();
        add_group(&mut h, "message-id", one(decimal_text(self.id)));
        add_group(&mut h, "server-id", one(decimal_text(self.server_id)));
        add_group(&mut h, "channel-id", one(decimal_text(self.channel_id)));
        add_group(&mut h, "author-type", one(author_type_text(self.author.user.bot)));
        add_group(&mut h, "author-id", one(decimal_text(self.author.user.id)));
        add_group(&mut h, "author-name", one(self.author.user.name.clone()));
        add_group(&mut h, "content-length", one(byte_length_text(&self.content)));
        add_text_group(&mut h, "author-pseudonym", &self.author.pseudonym);
        add_role_group(&mut h, "author-role-ids", &self.author.roles);
        add_flag_group(&mut h, "message-flags", &self.flags);
        add_count_group(&mut h, "has-attachments", self.attachments.len());
        add_count_group(&mut h, "has-embeds", self.embeds.len());
        add_count_group(&mut h, "has-reactions", self.reactions.len());
        assert(group_views(h@) == self.header_groups());
        h
    }

    fn body(&self) -> (r: Option<Vec<u8>>) {
        Some(message_body(&self.content))
    }
}

/// What the target is told of a Discord message in a server.
pub open spec fn server_message_of(dis: discord::MessageView) -> ServerMessageView {
    ServerMessageView {
        id: dis.id,
        server_id: dis.guild_id->0,
        channel_id: dis.channel_id,
        author: author_of(dis),
        timestamp_created: dis.timestamp,
        timestamp_edited: dis.edited_timestamp,
        kind: dis.kind,
        content: dis.content,
        attachments: dis.attachments,
        embeds: dis.embeds,
        reactions: dis.reactions,
        application: dis.application,
        flags: opt_flags_listed(dis.flags),
    }
}

impl ServerMessage {
    /// What the target is told of a Discord message, which has to be one in a server.
    pub fn from(dis: &discord::Message) -> (r: Self)
        requires
            dis.guild_id is Some,
        ensures
            r@ == server_message_of(dis@),
    {
        ServerMessage {
            id: dis.id,
            server_id: dis.guild_id.unwrap(),
            channel_id: dis.channel_id,
            author: Member::from(dis),
            timestamp_created: dis.timestamp.clone(),
            timestamp_edited: clone_opt(&dis.edited_timestamp),
            kind: dis.kind,
            content: dis.content.clone(),
            attachments: clone_attachments(&dis.attachments),
            embeds: clone_embeds(&dis.embeds),
            reactions: clone_reactions(&dis.reactions),
            application: dis.application.clone(),
            flags: flags_of(&dis.flags),
        }
    }
}

/// A message in a direct conversation.
#[derive(Debug)]
pub struct DirectMessage {
    pub id: u64,
    pub channel_id: u64,
    pub author: User,
    pub timestamp_created: String,
    pub timestamp_edited: Option<String>,
    pub kind: MessageType,
    pub content: String,
    pub attachments: Vec<Attachment>,
    pub embeds: Vec<Embed>,
    pub reactions: Vec<MessageReaction>,
    pub application: Option<MessageApplication>,
    pub flags: Vec<MessageFlag>,
}

/// What a [`DirectMessage`] holds.
#[verifier::ext_equal]
pub struct DirectMessageView {
    pub id: u64,
    pub channel_id: u64,
    pub author: UserView,
    pub timestamp_created: Seq<char>,
    pub timestamp_edited: Option<Seq<char>>,
    pub kind: MessageType,
    pub content: Seq<char>,
    pub attachments: Seq<Attachment>,
    pub embeds: Seq<Embed>,
    pub reactions: Seq<MessageReaction>,
    pub application: Option<MessageApplication>,
    pub flags: Seq<MessageFlag>,
}

impl View for DirectMessage {
    type V = DirectMessageView;

    open spec fn view(&self) -> DirectMessageView {
        DirectMessageView {
            id: self.id,
            channel_id: self.channel_id,
            author: self.author@,
            timestamp_created: self.timestamp_created@,
            timestamp_edited: opt_text(self.timestamp_edited),
            kind: self.kind,
            content: self.content@,
            attachments: self.attachments@,
            embeds: self.embeds@,
            reactions: self.reactions@,
            application: self.application,
            flags: self.flags@,
        }
    }
}

/// The path of a direct message.
pub open spec fn direct_message_path(msg: DirectMessageView) -> Seq<char> {
    "/direct/"@ + decimal(msg.channel_id as nat) + "/message"@
}

/// The header fields of a direct message.
pub open spec fn direct_message_groups(msg: DirectMessageView) -> Seq<HeaderGroup> {
    seq![
        ("message-id"@, seq![decimal(msg.id as nat)]),
        ("direct-message"@, seq!["true"@]),
        ("channel-id"@, seq![decimal(msg.channel_id as nat)]),
        ("author-type"@, seq![author_type(msg.author.bot)]),
        ("author-id"@, seq![decimal(msg.author.id as nat)]),
        ("author-name"@, seq![msg.author.name]),
        ("content-length"@, seq![decimal(byte_length(msg.content))]),
    ] + if_filled("message-flags"@, flag_names(msg.flags)) + count_group(
        "has-attachments"@,
        msg.attachments.len(),
    ) + count_group("has-embeds"@, msg.embeds.len()) + count_group(
        "has-reactions"@,
        msg.reactions.len(),
    )
}

impl Sendable for DirectMessage {
    open spec fn path(&self) -> Seq<char> {
        direct_message_path(self@)
    }

    open spec fn header_groups(&self) -> Seq<HeaderGroup> {
        direct_message_groups(self@)
    }

    open spec fn contents(&self) -> Option<Seq<char>> {
        Some(self.content@)
    }

    fn url(&self) -> (r: String) {
        let mut r: String = "/direct/".to_owned();
        r.append(decimal_text(self.channel_id).as_str());
        r.append("/message");
        r
    }

    fn headers(&self) -> (r: Vec<(&str, Vec<String>)>) {
        let mut h: Vec<(&str, Vec<String>)> = Vec::new();
        add_group(&mut h, "message-id", one(decimal_text(self.id)));
        add_group(&mut h, "direct-message", one("true".to_owned()));
        add_group(&mut h, "channel-id", one(decimal_text(self.channel_id)));
        add_group(&mut h, "author-type", one(author_type_text(self.author.bot)));
        add_group(&mut h, "author-id", one(decimal_text(self.author.id)));
        add_group(&mut h, "author-name", one(self.author.name.clone()));
        add_group(&mut h, "content-length", one(byte_length_text(&self.content)));
        add_flag_group(&mut h, "message-flags", &self.flags);
        add_count_group(&mut h, "has-attachments", self.attachments.len());
        add_count_group(&mut h, "has-embeds", self.embeds.len());
        add_count_group(&mut h, "has-reactions", self.reactions.len());
        assert(group_views(h@) == self.header_groups());
        h
    }

    fn body(&self) -> (r: Option<Vec<u8>>) {
        Some(message_body(&self.content))
    }
}

/// What the target is told of a Discord message in a direct conversation.
pub open spec fn direct_message_of(dis: discord::MessageView) -> DirectMessageView {
    DirectMessageView {
        id: dis.id,
        channel_id: dis.channel_id,
        author: user_of(dis.author),
        timestamp_created: dis.timestamp,
        timestamp_edited: dis.edited_timestamp,
        kind: dis.kind,
        content: dis.content,
        attachments: dis.attachments,
        embeds: dis.embeds,
        reactions: dis.reactions,
        application: dis.application,
        flags: opt_flags_listed(dis.flags),
    }
}

impl<'a> vstd::std_specs::convert::FromSpecImpl<&'a discord::Message> for DirectMessage {
    // What `from` gives is stated by its own `ensures`, over views.
    open spec fn obeys_from_spec() -> bool {
        false
    }

    open spec fn from_spec(dis: &'a discord::Message) -> DirectMessage {
        arbitrary()
    }
}

impl<'a> From<&'a discord::Message> for DirectMessage {
    /// What the target is told of a Discord message in a direct conversation.
    fn from(dis: &'a discord::Message) -> (r: Self)
        ensures
            r@ == direct_message_of(dis@),
    {
        DirectMessage {
            id: dis.id,
            channel_id: dis.channel_id,
            author: User::from(&dis.author),
            timestamp_created: dis.timestamp.clone(),
            timestamp_edited: clone_opt(&dis.edited_timestamp),
            kind: dis.kind,
            content: dis.content.clone(),
            attachments: clone_attachments(&dis.attachments),
            embeds: clone_embeds(&dis.embeds),
            reactions: clone_reactions(&dis.reactions),
            application: dis.application.clone(),
            flags: flags_of(&dis.flags),
        }
    }
}

/// A message that is a command, with the command's words.
#[derive(Debug)]
pub struct Command<M: Sendable> {
    pub command: Vec<String>,
    pub message: M,
}

impl<S: Sendable> Sendable for Command<S> {
    open spec fn path(&self) -> Seq<char> {
        command_path(texts(self.command@))
    }

    open spec fn header_groups(&self) -> Seq<HeaderGroup> {
        self.message.header_groups()
    }

    open spec fn contents(&self) -> Option<Seq<char>> {
        None
    }

    fn url(&self) -> (r: String) {
        let mut r: String = "/command/".to_owned();
        r.append(slash_join(&self.command).as_str());
        r
    }

    fn headers(&self) -> (r: Vec<(&str, Vec<String>)>) {
        self.message.headers()
    }

    fn body(&self) -> (r: Option<Vec<u8>>) {
        None
    }
}

/// A command carries the header fields of its message.
pub proof fn law_command_keeps_headers<S: Sendable>(command: Command<S>)
    ensures
        command.header_groups() == command.message.header_groups(),
{
}

/// The head of the request that carries a payload: to the payload's path under the base, with the
/// payload's header fields and then the type of the content.
pub open spec fn payload_head(
    base: Seq<char>,
    path: Seq<char>,
    kind: Seq<char>,
    groups: Seq<HeaderGroup>,
) -> RequestView {
    RequestView {
        method: Method::Post,
        uri: base + path,
        headers: spread(groups) + seq![("content-type"@, kind)],
    }
}

/// The head of the request that tells the target of a payload.
pub open spec fn post_head<S: Sendable>(client: Client, payload: S) -> RequestView {
    payload_head(
        client.base(),
        payload.path(),
        content_type(payload.contents()),
        payload.header_groups(),
    )
}

/// What the bridge knows of its target: the base of its URLs, and which messages are commands.
pub struct Client {
    base: String,
    commands: Commands,
}

impl Client {
    /// The base of the target's URLs.
    pub closed spec fn base(&self) -> Seq<char> {
        self.base@
    }

    /// The patterns that tell commands.
    pub closed spec fn patterns(&self) -> CommandsView {
        self.commands@
    }

    /// A client for a target, with patterns that have to be regular expressions.
    pub fn new(
        base: String,
        command_match: Option<String>,
        command_parse: Option<String>,
    ) -> (r: Self)
        requires
            opt_compiles(opt_text(command_match)),
            opt_compiles(opt_text(command_parse)),
        ensures
            r.base() == base@,
            r.patterns() == patterns_in_use(opt_text(command_match), opt_text(command_parse)),
    {
        Client { base, commands: Commands::new(command_match, command_parse) }
    }

    /// A client for a target, unless a pattern is no regular expression.
    pub fn try_new(
        base: String,
        command_match: Option<String>,
        command_parse: Option<String>,
    ) -> (r: Result<Self, BadPattern>)
        ensures
            match r {
                Ok(c) => {
                    &&& opt_compiles(opt_text(command_match))
                    &&& opt_compiles(opt_text(command_parse))
                    &&& c.base() == base@
                    &&& c.patterns() == patterns_in_use(
                        opt_text(command_match),
                        opt_text(command_parse),
                    )
                },
                Err(BadPattern::CommandMatch) => !opt_compiles(opt_text(command_match)),
                Err(BadPattern::CommandParse) => {
                    &&& opt_compiles(opt_text(command_match))
                    &&& !opt_compiles(opt_text(command_parse))
                },
            },
    {
        match Commands::bad_pattern(&command_match, &command_parse) {
            Some(bad) => Err(bad),
            None => Ok(Client::new(base, command_match, command_parse)),
        }
    }

    /// The words of the command that a message is, if it is one.
    pub fn parse_command(&self, content: &str) -> (r: Option<Vec<String>>)
        ensures
            opt_texts(r) == command_under(self.patterns(), content@),
    {
        self.commands.parse_command(content)
    }

    /// Adds header fields to a request, one for each value of each group.
    pub fn add_headers(req: RequestBuilder, headers: Vec<(&str, Vec<String>)>) -> (r: RequestBuilder)
        ensures
            r@ == req@.plus(spread(group_views(headers@))),
    {
        let ghost start = req@;
        let ghost groups = group_views(headers@);
        let mut req: RequestBuilder = req;
        let mut i: usize = 0;
        assert(req@ == start.plus(spread(groups.take(0))));
        while i < headers.len()
            invariant
                i <= headers.len(),
                groups == group_views(headers@),
                req@ == start.plus(spread(groups.take(i as int))),
            decreases headers.len() - i,
        {
            let name: &str = headers[i].0;
            let values: &Vec<String> = &headers[i].1;
            let ghost mid = req@;
            let ghost fields = repeated(name@, texts(values@));
            let mut j: usize = 0;
            assert(req@ == mid.plus(fields.take(0)));
            while j < values.len()
                invariant
                    j <= values.len(),
                    fields == repeated(name@, texts(values@)),
                    req@ == mid.plus(fields.take(j as int)),
                decreases values.len() - j,
            {
                req = req.header(name, values[j].clone());
                assert(fields.take(j as int) + seq![(name@, values@[j as int]@)] == fields.take(
                    j + 1,
                ));
                assert(req@ == mid.plus(fields.take(j + 1)));
                j = j + 1;
            }
            proof {
                assert(fields.take(j as int) == fields);
                let next = groups.take(i + 1);
                assert(next.drop_last() == groups.take(i as int));
                assert(next.last() == (name@, texts(values@)));
                assert(req@ == start.plus(spread(next)));
            }
            i = i + 1;
        }
        assert(groups.take(i as int) == groups);
        req
    }

    /// The head of the request that tells the target of a payload.
    fn head<S: Sendable>(&self, payload: &S) -> (r: RequestBuilder)
        ensures
            r@ == post_head(*self, *payload),
    {
        let mut uri: String = self.base.clone();
        uri.append(payload.url().as_str());
        let req: RequestBuilder = Client::add_headers(
            RequestBuilder::new(Method::Post, uri),
            payload.headers(),
        );
        assert(req@.headers == spread(payload.header_groups()));
        match payload.body() {
            Some(_) => req.header("content-type", "text/plain; charset=utf-8".to_owned()),
            None => req.header("content-type", "application/json".to_owned()),
        }
    }

    /// Makes the request that tells the target of a payload. The body is the contents of a message;
    /// of anything else it is the payload in JSON, which has to be given. The request has to be one
    /// that can be made.
    pub fn post<S: Sendable>(&self, payload: S, json: Vec<u8>) -> (r: Request)
        requires
            may_fault(post_head(*self, payload), uri_parses(post_head(*self, payload).uri), None),
        ensures
            r.head@ == post_head(*self, payload),
            r.body@ == body_of(payload.contents(), json@),
    {
        let head: RequestBuilder = self.head(&payload);
        match payload.body() {
            Some(text) => Request { head, body: text },
            None => Request { head, body: json },
        }
    }

    /// Makes the request that tells the target of a payload, if it can be made.
    pub fn try_post<S: Sendable>(&self, payload: S, json: Vec<u8>) -> (r: Result<
        Request,
        RequestError,
    >)
        ensures
            ({
                let head = post_head(*self, payload);
                &&& r is Ok ==> r->Ok_0.head@ == head && r->Ok_0.body@ == body_of(
                    payload.contents(),
                    json@,
                )
                &&& may_fault(head, uri_parses(head.uri), fault_in(r))
                &&& few_names(head.headers) ==> fault_in(r) == sure_fault(head, uri_parses(head.uri))
            }),
    {
        let head: RequestBuilder = self.head(&payload);
        let uri_ok: bool = uri_accepted(head.uri.as_str());
        match fault_of(&head, uri_ok) {
            Some(fault) => Err(fault),
            None => Ok(self.post(payload, json)),
        }
    }
}

/// What is sent to the target for one event.
#[derive(Debug)]
pub enum Payload {
    ServerCommand(Command<ServerMessage>),
    ServerMessage(ServerMessage),
    DirectCommand(Command<DirectMessage>),
    DirectMessage(DirectMessage),
    ServerJoin(ServerJoin),
    Connected(Connected),
}

impl Sendable for Payload {
    open spec fn path(&self) -> Seq<char> {
        match self {
            Payload::ServerCommand(p) => p.path(),
            Payload::ServerMessage(p) => p.path(),
            Payload::DirectCommand(p) => p.path(),
            Payload::DirectMessage(p) => p.path(),
            Payload::ServerJoin(p) => p.path(),
            Payload::Connected(p) => p.path(),
        }
    }

    open spec fn header_groups(&self) -> Seq<HeaderGroup> {
        match self {
            Payload::ServerCommand(p) => p.header_groups(),
            Payload::ServerMessage(p) => p.header_groups(),
            Payload::DirectCommand(p) => p.header_groups(),
            Payload::DirectMessage(p) => p.header_groups(),
            Payload::ServerJoin(p) => p.header_groups(),
            Payload::Connected(p) => p.header_groups(),
        }
    }

    open spec fn contents(&self) -> Option<Seq<char>> {
        match self {
            Payload::ServerCommand(p) => p.contents(),
            Payload::ServerMessage(p) => p.contents(),
            Payload::DirectCommand(p) => p.contents(),
            Payload::DirectMessage(p) => p.contents(),
            Payload::ServerJoin(p) => p.contents(),
            Payload::Connected(p) => p.contents(),
        }
    }

    fn url(&self) -> (r: String) {
        match self {
            Payload::ServerCommand(p) => p.url(),
            Payload::ServerMessage(p) => p.url(),
            Payload::DirectCommand(p) => p.url(),
            Payload::DirectMessage(p) => p.url(),
            Payload::ServerJoin(p) => p.url(),
            Payload::Connected(p) => p.url(),
        }
    }

    fn headers(&self) -> (r: Vec<(&str, Vec<String>)>) {
        match self {
            Payload::ServerCommand(p) => p.headers(),
            Payload::ServerMessage(p) => p.headers(),
            Payload::DirectCommand(p) => p.headers(),
            Payload::DirectMessage(p) => p.headers(),
            Payload::ServerJoin(p) => p.headers(),
            Payload::Connected(p) => p.headers(),
        }
    }

    fn body(&self) -> (r: Option<Vec<u8>>) {
        match self {
            Payload::ServerCommand(p) => p.body(),
            Payload::ServerMessage(p) => p.body(),
            Payload::DirectCommand(p) => p.body(),
            Payload::DirectMessage(p) => p.body(),
            Payload::ServerJoin(p) => p.body(),
            Payload::Connected(p) => p.body(),
        }
    }
}

/// Whether a payload is the one for an event. The words are those of the command that a message
/// is, if it is one.
pub open spec fn is_payload_for(
    r: Option<Payload>,
    shard_id: u64,
    event: Event,
    words: Option<Seq<Seq<char>>>,
) -> bool {
    match event {
        Event::MessageCreate(message) => match (message.guild_id, words) {
            (Some(_), Some(w)) => r matches Some(Payload::ServerCommand(c)) && texts(c.command@)
                == w && c.message@ == server_message_of(message@),
            (Some(_), None) => r matches Some(Payload::ServerMessage(m)) && m@
                == server_message_of(message@),
            (None, Some(w)) => r matches Some(Payload::DirectCommand(c)) && texts(c.command@) == w
                && c.message@ == direct_message_of(message@),
            (None, None) => r matches Some(Payload::DirectMessage(m)) && m@ == direct_message_of(
                message@,
            ),
        },
        Event::MemberAdd(member) => r matches Some(Payload::ServerJoin(j)) && j.0@ == member_of(
            member@,
        ),
        Event::ShardConnected => r matches Some(Payload::Connected(c)) && c.shard == shard_id,
        Event::Other => r is None,
    }
}

/// Makes the payload for an event, given the words of the command that a message is, if it is one.
pub fn payload_for(shard_id: u64, event: &Event, command: Option<Vec<String>>) -> (r: Option<
    Payload,
>)
    ensures
        is_payload_for(r, shard_id, *event, opt_texts(command)),
{
    match event {
        Event::MessageCreate(message) => {
            if message.guild_id.is_some() {
                let msg: ServerMessage = ServerMessage::from(message);
                match command {
                    Some(command) => Some(Payload::ServerCommand(Command { command, message: msg })),
                    None => Some(Payload::ServerMessage(msg)),
                }
            } else {
                let msg: DirectMessage = DirectMessage::from(message);
                match command {
                    Some(command) => Some(Payload::DirectCommand(Command { command, message: msg })),
                    None => Some(Payload::DirectMessage(msg)),
                }
            }
        },
        Event::MemberAdd(member) => Some(Payload::ServerJoin(ServerJoin(Member::from(member)))),
        Event::ShardConnected => Some(Payload::Connected(Connected { shard: shard_id })),
        Event::Other => None,
    }
}

/// Makes the payload that tells the target of an event, or none for an event that is not
/// forwarded.
pub fn handle_event(target: &Client, shard_id: u64, event: &Event) -> (r: Option<Payload>)
    ensures
        is_payload_for(r, shard_id, *event, crate::forward::event_command(target.patterns(), *event)),
{
    let command: Option<Vec<String>> = match event {
        Event::MessageCreate(message) => target.parse_command(message.content.as_str()),
        _ => None,
    };
    payload_for(shard_id, event, command)
}

/// Whether the response to an event can be left as it is: a success, or nothing to be found. Only
/// the response to a message in a server is looked at.
pub fn can_leave(event: &Event, status: u16) -> (r: bool)
    ensures
        r == (event matches Event::MessageCreate(message) && message.guild_id is Some ==> (status
            == 404 || 200 <= status < 300)),
{
    match event {
        Event::MessageCreate(message) => message.guild_id.is_none() || status == 404 || (200
            <= status && status < 300),
        _ => true,
    }
}

/// Header fields in two parts are good where both parts are.
proof fn lemma_ok_in_parts(a: Seq<(Seq<char>, Seq<char>)>, b: Seq<(Seq<char>, Seq<char>)>)
    ensures
        names_ok(a + b) == (names_ok(a) && names_ok(b)),
        values_ok(a + b) == (values_ok(a) && values_ok(b)),
{
    let all = a + b;
    assert forall|i: int| 0 <= i < a.len() implies #[trigger] a[i] == all[i] by {}
    assert forall|i: int| 0 <= i < b.len() implies #[trigger] b[i] == all[i + a.len()] by {}
    assert forall|i: int| 0 <= i < all.len() implies #[trigger] all[i] == (if i < a.len() {
        a[i]
    } else {
        b[i - a.len()]
    }) by {}
}

/// Groups in two parts are spread one part after the other.
pub(crate) proof fn lemma_spread_of_parts(a: Seq<HeaderGroup>, b: Seq<HeaderGroup>)
    ensures
        spread(a + b) == spread(a) + spread(b),
    decreases b.len(),
{
    if b.len() == 0 {
        assert(a + b == a);
        assert(spread(a) + spread(b) == spread(a));
    } else {
        assert((a + b).drop_last() == a + b.drop_last());
        assert((a + b).last() == b.last());
        lemma_spread_of_parts(a, b.drop_last());
        let last = repeated(b.last().0, b.last().1);
        assert(spread(a) + spread(b.drop_last()) + last == spread(a) + (spread(b.drop_last())
            + last));
    }
}

/// Two parts of groups together are good where both are.
proof fn lemma_groups_in_parts(a: Seq<HeaderGroup>, b: Seq<HeaderGroup>)
    ensures
        names_ok(spread(a + b)) == (names_ok(spread(a)) && names_ok(spread(b))),
        values_ok(spread(a + b)) == (values_ok(spread(a)) && values_ok(spread(b))),
{
    lemma_spread_of_parts(a, b);
    lemma_ok_in_parts(spread(a), spread(b));
}

/// A group of one value is good where its name and its value are.
proof fn lemma_single_group(name: Seq<char>, value: Seq<char>)
    ensures
        names_ok(spread(seq![(name, seq![value])])) == valid_name(name),
        values_ok(spread(seq![(name, seq![value])])) == valid_value(value),
{
    let groups = seq![(name, seq![value])];
    assert(groups.drop_last() == Seq::<HeaderGroup>::empty());
    lemma_empty_groups();
    assert(repeated(name, seq![value]) == seq![(name, value)]);
    assert(spread(groups) == spread(groups.drop_last()) + repeated(name, seq![value]));
    assert(spread(groups) == seq![(name, value)]);
    assert(spread(groups)[0] == (name, value));
}

/// No groups are good.
proof fn lemma_empty_groups()
    ensures
        spread(Seq::<HeaderGroup>::empty()) == Seq::<(Seq<char>, Seq<char>)>::empty(),
        names_ok(spread(Seq::<HeaderGroup>::empty())),
        values_ok(spread(Seq::<HeaderGroup>::empty())),
{
}

/// The groups of roles are good.
proof fn lemma_role_groups(name: Seq<char>, roles: Option<Seq<u64>>)
    requires
        valid_name(name),
    ensures
        names_ok(spread(role_group(name, roles))),
        values_ok(spread(role_group(name, roles))),
{
    lemma_empty_groups();
    let groups = role_group(name, roles);
    if groups.len() > 0 {
        let ids = roles->0;
        assert(groups.drop_last() == Seq::<HeaderGroup>::empty());
        assert(spread(groups) == repeated(name, decimals(ids)));
        assert forall|i: int| 0 <= i < ids.len() implies valid_value(
            #[trigger] decimals(ids)[i],
        ) by {
            lemma_decimal_is_value(ids[i] as nat);
        }
    } else {
        assert(groups == Seq::<HeaderGroup>::empty());
    }
}

/// The groups of flags are good.
proof fn lemma_flag_groups(name: Seq<char>, flags: Seq<MessageFlag>)
    requires
        valid_name(name),
    ensures
        names_ok(spread(if_filled(name, flag_names(flags)))),
        values_ok(spread(if_filled(name, flag_names(flags)))),
{
    lemma_empty_groups();
    let groups = if_filled(name, flag_names(flags));
    if groups.len() > 0 {
        assert(groups.drop_last() == Seq::<HeaderGroup>::empty());
        assert(spread(groups) == repeated(name, flag_names(flags)));
        assert forall|i: int| 0 <= i < flags.len() implies valid_value(
            #[trigger] flag_names(flags)[i],
        ) by {
            lemma_flag_name_is_value(flags[i]);
        }
    } else {
        assert(groups == Seq::<HeaderGroup>::empty());
    }
}

/// The groups of a count are good.
proof fn lemma_count_groups(name: Seq<char>, n: nat)
    requires
        valid_name(name),
    ensures
        names_ok(spread(count_group(name, n))),
        values_ok(spread(count_group(name, n))),
{
    lemma_empty_groups();
    lemma_decimal_is_value(n);
    lemma_single_group(name, decimal(n));
}

/// The groups of an optional text are good where the text is.
proof fn lemma_text_groups(name: Seq<char>, value: Option<Seq<char>>)
    requires
        valid_name(name),
    ensures
        names_ok(spread(text_group(name, value))),
        values_ok(spread(text_group(name, value))) == (value is None || valid_value(value->0)),
{
    lemma_empty_groups();
    match value {
        Some(text) => {
            lemma_single_group(name, text);
        },
        None => {},
    }
}

/// The fixed names and values of header fields are good.
proof fn lemma_plain_names()
    ensures
        valid_name("content-type"@),
        valid_value("application/json"@),
        valid_value("text/plain; charset=utf-8"@),
        valid_name("message-id"@),
        valid_name("server-id"@),
        valid_name("direct-message"@),
        valid_value("true"@),
        valid_name("channel-id"@),
        valid_name("author-type"@),
        valid_value("bot"@),
        valid_value("user"@),
        valid_name("author-id"@),
        valid_name("author-name"@),
        valid_name("content-length"@),
        valid_name("author-pseudonym"@),
        valid_name("author-role-ids"@),
        valid_name("message-flags"@),
        valid_name("has-attachments"@),
        valid_name("has-embeds"@),
        valid_name("has-reactions"@),
        valid_name("member-id"@),
        valid_name("member-name"@),
        valid_name("member-pseudonym"@),
        valid_name("member-role-ids"@),
{
    reveal_strlit("content-type");
    reveal_strlit("application/json");
    reveal_strlit("text/plain; charset=utf-8");
    reveal_strlit("message-id");
    reveal_strlit("server-id");
    reveal_strlit("direct-message");
    reveal_strlit("true");
    reveal_strlit("channel-id");
    reveal_strlit("author-type");
    reveal_strlit("bot");
    reveal_strlit("user");
    reveal_strlit("author-id");
    reveal_strlit("author-name");
    reveal_strlit("content-length");
    reveal_strlit("author-pseudonym");
    reveal_strlit("author-role-ids");
    reveal_strlit("message-flags");
    reveal_strlit("has-attachments");
    reveal_strlit("has-embeds");
    reveal_strlit("has-reactions");
    reveal_strlit("member-id");
    reveal_strlit("member-name");
    reveal_strlit("member-pseudonym");
    reveal_strlit("member-role-ids");
}

/// There are no more names than groups.
proof fn lemma_names_of_groups(groups: Seq<HeaderGroup>)
    ensures
        name_set(spread(groups)).len() <= groups.len(),
    decreases groups.len(),
{
    if groups.len() == 0 {
        lemma_names_of_fields(spread(groups));
    } else {
        let last = repeated(groups.last().0, groups.last().1);
        lemma_names_of_groups(groups.drop_last());
        lemma_names_of_one(last, groups.last().0);
        lemma_names_of_parts(spread(groups.drop_last()), last);
    }
}

/// What is wrong with the request for a payload, by its groups.
proof fn lemma_plain_fault(
    base: Seq<char>,
    path: Seq<char>,
    contents: Option<Seq<char>>,
    groups: Seq<HeaderGroup>,
    uri_ok: bool,
    fault: Option<RequestError>,
)
    requires
        names_ok(spread(groups)),
        groups.len() <= 20,
        may_fault(
            payload_head(base, path, content_type(contents), groups),
            uri_ok,
            fault,
        ),
    ensures
        fault == (if !uri_ok {
            Some(RequestError::InvalidUri)
        } else if values_ok(spread(groups)) {
            None
        } else {
            Some(RequestError::InvalidHeaderValue)
        }),
{
    lemma_plain_names();
    let kind = seq![("content-type"@, content_type(contents))];
    assert(names_ok(kind) && values_ok(kind));
    lemma_ok_in_parts(spread(groups), kind);
    lemma_fault_of_values(spread(groups) + kind);
    lemma_names_of_groups(groups);
    lemma_names_of_fields(kind);
    lemma_names_of_parts(spread(groups), kind);
    law_few_names_have_room(
        payload_head(base, path, content_type(contents), groups),
        uri_ok,
        fault,
    );
}

/// The groups that every message starts with are good where its author's name is.
proof fn lemma_first_groups(
    second: HeaderGroup,
    id: u64,
    channel_id: u64,
    bot: bool,
    author_id: u64,
    name: Seq<char>,
    length: nat,
)
    requires
        second.1.len() == 1,
        valid_name(second.0),
        valid_value(second.1[0]),
    ensures
        ({
            let groups = seq![
                ("message-id"@, seq![decimal(id as nat)]),
                second,
                ("channel-id"@, seq![decimal(channel_id as nat)]),
                ("author-type"@, seq![author_type(bot)]),
                ("author-id"@, seq![decimal(author_id as nat)]),
                ("author-name"@, seq![name]),
                ("content-length"@, seq![decimal(length)]),
            ];
            names_ok(spread(groups)) && values_ok(spread(groups)) == valid_value(name)
        }),
{
    lemma_plain_names();
    lemma_decimal_is_value(id as nat);
    lemma_decimal_is_value(channel_id as nat);
    lemma_decimal_is_value(author_id as nat);
    lemma_decimal_is_value(length);
    let a: Seq<HeaderGroup> = seq![("message-id"@, seq![decimal(id as nat)])];
    let b: Seq<HeaderGroup> = seq![second];
    let c: Seq<HeaderGroup> = seq![("channel-id"@, seq![decimal(channel_id as nat)])];
    let d: Seq<HeaderGroup> = seq![("author-type"@, seq![author_type(bot)])];
    let e: Seq<HeaderGroup> = seq![("author-id"@, seq![decimal(author_id as nat)])];
    let f: Seq<HeaderGroup> = seq![("author-name"@, seq![name])];
    let g: Seq<HeaderGroup> = seq![("content-length"@, seq![decimal(length)])];
    lemma_single_group("message-id"@, decimal(id as nat));
    assert(second.1 == seq![second.1[0]]);
    assert(b == seq![(second.0, seq![second.1[0]])]);
    lemma_single_group(second.0, second.1[0]);
    lemma_single_group("channel-id"@, decimal(channel_id as nat));
    lemma_single_group("author-type"@, author_type(bot));
    lemma_single_group("author-id"@, decimal(author_id as nat));
    lemma_single_group("author-name"@, name);
    lemma_single_group("content-length"@, decimal(length));
    lemma_groups_in_parts(a, b);
    lemma_groups_in_parts(a + b, c);
    lemma_groups_in_parts(a + b + c, d);
    lemma_groups_in_parts(a + b + c + d, e);
    lemma_groups_in_parts(a + b + c + d + e, f);
    lemma_groups_in_parts(a + b + c + d + e + f, g);
    assert(a + b + c + d + e + f + g == seq![
        ("message-id"@, seq![decimal(id as nat)]),
        second,
        ("channel-id"@, seq![decimal(channel_id as nat)]),
        ("author-type"@, seq![author_type(bot)]),
        ("author-id"@, seq![decimal(author_id as nat)]),
        ("author-name"@, seq![name]),
        ("content-length"@, seq![decimal(length)]),
    ]);
}

/// A message in a server can be told unless the URI is bad, or its author's name or pseudonym,
/// which go along as they stand, holds a control character.
#[verifier::rlimit(30)]
pub proof fn law_server_message_can_be_told(
    base: Seq<char>,
    path: Seq<char>,
    contents: Option<Seq<char>>,
    msg: ServerMessageView,
    uri_ok: bool,
    fault: Option<RequestError>,
)
    requires
        may_fault(
            payload_head(base, path, content_type(contents), server_message_groups(msg)),
            uri_ok,
            fault,
        ),
    ensures
        fault == (if !uri_ok {
            Some(RequestError::InvalidUri)
        } else if valid_value(msg.author.user.name) && (msg.author.pseudonym is None || valid_value(
            msg.author.pseudonym->0,
        )) {
            None
        } else {
            Some(RequestError::InvalidHeaderValue)
        }),
{
    lemma_plain_names();
    lemma_decimal_is_value(msg.server_id as nat);
    let second = ("server-id"@, seq![decimal(msg.server_id as nat)]);
    let first = seq![
        ("message-id"@, seq![decimal(msg.id as nat)]),
        second,
        ("channel-id"@, seq![decimal(msg.channel_id as nat)]),
        ("author-type"@, seq![author_type(msg.author.user.bot)]),
        ("author-id"@, seq![decimal(msg.author.user.id as nat)]),
        ("author-name"@, seq![msg.author.user.name]),
        ("content-length"@, seq![decimal(byte_length(msg.content))]),
    ];
    lemma_first_groups(
        second,
        msg.id,
        msg.channel_id,
        msg.author.user.bot,
        msg.author.user.id,
        msg.author.user.name,
        byte_length(msg.content),
    );
    let pseudonym = text_group("author-pseudonym"@, msg.author.pseudonym);
    let roles = role_group("author-role-ids"@, msg.author.roles);
    let flags = if_filled("message-flags"@, flag_names(msg.flags));
    let attachments = count_group("has-attachments"@, msg.attachments.len());
    let embeds = count_group("has-embeds"@, msg.embeds.len());
    let reactions = count_group("has-reactions"@, msg.reactions.len());
    lemma_text_groups("author-pseudonym"@, msg.author.pseudonym);
    lemma_role_groups("author-role-ids"@, msg.author.roles);
    lemma_flag_groups("message-flags"@, msg.flags);
    lemma_count_groups("has-attachments"@, msg.attachments.len());
    lemma_count_groups("has-embeds"@, msg.embeds.len());
    lemma_count_groups("has-reactions"@, msg.reactions.len());
    lemma_groups_in_parts(first, pseudonym);
    lemma_groups_in_parts(first + pseudonym, roles);
    lemma_groups_in_parts(first + pseudonym + roles, flags);
    lemma_groups_in_parts(first + pseudonym + roles + flags, attachments);
    lemma_groups_in_parts(first + pseudonym + roles + flags + attachments, embeds);
    lemma_groups_in_parts(first + pseudonym + roles + flags + attachments + embeds, reactions);
    lemma_plain_fault(base, path, contents, server_message_groups(msg), uri_ok, fault);
}

/// A direct message can be told unless the URI is bad, or its author's name, which goes along as it
/// stands, holds a control character.
#[verifier::rlimit(30)]
pub proof fn law_direct_message_can_be_told(
    base: Seq<char>,
    path: Seq<char>,
    contents: Option<Seq<char>>,
    msg: DirectMessageView,
    uri_ok: bool,
    fault: Option<RequestError>,
)
    requires
        may_fault(
            payload_head(base, path, content_type(contents), direct_message_groups(msg)),
            uri_ok,
            fault,
        ),
    ensures
        fault == (if !uri_ok {
            Some(RequestError::InvalidUri)
        } else if valid_value(msg.author.name) {
            None
        } else {
            Some(RequestError::InvalidHeaderValue)
        }),
{
    lemma_plain_names();
    let second = ("direct-message"@, seq!["true"@]);
    let first = seq![
        ("message-id"@, seq![decimal(msg.id as nat)]),
        second,
        ("channel-id"@, seq![decimal(msg.channel_id as nat)]),
        ("author-type"@, seq![author_type(msg.author.bot)]),
        ("author-id"@, seq![decimal(msg.author.id as nat)]),
        ("author-name"@, seq![msg.author.name]),
        ("content-length"@, seq![decimal(byte_length(msg.content))]),
    ];
    lemma_first_groups(
        second,
        msg.id,
        msg.channel_id,
        msg.author.bot,
        msg.author.id,
        msg.author.name,
        byte_length(msg.content),
    );
    let flags = if_filled("message-flags"@, flag_names(msg.flags));
    let attachments = count_group("has-attachments"@, msg.attachments.len());
    let embeds = count_group("has-embeds"@, msg.embeds.len());
    let reactions = count_group("has-reactions"@, msg.reactions.len());
    lemma_flag_groups("message-flags"@, msg.flags);
    lemma_count_groups("has-attachments"@, msg.attachments.len());
    lemma_count_groups("has-embeds"@, msg.embeds.len());
    lemma_count_groups("has-reactions"@, msg.reactions.len());
    lemma_groups_in_parts(first, flags);
    lemma_groups_in_parts(first + flags, attachments);
    lemma_groups_in_parts(first + flags + attachments, embeds);
    lemma_groups_in_parts(first + flags + attachments + embeds, reactions);
    lemma_plain_fault(base, path, contents, direct_message_groups(msg), uri_ok, fault);
}

/// The groups that a join starts with are good where the newcomer's name is.
proof fn lemma_first_join_groups(server_id: u64, user_id: u64, name: Seq<char>)
    ensures
        ({
            let groups = seq![
                ("server-id"@, seq![decimal(server_id as nat)]),
                ("member-id"@, seq![decimal(user_id as nat)]),
                ("member-name"@, seq![name]),
            ];
            names_ok(spread(groups)) && values_ok(spread(groups)) == valid_value(name)
        }),
{
    lemma_plain_names();
    lemma_decimal_is_value(server_id as nat);
    lemma_decimal_is_value(user_id as nat);
    let a: Seq<HeaderGroup> = seq![("server-id"@, seq![decimal(server_id as nat)])];
    let b: Seq<HeaderGroup> = seq![("member-id"@, seq![decimal(user_id as nat)])];
    let c: Seq<HeaderGroup> = seq![("member-name"@, seq![name])];
    lemma_single_group("server-id"@, decimal(server_id as nat));
    lemma_single_group("member-id"@, decimal(user_id as nat));
    lemma_single_group("member-name"@, name);
    lemma_groups_in_parts(a, b);
    lemma_groups_in_parts(a + b, c);
    assert(a + b + c == seq![
        ("server-id"@, seq![decimal(server_id as nat)]),
        ("member-id"@, seq![decimal(user_id as nat)]),
        ("member-name"@, seq![name]),
    ]);
}

/// A join can be told unless the URI is bad, or the newcomer's name or pseudonym, which go along as
/// they stand, holds a control character.
#[verifier::rlimit(30)]
pub proof fn law_join_can_be_told(
    base: Seq<char>,
    path: Seq<char>,
    contents: Option<Seq<char>>,
    member: MemberView,
    uri_ok: bool,
    fault: Option<RequestError>,
)
    requires
        may_fault(
            payload_head(base, path, content_type(contents), join_groups(member)),
            uri_ok,
            fault,
        ),
    ensures
        fault == (if !uri_ok {
            Some(RequestError::InvalidUri)
        } else if valid_value(member.user.name) && (member.pseudonym is None || valid_value(
            member.pseudonym->0,
        )) {
            None
        } else {
            Some(RequestError::InvalidHeaderValue)
        }),
{
    lemma_plain_names();
    let first = seq![
        ("server-id"@, seq![decimal(member.server_id as nat)]),
        ("member-id"@, seq![decimal(member.user.id as nat)]),
        ("member-name"@, seq![member.user.name]),
    ];
    lemma_first_join_groups(member.server_id, member.user.id, member.user.name);
    let pseudonym = text_group("member-pseudonym"@, member.pseudonym);
    let roles = role_group("member-role-ids"@, member.roles);
    lemma_text_groups("member-pseudonym"@, member.pseudonym);
    lemma_role_groups("member-role-ids"@, member.roles);
    lemma_groups_in_parts(first, pseudonym);
    lemma_groups_in_parts(first + pseudonym, roles);
    lemma_plain_fault(base, path, contents, join_groups(member), uri_ok, fault);
}

} // verus!
