//! What the bridge sends to its target: payloads with their path and header fields, and the
//! client that puts them into requests.

use twilight_model::channel::embed::Embed;
use twilight_model::channel::message::{MessageApplication, MessageFlags, MessageReaction};
use twilight_model::channel::Attachment;
use vstd::prelude::*;

use crate::command::{
    command_under, opt_compiles, opt_texts, patterns_in_use, BadPattern, Commands, CommandsView,
};
use crate::discord;
use crate::discord::{
    crossposted_flag, flags_held, is_crosspost_flag, opt_flags, source_message_deleted_flag,
    suppress_embeds_flag, urgent_flag,
};
use crate::stream::opt_bytes;
use crate::text::{
    clone_opt, decimal, decimal_text, escape, escaped, opt_text, slash_join, slashed, texts,
};
use crate::wire::{
    fault_in, fault_of, few_names, may_fault, sure_fault, uri_accepted, uri_parses, Method,
    RequestBuilder, RequestError, RequestView,
};

verus! {

/// Something that the target is told.
pub trait Sendable {
    /// The path that it is sent to, under the target's base.
    spec fn path(&self) -> Seq<char>;

    /// The header fields that go with it, in order.
    spec fn metadata(&self) -> Seq<(Seq<char>, Seq<char>)>;

    /// The text that it is told in, where it is a message. Anything else is told in JSON.
    spec fn contents(&self) -> Option<Seq<char>>;

    /// Writes the path.
    fn url(&self) -> (r: String)
        ensures
            r@ == self.path(),
    ;

    /// Adds the header fields to a request.
    fn customise(&self, req: RequestBuilder) -> (r: RequestBuilder)
        ensures
            r@ == req@.plus(self.metadata()),
    ;

    /// Writes the text that it is told in, where it is a message.
    fn body(&self) -> (r: Option<Vec<u8>>)
        ensures
            opt_bytes(r) == opt_encoded(self.contents()),
    ;
}

/// An optional text in UTF-8.
pub open spec fn opt_encoded(contents: Option<Seq<char>>) -> Option<Seq<u8>> {
    match contents {
        Some(text) => Some(vstd::utf8::encode_utf8(text)),
        None => None,
    }
}

/// Writes the contents of a message in UTF-8.
pub fn message_body(content: &String) -> (r: Vec<u8>)
    ensures
        r@ == vstd::utf8::encode_utf8(content@),
{
    vstd::slice::slice_to_vec(content.as_str().as_bytes())
}

/// The type of what a payload is told in.
pub open spec fn content_type(contents: Option<Seq<char>>) -> Seq<char> {
    match contents {
        Some(_) => "text/plain; charset=utf-8"@,
        None => "application/json"@,
    }
}

/// What a payload is told in: the contents of a message, or else the payload in JSON.
pub open spec fn body_of(contents: Option<Seq<char>>, json: Seq<u8>) -> Seq<u8> {
    match contents {
        Some(text) => vstd::utf8::encode_utf8(text),
        None => json,
    }
}

/// The bridge is about to connect to Discord.
#[derive(Clone, Debug)]
pub struct Connecting;

impl Sendable for Connecting {
    open spec fn path(&self) -> Seq<char> {
        "/discord/connecting"@
    }

    open spec fn metadata(&self) -> Seq<(Seq<char>, Seq<char>)> {
        seq![]
    }

    open spec fn contents(&self) -> Option<Seq<char>> {
        None
    }

    fn url(&self) -> (r: String) {
        "/discord/connecting".to_owned()
    }

    fn customise(&self, req: RequestBuilder) -> (r: RequestBuilder) {
        assert(req@.headers + self.metadata() == req@.headers);
        req
    }

    fn body(&self) -> (r: Option<Vec<u8>>) {
        None
    }
}

/// What the target wants the bot to be shown doing.
#[derive(Clone, Debug)]
pub enum Activity {
    Playing { name: String },
    Streaming { name: String },
    Listening { name: String },
    Watching { name: String },
    Custom { name: String },
}

/// The presence that the target wants the bot to take on.
#[derive(Clone, Debug)]
pub struct Presence {
    pub afk: Option<bool>,
    pub activity: Option<Activity>,
    pub since: Option<u64>,
    pub status: Option<discord::Status>,
}

/// A shard of the bridge is connected to Discord.
#[derive(Clone, Debug)]
pub struct Connected {
    pub shard: u64,
}

impl Sendable for Connected {
    open spec fn path(&self) -> Seq<char> {
        "/discord/connected"@
    }

    open spec fn metadata(&self) -> Seq<(Seq<char>, Seq<char>)> {
        seq![]
    }

    open spec fn contents(&self) -> Option<Seq<char>> {
        None
    }

    fn url(&self) -> (r: String) {
        "/discord/connected".to_owned()
    }

    fn customise(&self, req: RequestBuilder) -> (r: RequestBuilder) {
        assert(req@.headers + self.metadata() == req@.headers);
        req
    }

    fn body(&self) -> (r: Option<Vec<u8>>) {
        None
    }
}

/// The account of a person or a bot.
#[derive(Clone, Debug)]
pub struct User {
    pub id: u64,
    pub name: String,
    pub discriminator: String,
    pub bot: bool,
}

/// What a [`User`] holds.
#[verifier::ext_equal]
pub struct UserView {
    pub id: u64,
    pub name: Seq<char>,
    pub discriminator: Seq<char>,
    pub bot: bool,
}

impl View for User {
    type V = UserView;

    open spec fn view(&self) -> UserView {
        UserView {
            id: self.id,
            name: self.name@,
            discriminator: self.discriminator@,
            bot: self.bot,
        }
    }
}

/// What the target is told of a Discord user.
pub open spec fn user_of(dis: discord::UserView) -> UserView {
    UserView { id: dis.id, name: dis.name, discriminator: dis.discriminator, bot: dis.bot }
}

impl<'a> vstd::std_specs::convert::FromSpecImpl<&'a discord::User> for User {
    open spec fn obeys_from_spec() -> bool {
        true
    }

    open spec fn from_spec(dis: &'a discord::User) -> User {
        User {
            id: dis.id,
            discriminator: dis.discriminator,
            name: dis.name,
            bot: dis.bot,
        }
    }
}

impl<'a> From<&'a discord::User> for User {
    /// What the target is told of a Discord user.
    fn from(dis: &'a discord::User) -> (r: Self)
        ensures
            r@ == user_of(dis@),
    {
        User {
            id: dis.id,
            discriminator: dis.discriminator.clone(),
            name: dis.name.clone(),
            bot: dis.bot,
        }
    }
}

/// The Discord user that stands for a user of the target: what the target does not know is left
/// empty.
pub open spec fn discord_user(rac: UserView) -> discord::UserView {
    discord::UserView {
        avatar: None,
        bot: rac.bot,
        discriminator: rac.discriminator,
        email: None,
        flags: None,
        id: rac.id,
        locale: None,
        mfa_enabled: None,
        name: rac.name,
        premium_type: None,
        public_flags: None,
        system: None,
        verified: None,
    }
}

impl<'a> vstd::std_specs::convert::FromSpecImpl<&'a User> for discord::User {
    open spec fn obeys_from_spec() -> bool {
        true
    }

    open spec fn from_spec(rac: &'a User) -> discord::User {
        discord::User {
            avatar: None,
            bot: rac.bot,
            discriminator: rac.discriminator,
            email: None,
            flags: None,
            id: rac.id,
            locale: None,
            mfa_enabled: None,
            name: rac.name,
            premium_type: None,
            public_flags: None,
            system: None,
            verified: None,
        }
    }
}

impl<'a> From<&'a User> for discord::User {
    /// The Discord user that stands for a user of the target.
    fn from(rac: &'a User) -> (r: Self)
        ensures
            r@ == discord_user(rac@),
    {
        discord::User {
            id: rac.id,
            discriminator: rac.discriminator.clone(),
            name: rac.name.clone(),
            bot: rac.bot,
            avatar: None,
            email: None,
            flags: None,
            locale: None,
            mfa_enabled: None,
            premium_type: None,
            public_flags: None,
            system: None,
            verified: None,
        }
    }
}

/// A user's membership in a server.
#[derive(Clone, Debug)]
pub struct Member {
    pub user: User,
    pub server_id: u64,
    pub roles: Option<Vec<u64>>,
    pub pseudonym: Option<String>,
}

/// What a [`Member`] holds.
#[verifier::ext_equal]
pub struct MemberView {
    pub user: UserView,
    pub server_id: u64,
    pub roles: Option<Seq<u64>>,
    pub pseudonym: Option<Seq<char>>,
}

/// The role ids of an optional list of roles.
pub open spec fn opt_roles(roles: Option<Vec<u64>>) -> Option<Seq<u64>> {
    match roles {
        Some(r) => Some(r@),
        None => None,
    }
}

impl View for Member {
    type V = MemberView;

    open spec fn view(&self) -> MemberView {
        MemberView {
            user: self.user@,
            server_id: self.server_id,
            roles: opt_roles(self.roles),
            pseudonym: opt_text(self.pseudonym),
        }
    }
}

/// What the target is told of the author of a Discord message. A message without a server counts
/// as one of server 0.
pub open spec fn author_of(dis: discord::MessageView) -> MemberView {
    MemberView {
        user: user_of(dis.author),
        server_id: match dis.guild_id {
            Some(id) => id,
            None => 0,
        },
        roles: match dis.member {
            Some(m) => Some(m.roles),
            None => None,
        },
        pseudonym: match dis.member {
            Some(m) => m.nick,
            None => None,
        },
    }
}

/// Copies role ids.
pub(crate) fn clone_roles(roles: &Vec<u64>) -> (r: Vec<u64>)
    ensures
        r@ == roles@,
{
    let r: Vec<u64> = roles.clone();
    assert(r@ == roles@);
    r
}

impl<'a> vstd::std_specs::convert::FromSpecImpl<&'a discord::Message> for Member {
    // What `from` gives is stated by its own `ensures`, over views.
    open spec fn obeys_from_spec() -> bool {
        false
    }

    open spec fn from_spec(dis: &'a discord::Message) -> Member {
        arbitrary()
    }
}

impl<'a> From<&'a discord::Message> for Member {
    /// What the target is told of the author of a Discord message.
    fn from(dis: &'a discord::Message) -> (r: Self)
        ensures
            r@ == author_of(dis@),
    {
        let server_id: u64 = match dis.guild_id {
            Some(id) => id,
            None => 0,
        };
        let roles: Option<Vec<u64>> = match &dis.member {
            Some(m) => Some(clone_roles(&m.roles)),
            None => None,
        };
        let pseudonym: Option<String> = match &dis.member {
            Some(m) => clone_opt(&m.nick),
            None => None,
        };
        Member { user: User::from(&dis.author), server_id, roles, pseudonym }
    }
}

/// What the target is told of a member of a Discord server.
pub open spec fn member_of(dis: discord::MemberView) -> MemberView {
    MemberView {
        user: user_of(dis.user),
        server_id: dis.guild_id,
        roles: Some(dis.roles),
        pseudonym: dis.nick,
    }
}

impl<'a> vstd::std_specs::convert::FromSpecImpl<&'a discord::Member> for Member {
    // What `from` gives is stated by its own `ensures`, over views.
    open spec fn obeys_from_spec() -> bool {
        false
    }

    open spec fn from_spec(dis: &'a discord::Member) -> Member {
        arbitrary()
    }
}

impl<'a> From<&'a discord::Member> for Member {
    /// What the target is told of a member of a Discord server.
    fn from(dis: &'a discord::Member) -> (r: Self)
        ensures
            r@ == member_of(dis@),
    {
        Member {
            user: User::from(&dis.user),
            server_id: dis.guild_id,
            roles: Some(clone_roles(&dis.roles)),
            pseudonym: clone_opt(&dis.nick),
        }
    }
}

/// The Discord membership that stands for a member of the target. Unknown roles become none.
pub open spec fn partial_member(rac: MemberView) -> discord::PartialMemberView {
    discord::PartialMemberView {
        deaf: false,
        joined_at: None,
        mute: false,
        nick: rac.pseudonym,
        roles: match rac.roles {
            Some(r) => r,
            None => seq![],
        },
    }
}

impl<'a> vstd::std_specs::convert::FromSpecImpl<&'a Member> for discord::PartialMember {
    // What `from` gives is stated by its own `ensures`, over views.
    open spec fn obeys_from_spec() -> bool {
        false
    }

    open spec fn from_spec(rac: &'a Member) -> discord::PartialMember {
        arbitrary()
    }
}

impl<'a> From<&'a Member> for discord::PartialMember {
    /// The Discord membership that stands for a member of the target.
    fn from(rac: &'a Member) -> (r: Self)
        ensures
            r@ == partial_member(rac@),
    {
        let roles: Vec<u64> = match &rac.roles {
            Some(r) => clone_roles(r),
            None => Vec::new(),
        };
        discord::PartialMember {
            roles,
            nick: clone_opt(&rac.pseudonym),
            deaf: false,
            mute: false,
            joined_at: None,
        }
    }
}

/// One header field for each value, all under one name.
pub open spec fn repeated(name: Seq<char>, values: Seq<Seq<char>>) -> Seq<(Seq<char>, Seq<char>)> {
    values.map_values(|v: Seq<char>| (name, v))
}

/// One header field, where there is a value.
pub open spec fn at_most_one(name: Seq<char>, value: Option<Seq<char>>) -> Seq<
    (Seq<char>, Seq<char>),
> {
    match value {
        Some(v) => seq![(name, v)],
        None => seq![],
    }
}

/// One header field with a count, unless it is zero.
pub open spec fn counted(name: Seq<char>, n: nat) -> Seq<(Seq<char>, Seq<char>)> {
    if n > 0 {
        seq![(name, decimal(n))]
    } else {
        seq![]
    }
}

/// Numbers in base ten.
pub open spec fn decimals(numbers: Seq<u64>) -> Seq<Seq<char>> {
    numbers.map_values(|n: u64| decimal(n as nat))
}

/// The values of the header fields for optional roles.
pub open spec fn role_values(roles: Option<Seq<u64>>) -> Seq<Seq<char>> {
    match roles {
        Some(r) => decimals(r),
        None => seq![],
    }
}

/// Adds one header field for each role.
fn add_roles(req: RequestBuilder, name: &str, roles: &Option<Vec<u64>>) -> (r: RequestBuilder)
    ensures
        r@ == req@.plus(repeated(name@, role_values(opt_roles(*roles)))),
{
    let ghost start = req@;
    let mut req: RequestBuilder = req;
    match roles {
        Some(ids) => {
            let ghost fields = repeated(name@, decimals(ids@));
            let mut i: usize = 0;
            assert(req@ == start.plus(fields.take(0)));
            while i < ids.len()
                invariant
                    i <= ids.len(),
                    fields == repeated(name@, decimals(ids@)),
                    req@ == start.plus(fields.take(i as int)),
                decreases ids.len() - i,
            {
                req = req.header(name, decimal_text(ids[i]));
                assert(fields.take(i as int) + seq![(name@, decimal(ids@[i as int] as nat))]
                    == fields.take(i + 1));
                assert(req@ == start.plus(fields.take(i + 1)));
                i = i + 1;
            }
            assert(fields.take(i as int) == fields);
        },
        None => {
            assert(req@ == start.plus(repeated(name@, seq![])));
        },
    }
    req
}

/// Adds one header field where there is a value.
fn add_optional(req: RequestBuilder, name: &str, value: Option<String>) -> (r: RequestBuilder)
    ensures
        r@ == req@.plus(at_most_one(name@, opt_text(value))),
{
    match value {
        Some(v) => req.header(name, v),
        None => {
            assert(req@ == req@.plus(seq![]));
            req
        },
    }
}

/// Adds one header field with a count, unless it is zero.
fn add_count(req: RequestBuilder, name: &str, n: usize) -> (r: RequestBuilder)
    ensures
        r@ == req@.plus(counted(name@, n as nat)),
{
    if n > 0 {
        req.header(name, decimal_text(n as u64))
    } else {
        assert(req@ == req@.plus(seq![]));
        req
    }
}

/// Someone has joined a server.
#[derive(Clone, Debug)]
pub struct ServerJoin(pub Member);

/// The path of a join.
pub open spec fn join_path(member: MemberView) -> Seq<char> {
    "/server/"@ + decimal(member.server_id as nat) + "/join/"@ + decimal(member.user.id as nat)
}

/// The header fields of a join.
pub open spec fn join_metadata(member: MemberView) -> Seq<(Seq<char>, Seq<char>)> {
    seq![
        ("accord-server-id"@, decimal(member.server_id as nat)),
        ("accord-member-id"@, decimal(member.user.id as nat)),
        ("accord-member-name"@, escaped(member.user.name)),
    ] + at_most_one("accord-member-pseudonym"@, member.pseudonym) + repeated(
        "accord-member-role-ids"@,
        role_values(member.roles),
    )
}

impl Sendable for ServerJoin {
    open spec fn path(&self) -> Seq<char> {
        join_path(self.0@)
    }

    open spec fn metadata(&self) -> Seq<(Seq<char>, Seq<char>)> {
        join_metadata(self.0@)
    }

    open spec fn contents(&self) -> Option<Seq<char>> {
        None
    }

    fn url(&self) -> (r: String) {
        let mut r: String = "/server/".to_owned();
        r.append(decimal_text(self.0.server_id).as_str());
        r.append("/join/");
        r.append(decimal_text(self.0.user.id).as_str());
        r
    }

    fn customise(&self, req: RequestBuilder) -> (r: RequestBuilder) {
        let ghost start = req@;
        let mut req: RequestBuilder = req.header(
            "accord-server-id",
            decimal_text(self.0.server_id),
        ).header("accord-member-id", decimal_text(self.0.user.id)).header(
            "accord-member-name",
            escape(self.0.user.name.as_str()),
        );
        req = add_optional(req, "accord-member-pseudonym", clone_opt(&self.0.pseudonym));
        req = add_roles(req, "accord-member-role-ids", &self.0.roles);
        assert(req@.headers == start.headers + self.metadata());
        req
    }

    fn body(&self) -> (r: Option<Vec<u8>>) {
        None
    }
}

/// A mark on a message.
#[derive(Clone, Copy, Debug, PartialEq, Eq, Structural)]
pub enum MessageFlag {
    Crossposted,
    IsCrosspost,
    SuppressEmbeds,
    SourceMessageDeleted,
    Urgent,
}

/// The position of a flag's bit among Discord's message flags.
pub open spec fn flag_bit(flag: MessageFlag) -> int {
    match flag {
        MessageFlag::Crossposted => 0,
        MessageFlag::IsCrosspost => 1,
        MessageFlag::SuppressEmbeds => 2,
        MessageFlag::SourceMessageDeleted => 3,
        MessageFlag::Urgent => 4,
    }
}

/// The name of a flag.
pub open spec fn flag_name(flag: MessageFlag) -> Seq<char> {
    match flag {
        MessageFlag::Crossposted => "crossposted"@,
        MessageFlag::IsCrosspost => "is-crosspost"@,
        MessageFlag::SuppressEmbeds => "suppress-embeds"@,
        MessageFlag::SourceMessageDeleted => "source-message-deleted"@,
        MessageFlag::Urgent => "urgent"@,
    }
}

/// A list of one flag, if a set of bits holds the flag's bit.
pub open spec fn flag_if_held(flag: MessageFlag, held: Set<int>) -> Seq<MessageFlag> {
    if held.contains(flag_bit(flag)) {
        seq![flag]
    } else {
        seq![]
    }
}

/// The flags whose bits a set holds, in the order of the bits.
pub open spec fn flags_listed(held: Set<int>) -> Seq<MessageFlag> {
    flag_if_held(MessageFlag::Crossposted, held) + flag_if_held(MessageFlag::IsCrosspost, held)
        + flag_if_held(MessageFlag::SuppressEmbeds, held) + flag_if_held(
        MessageFlag::SourceMessageDeleted,
        held,
    ) + flag_if_held(MessageFlag::Urgent, held)
}

/// The bits of the flags in a list.
pub open spec fn flag_bits(flags: Seq<MessageFlag>) -> Set<int> {
    Set::new(|bit: int| exists|i: int| 0 <= i < flags.len() && flag_bit(#[trigger] flags[i]) == bit)
}

/// The bits of the flags in a list; a list without flags stands for no flags at all.
pub open spec fn flags_packed(flags: Seq<MessageFlag>) -> Option<Set<int>> {
    if flags.len() == 0 {
        None
    } else {
        Some(flag_bits(flags))
    }
}

/// Whether a flag is in a list.
fn has_flag(flags: &[MessageFlag], flag: MessageFlag) -> (r: bool)
    ensures
        r == flag_bits(flags@).contains(flag_bit(flag)),
{
    let mut i: usize = 0;
    while i < flags.len()
        invariant
            i <= flags.len(),
            forall|j: int| 0 <= j < i ==> flags@[j] != flag,
        decreases flags.len() - i,
    {
        if flags[i] == flag {
            assert(flag_bit(flags@[i as int]) == flag_bit(flag));
            return true;
        }
        i = i + 1;
    }
    false
}

impl MessageFlag {
    /// Lists the flags in a set of Discord's, in the order of their bits.
    pub fn from_discord(dis: MessageFlags) -> (r: Vec<Self>)
        ensures
            r@ == flags_listed(flags_held(dis)),
    {
        let mut flags: Vec<Self> = Vec::with_capacity(5);
        proof {
            let held = flags_held(dis);
            assert forall|bit: int| #[trigger] set![bit].subset_of(held) == held.contains(bit) by {
                assert(set![bit].contains(bit));
            }
        }
        if dis.contains(crossposted_flag()) {
            flags.push(MessageFlag::Crossposted);
        }
        if dis.contains(is_crosspost_flag()) {
            flags.push(MessageFlag::IsCrosspost);
        }
        if dis.contains(suppress_embeds_flag()) {
            flags.push(MessageFlag::SuppressEmbeds);
        }
        if dis.contains(source_message_deleted_flag()) {
            flags.push(MessageFlag::SourceMessageDeleted);
        }
        if dis.contains(urgent_flag()) {
            flags.push(MessageFlag::Urgent);
        }
        assert(flags@ == flags_listed(flags_held(dis)));
        flags
    }

    /// Puts the flags of a list in a set of Discord's, unless the list is empty.
    pub fn to_discord(rac: &[Self]) -> (r: Option<MessageFlags>)
        ensures
            opt_flags(r) == flags_packed(rac@),
    {
        if rac.is_empty() {
            return None;
        }
        let mut flags: MessageFlags = MessageFlags::empty();
        if has_flag(rac, MessageFlag::Crossposted) {
            flags.insert(crossposted_flag());
        }
        if has_flag(rac, MessageFlag::IsCrosspost) {
            flags.insert(is_crosspost_flag());
        }
        if has_flag(rac, MessageFlag::SuppressEmbeds) {
            flags.insert(suppress_embeds_flag());
        }
        if has_flag(rac, MessageFlag::SourceMessageDeleted) {
            flags.insert(source_message_deleted_flag());
        }
        if has_flag(rac, MessageFlag::Urgent) {
            flags.insert(urgent_flag());
        }
        proof {
            let held = flags_held(flags);
            let bits = flag_bits(rac@);
            assert forall|bit: int| held.contains(bit) == bits.contains(bit) by {
                if bits.contains(bit) {
                    let i = choose|i: int|
                        0 <= i < rac@.len() && flag_bit(#[trigger] rac@[i]) == bit;
                    assert(0 <= flag_bit(rac@[i]) <= 4);
                }
            }
            assert(held == bits);
        }
        Some(flags)
    }

    /// Writes the name of the flag.
    pub fn to_string(&self) -> (r: String)
        ensures
            r@ == flag_name(*self),
    {
        match self {
            MessageFlag::Crossposted => "crossposted".to_owned(),
            MessageFlag::IsCrosspost => "is-crosspost".to_owned(),
            MessageFlag::SuppressEmbeds => "suppress-embeds".to_owned(),
            MessageFlag::SourceMessageDeleted => "source-message-deleted".to_owned(),
            MessageFlag::Urgent => "urgent".to_owned(),
        }
    }
}

/// The flags that optional message flags of Discord's hold.
pub open spec fn opt_flags_listed(flags: Option<Set<int>>) -> Seq<MessageFlag> {
    match flags {
        Some(held) => flags_listed(held),
        None => seq![],
    }
}

/// Lists the flags in an optional set of Discord's.
pub(crate) fn flags_of(dis: &Option<MessageFlags>) -> (r: Vec<MessageFlag>)
    ensures
        r@ == opt_flags_listed(opt_flags(*dis)),
{
    match dis {
        Some(flags) => MessageFlag::from_discord(*flags),
        None => Vec::new(),
    }
}

/// The names of flags.
pub open spec fn flag_names(flags: Seq<MessageFlag>) -> Seq<Seq<char>> {
    flags.map_values(|f: MessageFlag| flag_name(f))
}

/// Adds one header field for each flag.
fn add_flags(req: RequestBuilder, name: &str, flags: &Vec<MessageFlag>) -> (r: RequestBuilder)
    ensures
        r@ == req@.plus(repeated(name@, flag_names(flags@))),
{
    let ghost start = req@;
    let ghost fields = repeated(name@, flag_names(flags@));
    let mut req: RequestBuilder = req;
    let mut i: usize = 0;
    assert(req@ == start.plus(fields.take(0)));
    while i < flags.len()
        invariant
            i <= flags.len(),
            fields == repeated(name@, flag_names(flags@)),
            req@ == start.plus(fields.take(i as int)),
        decreases flags.len() - i,
    {
        req = req.header(name, flags[i].to_string());
        assert(fields.take(i as int) + seq![(name@, flag_name(flags@[i as int]))] == fields.take(
            i + 1,
        ));
        assert(req@ == start.plus(fields.take(i + 1)));
        i = i + 1;
    }
    assert(fields.take(i as int) == fields);
    req
}

/// The kinds of messages that the target can tell apart.
#[derive(Clone, Copy, Debug, PartialEq, Eq, Structural)]
pub enum MessageType {
    Regular,
    RecipientAdd,
    RecipientRemove,
    Call,
    ChannelNameChange,
    ChannelIconChange,
    ChannelMessagePinned,
    GuildMemberJoin,
    UserPremiumSub,
    UserPremiumSubTier1,
    UserPremiumSubTier2,
    UserPremiumSubTier3,
    ChannelFollowAdd,
    GuildDiscoveryDisqualified,
    GuildDiscoveryRequalified,
    Reply,
}

impl Default for MessageType {
    fn default() -> (r: Self)
        ensures
            r == MessageType::Regular,
    {
        MessageType::Regular
    }
}

/// The target's name for a kind of message.
pub open spec fn kind_of(dis: discord::MessageType) -> MessageType {
    match dis {
        discord::MessageType::Regular => MessageType::Regular,
        discord::MessageType::RecipientAdd => MessageType::RecipientAdd,
        discord::MessageType::RecipientRemove => MessageType::RecipientRemove,
        discord::MessageType::Call => MessageType::Call,
        discord::MessageType::ChannelNameChange => MessageType::ChannelNameChange,
        discord::MessageType::ChannelIconChange => MessageType::ChannelIconChange,
        discord::MessageType::ChannelMessagePinned => MessageType::ChannelMessagePinned,
        discord::MessageType::GuildMemberJoin => MessageType::GuildMemberJoin,
        discord::MessageType::UserPremiumSub => MessageType::UserPremiumSub,
        discord::MessageType::UserPremiumSubTier1 => MessageType::UserPremiumSubTier1,
        discord::MessageType::UserPremiumSubTier2 => MessageType::UserPremiumSubTier2,
        discord::MessageType::UserPremiumSubTier3 => MessageType::UserPremiumSubTier3,
        discord::MessageType::ChannelFollowAdd => MessageType::ChannelFollowAdd,
        discord::MessageType::GuildDiscoveryDisqualified => MessageType::GuildDiscoveryDisqualified,
        discord::MessageType::GuildDiscoveryRequalified => MessageType::GuildDiscoveryRequalified,
        discord::MessageType::Reply => MessageType::Reply,
    }
}

/// Discord's name for a kind of message.
pub open spec fn discord_kind(rac: MessageType) -> discord::MessageType {
    match rac {
        MessageType::Regular => discord::MessageType::Regular,
        MessageType::RecipientAdd => discord::MessageType::RecipientAdd,
        MessageType::RecipientRemove => discord::MessageType::RecipientRemove,
        MessageType::Call => discord::MessageType::Call,
        MessageType::ChannelNameChange => discord::MessageType::ChannelNameChange,
        MessageType::ChannelIconChange => discord::MessageType::ChannelIconChange,
        MessageType::ChannelMessagePinned => discord::MessageType::ChannelMessagePinned,
        MessageType::GuildMemberJoin => discord::MessageType::GuildMemberJoin,
        MessageType::UserPremiumSub => discord::MessageType::UserPremiumSub,
        MessageType::UserPremiumSubTier1 => discord::MessageType::UserPremiumSubTier1,
        MessageType::UserPremiumSubTier2 => discord::MessageType::UserPremiumSubTier2,
        MessageType::UserPremiumSubTier3 => discord::MessageType::UserPremiumSubTier3,
        MessageType::ChannelFollowAdd => discord::MessageType::ChannelFollowAdd,
        MessageType::GuildDiscoveryDisqualified => discord::MessageType::GuildDiscoveryDisqualified,
        MessageType::GuildDiscoveryRequalified => discord::MessageType::GuildDiscoveryRequalified,
        MessageType::Reply => discord::MessageType::Reply,
    }
}

impl vstd::std_specs::convert::FromSpecImpl<discord::MessageType> for MessageType {
    open spec fn obeys_from_spec() -> bool {
        true
    }

    open spec fn from_spec(dis: discord::MessageType) -> MessageType {
        kind_of(dis)
    }
}

impl From<discord::MessageType> for MessageType {
    /// The target's name for a kind of message.
    fn from(dis: discord::MessageType) -> (r: Self) {
        match dis {
            discord::MessageType::Regular => MessageType::Regular,
            discord::MessageType::RecipientAdd => MessageType::RecipientAdd,
            discord::MessageType::RecipientRemove => MessageType::RecipientRemove,
            discord::MessageType::Call => MessageType::Call,
            discord::MessageType::ChannelNameChange => MessageType::ChannelNameChange,
            discord::MessageType::ChannelIconChange => MessageType::ChannelIconChange,
            discord::MessageType::ChannelMessagePinned => MessageType::ChannelMessagePinned,
            discord::MessageType::GuildMemberJoin => MessageType::GuildMemberJoin,
            discord::MessageType::UserPremiumSub => MessageType::UserPremiumSub,
            discord::MessageType::UserPremiumSubTier1 => MessageType::UserPremiumSubTier1,
            discord::MessageType::UserPremiumSubTier2 => MessageType::UserPremiumSubTier2,
            discord::MessageType::UserPremiumSubTier3 => MessageType::UserPremiumSubTier3,
            discord::MessageType::ChannelFollowAdd => MessageType::ChannelFollowAdd,
            discord::MessageType::GuildDiscoveryDisqualified => MessageType::GuildDiscoveryDisqualified,
            discord::MessageType::GuildDiscoveryRequalified => MessageType::GuildDiscoveryRequalified,
            discord::MessageType::Reply => MessageType::Reply,
        }
    }
}

impl vstd::std_specs::convert::FromSpecImpl<MessageType> for discord::MessageType {
    open spec fn obeys_from_spec() -> bool {
        true
    }

    open spec fn from_spec(rac: MessageType) -> discord::MessageType {
        discord_kind(rac)
    }
}

impl From<MessageType> for discord::MessageType {
    /// Discord's name for a kind of message.
    fn from(rac: MessageType) -> (r: Self) {
        match rac {
            MessageType::Regular => discord::MessageType::Regular,
            MessageType::RecipientAdd => discord::MessageType::RecipientAdd,
            MessageType::RecipientRemove => discord::MessageType::RecipientRemove,
            MessageType::Call => discord::MessageType::Call,
            MessageType::ChannelNameChange => discord::MessageType::ChannelNameChange,
            MessageType::ChannelIconChange => discord::MessageType::ChannelIconChange,
            MessageType::ChannelMessagePinned => discord::MessageType::ChannelMessagePinned,
            MessageType::GuildMemberJoin => discord::MessageType::GuildMemberJoin,
            MessageType::UserPremiumSub => discord::MessageType::UserPremiumSub,
            MessageType::UserPremiumSubTier1 => discord::MessageType::UserPremiumSubTier1,
            MessageType::UserPremiumSubTier2 => discord::MessageType::UserPremiumSubTier2,
            MessageType::UserPremiumSubTier3 => discord::MessageType::UserPremiumSubTier3,
            MessageType::ChannelFollowAdd => discord::MessageType::ChannelFollowAdd,
            MessageType::GuildDiscoveryDisqualified => discord::MessageType::GuildDiscoveryDisqualified,
            MessageType::GuildDiscoveryRequalified => discord::MessageType::GuildDiscoveryRequalified,
            MessageType::Reply => discord::MessageType::Reply,
        }
    }
}

/// A message in a channel of a server.
#[derive(Debug)]
pub struct ServerMessage {
    pub id: u64,
    pub server_id: u64,
    pub channel_id: u64,
    pub author: Member,
    pub timestamp_created: String,
    pub timestamp_edited: Option<String>,
    pub kind: MessageType,
    pub content: String,
    pub attachments: Vec<Attachment>,
    pub embeds: Vec<Embed>,
    pub reactions: Vec<MessageReaction>,
    pub application: Option<MessageApplication>,
    pub flags: Vec<MessageFlag>,
}

/// What a [`ServerMessage`] holds.
#[verifier::ext_equal]
pub struct ServerMessageView {
    pub id: u64,
    pub server_id: u64,
    pub channel_id: u64,
    pub author: MemberView,
    pub timestamp_created: Seq<char>,
    pub timestamp_edited: Option<Seq<char>>,
    pub kind: MessageType,
    pub content: Seq<char>,
    pub attachments: Seq<Attachment>,
    pub embeds: Seq<Embed>,
    pub reactions: Seq<MessageReaction>,
    pub application: Option<MessageApplication>,
    pub flags: Seq<MessageFlag>,
}

impl View for ServerMessage {
    type V = ServerMessageView;

    open spec fn view(&self) -> ServerMessageView {
        ServerMessageView {
            id: self.id,
            server_id: self.server_id,
            channel_id: self.channel_id,
            author: self.author@,
            timestamp_created: self.timestamp_created@,
            timestamp_edited: opt_text(self.timestamp_edited),
            kind: self.kind,
            content: self.content@,
            attachments: self.attachments@,
            embeds: self.embeds@,
            reactions: self.reactions@,
            application: self.application,
            flags: self.flags@,
        }
    }
}

/// The path of a message in a server.
pub open spec fn server_message_path(msg: ServerMessageView) -> Seq<char> {
    "/server/"@ + decimal(msg.server_id as nat) + "/channel/"@ + decimal(msg.channel_id as nat)
        + "/message"@
}

/// What a message's author is: a bot or a user.
pub open spec fn author_type(bot: bool) -> Seq<char> {
    if bot {
        "bot"@
    } else {
        "user"@
    }
}

/// A text's length in bytes, in UTF-8.
pub open spec fn byte_length(s: Seq<char>) -> nat {
    vstd::utf8::encode_utf8(s).len()
}

/// An optional text, escaped.
pub open spec fn opt_escaped(s: Option<Seq<char>>) -> Option<Seq<char>> {
    match s {
        Some(t) => Some(escaped(t)),
        None => None,
    }
}

/// The header fields that every message in a server has.
pub open spec fn server_message_ids(msg: ServerMessageView) -> Seq<(Seq<char>, Seq<char>)> {
    seq![
        ("accord-message-id"@, decimal(msg.id as nat)),
        ("accord-server-id"@, decimal(msg.server_id as nat)),
        ("accord-channel-type"@, "text"@),
        ("accord-channel-id"@, decimal(msg.channel_id as nat)),
        ("accord-author-type"@, author_type(msg.author.user.bot)),
        ("accord-author-id"@, decimal(msg.author.user.id as nat)),
        ("accord-author-name"@, escaped(msg.author.user.name)),
        ("accord-content-length"@, decimal(byte_length(msg.content))),
    ]
}

/// The header fields of a message in a server.
pub open spec fn server_message_metadata(msg: ServerMessageView) -> Seq<(Seq<char>, Seq<char>)> {
    server_message_ids(msg) + at_most_one("accord-author-pseudonym"@, opt_escaped(msg.author.pseudonym)) + repeated(
        "accord-author-role-ids"@,
        role_values(msg.author.roles),
    ) + repeated("accord-message-flags"@, flag_names(msg.flags)) + counted(
        "accord-has-attachments"@,
        msg.attachments.len(),
    ) + counted("accord-has-embeds"@, msg.embeds.len()) + counted(
        "accord-has-reactions"@,
        msg.reactions.len(),
    )
}

/// Escapes an optional text.
fn escape_opt(s: &Option<String>) -> (r: Option<String>)
    ensures
        opt_text(r) == opt_escaped(opt_text(*s)),
{
    match s {
        Some(t) => Some(escape(t.as_str())),
        None => None,
    }
}

/// Writes what a message's author is.
pub(crate) fn author_type_text(bot: bool) -> (r: String)
    ensures
        r@ == author_type(bot),
{
    if bot {
        "bot".to_owned()
    } else {
        "user".to_owned()
    }
}

/// Writes a text's length in bytes.
pub(crate) fn byte_length_text(s: &String) -> (r: String)
    ensures
        r@ == decimal(byte_length(s@)),
{
    decimal_text(s.as_str().as_bytes().len() as u64)
}

impl Sendable for ServerMessage {
    open spec fn path(&self) -> Seq<char> {
        server_message_path(self@)
    }

    open spec fn metadata(&self) -> Seq<(Seq<char>, Seq<char>)> {
        server_message_metadata(self@)
    }

    open spec fn contents(&self) -> Option<Seq<char>> {
        Some(self.content@)
    }

    fn url(&self) -> (r: String) {
        let mut r: String = "/server/".to_owned();
        r.append(decimal_text(self.server_id).as_str());
        r.append("/channel/");
        r.append(decimal_text(self.channel_id).as_str());
        r.append("/message");
        r
    }

    fn customise(&self, req: RequestBuilder) -> (r: RequestBuilder) {
        let ghost start = req@;
        let mut req: RequestBuilder = req.header("accord-message-id", decimal_text(self.id)).header(
            "accord-server-id",
            decimal_text(self.server_id),
        ).header("accord-channel-type", "text".to_owned()).header(
            "accord-channel-id",
            decimal_text(self.channel_id),
        ).header("accord-author-type", author_type_text(self.author.user.bot)).header(
            "accord-author-id",
            decimal_text(self.author.user.id),
        ).header("accord-author-name", escape(self.author.user.name.as_str())).header(
            "accord-content-length",
            byte_length_text(&self.content),
        );
        assert(req@.headers == start.headers + server_message_ids(self@));
        req = add_optional(req, "accord-author-pseudonym", escape_opt(&self.author.pseudonym));
        req = add_roles(req, "accord-author-role-ids", &self.author.roles);
        req = add_flags(req, "accord-message-flags", &self.flags);
        req = add_count(req, "accord-has-attachments", self.attachments.len());
        req = add_count(req, "accord-has-embeds", self.embeds.len());
        req = add_count(req, "accord-has-reactions", self.reactions.len());
        assert(req@.headers == start.headers + self.metadata());
        req
    }

    fn body(&self) -> (r: Option<Vec<u8>>) {
        Some(message_body(&self.content))
    }
}

/// Copies attachments.
pub(crate) fn clone_attachments(v: &Vec<Attachment>) -> (r: Vec<Attachment>)
    ensures
        r@ == v@,
{
    let r: Vec<Attachment> = v.clone();
    assert(r@ == v@);
    r
}

/// Copies embeds.
pub(crate) fn clone_embeds(v: &Vec<Embed>) -> (r: Vec<Embed>)
    ensures
        r@ == v@,
{
    let r: Vec<Embed> = v.clone();
    assert(r@ == v@);
    r
}

/// Copies reactions.
pub(crate) fn clone_reactions(v: &Vec<MessageReaction>) -> (r: Vec<MessageReaction>)
    ensures
        r@ == v@,
{
    let r: Vec<MessageReaction> = v.clone();
    assert(r@ == v@);
    r
}

/// What the target is told of a Discord message in a server.
pub open spec fn server_message_of(dis: discord::MessageView) -> ServerMessageView {
    ServerMessageView {
        id: dis.id,
        server_id: dis.guild_id->0,
        channel_id: dis.channel_id,
        author: author_of(dis),
        timestamp_created: dis.timestamp,
        timestamp_edited: dis.edited_timestamp,
        kind: kind_of(dis.kind),
        content: dis.content,
        attachments: dis.attachments,
        embeds: dis.embeds,
        reactions: dis.reactions,
        application: dis.application,
        flags: opt_flags_listed(dis.flags),
    }
}

impl ServerMessage {
    /// What the target is told of a Discord message, which has to be one in a server.
    pub fn from(dis: &discord::Message) -> (r: Self)
        requires
            dis.guild_id is Some,
        ensures
            r@ == server_message_of(dis@),
    {
        ServerMessage {
            id: dis.id,
            server_id: dis.guild_id.unwrap(),
            channel_id: dis.channel_id,
            author: Member::from(dis),
            timestamp_created: dis.timestamp.clone(),
            timestamp_edited: clone_opt(&dis.edited_timestamp),
            kind: MessageType::from(dis.kind),
            content: dis.content.clone(),
            attachments: clone_attachments(&dis.attachments),
            embeds: clone_embeds(&dis.embeds),
            reactions: clone_reactions(&dis.reactions),
            application: dis.application.clone(),
            flags: flags_of(&dis.flags),
        }
    }
}

/// The Discord message that stands for a message of the target in a server.
pub open spec fn server_ghost(rac: ServerMessageView) -> discord::MessageView {
    discord::MessageView {
        activity: None,
        application: rac.application,
        attachments: rac.attachments,
        author: discord_user(rac.author.user),
        channel_id: rac.channel_id,
        content: rac.content,
        edited_timestamp: rac.timestamp_edited,
        embeds: rac.embeds,
        flags: flags_packed(rac.flags),
        guild_id: Some(rac.server_id),
        id: rac.id,
        kind: discord_kind(rac.kind),
        member: Some(partial_member(rac.author)),
        mention_channels: seq![],
        mention_everyone: false,
        mention_roles: seq![],
        mentions: seq![],
        pinned: false,
        reactions: rac.reactions,
        reference: None,
        referenced_message: None,
        stickers: seq![],
        timestamp: rac.timestamp_created,
        tts: false,
        webhook_id: None,
    }
}

impl<'a> vstd::std_specs::convert::FromSpecImpl<&'a ServerMessage> for discord::Message {
    // What `from` gives is stated by its own `ensures`, over views.
    open spec fn obeys_from_spec() -> bool {
        false
    }

    open spec fn from_spec(rac: &'a ServerMessage) -> discord::Message {
        arbitrary()
    }
}

impl<'a> From<&'a ServerMessage> for discord::Message {
    /// The Discord message that stands for a message of the target in a server.
    fn from(rac: &'a ServerMessage) -> (r: Self)
        ensures
            r@ == server_ghost(rac@),
    {
        discord::Message {
            id: rac.id,
            guild_id: Some(rac.server_id),
            channel_id: rac.channel_id,
            author: discord::User::from(&rac.author.user),
            member: Some(discord::PartialMember::from(&rac.author)),
            timestamp: rac.timestamp_created.clone(),
            edited_timestamp: clone_opt(&rac.timestamp_edited),
            kind: discord::MessageType::from(rac.kind),
            content: rac.content.clone(),
            attachments: clone_attachments(&rac.attachments),
            embeds: clone_embeds(&rac.embeds),
            reactions: clone_reactions(&rac.reactions),
            application: rac.application.clone(),
            flags: MessageFlag::to_discord(rac.flags.as_slice()),
            activity: None,
            mention_channels: Vec::new(),
            mention_everyone: false,
            mention_roles: Vec::new(),
            mentions: Vec::new(),
            stickers: Vec::new(),
            tts: false,
            webhook_id: None,
            pinned: false,
            reference: None,
            referenced_message: None,
        }
    }
}

/// A message in a direct conversation.
#[derive(Debug)]
pub struct DirectMessage {
    pub id: u64,
    pub channel_id: u64,
    pub author: User,
    pub timestamp_created: String,
    pub timestamp_edited: Option<String>,
    pub kind: MessageType,
    pub content: String,
    pub attachments: Vec<Attachment>,
    pub embeds: Vec<Embed>,
    pub reactions: Vec<MessageReaction>,
    pub application: Option<MessageApplication>,
    pub flags: Vec<MessageFlag>,
}

/// What a [`DirectMessage`] holds.
#[verifier::ext_equal]
pub struct DirectMessageView {
    pub id: u64,
    pub channel_id: u64,
    pub author: UserView,
    pub timestamp_created: Seq<char>,
    pub timestamp_edited: Option<Seq<char>>,
    pub kind: MessageType,
    pub content: Seq<char>,
    pub attachments: Seq<Attachment>,
    pub embeds: Seq<Embed>,
    pub reactions: Seq<MessageReaction>,
    pub application: Option<MessageApplication>,
    pub flags: Seq<MessageFlag>,
}

impl View for DirectMessage {
    type V = DirectMessageView;

    open spec fn view(&self) -> DirectMessageView {
        DirectMessageView {
            id: self.id,
            channel_id: self.channel_id,
            author: self.author@,
            timestamp_created: self.timestamp_created@,
            timestamp_edited: opt_text(self.timestamp_edited),
            kind: self.kind,
            content: self.content@,
            attachments: self.attachments@,
            embeds: self.embeds@,
            reactions: self.reactions@,
            application: self.application,
            flags: self.flags@,
        }
    }
}

/// The path of a direct message.
pub open spec fn direct_message_path(msg: DirectMessageView) -> Seq<char> {
    "/direct/"@ + decimal(msg.channel_id as nat) + "/message"@
}

/// The header fields that every direct message has.
pub open spec fn direct_message_ids(msg: DirectMessageView) -> Seq<(Seq<char>, Seq<char>)> {
    seq![
        ("accord-message-id"@, decimal(msg.id as nat)),
        ("accord-channel-type"@, "direct"@),
        ("accord-channel-id"@, decimal(msg.channel_id as nat)),
        ("accord-author-type"@, author_type(msg.author.bot)),
        ("accord-author-id"@, decimal(msg.author.id as nat)),
        ("accord-author-name"@, escaped(msg.author.name)),
        ("accord-content-length"@, decimal(byte_length(msg.content))),
    ]
}

/// The header fields of a direct message.
pub open spec fn direct_message_metadata(msg: DirectMessageView) -> Seq<(Seq<char>, Seq<char>)> {
    direct_message_ids(msg) + repeated("accord-message-flags"@, flag_names(msg.flags)) + counted(
        "accord-has-attachments"@,
        msg.attachments.len(),
    ) + counted("accord-has-embeds"@, msg.embeds.len()) + counted(
        "accord-has-reactions"@,
        msg.reactions.len(),
    )
}

impl Sendable for DirectMessage {
    open spec fn path(&self) -> Seq<char> {
        direct_message_path(self@)
    }

    open spec fn metadata(&self) -> Seq<(Seq<char>, Seq<char>)> {
        direct_message_metadata(self@)
    }

    open spec fn contents(&self) -> Option<Seq<char>> {
        Some(self.content@)
    }

    fn url(&self) -> (r: String) {
        let mut r: String = "/direct/".to_owned();
        r.append(decimal_text(self.channel_id).as_str());
        r.append("/message");
        r
    }

    fn customise(&self, req: RequestBuilder) -> (r: RequestBuilder) {
        let ghost start = req@;
        let mut req: RequestBuilder = req.header("accord-message-id", decimal_text(self.id)).header(
            "accord-channel-type",
            "direct".to_owned(),
        ).header("accord-channel-id", decimal_text(self.channel_id)).header(
            "accord-author-type",
            author_type_text(self.author.bot),
        ).header("accord-author-id", decimal_text(self.author.id)).header(
            "accord-author-name",
            escape(self.author.name.as_str()),
        ).header("accord-content-length", byte_length_text(&self.content));
        assert(req@.headers == start.headers + direct_message_ids(self@));
        req = add_flags(req, "accord-message-flags", &self.flags);
        req = add_count(req, "accord-has-attachments", self.attachments.len());
        req = add_count(req, "accord-has-embeds", self.embeds.len());
        req = add_count(req, "accord-has-reactions", self.reactions.len());
        assert(req@.headers == start.headers + self.metadata());
        req
    }

    fn body(&self) -> (r: Option<Vec<u8>>) {
        Some(message_body(&self.content))
    }
}

/// What the target is told of a Discord message in a direct conversation.
pub open spec fn direct_message_of(dis: discord::MessageView) -> DirectMessageView {
    DirectMessageView {
        id: dis.id,
        channel_id: dis.channel_id,
        author: user_of(dis.author),
        timestamp_created: dis.timestamp,
        timestamp_edited: dis.edited_timestamp,
        kind: kind_of(dis.kind),
        content: dis.content,
        attachments: dis.attachments,
        embeds: dis.embeds,
        reactions: dis.reactions,
        application: dis.application,
        flags: opt_flags_listed(dis.flags),
    }
}

impl<'a> vstd::std_specs::convert::FromSpecImpl<&'a discord::Message> for DirectMessage {
    // What `from` gives is stated by its own `ensures`, over views.
    open spec fn obeys_from_spec() -> bool {
        false
    }

    open spec fn from_spec(dis: &'a discord::Message) -> DirectMessage {
        arbitrary()
    }
}

impl<'a> From<&'a discord::Message> for DirectMessage {
    /// What the target is told of a Discord message in a direct conversation.
    fn from(dis: &'a discord::Message) -> (r: Self)
        ensures
            r@ == direct_message_of(dis@),
    {
        DirectMessage {
            id: dis.id,
            channel_id: dis.channel_id,
            author: User::from(&dis.author),
            timestamp_created: dis.timestamp.clone(),
            timestamp_edited: clone_opt(&dis.edited_timestamp),
            kind: MessageType::from(dis.kind),
            content: dis.content.clone(),
            attachments: clone_attachments(&dis.attachments),
            embeds: clone_embeds(&dis.embeds),
            reactions: clone_reactions(&dis.reactions),
            application: dis.application.clone(),
            flags: flags_of(&dis.flags),
        }
    }
}

/// The Discord message that stands for a direct message of the target.
pub open spec fn direct_ghost(rac: DirectMessageView) -> discord::MessageView {
    discord::MessageView {
        activity: None,
        application: rac.application,
        attachments: rac.attachments,
        author: discord_user(rac.author),
        channel_id: rac.channel_id,
        content: rac.content,
        edited_timestamp: rac.timestamp_edited,
        embeds: rac.embeds,
        flags: flags_packed(rac.flags),
        guild_id: None,
        id: rac.id,
        kind: discord_kind(rac.kind),
        member: None,
        mention_channels: seq![],
        mention_everyone: false,
        mention_roles: seq![],
        mentions: seq![],
        pinned: false,
        reactions: rac.reactions,
        reference: None,
        referenced_message: None,
        stickers: seq![],
        timestamp: rac.timestamp_created,
        tts: false,
        webhook_id: None,
    }
}

impl<'a> vstd::std_specs::convert::FromSpecImpl<&'a DirectMessage> for discord::Message {
    // What `from` gives is stated by its own `ensures`, over views.
    open spec fn obeys_from_spec() -> bool {
        false
    }

    open spec fn from_spec(rac: &'a DirectMessage) -> discord::Message {
        arbitrary()
    }
}

impl<'a> From<&'a DirectMessage> for discord::Message {
    /// The Discord message that stands for a direct message of the target.
    fn from(rac: &'a DirectMessage) -> (r: Self)
        ensures
            r@ == direct_ghost(rac@),
    {
        discord::Message {
            id: rac.id,
            guild_id: None,
            channel_id: rac.channel_id,
            author: discord::User::from(&rac.author),
            member: None,
            timestamp: rac.timestamp_created.clone(),
            edited_timestamp: clone_opt(&rac.timestamp_edited),
            kind: discord::MessageType::from(rac.kind),
            content: rac.content.clone(),
            attachments: clone_attachments(&rac.attachments),
            embeds: clone_embeds(&rac.embeds),
            reactions: clone_reactions(&rac.reactions),
            application: rac.application.clone(),
            flags: MessageFlag::to_discord(rac.flags.as_slice()),
            activity: None,
            mention_channels: Vec::new(),
            mention_everyone: false,
            mention_roles: Vec::new(),
            mentions: Vec::new(),
            stickers: Vec::new(),
            tts: false,
            webhook_id: None,
            pinned: false,
            reference: None,
            referenced_message: None,
        }
    }
}

/// A message that is a command, with the command's words.
#[derive(Debug)]
pub struct Command<M: Sendable> {
    pub command: Vec<String>,
    pub message: M,
}

/// The path of a command.
pub open spec fn command_path(words: Seq<Seq<char>>) -> Seq<char> {
    "/command/"@ + slashed(words)
}

impl<S: Sendable> Sendable for Command<S> {
    open spec fn path(&self) -> Seq<char> {
        command_path(texts(self.command@))
    }

    open spec fn metadata(&self) -> Seq<(Seq<char>, Seq<char>)> {
        self.message.metadata()
    }

    open spec fn contents(&self) -> Option<Seq<char>> {
        None
    }

    fn url(&self) -> (r: String) {
        let mut r: String = "/command/".to_owned();
        r.append(slash_join(&self.command).as_str());
        r
    }

    fn customise(&self, req: RequestBuilder) -> (r: RequestBuilder) {
        self.message.customise(req)
    }

    fn body(&self) -> (r: Option<Vec<u8>>) {
        None
    }
}

/// A request with its body.
#[derive(Debug)]
pub struct Request {
    pub head: RequestBuilder,
    pub body: Vec<u8>,
}

/// The head of the request that carries a payload: to the payload's path under the base, with the
/// type of the content and then the payload's header fields.
pub open spec fn payload_head(
    method: Method,
    base: Seq<char>,
    path: Seq<char>,
    kind: Seq<char>,
    metadata: Seq<(Seq<char>, Seq<char>)>,
) -> RequestView {
    RequestView { method, uri: base + path, headers: seq![("content-type"@, kind)] + metadata }
}

/// What the bridge knows of its target: the base of its URLs, and which messages are commands.
pub struct Client {
    base: String,
    commands: Commands,
}

impl Client {
    /// The base of the target's URLs.
    pub closed spec fn base(&self) -> Seq<char> {
        self.base@
    }

    /// The patterns that tell commands.
    pub closed spec fn patterns(&self) -> CommandsView {
        self.commands@
    }

    /// A client for a target, with patterns that have to be regular expressions.
    pub fn new(
        base: String,
        command_match: Option<String>,
        command_parse: Option<String>,
    ) -> (r: Self)
        requires
            opt_compiles(opt_text(command_match)),
            opt_compiles(opt_text(command_parse)),
        ensures
            r.base() == base@,
            r.patterns() == patterns_in_use(opt_text(command_match), opt_text(command_parse)),
    {
        Client { base, commands: Commands::new(command_match, command_parse) }
    }

    /// A client for a target, unless a pattern is no regular expression.
    pub fn try_new(
        base: String,
        command_match: Option<String>,
        command_parse: Option<String>,
    ) -> (r: Result<Self, BadPattern>)
        ensures
            match r {
                Ok(c) => {
                    &&& opt_compiles(opt_text(command_match))
                    &&& opt_compiles(opt_text(command_parse))
                    &&& c.base() == base@
                    &&& c.patterns() == patterns_in_use(
                        opt_text(command_match),
                        opt_text(command_parse),
                    )
                },
                Err(BadPattern::CommandMatch) => !opt_compiles(opt_text(command_match)),
                Err(BadPattern::CommandParse) => {
                    &&& opt_compiles(opt_text(command_match))
                    &&& !opt_compiles(opt_text(command_parse))
                },
            },
    {
        match Commands::bad_pattern(&command_match, &command_parse) {
            Some(bad) => Err(bad),
            None => Ok(Client::new(base, command_match, command_parse)),
        }
    }

    /// The words of the command that a message is, if it is one.
    pub fn parse_command(&self, content: &str) -> (r: Option<Vec<String>>)
        ensures
            opt_texts(r) == command_under(self.patterns(), content@),
    {
        self.commands.parse_command(content)
    }

    /// The head of the request that carries a payload.
    fn head<S: Sendable>(&self, method: Method, kind: String, payload: &S) -> (r: RequestBuilder)
        ensures
            r@ == payload_head(method, self.base(), payload.path(), kind@, payload.metadata()),
    {
        let mut uri: String = self.base.clone();
        uri.append(payload.url().as_str());
        let req: RequestBuilder = RequestBuilder::new(method, uri).header("content-type", kind);
        let ghost start = req@;
        assert(start.headers == seq![("content-type"@, kind@)]);
        payload.customise(req)
    }

    /// Makes the request that asks the target for an answer to a payload.
    pub fn get<S: Sendable>(&self, payload: S) -> (r: Result<RequestBuilder, RequestError>)
        ensures
            ({
                let head = payload_head(
                    Method::Get,
                    self.base(),
                    payload.path(),
                    "application/json"@,
                    payload.metadata(),
                );
                &&& r is Ok ==> r->Ok_0@ == head
                &&& may_fault(head, uri_parses(head.uri), fault_in(r))
                &&& few_names(head.headers) ==> fault_in(r) == sure_fault(head, uri_parses(head.uri))
            }),
    {
        let head: RequestBuilder = self.head(Method::Get, "application/json".to_owned(), &payload);
        let uri_ok: bool = uri_accepted(head.uri.as_str());
        match fault_of(&head, uri_ok) {
            Some(fault) => Err(fault),
            None => Ok(head),
        }
    }

    /// Makes the request that tells the target of a payload. The body is the contents of a message;
    /// of anything else it is the payload in JSON, which has to be given.
    pub fn post<S: Sendable>(&self, payload: S, json: Vec<u8>) -> (r: Result<Request, RequestError>)
        ensures
            ({
                let head = payload_head(
                    Method::Post,
                    self.base(),
                    payload.path(),
                    content_type(payload.contents()),
                    payload.metadata(),
                );
                &&& r is Ok ==> r->Ok_0.head@ == head && r->Ok_0.body@ == body_of(
                    payload.contents(),
                    json@,
                )
                &&& may_fault(head, uri_parses(head.uri), fault_in(r))
                &&& few_names(head.headers) ==> fault_in(r) == sure_fault(head, uri_parses(head.uri))
            }),
    {
        let (kind, body): (String, Vec<u8>) = match payload.body() {
            Some(text) => ("text/plain; charset=utf-8".to_owned(), text),
            None => ("application/json".to_owned(), json),
        };
        let head: RequestBuilder = self.head(Method::Post, kind, &payload);
        let uri_ok: bool = uri_accepted(head.uri.as_str());
        match fault_of(&head, uri_ok) {
            Some(fault) => Err(fault),
            None => Ok(Request { head, body }),
        }
    }
}

} // verus!
