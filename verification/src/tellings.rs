//! What is told of users, members and messages, and how, stated of the functions themselves.

use twilight_model::channel::message::MessageFlags;
use vstd::prelude::*;

use crate::discord;
use crate::discord::flags_held;
use crate::raccord::{
    flag_name, Command, Connected, Connecting, DirectMessage, Member, MessageFlag, MessageType,
    Sendable, ServerJoin, ServerMessage, User,
};
use crate::tester::Wrap;
use crate::text::{decimal, escaped, slashed, texts};
use crate::wire::RequestBuilder;

verus! {

/// Whether two optional texts are the same.
pub open spec fn same_text(a: Option<String>, b: Option<String>) -> bool {
    match (a, b) {
        (Some(x), Some(y)) => x@ == y@,
        (None, None) => true,
        _ => false,
    }
}

/// Whether a user is told of as Discord has it.
pub open spec fn tells_user(told: User, dis: discord::User) -> bool {
    &&& told.id == dis.id
    &&& told.name@ == dis.name@
    &&& told.discriminator@ == dis.discriminator@
    &&& told.bot == dis.bot
}

/// Every Discord user is told of by its own id, name and discriminator, as a bot exactly where it
/// is one, whatever else Discord knows of it.
pub proof fn law_user_is_told(dis: &discord::User, r: User)
    requires
        call_ensures(<User as From<&discord::User>>::from, (dis,), r),
    ensures
        r.id == dis.id,
        r.name@ == dis.name@,
        r.discriminator@ == dis.discriminator@,
        r.bot == dis.bot,
{
    assert(r@.name == dis@.name);
}

/// Two Discord users with the same id, name and discriminator, both bots or both not, are told of
/// alike, whatever else sets them apart.
pub proof fn law_same_users_are_told_alike(a: &discord::User, b: &discord::User, r: User, s: User)
    requires
        call_ensures(<User as From<&discord::User>>::from, (a,), r),
        call_ensures(<User as From<&discord::User>>::from, (b,), s),
        a.id == b.id,
        a.name@ == b.name@,
        a.discriminator@ == b.discriminator@,
        a.bot == b.bot,
    ensures
        r.id == s.id,
        r.name@ == s.name@,
        r.discriminator@ == s.discriminator@,
        r.bot == s.bot,
{
    law_user_is_told(a, r);
    law_user_is_told(b, s);
}

/// The Discord user that stands for a user of the target has the same id, name and discriminator,
/// is a bot where the other is, and has nothing besides.
pub proof fn law_user_stands_for(rac: &User, r: discord::User)
    requires
        call_ensures(<discord::User as From<&User>>::from, (rac,), r),
    ensures
        tells_user(*rac, r),
        r.avatar is None,
        r.email is None,
        r.flags is None,
        r.locale is None,
        r.mfa_enabled is None,
        r.premium_type is None,
        r.public_flags is None,
        r.system is None,
        r.verified is None,
{
    assert(r@.name == rac@.name);
    assert(r@.avatar is None);
}

/// Whether the author of a message is told of as Discord has it.
pub open spec fn tells_author(told: Member, dis: discord::Message) -> bool {
    &&& tells_user(told.user, dis.author)
    &&& told.server_id == (if dis.guild_id is Some {
        dis.guild_id->0
    } else {
        0
    })
    &&& told.roles is Some <==> dis.member is Some
    &&& told.roles is Some ==> told.roles->0@ == dis.member->0.roles@
    &&& dis.member is Some ==> same_text(told.pseudonym, dis.member->0.nick)
    &&& dis.member is None ==> told.pseudonym is None
}

/// The author of a message is told of as a member: by its user, the message's server, and the roles
/// and the pseudonym of its membership where Discord gives it.
pub proof fn law_author_is_told(dis: &discord::Message, r: Member)
    requires
        call_ensures(<Member as From<&discord::Message>>::from, (dis,), r),
    ensures
        tells_author(r, *dis),
{
    assert(r@.user.name == dis@.author.name);
}

/// A member is told of by its user and its server, with its roles and its pseudonym.
pub proof fn law_member_is_told(dis: &discord::Member, r: Member)
    requires
        call_ensures(<Member as From<&discord::Member>>::from, (dis,), r),
    ensures
        tells_user(r.user, dis.user),
        r.server_id == dis.guild_id,
        r.roles is Some && r.roles->0@ == dis.roles@,
        same_text(r.pseudonym, dis.nick),
{
    assert(r@.user.name == dis@.user.name);
}

/// Whether a Discord membership stands for a member of the target.
pub open spec fn stands_for_member(dis: discord::PartialMember, rac: Member) -> bool {
    &&& same_text(dis.nick, rac.pseudonym)
    &&& rac.roles is Some ==> dis.roles@ == rac.roles->0@
    &&& rac.roles is None ==> dis.roles@.len() == 0
    &&& !dis.deaf
    &&& !dis.mute
    &&& dis.joined_at is None
}

/// The Discord membership that stands for a member of the target has its roles, if it has any, and
/// its pseudonym, and nothing besides.
pub proof fn law_member_stands_for(rac: &Member, r: discord::PartialMember)
    requires
        call_ensures(<discord::PartialMember as From<&Member>>::from, (rac,), r),
    ensures
        stands_for_member(r, *rac),
{
    assert(r@.nick == rac@.pseudonym);
}

/// Whether two names of a kind of message are the same.
pub open spec fn same_kind(a: MessageType, b: discord::MessageType) -> bool {
    &&& a is Regular <==> b is Regular
    &&& a is RecipientAdd <==> b is RecipientAdd
    &&& a is RecipientRemove <==> b is RecipientRemove
    &&& a is Call <==> b is Call
    &&& a is ChannelNameChange <==> b is ChannelNameChange
    &&& a is ChannelIconChange <==> b is ChannelIconChange
    &&& a is ChannelMessagePinned <==> b is ChannelMessagePinned
    &&& a is GuildMemberJoin <==> b is GuildMemberJoin
    &&& a is UserPremiumSub <==> b is UserPremiumSub
    &&& a is UserPremiumSubTier1 <==> b is UserPremiumSubTier1
    &&& a is UserPremiumSubTier2 <==> b is UserPremiumSubTier2
    &&& a is UserPremiumSubTier3 <==> b is UserPremiumSubTier3
    &&& a is ChannelFollowAdd <==> b is ChannelFollowAdd
    &&& a is GuildDiscoveryDisqualified <==> b is GuildDiscoveryDisqualified
    &&& a is GuildDiscoveryRequalified <==> b is GuildDiscoveryRequalified
    &&& a is Reply <==> b is Reply
}

/// A kind of message is told by the name that Discord has for it.
pub proof fn law_kind_is_told(dis: discord::MessageType, r: MessageType)
    requires
        call_ensures(<MessageType as From<discord::MessageType>>::from, (dis,), r),
    ensures
        same_kind(r, dis),
{
}

/// Discord's kind of message is the one of the same name.
pub proof fn law_kind_stands_for(rac: MessageType, r: discord::MessageType)
    requires
        call_ensures(<discord::MessageType as From<MessageType>>::from, (rac,), r),
    ensures
        same_kind(rac, r),
{
}

/// The place of a flag among flags.
pub open spec fn rank(flag: MessageFlag) -> int {
    if flag is Crossposted {
        0
    } else if flag is IsCrosspost {
        1
    } else if flag is SuppressEmbeds {
        2
    } else if flag is SourceMessageDeleted {
        3
    } else {
        4
    }
}

/// Whether a list holds exactly the flags whose bits are held, each once and in order.
pub open spec fn lists(flags: Seq<MessageFlag>, held: Set<int>) -> bool {
    &&& forall|flag: MessageFlag| #[trigger] flags.contains(flag) <==> held.contains(rank(flag))
    &&& forall|i: int, j: int|
        0 <= i < j < flags.len() ==> rank(#[trigger] flags[i]) < rank(#[trigger] flags[j])
}

/// The flags whose bits are held are listed, each once and in order.
pub(crate) proof fn lemma_lists(held: Set<int>)
    ensures
        lists(crate::raccord::flags_listed(held), held),
{
    let flags = crate::raccord::flags_listed(held);
    assert forall|flag: MessageFlag| #[trigger] flags.contains(flag) <==> held.contains(
        rank(flag),
    ) by {
        crate::laws::lemma_listed_flag(held, flag);
    }
}

/// Discord's flags are listed as they are: each that is set, once and in the order of the bits, and
/// no other.
pub proof fn law_flags_are_listed(dis: MessageFlags, r: Vec<MessageFlag>)
    requires
        call_ensures(MessageFlag::from_discord, (dis,), r),
    ensures
        lists(r@, flags_held(dis)),
{
    lemma_lists(flags_held(dis));
}

/// Whether a set of bits holds exactly those of the flags in a list.
pub open spec fn packs(held: Set<int>, flags: Seq<MessageFlag>) -> bool {
    forall|bit: int| #[trigger]
        held.contains(bit) <==> {
            ||| bit == 0 && flags.contains(MessageFlag::Crossposted)
            ||| bit == 1 && flags.contains(MessageFlag::IsCrosspost)
            ||| bit == 2 && flags.contains(MessageFlag::SuppressEmbeds)
            ||| bit == 3 && flags.contains(MessageFlag::SourceMessageDeleted)
            ||| bit == 4 && flags.contains(MessageFlag::Urgent)
        }
}

/// The bits of the flags in a list are those and no others.
proof fn lemma_packs(flags: Seq<MessageFlag>)
    ensures
        packs(crate::raccord::flag_bits(flags), flags),
{
    let held = crate::raccord::flag_bits(flags);
    assert forall|bit: int| #[trigger] held.contains(bit) <==> {
        ||| bit == 0 && flags.contains(MessageFlag::Crossposted)
        ||| bit == 1 && flags.contains(MessageFlag::IsCrosspost)
        ||| bit == 2 && flags.contains(MessageFlag::SuppressEmbeds)
        ||| bit == 3 && flags.contains(MessageFlag::SourceMessageDeleted)
        ||| bit == 4 && flags.contains(MessageFlag::Urgent)
    } by {
        if held.contains(bit) {
            let i = choose|i: int|
                0 <= i < flags.len() && crate::raccord::flag_bit(#[trigger] flags[i]) == bit;
            assert(flags.contains(flags[i]));
        }
        assert forall|flag: MessageFlag|
            flags.contains(flag) && crate::raccord::flag_bit(flag) == bit implies held.contains(
            bit,
        ) by {
            let i = choose|i: int| 0 <= i < flags.len() && flags[i] == flag;
            assert(crate::raccord::flag_bit(flags[i]) == bit);
        }
        assert(crate::raccord::flag_bit(MessageFlag::Crossposted) == 0);
        assert(crate::raccord::flag_bit(MessageFlag::IsCrosspost) == 1);
        assert(crate::raccord::flag_bit(MessageFlag::SuppressEmbeds) == 2);
        assert(crate::raccord::flag_bit(MessageFlag::SourceMessageDeleted) == 3);
        assert(crate::raccord::flag_bit(MessageFlag::Urgent) == 4);
    }
}

/// A list of flags is packed into exactly their bits, and an empty one into nothing.
pub proof fn law_flags_are_packed(rac: &[MessageFlag], r: Option<MessageFlags>)
    requires
        call_ensures(MessageFlag::to_discord, (rac,), r),
    ensures
        r is None <==> rac@.len() == 0,
        r is Some ==> packs(flags_held(r->0), rac@),
{
    lemma_packs(rac@);
}

/// The names of the five flags.
pub open spec fn names_flag(name: Seq<char>, flag: MessageFlag) -> bool {
    &&& flag is Crossposted ==> name == "crossposted"@
    &&& flag is IsCrosspost ==> name == "is-crosspost"@
    &&& flag is SuppressEmbeds ==> name == "suppress-embeds"@
    &&& flag is SourceMessageDeleted ==> name == "source-message-deleted"@
    &&& flag is Urgent ==> name == "urgent"@
}

/// Each flag is written by its name.
pub proof fn law_flag_is_named(flag: &MessageFlag, r: String)
    requires
        call_ensures(MessageFlag::to_string, (flag,), r),
    ensures
        names_flag(r@, *flag),
{
}

/// Whether the flags of a message are told as Discord has them.
pub open spec fn tells_flags(told: Seq<MessageFlag>, dis: Option<MessageFlags>) -> bool {
    &&& dis is Some ==> lists(told, flags_held(dis->0))
    &&& dis is None ==> told.len() == 0
}

/// Whether a message in a server is told as Discord has it.
pub open spec fn tells_server_message(told: ServerMessage, dis: discord::Message) -> bool {
    &&& told.id == dis.id
    &&& dis.guild_id == Some(told.server_id)
    &&& told.channel_id == dis.channel_id
    &&& tells_author(told.author, dis)
    &&& told.timestamp_created@ == dis.timestamp@
    &&& same_text(told.timestamp_edited, dis.edited_timestamp)
    &&& same_kind(told.kind, dis.kind)
    &&& told.content@ == dis.content@
    &&& told.attachments@ == dis.attachments@
    &&& told.embeds@ == dis.embeds@
    &&& told.reactions@ == dis.reactions@
    &&& told.application == dis.application
    &&& tells_flags(told.flags@, dis.flags)
}

/// Views that say the same message in a server tell it.
pub(crate) proof fn lemma_tells_server_message(told: ServerMessage, dis: discord::Message)
    requires
        dis.guild_id is Some,
        told@ == crate::raccord::server_message_of(dis@),
    ensures
        tells_server_message(told, dis),
{
    let t = told@;
    let d = dis@;
    assert(t.id == told.id && d.id == dis.id);
    assert(t.author == told.author@);
    assert(t.author.user.name == told.author.user.name@);
    assert(t.author.roles == crate::raccord::opt_roles(told.author.roles));
    assert(t.flags == told.flags@);
    match dis.flags {
        Some(f) => {
            lemma_lists(flags_held(f));
        },
        None => {},
    }
}

/// Every message in a server is told as Discord has it: its own ids, its author, its contents, and
/// all that is attached to it.
pub proof fn law_server_message_is_told(dis: &discord::Message, r: ServerMessage)
    requires
        call_ensures(ServerMessage::from, (dis,), r),
        dis.guild_id is Some,
    ensures
        tells_server_message(r, *dis),
{
    lemma_tells_server_message(r, *dis);
}

/// Whether a direct message is told as Discord has it.
pub open spec fn tells_direct_message(told: DirectMessage, dis: discord::Message) -> bool {
    &&& told.id == dis.id
    &&& told.channel_id == dis.channel_id
    &&& tells_user(told.author, dis.author)
    &&& told.timestamp_created@ == dis.timestamp@
    &&& same_text(told.timestamp_edited, dis.edited_timestamp)
    &&& same_kind(told.kind, dis.kind)
    &&& told.content@ == dis.content@
    &&& told.attachments@ == dis.attachments@
    &&& told.embeds@ == dis.embeds@
    &&& told.reactions@ == dis.reactions@
    &&& told.application == dis.application
    &&& tells_flags(told.flags@, dis.flags)
}

/// Views that say the same direct message tell it.
pub(crate) proof fn lemma_tells_direct_message(told: DirectMessage, dis: discord::Message)
    requires
        told@ == crate::raccord::direct_message_of(dis@),
    ensures
        tells_direct_message(told, dis),
{
    let t = told@;
    let d = dis@;
    assert(t.id == told.id && d.id == dis.id);
    assert(t.author.name == told.author.name@);
    assert(t.flags == told.flags@);
    match dis.flags {
        Some(f) => {
            lemma_lists(flags_held(f));
        },
        None => {},
    }
}

/// Every direct message is told as Discord has it.
pub proof fn law_direct_message_is_told(dis: &discord::Message, r: DirectMessage)
    requires
        call_ensures(<DirectMessage as From<&discord::Message>>::from, (dis,), r),
    ensures
        tells_direct_message(r, *dis),
{
    lemma_tells_direct_message(r, *dis);
}

/// Whether a Discord message has none of what the target does not know.
pub open spec fn is_bare(dis: discord::Message) -> bool {
    &&& dis.activity is None
    &&& dis.mention_channels@.len() == 0
    &&& !dis.mention_everyone
    &&& dis.mention_roles@.len() == 0
    &&& dis.mentions@.len() == 0
    &&& !dis.pinned
    &&& dis.reference is None
    &&& dis.referenced_message is None
    &&& dis.stickers@.len() == 0
    &&& !dis.tts
    &&& dis.webhook_id is None
}

/// Whether Discord's flags are those of a list.
pub open spec fn stands_for_flags(dis: Option<MessageFlags>, flags: Seq<MessageFlag>) -> bool {
    &&& dis is None <==> flags.len() == 0
    &&& dis is Some ==> packs(flags_held(dis->0), flags)
}

/// Whether a Discord message stands for a message in a server.
pub open spec fn stands_for_server_message(dis: discord::Message, rac: ServerMessage) -> bool {
    &&& dis.id == rac.id
    &&& dis.guild_id == Some(rac.server_id)
    &&& dis.channel_id == rac.channel_id
    &&& tells_user(rac.author.user, dis.author)
    &&& dis.member is Some && stands_for_member(dis.member->0, rac.author)
    &&& dis.timestamp@ == rac.timestamp_created@
    &&& same_text(dis.edited_timestamp, rac.timestamp_edited)
    &&& same_kind(rac.kind, dis.kind)
    &&& dis.content@ == rac.content@
    &&& dis.attachments@ == rac.attachments@
    &&& dis.embeds@ == rac.embeds@
    &&& dis.reactions@ == rac.reactions@
    &&& dis.application == rac.application
    &&& stands_for_flags(dis.flags, rac.flags@)
    &&& is_bare(dis)
}

/// Views that say the same message in a server stand for it.
pub(crate) proof fn lemma_stands_for_server_message(dis: discord::Message, rac: ServerMessage)
    requires
        dis@ == crate::raccord::server_ghost(rac@),
    ensures
        stands_for_server_message(dis, rac),
{
    let d = dis@;
    assert(d.id == dis.id);
    assert(d.author.name == dis.author.name@);
    assert(d.member->0.nick == crate::text::opt_text(dis.member->0.nick));
    assert(d.mentions == dis.mentions@);
    lemma_packs(rac.flags@);
}

/// The Discord message that stands for a message in a server has all that the other has, and
/// nothing besides.
pub proof fn law_server_message_stands_for(rac: &ServerMessage, r: discord::Message)
    requires
        call_ensures(<discord::Message as From<&ServerMessage>>::from, (rac,), r),
    ensures
        stands_for_server_message(r, *rac),
{
    lemma_stands_for_server_message(r, *rac);
}

/// Whether a Discord message stands for a direct message.
pub open spec fn stands_for_direct_message(dis: discord::Message, rac: DirectMessage) -> bool {
    &&& dis.id == rac.id
    &&& dis.guild_id is None
    &&& dis.channel_id == rac.channel_id
    &&& tells_user(rac.author, dis.author)
    &&& dis.member is None
    &&& dis.timestamp@ == rac.timestamp_created@
    &&& same_text(dis.edited_timestamp, rac.timestamp_edited)
    &&& same_kind(rac.kind, dis.kind)
    &&& dis.content@ == rac.content@
    &&& dis.attachments@ == rac.attachments@
    &&& dis.embeds@ == rac.embeds@
    &&& dis.reactions@ == rac.reactions@
    &&& dis.application == rac.application
    &&& stands_for_flags(dis.flags, rac.flags@)
    &&& is_bare(dis)
}

/// Views that say the same direct message stand for it.
pub(crate) proof fn lemma_stands_for_direct_message(dis: discord::Message, rac: DirectMessage)
    requires
        dis@ == crate::raccord::direct_ghost(rac@),
    ensures
        stands_for_direct_message(dis, rac),
{
    let d = dis@;
    assert(d.id == dis.id);
    assert(d.author.name == dis.author.name@);
    assert(d.mentions == dis.mentions@);
    lemma_packs(rac.flags@);
}

/// The Discord message that stands for a direct message has all that the other has, and nothing
/// besides.
pub proof fn law_direct_message_stands_for(rac: &DirectMessage, r: discord::Message)
    requires
        call_ensures(<discord::Message as From<&DirectMessage>>::from, (rac,), r),
    ensures
        stands_for_direct_message(r, *rac),
{
    lemma_stands_for_direct_message(r, *rac);
}

/// Whether a header field of a request has a name and a value.
pub open spec fn field_is(req: RequestBuilder, i: int, name: Seq<char>, value: Seq<char>) -> bool {
    &&& 0 <= i < req.headers@.len()
    &&& req.headers@[i].0@ == name
    &&& req.headers@[i].1@ == value
}

/// Whether a request goes on from another: with the same method, URI and header fields, and then
/// others.
pub open spec fn goes_on(r: RequestBuilder, req: RequestBuilder) -> bool {
    &&& r.method == req.method
    &&& r.uri@ == req.uri@
    &&& r.headers@.len() >= req.headers@.len()
    &&& forall|i: int|
        0 <= i < req.headers@.len() ==> #[trigger] field_is(
            r,
            i,
            req.headers@[i].0@,
            req.headers@[i].1@,
        )
}

/// The fields that a request has beyond those of another are what was added.
pub(crate) proof fn lemma_added(
    req: RequestBuilder,
    r: RequestBuilder,
    added: Seq<(Seq<char>, Seq<char>)>,
)
    requires
        r@ == req@.plus(added),
    ensures
        goes_on(r, req),
        r.headers@.len() == req.headers@.len() + added.len(),
        forall|k: int|
            #![trigger added[k]]
            0 <= k < added.len() ==> field_is(
                r,
                req.headers@.len() + k,
                added[k].0,
                added[k].1,
            ),
{
    let n = req.headers@.len();
    let all = req@.headers + added;
    assert(r@.headers == all);
    assert(r@.headers.len() == r.headers@.len());
    assert forall|i: int| 0 <= i < all.len() implies field_is(r, i, all[i].0, all[i].1) by {
        assert(r@.headers[i] == (r.headers@[i].0@, r.headers@[i].1@));
    }
    assert forall|i: int| 0 <= i < n implies #[trigger] field_is(
        r,
        i,
        req.headers@[i].0@,
        req.headers@[i].1@,
    ) by {
        assert(all[i] == (req.headers@[i].0@, req.headers@[i].1@));
        assert(field_is(r, i, all[i].0, all[i].1));
    }
    assert forall|k: int| #![trigger added[k]] 0 <= k < added.len() implies field_is(
        r,
        n + k,
        added[k].0,
        added[k].1,
    ) by {
        assert(all[n + k] == added[k]);
        assert(field_is(r, n + k, all[n + k].0, all[n + k].1));
    }
}

/// One where something is so, and none where it is not.
pub open spec fn one_if(b: bool) -> int {
    if b {
        1
    } else {
        0
    }
}

/// The number of roles that are known.
pub open spec fn role_count(roles: Option<Vec<u64>>) -> int {
    if roles is Some {
        roles->0@.len() as int
    } else {
        0
    }
}

/// The word for a bot or a person.
pub open spec fn author_word(bot: bool) -> Seq<char> {
    if bot {
        "bot"@
    } else {
        "user"@
    }
}

/// The header fields that a message in a server adds to a request, one by one: its ids, its
/// author's type, id and escaped name and the length of its contents in bytes; then the escaped
/// pseudonym, each role, each flag, and the counts of what is attached, as far as there are any.
#[verifier::rlimit(30)]
pub proof fn law_server_message_fields(
    msg: &ServerMessage,
    req: RequestBuilder,
    r: RequestBuilder,
)
    requires
        call_ensures(<ServerMessage as Sendable>::customise, (msg, req), r),
    ensures
        goes_on(r, req),
        ({
            let n = req.headers@.len() as int;
            let at_roles = n + 8 + one_if(msg.author.pseudonym is Some);
            let at_flags = at_roles + role_count(msg.author.roles);
            let at_attachments = at_flags + msg.flags@.len();
            let at_embeds = at_attachments + one_if(msg.attachments@.len() > 0);
            let at_reactions = at_embeds + one_if(msg.embeds@.len() > 0);
            &&& r.headers@.len() == at_reactions + one_if(msg.reactions@.len() > 0)
            &&& field_is(r, n, "accord-message-id"@, decimal(msg.id as nat))
            &&& field_is(r, n + 1, "accord-server-id"@, decimal(msg.server_id as nat))
            &&& field_is(r, n + 2, "accord-channel-type"@, "text"@)
            &&& field_is(r, n + 3, "accord-channel-id"@, decimal(msg.channel_id as nat))
            &&& field_is(r, n + 4, "accord-author-type"@, author_word(msg.author.user.bot))
            &&& field_is(r, n + 5, "accord-author-id"@, decimal(msg.author.user.id as nat))
            &&& field_is(r, n + 6, "accord-author-name"@, escaped(msg.author.user.name@))
            &&& field_is(
                r,
                n + 7,
                "accord-content-length"@,
                decimal(vstd::utf8::encode_utf8(msg.content@).len()),
            )
            &&& msg.author.pseudonym is Some ==> field_is(
                r,
                n + 8,
                "accord-author-pseudonym"@,
                escaped(msg.author.pseudonym->0@),
            )
            &&& forall|i: int|
                0 <= i < role_count(msg.author.roles) ==> #[trigger] field_is(
                    r,
                    at_roles + i,
                    "accord-author-role-ids"@,
                    decimal(msg.author.roles->0@[i] as nat),
                )
            &&& forall|i: int|
                0 <= i < msg.flags@.len() ==> #[trigger] field_is(
                    r,
                    at_flags + i,
                    "accord-message-flags"@,
                    flag_name(msg.flags@[i]),
                ) && names_flag(flag_name(msg.flags@[i]), msg.flags@[i])
            &&& msg.attachments@.len() > 0 ==> field_is(
                r,
                at_attachments,
                "accord-has-attachments"@,
                decimal(msg.attachments@.len()),
            )
            &&& msg.embeds@.len() > 0 ==> field_is(
                r,
                at_embeds,
                "accord-has-embeds"@,
                decimal(msg.embeds@.len()),
            )
            &&& msg.reactions@.len() > 0 ==> field_is(
                r,
                at_reactions,
                "accord-has-reactions"@,
                decimal(msg.reactions@.len()),
            )
        }),
{
    let n = req.headers@.len() as int;
    let added = msg.metadata();
    lemma_added(req, r, added);
    let p = one_if(msg.author.pseudonym is Some);
    let q = role_count(msg.author.roles);
    let f = msg.flags@.len() as int;
    let a = one_if(msg.attachments@.len() > 0);
    let e = one_if(msg.embeds@.len() > 0);
    assert(added.len() == 8 + p + q + f + a + e + one_if(msg.reactions@.len() > 0));
    assert(added[0].0 == "accord-message-id"@);
    assert(added[1].0 == "accord-server-id"@);
    assert(added[2].0 == "accord-channel-type"@);
    assert(added[3].0 == "accord-channel-id"@);
    assert(added[4].0 == "accord-author-type"@);
    assert(added[5].0 == "accord-author-id"@);
    assert(added[6].0 == "accord-author-name"@);
    assert(added[7].0 == "accord-content-length"@);
    if msg.author.pseudonym is Some {
        assert(added[8].0 == "accord-author-pseudonym"@);
    }
    assert forall|i: int| 0 <= i < q implies #[trigger] field_is(
        r,
        n + 8 + p + i,
        "accord-author-role-ids"@,
        decimal(msg.author.roles->0@[i] as nat),
    ) by {
        assert(added[8 + p + i] == (
            "accord-author-role-ids"@,
            decimal(msg.author.roles->0@[i] as nat),
        ));
    }
    assert forall|i: int| 0 <= i < f implies #[trigger] field_is(
        r,
        n + 8 + p + q + i,
        "accord-message-flags"@,
        flag_name(msg.flags@[i]),
    ) by {
        assert(added[8 + p + q + i] == ("accord-message-flags"@, flag_name(msg.flags@[i])));
    }
    if msg.attachments@.len() > 0 {
        assert(added[8 + p + q + f].0 == "accord-has-attachments"@);
    }
    if msg.embeds@.len() > 0 {
        assert(added[8 + p + q + f + a].0 == "accord-has-embeds"@);
    }
    if msg.reactions@.len() > 0 {
        assert(added[8 + p + q + f + a + e].0 == "accord-has-reactions"@);
    }
}

/// The header fields that a direct message adds to a request, one by one.
#[verifier::rlimit(30)]
pub proof fn law_direct_message_fields(
    msg: &DirectMessage,
    req: RequestBuilder,
    r: RequestBuilder,
)
    requires
        call_ensures(<DirectMessage as Sendable>::customise, (msg, req), r),
    ensures
        goes_on(r, req),
        ({
            let n = req.headers@.len() as int;
            let at_attachments = n + 7 + msg.flags@.len();
            let at_embeds = at_attachments + one_if(msg.attachments@.len() > 0);
            let at_reactions = at_embeds + one_if(msg.embeds@.len() > 0);
            &&& r.headers@.len() == at_reactions + one_if(msg.reactions@.len() > 0)
            &&& field_is(r, n, "accord-message-id"@, decimal(msg.id as nat))
            &&& field_is(r, n + 1, "accord-channel-type"@, "direct"@)
            &&& field_is(r, n + 2, "accord-channel-id"@, decimal(msg.channel_id as nat))
            &&& field_is(r, n + 3, "accord-author-type"@, author_word(msg.author.bot))
            &&& field_is(r, n + 4, "accord-author-id"@, decimal(msg.author.id as nat))
            &&& field_is(r, n + 5, "accord-author-name"@, escaped(msg.author.name@))
            &&& field_is(
                r,
                n + 6,
                "accord-content-length"@,
                decimal(vstd::utf8::encode_utf8(msg.content@).len()),
            )
            &&& forall|i: int|
                0 <= i < msg.flags@.len() ==> #[trigger] field_is(
                    r,
                    n + 7 + i,
                    "accord-message-flags"@,
                    flag_name(msg.flags@[i]),
                ) && names_flag(flag_name(msg.flags@[i]), msg.flags@[i])
            &&& msg.attachments@.len() > 0 ==> field_is(
                r,
                at_attachments,
                "accord-has-attachments"@,
                decimal(msg.attachments@.len()),
            )
            &&& msg.embeds@.len() > 0 ==> field_is(
                r,
                at_embeds,
                "accord-has-embeds"@,
                decimal(msg.embeds@.len()),
            )
            &&& msg.reactions@.len() > 0 ==> field_is(
                r,
                at_reactions,
                "accord-has-reactions"@,
                decimal(msg.reactions@.len()),
            )
        }),
{
    let n = req.headers@.len() as int;
    let added = msg.metadata();
    lemma_added(req, r, added);
    let f = msg.flags@.len() as int;
    let a = one_if(msg.attachments@.len() > 0);
    let e = one_if(msg.embeds@.len() > 0);
    assert(added.len() == 7 + f + a + e + one_if(msg.reactions@.len() > 0));
    assert(added[0].0 == "accord-message-id"@);
    assert(added[1].0 == "accord-channel-type"@);
    assert(added[2].0 == "accord-channel-id"@);
    assert(added[3].0 == "accord-author-type"@);
    assert(added[4].0 == "accord-author-id"@);
    assert(added[5].0 == "accord-author-name"@);
    assert(added[6].0 == "accord-content-length"@);
    assert forall|i: int| 0 <= i < f implies #[trigger] field_is(
        r,
        n + 7 + i,
        "accord-message-flags"@,
        flag_name(msg.flags@[i]),
    ) by {
        assert(added[7 + i] == ("accord-message-flags"@, flag_name(msg.flags@[i])));
    }
    if msg.attachments@.len() > 0 {
        assert(added[7 + f].0 == "accord-has-attachments"@);
    }
    if msg.embeds@.len() > 0 {
        assert(added[7 + f + a].0 == "accord-has-embeds"@);
    }
    if msg.reactions@.len() > 0 {
        assert(added[7 + f + a + e].0 == "accord-has-reactions"@);
    }
}

/// The header fields that a join adds to a request, one by one.
pub proof fn law_join_fields(join: &ServerJoin, req: RequestBuilder, r: RequestBuilder)
    requires
        call_ensures(<ServerJoin as Sendable>::customise, (join, req), r),
    ensures
        goes_on(r, req),
        ({
            let n = req.headers@.len() as int;
            let at_roles = n + 3 + one_if(join.0.pseudonym is Some);
            &&& r.headers@.len() == at_roles + role_count(join.0.roles)
            &&& field_is(r, n, "accord-server-id"@, decimal(join.0.server_id as nat))
            &&& field_is(r, n + 1, "accord-member-id"@, decimal(join.0.user.id as nat))
            &&& field_is(r, n + 2, "accord-member-name"@, escaped(join.0.user.name@))
            &&& join.0.pseudonym is Some ==> field_is(
                r,
                n + 3,
                "accord-member-pseudonym"@,
                join.0.pseudonym->0@,
            )
            &&& forall|i: int|
                0 <= i < role_count(join.0.roles) ==> #[trigger] field_is(
                    r,
                    at_roles + i,
                    "accord-member-role-ids"@,
                    decimal(join.0.roles->0@[i] as nat),
                )
        }),
{
    let n = req.headers@.len() as int;
    let added = join.metadata();
    lemma_added(req, r, added);
    let p = one_if(join.0.pseudonym is Some);
    let q = role_count(join.0.roles);
    assert(added.len() == 3 + p + q);
    assert(added[0].0 == "accord-server-id"@);
    assert(added[1].0 == "accord-member-id"@);
    assert(added[2].0 == "accord-member-name"@);
    if join.0.pseudonym is Some {
        assert(added[3].0 == "accord-member-pseudonym"@);
    }
    assert forall|i: int| 0 <= i < q implies #[trigger] field_is(
        r,
        n + 3 + p + i,
        "accord-member-role-ids"@,
        decimal(join.0.roles->0@[i] as nat),
    ) by {
        assert(added[3 + p + i] == (
            "accord-member-role-ids"@,
            decimal(join.0.roles->0@[i] as nat),
        ));
    }
}

/// Announcements and acts for trial add no header fields.
pub proof fn law_no_fields_added(
    connecting: &Connecting,
    connected: &Connected,
    wrap: &Wrap,
    req: RequestBuilder,
    a: RequestBuilder,
    b: RequestBuilder,
    c: RequestBuilder,
)
    requires
        call_ensures(<Connecting as Sendable>::customise, (connecting, req), a),
        call_ensures(<Connected as Sendable>::customise, (connected, req), b),
        call_ensures(<Wrap as Sendable>::customise, (wrap, req), c),
    ensures
        goes_on(a, req) && a.headers@.len() == req.headers@.len(),
        goes_on(b, req) && b.headers@.len() == req.headers@.len(),
        goes_on(c, req) && c.headers@.len() == req.headers@.len(),
{
    lemma_added(req, a, connecting.metadata());
    lemma_added(req, b, connected.metadata());
    lemma_added(req, c, wrap.metadata());
}

/// A command adds the header fields that its message adds.
pub proof fn law_command_fields<S: Sendable>(
    command: &Command<S>,
    req: RequestBuilder,
    r: RequestBuilder,
    own: RequestBuilder,
)
    requires
        call_ensures(<Command<S> as Sendable>::customise, (command, req), r),
        call_ensures(<S as Sendable>::customise, (&command.message, req), own),
    ensures
        r.method == own.method,
        r.uri@ == own.uri@,
        r.headers@.len() == own.headers@.len(),
        forall|i: int|
            0 <= i < own.headers@.len() ==> #[trigger] field_is(
                r,
                i,
                own.headers@[i].0@,
                own.headers@[i].1@,
            ),
{
    assert(r@ == own@);
    assert(r@.headers.len() == r.headers@.len());
    assert(own@.headers.len() == own.headers@.len());
    assert forall|i: int| 0 <= i < own.headers@.len() implies #[trigger] field_is(
        r,
        i,
        own.headers@[i].0@,
        own.headers@[i].1@,
    ) by {
        assert(r@.headers[i] == (r.headers@[i].0@, r.headers@[i].1@));
        assert(own@.headers[i] == (own.headers@[i].0@, own.headers@[i].1@));
    }
}

/// A message in a server is told at the path of its own server and channel.
pub proof fn law_server_message_path(msg: &ServerMessage, r: String)
    requires
        call_ensures(<ServerMessage as Sendable>::url, (msg,), r),
    ensures
        r@ == "/server/"@ + decimal(msg.server_id as nat) + "/channel/"@ + decimal(
            msg.channel_id as nat,
        ) + "/message"@,
{
}

/// A direct message is told at the path of its own channel.
pub proof fn law_direct_message_path(msg: &DirectMessage, r: String)
    requires
        call_ensures(<DirectMessage as Sendable>::url, (msg,), r),
    ensures
        r@ == "/direct/"@ + decimal(msg.channel_id as nat) + "/message"@,
{
}

/// A join is told at the path of the newcomer in its own server.
pub proof fn law_join_path(join: &ServerJoin, r: String)
    requires
        call_ensures(<ServerJoin as Sendable>::url, (join,), r),
    ensures
        r@ == "/server/"@ + decimal(join.0.server_id as nat) + "/join/"@ + decimal(
            join.0.user.id as nat,
        ),
{
}

/// A command is told at the path of its words, whatever its message.
pub proof fn law_command_path<S: Sendable>(command: &Command<S>, r: String)
    requires
        call_ensures(<Command<S> as Sendable>::url, (command,), r),
    ensures
        r@ == "/command/"@ + slashed(texts(command.command@)),
{
}

/// Announcements and acts for trial have fixed paths.
pub proof fn law_fixed_paths(
    connecting: &Connecting,
    connected: &Connected,
    wrap: &Wrap,
    a: String,
    b: String,
    c: String,
)
    requires
        call_ensures(<Connecting as Sendable>::url, (connecting,), a),
        call_ensures(<Connected as Sendable>::url, (connected,), b),
        call_ensures(<Wrap as Sendable>::url, (wrap,), c),
    ensures
        a@ == "/discord/connecting"@,
        b@ == "/discord/connected"@,
        c@ == "/test/act"@,
{
}

/// Messages are told in their contents, and nothing else is told in a text.
pub proof fn law_bodies<S: Sendable>(
    msg: &ServerMessage,
    direct: &DirectMessage,
    join: &ServerJoin,
    connected: &Connected,
    connecting: &Connecting,
    wrap: &Wrap,
    command: &Command<S>,
    a: Option<Vec<u8>>,
    b: Option<Vec<u8>>,
    c: Option<Vec<u8>>,
    d: Option<Vec<u8>>,
    e: Option<Vec<u8>>,
    f: Option<Vec<u8>>,
    g: Option<Vec<u8>>,
)
    requires
        call_ensures(<ServerMessage as Sendable>::body, (msg,), a),
        call_ensures(<DirectMessage as Sendable>::body, (direct,), b),
        call_ensures(<ServerJoin as Sendable>::body, (join,), c),
        call_ensures(<Connected as Sendable>::body, (connected,), d),
        call_ensures(<Wrap as Sendable>::body, (wrap,), e),
        call_ensures(<Command<S> as Sendable>::body, (command,), f),
        call_ensures(<Connecting as Sendable>::body, (connecting,), g),
    ensures
        a is Some && a->0@ == vstd::utf8::encode_utf8(msg.content@),
        b is Some && b->0@ == vstd::utf8::encode_utf8(direct.content@),
        c is None,
        d is None,
        e is None,
        f is None,
        g is None,
{
}

/// The type of an author is told as `bot` exactly where the author of the Discord message is one.
pub proof fn law_author_type(
    dis: &discord::Message,
    msg: ServerMessage,
    req: RequestBuilder,
    r: RequestBuilder,
)
    requires
        dis.guild_id is Some,
        call_ensures(ServerMessage::from, (dis,), msg),
        call_ensures(<ServerMessage as Sendable>::customise, (&msg, req), r),
    ensures
        field_is(
            r,
            req.headers@.len() as int + 4,
            "accord-author-type"@,
            if dis.author.bot {
                "bot"@
            } else {
                "user"@
            },
        ),
{
    law_server_message_is_told(dis, msg);
    law_server_message_fields(&msg, req, r);
}

} // verus!
