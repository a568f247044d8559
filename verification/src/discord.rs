//! The Discord side of the bridge: users, members, messages, presences and gateway events.
//!
//! Ids are plain numbers. What the bridge only carries along (attachments, embeds, reactions and
//! the like) keeps the type that `twilight_model` gives it.

use twilight_model::channel::embed::Embed;
use twilight_model::channel::message::{
    MessageActivity, MessageApplication, MessageFlags, MessageReaction, MessageReference, Sticker,
};
use twilight_model::channel::{Attachment, ChannelMention};
use twilight_model::user::{PremiumType, UserFlags};
use vstd::prelude::*;

use crate::text::opt_text;

verus! {

/// `twilight_model::channel::Attachment`, carried along unread.
#[verifier::external_type_specification]
#[verifier::external_body]
pub struct ExAttachment(Attachment);

/// `twilight_model::channel::ChannelMention`, carried along unread.
#[verifier::external_type_specification]
#[verifier::external_body]
pub struct ExChannelMention(ChannelMention);

/// `twilight_model::channel::embed::Embed`, carried along unread.
#[verifier::external_type_specification]
#[verifier::external_body]
pub struct ExEmbed(Embed);

/// `twilight_model::channel::message::MessageActivity`, carried along unread.
#[verifier::external_type_specification]
#[verifier::external_body]
pub struct ExMessageActivity(MessageActivity);

/// `twilight_model::channel::message::MessageApplication`, carried along unread.
#[verifier::external_type_specification]
#[verifier::external_body]
pub struct ExMessageApplication(MessageApplication);

/// `twilight_model::channel::message::MessageFlags`, a set of bit flags.
#[verifier::external_type_specification]
#[verifier::external_body]
pub struct ExMessageFlags(MessageFlags);

/// `twilight_model::channel::message::MessageReaction`, carried along unread.
#[verifier::external_type_specification]
#[verifier::external_body]
pub struct ExMessageReaction(MessageReaction);

/// `twilight_model::channel::message::MessageReference`, carried along unread.
#[verifier::external_type_specification]
#[verifier::external_body]
pub struct ExMessageReference(MessageReference);

/// `twilight_model::channel::message::Sticker`, carried along unread.
#[verifier::external_type_specification]
#[verifier::external_body]
pub struct ExSticker(Sticker);

/// `twilight_model::user::PremiumType`, carried along unread.
#[verifier::external_type_specification]
#[verifier::external_body]
pub struct ExPremiumType(PremiumType);

/// `twilight_model::user::UserFlags`, carried along unread.
#[verifier::external_type_specification]
#[verifier::external_body]
pub struct ExUserFlags(UserFlags);

/// `Attachment`'s derived `clone` gives an equal attachment.
pub assume_specification[ <Attachment as Clone>::clone ](a: &Attachment) -> (r: Attachment)
    ensures
        r == *a,
;

/// `Embed`'s derived `clone` gives an equal embed.
pub assume_specification[ <Embed as Clone>::clone ](e: &Embed) -> (r: Embed)
    ensures
        r == *e,
;

/// `MessageReaction`'s derived `clone` gives an equal reaction.
pub assume_specification[ <MessageReaction as Clone>::clone ](m: &MessageReaction) -> (r:
    MessageReaction)
    ensures
        r == *m,
;

/// `MessageApplication`'s derived `clone` gives an equal application.
pub assume_specification[ <MessageApplication as Clone>::clone ](m: &MessageApplication) -> (r:
    MessageApplication)
    ensures
        r == *m,
;

/// The positions of the bits that a set of message flags holds.
pub uninterp spec fn flags_held(flags: MessageFlags) -> Set<int>;

/// `MessageFlags::empty` is the set without any flag.
pub assume_specification[ MessageFlags::empty ]() -> (r: MessageFlags)
    ensures
        flags_held(r) == Set::<int>::empty(),
;

/// `MessageFlags::contains` tells whether all flags of `other` are in the set.
pub assume_specification[ MessageFlags::contains ](flags: &MessageFlags, other: MessageFlags) -> (r:
    bool)
    ensures
        r == flags_held(other).subset_of(flags_held(*flags)),
;

/// `MessageFlags::insert` puts all flags of `other` in the set and takes none out.
pub assume_specification[ MessageFlags::insert ](flags: &mut MessageFlags, other: MessageFlags)
    ensures
        flags_held(*final(flags)) == flags_held(*old(flags)).union(flags_held(other)),
;

/// `MessageFlags::CROSSPOSTED` is the flag of bit 0.
#[verifier::external_body]
pub(crate) fn crossposted_flag() -> (r: MessageFlags)
    ensures
        flags_held(r) == set![0int],
{
    MessageFlags::CROSSPOSTED
}

/// `MessageFlags::IS_CROSSPOST` is the flag of bit 1.
#[verifier::external_body]
pub(crate) fn is_crosspost_flag() -> (r: MessageFlags)
    ensures
        flags_held(r) == set![1int],
{
    MessageFlags::IS_CROSSPOST
}

/// `MessageFlags::SUPPRESS_EMBEDS` is the flag of bit 2.
#[verifier::external_body]
pub(crate) fn suppress_embeds_flag() -> (r: MessageFlags)
    ensures
        flags_held(r) == set![2int],
{
    MessageFlags::SUPPRESS_EMBEDS
}

/// `MessageFlags::SOURCE_MESSAGE_DELETED` is the flag of bit 3.
#[verifier::external_body]
pub(crate) fn source_message_deleted_flag() -> (r: MessageFlags)
    ensures
        flags_held(r) == set![3int],
{
    MessageFlags::SOURCE_MESSAGE_DELETED
}

/// `MessageFlags::URGENT` is the flag of bit 4.
#[verifier::external_body]
pub(crate) fn urgent_flag() -> (r: MessageFlags)
    ensures
        flags_held(r) == set![4int],
{
    MessageFlags::URGENT
}

/// The account of a person or a bot.
#[derive(Clone, Debug)]
pub struct User {
    pub avatar: Option<String>,
    pub bot: bool,
    pub discriminator: String,
    pub email: Option<String>,
    pub flags: Option<UserFlags>,
    pub id: u64,
    pub locale: Option<String>,
    pub mfa_enabled: Option<bool>,
    pub name: String,
    pub premium_type: Option<PremiumType>,
    pub public_flags: Option<UserFlags>,
    pub system: Option<bool>,
    pub verified: Option<bool>,
}

/// What a [`User`] holds.
#[verifier::ext_equal]
pub struct UserView {
    pub avatar: Option<Seq<char>>,
    pub bot: bool,
    pub discriminator: Seq<char>,
    pub email: Option<Seq<char>>,
    pub flags: Option<UserFlags>,
    pub id: u64,
    pub locale: Option<Seq<char>>,
    pub mfa_enabled: Option<bool>,
    pub name: Seq<char>,
    pub premium_type: Option<PremiumType>,
    pub public_flags: Option<UserFlags>,
    pub system: Option<bool>,
    pub verified: Option<bool>,
}

impl View for User {
    type V = UserView;

    open spec fn view(&self) -> UserView {
        UserView {
            avatar: opt_text(self.avatar),
            bot: self.bot,
            discriminator: self.discriminator@,
            email: opt_text(self.email),
            flags: self.flags,
            id: self.id,
            locale: opt_text(self.locale),
            mfa_enabled: self.mfa_enabled,
            name: self.name@,
            premium_type: self.premium_type,
            public_flags: self.public_flags,
            system: self.system,
            verified: self.verified,
        }
    }
}

/// What a message says of its author's membership in the server.
#[derive(Clone, Debug)]
pub struct PartialMember {
    pub deaf: bool,
    pub joined_at: Option<String>,
    pub mute: bool,
    pub nick: Option<String>,
    pub roles: Vec<u64>,
}

/// What a [`PartialMember`] holds.
#[verifier::ext_equal]
pub struct PartialMemberView {
    pub deaf: bool,
    pub joined_at: Option<Seq<char>>,
    pub mute: bool,
    pub nick: Option<Seq<char>>,
    pub roles: Seq<u64>,
}

impl View for PartialMember {
    type V = PartialMemberView;

    open spec fn view(&self) -> PartialMemberView {
        PartialMemberView {
            deaf: self.deaf,
            joined_at: opt_text(self.joined_at),
            mute: self.mute,
            nick: opt_text(self.nick),
            roles: self.roles@,
        }
    }
}

/// What an optional [`PartialMember`] holds.
pub open spec fn opt_member(member: Option<PartialMember>) -> Option<PartialMemberView> {
    match member {
        Some(m) => Some(m@),
        None => None,
    }
}

/// A user's membership in a server, as far as the bridge reads it.
#[derive(Clone, Debug)]
pub struct Member {
    pub guild_id: u64,
    pub nick: Option<String>,
    pub roles: Vec<u64>,
    pub user: User,
}

/// What a [`Member`] holds.
#[verifier::ext_equal]
pub struct MemberView {
    pub guild_id: u64,
    pub nick: Option<Seq<char>>,
    pub roles: Seq<u64>,
    pub user: UserView,
}

impl View for Member {
    type V = MemberView;

    open spec fn view(&self) -> MemberView {
        MemberView {
            guild_id: self.guild_id,
            nick: opt_text(self.nick),
            roles: self.roles@,
            user: self.user@,
        }
    }
}

/// The kinds of messages that the gateway tells apart.
#[derive(Clone, Copy, Debug, PartialEq, Eq, Structural)]
pub enum MessageType {
    Regular,
    RecipientAdd,
    RecipientRemove,
    Call,
    ChannelNameChange,
    ChannelIconChange,
    ChannelMessagePinned,
    GuildMemberJoin,
    UserPremiumSub,
    UserPremiumSubTier1,
    UserPremiumSubTier2,
    UserPremiumSubTier3,
    ChannelFollowAdd,
    GuildDiscoveryDisqualified,
    GuildDiscoveryRequalified,
    Reply,
}

/// A message in a server channel or in a direct conversation.
#[derive(Debug)]
pub struct Message {
    pub activity: Option<MessageActivity>,
    pub application: Option<MessageApplication>,
    pub attachments: Vec<Attachment>,
    pub author: User,
    pub channel_id: u64,
    pub content: String,
    pub edited_timestamp: Option<String>,
    pub embeds: Vec<Embed>,
    pub flags: Option<MessageFlags>,
    /// The server, unless the message is a direct one.
    pub guild_id: Option<u64>,
    pub id: u64,
    pub kind: MessageType,
    pub member: Option<PartialMember>,
    pub mention_channels: Vec<ChannelMention>,
    pub mention_everyone: bool,
    pub mention_roles: Vec<u64>,
    /// The mentioned users, one entry for each id.
    pub mentions: Vec<User>,
    pub pinned: bool,
    pub reactions: Vec<MessageReaction>,
    pub reference: Option<MessageReference>,
    pub referenced_message: Option<Box<Message>>,
    pub stickers: Vec<Sticker>,
    pub timestamp: String,
    pub tts: bool,
    pub webhook_id: Option<u64>,
}

/// What a [`Message`] holds.
#[verifier::ext_equal]
pub struct MessageView {
    pub activity: Option<MessageActivity>,
    pub application: Option<MessageApplication>,
    pub attachments: Seq<Attachment>,
    pub author: UserView,
    pub channel_id: u64,
    pub content: Seq<char>,
    pub edited_timestamp: Option<Seq<char>>,
    pub embeds: Seq<Embed>,
    pub flags: Option<Set<int>>,
    pub guild_id: Option<u64>,
    pub id: u64,
    pub kind: MessageType,
    pub member: Option<PartialMemberView>,
    pub mention_channels: Seq<ChannelMention>,
    pub mention_everyone: bool,
    pub mention_roles: Seq<u64>,
    pub mentions: Seq<User>,
    pub pinned: bool,
    pub reactions: Seq<MessageReaction>,
    pub reference: Option<MessageReference>,
    pub referenced_message: Option<Box<Message>>,
    pub stickers: Seq<Sticker>,
    pub timestamp: Seq<char>,
    pub tts: bool,
    pub webhook_id: Option<u64>,
}

/// The bits that optional message flags hold.
pub open spec fn opt_flags(flags: Option<MessageFlags>) -> Option<Set<int>> {
    match flags {
        Some(f) => Some(flags_held(f)),
        None => None,
    }
}

impl View for Message {
    type V = MessageView;

    open spec fn view(&self) -> MessageView {
        MessageView {
            activity: self.activity,
            application: self.application,
            attachments: self.attachments@,
            author: self.author@,
            channel_id: self.channel_id,
            content: self.content@,
            edited_timestamp: opt_text(self.edited_timestamp),
            embeds: self.embeds@,
            flags: opt_flags(self.flags),
            guild_id: self.guild_id,
            id: self.id,
            kind: self.kind,
            member: opt_member(self.member),
            mention_channels: self.mention_channels@,
            mention_everyone: self.mention_everyone,
            mention_roles: self.mention_roles@,
            mentions: self.mentions@,
            pinned: self.pinned,
            reactions: self.reactions@,
            reference: self.reference,
            referenced_message: self.referenced_message,
            stickers: self.stickers@,
            timestamp: self.timestamp@,
            tts: self.tts,
            webhook_id: self.webhook_id,
        }
    }
}

/// The online status of the bot.
#[derive(Clone, Copy, Debug, PartialEq, Eq, Structural)]
pub enum Status {
    DoNotDisturb,
    Idle,
    Invisible,
    Offline,
    Online,
}

/// What the bot is shown to be doing.
#[derive(Clone, Copy, Debug, PartialEq, Eq, Structural)]
pub enum ActivityType {
    Playing,
    Streaming,
    Listening,
    Watching,
    Custom,
}

/// A named activity, with none of its optional details.
#[derive(Clone, Debug)]
pub struct Activity {
    pub kind: ActivityType,
    pub name: String,
}

/// The presence that the bot takes on when it connects.
#[derive(Clone, Debug)]
pub struct UpdateStatusInfo {
    pub activities: Option<Vec<Activity>>,
    pub afk: bool,
    pub since: Option<u64>,
    pub status: Status,
}

/// What the gateway, or a ghost, tells the bridge.
#[derive(Debug)]
pub enum Event {
    MessageCreate(Message),
    MemberAdd(Member),
    ShardConnected,
    /// Anything that the bridge does not forward.
    Other,
}

} // verus!
