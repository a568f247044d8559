//! What the plain flavour tells, and how, stated of its functions themselves.

use vstd::prelude::*;

use crate::command::BadPattern;
use crate::discord;
use crate::discord::{Event, Message};
use crate::plain::{
    can_leave, handle_event, payload_for, spread, Client, Command, Connected, DirectMessage, Member,
    Payload, Sendable, ServerJoin, ServerMessage, User,
};
use crate::promises::{are_words, is_bad, is_command, uses};
use crate::raccord::{flag_name, Request};
use crate::requests::{is_fault_of, is_good};
use crate::tellings::{author_word, field_is, goes_on, names_flag, one_if, same_text, tells_flags};
use crate::text::{decimal, slashed, texts};
use crate::wire::{lemma_names_of_fields, valid_name, valid_value, RequestBuilder, RequestError};

verus! {

/// Whether a user is told of as Discord has it, with nothing of its roles.
pub open spec fn tells_user(told: User, dis: discord::User) -> bool {
    &&& told.id == dis.id
    &&& told.name@ == dis.name@
    &&& told.bot == dis.bot
    &&& told.roles is None
}

/// Every Discord user is told of by its own id and name, as a bot exactly where it is one, whatever
/// else Discord knows of it.
pub proof fn law_user_is_told(dis: &discord::User, r: User)
    requires
        call_ensures(<User as From<&discord::User>>::from, (dis,), r),
    ensures
        tells_user(r, *dis),
{
    assert(r@.name == dis@.name);
    assert(r@.roles == crate::raccord::opt_roles(r.roles));
}

/// Whether the author of a message is told of as Discord has it, without a pseudonym.
pub open spec fn tells_author(told: Member, dis: Message) -> bool {
    &&& tells_user(told.user, dis.author)
    &&& told.server_id == (if dis.guild_id is Some {
        dis.guild_id->0
    } else {
        0
    })
    &&& told.roles is Some <==> dis.member is Some
    &&& told.roles is Some ==> told.roles->0@ == dis.member->0.roles@
    &&& told.pseudonym is None
}

/// The author of a message is told of as a member, without a pseudonym.
pub proof fn law_author_is_told(dis: &Message, r: Member)
    requires
        call_ensures(<Member as From<&Message>>::from, (dis,), r),
    ensures
        tells_author(r, *dis),
{
    assert(r@.user.name == dis@.author.name);
    assert(r@.user.roles == crate::raccord::opt_roles(r.user.roles));
}

/// Whether a member is told of as Discord has it.
pub open spec fn tells_member(told: Member, dis: discord::Member) -> bool {
    &&& tells_user(told.user, dis.user)
    &&& told.server_id == dis.guild_id
    &&& told.roles is Some && told.roles->0@ == dis.roles@
    &&& same_text(told.pseudonym, dis.nick)
}

/// A member is told of by its user and its server, with its roles and its pseudonym.
pub proof fn law_member_is_told(dis: &discord::Member, r: Member)
    requires
        call_ensures(<Member as From<&discord::Member>>::from, (dis,), r),
    ensures
        tells_member(r, *dis),
{
    lemma_tells_member(r, *dis);
}

/// Views that say the same member tell it.
proof fn lemma_tells_member(told: Member, dis: discord::Member)
    requires
        told@ == crate::plain::member_of(dis@),
    ensures
        tells_member(told, dis),
{
    assert(told@.user.name == dis@.user.name);
    assert(told@.user.roles == crate::raccord::opt_roles(told.user.roles));
}

/// Whether a message in a server is told as Discord has it.
pub open spec fn tells_server_message(told: ServerMessage, dis: Message) -> bool {
    &&& told.id == dis.id
    &&& dis.guild_id == Some(told.server_id)
    &&& told.channel_id == dis.channel_id
    &&& tells_author(told.author, dis)
    &&& told.timestamp_created@ == dis.timestamp@
    &&& same_text(told.timestamp_edited, dis.edited_timestamp)
    &&& told.kind == dis.kind
    &&& told.content@ == dis.content@
    &&& told.attachments@ == dis.attachments@
    &&& told.embeds@ == dis.embeds@
    &&& told.reactions@ == dis.reactions@
    &&& told.application == dis.application
    &&& tells_flags(told.flags@, dis.flags)
}

/// Views that say the same message in a server tell it.
proof fn lemma_tells_server_message(told: ServerMessage, dis: Message)
    requires
        dis.guild_id is Some,
        told@ == crate::plain::server_message_of(dis@),
    ensures
        tells_server_message(told, dis),
{
    let t = told@;
    let d = dis@;
    assert(t.id == told.id && d.id == dis.id);
    assert(t.author.user.name == told.author.user.name@);
    assert(t.author.user.roles == crate::raccord::opt_roles(told.author.user.roles));
    assert(t.flags == told.flags@);
    match dis.flags {
        Some(f) => {
            crate::tellings::lemma_lists(crate::discord::flags_held(f));
        },
        None => {},
    }
}

/// Every message in a server is told as Discord has it.
pub proof fn law_server_message_is_told(dis: &Message, r: ServerMessage)
    requires
        call_ensures(ServerMessage::from, (dis,), r),
        dis.guild_id is Some,
    ensures
        tells_server_message(r, *dis),
{
    lemma_tells_server_message(r, *dis);
}

/// Whether a direct message is told as Discord has it.
pub open spec fn tells_direct_message(told: DirectMessage, dis: Message) -> bool {
    &&& told.id == dis.id
    &&& told.channel_id == dis.channel_id
    &&& tells_user(told.author, dis.author)
    &&& told.timestamp_created@ == dis.timestamp@
    &&& same_text(told.timestamp_edited, dis.edited_timestamp)
    &&& told.kind == dis.kind
    &&& told.content@ == dis.content@
    &&& told.attachments@ == dis.attachments@
    &&& told.embeds@ == dis.embeds@
    &&& told.reactions@ == dis.reactions@
    &&& told.application == dis.application
    &&& tells_flags(told.flags@, dis.flags)
}

/// Views that say the same direct message tell it.
proof fn lemma_tells_direct_message(told: DirectMessage, dis: Message)
    requires
        told@ == crate::plain::direct_message_of(dis@),
    ensures
        tells_direct_message(told, dis),
{
    let t = told@;
    let d = dis@;
    assert(t.id == told.id && d.id == dis.id);
    assert(t.author.name == told.author.name@);
    assert(t.author.roles == crate::raccord::opt_roles(told.author.roles));
    assert(t.flags == told.flags@);
    match dis.flags {
        Some(f) => {
            crate::tellings::lemma_lists(crate::discord::flags_held(f));
        },
        None => {},
    }
}

/// Every direct message is told as Discord has it.
pub proof fn law_direct_message_is_told(dis: &Message, r: DirectMessage)
    requires
        call_ensures(<DirectMessage as From<&Message>>::from, (dis,), r),
    ensures
        tells_direct_message(r, *dis),
{
    lemma_tells_direct_message(r, *dis);
}

/// Whether a message is a command is for its contents and the patterns alone to say, and so are the
/// words; whether it is told as one in a server is for its server to say. It is told as Discord has
/// it.
pub proof fn law_message_is_dispatched(
    target: &Client,
    shard_id: u64,
    message: Message,
    r: Option<Payload>,
)
    requires
        call_ensures(handle_event, (target, shard_id, &Event::MessageCreate(message)), r),
    ensures
        r is Some,
        ({
            let p = r->0;
            let command = is_command(target.patterns(), message.content@);
            let server = message.guild_id is Some;
            &&& p is ServerCommand <==> server && command
            &&& p is ServerMessage <==> server && !command
            &&& p is DirectCommand <==> !server && command
            &&& p is DirectMessage <==> !server && !command
            &&& p matches Payload::ServerCommand(c) ==> tells_server_message(c.message, message)
                && are_words(c.command@, target.patterns(), message.content@)
            &&& p matches Payload::ServerMessage(m) ==> tells_server_message(m, message)
            &&& p matches Payload::DirectCommand(c) ==> tells_direct_message(c.message, message)
                && are_words(c.command@, target.patterns(), message.content@)
            &&& p matches Payload::DirectMessage(m) ==> tells_direct_message(m, message)
        }),
{
    let event = Event::MessageCreate(message);
    let words = crate::forward::event_command(target.patterns(), event);
    assert(crate::plain::is_payload_for(r, shard_id, event, words));
    match r->0 {
        Payload::ServerCommand(c) => {
            lemma_tells_server_message(c.message, message);
            crate::promises::lemma_same_texts(c.command@, words->0);
        },
        Payload::ServerMessage(m) => {
            lemma_tells_server_message(m, message);
        },
        Payload::DirectCommand(c) => {
            lemma_tells_direct_message(c.message, message);
            crate::promises::lemma_same_texts(c.command@, words->0);
        },
        Payload::DirectMessage(m) => {
            lemma_tells_direct_message(m, message);
        },
        _ => {},
    }
}

/// A join is told of the member that joined, a connection with its shard, and other events are not
/// told.
pub proof fn law_other_events_are_dispatched(
    target: &Client,
    shard_id: u64,
    member: discord::Member,
    a: Option<Payload>,
    b: Option<Payload>,
    c: Option<Payload>,
)
    requires
        call_ensures(handle_event, (target, shard_id, &Event::MemberAdd(member)), a),
        call_ensures(handle_event, (target, shard_id, &Event::ShardConnected), b),
        call_ensures(handle_event, (target, shard_id, &Event::Other), c),
    ensures
        a matches Some(Payload::ServerJoin(j)) && tells_member(j.0, member),
        b matches Some(Payload::Connected(p)) && p.shard == shard_id,
        c is None,
{
    let j = a->0->ServerJoin_0;
    lemma_tells_member(j.0, member);
}

/// With given words a message is a command exactly where there are some.
pub proof fn law_payload_by_words(
    shard_id: u64,
    message: Message,
    words: Option<Vec<String>>,
    r: Option<Payload>,
)
    requires
        call_ensures(payload_for, (shard_id, &Event::MessageCreate(message), words), r),
    ensures
        r is Some,
        r->0 is ServerCommand <==> message.guild_id is Some && words is Some,
        r->0 is ServerMessage <==> message.guild_id is Some && words is None,
        r->0 is DirectCommand <==> message.guild_id is None && words is Some,
        r->0 is DirectMessage <==> message.guild_id is None && words is None,
        r->0 matches Payload::ServerCommand(c) ==> tells_server_message(c.message, message)
            && texts(c.command@) == texts(words->0@),
        r->0 matches Payload::ServerMessage(m) ==> tells_server_message(m, message),
        r->0 matches Payload::DirectCommand(c) ==> tells_direct_message(c.message, message)
            && texts(c.command@) == texts(words->0@),
        r->0 matches Payload::DirectMessage(m) ==> tells_direct_message(m, message),
{
    assert(crate::plain::is_payload_for(
        r,
        shard_id,
        Event::MessageCreate(message),
        crate::command::opt_texts(words),
    ));
    match r->0 {
        Payload::ServerCommand(c) => {
            lemma_tells_server_message(c.message, message);
        },
        Payload::ServerMessage(m) => {
            lemma_tells_server_message(m, message);
        },
        Payload::DirectCommand(c) => {
            lemma_tells_direct_message(c.message, message);
        },
        Payload::DirectMessage(m) => {
            lemma_tells_direct_message(m, message);
        },
        _ => {},
    }
}

/// Only the response to a message in a server is looked at, and it is left as it is where it is a
/// success or not found.
pub proof fn law_responses_are_left(event: &Event, status: u16, r: bool)
    requires
        call_ensures(can_leave, (event, status), r),
    ensures
        !(event is MessageCreate) ==> r,
        event matches Event::MessageCreate(m) ==> r == (m.guild_id is None || status == 404 || 200
            <= status <= 299),
{
}

/// Whether a header group has a name and one value.
pub open spec fn group_is(
    groups: Seq<(&str, Vec<String>)>,
    i: int,
    name: Seq<char>,
    value: Seq<char>,
) -> bool {
    &&& 0 <= i < groups.len()
    &&& groups[i].0@ == name
    &&& groups[i].1@.len() == 1
    &&& groups[i].1@[0]@ == value
}

/// Whether a header group has a name and the roles as its values.
pub open spec fn group_has_roles(
    groups: Seq<(&str, Vec<String>)>,
    i: int,
    name: Seq<char>,
    roles: Seq<u64>,
) -> bool {
    &&& 0 <= i < groups.len()
    &&& groups[i].0@ == name
    &&& groups[i].1@.len() == roles.len()
    &&& forall|j: int|
        0 <= j < roles.len() ==> (#[trigger] groups[i].1@[j])@ == decimal(roles[j] as nat)
}

/// Whether a header group has a name and the names of the flags as its values.
pub open spec fn group_has_flags(
    groups: Seq<(&str, Vec<String>)>,
    i: int,
    name: Seq<char>,
    flags: Seq<crate::raccord::MessageFlag>,
) -> bool {
    &&& 0 <= i < groups.len()
    &&& groups[i].0@ == name
    &&& groups[i].1@.len() == flags.len()
    &&& forall|j: int|
        0 <= j < flags.len() ==> names_flag((#[trigger] groups[i].1@[j])@, flags[j])
}

/// What a group's view says of it.
proof fn lemma_group(groups: Seq<(&str, Vec<String>)>, i: int)
    requires
        0 <= i < groups.len(),
    ensures
        crate::plain::group_views(groups)[i].0 == groups[i].0@,
        crate::plain::group_views(groups)[i].1.len() == groups[i].1@.len(),
        forall|j: int|
            #![trigger groups[i].1@[j]]
            0 <= j < groups[i].1@.len() ==> crate::plain::group_views(groups)[i].1[j]
                == groups[i].1@[j]@,
{
    let v = crate::plain::group_views(groups)[i];
    assert(v == (groups[i].0@, texts(groups[i].1@)));
    assert(texts(groups[i].1@).len() == groups[i].1@.len());
    assert forall|j: int|
        #![trigger groups[i].1@[j]]
        0 <= j < groups[i].1@.len() implies v.1[j] == groups[i].1@[j]@ by {}
}

/// A group whose view has one value has that value.
proof fn lemma_group_is(
    groups: Seq<(&str, Vec<String>)>,
    i: int,
    name: Seq<char>,
    value: Seq<char>,
)
    requires
        0 <= i < groups.len(),
        crate::plain::group_views(groups)[i] == (name, seq![value]),
    ensures
        group_is(groups, i, name, value),
{
    lemma_group(groups, i);
    assert(groups[i].1@.len() == 1);
    assert(groups[i].1@[0]@ == value);
}

/// Whether roles are known and not empty.
pub open spec fn has_roles(roles: Option<Vec<u64>>) -> bool {
    roles is Some && roles->0@.len() > 0
}

/// A group whose view has roles has those roles.
proof fn lemma_group_has_roles(
    groups: Seq<(&str, Vec<String>)>,
    i: int,
    name: Seq<char>,
    roles: Seq<u64>,
)
    requires
        0 <= i < groups.len(),
        crate::plain::group_views(groups)[i] == (name, crate::raccord::decimals(roles)),
    ensures
        group_has_roles(groups, i, name, roles),
{
    lemma_group(groups, i);
    assert(crate::raccord::decimals(roles).len() == roles.len());
    assert forall|j: int| 0 <= j < roles.len() implies (#[trigger] groups[i].1@[j])@ == decimal(
        roles[j] as nat,
    ) by {}
}

/// A group whose view has flags has those flags.
proof fn lemma_group_has_flags(
    groups: Seq<(&str, Vec<String>)>,
    i: int,
    name: Seq<char>,
    flags: Seq<crate::raccord::MessageFlag>,
)
    requires
        0 <= i < groups.len(),
        crate::plain::group_views(groups)[i] == (name, crate::raccord::flag_names(flags)),
    ensures
        group_has_flags(groups, i, name, flags),
{
    lemma_group(groups, i);
    assert(crate::raccord::flag_names(flags).len() == flags.len());
    assert forall|j: int| 0 <= j < flags.len() implies names_flag(
        (#[trigger] groups[i].1@[j])@,
        flags[j],
    ) by {
        assert(groups[i].1@[j]@ == flag_name(flags[j]));
    }
}

/// The header groups of a message in a server, one by one.
#[verifier::rlimit(30)]
pub proof fn law_server_message_groups(msg: &ServerMessage, r: Vec<(&str, Vec<String>)>)
    requires
        call_ensures(<ServerMessage as Sendable>::headers, (msg,), r),
    ensures
        ({
            let at_roles = 7 + one_if(msg.author.pseudonym is Some);
            let at_flags = at_roles + one_if(has_roles(msg.author.roles));
            let at_attachments = at_flags + one_if(msg.flags@.len() > 0);
            let at_embeds = at_attachments + one_if(msg.attachments@.len() > 0);
            let at_reactions = at_embeds + one_if(msg.embeds@.len() > 0);
            &&& r@.len() == at_reactions + one_if(msg.reactions@.len() > 0)
            &&& group_is(r@, 0, "message-id"@, decimal(msg.id as nat))
            &&& group_is(r@, 1, "server-id"@, decimal(msg.server_id as nat))
            &&& group_is(r@, 2, "channel-id"@, decimal(msg.channel_id as nat))
            &&& group_is(r@, 3, "author-type"@, author_word(msg.author.user.bot))
            &&& group_is(r@, 4, "author-id"@, decimal(msg.author.user.id as nat))
            &&& group_is(r@, 5, "author-name"@, msg.author.user.name@)
            &&& group_is(
                r@,
                6,
                "content-length"@,
                decimal(vstd::utf8::encode_utf8(msg.content@).len()),
            )
            &&& msg.author.pseudonym is Some ==> group_is(
                r@,
                7,
                "author-pseudonym"@,
                msg.author.pseudonym->0@,
            )
            &&& has_roles(msg.author.roles) ==> group_has_roles(
                r@,
                at_roles,
                "author-role-ids"@,
                msg.author.roles->0@,
            )
            &&& msg.flags@.len() > 0 ==> group_has_flags(
                r@,
                at_flags,
                "message-flags"@,
                msg.flags@,
            )
            &&& msg.attachments@.len() > 0 ==> group_is(
                r@,
                at_attachments,
                "has-attachments"@,
                decimal(msg.attachments@.len()),
            )
            &&& msg.embeds@.len() > 0 ==> group_is(
                r@,
                at_embeds,
                "has-embeds"@,
                decimal(msg.embeds@.len()),
            )
            &&& msg.reactions@.len() > 0 ==> group_is(
                r@,
                at_reactions,
                "has-reactions"@,
                decimal(msg.reactions@.len()),
            )
        }),
{
    let v = crate::plain::group_views(r@);
    assert(v == crate::plain::server_message_groups(msg@));
    assert(v.len() == r@.len());
    let at_roles = 7 + one_if(msg.author.pseudonym is Some);
    let at_flags = at_roles + one_if(has_roles(msg.author.roles));
    let at_attachments = at_flags + one_if(msg.flags@.len() > 0);
    let at_embeds = at_attachments + one_if(msg.attachments@.len() > 0);
    let at_reactions = at_embeds + one_if(msg.embeds@.len() > 0);
    assert(msg.author.roles is Some ==> crate::raccord::decimals(msg.author.roles->0@).len()
        == msg.author.roles->0@.len());
    assert(crate::raccord::flag_names(msg.flags@).len() == msg.flags@.len());
    assert(v.len() == at_reactions + one_if(msg.reactions@.len() > 0));
    lemma_group_is(r@, 0, "message-id"@, decimal(msg.id as nat));
    lemma_group_is(r@, 1, "server-id"@, decimal(msg.server_id as nat));
    lemma_group_is(r@, 2, "channel-id"@, decimal(msg.channel_id as nat));
    lemma_group_is(r@, 3, "author-type"@, author_word(msg.author.user.bot));
    lemma_group_is(r@, 4, "author-id"@, decimal(msg.author.user.id as nat));
    lemma_group_is(r@, 5, "author-name"@, msg.author.user.name@);
    lemma_group_is(
        r@,
        6,
        "content-length"@,
        decimal(vstd::utf8::encode_utf8(msg.content@).len()),
    );
    if msg.author.pseudonym is Some {
        lemma_group_is(r@, 7, "author-pseudonym"@, msg.author.pseudonym->0@);
    }
    if has_roles(msg.author.roles) {
        lemma_group_has_roles(r@, at_roles, "author-role-ids"@, msg.author.roles->0@);
    }
    if msg.flags@.len() > 0 {
        lemma_group_has_flags(r@, at_flags, "message-flags"@, msg.flags@);
    }
    if msg.attachments@.len() > 0 {
        lemma_group_is(r@, at_attachments, "has-attachments"@, decimal(msg.attachments@.len()));
    }
    if msg.embeds@.len() > 0 {
        lemma_group_is(r@, at_embeds, "has-embeds"@, decimal(msg.embeds@.len()));
    }
    if msg.reactions@.len() > 0 {
        lemma_group_is(r@, at_reactions, "has-reactions"@, decimal(msg.reactions@.len()));
    }
}

/// The header groups of a direct message, one by one.
#[verifier::rlimit(30)]
pub proof fn law_direct_message_groups(msg: &DirectMessage, r: Vec<(&str, Vec<String>)>)
    requires
        call_ensures(<DirectMessage as Sendable>::headers, (msg,), r),
    ensures
        ({
            let at_attachments = 7 + one_if(msg.flags@.len() > 0);
            let at_embeds = at_attachments + one_if(msg.attachments@.len() > 0);
            let at_reactions = at_embeds + one_if(msg.embeds@.len() > 0);
            &&& r@.len() == at_reactions + one_if(msg.reactions@.len() > 0)
            &&& group_is(r@, 0, "message-id"@, decimal(msg.id as nat))
            &&& group_is(r@, 1, "direct-message"@, "true"@)
            &&& group_is(r@, 2, "channel-id"@, decimal(msg.channel_id as nat))
            &&& group_is(r@, 3, "author-type"@, author_word(msg.author.bot))
            &&& group_is(r@, 4, "author-id"@, decimal(msg.author.id as nat))
            &&& group_is(r@, 5, "author-name"@, msg.author.name@)
            &&& group_is(
                r@,
                6,
                "content-length"@,
                decimal(vstd::utf8::encode_utf8(msg.content@).len()),
            )
            &&& msg.flags@.len() > 0 ==> group_has_flags(r@, 7, "message-flags"@, msg.flags@)
            &&& msg.attachments@.len() > 0 ==> group_is(
                r@,
                at_attachments,
                "has-attachments"@,
                decimal(msg.attachments@.len()),
            )
            &&& msg.embeds@.len() > 0 ==> group_is(
                r@,
                at_embeds,
                "has-embeds"@,
                decimal(msg.embeds@.len()),
            )
            &&& msg.reactions@.len() > 0 ==> group_is(
                r@,
                at_reactions,
                "has-reactions"@,
                decimal(msg.reactions@.len()),
            )
        }),
{
    let v = crate::plain::group_views(r@);
    assert(v == crate::plain::direct_message_groups(msg@));
    assert(v.len() == r@.len());
    let at_attachments = 7 + one_if(msg.flags@.len() > 0);
    let at_embeds = at_attachments + one_if(msg.attachments@.len() > 0);
    let at_reactions = at_embeds + one_if(msg.embeds@.len() > 0);
    assert(crate::raccord::flag_names(msg.flags@).len() == msg.flags@.len());
    assert(v.len() == at_reactions + one_if(msg.reactions@.len() > 0));
    lemma_group_is(r@, 0, "message-id"@, decimal(msg.id as nat));
    lemma_group_is(r@, 1, "direct-message"@, "true"@);
    lemma_group_is(r@, 2, "channel-id"@, decimal(msg.channel_id as nat));
    lemma_group_is(r@, 3, "author-type"@, author_word(msg.author.bot));
    lemma_group_is(r@, 4, "author-id"@, decimal(msg.author.id as nat));
    lemma_group_is(r@, 5, "author-name"@, msg.author.name@);
    lemma_group_is(
        r@,
        6,
        "content-length"@,
        decimal(vstd::utf8::encode_utf8(msg.content@).len()),
    );
    if msg.flags@.len() > 0 {
        lemma_group_has_flags(r@, 7, "message-flags"@, msg.flags@);
    }
    if msg.attachments@.len() > 0 {
        lemma_group_is(r@, at_attachments, "has-attachments"@, decimal(msg.attachments@.len()));
    }
    if msg.embeds@.len() > 0 {
        lemma_group_is(r@, at_embeds, "has-embeds"@, decimal(msg.embeds@.len()));
    }
    if msg.reactions@.len() > 0 {
        lemma_group_is(r@, at_reactions, "has-reactions"@, decimal(msg.reactions@.len()));
    }
}

/// The header groups of a join, one by one.
pub proof fn law_join_groups(join: &ServerJoin, r: Vec<(&str, Vec<String>)>)
    requires
        call_ensures(<ServerJoin as Sendable>::headers, (join,), r),
    ensures
        ({
            let at_roles = 3 + one_if(join.0.pseudonym is Some);
            &&& r@.len() == at_roles + one_if(has_roles(join.0.roles))
            &&& group_is(r@, 0, "server-id"@, decimal(join.0.server_id as nat))
            &&& group_is(r@, 1, "member-id"@, decimal(join.0.user.id as nat))
            &&& group_is(r@, 2, "member-name"@, join.0.user.name@)
            &&& join.0.pseudonym is Some ==> group_is(
                r@,
                3,
                "member-pseudonym"@,
                join.0.pseudonym->0@,
            )
            &&& has_roles(join.0.roles) ==> group_has_roles(
                r@,
                at_roles,
                "member-role-ids"@,
                join.0.roles->0@,
            )
        }),
{
    let v = crate::plain::group_views(r@);
    assert(v == crate::plain::join_groups(join.0@));
    assert(v.len() == r@.len());
    let at_roles = 3 + one_if(join.0.pseudonym is Some);
    assert(join.0.roles is Some ==> crate::raccord::decimals(join.0.roles->0@).len()
        == join.0.roles->0@.len());
    assert(v.len() == at_roles + one_if(has_roles(join.0.roles)));
    lemma_group_is(r@, 0, "server-id"@, decimal(join.0.server_id as nat));
    lemma_group_is(r@, 1, "member-id"@, decimal(join.0.user.id as nat));
    lemma_group_is(r@, 2, "member-name"@, join.0.user.name@);
    if join.0.pseudonym is Some {
        lemma_group_is(r@, 3, "member-pseudonym"@, join.0.pseudonym->0@);
    }
    if has_roles(join.0.roles) {
        lemma_group_has_roles(r@, at_roles, "member-role-ids"@, join.0.roles->0@);
    }
}

/// A connection has no header groups, and a command has those of its message.
pub proof fn law_other_groups<S: Sendable>(
    connected: &Connected,
    command: &Command<S>,
    a: Vec<(&str, Vec<String>)>,
    b: Vec<(&str, Vec<String>)>,
)
    requires
        call_ensures(<Connected as Sendable>::headers, (connected,), a),
        call_ensures(<Command<S> as Sendable>::headers, (command,), b),
    ensures
        a@.len() == 0,
        crate::plain::group_views(b@) == command.message.header_groups(),
{
    assert(crate::plain::group_views(a@).len() == a@.len());
}

/// Everything is told at its own path.
pub proof fn law_paths<S: Sendable>(
    msg: &ServerMessage,
    direct: &DirectMessage,
    join: &ServerJoin,
    connected: &Connected,
    command: &Command<S>,
    a: String,
    b: String,
    c: String,
    d: String,
    e: String,
)
    requires
        call_ensures(<ServerMessage as Sendable>::url, (msg,), a),
        call_ensures(<DirectMessage as Sendable>::url, (direct,), b),
        call_ensures(<ServerJoin as Sendable>::url, (join,), c),
        call_ensures(<Connected as Sendable>::url, (connected,), d),
        call_ensures(<Command<S> as Sendable>::url, (command,), e),
    ensures
        a@ == "/server/"@ + decimal(msg.server_id as nat) + "/channel/"@ + decimal(
            msg.channel_id as nat,
        ) + "/message"@,
        b@ == "/direct/"@ + decimal(direct.channel_id as nat) + "/message"@,
        c@ == "/server/"@ + decimal(join.0.server_id as nat) + "/join/"@ + decimal(
            join.0.user.id as nat,
        ),
        d@ == "/hello/discord"@,
        e@ == "/command/"@ + slashed(texts(command.command@)),
{
}

/// Messages are told in their contents, and nothing else is told in a text.
pub proof fn law_bodies<S: Sendable>(
    msg: &ServerMessage,
    direct: &DirectMessage,
    join: &ServerJoin,
    connected: &Connected,
    command: &Command<S>,
    a: Option<Vec<u8>>,
    b: Option<Vec<u8>>,
    c: Option<Vec<u8>>,
    d: Option<Vec<u8>>,
    e: Option<Vec<u8>>,
)
    requires
        call_ensures(<ServerMessage as Sendable>::body, (msg,), a),
        call_ensures(<DirectMessage as Sendable>::body, (direct,), b),
        call_ensures(<ServerJoin as Sendable>::body, (join,), c),
        call_ensures(<Connected as Sendable>::body, (connected,), d),
        call_ensures(<Command<S> as Sendable>::body, (command,), e),
    ensures
        a is Some && a->0@ == vstd::utf8::encode_utf8(msg.content@),
        b is Some && b->0@ == vstd::utf8::encode_utf8(direct.content@),
        c is None,
        d is None,
        e is None,
{
}

/// What is sent for an event goes to the path, has the header groups and is told in the text of
/// what it is.
pub proof fn law_payload_is_what_it_holds(
    payload: &Payload,
    path: String,
    groups: Vec<(&str, Vec<String>)>,
    text: Option<Vec<u8>>,
)
    requires
        call_ensures(<Payload as Sendable>::url, (payload,), path),
        call_ensures(<Payload as Sendable>::headers, (payload,), groups),
        call_ensures(<Payload as Sendable>::body, (payload,), text),
    ensures
        ({
            let v = crate::plain::group_views(groups@);
            &&& payload matches Payload::ServerCommand(p) ==> path@ == p.path() && v
                == p.header_groups() && text is None
            &&& payload matches Payload::ServerMessage(p) ==> path@ == p.path() && v
                == p.header_groups() && text is Some && text->0@ == vstd::utf8::encode_utf8(
                p.content@,
            )
            &&& payload matches Payload::DirectCommand(p) ==> path@ == p.path() && v
                == p.header_groups() && text is None
            &&& payload matches Payload::DirectMessage(p) ==> path@ == p.path() && v
                == p.header_groups() && text is Some && text->0@ == vstd::utf8::encode_utf8(
                p.content@,
            )
            &&& payload matches Payload::ServerJoin(p) ==> path@ == p.path() && v
                == p.header_groups() && text is None
            &&& payload matches Payload::Connected(p) ==> path@ == p.path() && v
                == p.header_groups() && text is None
        }),
{
}

/// Groups in two parts are spread one part after the other, and one group into one field for each
/// of its values, under its name.
pub proof fn law_spread(
    a: Seq<(Seq<char>, Seq<Seq<char>>)>,
    b: Seq<(Seq<char>, Seq<Seq<char>>)>,
    name: Seq<char>,
    values: Seq<Seq<char>>,
)
    ensures
        spread(seq![]).len() == 0,
        spread(a + b) == spread(a) + spread(b),
        spread(seq![(name, values)]).len() == values.len(),
        forall|i: int|
            0 <= i < values.len() ==> (#[trigger] spread(seq![(name, values)])[i]) == (
                name,
                values[i],
            ),
{
    crate::plain::lemma_spread_of_parts(a, b);
    let one = seq![(name, values)];
    assert(one.drop_last() == Seq::<(Seq<char>, Seq<Seq<char>>)>::empty());
    assert(spread(one) == spread(one.drop_last()) + crate::raccord::repeated(name, values));
    assert(spread(one) == crate::raccord::repeated(name, values));
}

/// Header groups are added to a request behind its own fields, one field for each value.
pub proof fn law_headers_are_added(
    req: RequestBuilder,
    groups: Vec<(&str, Vec<String>)>,
    r: RequestBuilder,
)
    requires
        call_ensures(Client::add_headers, (req, groups), r),
    ensures
        goes_on(r, req),
        ({
            let added = spread(crate::plain::group_views(groups@));
            &&& r.headers@.len() == req.headers@.len() + added.len()
            &&& forall|k: int|
                #![trigger added[k]]
                0 <= k < added.len() ==> field_is(
                    r,
                    req.headers@.len() + k,
                    added[k].0,
                    added[k].1,
                )
        }),
{
    crate::tellings::lemma_added(req, r, spread(crate::plain::group_views(groups@)));
}

/// A payload is posted to its own path under the base, with its own header fields and then the type
/// of the content: its own text where it has one, and the given JSON where it has none.
pub proof fn law_post_carries_the_payload<S: Sendable>(
    client: &Client,
    payload: S,
    json: Vec<u8>,
    r: Result<Request, RequestError>,
    path: String,
    text: Option<Vec<u8>>,
)
    requires
        call_ensures(Client::try_post::<S>, (client, payload, json), r),
        call_ensures(<S as Sendable>::url, (&payload,), path),
        call_ensures(<S as Sendable>::body, (&payload,), text),
    ensures
        r matches Ok(request) ==> {
            let added = spread(payload.header_groups());
            &&& request.head.method is Post
            &&& request.head.uri@ == client.base() + path@
            &&& request.head.headers@.len() == added.len() + 1
            &&& forall|k: int|
                #![trigger added[k]]
                0 <= k < added.len() ==> field_is(request.head, k, added[k].0, added[k].1)
            &&& text is None ==> field_is(
                request.head,
                added.len() as int,
                "content-type"@,
                "application/json"@,
            ) && request.body@ == json@
            &&& text matches Some(t) ==> field_is(
                request.head,
                added.len() as int,
                "content-type"@,
                "text/plain; charset=utf-8"@,
            ) && request.body@ == t@
        },
{
    let added = spread(payload.header_groups());
    if let Ok(request) = r {
        let h = request.head@.headers;
        let kind = crate::raccord::content_type(payload.contents());
        assert(h == added + seq![("content-type"@, kind)]);
        assert(h.len() == request.head.headers@.len());
        assert forall|k: int| 0 <= k < h.len() implies field_is(
            request.head,
            k,
            h[k].0,
            h[k].1,
        ) by {
            assert(h[k] == (request.head.headers@[k].0@, request.head.headers@[k].1@));
        }
        assert(h[added.len() as int] == ("content-type"@, kind));
        assert forall|k: int| #![trigger added[k]] 0 <= k < added.len() implies field_is(
            request.head,
            k,
            added[k].0,
            added[k].1,
        ) by {
            assert(h[k] == added[k]);
        }
    }
}

/// The same is posted where it is known that it can be.
pub proof fn law_posts_are_alike<S: Sendable>(
    client: &Client,
    payload: S,
    json: Vec<u8>,
    r: Request,
    s: Result<Request, RequestError>,
)
    requires
        call_ensures(Client::post::<S>, (client, payload, json), r),
        call_ensures(Client::try_post::<S>, (client, payload, json), s),
        s is Ok,
    ensures
        r.head@ == s->Ok_0.head@,
        r.body@ == s->Ok_0.body@,
{
}

/// A payload with few header fields is posted exactly where its URI and all its fields are good;
/// else the first fault is told.
pub proof fn law_post_fails_on_faults<S: Sendable>(
    client: &Client,
    payload: S,
    json: Vec<u8>,
    r: Result<Request, RequestError>,
    path: String,
    like: RequestBuilder,
    k: int,
)
    requires
        call_ensures(Client::try_post::<S>, (client, payload, json), r),
        call_ensures(<S as Sendable>::url, (&payload,), path),
        like@.headers == spread(payload.header_groups()),
        like.headers@.len() < 6553,
        0 <= k <= like.headers@.len(),
        forall|i: int| 0 <= i < k ==> #[trigger] is_good(like, i),
    ensures
        is_fault_of(
            match r {
                Ok(_) => None,
                Err(e) => Some(e),
            },
            client.base() + path@,
            like,
            k,
        ),
{
    reveal_strlit("content-type");
    reveal_strlit("application/json");
    reveal_strlit("text/plain; charset=utf-8");
    let added = spread(payload.header_groups());
    let kind = crate::raccord::content_type(payload.contents());
    let head = crate::plain::post_head(*client, payload);
    let headers = head.headers;
    assert(headers == added + seq![("content-type"@, kind)]);
    assert(like@.headers.len() == like.headers@.len());
    lemma_names_of_fields(headers);
    assert forall|i: int| 0 <= i < added.len() implies (#[trigger] headers[i]) == (
        like.headers@[i].0@,
        like.headers@[i].1@,
    ) by {
        assert(like@.headers[i] == (like.headers@[i].0@, like.headers@[i].1@));
        assert(headers[i] == added[i]);
    }
    assert(headers[added.len() as int] == ("content-type"@, kind));
    assert forall|i: int| 0 <= i < k implies valid_name((#[trigger] headers[i]).0) && valid_value(
        headers[i].1,
    ) by {
        assert(is_good(like, i));
    }
    let end = if k == added.len() {
        k + 1
    } else {
        k
    };
    crate::requests::lemma_next_field_decides(headers, headers.len() as int, end);
    crate::wire::lemma_room_enough(headers, headers.len() as int);
}

/// A text is a command where it matches the first pattern, with the words that the second captures.
pub proof fn law_parsed_command(target: &Client, content: &str, r: Option<Vec<String>>)
    requires
        call_ensures(Client::parse_command, (target, content), r),
    ensures
        r is Some <==> is_command(target.patterns(), content@),
        r is Some ==> are_words(r->0@, target.patterns(), content@),
{
    if r is Some {
        crate::promises::lemma_same_texts(
            r->0@,
            crate::command::command_under(target.patterns(), content@)->0,
        );
    }
}

/// A client has the base and the patterns that it was made with; the second pattern is of no use
/// without the first.
pub proof fn law_client_keeps_its_settings(
    base: String,
    command_match: Option<String>,
    command_parse: Option<String>,
    r: Client,
)
    requires
        call_ensures(Client::new, (base, command_match, command_parse), r),
    ensures
        r.base() == base@,
        uses(r.patterns(), command_match, command_parse),
{
}

/// A client is made exactly where both patterns can be compiled, as far as they are given; of two
/// bad ones the first is told.
pub proof fn law_client_needs_good_patterns(
    base: String,
    command_match: Option<String>,
    command_parse: Option<String>,
    r: Result<Client, BadPattern>,
)
    requires
        call_ensures(Client::try_new, (base, command_match, command_parse), r),
    ensures
        r is Ok <==> !is_bad(command_match) && !is_bad(command_parse),
        is_bad(command_match) ==> r->Err_0 is CommandMatch,
        !is_bad(command_match) && is_bad(command_parse) ==> r->Err_0 is CommandParse,
        r matches Ok(c) ==> c.base() == base@ && uses(c.patterns(), command_match, command_parse),
{
}

/// Messages with the same contents are commands with the same words, or none of them is one,
/// whatever else they hold.
pub proof fn law_same_contents_same_words(
    target: &Client,
    shard_a: u64,
    shard_b: u64,
    a: Message,
    b: Message,
    r: Option<Payload>,
    s: Option<Payload>,
)
    requires
        a.content@ == b.content@,
        call_ensures(handle_event, (target, shard_a, &Event::MessageCreate(a)), r),
        call_ensures(handle_event, (target, shard_b, &Event::MessageCreate(b)), s),
    ensures
        r is Some && s is Some,
        match (payload_words(r->0), payload_words(s->0)) {
            (Some(x), Some(y)) => x.len() == y.len() && forall|i: int|
                0 <= i < x.len() ==> (#[trigger] x[i])@ == y[i]@,
            (None, None) => true,
            _ => false,
        },
{
    law_message_is_dispatched(target, shard_a, a, r);
    law_message_is_dispatched(target, shard_b, b, s);
}

/// The words that a payload is a command with, if it is one.
pub open spec fn payload_words(payload: Payload) -> Option<Seq<String>> {
    match payload {
        Payload::ServerCommand(c) => Some(c.command@),
        Payload::DirectCommand(c) => Some(c.command@),
        _ => None,
    }
}

/// An event that is no message is told in the same way whatever words are given.
pub proof fn law_other_payloads(
    shard_id: u64,
    event: &Event,
    words: Option<Vec<String>>,
    r: Option<Payload>,
)
    requires
        call_ensures(payload_for, (shard_id, event, words), r),
    ensures
        *event matches Event::MemberAdd(member) ==> (r matches Some(Payload::ServerJoin(j))
            && tells_member(j.0, member)),
        event is ShardConnected ==> (r matches Some(Payload::Connected(p)) && p.shard == shard_id),
        event is Other ==> r is None,
{
    if let Event::MemberAdd(member) = event {
        let j = r->0->ServerJoin_0;
        lemma_tells_member(j.0, *member);
    }
}

} // verus!
