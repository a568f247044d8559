//! What holds of the bridge as a whole.

use vstd::prelude::*;

use crate::act::{call_of, id_or, stage_call, Act, ActError, Call, Stage};
use crate::command::{command_under, patterns_in_use};
use crate::discord;
use crate::discord::{Event, Message};
use crate::forward::{
    is_dispatch_for, reply_of, text_stage, Defaults, Dispatch, FieldsView, ReplyView,
};
use crate::raccord::{
    at_most_one, body_of, byte_length, command_path, content_type, counted, decimals,
    direct_ghost, direct_message_ids, direct_message_metadata, direct_message_of,
    direct_message_path, discord_kind, discord_user, flag_bit, flag_bits, flag_if_held, flag_name,
    flag_names, flags_listed, flags_packed, join_metadata, kind_of, opt_escaped, opt_flags_listed,
    payload_head, repeated, role_values, server_ghost, server_message_ids, server_message_metadata,
    server_message_of, server_message_path, user_of, Command, DirectMessage, DirectMessageView,
    MemberView, MessageFlag, MessageType, Sendable, ServerMessage, ServerMessageView, UserView,
};
use crate::text::{
    decimal, escaped, escaped_char, hex_char, hexadecimal, is_digit, law_number_round_trip,
    lemma_decimal_reads_back,
};
use crate::wire::{
    field_number, first_value, header_fault, is_value_char, is_visible, law_few_names_have_room,
    lemma_names_of_fields, lemma_names_of_one, lemma_names_of_parts, may_fault, valid_name,
    valid_value, visible_text, Method, RequestError,
};

verus! {

/// A flag is listed where its bit is held, and nowhere else.
pub(crate) proof fn lemma_listed_flag(held: Set<int>, flag: MessageFlag)
    ensures
        flags_listed(held).contains(flag) <==> held.contains(flag_bit(flag)),
{
    let a = flag_if_held(MessageFlag::Crossposted, held);
    let b = flag_if_held(MessageFlag::IsCrosspost, held);
    let c = flag_if_held(MessageFlag::SuppressEmbeds, held);
    let d = flag_if_held(MessageFlag::SourceMessageDeleted, held);
    let e = flag_if_held(MessageFlag::Urgent, held);
    let all = flags_listed(held);
    assert(all == a + b + c + d + e);
    if held.contains(flag_bit(flag)) {
        let at = match flag {
            MessageFlag::Crossposted => 0,
            MessageFlag::IsCrosspost => a.len() as int,
            MessageFlag::SuppressEmbeds => (a + b).len() as int,
            MessageFlag::SourceMessageDeleted => (a + b + c).len() as int,
            MessageFlag::Urgent => (a + b + c + d).len() as int,
        };
        assert(all[at] == flag);
    }
    if all.contains(flag) {
        let i = choose|i: int| 0 <= i < all.len() && all[i] == flag;
        assert(all[i] == flag);
    }
}

/// The bits of the flags that are listed for a set of bits are those of the set that are flags.
pub proof fn law_listed_bits(held: Set<int>)
    ensures
        flag_bits(flags_listed(held)) == held.intersect(Set::new(|bit: int| 0 <= bit <= 4)),
{
    let listed = flags_listed(held);
    let bits = flag_bits(listed);
    let known = held.intersect(Set::new(|bit: int| 0 <= bit <= 4));
    assert forall|bit: int| bits.contains(bit) == known.contains(bit) by {
        if bits.contains(bit) {
            let i = choose|i: int| 0 <= i < listed.len() && flag_bit(#[trigger] listed[i]) == bit;
            lemma_listed_flag(held, listed[i]);
        }
        if known.contains(bit) {
            let flag = if bit == 0 {
                MessageFlag::Crossposted
            } else if bit == 1 {
                MessageFlag::IsCrosspost
            } else if bit == 2 {
                MessageFlag::SuppressEmbeds
            } else if bit == 3 {
                MessageFlag::SourceMessageDeleted
            } else {
                MessageFlag::Urgent
            };
            lemma_listed_flag(held, flag);
            let i = choose|i: int| 0 <= i < listed.len() && listed[i] == flag;
            assert(flag_bit(listed[i]) == bit);
        }
    }
}

/// Two sets with the same flags are listed alike.
proof fn lemma_listed_alike(a: Set<int>, b: Set<int>)
    requires
        forall|bit: int| 0 <= bit <= 4 ==> a.contains(bit) == b.contains(bit),
    ensures
        flags_listed(a) == flags_listed(b),
{
}

/// Flags that were listed from Discord's are the same after they were packed for Discord and listed
/// again.
pub proof fn law_listed_flags_round_trip(held: Set<int>)
    ensures
        opt_flags_listed(flags_packed(flags_listed(held))) == flags_listed(held),
{
    law_listed_bits(held);
    lemma_listed_alike(held, flag_bits(flags_listed(held)));
}

/// Packing flags for Discord and listing them again loses none and adds none, whatever their order,
/// and leaves each of them once, in the order of their bits.
pub proof fn law_packed_flags_round_trip(flags: Seq<MessageFlag>)
    ensures
        forall|flag: MessageFlag|
            #![trigger flags.contains(flag)]
            opt_flags_listed(flags_packed(flags)).contains(flag) == flags.contains(flag),
        forall|i: int, j: int|
            0 <= i < j < opt_flags_listed(flags_packed(flags)).len() ==> flag_bit(
                #[trigger] opt_flags_listed(flags_packed(flags))[i],
            ) < flag_bit(#[trigger] opt_flags_listed(flags_packed(flags))[j]),
{
    let bits = flag_bits(flags);
    let back = opt_flags_listed(flags_packed(flags));
    assert forall|flag: MessageFlag|
        #![trigger flags.contains(flag)]
        back.contains(flag) == flags.contains(flag) by {
        lemma_listed_flag(bits, flag);
        if flags.contains(flag) {
            let i = choose|i: int| 0 <= i < flags.len() && flags[i] == flag;
            assert(flag_bit(flags[i]) == flag_bit(flag));
            assert(bits.contains(flag_bit(flag)));
        }
        if bits.contains(flag_bit(flag)) {
            let i = choose|i: int|
                0 <= i < flags.len() && flag_bit(#[trigger] flags[i]) == flag_bit(flag);
            assert(flags[i] == flag);
        }
    }
}

/// A kind of message keeps its name on the way to the target and back.
pub proof fn law_kind_round_trip(dis: discord::MessageType)
    ensures
        discord_kind(kind_of(dis)) == dis,
{
}

/// A kind of message keeps its name on the way to Discord and back.
pub proof fn law_discord_kind_round_trip(rac: MessageType)
    ensures
        kind_of(discord_kind(rac)) == rac,
{
}

/// A user of the target is the same on the way to Discord and back.
pub proof fn law_user_round_trip(user: UserView)
    ensures
        user_of(discord_user(user)) == user,
{
}

/// What the target is told of the ghost of a message in a server: the message itself, in the
/// message's own server, with known roles and with its flags in order.
pub proof fn law_server_ghost(msg: ServerMessageView)
    ensures
        server_message_of(server_ghost(msg)) == (ServerMessageView {
            author: MemberView {
                server_id: msg.server_id,
                roles: Some(
                    match msg.author.roles {
                        Some(roles) => roles,
                        None => seq![],
                    },
                ),
                ..msg.author
            },
            flags: opt_flags_listed(flags_packed(msg.flags)),
            ..msg
        }),
{
    law_discord_kind_round_trip(msg.kind);
    law_user_round_trip(msg.author.user);
}

/// The ghost of a message in a server goes where the message goes, with the same header fields as
/// long as the message's flags are in order.
pub proof fn law_server_ghost_is_told_alike(msg: ServerMessageView)
    ensures
        server_message_path(server_message_of(server_ghost(msg))) == server_message_path(msg),
        msg.flags == opt_flags_listed(flags_packed(msg.flags)) ==> server_message_metadata(
            server_message_of(server_ghost(msg)),
        ) == server_message_metadata(msg),
{
    law_server_ghost(msg);
    let told = server_message_of(server_ghost(msg));
    assert(decimals(seq![]) == Seq::<Seq<char>>::empty());
    assert(role_values(told.author.roles) == role_values(msg.author.roles));
}

/// A ghost of what the target was told of a Discord message in a server is told like that message,
/// by the same path and the same header fields. Where Discord gave the author's membership the
/// payload is the same as well.
pub proof fn law_server_ghost_of_a_message(dis: discord::MessageView)
    requires
        dis.guild_id is Some,
    ensures
        server_message_path(server_message_of(server_ghost(server_message_of(dis))))
            == server_message_path(server_message_of(dis)),
        server_message_metadata(server_message_of(server_ghost(server_message_of(dis))))
            == server_message_metadata(server_message_of(dis)),
        dis.member is Some ==> server_message_of(server_ghost(server_message_of(dis)))
            == server_message_of(dis),
{
    let msg = server_message_of(dis);
    law_server_ghost(msg);
    law_server_ghost_is_told_alike(msg);
    match dis.flags {
        Some(held) => {
            law_listed_flags_round_trip(held);
        },
        None => {},
    }
}

/// What the target is told of the ghost of a direct message: the message itself, with its flags in
/// order.
pub proof fn law_direct_ghost(msg: DirectMessageView)
    ensures
        direct_message_of(direct_ghost(msg)) == (DirectMessageView {
            flags: opt_flags_listed(flags_packed(msg.flags)),
            ..msg
        }),
        direct_message_path(direct_message_of(direct_ghost(msg))) == direct_message_path(msg),
{
    law_discord_kind_round_trip(msg.kind);
    law_user_round_trip(msg.author);
}

/// A ghost of what the target was told of a direct message is told just like that message.
pub proof fn law_direct_ghost_of_a_message(dis: discord::MessageView)
    ensures
        direct_message_of(direct_ghost(direct_message_of(dis))) == direct_message_of(dis),
        direct_message_metadata(direct_message_of(direct_ghost(direct_message_of(dis))))
            == direct_message_metadata(direct_message_of(dis)),
{
    law_direct_ghost(direct_message_of(dis));
    match dis.flags {
        Some(held) => {
            law_listed_flags_round_trip(held);
        },
        None => {},
    }
}

/// The ghost of a message in a server is forwarded as that message would be: to the message's own
/// path or, where it is a command, to the command's, and on behalf of the same server and channel.
pub proof fn law_server_ghost_is_forwarded(
    shard_id: u64,
    summoned: Message,
    msg: ServerMessageView,
    words: Option<Seq<Seq<char>>>,
    dispatch: Dispatch,
)
    requires
        summoned@ == server_ghost(msg),
        is_dispatch_for(Some(dispatch), shard_id, Event::MessageCreate(summoned), words),
    ensures
        dispatch.from_server == Some(msg.server_id),
        dispatch.from_channel == Some(msg.channel_id),
        dispatch.payload.path() == (match words {
            Some(w) => command_path(w),
            None => server_message_path(msg),
        }),
        words is None ==> dispatch.payload.contents() == Some(msg.content),
        dispatch.payload.metadata() == server_message_metadata(
            server_message_of(server_ghost(msg)),
        ),
{
    law_server_ghost_is_told_alike(msg);
    assert(summoned.guild_id == summoned@.guild_id);
    assert(summoned.channel_id == summoned@.channel_id);
}

/// The ghost of a direct message is forwarded as that message would be: to the message's own path
/// or, where it is a command, to the command's, and on behalf of the same channel.
pub proof fn law_direct_ghost_is_forwarded(
    shard_id: u64,
    summoned: Message,
    msg: DirectMessageView,
    words: Option<Seq<Seq<char>>>,
    dispatch: Dispatch,
)
    requires
        summoned@ == direct_ghost(msg),
        is_dispatch_for(Some(dispatch), shard_id, Event::MessageCreate(summoned), words),
    ensures
        dispatch.from_server is None,
        dispatch.from_channel == Some(msg.channel_id),
        dispatch.payload.path() == (match words {
            Some(w) => command_path(w),
            None => direct_message_path(msg),
        }),
        words is None ==> dispatch.payload.contents() == Some(msg.content),
        dispatch.payload.metadata() == direct_message_metadata(
            direct_message_of(direct_ghost(msg)),
        ),
{
    law_direct_ghost(msg);
    assert(summoned.guild_id == summoned@.guild_id);
    assert(summoned.channel_id == summoned@.channel_id);
}

/// A message in a server is told in its own contents, whose length in bytes is the one that the
/// header fields give.
pub proof fn law_server_message_is_told_in_its_contents(msg: ServerMessage, json: Seq<u8>)
    ensures
        body_of(msg.contents(), json) == vstd::utf8::encode_utf8(msg.content@),
        msg.metadata().contains(
            ("accord-content-length"@, decimal(body_of(msg.contents(), json).len())),
        ),
{
    let field = ("accord-content-length"@, decimal(byte_length(msg.content@)));
    assert(msg.metadata()[7] == field);
}

/// A direct message is told in its own contents, whose length in bytes is the one that the header
/// fields give.
pub proof fn law_direct_message_is_told_in_its_contents(msg: DirectMessage, json: Seq<u8>)
    ensures
        body_of(msg.contents(), json) == vstd::utf8::encode_utf8(msg.content@),
        msg.metadata().contains(
            ("accord-content-length"@, decimal(body_of(msg.contents(), json).len())),
        ),
{
    let field = ("accord-content-length"@, decimal(byte_length(msg.content@)));
    assert(msg.metadata()[6] == field);
}

/// A command carries the header fields of its message.
pub proof fn law_command_keeps_metadata<S: Sendable>(command: Command<S>)
    ensures
        command.metadata() == command.message.metadata(),
{
}

/// Without a pattern that tells commands no message is one, whatever the other pattern.
pub proof fn law_no_pattern_no_command(parse: Option<Seq<char>>, content: Seq<char>)
    ensures
        command_under(patterns_in_use(None, parse), content) is None,
{
}

/// The first fault of header fields in two parts is that of the first part, or else that of the
/// second.
proof fn lemma_fault_of_parts(a: Seq<(Seq<char>, Seq<char>)>, b: Seq<(Seq<char>, Seq<char>)>)
    ensures
        header_fault(a + b) == match header_fault(a) {
            Some(fault) => Some(fault),
            None => header_fault(b),
        },
    decreases a.len(),
{
    if a.len() == 0 {
        assert(a + b == b);
    } else {
        assert((a + b)[0] == a[0]);
        assert((a + b).skip(1) == a.skip(1) + b);
        lemma_fault_of_parts(a.skip(1), b);
    }
}

/// Whether every name of header fields is good.
pub open spec fn names_ok(headers: Seq<(Seq<char>, Seq<char>)>) -> bool {
    forall|i: int| 0 <= i < headers.len() ==> valid_name((#[trigger] headers[i]).0)
}

/// Whether every value of header fields is good.
pub open spec fn values_ok(headers: Seq<(Seq<char>, Seq<char>)>) -> bool {
    forall|i: int| 0 <= i < headers.len() ==> valid_value((#[trigger] headers[i]).1)
}

/// Where all names are good, only a value can be bad.
pub(crate) proof fn lemma_fault_of_values(headers: Seq<(Seq<char>, Seq<char>)>)
    requires
        names_ok(headers),
    ensures
        header_fault(headers) == (if values_ok(headers) {
            None
        } else {
            Some(RequestError::InvalidHeaderValue)
        }),
    decreases headers.len(),
{
    if headers.len() > 0 {
        let rest = headers.skip(1);
        assert forall|i: int| 0 <= i < rest.len() implies valid_name((#[trigger] rest[i]).0) by {
            assert(rest[i] == headers[i + 1]);
        }
        lemma_fault_of_values(rest);
        if valid_value(headers[0].1) {
            if values_ok(rest) {
                assert forall|i: int| 0 <= i < headers.len() implies valid_value(
                    (#[trigger] headers[i]).1,
                ) by {
                    if i > 0 {
                        assert(headers[i] == rest[i - 1]);
                    }
                }
            } else {
                let i = choose|i: int| 0 <= i < rest.len() && !valid_value((#[trigger] rest[i]).1);
                assert(headers[i + 1] == rest[i]);
            }
        }
    }
}

/// A number in base ten can stand in a header field.
pub(crate) proof fn lemma_decimal_is_value(n: nat)
    ensures
        valid_value(decimal(n)),
{
    lemma_decimal_reads_back(n);
    assert forall|i: int| 0 <= i < decimal(n).len() implies is_value_char(
        #[trigger] decimal(n)[i],
    ) by {
        assert(is_digit(decimal(n)[i]));
    }
}

/// A number in base sixteen holds nothing but digits and the letters from a to f.
proof fn lemma_hexadecimal_chars(n: nat)
    ensures
        hexadecimal(n).len() > 0,
        forall|i: int|
            0 <= i < hexadecimal(n).len() ==> '0' <= #[trigger] hexadecimal(n)[i] <= '9' || 'a'
                <= hexadecimal(n)[i] <= 'f',
    decreases n,
{
    if n >= 16 {
        lemma_hexadecimal_chars(n / 16);
        let front = hexadecimal(n / 16);
        let all = hexadecimal(n);
        assert forall|i: int| 0 <= i < all.len() implies '0' <= #[trigger] all[i] <= '9' || 'a'
            <= all[i] <= 'f' by {
            if i < front.len() {
                assert(all[i] == front[i]);
            }
        }
    }
}

/// An escaped character can stand in a header field.
proof fn lemma_escaped_char_is_value(c: char)
    ensures
        valid_value(escaped_char(c)),
{
    let code = hexadecimal((c as u32) as nat);
    lemma_hexadecimal_chars((c as u32) as nat);
    assert forall|i: int| 0 <= i < escaped_char(c).len() implies is_value_char(
        #[trigger] escaped_char(c)[i],
    ) by {
        if 3 <= i < 3 + code.len() {
            assert(escaped_char(c)[i] == code[i - 3]);
        }
    }
}

/// Whatever a text holds, it can stand in a header field once it is escaped.
pub proof fn law_escaped_is_value(s: Seq<char>)
    ensures
        valid_value(escaped(s)),
    decreases s.len(),
{
    if s.len() > 0 {
        let front = escaped(s.drop_last());
        law_escaped_is_value(s.drop_last());
        lemma_escaped_char_is_value(s.last());
        assert forall|i: int| 0 <= i < escaped(s).len() implies is_value_char(
            #[trigger] escaped(s)[i],
        ) by {
            if i < front.len() {
                assert(escaped(s)[i] == front[i]);
            } else {
                assert(escaped(s)[i] == escaped_char(s.last())[i - front.len()]);
            }
        }
    }
}

/// Numbers that are written alike in base sixteen are the same.
proof fn lemma_hexadecimal_injective(a: nat, b: nat)
    requires
        hexadecimal(a) == hexadecimal(b),
    ensures
        a == b,
    decreases a,
{
    let x = hexadecimal(a);
    let y = hexadecimal(b);
    assert(x.last() == hex_char((a % 16) as int));
    assert(y.last() == hex_char((b % 16) as int));
    if a >= 16 {
        lemma_hexadecimal_chars(a / 16);
        assert(x.drop_last() == hexadecimal(a / 16));
    }
    if b >= 16 {
        lemma_hexadecimal_chars(b / 16);
        assert(y.drop_last() == hexadecimal(b / 16));
    }
    if a >= 16 && b >= 16 {
        lemma_hexadecimal_injective(a / 16, b / 16);
    }
}

/// No two texts look the same once they are escaped.
pub proof fn law_escaped_is_injective(a: Seq<char>, b: Seq<char>)
    requires
        escaped(a) == escaped(b),
    ensures
        a == b,
    decreases a.len(),
{
    if a.len() == 0 || b.len() == 0 {
        if a.len() > 0 {
            assert(escaped(a).len() > 0);
        }
        if b.len() > 0 {
            assert(escaped(b).len() > 0);
        }
        assert(a == b);
    } else {
        let x = escaped(a.drop_last());
        let y = escaped(b.drop_last());
        let hx = hexadecimal((a.last() as u32) as nat);
        let hy = hexadecimal((b.last() as u32) as nat);
        let all = escaped(a);
        lemma_hexadecimal_chars((a.last() as u32) as nat);
        lemma_hexadecimal_chars((b.last() as u32) as nat);
        assert(all == x + (seq!['\\', 'u', '{'] + hx + seq!['}']));
        assert(all == y + (seq!['\\', 'u', '{'] + hy + seq!['}']));
        assert(all.len() == x.len() + 4 + hx.len());
        assert(all.len() == y.len() + 4 + hy.len());
        if x.len() < y.len() {
            assert(all[y.len() as int + 2] == '{');
            assert(all[y.len() as int + 2] == hx[y.len() - x.len() - 1]);
        }
        if y.len() < x.len() {
            assert(all[x.len() as int + 2] == '{');
            assert(all[x.len() as int + 2] == hy[x.len() - y.len() - 1]);
        }
        assert(x == all.take(x.len() as int));
        assert(y == all.take(y.len() as int));
        assert(hx == all.subrange(x.len() as int + 3, all.len() - 1));
        assert(hy == all.subrange(y.len() as int + 3, all.len() - 1));
        lemma_hexadecimal_injective((a.last() as u32) as nat, (b.last() as u32) as nat);
        vstd::utf8::char_u32_cast(a.last(), a.last() as u32);
        vstd::utf8::char_u32_cast(b.last(), b.last() as u32);
        law_escaped_is_injective(a.drop_last(), b.drop_last());
        assert(a == a.drop_last().push(a.last()));
        assert(b == b.drop_last().push(b.last()));
    }
}

/// The names of flags can stand in a header field.
pub(crate) proof fn lemma_flag_name_is_value(flag: MessageFlag)
    ensures
        valid_value(flag_name(flag)),
{
    reveal_strlit("crossposted");
    reveal_strlit("is-crosspost");
    reveal_strlit("suppress-embeds");
    reveal_strlit("source-message-deleted");
    reveal_strlit("urgent");
}

/// The names of the header fields are good.
proof fn lemma_names_are_valid()
    ensures
        valid_name("content-type"@),
        valid_value("application/json"@),
        valid_value("text/plain; charset=utf-8"@),
        valid_name("accord-message-id"@),
        valid_name("accord-server-id"@),
        valid_name("accord-channel-type"@),
        valid_value("text"@),
        valid_value("direct"@),
        valid_name("accord-channel-id"@),
        valid_name("accord-author-type"@),
        valid_value("bot"@),
        valid_value("user"@),
        valid_name("accord-author-id"@),
        valid_name("accord-author-name"@),
        valid_name("accord-content-length"@),
        valid_name("accord-author-pseudonym"@),
        valid_name("accord-author-role-ids"@),
        valid_name("accord-message-flags"@),
        valid_name("accord-has-attachments"@),
        valid_name("accord-has-embeds"@),
        valid_name("accord-has-reactions"@),
        valid_name("accord-member-id"@),
        valid_name("accord-member-name"@),
        valid_name("accord-member-pseudonym"@),
        valid_name("accord-member-role-ids"@),
{
    reveal_strlit("content-type");
    reveal_strlit("application/json");
    reveal_strlit("text/plain; charset=utf-8");
    reveal_strlit("accord-message-id");
    reveal_strlit("accord-server-id");
    reveal_strlit("accord-channel-type");
    reveal_strlit("text");
    reveal_strlit("direct");
    reveal_strlit("accord-channel-id");
    reveal_strlit("accord-author-type");
    reveal_strlit("bot");
    reveal_strlit("user");
    reveal_strlit("accord-author-id");
    reveal_strlit("accord-author-name");
    reveal_strlit("accord-content-length");
    reveal_strlit("accord-author-pseudonym");
    reveal_strlit("accord-author-role-ids");
    reveal_strlit("accord-message-flags");
    reveal_strlit("accord-has-attachments");
    reveal_strlit("accord-has-embeds");
    reveal_strlit("accord-has-reactions");
    reveal_strlit("accord-member-id");
    reveal_strlit("accord-member-name");
    reveal_strlit("accord-member-pseudonym");
    reveal_strlit("accord-member-role-ids");
}

/// The header fields for optional roles have no fault.
proof fn lemma_roles_no_fault(name: Seq<char>, roles: Option<Seq<u64>>)
    requires
        valid_name(name),
    ensures
        header_fault(repeated(name, role_values(roles))) is None,
{
    let fields = repeated(name, role_values(roles));
    assert forall|i: int| 0 <= i < fields.len() implies valid_name((#[trigger] fields[i]).0)
        && valid_value(fields[i].1) by {
        lemma_decimal_is_value(roles->0[i] as nat);
    }
    lemma_fault_of_values(fields);
}

/// The header fields for flags have no fault.
proof fn lemma_flags_no_fault(name: Seq<char>, flags: Seq<MessageFlag>)
    requires
        valid_name(name),
    ensures
        header_fault(repeated(name, flag_names(flags))) is None,
{
    let fields = repeated(name, flag_names(flags));
    assert forall|i: int| 0 <= i < fields.len() implies valid_name((#[trigger] fields[i]).0)
        && valid_value(fields[i].1) by {
        lemma_flag_name_is_value(flags[i]);
    }
    lemma_fault_of_values(fields);
}

/// A header field for a count has no fault.
proof fn lemma_count_no_fault(name: Seq<char>, n: nat)
    requires
        valid_name(name),
    ensures
        header_fault(counted(name, n)) is None,
{
    lemma_decimal_is_value(n);
    lemma_fault_of_values(counted(name, n));
}

/// A message in a server can always be told, whoever wrote it: only the URI can be bad.
#[verifier::rlimit(30)]
pub proof fn law_server_message_can_be_told(
    method: Method,
    base: Seq<char>,
    path: Seq<char>,
    contents: Option<Seq<char>>,
    msg: ServerMessageView,
    uri_ok: bool,
    fault: Option<RequestError>,
)
    requires
        may_fault(
            payload_head(method, base, path, content_type(contents), server_message_metadata(msg)),
            uri_ok,
            fault,
        ),
    ensures
        fault == (if uri_ok {
            None
        } else {
            Some(RequestError::InvalidUri)
        }),
{
    lemma_names_are_valid();
    lemma_decimal_is_value(msg.id as nat);
    lemma_decimal_is_value(msg.server_id as nat);
    lemma_decimal_is_value(msg.channel_id as nat);
    lemma_decimal_is_value(msg.author.user.id as nat);
    lemma_decimal_is_value(byte_length(msg.content));
    law_escaped_is_value(msg.author.user.name);
    let kind = seq![("content-type"@, content_type(contents))];
    let ids = server_message_ids(msg);
    let pseudonym = at_most_one(
        "accord-author-pseudonym"@,
        opt_escaped(msg.author.pseudonym),
    );
    let roles = repeated("accord-author-role-ids"@, role_values(msg.author.roles));
    let flags = repeated("accord-message-flags"@, flag_names(msg.flags));
    let attachments = counted("accord-has-attachments"@, msg.attachments.len());
    let embeds = counted("accord-has-embeds"@, msg.embeds.len());
    let reactions = counted("accord-has-reactions"@, msg.reactions.len());
    match msg.author.pseudonym {
        Some(name) => {
            law_escaped_is_value(name);
        },
        None => {},
    }
    lemma_fault_of_values(kind);
    lemma_fault_of_values(ids);
    lemma_fault_of_values(pseudonym);
    lemma_roles_no_fault("accord-author-role-ids"@, msg.author.roles);
    lemma_flags_no_fault("accord-message-flags"@, msg.flags);
    lemma_count_no_fault("accord-has-attachments"@, msg.attachments.len());
    lemma_count_no_fault("accord-has-embeds"@, msg.embeds.len());
    lemma_count_no_fault("accord-has-reactions"@, msg.reactions.len());
    lemma_fault_of_parts(ids, pseudonym);
    lemma_fault_of_parts(ids + pseudonym, roles);
    lemma_fault_of_parts(ids + pseudonym + roles, flags);
    lemma_fault_of_parts(ids + pseudonym + roles + flags, attachments);
    lemma_fault_of_parts(ids + pseudonym + roles + flags + attachments, embeds);
    lemma_fault_of_parts(ids + pseudonym + roles + flags + attachments + embeds, reactions);
    lemma_fault_of_parts(kind, server_message_metadata(msg));
    lemma_names_of_one(pseudonym, "accord-author-pseudonym"@);
    lemma_names_of_parts(ids, pseudonym);
    lemma_names_of_one(roles, "accord-author-role-ids"@);
    lemma_names_of_parts(ids + pseudonym, roles);
    lemma_names_of_one(flags, "accord-message-flags"@);
    lemma_names_of_parts(ids + pseudonym + roles, flags);
    lemma_names_of_one(attachments, "accord-has-attachments"@);
    lemma_names_of_parts(ids + pseudonym + roles + flags, attachments);
    lemma_names_of_one(embeds, "accord-has-embeds"@);
    lemma_names_of_parts(ids + pseudonym + roles + flags + attachments, embeds);
    lemma_names_of_one(reactions, "accord-has-reactions"@);
    lemma_names_of_parts(ids + pseudonym + roles + flags + attachments + embeds, reactions);
    lemma_names_of_fields(ids);
    lemma_names_of_fields(kind);
    lemma_names_of_parts(kind, server_message_metadata(msg));
    law_few_names_have_room(
        payload_head(method, base, path, content_type(contents), server_message_metadata(msg)),
        uri_ok,
        fault,
    );
}

/// A direct message can always be told, whoever wrote it: only the URI can be bad.
#[verifier::rlimit(30)]
pub proof fn law_direct_message_can_be_told(
    method: Method,
    base: Seq<char>,
    path: Seq<char>,
    contents: Option<Seq<char>>,
    msg: DirectMessageView,
    uri_ok: bool,
    fault: Option<RequestError>,
)
    requires
        may_fault(
            payload_head(method, base, path, content_type(contents), direct_message_metadata(msg)),
            uri_ok,
            fault,
        ),
    ensures
        fault == (if uri_ok {
            None
        } else {
            Some(RequestError::InvalidUri)
        }),
{
    lemma_names_are_valid();
    lemma_decimal_is_value(msg.id as nat);
    lemma_decimal_is_value(msg.channel_id as nat);
    lemma_decimal_is_value(msg.author.id as nat);
    lemma_decimal_is_value(byte_length(msg.content));
    law_escaped_is_value(msg.author.name);
    let kind = seq![("content-type"@, content_type(contents))];
    let ids = direct_message_ids(msg);
    let flags = repeated("accord-message-flags"@, flag_names(msg.flags));
    let attachments = counted("accord-has-attachments"@, msg.attachments.len());
    let embeds = counted("accord-has-embeds"@, msg.embeds.len());
    let reactions = counted("accord-has-reactions"@, msg.reactions.len());
    lemma_fault_of_values(kind);
    lemma_fault_of_values(ids);
    lemma_flags_no_fault("accord-message-flags"@, msg.flags);
    lemma_count_no_fault("accord-has-attachments"@, msg.attachments.len());
    lemma_count_no_fault("accord-has-embeds"@, msg.embeds.len());
    lemma_count_no_fault("accord-has-reactions"@, msg.reactions.len());
    lemma_fault_of_parts(ids, flags);
    lemma_fault_of_parts(ids + flags, attachments);
    lemma_fault_of_parts(ids + flags + attachments, embeds);
    lemma_fault_of_parts(ids + flags + attachments + embeds, reactions);
    lemma_fault_of_parts(kind, direct_message_metadata(msg));
    lemma_names_of_one(flags, "accord-message-flags"@);
    lemma_names_of_parts(ids, flags);
    lemma_names_of_one(attachments, "accord-has-attachments"@);
    lemma_names_of_parts(ids + flags, attachments);
    lemma_names_of_one(embeds, "accord-has-embeds"@);
    lemma_names_of_parts(ids + flags + attachments, embeds);
    lemma_names_of_one(reactions, "accord-has-reactions"@);
    lemma_names_of_parts(ids + flags + attachments + embeds, reactions);
    lemma_names_of_fields(ids);
    lemma_names_of_fields(kind);
    lemma_names_of_parts(kind, direct_message_metadata(msg));
    law_few_names_have_room(
        payload_head(method, base, path, content_type(contents), direct_message_metadata(msg)),
        uri_ok,
        fault,
    );
}

/// A join can be told unless the URI is bad or the newcomer's pseudonym, which goes along as it
/// stands, holds a control character.
#[verifier::rlimit(30)]
pub proof fn law_join_can_be_told(
    method: Method,
    base: Seq<char>,
    path: Seq<char>,
    contents: Option<Seq<char>>,
    member: MemberView,
    uri_ok: bool,
    fault: Option<RequestError>,
)
    requires
        may_fault(
            payload_head(method, base, path, content_type(contents), join_metadata(member)),
            uri_ok,
            fault,
        ),
    ensures
        fault == (if !uri_ok {
            Some(RequestError::InvalidUri)
        } else if member.pseudonym is Some && !valid_value(member.pseudonym->0) {
            Some(RequestError::InvalidHeaderValue)
        } else {
            None
        }),
{
    lemma_names_are_valid();
    lemma_decimal_is_value(member.server_id as nat);
    lemma_decimal_is_value(member.user.id as nat);
    law_escaped_is_value(member.user.name);
    let kind = seq![("content-type"@, content_type(contents))];
    let ids = seq![
        ("accord-server-id"@, decimal(member.server_id as nat)),
        ("accord-member-id"@, decimal(member.user.id as nat)),
        ("accord-member-name"@, escaped(member.user.name)),
    ];
    let pseudonym = at_most_one("accord-member-pseudonym"@, member.pseudonym);
    let roles = repeated("accord-member-role-ids"@, role_values(member.roles));
    lemma_fault_of_values(kind);
    lemma_fault_of_values(ids);
    match member.pseudonym {
        Some(name) => {
            if valid_value(name) {
                lemma_fault_of_values(pseudonym);
            }
        },
        None => {
            lemma_fault_of_values(pseudonym);
        },
    }
    lemma_roles_no_fault("accord-member-role-ids"@, member.roles);
    lemma_fault_of_parts(ids, pseudonym);
    lemma_fault_of_parts(ids + pseudonym, roles);
    lemma_fault_of_parts(kind, join_metadata(member));
    lemma_names_of_one(pseudonym, "accord-member-pseudonym"@);
    lemma_names_of_parts(ids, pseudonym);
    lemma_names_of_one(roles, "accord-member-role-ids"@);
    lemma_names_of_parts(ids + pseudonym, roles);
    lemma_names_of_fields(ids);
    lemma_names_of_fields(kind);
    lemma_names_of_parts(kind, join_metadata(member));
    law_few_names_have_room(
        payload_head(method, base, path, content_type(contents), join_metadata(member)),
        uri_ok,
        fault,
    );
}

/// What has no header fields of its own can always be told: only the URI can be bad.
pub proof fn law_announcement_can_be_told(
    method: Method,
    base: Seq<char>,
    path: Seq<char>,
    contents: Option<Seq<char>>,
    uri_ok: bool,
    fault: Option<RequestError>,
)
    requires
        may_fault(
            payload_head(method, base, path, content_type(contents), seq![]),
            uri_ok,
            fault,
        ),
    ensures
        fault == (if uri_ok {
            None
        } else {
            Some(RequestError::InvalidUri)
        }),
{
    lemma_names_are_valid();
    lemma_fault_of_values(payload_head(method, base, path, content_type(contents), seq![]).headers);
    lemma_names_of_fields(payload_head(method, base, path, content_type(contents), seq![]).headers);
    law_few_names_have_room(
        payload_head(method, base, path, content_type(contents), seq![]),
        uri_ok,
        fault,
    );
}

/// The bytes of a text in which every character is one byte.
pub open spec fn narrow_bytes(s: Seq<char>) -> Seq<u8> {
    s.map_values(|c: char| c as u8)
}

/// A target that sends back an id as it got it in a header field is understood to mean that id.
pub proof fn law_echoed_id(entries: Map<Seq<char>, Seq<Seq<u8>>>, name: Seq<char>, id: u64)
    requires
        first_value(entries, name) == Some(narrow_bytes(decimal(id as nat))),
    ensures
        field_number(entries, name, u64::MAX) == Some(id),
{
    let text = decimal(id as nat);
    let bytes = narrow_bytes(text);
    lemma_decimal_reads_back(id as nat);
    assert forall|i: int| 0 <= i < bytes.len() implies is_visible(#[trigger] bytes[i]) && (
    bytes[i] as char) == text[i] by {
        assert(is_digit(text[i]));
    }
    assert(visible_text(bytes) == Some(text)) by {
        assert(bytes.map_values(|b: u8| b as char) == text);
    }
    law_number_round_trip(id, u64::MAX);
}

/// A text in response to a message is posted, always: in the channel that the response names, or
/// else in the message's own.
pub proof fn law_text_reply_is_posted(
    shard_id: u64,
    message: Message,
    words: Option<Seq<Seq<char>>>,
    dispatch: Dispatch,
    status: u16,
    fields: FieldsView,
    content: String,
)
    requires
        is_dispatch_for(Some(dispatch), shard_id, Event::MessageCreate(message), words),
    ensures
        reply_of(status, fields, dispatch.from_server, dispatch.from_channel) matches ReplyView::Text(
            channel_id,
            defaults,
        ) ==> stage_call(text_stage(content, channel_id, defaults)) == Ok::<Call, ActError>(
            Call::CreateMessage {
                channel_id: match fields.channel_id {
                    Some(id) => id,
                    None => message.channel_id,
                },
                content,
            },
        ),
{
}

/// A text in response to an event is staged with the server that the response names, or else with
/// that of the event.
pub proof fn law_text_gets_the_server(
    status: u16,
    fields: FieldsView,
    from_server: Option<u64>,
    from_channel: Option<u64>,
    content: String,
)
    ensures
        reply_of(status, fields, from_server, from_channel) matches ReplyView::Text(
            channel_id,
            defaults,
        ) ==> text_stage(content, channel_id, defaults).default_server_id == id_or(
            fields.server_id,
            from_server,
        ),
{
}

/// An act in response to an event that names no channel and no server is about those that the
/// response names, or else about those of the event. One that names them keeps them.
pub proof fn law_acts_get_defaults(
    status: u16,
    fields: FieldsView,
    from_server: Option<u64>,
    from_channel: Option<u64>,
    act: Act,
)
    ensures
        ({
            let reply = reply_of(status, fields, from_server, from_channel);
            let defaults = match reply {
                ReplyView::OneAct(d) => d,
                ReplyView::ManyActs(d) => d,
                _ => Defaults { server_id: None, channel_id: None },
            };
            reply is OneAct || reply is ManyActs ==> stage_call(
                Stage {
                    act,
                    default_server_id: defaults.server_id,
                    default_channel_id: defaults.channel_id,
                },
            ) == call_of(
                act,
                id_or(fields.server_id, from_server),
                id_or(fields.channel_id, from_channel),
            )
        }),
{
}

/// Every act in response to a message in a server can be carried out: nothing it needs is missing.
pub proof fn law_server_acts_miss_nothing(
    status: u16,
    fields: FieldsView,
    server_id: u64,
    channel_id: u64,
    act: Act,
)
    ensures
        ({
            let reply = reply_of(status, fields, Some(server_id), Some(channel_id));
            reply matches ReplyView::OneAct(d) ==> stage_call(
                Stage { act, default_server_id: d.server_id, default_channel_id: d.channel_id },
            ) is Ok
        }),
        ({
            let reply = reply_of(status, fields, Some(server_id), Some(channel_id));
            reply matches ReplyView::ManyActs(d) ==> stage_call(
                Stage { act, default_server_id: d.server_id, default_channel_id: d.channel_id },
            ) is Ok
        }),
{
}

} // verus!
