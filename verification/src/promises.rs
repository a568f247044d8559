//! What comes of responses, streams, acts and events, stated of the functions themselves.

use isahc::http::header::HeaderValue;
use isahc::http::HeaderMap;
use vstd::prelude::*;

use crate::act::{handle_act, send_to_discord, Act, ActError, Call, Stage};
use crate::command::{
    assemble_command, command_words, regex_captures, regex_compiles, regex_matches, words_of_match,
    words_of_matches, BadPattern, Commands,
};
use crate::discord;
use crate::discord::{Event, Message, UpdateStatusInfo};
use crate::error::{MissingChannel, MissingServer};
use crate::forward::{
    decide_reply, dispatch_event, handle_response, judge_status, offers_presence, read_fields,
    stage_act, stage_all, stage_text, takes_presence, try_event, update_status, Defaults, Dispatch,
    Fields, Ignored, Payload, Reply,
};
use crate::outcome::settle;
use crate::raccord::{Activity, Client, DirectMessage, Presence, ServerMessage};
use crate::reverse::{summon_direct, summon_server};
use crate::tellings::{
    lemma_stands_for_direct_message, lemma_stands_for_server_message, lemma_tells_direct_message,
    lemma_tells_server_message, same_text, stands_for_direct_message, stands_for_server_message,
    tells_direct_message, tells_server_message, tells_user,
};
use crate::text::parsed_number;
use crate::wire::{header_entries, media_equal, media_names};

verus! {

/// A staged act is the act itself, with the response's server and channel as its defaults.
pub proof fn law_staged_act(act: Act, defaults: Defaults, r: Stage)
    requires
        call_ensures(stage_act, (act, defaults), r),
    ensures
        r.act == act,
        r.default_server_id == defaults.server_id,
        r.default_channel_id == defaults.channel_id,
{
}

/// A staged text is a message with that text, for the channel that the response names, if any.
pub proof fn law_staged_text(
    content: String,
    channel_id: Option<u64>,
    defaults: Defaults,
    r: Stage,
)
    requires
        call_ensures(stage_text, (content, channel_id, defaults), r),
    ensures
        r.act matches Act::CreateMessage { content: c, channel_id: id } && c == content && id
            == channel_id,
        r.default_server_id == defaults.server_id,
        r.default_channel_id == defaults.channel_id,
{
}

/// Where the first payloads of a stream are acts, they are staged one for one.
proof fn lemma_staged_one_for_one(parsed: Seq<Option<Act>>, defaults: Defaults, k: int)
    requires
        0 <= k <= parsed.len(),
        forall|i: int| 0 <= i < k ==> (#[trigger] parsed[i]) is Some,
        k < parsed.len() ==> parsed[k] is None,
    ensures
        crate::forward::staged(parsed, defaults).0.len() == k,
        crate::forward::staged(parsed, defaults).1 == (k < parsed.len()),
        forall|i: int|
            0 <= i < k ==> (#[trigger] crate::forward::staged(parsed, defaults).0[i]) == (Stage {
                act: parsed[i]->0,
                default_server_id: defaults.server_id,
                default_channel_id: defaults.channel_id,
            }),
    decreases k,
{
    if k > 0 {
        let rest = parsed.skip(1);
        assert forall|i: int| 0 <= i < k - 1 implies (#[trigger] rest[i]) is Some by {
            assert(rest[i] == parsed[i + 1]);
        }
        assert(parsed[0] is Some);
        assert(k < parsed.len() ==> rest[k - 1] == parsed[k]);
        lemma_staged_one_for_one(rest, defaults, k - 1);
        let all = crate::forward::staged(parsed, defaults).0;
        let more = crate::forward::staged(rest, defaults).0;
        assert forall|i: int| 0 <= i < k implies (#[trigger] all[i]) == (Stage {
            act: parsed[i]->0,
            default_server_id: defaults.server_id,
            default_channel_id: defaults.channel_id,
        }) by {
            if i > 0 {
                assert(all[i] == more[i - 1]);
                assert(rest[i - 1] == parsed[i]);
            }
        }
    }
}

/// Every act of a stream is staged, in order and whatever its kind, with the response's defaults;
/// nothing else is, and the stream does not break off.
pub proof fn law_every_act_is_staged(
    parsed: Vec<Option<Act>>,
    defaults: Defaults,
    r: (Vec<Stage>, bool),
)
    requires
        call_ensures(stage_all, (parsed, defaults), r),
        forall|i: int| 0 <= i < parsed@.len() ==> (#[trigger] parsed@[i]) is Some,
    ensures
        !r.1,
        r.0@.len() == parsed@.len(),
        forall|i: int|
            #![trigger r.0@[i]]
            0 <= i < parsed@.len() ==> parsed@[i] == Some(r.0@[i].act)
                && r.0@[i].default_server_id == defaults.server_id && r.0@[i].default_channel_id
                == defaults.channel_id,
{
    lemma_staged_one_for_one(parsed@, defaults, parsed@.len() as int);
    assert forall|i: int|
        #![trigger r.0@[i]]
        0 <= i < parsed@.len() implies parsed@[i] == Some(r.0@[i].act) by {
        assert(parsed@[i] is Some);
    }
}

/// A stream breaks off at its first payload that is no act: exactly the acts before it are staged,
/// one for one.
pub proof fn law_stream_breaks_off(
    parsed: Vec<Option<Act>>,
    defaults: Defaults,
    k: int,
    r: (Vec<Stage>, bool),
)
    requires
        call_ensures(stage_all, (parsed, defaults), r),
        0 <= k < parsed@.len(),
        parsed@[k] is None,
        forall|i: int| 0 <= i < k ==> (#[trigger] parsed@[i]) is Some,
    ensures
        r.1,
        r.0@.len() == k,
        forall|i: int|
            #![trigger r.0@[i]]
            0 <= i < k ==> parsed@[i] == Some(r.0@[i].act) && r.0@[i].default_server_id
                == defaults.server_id && r.0@[i].default_channel_id == defaults.channel_id,
{
    lemma_staged_one_for_one(parsed@, defaults, k);
    assert forall|i: int|
        #![trigger r.0@[i]]
        0 <= i < k implies parsed@[i] == Some(r.0@[i].act) by {
        assert(parsed@[i] is Some);
    }
}

/// A response with a success other than 204 is read on. Any other is not, for a reason that its
/// status gives.
pub proof fn law_judged_statuses(status: u16, r: Option<Ignored>)
    requires
        call_ensures(judge_status, (status,), r),
        status != 301 && status != 302 && status != 303 && status != 307 && status != 308,
    ensures
        r is None <==> 200 <= status <= 299 && status != 204,
        r == Some(Ignored::NoAction) <==> status == 204 || status == 404,
        r == Some(Ignored::TargetError) <==> 400 <= status <= 599 && status != 404,
        r == Some(Ignored::MultipleChoice) <==> status == 300,
        r == Some(Ignored::NotModified) <==> status == 304,
        r == Some(Ignored::ProxyRedirect) <==> status == 305 || status == 306,
        r == Some(Ignored::InvalidRedirect) <==> status == 309 || 310 <= status <= 399,
        r == Some(Ignored::InvalidStatus) <==> status < 200 || status >= 600,
{
}

/// A response of any status is judged, but for the redirections that have been followed before.
pub proof fn law_every_response_is_judged(
    status: u16,
    headers: &HeaderMap<HeaderValue>,
    fields: Fields,
    from_server: Option<u64>,
    from_channel: Option<u64>,
)
    requires
        status != 301 && status != 302 && status != 303 && status != 307 && status != 308,
    ensures
        call_requires(judge_status, (status,)),
        call_requires(decide_reply, (status, fields, from_server, from_channel)),
        call_requires(handle_response, (status, headers, from_server, from_channel)),
{
}

/// A response that is no success, or has no content, leads to nothing, whatever its header fields
/// and whatever it responds to. One that reports an error of the target leads to nothing for that
/// reason.
pub proof fn law_only_success_leads_to_acts(
    status: u16,
    headers: &HeaderMap<HeaderValue>,
    from_server: Option<u64>,
    from_channel: Option<u64>,
    r: Reply,
)
    requires
        call_ensures(handle_response, (status, headers, from_server, from_channel), r),
        status != 301 && status != 302 && status != 303 && status != 307 && status != 308,
    ensures
        r is Nothing <==> !(200 <= status <= 299) || status == 204,
        400 <= status <= 599 && status != 404 ==> r == Reply::Nothing(Ignored::TargetError),
        status == 204 || status == 404 ==> r == Reply::Nothing(Ignored::NoAction),
        status == 300 ==> r == Reply::Nothing(Ignored::MultipleChoice),
        status == 304 ==> r == Reply::Nothing(Ignored::NotModified),
        status == 305 || status == 306 ==> r == Reply::Nothing(Ignored::ProxyRedirect),
        309 <= status <= 399 ==> r == Reply::Nothing(Ignored::InvalidRedirect),
        status < 200 || status >= 600 ==> r == Reply::Nothing(Ignored::InvalidStatus),
{
}

/// What is read of the header fields does not matter where the status leads to nothing.
pub proof fn law_status_goes_first(
    status: u16,
    fields: Fields,
    from_server: Option<u64>,
    from_channel: Option<u64>,
    judged: Option<Ignored>,
    r: Reply,
)
    requires
        call_ensures(judge_status, (status,), judged),
        call_ensures(decide_reply, (status, fields, from_server, from_channel), r),
    ensures
        r is Nothing <==> judged is Some,
        r matches Reply::Nothing(why) ==> judged == Some(why),
{
}

/// An id that is there, or else another.
pub open spec fn named_or(own: Option<u64>, other: Option<u64>) -> Option<u64> {
    if own is Some {
        own
    } else {
        other
    }
}

/// What a successful response asks for is decided by its type alone: JSON is one act where a length
/// above zero is given and several otherwise, a plain text is a message, and nothing else is
/// handled. The ids that the response names go before those of the event.
pub proof fn law_replies(
    status: u16,
    fields: Fields,
    from_server: Option<u64>,
    from_channel: Option<u64>,
    r: Reply,
)
    requires
        call_ensures(decide_reply, (status, fields, from_server, from_channel), r),
        200 <= status <= 299,
        status != 204,
    ensures
        fields.media is None ==> (r matches Reply::Unhandled(t, s) && t@ == "application"@ && s@
            == "octet-stream"@),
        fields.media matches Some(names) ==> {
            let json = names.0@ == "application"@ && names.1@ == "json"@;
            let text = names.0@ == "text"@ && names.1@ == "plain"@;
            let sized = fields.content_length is Some && fields.content_length->0 != 0;
            &&& r is OneAct <==> json && sized
            &&& r is ManyActs <==> json && !sized
            &&& r is Text <==> text
            &&& r is Unhandled <==> !json && !text
            &&& r matches Reply::Unhandled(t, s) ==> t@ == names.0@ && s@ == names.1@
        },
        r matches Reply::OneAct(d) ==> d.server_id == named_or(fields.server_id, from_server)
            && d.channel_id == named_or(fields.channel_id, from_channel),
        r matches Reply::ManyActs(d) ==> d.server_id == named_or(fields.server_id, from_server)
            && d.channel_id == named_or(fields.channel_id, from_channel),
        r matches Reply::Text(channel_id, d) ==> channel_id == fields.channel_id && d.server_id
            == named_or(fields.server_id, from_server) && d.channel_id == from_channel,
{
    reveal_strlit("application");
    reveal_strlit("text");
    reveal_strlit("octet-stream");
    reveal_strlit("json");
    reveal_strlit("plain");
    assert("application"@.len() != "text"@.len());
    assert("json"@.len() != "octet-stream"@.len());
}

/// A response is decided by its status and what is read of its header fields, and by nothing else.
pub proof fn law_response_is_decided_by_its_fields(
    status: u16,
    headers: &HeaderMap<HeaderValue>,
    from_server: Option<u64>,
    from_channel: Option<u64>,
    fields: Fields,
    decided: Reply,
    r: Reply,
)
    requires
        call_ensures(handle_response, (status, headers, from_server, from_channel), r),
        call_ensures(read_fields, (headers,), fields),
        call_ensures(decide_reply, (status, fields, from_server, from_channel), decided),
    ensures
        match (r, decided) {
            (Reply::Nothing(a), Reply::Nothing(b)) => a == b,
            (Reply::Unhandled(a, b), Reply::Unhandled(c, d)) => a@ == c@ && b@ == d@,
            (Reply::OneAct(a), Reply::OneAct(b)) => a == b,
            (Reply::ManyActs(a), Reply::ManyActs(b)) => a == b,
            (Reply::Text(a, b), Reply::Text(c, d)) => a == c && b == d,
            _ => false,
        },
{
    assert(r@ == decided@);
}

/// The first value of a field, where the field is there.
pub open spec fn leading_value(headers: HeaderMap<HeaderValue>, name: Seq<char>) -> Option<
    Seq<u8>,
> {
    if header_entries(headers).dom().contains(name) && header_entries(headers)[name].len() > 0 {
        Some(header_entries(headers)[name][0])
    } else {
        None
    }
}

/// Whether bytes are a text of printable ASCII characters and tabs.
pub open spec fn spells(bytes: Seq<u8>, text: Seq<char>) -> bool {
    &&& bytes.len() == text.len()
    &&& forall|i: int|
        0 <= i < bytes.len() ==> (#[trigger] bytes[i]) as int == text[i] as int && (bytes[i] == 9
            || 32 <= bytes[i] <= 126)
}

/// Whether a byte that cannot be printed is among bytes.
pub open spec fn unprintable(bytes: Seq<u8>) -> bool {
    exists|i: int|
        0 <= i < bytes.len() && ((#[trigger] bytes[i]) > 126 || (bytes[i] < 32 && bytes[i] != 9))
}

/// Bytes that spell a text are read as that text.
proof fn lemma_spelt(bytes: Seq<u8>, text: Seq<char>)
    requires
        spells(bytes, text),
    ensures
        crate::wire::visible_text(bytes) == Some(text),
{
    assert forall|i: int| 0 <= i < bytes.len() implies crate::wire::is_visible(#[trigger] bytes[i])
        && (bytes[i] as char) == text[i] by {}
    assert(bytes.map_values(|b: u8| b as char) == text);
}

/// Bytes that cannot be printed are read as no text.
proof fn lemma_unprintable(bytes: Seq<u8>)
    requires
        unprintable(bytes),
    ensures
        crate::wire::visible_text(bytes) is None,
{
    let i = choose|i: int|
        0 <= i < bytes.len() && ((#[trigger] bytes[i]) > 126 || (bytes[i] < 32 && bytes[i] != 9));
    assert(!crate::wire::is_visible(bytes[i]));
}

/// A field that is missing, or whose first value cannot be printed, says nothing.
pub proof fn law_unreadable_fields(headers: &HeaderMap<HeaderValue>, r: Fields)
    requires
        call_ensures(read_fields, (headers,), r),
    ensures
        leading_value(*headers, "content-type"@) is None ==> r.media is None,
        leading_value(*headers, "accord-server-id"@) is None ==> r.server_id is None,
        leading_value(*headers, "accord-channel-id"@) is None ==> r.channel_id is None,
        leading_value(*headers, "content-length"@) is None ==> r.content_length is None,
        leading_value(*headers, "content-type"@) matches Some(v) && unprintable(v)
            ==> r.media is None,
        leading_value(*headers, "accord-server-id"@) matches Some(v) && unprintable(v)
            ==> r.server_id is None,
        leading_value(*headers, "accord-channel-id"@) matches Some(v) && unprintable(v)
            ==> r.channel_id is None,
        leading_value(*headers, "content-length"@) matches Some(v) && unprintable(v)
            ==> r.content_length is None,
{
    assert forall|v: Seq<u8>| #[trigger] unprintable(v) implies crate::wire::visible_text(
        v,
    ) is None by {
        lemma_unprintable(v);
    }
    assert(r@.media is None <==> r.media is None);
}

/// The server that a response names is the number in the first `accord-server-id`.
pub proof fn law_server_field(headers: &HeaderMap<HeaderValue>, text: Seq<char>, r: Fields)
    requires
        call_ensures(read_fields, (headers,), r),
        leading_value(*headers, "accord-server-id"@) is Some,
        spells(leading_value(*headers, "accord-server-id"@)->0, text),
    ensures
        r.server_id == parsed_number(text, u64::MAX),
{
    lemma_spelt(leading_value(*headers, "accord-server-id"@)->0, text);
}

/// The channel that a response names is the number in the first `accord-channel-id`.
pub proof fn law_channel_field(headers: &HeaderMap<HeaderValue>, text: Seq<char>, r: Fields)
    requires
        call_ensures(read_fields, (headers,), r),
        leading_value(*headers, "accord-channel-id"@) is Some,
        spells(leading_value(*headers, "accord-channel-id"@)->0, text),
    ensures
        r.channel_id == parsed_number(text, u64::MAX),
{
    lemma_spelt(leading_value(*headers, "accord-channel-id"@)->0, text);
}

/// The length of the content is the number in the first `content-length`.
pub proof fn law_length_field(headers: &HeaderMap<HeaderValue>, text: Seq<char>, r: Fields)
    requires
        call_ensures(read_fields, (headers,), r),
        leading_value(*headers, "content-length"@) is Some,
        spells(leading_value(*headers, "content-length"@)->0, text),
    ensures
        r.content_length == parsed_number(text, usize::MAX as u64),
{
    lemma_spelt(leading_value(*headers, "content-length"@)->0, text);
}

/// The type of the content is what the media type in the first `content-type` names.
pub proof fn law_media_field(headers: &HeaderMap<HeaderValue>, text: Seq<char>, r: Fields)
    requires
        call_ensures(read_fields, (headers,), r),
        leading_value(*headers, "content-type"@) is Some,
        spells(leading_value(*headers, "content-type"@)->0, text),
    ensures
        match (r.media, media_names(text)) {
            (Some(a), Some(b)) => a.0@ == b.0 && a.1@ == b.1,
            (None, None) => true,
            _ => false,
        },
{
    lemma_spelt(leading_value(*headers, "content-type"@)->0, text);
    assert(r@.media == media_names(text));
}

/// An act is carried out in the place that it names itself, whatever the defaults.
pub proof fn law_own_place_goes_first(
    act: Act,
    default_server_id: Option<u64>,
    default_channel_id: Option<u64>,
    r: Result<Call, ActError>,
)
    requires
        call_ensures(handle_act, (act, default_server_id, default_channel_id), r),
    ensures
        act matches Act::CreateMessage { content, channel_id: Some(c) } ==> r == Ok::<
            Call,
            ActError,
        >(Call::CreateMessage { channel_id: c, content }),
        act matches Act::AssignRole { role_id, user_id, server_id: Some(s), reason } ==> r == Ok::<
            Call,
            ActError,
        >(Call::AddRole { server_id: s, user_id, role_id, reason }),
        act matches Act::RemoveRole { role_id, user_id, server_id: Some(s), reason } ==> r == Ok::<
            Call,
            ActError,
        >(Call::RemoveRole { server_id: s, user_id, role_id, reason }),
{
}

/// An act that names no place is carried out in the default one, and fails for want of it.
pub proof fn law_default_place_goes_second(
    act: Act,
    default_server_id: Option<u64>,
    default_channel_id: Option<u64>,
    r: Result<Call, ActError>,
)
    requires
        call_ensures(handle_act, (act, default_server_id, default_channel_id), r),
    ensures
        act matches Act::CreateMessage { content, channel_id: None } ==> match default_channel_id {
            Some(c) => r == Ok::<Call, ActError>(Call::CreateMessage { channel_id: c, content }),
            None => r == Err::<Call, ActError>(ActError::Channel(MissingChannel)),
        },
        act matches Act::AssignRole { role_id, user_id, server_id: None, reason }
            ==> match default_server_id {
            Some(s) => r == Ok::<Call, ActError>(
                Call::AddRole { server_id: s, user_id, role_id, reason },
            ),
            None => r == Err::<Call, ActError>(ActError::Server(MissingServer)),
        },
        act matches Act::RemoveRole { role_id, user_id, server_id: None, reason }
            ==> match default_server_id {
            Some(s) => r == Ok::<Call, ActError>(
                Call::RemoveRole { server_id: s, user_id, role_id, reason },
            ),
            None => r == Err::<Call, ActError>(ActError::Server(MissingServer)),
        },
{
}

/// Whether an act names the place that it is to be carried out in.
pub open spec fn names_its_place(act: Act) -> bool {
    match act {
        Act::CreateMessage { channel_id, .. } => channel_id is Some,
        Act::AssignRole { server_id, .. } => server_id is Some,
        Act::RemoveRole { server_id, .. } => server_id is Some,
    }
}

/// The defaults make no difference to an act that names its own place, of whatever kind it is; and
/// such an act is always carried out.
pub proof fn law_defaults_give_way(
    act: Act,
    server_a: Option<u64>,
    channel_a: Option<u64>,
    server_b: Option<u64>,
    channel_b: Option<u64>,
    a: Result<Call, ActError>,
    b: Result<Call, ActError>,
)
    requires
        call_ensures(handle_act, (act, server_a, channel_a), a),
        call_ensures(handle_act, (act, server_b, channel_b), b),
        names_its_place(act),
    ensures
        a is Ok,
        a == b,
{
}

/// A default does for an act what the act could have named itself.
pub proof fn law_default_stands_in(
    role_id: u64,
    user_id: u64,
    reason: Option<String>,
    content: String,
    place: u64,
    other: Option<u64>,
    unnamed: (Result<Call, ActError>, Result<Call, ActError>, Result<Call, ActError>),
    named: (Result<Call, ActError>, Result<Call, ActError>, Result<Call, ActError>),
)
    requires
        call_ensures(
            handle_act,
            (Act::CreateMessage { content, channel_id: None }, other, Some(place)),
            unnamed.0,
        ),
        call_ensures(
            handle_act,
            (Act::AssignRole { role_id, user_id, server_id: None, reason }, Some(place), other),
            unnamed.1,
        ),
        call_ensures(
            handle_act,
            (Act::RemoveRole { role_id, user_id, server_id: None, reason }, Some(place), other),
            unnamed.2,
        ),
        call_ensures(
            handle_act,
            (Act::CreateMessage { content, channel_id: Some(place) }, other, other),
            named.0,
        ),
        call_ensures(
            handle_act,
            (Act::AssignRole { role_id, user_id, server_id: Some(place), reason }, other, other),
            named.1,
        ),
        call_ensures(
            handle_act,
            (Act::RemoveRole { role_id, user_id, server_id: Some(place), reason }, other, other),
            named.2,
        ),
    ensures
        unnamed == named,
{
}

/// A staged act is carried out like the act itself under the stage's defaults.
pub proof fn law_stage_is_carried_out(
    stage: Stage,
    r: Result<Call, ActError>,
    direct: Result<Call, ActError>,
)
    requires
        call_ensures(send_to_discord, (stage,), r),
        call_ensures(
            handle_act,
            (stage.act, stage.default_server_id, stage.default_channel_id),
            direct,
        ),
    ensures
        r == direct,
{
}

/// Whether the patterns in use make a command of a text: there is one that commands match, and the
/// text matches it.
pub open spec fn is_command(
    patterns: Option<(Seq<char>, Option<Seq<char>>)>,
    content: Seq<char>,
) -> bool {
    patterns is Some && regex_matches((patterns->0).0, content)
}

/// Whether words are those of a command: what the second pattern captures in the text, or none
/// without one.
pub open spec fn are_words(
    words: Seq<String>,
    patterns: Option<(Seq<char>, Option<Seq<char>>)>,
    content: Seq<char>,
) -> bool {
    &&& (patterns->0).1 is None ==> words.len() == 0
    &&& (patterns->0).1 matches Some(p) ==> {
        let captured = words_of_matches(regex_captures(p, content));
        &&& words.len() == captured.len()
        &&& forall|i: int| 0 <= i < words.len() ==> (#[trigger] words[i])@ == captured[i]
    }
}

/// Texts that are equal as lists are equal one by one.
pub(crate) proof fn lemma_same_texts(words: Seq<String>, captured: Seq<Seq<char>>)
    requires
        crate::text::texts(words) == captured,
    ensures
        words.len() == captured.len(),
        forall|i: int| 0 <= i < words.len() ==> (#[trigger] words[i])@ == captured[i],
{
    assert(crate::text::texts(words).len() == words.len());
    assert forall|i: int| 0 <= i < words.len() implies (#[trigger] words[i])@ == captured[i] by {
        assert(crate::text::texts(words)[i] == words[i]@);
    }
}

/// A text is a command where it matches the first pattern, with the words that the second captures.
pub proof fn law_parsed_command(target: &Client, content: &str, r: Option<Vec<String>>)
    requires
        call_ensures(Client::parse_command, (target, content), r),
    ensures
        r is Some <==> is_command(target.patterns(), content@),
        r is Some ==> are_words(r->0@, target.patterns(), content@),
{
    if r is Some {
        lemma_same_texts(
            r->0@,
            crate::command::command_under(target.patterns(), content@)->0,
        );
    }
}

/// Whether a pattern is given that is no regular expression.
pub open spec fn is_bad(pattern: Option<String>) -> bool {
    pattern is Some && !regex_compiles(pattern->0@)
}

/// Whether the patterns in use are the given ones: both where the first is given, and none where it
/// is not.
pub open spec fn uses(
    patterns: Option<(Seq<char>, Option<Seq<char>>)>,
    command_match: Option<String>,
    command_parse: Option<String>,
) -> bool {
    &&& patterns is Some <==> command_match is Some
    &&& patterns matches Some(p) ==> p.0 == command_match->0@ && (p.1 is Some
        <==> command_parse is Some) && (p.1 is Some ==> p.1->0 == command_parse->0@)
}

/// A client has the base and the patterns that it was made with; the second pattern is of no use
/// without the first.
pub proof fn law_client_keeps_its_settings(
    base: String,
    command_match: Option<String>,
    command_parse: Option<String>,
    r: Client,
)
    requires
        call_ensures(Client::new, (base, command_match, command_parse), r),
    ensures
        r.base() == base@,
        uses(r.patterns(), command_match, command_parse),
{
}

/// A client is made exactly where both patterns can be compiled, as far as they are given; of two
/// bad ones the first is told.
pub proof fn law_client_needs_good_patterns(
    base: String,
    command_match: Option<String>,
    command_parse: Option<String>,
    r: Result<Client, BadPattern>,
)
    requires
        call_ensures(Client::try_new, (base, command_match, command_parse), r),
    ensures
        r is Ok <==> !is_bad(command_match) && !is_bad(command_parse),
        is_bad(command_match) ==> r->Err_0 is CommandMatch,
        !is_bad(command_match) && is_bad(command_parse) ==> r->Err_0 is CommandParse,
        r matches Ok(c) ==> c.base() == base@ && uses(c.patterns(), command_match, command_parse),
{
}

/// The words of a match are the texts of its groups but the first, without those that took no part.
pub proof fn law_words_of_a_match(groups: Seq<Option<Seq<char>>>, word: Seq<char>)
    ensures
        groups.len() <= 1 ==> words_of_match(groups).len() == 0,
        groups.len() >= 1 ==> words_of_match(groups.push(None)) == words_of_match(groups),
        groups.len() >= 1 ==> words_of_match(groups.push(Some(word))) == words_of_match(
            groups,
        ).push(word),
{
    assert(groups.push(None).drop_last() == groups);
    assert(groups.push(Some(word)).drop_last() == groups);
}

/// The words of several matches are those of each, one match after the other.
pub proof fn law_words_of_matches(
    a: Seq<Seq<Option<Seq<char>>>>,
    b: Seq<Seq<Option<Seq<char>>>>,
    groups: Seq<Option<Seq<char>>>,
)
    ensures
        words_of_matches(seq![]).len() == 0,
        words_of_matches(seq![groups]) == words_of_match(groups),
        words_of_matches(a + b) == words_of_matches(a) + words_of_matches(b),
    decreases b.len(),
{
    let none = Seq::<Seq<Option<Seq<char>>>>::empty();
    assert(seq![groups].drop_last() == none);
    assert(words_of_matches(none) + words_of_match(groups) == words_of_match(groups));
    if b.len() == 0 {
        assert(a + b == a);
        assert(words_of_matches(a) + words_of_matches(b) == words_of_matches(a));
    } else {
        law_words_of_matches(a, b.drop_last(), groups);
        assert((a + b).drop_last() == a + b.drop_last());
        assert((a + b).last() == b.last());
        assert(words_of_matches(a) + words_of_matches(b.drop_last()) + words_of_match(b.last())
            == words_of_matches(a) + (words_of_matches(b.drop_last()) + words_of_match(b.last())));
    }
}

/// Whether a message is a command is for its contents and the patterns alone to say, and so are the
/// words; whether it is told as one in a server is for its server to say. It is told as Discord has
/// it, and on behalf of its own server and channel.
pub proof fn law_message_is_dispatched(
    target: &Client,
    shard_id: u64,
    message: Message,
    r: Option<Dispatch>,
)
    requires
        call_ensures(try_event, (target, shard_id, &Event::MessageCreate(message)), r),
    ensures
        r is Some,
        r->0.from_server == message.guild_id,
        r->0.from_channel == Some(message.channel_id),
        ({
            let p = r->0.payload;
            let command = is_command(target.patterns(), message.content@);
            let server = message.guild_id is Some;
            &&& p is ServerCommand <==> server && command
            &&& p is ServerMessage <==> server && !command
            &&& p is DirectCommand <==> !server && command
            &&& p is DirectMessage <==> !server && !command
            &&& p matches Payload::ServerCommand(c) ==> tells_server_message(c.message, message)
                && are_words(c.command@, target.patterns(), message.content@)
            &&& p matches Payload::ServerMessage(m) ==> tells_server_message(m, message)
            &&& p matches Payload::DirectCommand(c) ==> tells_direct_message(c.message, message)
                && are_words(c.command@, target.patterns(), message.content@)
            &&& p matches Payload::DirectMessage(m) ==> tells_direct_message(m, message)
        }),
{
    let event = Event::MessageCreate(message);
    let words = crate::forward::event_command(target.patterns(), event);
    assert(crate::forward::is_dispatch_for(r, shard_id, event, words));
    match r->0.payload {
        Payload::ServerCommand(c) => {
            lemma_tells_server_message(c.message, message);
            lemma_same_texts(c.command@, words->0);
        },
        Payload::ServerMessage(m) => {
            lemma_tells_server_message(m, message);
        },
        Payload::DirectCommand(c) => {
            lemma_tells_direct_message(c.message, message);
            lemma_same_texts(c.command@, words->0);
        },
        Payload::DirectMessage(m) => {
            lemma_tells_direct_message(m, message);
        },
        _ => {},
    }
}

/// The words that a payload is a command with, if it is one.
pub open spec fn payload_words(payload: Payload) -> Option<Seq<String>> {
    match payload {
        Payload::ServerCommand(c) => Some(c.command@),
        Payload::DirectCommand(c) => Some(c.command@),
        _ => None,
    }
}

/// Messages with the same contents are commands with the same words, or none of them is one,
/// whatever else they hold.
pub proof fn law_same_contents_same_words(
    target: &Client,
    shard_a: u64,
    shard_b: u64,
    a: Message,
    b: Message,
    r: Option<Dispatch>,
    s: Option<Dispatch>,
)
    requires
        a.content@ == b.content@,
        call_ensures(try_event, (target, shard_a, &Event::MessageCreate(a)), r),
        call_ensures(try_event, (target, shard_b, &Event::MessageCreate(b)), s),
    ensures
        r is Some && s is Some,
        match (payload_words(r->0.payload), payload_words(s->0.payload)) {
            (Some(x), Some(y)) => x.len() == y.len() && forall|i: int|
                0 <= i < x.len() ==> (#[trigger] x[i])@ == y[i]@,
            (None, None) => true,
            _ => false,
        },
{
    law_message_is_dispatched(target, shard_a, a, r);
    law_message_is_dispatched(target, shard_b, b, s);
}

/// A join is told of the member that joined, on behalf of its server.
pub proof fn law_join_is_dispatched(
    target: &Client,
    shard_id: u64,
    member: discord::Member,
    r: Option<Dispatch>,
)
    requires
        call_ensures(try_event, (target, shard_id, &Event::MemberAdd(member)), r),
    ensures
        r is Some,
        r->0.from_server == Some(member.guild_id),
        r->0.from_channel is None,
        r->0.payload matches Payload::ServerJoin(j) && tells_user(j.0.user, member.user)
            && j.0.server_id == member.guild_id && j.0.roles is Some && j.0.roles->0@
            == member.roles@ && same_text(j.0.pseudonym, member.nick),
{
    let event = Event::MemberAdd(member);
    assert(crate::forward::is_dispatch_for(
        r,
        shard_id,
        event,
        crate::forward::event_command(target.patterns(), event),
    ));
    let j = r->0.payload->ServerJoin_0;
    assert(j.0@.user.name == member@.user.name);
}

/// A connection is told with its shard, on behalf of no one, and other events are not told.
pub proof fn law_connection_is_dispatched(
    target: &Client,
    shard_id: u64,
    r: Option<Dispatch>,
    other: Option<Dispatch>,
)
    requires
        call_ensures(try_event, (target, shard_id, &Event::ShardConnected), r),
        call_ensures(try_event, (target, shard_id, &Event::Other), other),
    ensures
        r is Some,
        r->0.from_server is None,
        r->0.from_channel is None,
        r->0.payload matches Payload::Connected(c) && c.shard == shard_id,
        other is None,
{
}

/// What is made of an event once the words of its command are known is what is made of it at once.
pub proof fn law_dispatch_by_words(
    shard_id: u64,
    message: Message,
    words: Option<Vec<String>>,
    r: Option<Dispatch>,
)
    requires
        call_ensures(dispatch_event, (shard_id, &Event::MessageCreate(message), words), r),
    ensures
        r is Some,
        r->0.from_server == message.guild_id,
        r->0.from_channel == Some(message.channel_id),
        ({
            let p = r->0.payload;
            let server = message.guild_id is Some;
            &&& p is ServerCommand <==> server && words is Some
            &&& p is ServerMessage <==> server && words is None
            &&& p is DirectCommand <==> !server && words is Some
            &&& p is DirectMessage <==> !server && words is None
            &&& payload_words(p) matches Some(w) ==> w.len() == words->0@.len() && forall|i: int|
                0 <= i < w.len() ==> (#[trigger] w[i])@ == words->0@[i]@
            &&& p matches Payload::ServerCommand(c) ==> tells_server_message(c.message, message)
            &&& p matches Payload::ServerMessage(m) ==> tells_server_message(m, message)
            &&& p matches Payload::DirectCommand(c) ==> tells_direct_message(c.message, message)
            &&& p matches Payload::DirectMessage(m) ==> tells_direct_message(m, message)
        }),
{
    let event = Event::MessageCreate(message);
    assert(crate::forward::is_dispatch_for(
        r,
        shard_id,
        event,
        crate::command::opt_texts(words),
    ));
    if words is Some {
        assert forall|i: int| 0 <= i < words->0@.len() implies crate::text::texts(
            words->0@,
        )[i] == #[trigger] words->0@[i]@ by {}
        lemma_same_texts(payload_words(r->0.payload)->0, crate::text::texts(words->0@));
    }
    match r->0.payload {
        Payload::ServerCommand(c) => {
            lemma_tells_server_message(c.message, message);
        },
        Payload::ServerMessage(m) => {
            lemma_tells_server_message(m, message);
        },
        Payload::DirectCommand(c) => {
            lemma_tells_direct_message(c.message, message);
        },
        Payload::DirectMessage(m) => {
            lemma_tells_direct_message(m, message);
        },
        _ => {},
    }
}

/// A presence is taken from a success whose content is JSON, and from nothing else.
pub proof fn law_presence_is_offered(
    status: u16,
    headers: &HeaderMap<HeaderValue>,
    text: Seq<char>,
    r: bool,
)
    requires
        call_ensures(offers_presence, (status, headers), r),
    ensures
        r ==> 200 <= status <= 299,
        leading_value(*headers, "content-type"@) is None ==> !r,
        leading_value(*headers, "content-type"@) matches Some(v) && unprintable(v) ==> !r,
        leading_value(*headers, "content-type"@) matches Some(v) && spells(v, text) ==> r == (200
            <= status <= 299 && media_equal(text, "application/json"@)),
{
    if let Some(v) = leading_value(*headers, "content-type"@) {
        if unprintable(v) {
            lemma_unprintable(v);
        }
        if spells(v, text) {
            lemma_spelt(v, text);
        }
    }
}

/// The same, once it is known whether the content is JSON.
pub proof fn law_presence_is_taken(status: u16, json: bool, r: bool)
    requires
        call_ensures(takes_presence, (status, json), r),
    ensures
        r <==> json && 200 <= status <= 299,
{
}

/// Whether an activity is shown as the target wants it.
pub open spec fn shows(shown: discord::Activity, wanted: Activity) -> bool {
    &&& wanted matches Activity::Playing { name } ==> shown.kind is Playing && shown.name@ == name@
    &&& wanted matches Activity::Streaming { name } ==> shown.kind is Streaming && shown.name@
        == name@
    &&& wanted matches Activity::Listening { name } ==> shown.kind is Listening && shown.name@
        == name@
    &&& wanted matches Activity::Watching { name } ==> shown.kind is Watching && shown.name@
        == name@
    &&& wanted matches Activity::Custom { name } ==> shown.kind is Custom && shown.name@ == name@
}

/// The bot takes on the presence that the target wants; it is away and online where the target does
/// not say, and shows one activity or none.
pub proof fn law_presence_is_taken_on(presence: Presence, r: UpdateStatusInfo)
    requires
        call_ensures(update_status, (presence,), r),
    ensures
        presence.afk is Some ==> r.afk == presence.afk->0,
        presence.afk is None ==> r.afk,
        r.since == presence.since,
        presence.status is Some ==> r.status == presence.status->0,
        presence.status is None ==> r.status is Online,
        r.activities is Some <==> presence.activity is Some,
        r.activities matches Some(shown) ==> shown@.len() == 1 && shows(
            shown@[0],
            presence.activity->0,
        ),
{
}

/// What is missing is said: a server or a channel.
pub proof fn law_missing_is_said(
    server: &MissingServer,
    channel: &MissingChannel,
    a: String,
    b: String,
)
    requires
        call_ensures(MissingServer::to_string, (server,), a),
        call_ensures(MissingChannel::to_string, (channel,), b),
    ensures
        a@ == "no server information available"@,
        b@ == "no channel information available"@,
{
}

/// Of the errors of three parts the last is returned, and those before it are reported, in order.
pub proof fn law_last_error_is_returned<E>(
    player: Result<(), E>,
    server: Result<(), E>,
    worker: Result<(), E>,
    r: (Vec<E>, Result<(), E>),
)
    requires
        call_ensures(settle::<E>, (player, server, worker), r),
    ensures
        r.1 is Ok <==> player is Ok && server is Ok && worker is Ok,
        worker matches Err(e) ==> r.1 == Err::<(), E>(e),
        worker is Ok && server is Err ==> r.1 == Err::<(), E>(server->Err_0),
        worker is Ok && server is Ok && player is Err ==> r.1 == Err::<(), E>(player->Err_0),
        ({
            let reports_player = player is Err && (server is Err || worker is Err);
            let reports_server = server is Err && worker is Err;
            &&& reports_player && reports_server ==> r.0@ == seq![player->Err_0, server->Err_0]
            &&& reports_player && !reports_server ==> r.0@ == seq![player->Err_0]
            &&& !reports_player && reports_server ==> r.0@ == seq![server->Err_0]
            &&& !reports_player && !reports_server ==> r.0@.len() == 0
        }),
{
    let errors = crate::outcome::errors_of(player, server, worker);
    if player is Err && server is Err && worker is Err {
        assert(errors == seq![player->Err_0, server->Err_0, worker->Err_0]);
    } else if player is Err && server is Err {
        assert(errors == seq![player->Err_0, server->Err_0]);
    } else if player is Err && worker is Err {
        assert(errors == seq![player->Err_0, worker->Err_0]);
    } else if server is Err && worker is Err {
        assert(errors == seq![server->Err_0, worker->Err_0]);
    }
}

/// A summoned message is created on shard 0 and stands for the one that it was summoned by.
pub proof fn law_ghosts_stand_for_messages(
    message: &ServerMessage,
    direct: &DirectMessage,
    r: (u64, Event),
    s: (u64, Event),
)
    requires
        call_ensures(summon_server, (message,), r),
        call_ensures(summon_direct, (direct,), s),
    ensures
        r.0 == 0 && s.0 == 0,
        r.1 matches Event::MessageCreate(m) && stands_for_server_message(m, *message),
        s.1 matches Event::MessageCreate(m) && stands_for_direct_message(m, *direct),
{
    lemma_stands_for_server_message(r.1->MessageCreate_0, *message);
    lemma_stands_for_direct_message(s.1->MessageCreate_0, *direct);
}

/// An event that is no message is told in the same way whatever words are given.
pub proof fn law_other_dispatches(
    shard_id: u64,
    event: &Event,
    words: Option<Vec<String>>,
    r: Option<Dispatch>,
)
    requires
        call_ensures(dispatch_event, (shard_id, event, words), r),
    ensures
        *event matches Event::MemberAdd(member) ==> r is Some && r->0.from_server == Some(
            member.guild_id,
        ) && r->0.from_channel is None && (r->0.payload matches Payload::ServerJoin(j)
            && tells_user(j.0.user, member.user) && j.0.server_id == member.guild_id
            && j.0.roles is Some && j.0.roles->0@ == member.roles@ && same_text(
            j.0.pseudonym,
            member.nick,
        )),
        event is ShardConnected ==> r is Some && r->0.from_server is None
            && r->0.from_channel is None && (r->0.payload matches Payload::Connected(c) && c.shard
            == shard_id),
        event is Other ==> r is None,
{
    if let Event::MemberAdd(member) = event {
        let j = r->0.payload->ServerJoin_0;
        assert(j.0@.user.name == member@.user.name);
    }
}

/// Patterns are used as they are given, and a bad one is told, of two the first.
pub proof fn law_patterns(
    command_match: Option<String>,
    command_parse: Option<String>,
    made: Commands,
    bad: Option<BadPattern>,
)
    requires
        call_ensures(Commands::new, (command_match, command_parse), made),
        call_ensures(Commands::bad_pattern, (&command_match, &command_parse), bad),
    ensures
        uses(made@, command_match, command_parse),
        bad is None <==> !is_bad(command_match) && !is_bad(command_parse),
        bad == Some(BadPattern::CommandMatch) <==> is_bad(command_match),
        bad == Some(BadPattern::CommandParse) <==> !is_bad(command_match) && is_bad(command_parse),
{
}

/// A text is a command under patterns where it matches the first, with the words that the second
/// captures.
pub proof fn law_command_under_patterns(commands: &Commands, content: &str, r: Option<Vec<String>>)
    requires
        call_ensures(Commands::parse_command, (commands, content), r),
    ensures
        r is Some <==> is_command(commands@, content@),
        r is Some ==> are_words(r->0@, commands@, content@),
{
    if r is Some {
        lemma_same_texts(r->0@, crate::command::command_under(commands@, content@)->0);
    }
}

/// What is no command has no words at all, not even where a pattern captures some; what is one has
/// those of all matches, and none where there is nothing to take it apart with.
pub proof fn law_assembled_command(
    is_command: bool,
    matches: Option<Vec<Vec<Option<String>>>>,
    r: Option<Vec<String>>,
)
    requires
        call_ensures(assemble_command, (is_command, matches), r),
    ensures
        r is Some <==> is_command,
        is_command && matches is None ==> r->0@.len() == 0,
        is_command && matches is Some ==> crate::text::texts(r->0@) == words_of_matches(
            crate::command::match_texts(matches->0@),
        ),
{
    if r is Some {
        assert(crate::text::texts(r->0@).len() == r->0@.len());
    }
}

/// A match with one more group has one more word where the group took part, at the end; the first
/// group is never a word. A further match has its words behind those of the matches before it.
pub proof fn law_words_are_collected(
    before: &Vec<Vec<Option<String>>>,
    single: &Vec<Vec<Option<String>>>,
    after: &Vec<Vec<Option<String>>>,
    a: Vec<String>,
    b: Vec<String>,
    c: Vec<String>,
)
    requires
        call_ensures(command_words, (before,), a),
        call_ensures(command_words, (single,), b),
        call_ensures(command_words, (after,), c),
        after@ == before@ + single@,
        single@.len() == 1,
    ensures
        crate::text::texts(c@) == crate::text::texts(a@) + crate::text::texts(b@),
        single@[0]@.len() <= 1 ==> b@.len() == 0,
        single@[0]@.len() == 2 && single@[0]@[1] is None ==> b@.len() == 0,
        single@[0]@.len() == 2 && single@[0]@[1] is Some ==> b@.len() == 1 && b@[0]@
            == single@[0]@[1]->0@,
{
    let groups = crate::command::group_texts(single@[0]@);
    let x = crate::command::match_texts(before@);
    let y = crate::command::match_texts(single@);
    assert(crate::command::match_texts(after@) == x + y);
    assert(y == seq![groups]);
    law_words_of_matches(x, y, groups);
    assert(crate::text::texts(b@).len() == b@.len());
    assert(groups.len() == single@[0]@.len());
    if groups.len() == 2 {
        let front = groups.take(1);
        law_words_of_a_match(front, single@[0]@[1]->0@);
        assert(groups[1] == crate::text::opt_text(single@[0]@[1]));
        assert(groups == front.push(groups[1]));
    }
    law_words_of_a_match(groups, seq![]);
    if b@.len() > 0 {
        assert(crate::text::texts(b@)[0] == b@[0]@);
    }
}

} // verus!
