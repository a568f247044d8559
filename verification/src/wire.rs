//! The HTTP side of the bridge: requests to the target and the fields of its responses.

use isahc::http::header::{HeaderName, HeaderValue};
use isahc::http::{HeaderMap, Uri};
use mime::Mime;
use std::str::FromStr;
use vstd::prelude::*;
use vstd::utf8::encode_utf8;

use crate::text::{opt_text, parse_number, parsed_number};

verus! {

/// `isahc::http::HeaderMap`, the header fields of a message.
#[verifier::external_type_specification]
#[verifier::external_body]
#[verifier::reject_recursive_types(T)]
pub struct ExHeaderMap<T>(HeaderMap<T>);

/// `isahc::http::HeaderValue`, the value of one header field.
#[verifier::external_type_specification]
#[verifier::external_body]
pub struct ExHeaderValue(HeaderValue);

/// The bytes of every field of a header map, in order, under the field's name in lower case.
pub uninterp spec fn header_entries(headers: HeaderMap<HeaderValue>) -> Map<Seq<char>, Seq<Seq<u8>>>;

/// Whether a text is a field name in lower case: letters and hyphens, at least one.
pub open spec fn is_field_name(name: Seq<char>) -> bool {
    &&& 0 < name.len() < 64
    &&& forall|i: int| 0 <= i < name.len() ==> 'a' <= #[trigger] name[i] <= 'z' || name[i] == '-'
}

/// The first value of a field.
pub open spec fn first_value(entries: Map<Seq<char>, Seq<Seq<u8>>>, name: Seq<char>) -> Option<
    Seq<u8>,
> {
    if entries.dom().contains(name) && entries[name].len() > 0 {
        Some(entries[name][0])
    } else {
        None
    }
}

/// `HeaderMap::get` gives the first value of a field, where it has one.
#[verifier::external_body]
fn header_value(headers: &HeaderMap<HeaderValue>, name: &str) -> (r: Option<Vec<u8>>)
    requires
        is_field_name(name@),
    ensures
        match (r, first_value(header_entries(*headers), name@)) {
            (Some(v), Some(w)) => v@ == w,
            (None, None) => true,
            _ => false,
        },
{
    headers.get(name).map(|value| value.as_bytes().to_vec())
}

/// Whether a byte is a visible ASCII character, a space or a tab.
pub open spec fn is_visible(b: u8) -> bool {
    32 <= b < 127 || b == 9
}

/// The text of a field's value, where all its bytes are visible.
pub open spec fn visible_text(value: Seq<u8>) -> Option<Seq<char>> {
    if forall|i: int| 0 <= i < value.len() ==> is_visible(#[trigger] value[i]) {
        Some(value.map_values(|b: u8| b as char))
    } else {
        None
    }
}

/// `HeaderValue::to_str` gives the text of a value that holds only visible ASCII characters,
/// spaces and tabs, and fails on any other; `HeaderValue::from_bytes`, which makes the value of its
/// bytes, fails on none of the former.
#[verifier::external_body]
fn header_text(value: &Vec<u8>) -> (r: Option<String>)
    ensures
        match (r, visible_text(value@)) {
            (Some(s), Some(t)) => s@ == t,
            (None, None) => true,
            _ => false,
        },
{
    HeaderValue::from_bytes(value).ok()?.to_str().ok().map(|text| text.to_string())
}

/// The text of a field: that of its first value, where the field is there and its first value is
/// visible.
pub open spec fn field_text(entries: Map<Seq<char>, Seq<Seq<u8>>>, name: Seq<char>) -> Option<
    Seq<char>,
> {
    match first_value(entries, name) {
        Some(value) => visible_text(value),
        None => None,
    }
}

/// Reads the text of a field.
pub(crate) fn field(headers: &HeaderMap<HeaderValue>, name: &str) -> (r: Option<String>)
    requires
        is_field_name(name@),
    ensures
        opt_text(r) == field_text(header_entries(*headers), name@),
{
    match header_value(headers, name) {
        Some(value) => header_text(&value),
        None => None,
    }
}

/// The number in a field, where its text is a number no larger than `max`.
pub open spec fn field_number(
    entries: Map<Seq<char>, Seq<Seq<u8>>>,
    name: Seq<char>,
    max: u64,
) -> Option<u64> {
    match field_text(entries, name) {
        Some(text) => parsed_number(text, max),
        None => None,
    }
}

/// Reads the number in a field.
pub(crate) fn number_field(headers: &HeaderMap<HeaderValue>, name: &str, max: u64) -> (r: Option<u64>)
    requires
        is_field_name(name@),
    ensures
        r == field_number(header_entries(*headers), name@, max),
{
    match field(headers, name) {
        Some(text) => parse_number(text.as_str(), max),
        None => None,
    }
}

/// The type and the subtype of a media type's text, where the text is one.
pub uninterp spec fn media_names(text: Seq<char>) -> Option<(Seq<char>, Seq<char>)>;

/// Whether a text is made of lower case letters and hyphens, at least one.
pub open spec fn is_plain_word(s: Seq<char>) -> bool {
    &&& s.len() > 0
    &&& forall|i: int| 0 <= i < s.len() ==> 'a' <= #[trigger] s[i] <= 'z' || s[i] == '-'
}

/// Whether a text is a type and a subtype in plain words with a slash between them.
pub open spec fn is_plain_media(text: Seq<char>, kind: Seq<char>, sub: Seq<char>) -> bool {
    is_plain_word(kind) && is_plain_word(sub) && text == kind.push('/') + sub
}

/// `Mime::from_str` parses a media type, and `type_` and `subtype` give its two names in lower
/// case, without a suffix or parameters. A type and a subtype in plain words are given back as
/// they stand.
#[verifier::external_body]
pub(crate) fn parse_media(text: &str) -> (r: Option<(String, String)>)
    ensures
        match (r, media_names(text@)) {
            (Some(names), Some(named)) => names.0@ == named.0 && names.1@ == named.1,
            (None, None) => true,
            _ => false,
        },
        forall|kind: Seq<char>, sub: Seq<char>| #[trigger]
            is_plain_media(text@, kind, sub) ==> match r {
                Some(names) => names.0@ == kind && names.1@ == sub,
                None => false,
            },
{
    Mime::from_str(text).ok().map(|m| (m.type_().to_string(), m.subtype().to_string()))
}

/// Whether two texts are media types that are equal, parameters and all.
pub uninterp spec fn media_equal(a: Seq<char>, b: Seq<char>) -> bool;

/// `Mime::from_str` and `==`: whether a text is a media type, and the same one as `b`, which is in
/// plain words. Two media types in plain words are the same where their texts are.
#[verifier::external_body]
pub(crate) fn same_media(a: &str, b: &str) -> (r: bool)
    requires
        exists|kind: Seq<char>, sub: Seq<char>| is_plain_media(b@, kind, sub),
    ensures
        r == media_equal(a@, b@),
        r ==> media_names(a@) is Some,
        forall|kind: Seq<char>, sub: Seq<char>| #[trigger]
            is_plain_media(a@, kind, sub) ==> r == (a@ == b@),
{
    match (Mime::from_str(a), Mime::from_str(b)) {
        (Ok(x), Ok(y)) => x == y,
        _ => false,
    }
}

/// The methods that the bridge uses.
#[derive(Clone, Copy, Debug, PartialEq, Eq, Structural)]
pub enum Method {
    Get,
    Post,
}

/// A request without its body: where it goes and the header fields, in the order in which they
/// were added.
#[derive(Debug)]
pub struct RequestBuilder {
    pub method: Method,
    pub uri: String,
    pub headers: Vec<(String, String)>,
}

/// What a [`RequestBuilder`] holds.
#[verifier::ext_equal]
pub struct RequestView {
    pub method: Method,
    pub uri: Seq<char>,
    pub headers: Seq<(Seq<char>, Seq<char>)>,
}

/// The names and values of header fields.
pub open spec fn header_pairs(headers: Seq<(String, String)>) -> Seq<(Seq<char>, Seq<char>)> {
    headers.map_values(|h: (String, String)| (h.0@, h.1@))
}

impl View for RequestBuilder {
    type V = RequestView;

    open spec fn view(&self) -> RequestView {
        RequestView {
            method: self.method,
            uri: self.uri@,
            headers: header_pairs(self.headers@),
        }
    }
}

impl RequestView {
    /// The request with more header fields at the end.
    pub open spec fn plus(self, headers: Seq<(Seq<char>, Seq<char>)>) -> RequestView {
        RequestView { method: self.method, uri: self.uri, headers: self.headers + headers }
    }
}

impl RequestBuilder {
    /// A request without header fields.
    pub fn new(method: Method, uri: String) -> (r: Self)
        ensures
            r@ == (RequestView { method: method, uri: uri@, headers: seq![] }),
    {
        RequestBuilder { method, uri, headers: Vec::new() }
    }

    /// Adds one header field at the end.
    pub fn header(self, name: &str, value: String) -> (r: Self)
        ensures
            r@ == self@.plus(seq![(name@, value@)]),
    {
        let mut headers: Vec<(String, String)> = self.headers;
        headers.push((name.to_owned(), value));
        let r: RequestBuilder = RequestBuilder { method: self.method, uri: self.uri, headers };
        assert(r@.headers == self@.headers + seq![(name@, value@)]);
        r
    }
}

/// Whether a character may stand in a header field's name.
pub open spec fn is_name_char(c: char) -> bool {
    ||| '0' <= c <= '9'
    ||| 'a' <= c <= 'z'
    ||| 'A' <= c <= 'Z'
    ||| '!' <= c <= '\''
    ||| c == '*' || c == '+' || c == '-' || c == '.' || c == '^' || c == '_' || c == '`' || c == '|'
        || c == '~'
}

/// Whether a text is the name of a header field.
pub open spec fn valid_name(name: Seq<char>) -> bool {
    &&& 1 <= name.len() <= 0xffff
    &&& forall|i: int| 0 <= i < name.len() ==> is_name_char(#[trigger] name[i])
}

/// Whether a character may stand in a header field's value: any but the control characters, of
/// which only the tab may.
pub open spec fn is_value_char(c: char) -> bool {
    ' ' <= c && c != '\x7f' || c == '\t'
}

/// Whether a text is the value of a header field.
pub open spec fn valid_value(value: Seq<char>) -> bool {
    forall|i: int| 0 <= i < value.len() ==> is_value_char(#[trigger] value[i])
}

/// Whether a text is a URI.
pub uninterp spec fn uri_parses(uri: Seq<char>) -> bool;

/// `HeaderName::from_bytes` accepts 1 to 65535 bytes that all may stand in a name.
#[verifier::external_body]
fn name_accepted(name: &str) -> (r: bool)
    ensures
        r == valid_name(name@),
{
    HeaderName::from_bytes(name.as_bytes()).is_ok()
}

/// `HeaderValue::from_str` accepts a text without control characters other than the tab.
#[verifier::external_body]
fn value_accepted(value: &str) -> (r: bool)
    ensures
        r == valid_value(value@),
{
    HeaderValue::from_str(value).is_ok()
}

/// `Uri::from_str` accepts a text that is a URI.
#[verifier::external_body]
pub(crate) fn uri_accepted(uri: &str) -> (r: bool)
    ensures
        r == uri_parses(uri@),
{
    Uri::from_str(uri).is_ok()
}

/// Why a request cannot be made.
#[derive(Clone, Copy, Debug, PartialEq, Eq, Structural)]
pub enum RequestError {
    InvalidUri,
    InvalidHeaderName,
    InvalidHeaderValue,
    TooManyHeaders,
}

/// A letter in lower case.
pub open spec fn lower_char(c: char) -> char {
    if 'A' <= c <= 'Z' {
        (c as int + 32) as char
    } else {
        c
    }
}

/// A field's name in lower case, by which fields are told apart.
pub open spec fn field_key(name: Seq<char>) -> Seq<char> {
    name.map_values(|c: char| lower_char(c))
}

/// Header entries with one more value of a field, after those that it has.
pub open spec fn with_field(
    entries: Map<Seq<char>, Seq<Seq<u8>>>,
    key: Seq<char>,
    value: Seq<u8>,
) -> Map<Seq<char>, Seq<Seq<u8>>> {
    let before = if entries.dom().contains(key) {
        entries[key]
    } else {
        seq![]
    };
    entries.insert(key, before.push(value))
}

/// The number of differently named fields up to which a header map takes every further field.
pub const SURE_NAMES: usize = 6553;

/// The number of differently named fields at which a header map takes no further field.
pub const MOST_NAMES: usize = 24576;

/// `HeaderMap::new` is a map without any field.
#[verifier::external_body]
fn no_fields() -> (r: HeaderMap<HeaderValue>)
    ensures
        header_entries(r).dom() == Set::<Seq<char>>::empty(),
{
    HeaderMap::new()
}

/// `HeaderMap::try_append` puts a value behind those of the field, or fails and leaves the fields
/// as they are. It never fails on a map of up to 6553 names, and always on one of 24576, whatever
/// the field. In between it fails where too many names fall on the same hashes, of which nothing is
/// said.
#[verifier::external_body]
fn append_field(headers: &mut HeaderMap<HeaderValue>, name: &str, value: &str) -> (r: bool)
    requires
        valid_name(name@),
        valid_value(value@),
    ensures
        header_entries(*final(headers)) == (if r {
            with_field(header_entries(*old(headers)), field_key(name@), encode_utf8(value@))
        } else {
            header_entries(*old(headers))
        }),
        header_entries(*old(headers)).dom().len() <= SURE_NAMES ==> r,
        header_entries(*old(headers)).dom().len() >= MOST_NAMES ==> !r,
{
    let name = HeaderName::from_bytes(name.as_bytes()).unwrap();
    let value = HeaderValue::from_str(value).unwrap();
    headers.try_append(name, value).is_ok()
}

/// What is wrong with the first bad header field.
pub open spec fn header_fault(headers: Seq<(Seq<char>, Seq<char>)>) -> Option<RequestError>
    decreases headers.len(),
{
    if headers.len() == 0 {
        None
    } else if !valid_name(headers[0].0) {
        Some(RequestError::InvalidHeaderName)
    } else if !valid_value(headers[0].1) {
        Some(RequestError::InvalidHeaderValue)
    } else {
        header_fault(headers.skip(1))
    }
}

/// What goes wrong first when header fields are put in a map that takes a given number of them:
/// a bad field, or a good one that there is no room for.
pub open spec fn crowd_fault(headers: Seq<(Seq<char>, Seq<char>)>, room: int) -> Option<RequestError>
    decreases headers.len(),
{
    if headers.len() == 0 {
        None
    } else if !valid_name(headers[0].0) {
        Some(RequestError::InvalidHeaderName)
    } else if !valid_value(headers[0].1) {
        Some(RequestError::InvalidHeaderValue)
    } else if room <= 0 {
        Some(RequestError::TooManyHeaders)
    } else {
        crowd_fault(headers.skip(1), room - 1)
    }
}

/// What is wrong with a request: first its URI, then its header fields in order, of which a map
/// takes a given number.
pub open spec fn request_fault(req: RequestView, uri_ok: bool, room: int) -> Option<RequestError> {
    if !uri_ok {
        Some(RequestError::InvalidUri)
    } else {
        crowd_fault(req.headers, room)
    }
}

/// The different names of header fields.
pub open spec fn name_set(headers: Seq<(Seq<char>, Seq<char>)>) -> Set<Seq<char>> {
    headers.map_values(|h: (Seq<char>, Seq<char>)| field_key(h.0)).to_set()
}

/// Whether a number of header fields, from the first one on, can be all that a map takes: it is not
/// full before the last of them, and the next field is either none, a bad one, or one too many.
pub open spec fn may_hold(headers: Seq<(Seq<char>, Seq<char>)>, room: int) -> bool {
    &&& 0 <= room <= headers.len()
    &&& forall|i: int| 0 <= i < room ==> name_set(#[trigger] headers.take(i)).len() < MOST_NAMES
    &&& room < headers.len() && valid_name(headers[room].0) && valid_value(headers[room].1)
        ==> name_set(headers.take(room)).len() > SURE_NAMES
}

/// Whether something, or nothing, can be what is wrong with a request.
pub open spec fn may_fault(req: RequestView, uri_ok: bool, fault: Option<RequestError>) -> bool {
    exists|room: int| #[trigger]
        may_hold(req.headers, room) && fault == request_fault(req, uri_ok, room)
}

/// Whether header fields have so few different names that a map takes them all.
pub open spec fn few_names(headers: Seq<(Seq<char>, Seq<char>)>) -> bool {
    name_set(headers).len() <= SURE_NAMES
}

/// What is wrong with a request that has few names: first its URI, then its first bad header field.
pub open spec fn sure_fault(req: RequestView, uri_ok: bool) -> Option<RequestError> {
    if !uri_ok {
        Some(RequestError::InvalidUri)
    } else {
        header_fault(req.headers)
    }
}

/// The fault that something made of a request came to.
pub open spec fn fault_in<T>(r: Result<T, RequestError>) -> Option<RequestError> {
    match r {
        Ok(_) => None,
        Err(fault) => Some(fault),
    }
}

/// The names of one more field are those before and its own.
proof fn lemma_next_name(headers: Seq<(Seq<char>, Seq<char>)>, i: int)
    requires
        0 <= i < headers.len(),
    ensures
        name_set(headers.take(i + 1)) == name_set(headers.take(i)).insert(
            field_key(headers[i].0),
        ),
{
    let keys = headers.take(i).map_values(|h: (Seq<char>, Seq<char>)| field_key(h.0));
    let more = headers.take(i + 1).map_values(|h: (Seq<char>, Seq<char>)| field_key(h.0));
    let key = field_key(headers[i].0);
    assert(more == keys.push(key));
    assert forall|k: Seq<char>|
        more.to_set().contains(k) == keys.to_set().insert(key).contains(k) by {
        if keys.contains(k) {
            let j = choose|j: int| 0 <= j < keys.len() && keys[j] == k;
            assert(more[j] == k);
        }
        assert(more[i] == key);
    }
    assert(more.to_set() == keys.to_set().insert(key));
}

/// The names of some of the fields are no more than those of all.
proof fn lemma_fewer_names(headers: Seq<(Seq<char>, Seq<char>)>, i: int)
    requires
        0 <= i <= headers.len(),
    ensures
        name_set(headers.take(i)).len() <= name_set(headers).len(),
        name_set(headers).finite(),
{
    let keys = headers.take(i).map_values(|h: (Seq<char>, Seq<char>)| field_key(h.0));
    let all = headers.map_values(|h: (Seq<char>, Seq<char>)| field_key(h.0));
    vstd::seq_lib::seq_to_set_is_finite(all);
    assert forall|k: Seq<char>| keys.to_set().contains(k) implies all.to_set().contains(k) by {
        let j = choose|j: int| 0 <= j < keys.len() && keys[j] == k;
        assert(all[j] == k);
    }
    vstd::set_lib::lemma_len_subset(keys.to_set(), all.to_set());
}

/// Counts the header fields of a request, from the first one on, that a header map takes, up to a
/// bad one.
pub fn count_taken(req: &RequestBuilder) -> (r: usize)
    ensures
        may_hold(req@.headers, r as int),
        forall|i: int|
            0 <= i < r ==> valid_name((#[trigger] req@.headers[i]).0) && valid_value(
                req@.headers[i].1,
            ),
{
    let mut map: HeaderMap<HeaderValue> = no_fields();
    let ghost fields = req@.headers;
    let mut i: usize = 0;
    proof {
        let none = fields.take(0).map_values(|h: (Seq<char>, Seq<char>)| field_key(h.0));
        assert(none.to_set() == Set::<Seq<char>>::empty());
        assert(header_entries(map).dom() == name_set(fields.take(0)));
    }
    while i < req.headers.len()
        invariant
            i <= req.headers.len(),
            fields == req@.headers,
            header_entries(map).dom() == name_set(fields.take(i as int)),
            forall|j: int| 0 <= j < i ==> name_set(#[trigger] fields.take(j)).len() < MOST_NAMES,
            forall|j: int|
                0 <= j < i ==> valid_name((#[trigger] fields[j]).0) && valid_value(fields[j].1),
        decreases req.headers.len() - i,
    {
        let name: &str = req.headers[i].0.as_str();
        let value: &str = req.headers[i].1.as_str();
        assert(fields[i as int] == (name@, value@));
        if !name_accepted(name) || !value_accepted(value) {
            return i;
        }
        let ghost before = header_entries(map);
        if !append_field(&mut map, name, value) {
            return i;
        }
        proof {
            lemma_next_name(fields, i as int);
            assert(header_entries(map).dom() == before.dom().insert(field_key(name@)));
        }
        i = i + 1;
    }
    i
}

/// Looks for what is wrong with a request, given whether its URI is good and how many of its header
/// fields a map takes.
pub fn find_fault(req: &RequestBuilder, uri_ok: bool, room: usize) -> (r: Option<RequestError>)
    ensures
        r == request_fault(req@, uri_ok, room as int),
{
    if !uri_ok {
        return Some(RequestError::InvalidUri);
    }
    let mut i: usize = 0;
    assert(req@.headers.skip(0) == req@.headers);
    while i < req.headers.len()
        invariant
            i <= req.headers.len(),
            i <= room,
            uri_ok,
            crowd_fault(req@.headers.skip(i as int), room - i) == request_fault(
                req@,
                uri_ok,
                room as int,
            ),
        decreases req.headers.len() - i,
    {
        let ghost rest = req@.headers.skip(i as int);
        assert(rest[0] == (req.headers@[i as int].0@, req.headers@[i as int].1@));
        assert(rest.skip(1) == req@.headers.skip(i + 1));
        if !name_accepted(req.headers[i].0.as_str()) {
            return Some(RequestError::InvalidHeaderName);
        }
        if !value_accepted(req.headers[i].1.as_str()) {
            return Some(RequestError::InvalidHeaderValue);
        }
        if i == room {
            return Some(RequestError::TooManyHeaders);
        }
        i = i + 1;
    }
    None
}

/// Where the map takes everything up to a bad field, only bad fields are wrong.
pub(crate) proof fn lemma_room_enough(headers: Seq<(Seq<char>, Seq<char>)>, room: int)
    requires
        0 <= room <= headers.len(),
        room < headers.len() ==> !(valid_name(headers[room].0) && valid_value(headers[room].1)),
    ensures
        crowd_fault(headers, room) == header_fault(headers),
    decreases headers.len(),
{
    if headers.len() > 0 && room > 0 {
        let rest = headers.skip(1);
        assert(room < headers.len() ==> rest[room - 1] == headers[room]);
        lemma_room_enough(rest, room - 1);
    }
}

/// With few names there is always room: what is wrong with a request is its URI or a bad field.
pub proof fn law_few_names_have_room(req: RequestView, uri_ok: bool, fault: Option<RequestError>)
    requires
        few_names(req.headers),
        may_fault(req, uri_ok, fault),
    ensures
        fault == sure_fault(req, uri_ok),
{
    let room = choose|room: int| #[trigger]
        may_hold(req.headers, room) && fault == request_fault(req, uri_ok, room);
    lemma_fewer_names(req.headers, room);
    lemma_room_enough(req.headers, room);
}

/// Finds what is wrong with a request, given whether its URI is good.
pub(crate) fn fault_of(req: &RequestBuilder, uri_ok: bool) -> (r: Option<RequestError>)
    ensures
        may_fault(req@, uri_ok, r),
        few_names(req@.headers) ==> r == sure_fault(req@, uri_ok),
{
    let room: usize = count_taken(req);
    let fault: Option<RequestError> = find_fault(req, uri_ok, room);
    proof {
        assert(may_hold(req@.headers, room as int));
        if few_names(req@.headers) {
            law_few_names_have_room(req@, uri_ok, fault);
        }
    }
    fault
}

/// Good fields of which the map takes fewer than there are end in one too many.
proof fn lemma_no_room(headers: Seq<(Seq<char>, Seq<char>)>, room: int)
    requires
        0 <= room < headers.len(),
        header_fault(headers) is None,
    ensures
        crowd_fault(headers, room) == Some(RequestError::TooManyHeaders),
    decreases headers.len(),
{
    if room > 0 {
        lemma_no_room(headers.skip(1), room - 1);
    }
}

/// A request whose header fields have too many different names before the last of them cannot be
/// made.
pub proof fn law_too_many_names(req: RequestView, fault: Option<RequestError>)
    requires
        req.headers.len() > 0,
        header_fault(req.headers) is None,
        name_set(req.headers.drop_last()).len() >= MOST_NAMES,
        may_fault(req, true, fault),
    ensures
        fault == Some(RequestError::TooManyHeaders),
{
    let room = choose|room: int| #[trigger]
        may_hold(req.headers, room) && fault == request_fault(req, true, room);
    assert(req.headers.drop_last() == req.headers.take(req.headers.len() - 1));
    lemma_no_room(req.headers, room);
}

/// The names of fields in two parts are no more than those of the parts together.
pub(crate) proof fn lemma_names_of_parts(
    a: Seq<(Seq<char>, Seq<char>)>,
    b: Seq<(Seq<char>, Seq<char>)>,
)
    ensures
        name_set(a + b).len() <= name_set(a).len() + name_set(b).len(),
{
    let x = a.map_values(|h: (Seq<char>, Seq<char>)| field_key(h.0));
    let y = b.map_values(|h: (Seq<char>, Seq<char>)| field_key(h.0));
    let all = (a + b).map_values(|h: (Seq<char>, Seq<char>)| field_key(h.0));
    vstd::seq_lib::seq_to_set_is_finite(x);
    vstd::seq_lib::seq_to_set_is_finite(y);
    assert(all == x + y);
    assert forall|k: Seq<char>| all.to_set().contains(k) implies x.to_set().union(
        y.to_set(),
    ).contains(k) by {
        let j = choose|j: int| 0 <= j < all.len() && all[j] == k;
        if j < x.len() {
            assert(x[j] == k);
        } else {
            assert(y[j - x.len()] == k);
        }
    }
    vstd::set_lib::lemma_len_subset(all.to_set(), x.to_set().union(y.to_set()));
    vstd::set_lib::lemma_len_union(x.to_set(), y.to_set());
}

/// There are no more names than fields.
pub(crate) proof fn lemma_names_of_fields(headers: Seq<(Seq<char>, Seq<char>)>)
    ensures
        name_set(headers).len() <= headers.len(),
{
    headers.map_values(|h: (Seq<char>, Seq<char>)| field_key(h.0)).lemma_cardinality_of_set();
}

/// Fields of one name have no more than one.
pub(crate) proof fn lemma_names_of_one(headers: Seq<(Seq<char>, Seq<char>)>, name: Seq<char>)
    requires
        forall|i: int| 0 <= i < headers.len() ==> (#[trigger] headers[i]).0 == name,
    ensures
        name_set(headers).len() <= 1,
{
    let keys = headers.map_values(|h: (Seq<char>, Seq<char>)| field_key(h.0));
    let only = Set::<Seq<char>>::empty().insert(field_key(name));
    assert forall|k: Seq<char>| keys.to_set().contains(k) implies only.contains(k) by {
        let j = choose|j: int| 0 <= j < keys.len() && keys[j] == k;
        assert(headers[j].0 == name);
    }
    vstd::set_lib::lemma_len_subset(keys.to_set(), only);
}

} // verus!
