//! What requests are made of, stated of the functions themselves.

use vstd::prelude::*;

use crate::forward::Payload;
use crate::raccord::{Client, Request, Sendable};
use crate::tellings::{field_is, goes_on};
use crate::wire::{
    count_taken, crowd_fault, find_fault, lemma_names_of_fields, uri_parses, valid_name,
    valid_value, Method, RequestBuilder, RequestError,
};

verus! {

/// A new request has a method, a URI and no header fields.
pub proof fn law_new_request(method: Method, uri: String, r: RequestBuilder)
    requires
        call_ensures(RequestBuilder::new, (method, uri), r),
    ensures
        r.method == method,
        r.uri@ == uri@,
        r.headers@.len() == 0,
{
    assert(r@.headers.len() == r.headers@.len());
}

/// A header field is added behind all others, which stay as they are.
pub proof fn law_field_is_added(req: RequestBuilder, name: &str, value: String, r: RequestBuilder)
    requires
        call_ensures(RequestBuilder::header, (req, name, value), r),
    ensures
        goes_on(r, req),
        r.headers@.len() == req.headers@.len() + 1,
        field_is(r, req.headers@.len() as int, name@, value@),
{
    let n = req.headers@.len() as int;
    let all = req@.headers + seq![(name@, value@)];
    assert(r@.headers == all);
    assert(r@.headers.len() == r.headers@.len());
    assert(all[n] == (name@, value@));
    assert(r@.headers[n] == (r.headers@[n].0@, r.headers@[n].1@));
    assert forall|i: int| 0 <= i < n implies #[trigger] field_is(
        r,
        i,
        req.headers@[i].0@,
        req.headers@[i].1@,
    ) by {
        assert(r@.headers[i] == (r.headers@[i].0@, r.headers@[i].1@));
        assert(all[i] == (req.headers@[i].0@, req.headers@[i].1@));
    }
}

/// Whether a header field of a request is good.
pub open spec fn is_good(req: RequestBuilder, i: int) -> bool {
    valid_name(req.headers@[i].0@) && valid_value(req.headers@[i].1@)
}

/// After good fields that there is room for, the next one decides.
pub(crate) proof fn lemma_next_field_decides(headers: Seq<(Seq<char>, Seq<char>)>, room: int, k: int)
    requires
        0 <= k <= headers.len(),
        k <= room,
        forall|i: int|
            0 <= i < k ==> valid_name((#[trigger] headers[i]).0) && valid_value(headers[i].1),
    ensures
        k == headers.len() ==> crowd_fault(headers, room) is None,
        k < headers.len() && !valid_name(headers[k].0) ==> crowd_fault(headers, room) == Some(
            RequestError::InvalidHeaderName,
        ),
        k < headers.len() && valid_name(headers[k].0) && !valid_value(headers[k].1) ==> crowd_fault(
            headers,
            room,
        ) == Some(RequestError::InvalidHeaderValue),
        k < headers.len() && valid_name(headers[k].0) && valid_value(headers[k].1) && k == room
            ==> crowd_fault(headers, room) == Some(RequestError::TooManyHeaders),
    decreases k,
{
    if k > 0 {
        let rest = headers.skip(1);
        assert(valid_name(headers[0].0));
        assert forall|i: int| 0 <= i < k - 1 implies valid_name((#[trigger] rest[i]).0)
            && valid_value(rest[i].1) by {
            assert(rest[i] == headers[i + 1]);
        }
        assert(k < headers.len() ==> rest[k - 1] == headers[k]);
        lemma_next_field_decides(rest, room - 1, k - 1);
    }
}

/// The fault of a request is that of its URI, or else that of its first field that is bad or has no
/// room.
pub proof fn law_first_fault_is_found(
    req: &RequestBuilder,
    uri_ok: bool,
    room: usize,
    k: int,
    r: Option<RequestError>,
)
    requires
        call_ensures(find_fault, (req, uri_ok, room), r),
        0 <= k <= req.headers@.len(),
        k <= room,
        forall|i: int| 0 <= i < k ==> #[trigger] is_good(*req, i),
    ensures
        !uri_ok ==> r == Some(RequestError::InvalidUri),
        uri_ok && k == req.headers@.len() ==> r is None,
        uri_ok && k < req.headers@.len() && !valid_name(req.headers@[k].0@) ==> r == Some(
            RequestError::InvalidHeaderName,
        ),
        uri_ok && k < req.headers@.len() && valid_name(req.headers@[k].0@) && !valid_value(
            req.headers@[k].1@,
        ) ==> r == Some(RequestError::InvalidHeaderValue),
        uri_ok && k < req.headers@.len() && is_good(*req, k) && k == room ==> r == Some(
            RequestError::TooManyHeaders,
        ),
{
    let headers = req@.headers;
    assert(headers.len() == req.headers@.len());
    assert forall|i: int| 0 <= i < headers.len() implies #[trigger] headers[i] == (
        req.headers@[i].0@,
        req.headers@[i].1@,
    ) by {}
    assert forall|i: int| 0 <= i < k implies valid_name((#[trigger] headers[i]).0) && valid_value(
        headers[i].1,
    ) by {
        assert(is_good(*req, i));
    }
    lemma_next_field_decides(headers, room as int, k);
}

/// No bad field is taken and no field behind one. All good fields before it are taken, unless they
/// are more than the sure ones, and then as many of them at least.
pub proof fn law_fields_are_taken(req: &RequestBuilder, k: int, r: usize)
    requires
        call_ensures(count_taken, (req,), r),
        0 <= k <= req.headers@.len(),
        forall|i: int| 0 <= i < k ==> #[trigger] is_good(*req, i),
        k < req.headers@.len() ==> !is_good(*req, k),
    ensures
        r <= k,
        r < k ==> r > 6553,
{
    let headers = req@.headers;
    assert(headers.len() == req.headers@.len());
    if k < r {
        assert(headers[k] == (req.headers@[k].0@, req.headers@[k].1@));
    }
    if r < k {
        assert(headers[r as int] == (req.headers@[r as int].0@, req.headers@[r as int].1@));
        assert(is_good(*req, r as int));
        lemma_names_of_fields(headers.take(r as int));
    }
}

/// Whether a fault is the one of a request whose fields are those of another from the second on.
pub open spec fn is_fault_of(
    fault: Option<RequestError>,
    uri: Seq<char>,
    like: RequestBuilder,
    k: int,
) -> bool {
    &&& !uri_parses(uri) ==> fault == Some(RequestError::InvalidUri)
    &&& uri_parses(uri) && k == like.headers@.len() ==> fault is None
    &&& uri_parses(uri) && k < like.headers@.len() && !valid_name(like.headers@[k].0@) ==> fault
        == Some(RequestError::InvalidHeaderName)
    &&& uri_parses(uri) && k < like.headers@.len() && valid_name(like.headers@[k].0@)
        && !valid_value(like.headers@[k].1@) ==> fault == Some(RequestError::InvalidHeaderValue)
}

/// The content types are good values, and their name is a good one.
proof fn lemma_kinds_are_good()
    ensures
        valid_name("content-type"@),
        valid_value("application/json"@),
        valid_value("text/plain; charset=utf-8"@),
{
    reveal_strlit("content-type");
    reveal_strlit("application/json");
    reveal_strlit("text/plain; charset=utf-8");
}

/// A payload is posted to its own path under the base. The first header field is the type of the
/// content, and the others are those that the payload adds to any request. The content is the
/// payload's own text where it has one, and the given JSON where it has none.
pub proof fn law_post_carries_the_payload<S: Sendable>(
    client: &Client,
    payload: S,
    json: Vec<u8>,
    r: Result<Request, RequestError>,
    path: String,
    text: Option<Vec<u8>>,
    before: RequestBuilder,
    after: RequestBuilder,
)
    requires
        call_ensures(Client::post::<S>, (client, payload, json), r),
        call_ensures(<S as Sendable>::url, (&payload,), path),
        call_ensures(<S as Sendable>::body, (&payload,), text),
        call_ensures(<S as Sendable>::customise, (&payload, before), after),
        before.headers@.len() == 1,
    ensures
        r matches Ok(request) ==> {
            &&& request.head.method is Post
            &&& request.head.uri@ == client.base() + path@
            &&& request.head.headers@.len() == after.headers@.len()
            &&& forall|i: int|
                1 <= i < after.headers@.len() ==> #[trigger] field_is(
                    request.head,
                    i,
                    after.headers@[i].0@,
                    after.headers@[i].1@,
                )
            &&& text is None ==> field_is(request.head, 0, "content-type"@, "application/json"@)
                && request.body@ == json@
            &&& text matches Some(t) ==> field_is(
                request.head,
                0,
                "content-type"@,
                "text/plain; charset=utf-8"@,
            ) && request.body@ == t@
        },
{
    let added = payload.metadata();
    assert(after@.headers == before@.headers + added);
    assert(before@.headers.len() == before.headers@.len());
    assert(after@.headers.len() == after.headers@.len());
    if let Ok(request) = r {
        let h = request.head@.headers;
        let kind = crate::raccord::content_type(payload.contents());
        assert(h == seq![("content-type"@, kind)] + added);
        assert(h.len() == request.head.headers@.len());
        assert(h[0] == (request.head.headers@[0].0@, request.head.headers@[0].1@));
        assert forall|i: int| 1 <= i < after.headers@.len() implies #[trigger] field_is(
            request.head,
            i,
            after.headers@[i].0@,
            after.headers@[i].1@,
        ) by {
            assert(h[i] == added[i - 1]);
            assert(after@.headers[i] == added[i - 1]);
            assert(h[i] == (request.head.headers@[i].0@, request.head.headers@[i].1@));
            assert(after@.headers[i] == (after.headers@[i].0@, after.headers@[i].1@));
        }
    }
}

/// A payload with few header fields is posted exactly where its URI and all its fields are good;
/// else the first fault is told.
pub proof fn law_post_fails_on_faults<S: Sendable>(
    client: &Client,
    payload: S,
    json: Vec<u8>,
    r: Result<Request, RequestError>,
    path: String,
    before: RequestBuilder,
    after: RequestBuilder,
    k: int,
)
    requires
        call_ensures(Client::post::<S>, (client, payload, json), r),
        call_ensures(<S as Sendable>::url, (&payload,), path),
        call_ensures(<S as Sendable>::customise, (&payload, before), after),
        before.headers@.len() == 1,
        is_good(before, 0),
        after.headers@.len() <= 6553,
        1 <= k <= after.headers@.len(),
        forall|i: int| 1 <= i < k ==> #[trigger] is_good(after, i),
    ensures
        is_fault_of(
            match r {
                Ok(_) => None,
                Err(e) => Some(e),
            },
            client.base() + path@,
            after,
            k,
        ),
{
    lemma_kinds_are_good();
    let added = payload.metadata();
    let kind = crate::raccord::content_type(payload.contents());
    let head = crate::raccord::payload_head(
        Method::Post,
        client.base(),
        payload.path(),
        kind,
        added,
    );
    assert(after@.headers == before@.headers + added);
    assert(before@.headers.len() == before.headers@.len());
    assert(after@.headers.len() == after.headers@.len());
    let headers = head.headers;
    assert(headers == seq![("content-type"@, kind)] + added);
    lemma_names_of_fields(headers);
    assert forall|i: int| 0 <= i < k implies valid_name((#[trigger] headers[i]).0) && valid_value(
        headers[i].1,
    ) by {
        if i > 0 {
            assert(is_good(after, i));
            assert(headers[i] == added[i - 1]);
            assert(after@.headers[i] == added[i - 1]);
            assert(after@.headers[i] == (after.headers@[i].0@, after.headers@[i].1@));
        }
    }
    if k < after.headers@.len() {
        assert(headers[k] == added[k - 1]);
        assert(after@.headers[k] == added[k - 1]);
        assert(after@.headers[k] == (after.headers@[k].0@, after.headers@[k].1@));
    }
    lemma_next_field_decides(headers, headers.len() as int, k);
    crate::wire::lemma_room_enough(headers, headers.len() as int);
}

/// A payload is asked about at its own path under the base, as JSON and with its own header fields,
/// exactly where the URI and all the fields are good; else the first fault is told.
pub proof fn law_get_carries_the_payload<S: Sendable>(
    client: &Client,
    payload: S,
    r: Result<RequestBuilder, RequestError>,
    path: String,
    before: RequestBuilder,
    after: RequestBuilder,
    k: int,
)
    requires
        call_ensures(Client::get::<S>, (client, payload), r),
        call_ensures(<S as Sendable>::url, (&payload,), path),
        call_ensures(<S as Sendable>::customise, (&payload, before), after),
        before.headers@.len() == 1,
        is_good(before, 0),
        1 <= k <= after.headers@.len(),
        forall|i: int| 1 <= i < k ==> #[trigger] is_good(after, i),
    ensures
        after.headers@.len() <= 6553 ==> is_fault_of(
            match r {
                Ok(_) => None,
                Err(e) => Some(e),
            },
            client.base() + path@,
            after,
            k,
        ),
        r matches Ok(head) ==> {
            &&& head.method is Get
            &&& head.uri@ == client.base() + path@
            &&& head.headers@.len() == after.headers@.len()
            &&& field_is(head, 0, "content-type"@, "application/json"@)
            &&& forall|i: int|
                1 <= i < after.headers@.len() ==> #[trigger] field_is(
                    head,
                    i,
                    after.headers@[i].0@,
                    after.headers@[i].1@,
                )
        },
{
    lemma_kinds_are_good();
    let added = payload.metadata();
    let kind = "application/json"@;
    let head = crate::raccord::payload_head(Method::Get, client.base(), payload.path(), kind, added);
    assert(after@.headers == before@.headers + added);
    assert(before@.headers.len() == before.headers@.len());
    assert(after@.headers.len() == after.headers@.len());
    let headers = head.headers;
    assert(headers == seq![("content-type"@, kind)] + added);
    lemma_names_of_fields(headers);
    assert forall|i: int| 0 <= i < k implies valid_name((#[trigger] headers[i]).0) && valid_value(
        headers[i].1,
    ) by {
        if i > 0 {
            assert(is_good(after, i));
            assert(headers[i] == added[i - 1]);
            assert(after@.headers[i] == added[i - 1]);
            assert(after@.headers[i] == (after.headers@[i].0@, after.headers@[i].1@));
        }
    }
    if k < after.headers@.len() {
        assert(headers[k] == added[k - 1]);
        assert(after@.headers[k] == added[k - 1]);
        assert(after@.headers[k] == (after.headers@[k].0@, after.headers@[k].1@));
    }
    lemma_next_field_decides(headers, headers.len() as int, k);
    crate::wire::lemma_room_enough(headers, headers.len() as int);
    if let Ok(request) = r {
        let h = request@.headers;
        assert(h == headers);
        assert(h.len() == request.headers@.len());
        assert(h[0] == (request.headers@[0].0@, request.headers@[0].1@));
        assert forall|i: int| 1 <= i < after.headers@.len() implies #[trigger] field_is(
            request,
            i,
            after.headers@[i].0@,
            after.headers@[i].1@,
        ) by {
            assert(h[i] == added[i - 1]);
            assert(after@.headers[i] == added[i - 1]);
            assert(h[i] == (request.headers@[i].0@, request.headers@[i].1@));
            assert(after@.headers[i] == (after.headers@[i].0@, after.headers@[i].1@));
        }
    }
}

/// What is sent for an event goes to the path, has the header fields and is told in the text of
/// what it is.
pub proof fn law_payload_is_what_it_holds(
    payload: &Payload,
    req: RequestBuilder,
    path: String,
    r: RequestBuilder,
    text: Option<Vec<u8>>,
)
    requires
        call_ensures(<Payload as Sendable>::url, (payload,), path),
        call_ensures(<Payload as Sendable>::customise, (payload, req), r),
        call_ensures(<Payload as Sendable>::body, (payload,), text),
    ensures
        payload matches Payload::ServerCommand(p) ==> path@ == p.path() && r@ == req@.plus(
            p.metadata(),
        ) && text is None,
        payload matches Payload::ServerMessage(p) ==> path@ == p.path() && r@ == req@.plus(
            p.metadata(),
        ) && text is Some && text->0@ == vstd::utf8::encode_utf8(p.content@),
        payload matches Payload::DirectCommand(p) ==> path@ == p.path() && r@ == req@.plus(
            p.metadata(),
        ) && text is None,
        payload matches Payload::DirectMessage(p) ==> path@ == p.path() && r@ == req@.plus(
            p.metadata(),
        ) && text is Some && text->0@ == vstd::utf8::encode_utf8(p.content@),
        payload matches Payload::ServerJoin(p) ==> path@ == p.path() && r@ == req@.plus(
            p.metadata(),
        ) && text is None,
        payload matches Payload::Connected(p) ==> path@ == p.path() && r@ == req@.plus(
            p.metadata(),
        ) && text is None,
{
}

} // verus!
