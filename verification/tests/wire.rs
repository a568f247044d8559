use accord::wire::{count_taken, find_fault, Method, RequestBuilder, RequestError};

fn request(headers: &[(&str, &str)]) -> RequestBuilder {
    let mut req = RequestBuilder::new(Method::Get, "http://localhost/".to_string());
    for (name, value) in headers {
        req = req.header(name, value.to_string());
    }
    req
}

fn fault(req: &RequestBuilder, uri_ok: bool) -> Option<RequestError> {
    find_fault(req, uri_ok, count_taken(req))
}

fn crowd(names: usize) -> RequestBuilder {
    let mut req = RequestBuilder::new(Method::Get, "http://localhost/".to_string());
    for i in 0..names {
        req = req.header(&format!("name-{}", i), "v".to_string());
    }
    req
}

#[test]
fn header_fields_are_kept_in_order() {
    let req = request(&[("b", "1"), ("a", "2"), ("b", "3")]);
    assert_eq!(req.method, Method::Get);
    assert_eq!(req.uri, "http://localhost/");
    let expected: Vec<(String, String)> = [("b", "1"), ("a", "2"), ("b", "3")]
        .iter()
        .map(|(n, v)| (n.to_string(), v.to_string()))
        .collect();
    assert_eq!(req.headers, expected);
}

#[test]
fn good_requests_have_no_fault() {
    assert_eq!(fault(&request(&[]), true), None);
    assert_eq!(fault(&request(&[("accord-id", "1"), ("X_y.z~", "a\tb é")]), true), None);
    assert_eq!(fault(&request(&[("a", "")]), true), None);
}

#[test]
fn bad_uri_is_found_first() {
    assert_eq!(fault(&request(&[("", "")]), false), Some(RequestError::InvalidUri));
}

#[test]
fn bad_names_are_found() {
    for name in ["", "a b", "a:", "é", "a\n", "(", "a/b", "@", "[", "{", ","] {
        assert_eq!(
            fault(&request(&[("ok", "1"), (name, "1")]), true),
            Some(RequestError::InvalidHeaderName),
            "{:?}",
            name
        );
    }
}

#[test]
fn name_characters_are_told_from_others() {
    for c in 0u8..128 {
        let name = (c as char).to_string();
        let may = c.is_ascii_alphanumeric() || "!\"#$%&'*+-.^_`|~".contains(c as char);
        let found = fault(&request(&[(&name, "")]), true);
        assert_eq!(found.is_none(), may, "{:?}", name);
        let long = name.repeat(80);
        let found = fault(&request(&[(&long, "")]), true);
        assert_eq!(found.is_none(), may, "{:?}", long);
    }
}

#[test]
fn bad_values_are_found() {
    for value in ["\n", "a\r", "\u{0}", "\u{7f}", "\u{1f}"] {
        assert_eq!(
            fault(&request(&[("ok", "1"), ("a", value)]), true),
            Some(RequestError::InvalidHeaderValue),
            "{:?}",
            value
        );
    }
}

#[test]
fn first_fault_is_reported() {
    assert_eq!(
        fault(&request(&[("a", "\n"), ("", "1")]), true),
        Some(RequestError::InvalidHeaderValue)
    );
    assert_eq!(
        fault(&request(&[("", "\n"), ("a", "\n")]), true),
        Some(RequestError::InvalidHeaderName)
    );
}

#[test]
fn length_of_a_name_is_bounded() {
    let longest = "a".repeat(65535);
    let too_long = "a".repeat(65536);
    assert_eq!(fault(&request(&[(&longest, "")]), true), None);
    assert_eq!(
        fault(&request(&[(&too_long, "")]), true),
        Some(RequestError::InvalidHeaderName)
    );
}

#[test]
fn few_names_have_room() {
    let mut req = crowd(6553);
    for _ in 0..50_000 {
        req = req.header("NAME-0", "again".to_string());
    }
    assert_eq!(count_taken(&req), 56_553);
    assert_eq!(fault(&req, true), None);
}

#[test]
fn too_many_names_have_no_room() {
    let req = crowd(24_577);
    assert!(count_taken(&req) <= 24_576);
    assert_eq!(fault(&req, true), Some(RequestError::TooManyHeaders));
    assert_eq!(fault(&req, false), Some(RequestError::InvalidUri));
    let again = crowd(24_576).header("name-0", "v".to_string());
    assert_eq!(fault(&again, true), Some(RequestError::TooManyHeaders));
}

#[test]
fn fields_are_taken_up_to_a_bad_one() {
    assert_eq!(count_taken(&request(&[])), 0);
    assert_eq!(count_taken(&request(&[("a", "1"), ("A", "2"), ("", "3"), ("b", "4")])), 2);
    assert_eq!(count_taken(&request(&[("a", "\n")])), 0);
}

#[test]
fn room_decides_after_bad_fields() {
    let req = request(&[("a", "1"), ("b", "2"), ("c", "\n")]);
    assert_eq!(find_fault(&req, true, 0), Some(RequestError::TooManyHeaders));
    assert_eq!(find_fault(&req, true, 1), Some(RequestError::TooManyHeaders));
    assert_eq!(find_fault(&req, true, 2), Some(RequestError::InvalidHeaderValue));
    let req = request(&[("a", "1"), ("b", "2")]);
    assert_eq!(find_fault(&req, true, 2), None);
}
