use accord::stream::{read_payload, Splitter};

fn split(body: &[u8]) -> Vec<Vec<u8>> {
    let mut splitter = Splitter::new();
    let mut payloads = splitter.feed_all(body);
    payloads.extend(splitter.finish());
    payloads
}

fn texts(payloads: Vec<Vec<u8>>) -> Vec<String> {
    payloads.into_iter().map(|p| String::from_utf8(p).unwrap()).collect()
}

#[test]
fn lines_are_payloads() {
    assert_eq!(texts(split(b"{\"a\":1}\n{\"b\":2}\n")), ["{\"a\":1}", "{\"b\":2}"]);
    assert_eq!(texts(split(b"one\ntwo")), ["one", "two"]);
    assert_eq!(texts(split(b"")), Vec::<String>::new());
    assert_eq!(texts(split(b"\n")), [""]);
    assert_eq!(texts(split(b"a\n\nb\n")), ["a", "", "b"]);
    let body = "x\ny\r\n\nz";
    let lines: Vec<String> = body.lines().map(|l| l.trim().to_string()).collect();
    let payloads: Vec<String> = texts(split(body.as_bytes()));
    let payloads: Vec<String> = payloads.iter().map(|p| p.trim().to_string()).collect();
    assert_eq!(payloads, lines);
}

#[test]
fn two_nulls_part_payloads() {
    assert_eq!(texts(split(b"one\0\0two")), ["one", "two"]);
    assert_eq!(texts(split(b"one\0\0\0\0\0two\0\0")), ["one", "two"]);
    assert_eq!(texts(split(b"\0\0\0one\0\0")), ["one"]);
    assert_eq!(texts(split(b"one\ntwo\0\0three\n\0\0four")), ["one", "two", "three", "four"]);
}

#[test]
fn lone_null_keeps_the_stream_alive() {
    assert_eq!(texts(split(b"on\0e\0\0\0t\0wo\n\0th\0ree\n\0")), ["one", "two", "three"]);
    assert_eq!(texts(split(b"\0")), Vec::<String>::new());
}

#[test]
fn payload_comes_at_the_second_null() {
    let mut splitter = Splitter::new();
    assert_eq!(splitter.feed(b'a'), None);
    assert_eq!(splitter.feed(0), None);
    assert_eq!(splitter.feed(0), Some(b"a".to_vec()));
    assert_eq!(splitter.feed(0), None);
    assert_eq!(splitter.feed(b'b'), None);
    assert_eq!(splitter.feed(0), None);
    assert_eq!(splitter.feed(0), Some(b"b".to_vec()));
    assert_eq!(splitter.feed(b'c'), None);
    assert_eq!(splitter.feed(b'\n'), Some(b"c".to_vec()));
    assert_eq!(splitter.finish(), None);
}

#[test]
fn pieces_do_not_matter() {
    let body = b"one\0\0two\nthr\0ee\0\0\0four";
    let whole = split(body);
    for cut in 0..=body.len() {
        let mut splitter = Splitter::new();
        let mut payloads = splitter.feed_all(&body[..cut]);
        payloads.extend(splitter.feed_all(&body[cut..]));
        payloads.extend(splitter.finish());
        assert_eq!(payloads, whole);
    }
}

#[test]
fn payloads_are_read_as_trimmed_text() {
    assert_eq!(read_payload(b" {} \r".to_vec()), Some("{}".to_string()));
    assert_eq!(read_payload("\u{a0}é🎲".as_bytes().to_vec()), Some("é🎲".to_string()));
    assert_eq!(read_payload(vec![]), Some("".to_string()));
    assert_eq!(read_payload(vec![b'a', 0xff]), None);
    assert_eq!(read_payload(vec![0xc3]), None);
}
