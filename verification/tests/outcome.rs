use accord::outcome::settle;

#[test]
fn parts_that_end_well_end_well() {
    assert_eq!(settle::<&str>(Ok(()), Ok(()), Ok(())), (vec![], Ok(())));
}

#[test]
fn only_error_is_returned() {
    assert_eq!(settle(Err("e"), Ok(()), Ok(())), (vec![], Err("e")));
    assert_eq!(settle(Ok(()), Err("f"), Ok(())), (vec![], Err("f")));
    assert_eq!(settle(Ok(()), Ok(()), Err("g")), (vec![], Err("g")));
}

#[test]
fn last_error_is_returned_and_the_others_reported() {
    assert_eq!(settle(Err("e"), Err("f"), Ok(())), (vec!["e"], Err("f")));
    assert_eq!(settle(Err("e"), Ok(()), Err("g")), (vec!["e"], Err("g")));
    assert_eq!(settle(Ok(()), Err("f"), Err("g")), (vec!["f"], Err("g")));
    assert_eq!(settle(Err("e"), Err("f"), Err("g")), (vec!["e", "f"], Err("g")));
}
