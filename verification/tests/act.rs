use accord::act::{handle_act, send_to_discord, Act, ActError, Call, Stage};
use accord::error::{MissingChannel, MissingServer};

fn post(channel_id: Option<u64>) -> Act {
    Act::CreateMessage { content: "beep".to_string(), channel_id }
}

fn assign(server_id: Option<u64>, reason: Option<&str>) -> Act {
    Act::AssignRole {
        role_id: 1,
        user_id: 2,
        server_id,
        reason: reason.map(|r| r.to_string()),
    }
}

fn remove(server_id: Option<u64>, reason: Option<&str>) -> Act {
    Act::RemoveRole {
        role_id: 1,
        user_id: 2,
        server_id,
        reason: reason.map(|r| r.to_string()),
    }
}

fn shown(r: Result<Call, ActError>) -> String {
    format!("{:?}", r)
}

fn created(channel_id: u64) -> String {
    shown(Ok(Call::CreateMessage { channel_id, content: "beep".to_string() }))
}

#[test]
fn message_is_created_in_its_own_channel_or_the_default() {
    assert_eq!(shown(handle_act(post(Some(5)), Some(8), Some(6))), created(5));
    assert_eq!(shown(handle_act(post(None), Some(8), Some(6))), created(6));
    assert_eq!(shown(handle_act(post(Some(5)), None, None)), created(5));
}

#[test]
fn message_without_a_channel_is_an_error() {
    assert!(matches!(
        handle_act(post(None), Some(8), None),
        Err(ActError::Channel(MissingChannel))
    ));
}

#[test]
fn role_is_assigned_in_its_own_server_or_the_default() {
    let call = |server_id: u64, reason: Option<&str>| {
        shown(Ok(Call::AddRole {
            server_id,
            user_id: 2,
            role_id: 1,
            reason: reason.map(|r| r.to_string()),
        }))
    };
    assert_eq!(shown(handle_act(assign(Some(5), None), Some(8), None)), call(5, None));
    assert_eq!(
        shown(handle_act(assign(None, Some("why not")), Some(8), Some(6))),
        call(8, Some("why not"))
    );
}

#[test]
fn role_is_removed_in_its_own_server_or_the_default() {
    let call = |server_id: u64, reason: Option<&str>| {
        shown(Ok(Call::RemoveRole {
            server_id,
            user_id: 2,
            role_id: 1,
            reason: reason.map(|r| r.to_string()),
        }))
    };
    assert_eq!(shown(handle_act(remove(Some(5), Some("spam")), None, None)), call(5, Some("spam")));
    assert_eq!(shown(handle_act(remove(None, None), Some(8), Some(6))), call(8, None));
}

#[test]
fn role_without_a_server_is_an_error() {
    assert!(matches!(
        handle_act(assign(None, None), None, Some(6)),
        Err(ActError::Server(MissingServer))
    ));
    assert!(matches!(
        handle_act(remove(None, None), None, Some(6)),
        Err(ActError::Server(MissingServer))
    ));
}

#[test]
fn staged_act_uses_its_own_defaults() {
    let stage = Stage { act: post(None), default_server_id: Some(8), default_channel_id: Some(6) };
    assert_eq!(shown(send_to_discord(stage)), created(6));
    let stage = Stage { act: post(Some(5)), default_server_id: None, default_channel_id: Some(6) };
    assert_eq!(shown(send_to_discord(stage)), created(5));
    let stage = Stage { act: post(None), default_server_id: Some(8), default_channel_id: None };
    assert!(matches!(send_to_discord(stage), Err(ActError::Channel(_))));
}

#[test]
fn errors_say_what_is_missing() {
    assert_eq!(MissingServer.to_string(), "no server information available");
    assert_eq!(MissingChannel.to_string(), "no channel information available");
}

#[test]
fn acts_are_handled_at_the_root_too() {
    assert_eq!(shown(accord::handle_act(post(None), None, Some(6))), created(6));
}
