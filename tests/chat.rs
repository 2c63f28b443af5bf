use chat_client::codec::{
    decode, encode, encode_chat_message, encode_chat_payload, encode_register, kind_of_tag,
    tag_of, ChatMessage, DecodeError, MsgTypes, RawEnvelope, WireMessage,
};
use chat_client::session::{avatar_url, is_image, submit_trimmed, Chat, Msg};

fn users_frame(names: &[&str]) -> WireMessage {
    WireMessage {
        message_type: MsgTypes::Users,
        data_array: Some(names.iter().map(|n| n.to_string()).collect()),
        data: None,
    }
}

fn message_frame(payload: &str) -> WireMessage {
    WireMessage {
        message_type: MsgTypes::Message,
        data_array: None,
        data: Some(payload.to_string()),
    }
}

fn line(from: &str, message: &str) -> ChatMessage {
    ChatMessage { from: from.to_string(), message: message.to_string() }
}

fn names(chat: &Chat) -> Vec<String> {
    chat.users().iter().map(|u| u.name.clone()).collect()
}

fn history(chat: &Chat) -> Vec<(String, String)> {
    chat.messages().iter().map(|m| (m.from.clone(), m.message.clone())).collect()
}

/// Reads an envelope's fields the way a JSON reader hands them over.
fn read_envelope(text: &str) -> RawEnvelope {
    let v: serde_json::Value = serde_json::from_str(text).unwrap();
    RawEnvelope {
        message_type: v["messageType"].as_str().unwrap().to_string(),
        data_array: v["dataArray"]
            .as_array()
            .map(|a| a.iter().map(|x| x.as_str().unwrap().to_string()).collect()),
        data: v["data"].as_str().map(|s| s.to_string()),
    }
}

#[test]
fn register_text_is_exact() {
    assert_eq!(
        encode_register("bob"),
        r#"{"messageType":"register","dataArray":null,"data":"bob"}"#
    );
}

#[test]
fn register_round_trip() {
    for name in ["bob", "", "   ", "a \"quoted\" name", "back\\slash\nline", "ünï"] {
        let m = decode(read_envelope(&encode_register(name))).ok().unwrap();
        assert_eq!(m.message_type, MsgTypes::Register);
        assert_eq!(m.data_array, None);
        assert_eq!(m.data.as_deref(), Some(name));
    }
}

#[test]
fn quoting_escapes_special_characters() {
    assert_eq!(
        encode_register("a\"b"),
        r#"{"messageType":"register","dataArray":null,"data":"a\"b"}"#
    );
    assert_eq!(
        encode_chat_message("x\ny"),
        r#"{"messageType":"message","dataArray":null,"data":"x\ny"}"#
    );
}

#[test]
fn users_envelope_text_is_exact() {
    assert_eq!(
        encode(&users_frame(&["a", "b"])),
        r#"{"messageType":"users","dataArray":["a","b"],"data":null}"#
    );
    assert_eq!(
        encode(&users_frame(&[])),
        r#"{"messageType":"users","dataArray":[],"data":null}"#
    );
}

#[test]
fn chat_payload_round_trip() {
    for (from, message) in [("alice", "hi"), ("", ""), ("x\"y", "multi\nline \\ text"), ("b", "cat.gif")] {
        let payload = encode_chat_payload(&line(from, message));
        let envelope = encode(&message_frame(&payload));
        let m = decode(read_envelope(&envelope)).ok().unwrap();
        assert_eq!(m.message_type, MsgTypes::Message);
        let inner: serde_json::Value = serde_json::from_str(m.data.as_deref().unwrap()).unwrap();
        assert_eq!(inner["from"].as_str(), Some(from));
        assert_eq!(inner["message"].as_str(), Some(message));
    }
}

#[test]
fn chat_payload_text_is_exact() {
    assert_eq!(encode_chat_payload(&line("alice", "hi")), r#"{"from":"alice","message":"hi"}"#);
}

#[test]
fn tags_are_lowercase_and_exact() {
    assert_eq!(tag_of(MsgTypes::Users), "users");
    assert_eq!(tag_of(MsgTypes::Register), "register");
    assert_eq!(tag_of(MsgTypes::Message), "message");
    assert_eq!(kind_of_tag("users"), Some(MsgTypes::Users));
    assert_eq!(kind_of_tag("register"), Some(MsgTypes::Register));
    assert_eq!(kind_of_tag("message"), Some(MsgTypes::Message));
    assert_eq!(kind_of_tag("Users"), None);
    assert_eq!(kind_of_tag("bogus"), None);
    assert_eq!(kind_of_tag(""), None);
}

#[test]
fn unknown_kind_is_refused() {
    let raw = RawEnvelope { message_type: "bogus".to_string(), data_array: None, data: None };
    assert!(matches!(decode(raw), Err(DecodeError::UnknownKind)));
}

#[test]
fn users_replace_not_merge() {
    let (mut chat, _) = Chat::create("me");
    assert!(chat.handle_frame(Ok(users_frame(&["A", "B"])), None));
    assert_eq!(names(&chat), vec!["A", "B"]);
    assert!(chat.handle_frame(Ok(users_frame(&["B", "C"])), None));
    assert_eq!(names(&chat), vec!["B", "C"]);
}

#[test]
fn users_without_list_empties_it() {
    let (mut chat, _) = Chat::create("me");
    chat.handle_frame(Ok(users_frame(&["A"])), None);
    let frame = WireMessage { message_type: MsgTypes::Users, data_array: None, data: None };
    assert!(chat.handle_frame(Ok(frame), None));
    assert!(chat.users().is_empty());
}

#[test]
fn blank_submit_sends_nothing() {
    let (mut chat, _) = Chat::create("me");
    chat.handle_frame(Ok(users_frame(&["me"])), None);
    for raw in ["", "   ", "\t \n"] {
        assert_eq!(chat.submit_message(raw), None);
        let out = chat.update(Msg::SubmitMessage(raw.to_string()));
        assert!(!out.changed);
        assert_eq!(out.outbound, None);
    }
    assert_eq!(names(&chat), vec!["me"]);
    assert!(chat.messages().is_empty());
    assert_eq!(submit_trimmed(""), None);
}

#[test]
fn submit_sends_trimmed_text() {
    let (chat, _) = Chat::create("me");
    assert_eq!(chat.submit_message("  yo \n"), Some(encode_chat_message("yo")));
    assert_eq!(
        submit_trimmed("yo"),
        Some(r#"{"messageType":"message","dataArray":null,"data":"yo"}"#.to_string())
    );
}

#[test]
fn history_appends_one_per_message() {
    let (mut chat, _) = Chat::create("me");
    let mut expected: Vec<(String, String)> = Vec::new();
    for (i, text) in ["one", "two", "one"].iter().enumerate() {
        assert!(chat.handle_frame(Ok(message_frame("{}")), Some(line("x", text))));
        expected.push(("x".to_string(), text.to_string()));
        assert_eq!(chat.messages().len(), i + 1);
        assert_eq!(history(&chat), expected);
    }
    // Frames that carry no line the session takes leave the history alone.
    assert!(!chat.handle_frame(Ok(message_frame("oops")), None));
    let no_data = WireMessage { message_type: MsgTypes::Message, data_array: None, data: None };
    assert!(!chat.handle_frame(Ok(no_data), Some(line("y", "z"))));
    chat.handle_frame(Ok(users_frame(&["x"])), None);
    assert_eq!(history(&chat), expected);
}

#[test]
fn malformed_frames_are_ignored() {
    let (mut chat, _) = Chat::create("me");
    chat.handle_frame(Ok(users_frame(&["a"])), None);
    chat.handle_frame(Ok(message_frame("{}")), Some(line("a", "hi")));
    assert!(!chat.handle_frame(Err(DecodeError::Malformed), None));
    let bogus = RawEnvelope { message_type: "bogus".to_string(), data_array: None, data: None };
    assert!(!chat.handle_frame(decode(bogus), None));
    assert!(!chat.handle_frame(Err(DecodeError::BadPayload), Some(line("q", "r"))));
    let register = WireMessage {
        message_type: MsgTypes::Register,
        data_array: Some(vec!["zz".to_string()]),
        data: Some("zz".to_string()),
    };
    assert!(!chat.handle_frame(Ok(register), Some(line("q", "r"))));
    assert_eq!(names(&chat), vec!["a"]);
    assert_eq!(history(&chat), vec![("a".to_string(), "hi".to_string())]);
}

#[test]
fn avatar_derivation() {
    assert_eq!(
        avatar_url("alice"),
        "https://avatars.dicebear.com/api/adventurer-neutral/alice.svg"
    );
    let (mut chat, _) = Chat::create("me");
    chat.handle_frame(Ok(users_frame(&["alice"])), None);
    assert_eq!(chat.users()[0].avatar, avatar_url("alice"));
}

#[test]
fn content_kind_detection() {
    assert!(is_image("cat.gif"));
    assert!(is_image(".gif"));
    assert!(!is_image("cat.gif.png"));
    assert!(!is_image("hello"));
    assert!(!is_image("gif"));
    assert!(!is_image("cat.GIF"));
    assert!(!is_image(""));
}

#[test]
fn view_associates_avatars() {
    let (mut chat, _) = Chat::create("me");
    chat.handle_frame(Ok(users_frame(&["alice", "bob"])), None);
    chat.handle_frame(Ok(message_frame("{}")), Some(line("alice", "cat.gif")));
    chat.handle_frame(Ok(message_frame("{}")), Some(line("ghost", "boo")));
    let view = chat.view();
    assert_eq!(view.users.len(), 2);
    assert_eq!(view.users[1].name, "bob");
    assert_eq!(view.messages[0].avatar, Some(avatar_url("alice")));
    assert!(view.messages[0].is_image);
    assert_eq!(view.messages[1].avatar, None);
    assert!(!view.messages[1].is_image);
    assert_eq!(view.messages[1].message, "boo");
    assert!(chat.find_user("bob").is_some());
    assert!(chat.find_user("Bob").is_none());
}

#[test]
fn end_to_end_session() {
    let (mut chat, register) = Chat::create("bob");
    assert_eq!(register, encode_register("bob"));
    let m = decode(read_envelope(&register)).ok().unwrap();
    assert_eq!(m.message_type, MsgTypes::Register);

    let users_text = r#"{"messageType":"users","dataArray":["bob","alice"],"data":null}"#;
    let out = chat.update(Msg::HandleMsg(decode(read_envelope(users_text)), None));
    assert!(out.changed);
    assert_eq!(out.outbound, None);
    assert_eq!(names(&chat), vec!["bob", "alice"]);

    let payload = r#"{"from":"alice","message":"hi"}"#;
    let envelope = encode(&message_frame(payload));
    let frame = decode(read_envelope(&envelope));
    let out = chat.update(Msg::HandleMsg(frame, Some(line("alice", "hi"))));
    assert!(out.changed);
    assert_eq!(history(&chat), vec![("alice".to_string(), "hi".to_string())]);
    let view = chat.view();
    assert_eq!(view.messages[0].avatar, Some(avatar_url("alice")));

    let out = chat.update(Msg::SubmitMessage("yo".to_string()));
    assert!(!out.changed);
    let sent = out.outbound.unwrap();
    let m = decode(read_envelope(&sent)).ok().unwrap();
    assert_eq!(m.message_type, MsgTypes::Message);
    assert_eq!(m.data.as_deref(), Some("yo"));
}
