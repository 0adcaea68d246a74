use yewchat::chat::{Chat, Msg, Update};
use yewchat::protocol::{MessageData, MsgTypes, WebSocketMessage};

fn users_frame(names: &[&str]) -> WebSocketMessage {
    WebSocketMessage {
        message_type: MsgTypes::Users,
        data_array: Some(names.iter().map(|n| n.to_string()).collect()),
        data: None,
    }
}

fn line(from: &str, message: &str) -> MessageData {
    MessageData { from: from.to_string(), message: message.to_string() }
}

fn receive(chat: &mut Chat, from: &str, message: &str) {
    let payload = format!("{{\"from\":\"{}\",\"message\":\"{}\"}}", from, message);
    let frame = WebSocketMessage {
        message_type: MsgTypes::Message,
        data_array: None,
        data: Some(payload.clone()),
    };
    match chat.update(Msg::HandleMsg(frame)) {
        Update::DecodeMessageData(s) => assert_eq!(s, payload),
        other => panic!("unexpected {:?}", other),
    }
    assert!(chat.receive_message_data(line(from, message)));
}

#[test]
fn create_registers_and_starts_empty() {
    let (chat, frame) = Chat::create("ann".to_string());
    assert_eq!(frame.message_type, MsgTypes::Register);
    assert_eq!(frame.data.as_deref(), Some("ann"));
    assert!(frame.data_array.is_none());
    let shown = chat.view();
    assert_eq!(shown.online, "0 online");
    assert_eq!(shown.participants, "0 participants active");
    assert!(shown.users.is_empty());
    assert!(shown.messages.is_empty());
    assert!(shown.no_messages);
}

#[test]
fn user_list_replaces_users() {
    let (mut chat, _) = Chat::create("ann".to_string());
    assert!(matches!(chat.update(Msg::HandleMsg(users_frame(&["ann", "bob"]))), Update::Render(true)));
    let shown = chat.view();
    assert_eq!(shown.online, "2 online");
    assert_eq!(shown.participants, "2 participants active");
    assert_eq!(shown.users.len(), 2);
    assert_eq!(shown.users[0].name, "ann");
    assert!(shown.users[0].is_me);
    assert_eq!(shown.users[0].avatar, "https://avatars.dicebear.com/api/adventurer-neutral/ann.svg");
    assert_eq!(shown.users[1].name, "bob");
    assert!(!shown.users[1].is_me);
    assert_eq!(shown.users[1].avatar, "https://avatars.dicebear.com/api/adventurer-neutral/bob.svg");

    assert!(matches!(chat.update(Msg::HandleMsg(users_frame(&["carol"]))), Update::Render(true)));
    let shown = chat.view();
    assert_eq!(shown.online, "1 online");
    assert_eq!(shown.participants, "1 participant active");
    assert_eq!(shown.users.len(), 1);
    assert_eq!(shown.users[0].name, "carol");
    assert!(!shown.users[0].is_me);
}

#[test]
fn user_list_without_names_empties_users() {
    let (mut chat, _) = Chat::create("ann".to_string());
    chat.update(Msg::HandleMsg(users_frame(&["ann"])));
    let frame = WebSocketMessage { message_type: MsgTypes::Users, data_array: None, data: None };
    assert!(matches!(chat.update(Msg::HandleMsg(frame)), Update::Render(true)));
    let shown = chat.view();
    assert!(shown.users.is_empty());
    assert_eq!(shown.online, "0 online");
}

#[test]
fn same_user_list_twice_is_once() {
    let (mut once, _) = Chat::create("ann".to_string());
    once.update(Msg::HandleMsg(users_frame(&["ann", "bob"])));
    let (mut twice, _) = Chat::create("ann".to_string());
    twice.update(Msg::HandleMsg(users_frame(&["ann", "bob"])));
    twice.update(Msg::HandleMsg(users_frame(&["ann", "bob"])));
    let (a, b) = (once.view(), twice.view());
    assert_eq!(a.online, b.online);
    assert_eq!(a.users.len(), b.users.len());
    for (x, y) in a.users.iter().zip(b.users.iter()) {
        assert_eq!(x.name, y.name);
        assert_eq!(x.avatar, y.avatar);
    }
}

#[test]
fn register_frame_is_ignored() {
    let (mut chat, _) = Chat::create("ann".to_string());
    let frame = WebSocketMessage {
        message_type: MsgTypes::Register,
        data_array: None,
        data: Some("bob".to_string()),
    };
    assert!(matches!(chat.update(Msg::HandleMsg(frame)), Update::Render(false)));
    let shown = chat.view();
    assert!(shown.users.is_empty());
    assert!(shown.no_messages);
}

#[test]
fn received_lines_are_shown_in_order() {
    let (mut chat, _) = Chat::create("ann".to_string());
    chat.update(Msg::HandleMsg(users_frame(&["ann", "bob"])));
    receive(&mut chat, "bob", "hello");
    receive(&mut chat, "ann", "https://media.example/wave.gif");
    receive(&mut chat, "dave", "who is here?");
    let shown = chat.view();
    assert!(!shown.no_messages);
    assert_eq!(shown.messages.len(), 3);

    let m = &shown.messages[0];
    assert_eq!((m.from.as_str(), m.message.as_str()), ("bob", "hello"));
    assert!(!m.is_me);
    assert!(!m.is_gif);
    assert_eq!(m.avatar, "https://avatars.dicebear.com/api/adventurer-neutral/bob.svg");

    let m = &shown.messages[1];
    assert!(m.is_me);
    assert!(m.is_gif);
    assert_eq!(m.avatar, "https://avatars.dicebear.com/api/adventurer-neutral/ann.svg");

    let m = &shown.messages[2];
    assert_eq!(m.from, "dave");
    assert!(!m.is_me);
    assert_eq!(m.avatar, "");
}

#[test]
fn new_user_list_keeps_history() {
    let (mut chat, _) = Chat::create("ann".to_string());
    receive(&mut chat, "bob", "hi");
    assert_eq!(chat.view().messages[0].avatar, "");
    chat.update(Msg::HandleMsg(users_frame(&["bob"])));
    let shown = chat.view();
    assert_eq!(shown.messages.len(), 1);
    assert_eq!(shown.messages[0].avatar, "https://avatars.dicebear.com/api/adventurer-neutral/bob.svg");
}

#[test]
fn submit_without_input_does_nothing() {
    let (mut chat, _) = Chat::create("ann".to_string());
    assert!(matches!(chat.update(Msg::SubmitMessage(None)), Update::Render(false)));
}

#[test]
fn submit_blank_sends_nothing() {
    let (mut chat, _) = Chat::create("ann".to_string());
    assert!(matches!(chat.update(Msg::SubmitMessage(Some(String::new()))), Update::Render(false)));
    assert!(matches!(chat.update(Msg::SubmitMessage(Some(" \t ".to_string()))), Update::Render(false)));
}

#[test]
fn submit_sends_text_as_typed() {
    let (mut chat, _) = Chat::create("ann".to_string());
    match chat.update(Msg::SubmitMessage(Some("  hi there ".to_string()))) {
        Update::Send(frame) => {
            assert_eq!(frame.message_type, MsgTypes::Message);
            assert_eq!(frame.data.as_deref(), Some("  hi there "));
            assert!(frame.data_array.is_none());
        }
        other => panic!("unexpected {:?}", other),
    }
    assert!(chat.view().no_messages);
}
