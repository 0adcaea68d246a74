use yewchat::chat::key_submits;
use yewchat::client::{client_step, ClientAction, ClientEvent};
use yewchat::login::login;
use yewchat::protocol::{MsgTypes, WebSocketMessage};

#[test]
fn server_text_is_printed_with_prefix() {
    match client_step(ClientEvent::ServerText("hello all".to_string())) {
        ClientAction::Print(line) => assert_eq!(line, "Anita's Computer - From server: hello all"),
        other => panic!("unexpected {:?}", other),
    }
}

#[test]
fn typed_line_is_sent_unchanged() {
    match client_step(ClientEvent::InputLine("hi\n".to_string())) {
        ClientAction::Send(text) => assert_eq!(text, "hi\n"),
        other => panic!("unexpected {:?}", other),
    }
}

#[test]
fn other_events() {
    assert!(matches!(client_step(ClientEvent::ServerOther), ClientAction::Wait));
    assert!(matches!(client_step(ClientEvent::ServerGone), ClientAction::Stop));
    assert!(matches!(client_step(ClientEvent::InputClosed), ClientAction::Wait));
}

#[test]
fn login_button_needs_a_name() {
    let form = login("");
    assert!(form.start_disabled);
    assert!(form.start_as.is_none());
    let form = login("ann");
    assert!(!form.start_disabled);
    assert_eq!(form.start_as.as_deref(), Some("ann"));
    let form = login(" ");
    assert!(!form.start_disabled);
    assert_eq!(form.start_as.as_deref(), Some(" "));
}

#[test]
fn frame_constructors() {
    let f = WebSocketMessage::register("ann".to_string());
    assert_eq!(f.message_type, MsgTypes::Register);
    assert_eq!(f.data.as_deref(), Some("ann"));
    assert!(f.data_array.is_none());
    let f = WebSocketMessage::chat_line("yo".to_string());
    assert_eq!(f.message_type, MsgTypes::Message);
    assert_eq!(f.data.as_deref(), Some("yo"));
}

#[test]
fn only_enter_submits() {
    assert!(key_submits("Enter"));
    assert!(!key_submits("enter"));
    assert!(!key_submits("a"));
    assert!(!key_submits(""));
}
