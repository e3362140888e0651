use retro_chat::client::{format_incoming, header, send_message, username_line, UiEffect};
use retro_chat::clock::Clock;
use retro_chat::message::{ChatMessage, MessageType};

#[test]
fn empty_input_does_nothing() {
    assert!(send_message("").is_empty());
}

#[test]
fn help_shows_commands_and_clears_input() {
    let effects = send_message("/help");
    assert_eq!(effects.len(), 2);
    match &effects[0] {
        UiEffect::AppendMessages(t) => assert_eq!(
            t,
            "\n=== Commands ===\n/help - Show this help\n/clear - Clear messages\n/quit - Exit chat\n\n"
        ),
        other => panic!("unexpected {:?}", other),
    }
    assert!(matches!(effects[1], UiEffect::ClearInput));
}

#[test]
fn clear_empties_both_areas() {
    let effects = send_message("/clear");
    assert_eq!(effects.len(), 2);
    assert!(matches!(effects[0], UiEffect::ClearMessages));
    assert!(matches!(effects[1], UiEffect::ClearInput));
}

#[test]
fn quit_leaves() {
    let effects = send_message("/quit");
    assert_eq!(effects.len(), 1);
    assert!(matches!(effects[0], UiEffect::Quit));
}

#[test]
fn other_lines_go_to_the_server() {
    for line in ["hello", "/unknown", " /quit", "/help me"] {
        let effects = send_message(line);
        assert_eq!(effects.len(), 2);
        match &effects[0] {
            UiEffect::SendToServer(t) => assert_eq!(t, &format!("{}\n", line)),
            other => panic!("unexpected {:?}", other),
        }
        assert!(matches!(effects[1], UiEffect::ClearInput));
    }
}

#[test]
fn username_line_ends_with_newline() {
    assert_eq!(username_line("alice"), "alice\n");
}

#[test]
fn user_message_is_shown_under_time_and_name() {
    let m = ChatMessage {
        username: "alice".to_string(),
        content: "hi".to_string(),
        timestamp: "10:11:12".to_string(),
        message_type: MessageType::UserMessage,
    };
    assert_eq!(format_incoming(&m), "┌─[10:11:12]\n└─ alice ▶ hi\n");
}

#[test]
fn announcements_are_shown_in_brackets() {
    let join = ChatMessage {
        username: "bob".to_string(),
        content: "bob has joined the chat".to_string(),
        timestamp: "10:11:12".to_string(),
        message_type: MessageType::Join,
    };
    assert_eq!(format_incoming(&join), "\n[bob bob has joined the chat]\n");
    let leave = ChatMessage { message_type: MessageType::Leave, content: "bob has left the chat".to_string(), ..join };
    assert_eq!(format_incoming(&leave), "\n[bob bob has left the chat]\n");
}

#[test]
fn header_shows_user_and_time() {
    let clock = Clock::new(6, 7, 8).unwrap();
    assert_eq!(header("alice", &clock), "╔═ RETRO CHAT ═╗ User: alice ╔═ 06:07:08 ═╗");
}
