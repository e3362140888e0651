use retro_chat::clock::Clock;
use retro_chat::message::{ChatMessage, MessageType};
use retro_chat::server::{connection_log, Session, SessionAction, SessionEvent};

fn at(h: u32, m: u32, s: u32) -> Clock {
    Clock::new(h, m, s).unwrap()
}

fn published(action: &SessionAction) -> &ChatMessage {
    match action {
        SessionAction::Publish(m) => m,
        other => panic!("expected a broadcast, got {:?}", other),
    }
}

fn joined(name_line: &str) -> Session {
    let mut s = Session::new();
    let actions = s.handle(SessionEvent::Line(name_line.to_string()), &at(12, 0, 0));
    assert_eq!(actions.len(), 1);
    s
}

#[test]
fn name_line_joins_the_room() {
    let mut s = Session::new();
    let actions = s.handle(SessionEvent::Line("  alice \n".to_string()), &at(12, 0, 0));
    assert_eq!(actions.len(), 1);
    let m = published(&actions[0]);
    assert_eq!(m.username, "alice");
    assert_eq!(m.content, "alice has joined the chat");
    assert_eq!(m.timestamp, "12:00:00");
    assert_eq!(m.message_type, MessageType::Join);
    match s {
        Session::Chatting { username } => assert_eq!(username, "alice"),
        other => panic!("unexpected state {:?}", other),
    }
}

#[test]
fn empty_name_line_still_joins() {
    let mut s = Session::new();
    let actions = s.handle(SessionEvent::Line(String::new()), &at(1, 2, 3));
    assert_eq!(published(&actions[0]).content, " has joined the chat");
    assert!(!s.is_closed());
}

#[test]
fn typed_line_is_broadcast_trimmed() {
    let mut s = joined("bob\n");
    let actions = s.handle(SessionEvent::Line("  how are you?\n".to_string()), &at(12, 1, 2));
    assert_eq!(actions.len(), 1);
    let m = published(&actions[0]);
    assert_eq!(m.username, "bob");
    assert_eq!(m.content, "how are you?");
    assert_eq!(m.timestamp, "12:01:02");
    assert_eq!(m.message_type, MessageType::UserMessage);
}

#[test]
fn blank_line_is_an_empty_message_not_a_hang_up() {
    let mut s = joined("bob\n");
    let actions = s.handle(SessionEvent::Line("\n".to_string()), &at(12, 1, 2));
    assert_eq!(published(&actions[0]).content, "");
    assert!(!s.is_closed());
}

#[test]
fn incoming_broadcast_is_written_with_line_end() {
    let mut s = joined("bob\n");
    let actions = s.handle(SessionEvent::Incoming("{\"x\":1}".to_string()), &at(12, 1, 2));
    assert_eq!(actions.len(), 1);
    match &actions[0] {
        SessionAction::Deliver(t) => assert_eq!(t, "{\"x\":1}\n"),
        other => panic!("unexpected {:?}", other),
    }
}

#[test]
fn hang_up_broadcasts_leave_and_logs() {
    let mut s = joined("dave\n");
    let actions = s.handle(SessionEvent::Line(String::new()), &at(18, 30, 5));
    assert_eq!(actions.len(), 2);
    let m = published(&actions[0]);
    assert_eq!(m.content, "dave has left the chat");
    assert_eq!(m.message_type, MessageType::Leave);
    assert_eq!(m.timestamp, "18:30:05");
    match &actions[1] {
        SessionAction::Log(t) => assert_eq!(t, "[18:30:05] dave is disconnected"),
        other => panic!("unexpected {:?}", other),
    }
    assert!(s.is_closed());
}

#[test]
fn failure_closes_without_leave() {
    let mut s = joined("erin\n");
    let actions = s.handle(SessionEvent::Failed, &at(0, 0, 0));
    assert!(actions.is_empty());
    assert!(s.is_closed());
}

#[test]
fn closed_session_ignores_everything() {
    let mut s = joined("erin\n");
    s.handle(SessionEvent::Line(String::new()), &at(0, 0, 0));
    assert!(s.is_closed());
    assert!(s.handle(SessionEvent::Line("more\n".to_string()), &at(0, 0, 1)).is_empty());
    assert!(s.handle(SessionEvent::Incoming("x".to_string()), &at(0, 0, 2)).is_empty());
    assert!(s.handle(SessionEvent::Failed, &at(0, 0, 3)).is_empty());
    assert!(s.is_closed());
}

#[test]
fn broadcasts_of_a_connection_are_in_order() {
    let mut s = Session::new();
    let events = vec![
        SessionEvent::Incoming("early".to_string()),
        SessionEvent::Line("frank\n".to_string()),
        SessionEvent::Line("one\n".to_string()),
        SessionEvent::Incoming("echo".to_string()),
        SessionEvent::Line("two\n".to_string()),
        SessionEvent::Line(String::new()),
        SessionEvent::Line("late\n".to_string()),
    ];
    let mut all = Vec::new();
    for e in events {
        for a in s.handle(e, &at(9, 9, 9)) {
            if let SessionAction::Publish(m) = a {
                all.push(m);
            }
        }
    }
    let kinds: Vec<MessageType> = all.iter().map(|m| m.message_type).collect();
    assert_eq!(
        kinds,
        vec![MessageType::Join, MessageType::UserMessage, MessageType::UserMessage, MessageType::Leave]
    );
    assert!(all.iter().all(|m| m.username == "frank"));
}

#[test]
fn connection_log_shows_time() {
    assert_eq!(connection_log(&at(7, 8, 9)), "New connection: 07:08:09");
}
