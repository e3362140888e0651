use retro_chat::clock::Clock;
use retro_chat::message::{join_message, leave_message, user_message, MessageType};

#[test]
fn join_message_announces_the_user() {
    let clock = Clock::new(8, 15, 0).unwrap();
    let m = join_message("alice", &clock);
    assert_eq!(m.username, "alice");
    assert_eq!(m.content, "alice has joined the chat");
    assert_eq!(m.timestamp, "08:15:00");
    assert_eq!(m.message_type, MessageType::Join);
}

#[test]
fn leave_message_announces_the_user() {
    let clock = Clock::new(21, 4, 9).unwrap();
    let m = leave_message("bob", &clock);
    assert_eq!(m.username, "bob");
    assert_eq!(m.content, "bob has left the chat");
    assert_eq!(m.timestamp, "21:04:09");
    assert_eq!(m.message_type, MessageType::Leave);
}

#[test]
fn user_message_trims_the_line() {
    let clock = Clock::new(10, 0, 1).unwrap();
    let m = user_message("carol", "  hello, room!  \n", &clock);
    assert_eq!(m.username, "carol");
    assert_eq!(m.content, "hello, room!");
    assert_eq!(m.timestamp, "10:00:01");
    assert_eq!(m.message_type, MessageType::UserMessage);
}
