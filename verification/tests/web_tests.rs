use retro_chat::web::{
    event_step, post, rocket, FormError, FormField, Message, Received, StreamStep,
};

fn form(room: &str, user: &str, text: &str) -> Result<Message, Vec<FormError>> {
    Message::from_form(room.to_string(), user.to_string(), text.to_string())
}

#[test]
fn valid_form_is_accepted() {
    let m = form("lobby", "alice", "hello").unwrap();
    assert_eq!(m.room(), "lobby");
    assert_eq!(m.username(), "alice");
    assert_eq!(m.message(), "hello");
}

#[test]
fn names_of_one_and_twenty_bytes_are_accepted() {
    assert!(form("r", "u", "").is_ok());
    assert!(form("aaaaaaaaaaaaaaaaaaaa", "bbbbbbbbbbbbbbbbbbbb", "x").is_ok());
}

#[test]
fn empty_room_is_refused() {
    assert_eq!(
        form("", "alice", "hi").unwrap_err(),
        vec![FormError { field: FormField::Room, length: 0 }]
    );
}

#[test]
fn long_username_is_refused() {
    assert_eq!(
        form("lobby", "abcdefghijklmnopqrstu", "hi").unwrap_err(),
        vec![FormError { field: FormField::Username, length: 21 }]
    );
}

#[test]
fn both_bad_fields_are_reported_in_order() {
    assert_eq!(
        form("", "", "hi").unwrap_err(),
        vec![
            FormError { field: FormField::Room, length: 0 },
            FormError { field: FormField::Username, length: 0 }
        ]
    );
}

#[test]
fn lengths_are_counted_in_bytes() {
    // ten characters of two bytes each: twenty bytes
    assert!(form("éééééééééé", "u", "").is_ok());
    // eleven such characters: twenty-two bytes
    assert_eq!(
        form("ééééééééééé", "u", "").unwrap_err(),
        vec![FormError { field: FormField::Room, length: 22 }]
    );
}

#[test]
fn message_text_has_no_bound() {
    let long = "x".repeat(5000);
    assert_eq!(form("r", "u", &long).unwrap().message().len(), 5000);
}

#[test]
fn stream_emits_messages_unchanged() {
    let m = form("lobby", "alice", "hello").unwrap();
    match event_step(Received::Message(m)) {
        StreamStep::Emit(e) => {
            assert_eq!(e.room(), "lobby");
            assert_eq!(e.username(), "alice");
            assert_eq!(e.message(), "hello");
        }
        other => panic!("unexpected {:?}", other),
    }
}

#[test]
fn stream_skips_lag_and_ends_on_close_or_shutdown() {
    assert!(matches!(event_step(Received::Lagged(3)), StreamStep::Skip));
    assert!(matches!(event_step(Received::Closed), StreamStep::End));
    assert!(matches!(event_step(Received::Shutdown), StreamStep::End));
}

#[test]
fn post_reaches_every_reader() {
    let queue = rocket();
    let mut a = queue.subscribe();
    let mut b = queue.subscribe();
    assert_eq!(post(form("lobby", "alice", "hello").unwrap(), &queue).unwrap(), 2);
    let got_a = a.try_recv().unwrap();
    let got_b = b.try_recv().unwrap();
    assert_eq!(got_a.message(), "hello");
    assert_eq!(got_b.username(), "alice");
    assert!(a.try_recv().is_err());
}

#[test]
fn post_with_no_reader_is_dropped() {
    let queue = rocket();
    let back = post(form("lobby", "alice", "nobody hears").unwrap(), &queue).unwrap_err();
    assert_eq!(back.room(), "lobby");
    assert_eq!(back.username(), "alice");
    assert_eq!(back.message(), "nobody hears");
    let mut late = queue.subscribe();
    assert!(late.try_recv().is_err());
}

#[test]
fn room_holds_its_capacity_for_a_slow_reader() {
    let queue = rocket();
    let mut rx = queue.subscribe();
    for i in 0..1025 {
        assert_eq!(post(form("lobby", "alice", &i.to_string()).unwrap(), &queue).unwrap(), 1);
    }
    // one message more than the room holds: the oldest is lost to the reader
    assert!(rx.try_recv().is_err());
    assert_eq!(rx.try_recv().unwrap().message(), "1");
}
