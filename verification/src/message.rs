//! The messages that the terminal server broadcasts to every connected client.
use vstd::prelude::*;
use vstd::string::*;
use crate::clock::Clock;
use crate::text::{is_white_space, trim, trim_end, trim_start, trimmed};

verus! {

/// What a chat message announces.
#[derive(Clone, Copy, Debug, PartialEq, Eq, Hash, Structural)]
pub enum MessageType {
    /// A user has joined the room.
    Join,
    /// A user has left the room.
    Leave,
    /// A line that a user typed.
    UserMessage,
}

/// One message of the room, as the server broadcasts it.
#[derive(Clone, Debug)]
pub struct ChatMessage {
    pub username: String,
    pub content: String,
    pub timestamp: String,
    pub message_type: MessageType,
}

/// The text of a [`ChatMessage`].
pub struct ChatMessageView {
    pub username: Seq<char>,
    pub content: Seq<char>,
    pub timestamp: Seq<char>,
    pub message_type: MessageType,
}

impl View for ChatMessage {
    type V = ChatMessageView;

    open spec fn view(&self) -> ChatMessageView {
        ChatMessageView {
            username: self.username@,
            content: self.content@,
            timestamp: self.timestamp@,
            message_type: self.message_type,
        }
    }
}

/// The announcement that `username` has joined.
pub open spec fn joined_text(username: Seq<char>) -> Seq<char> {
    username + " has joined the chat"@
}

/// The announcement that `username` has left.
pub open spec fn left_text(username: Seq<char>) -> Seq<char> {
    username + " has left the chat"@
}

/// The join message of `username` at `time`.
pub open spec fn join_message_view(username: Seq<char>, time: Seq<char>) -> ChatMessageView {
    ChatMessageView {
        username,
        content: joined_text(username),
        timestamp: time,
        message_type: MessageType::Join,
    }
}

/// The leave message of `username` at `time`.
pub open spec fn leave_message_view(username: Seq<char>, time: Seq<char>) -> ChatMessageView {
    ChatMessageView {
        username,
        content: left_text(username),
        timestamp: time,
        message_type: MessageType::Leave,
    }
}

/// The message that `username` sends by typing `line` at `time`.
pub open spec fn user_message_view(username: Seq<char>, line: Seq<char>, time: Seq<char>) -> ChatMessageView {
    ChatMessageView {
        username,
        content: trimmed(line),
        timestamp: time,
        message_type: MessageType::UserMessage,
    }
}

/// A join message names the whole user: it carries the user name and the time as
/// given, and its content is every character of the name followed by
/// " has joined the chat".
pub proof fn lemma_join_message_names_whole_user(username: Seq<char>, time: Seq<char>)
    ensures
        join_message_view(username, time).username == username,
        join_message_view(username, time).timestamp == time,
        join_message_view(username, time).message_type == MessageType::Join,
        join_message_view(username, time).content.len() == username.len() + 20,
        join_message_view(username, time).content.subrange(0, username.len() as int) == username,
        join_message_view(username, time).content.subrange(
            username.len() as int,
            username.len() + 20int,
        ) == " has joined the chat"@,
{
    reveal_strlit(" has joined the chat");
    let c = join_message_view(username, time).content;
    assert(c.subrange(0, username.len() as int) =~= username);
    assert(c.subrange(username.len() as int, username.len() + 20int) =~= " has joined the chat"@);
}

/// A leave message names the whole user: it carries the user name and the time as
/// given, and its content is every character of the name followed by
/// " has left the chat".
pub proof fn lemma_leave_message_names_whole_user(username: Seq<char>, time: Seq<char>)
    ensures
        leave_message_view(username, time).username == username,
        leave_message_view(username, time).timestamp == time,
        leave_message_view(username, time).message_type == MessageType::Leave,
        leave_message_view(username, time).content.len() == username.len() + 18,
        leave_message_view(username, time).content.subrange(0, username.len() as int) == username,
        leave_message_view(username, time).content.subrange(
            username.len() as int,
            username.len() + 18int,
        ) == " has left the chat"@,
{
    reveal_strlit(" has left the chat");
    let c = leave_message_view(username, time).content;
    assert(c.subrange(0, username.len() as int) =~= username);
    assert(c.subrange(username.len() as int, username.len() + 18int) =~= " has left the chat"@);
}

/// A user's message carries the user name and time as given, and as content the
/// typed line with exactly its surrounding whitespace removed, whatever its length.
pub proof fn lemma_user_message_keeps_line(username: Seq<char>, line: Seq<char>, time: Seq<char>)
    ensures
        user_message_view(username, line, time).username == username,
        user_message_view(username, line, time).timestamp == time,
        user_message_view(username, line, time).message_type == MessageType::UserMessage,
        user_message_view(username, line, time).content == trimmed(line),
        (line.len() == 0 || (!is_white_space(line[0]) && !is_white_space(line.last())))
            ==> user_message_view(username, line, time).content == line,
{
    if line.len() > 0 && !is_white_space(line[0]) && !is_white_space(line.last()) {
        assert(trim_start(line) == line);
        assert(trim_end(line) == line);
    }
}

/// The message that announces that `username` has joined, stamped with `clock`.
pub fn join_message(username: &str, clock: &Clock) -> (r: ChatMessage)
    ensures
        r@ == join_message_view(username@, clock@.text()),
{
    let mut content = username.to_owned();
    content.append(" has joined the chat");
    ChatMessage {
        username: username.to_owned(),
        content,
        timestamp: clock.timestamp(),
        message_type: MessageType::Join,
    }
}

/// The message that announces that `username` has left, stamped with `clock`.
pub fn leave_message(username: &str, clock: &Clock) -> (r: ChatMessage)
    ensures
        r@ == leave_message_view(username@, clock@.text()),
{
    let mut content = username.to_owned();
    content.append(" has left the chat");
    ChatMessage {
        username: username.to_owned(),
        content,
        timestamp: clock.timestamp(),
        message_type: MessageType::Leave,
    }
}

/// The message that `username` sends with the line `line`: its content is the line
/// without surrounding whitespace.
pub fn user_message(username: &str, line: &str, clock: &Clock) -> (r: ChatMessage)
    ensures
        r@ == user_message_view(username@, line@, clock@.text()),
{
    ChatMessage {
        username: username.to_owned(),
        content: trim(line),
        timestamp: clock.timestamp(),
        message_type: MessageType::UserMessage,
    }
}

} // verus!
