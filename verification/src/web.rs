//! The web room: the form by which a message is posted, the room's broadcast
//! channel, and the decisions of the event stream that every visitor reads.
use vstd::prelude::*;
use vstd::utf8::encode_utf8;
use tokio::sync::broadcast::Sender;

verus! {

/// How many messages the room's channel holds for a visitor who reads slowly.
pub const ROOM_CAPACITY: usize = 1024;

/// The shortest room or user name, in bytes.
pub const NAME_MIN_BYTES: usize = 1;

/// The longest room or user name, in bytes.
pub const NAME_MAX_BYTES: usize = 20;

/// The length of `s` in bytes, in UTF-8.
pub open spec fn byte_len(s: Seq<char>) -> nat {
    encode_utf8(s).len()
}

/// Whether `s` is acceptable as a room or user name: from one to twenty bytes.
pub open spec fn name_ok(s: Seq<char>) -> bool {
    NAME_MIN_BYTES <= byte_len(s) <= NAME_MAX_BYTES
}

/// A message of the web room: the room it is for, who wrote it, and its text.
/// The room and the user name always have acceptable lengths.
#[derive(Debug)]
pub struct Message {
    room: String,
    username: String,
    message: String,
}

/// What a [`Message`] stands for.
pub struct MessageView {
    pub room: Seq<char>,
    pub username: Seq<char>,
    pub message: Seq<char>,
}

impl View for Message {
    type V = MessageView;

    closed spec fn view(&self) -> MessageView {
        MessageView { room: self.room@, username: self.username@, message: self.message@ }
    }
}

/// A field of the posting form.
#[derive(Clone, Copy, Debug, PartialEq, Eq, Structural)]
pub enum FormField {
    Room,
    Username,
}

/// A field whose length is out of bounds, with its length in bytes.
#[derive(Clone, Copy, Debug, PartialEq, Eq, Structural)]
pub struct FormError {
    pub field: FormField,
    pub length: usize,
}

/// The errors of a form with this room and user name, in the order of the fields.
pub open spec fn form_errors(room: Seq<char>, username: Seq<char>) -> Seq<FormError> {
    (if name_ok(room) {
        seq![]
    } else {
        seq![FormError { field: FormField::Room, length: byte_len(room) as usize }]
    }) + (if name_ok(username) {
        seq![]
    } else {
        seq![FormError { field: FormField::Username, length: byte_len(username) as usize }]
    })
}

impl Message {
    #[verifier::type_invariant]
    spec fn inv(self) -> bool {
        name_ok(self.room@) && name_ok(self.username@)
    }

    /// The message posted with these form fields; the room and the user name must
    /// each have one to twenty bytes, or the form is refused with an error for each
    /// field that does not.
    pub fn from_form(room: String, username: String, message: String) -> (r: Result<
        Message,
        Vec<FormError>,
    >)
        ensures
            r is Ok <==> name_ok(room@) && name_ok(username@),
            r matches Ok(m) ==> m@ == (MessageView {
                room: room@,
                username: username@,
                message: message@,
            }),
            r matches Err(e) ==> e@ == form_errors(room@, username@),
    {
        let room_len = room.as_str().as_bytes().len();
        let user_len = username.as_str().as_bytes().len();
        let mut errors: Vec<FormError> = Vec::new();
        if !(NAME_MIN_BYTES <= room_len && room_len <= NAME_MAX_BYTES) {
            errors.push(FormError { field: FormField::Room, length: room_len });
        }
        if !(NAME_MIN_BYTES <= user_len && user_len <= NAME_MAX_BYTES) {
            errors.push(FormError { field: FormField::Username, length: user_len });
        }
        if errors.len() == 0 {
            Ok(Message { room, username, message })
        } else {
            assert(errors@ =~= form_errors(room@, username@));
            Err(errors)
        }
    }

    /// The room the message is for.
    pub fn room(&self) -> (r: &str)
        ensures
            r@ == self@.room,
            name_ok(r@),
    {
        proof {
            use_type_invariant(self);
        }
        self.room.as_str()
    }

    /// Who wrote the message.
    pub fn username(&self) -> (r: &str)
        ensures
            r@ == self@.username,
            name_ok(r@),
    {
        proof {
            use_type_invariant(self);
        }
        self.username.as_str()
    }

    /// The text of the message.
    pub fn message(&self) -> (r: &str)
        ensures
            r@ == self@.message,
    {
        self.message.as_str()
    }
}

impl Clone for Message {
    fn clone(&self) -> (r: Self)
        ensures
            r@ == self@,
    {
        proof {
            use_type_invariant(self);
        }
        Message {
            room: self.room.clone(),
            username: self.username.clone(),
            message: self.message.clone(),
        }
    }
}

/// The room: the sending end of its broadcast channel, which holds up to
/// [`ROOM_CAPACITY`] messages for each visitor.
pub fn rocket() -> (queue: Sender<Message>)
    ensures
        channel_capacity(queue) == ROOM_CAPACITY,
{
    proof {
        reveal_with_fuel(power_of_two_from, 12);
    }
    open_channel(ROOM_CAPACITY)
}

/// Posts `form` to the room: every visitor who is reading the room at this moment
/// is handed the message. Returns how many visitors were reading; where nobody
/// was, the message is not kept and comes back unchanged.
pub fn post(form: Message, queue: &Sender<Message>) -> (r: Result<usize, Message>)
    ensures
        r matches Ok(n) ==> n >= 1,
        r matches Err(m) ==> m@ == form@,
{
    broadcast(queue, form)
}

/// What a visitor's read of the room's channel gave.
#[derive(Debug)]
pub enum Received {
    /// The next message.
    Message(Message),
    /// The channel is closed: the room is gone.
    Closed,
    /// The visitor fell behind, and this many messages were lost to it.
    Lagged(u64),
    /// The server is shutting down.
    Shutdown,
}

/// What the visitor's event stream does next.
#[derive(Debug)]
pub enum StreamStep {
    /// Send this message to the visitor as an event.
    Emit(Message),
    /// Send nothing, and read on.
    Skip,
    /// End the stream.
    End,
}

/// The step of the event stream after `received`: a message is sent on as it is,
/// a lag is passed over, and the stream ends when the room closes or the server
/// shuts down.
pub fn event_step(received: Received) -> (r: StreamStep)
    ensures
        received matches Received::Message(m) ==> r matches StreamStep::Emit(e) && e@ == m@,
        received is Lagged ==> r is Skip,
        received is Closed || received is Shutdown ==> r is End,
{
    match received {
        Received::Message(m) => StreamStep::Emit(m),
        Received::Lagged(_) => StreamStep::Skip,
        Received::Closed => StreamStep::End,
        Received::Shutdown => StreamStep::End,
    }
}

/// Declares tokio's broadcast sender, which verified code holds and passes on.
#[verifier::external_type_specification]
#[verifier::external_body]
#[verifier::reject_recursive_types(T)]
pub struct ExSender<T>(tokio::sync::broadcast::Sender<T>);

/// The first of `p`, `2 * p`, `4 * p`, ... that is at least `c` (for `p` above zero).
pub open spec fn power_of_two_from(c: nat, p: nat) -> nat
    decreases c - p,
{
    if p == 0 || p >= c {
        p
    } else if 2 * p >= c {
        2 * p
    } else {
        power_of_two_from(c, 2 * p)
    }
}

/// The smallest power of two that is at least `c`.
pub open spec fn next_power_of_two(c: nat) -> nat {
    power_of_two_from(c, 1)
}

/// How many messages the room channel behind `queue` holds for each receiver
/// before the oldest are lost to a receiver that reads too slowly. It is fixed
/// when the channel is made.
pub uninterp spec fn channel_capacity(queue: Sender<Message>) -> nat;

/// Calls `tokio::sync::broadcast::channel` with `capacity` and keeps its sending
/// end; the receiving end is dropped. Tokio panics on a capacity of zero or above
/// `usize::MAX / 2`, which `requires` rules out. Claimed of tokio: the channel
/// holds `capacity` rounded up to the next power of two messages for each
/// receiver. Who is subscribed to it, and what it holds, changes behind the
/// shared sender and is not stated.
#[verifier::external_body]
fn open_channel(capacity: usize) -> (queue: Sender<Message>)
    requires
        0 < capacity <= usize::MAX / 2,
    ensures
        channel_capacity(queue) == next_power_of_two(capacity as nat),
{
    tokio::sync::broadcast::channel::<Message>(capacity).0
}

/// Calls `tokio::sync::broadcast::Sender::send`. Claimed of tokio: on success it
/// returns the number of subscribed receivers, at least one; it fails only where
/// there is none, and then hands the message back unchanged. How many receivers
/// there are is the channel's state at the moment of the call, and is not stated.
#[verifier::external_body]
fn broadcast(queue: &Sender<Message>, message: Message) -> (r: Result<usize, Message>)
    ensures
        r matches Ok(n) ==> n >= 1,
        r matches Err(m) ==> m == message,
{
    match queue.send(message) {
        Ok(n) => Ok(n),
        Err(e) => Err(e.0),
    }
}

} // verus!
