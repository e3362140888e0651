//! The terminal server's handling of one connection, as a state machine: the
//! caller reads lines and broadcasts, and hands each of them in as an event; the
//! machine answers with what to broadcast, what to write back and what to log.
use vstd::prelude::*;
use vstd::string::*;
use crate::clock::Clock;
use crate::message::{
    join_message, join_message_view, leave_message, leave_message_view, user_message,
    user_message_view, ChatMessage, ChatMessageView, MessageType,
};
use crate::text::{lemma_trim_ignores_trailing_space, trim, trimmed};

verus! {

/// Where a connection stands.
#[derive(Clone, Debug)]
pub enum Session {
    /// The first line, the user's name, has not been read yet.
    AwaitingName,
    /// The user has joined under `username`.
    Chatting { username: String },
    /// The connection is over; nothing more is done for it.
    Closed,
}

/// What a [`Session`] stands for.
pub enum SessionState {
    AwaitingName,
    Chatting(Seq<char>),
    Closed,
}

impl View for Session {
    type V = SessionState;

    open spec fn view(&self) -> SessionState {
        match self {
            Session::AwaitingName => SessionState::AwaitingName,
            Session::Chatting { username } => SessionState::Chatting(username@),
            Session::Closed => SessionState::Closed,
        }
    }
}

/// Something that happened on a connection.
#[derive(Clone, Debug)]
pub enum SessionEvent {
    /// A line read from the client, as `read_line` leaves it (with its line end);
    /// the empty line means that the client has hung up.
    Line(String),
    /// A message that the room's broadcast brought, to be written to this client.
    Incoming(String),
    /// Reading, writing or receiving failed: the connection is dropped.
    Failed,
}

/// What a [`SessionEvent`] stands for.
pub enum SessionEventView {
    Line(Seq<char>),
    Incoming(Seq<char>),
    Failed,
}

impl View for SessionEvent {
    type V = SessionEventView;

    open spec fn view(&self) -> SessionEventView {
        match self {
            SessionEvent::Line(l) => SessionEventView::Line(l@),
            SessionEvent::Incoming(t) => SessionEventView::Incoming(t@),
            SessionEvent::Failed => SessionEventView::Failed,
        }
    }
}

/// What the connection's handler is to do.
#[derive(Clone, Debug)]
pub enum SessionAction {
    /// Broadcast this message to the whole room.
    Publish(ChatMessage),
    /// Write these bytes to the client.
    Deliver(String),
    /// Print this line to the server's log.
    Log(String),
}

/// What a [`SessionAction`] stands for.
pub enum SessionActionView {
    Publish(ChatMessageView),
    Deliver(Seq<char>),
    Log(Seq<char>),
}

impl View for SessionAction {
    type V = SessionActionView;

    open spec fn view(&self) -> SessionActionView {
        match self {
            SessionAction::Publish(m) => SessionActionView::Publish(m@),
            SessionAction::Deliver(t) => SessionActionView::Deliver(t@),
            SessionAction::Log(t) => SessionActionView::Log(t@),
        }
    }
}

/// The views of a list of actions.
pub open spec fn actions_view(actions: Seq<SessionAction>) -> Seq<SessionActionView> {
    actions.map_values(|a: SessionAction| a@)
}

/// The log line written when `username` disconnects at `time`.
pub open spec fn disconnect_log(username: Seq<char>, time: Seq<char>) -> Seq<char> {
    "["@ + time + "] "@ + username + " is disconnected"@
}

/// One step of a connection: the state after `event` at the time `time`, and the
/// actions it calls for.
pub open spec fn session_step(state: SessionState, event: SessionEventView, time: Seq<char>) -> (
    SessionState,
    Seq<SessionActionView>,
) {
    match state {
        SessionState::Closed => (SessionState::Closed, seq![]),
        SessionState::AwaitingName => match event {
            SessionEventView::Line(line) => {
                let name = trimmed(line);
                (
                    SessionState::Chatting(name),
                    seq![SessionActionView::Publish(join_message_view(name, time))],
                )
            },
            SessionEventView::Incoming(text) => (
                SessionState::AwaitingName,
                seq![SessionActionView::Deliver(text + "\n"@)],
            ),
            SessionEventView::Failed => (SessionState::Closed, seq![]),
        },
        SessionState::Chatting(name) => match event {
            SessionEventView::Line(line) => if line.len() == 0 {
                (
                    SessionState::Closed,
                    seq![
                        SessionActionView::Publish(leave_message_view(name, time)),
                        SessionActionView::Log(disconnect_log(name, time)),
                    ],
                )
            } else {
                (
                    SessionState::Chatting(name),
                    seq![SessionActionView::Publish(user_message_view(name, line, time))],
                )
            },
            SessionEventView::Incoming(text) => (
                SessionState::Chatting(name),
                seq![SessionActionView::Deliver(text + "\n"@)],
            ),
            SessionEventView::Failed => (SessionState::Closed, seq![]),
        },
    }
}

/// The messages among `actions` that are broadcast, in order.
pub open spec fn published(actions: Seq<SessionActionView>) -> Seq<ChatMessageView>
    decreases actions.len(),
{
    if actions.len() == 0 {
        seq![]
    } else {
        let rest = published(actions.drop_last());
        match actions.last() {
            SessionActionView::Publish(m) => rest.push(m),
            _ => rest,
        }
    }
}

/// Where a connection stands after a run of events, and all that it has broadcast.
pub struct SessionRun {
    pub state: SessionState,
    pub published: Seq<ChatMessageView>,
}

/// A fresh connection driven through `trace`, each event with the time at which it
/// happened.
pub open spec fn run(trace: Seq<(SessionEventView, Seq<char>)>) -> SessionRun
    decreases trace.len(),
{
    if trace.len() == 0 {
        SessionRun { state: SessionState::AwaitingName, published: seq![] }
    } else {
        let prev = run(trace.drop_last());
        let step = session_step(prev.state, trace.last().0, trace.last().1);
        SessionRun { state: step.0, published: prev.published + published(step.1) }
    }
}

/// The broadcasts of one connection are in order: the join comes first and only
/// first, a leave only last, and all of them carry one name.
pub open spec fn orderly(p: Seq<ChatMessageView>) -> bool {
    &&& forall|i: int| 0 <= i < p.len() ==> (#[trigger] p[i].message_type == MessageType::Join
        <==> i == 0)
    &&& forall|i: int|
        0 <= i < p.len() && #[trigger] p[i].message_type == MessageType::Leave ==> i == p.len() - 1
    &&& forall|i: int| 0 <= i < p.len() ==> #[trigger] p[i].username == p[0].username
}

/// A finished connection does nothing more, whatever happens.
pub proof fn lemma_closed_is_final(event: SessionEventView, time: Seq<char>)
    ensures
        session_step(SessionState::Closed, event, time) == (SessionState::Closed, Seq::<
            SessionActionView,
        >::empty()),
{
}

/// Whatever a connection is fed, it broadcasts its join message first and once,
/// a leave message at most once and last, and every message under the name it
/// joined with; before the name is read it broadcasts nothing, and while it is
/// chatting it has not broadcast a leave.
pub proof fn lemma_session_broadcasts_in_order(trace: Seq<(SessionEventView, Seq<char>)>)
    ensures
        orderly(run(trace).published),
        run(trace).state is AwaitingName ==> run(trace).published.len() == 0,
        run(trace).state matches SessionState::Chatting(name) ==> {
            &&& run(trace).published.len() > 0
            &&& run(trace).published[0].username == name
            &&& forall|i: int|
                0 <= i < run(trace).published.len() ==> #[trigger] run(trace).published[i].message_type
                    != MessageType::Leave
        },
    decreases trace.len(),
{
    reveal_with_fuel(published, 3);
    if trace.len() > 0 {
        lemma_session_broadcasts_in_order(trace.drop_last());
        let prev = run(trace.drop_last());
        let step = session_step(prev.state, trace.last().0, trace.last().1);
        let p = run(trace).published;
        assert(p == prev.published + published(step.1));
        if let SessionState::Chatting(name) = prev.state {
            assert(prev.published[0].username == name);
        }
        assert(forall|i: int| 0 <= i < prev.published.len() ==> p[i] == prev.published[i]);
    }
}

/// Whether `event` is a client hanging up: a line read that comes back empty.
pub open spec fn is_hang_up(event: SessionEventView) -> bool {
    match event {
        SessionEventView::Line(line) => line.len() == 0,
        _ => false,
    }
}

/// Whether `p` holds a leave message.
pub open spec fn has_leave(p: Seq<ChatMessageView>) -> bool {
    exists|i: int| 0 <= i < p.len() && #[trigger] p[i].message_type == MessageType::Leave
}

/// One step broadcasts a leave exactly when a chatting client hangs up (its line
/// read comes back empty), and that step ends the connection.
pub proof fn lemma_leave_only_on_hang_up(
    state: SessionState,
    event: SessionEventView,
    time: Seq<char>,
)
    ensures
        has_leave(published(session_step(state, event, time).1)) <==> (state is Chatting
            && is_hang_up(event)),
        has_leave(published(session_step(state, event, time).1)) ==> session_step(
            state,
            event,
            time,
        ).0 is Closed,
{
    reveal_with_fuel(published, 3);
    let p = published(session_step(state, event, time).1);
    if state is Chatting && is_hang_up(event) {
        assert(p[0].message_type == MessageType::Leave);
    }
}

/// Over any run of a connection: where a leave has been broadcast, it came from a
/// step at which the chatting client hung up, nothing has been broadcast since,
/// and the connection is over.
pub proof fn lemma_leave_comes_from_hang_up(trace: Seq<(SessionEventView, Seq<char>)>)
    ensures
        has_leave(run(trace).published) ==> {
            &&& run(trace).state is Closed
            &&& exists|k: int|
                0 <= k < trace.len() && (#[trigger] run(trace.take(k))).state is Chatting
                    && is_hang_up(trace[k].0) && run(
                    trace.take(k + 1),
                ).published == run(trace).published
        },
    decreases trace.len(),
{
    if trace.len() > 0 && has_leave(run(trace).published) {
        let prev_trace = trace.drop_last();
        let prev = run(prev_trace);
        let e = trace.last().0;
        let t = trace.last().1;
        let step = session_step(prev.state, e, t);
        let p = run(trace).published;
        assert(p == prev.published + published(step.1));
        lemma_leave_only_on_hang_up(prev.state, e, t);
        let n = trace.len() - 1;
        assert(trace.take(n) =~= prev_trace);
        assert(trace.take(n + 1) =~= trace);
        if has_leave(published(step.1)) {
            assert(run(trace.take(n)).state is Chatting);
            assert(trace[n].0 == e);
        } else {
            let i = choose|i: int| 0 <= i < p.len() && #[trigger] p[i].message_type == MessageType::Leave;
            assert(i < prev.published.len()) by {
                if i >= prev.published.len() {
                    assert(published(step.1)[i - prev.published.len()] == p[i]);
                }
            }
            assert(prev.published[i] == p[i]);
            lemma_leave_comes_from_hang_up(prev_trace);
            lemma_closed_is_final(e, t);
            assert(published(step.1) =~= Seq::<ChatMessageView>::empty());
            assert(p =~= prev.published);
            let k = choose|k: int|
                0 <= k < prev_trace.len() && (#[trigger] run(prev_trace.take(k))).state is Chatting
                    && is_hang_up(prev_trace[k].0)
                    && run(prev_trace.take(k + 1)).published == prev.published;
            assert(prev_trace.take(k) =~= trace.take(k));
            assert(prev_trace.take(k + 1) =~= trace.take(k + 1));
            assert(trace[k] == prev_trace[k]);
        }
    }
}

/// Every broadcast of the room, whatever it holds (the client's own lines and join
/// among them), is written back to an open connection whole, with one line end, as
/// the step's only action; the connection stays where it was.
pub proof fn lemma_incoming_is_delivered(state: SessionState, text: Seq<char>, time: Seq<char>)
    requires
        !(state is Closed),
    ensures
        session_step(state, SessionEventView::Incoming(text), time).0 == state,
        session_step(state, SessionEventView::Incoming(text), time).1.len() == 1,
        session_step(state, SessionEventView::Incoming(text), time).1[0] matches SessionActionView::Deliver(
            written,
        ) && written.len() == text.len() + 1 && written.drop_last() == text && written.last()
            == '\n',
{
    reveal_strlit("\n");
    assert((text + "\n"@).drop_last() =~= text);
}

/// The name a client sends as its first line, with its line end, is the name the
/// room hears it join under, trimmed.
pub proof fn lemma_name_line_joins_trimmed(username: Seq<char>, time: Seq<char>)
    ensures
        session_step(SessionState::AwaitingName, SessionEventView::Line(username + "\n"@), time)
            == (
            SessionState::Chatting(trimmed(username)),
            seq![SessionActionView::Publish(join_message_view(trimmed(username), time))],
        ),
{
    reveal_strlit("\n");
    assert(username + "\n"@ =~= username.push('\n'));
    lemma_trim_ignores_trailing_space(username, '\n');
}

/// A line a client sends, with its line end, never reads as a hang-up: the room
/// hears it from the sender's name, with the line trimmed as its content.
pub proof fn lemma_sent_line_is_published(name: Seq<char>, line: Seq<char>, time: Seq<char>)
    ensures
        session_step(SessionState::Chatting(name), SessionEventView::Line(line + "\n"@), time) == (
            SessionState::Chatting(name),
            seq![
                SessionActionView::Publish(
                    ChatMessageView {
                        username: name,
                        content: trimmed(line),
                        timestamp: time,
                        message_type: MessageType::UserMessage,
                    },
                ),
            ],
        ),
{
    reveal_strlit("\n");
    assert(line + "\n"@ =~= line.push('\n'));
    lemma_trim_ignores_trailing_space(line, '\n');
}

/// The log line written when a connection is accepted at `time`.
pub open spec fn connection_log_text(time: Seq<char>) -> Seq<char> {
    "New connection: "@ + time
}

/// The log line written when a connection is accepted at the time of `clock`.
pub fn connection_log(clock: &Clock) -> (r: String)
    ensures
        r@ == connection_log_text(clock@.text()),
{
    let mut line = "New connection: ".to_owned();
    let stamp = clock.timestamp();
    line.append(stamp.as_str());
    line
}

/// The log line written when `username` disconnects at the time of `clock`.
fn disconnect_line(username: &str, clock: &Clock) -> (r: String)
    ensures
        r@ == disconnect_log(username@, clock@.text()),
{
    let mut line = "[".to_owned();
    let stamp = clock.timestamp();
    line.append(stamp.as_str());
    line.append("] ");
    line.append(username);
    line.append(" is disconnected");
    line
}

/// `text` followed by a line end, as it is written to a client.
fn framed(text: &str) -> (r: String)
    ensures
        r@ == text@ + "\n"@,
{
    let mut out = text.to_owned();
    out.append("\n");
    out
}

impl Session {
    /// A connection that has just been accepted.
    pub fn new() -> (r: Session)
        ensures
            r@ == SessionState::AwaitingName,
    {
        Session::AwaitingName
    }

    /// Whether the connection is over.
    pub fn is_closed(&self) -> (r: bool)
        ensures
            r <==> self@ is Closed,
    {
        match self {
            Session::Closed => true,
            _ => false,
        }
    }

    /// Handles `event`, which happened at the time of `clock`, and returns the
    /// actions that it calls for, in the order in which they are to be done.
    pub fn handle(&mut self, event: SessionEvent, clock: &Clock) -> (actions: Vec<SessionAction>)
        ensures
            (final(self)@, actions_view(actions@)) == session_step(
                old(self)@,
                event@,
                clock@.text(),
            ),
    {
        let mut actions: Vec<SessionAction> = Vec::new();
        let next = match (&*self, event) {
            (Session::Closed, _) => Session::Closed,
            (_, SessionEvent::Failed) => Session::Closed,
            (Session::AwaitingName, SessionEvent::Line(line)) => {
                let name = trim(line.as_str());
                actions.push(SessionAction::Publish(join_message(name.as_str(), clock)));
                Session::Chatting { username: name }
            },
            (Session::AwaitingName, SessionEvent::Incoming(text)) => {
                actions.push(SessionAction::Deliver(framed(text.as_str())));
                Session::AwaitingName
            },
            (Session::Chatting { username }, SessionEvent::Line(line)) => {
                if line.as_str().is_empty() {
                    actions.push(SessionAction::Publish(leave_message(username.as_str(), clock)));
                    actions.push(SessionAction::Log(disconnect_line(username.as_str(), clock)));
                    Session::Closed
                } else {
                    actions.push(
                        SessionAction::Publish(user_message(username.as_str(), line.as_str(), clock)),
                    );
                    Session::Chatting { username: username.clone() }
                }
            },
            (Session::Chatting { username }, SessionEvent::Incoming(text)) => {
                actions.push(SessionAction::Deliver(framed(text.as_str())));
                Session::Chatting { username: username.clone() }
            },
        };
        *self = next;
        actions
    }
}

} // verus!
