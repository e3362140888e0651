//! The terminal client's decisions: what a submitted line does, how a message of
//! the room is shown, and the retro look of the screen.
use vstd::prelude::*;
use vstd::string::*;
use crate::clock::Clock;
use crate::message::{ChatMessage, ChatMessageView, MessageType};

verus! {

/// What the screen does after the user submits a line.
#[derive(Clone, Debug)]
pub enum UiEffect {
    /// Add this text at the end of the message area.
    AppendMessages(String),
    /// Empty the message area.
    ClearMessages,
    /// Empty the input line.
    ClearInput,
    /// Leave the program.
    Quit,
    /// Write this text to the server.
    SendToServer(String),
}

/// What a [`UiEffect`] stands for.
pub enum UiEffectView {
    AppendMessages(Seq<char>),
    ClearMessages,
    ClearInput,
    Quit,
    SendToServer(Seq<char>),
}

impl View for UiEffect {
    type V = UiEffectView;

    open spec fn view(&self) -> UiEffectView {
        match self {
            UiEffect::AppendMessages(t) => UiEffectView::AppendMessages(t@),
            UiEffect::ClearMessages => UiEffectView::ClearMessages,
            UiEffect::ClearInput => UiEffectView::ClearInput,
            UiEffect::Quit => UiEffectView::Quit,
            UiEffect::SendToServer(t) => UiEffectView::SendToServer(t@),
        }
    }
}

/// The views of a list of effects.
pub open spec fn effects_view(effects: Seq<UiEffect>) -> Seq<UiEffectView> {
    effects.map_values(|e: UiEffect| e@)
}

/// The text that `/help` shows.
pub open spec fn help_text() -> Seq<char> {
    "\n=== Commands ===\n/help - Show this help\n/clear - Clear messages\n/quit - Exit chat\n\n"@
}

/// What submitting `line` does: nothing for an empty line; `/help`, `/clear` and
/// `/quit` are commands; any other line is sent to the server with a line end.
pub open spec fn input_effects(line: Seq<char>) -> Seq<UiEffectView> {
    if line.len() == 0 {
        seq![]
    } else if line == "/help"@ {
        seq![UiEffectView::AppendMessages(help_text()), UiEffectView::ClearInput]
    } else if line == "/clear"@ {
        seq![UiEffectView::ClearMessages, UiEffectView::ClearInput]
    } else if line == "/quit"@ {
        seq![UiEffectView::Quit]
    } else {
        seq![UiEffectView::SendToServer(line + "\n"@), UiEffectView::ClearInput]
    }
}

/// `text` followed by a line end.
fn with_line_end(text: &str) -> (r: String)
    ensures
        r@ == text@ + "\n"@,
{
    let mut out = text.to_owned();
    out.append("\n");
    out
}

/// What the screen is to do with the line `msg` that the user submitted, in order.
pub fn send_message(msg: &str) -> (effects: Vec<UiEffect>)
    ensures
        effects_view(effects@) == input_effects(msg@),
{
    let mut effects: Vec<UiEffect> = Vec::new();
    let line = msg.to_owned();
    if msg.is_empty() {
        return effects;
    }
    if line == "/help".to_owned() {
        let help = "\n=== Commands ===\n/help - Show this help\n/clear - Clear messages\n/quit - Exit chat\n\n".to_owned();
        effects.push(UiEffect::AppendMessages(help));
        effects.push(UiEffect::ClearInput);
    } else if line == "/clear".to_owned() {
        effects.push(UiEffect::ClearMessages);
        effects.push(UiEffect::ClearInput);
    } else if line == "/quit".to_owned() {
        effects.push(UiEffect::Quit);
    } else {
        effects.push(UiEffect::SendToServer(with_line_end(msg)));
        effects.push(UiEffect::ClearInput);
    }
    assert(effects_view(effects@) =~= input_effects(msg@));
    effects
}

/// The first line the client sends: the user's name.
pub fn username_line(username: &str) -> (r: String)
    ensures
        r@ == username@ + "\n"@,
{
    with_line_end(username)
}

/// How a message of the room is shown: a line the user typed under its time and
/// name, an announcement in brackets.
pub open spec fn shown_text(m: ChatMessageView) -> Seq<char> {
    match m.message_type {
        MessageType::UserMessage => "┌─["@ + m.timestamp + "]\n└─ "@ + m.username + " ▶ "@
            + m.content + "\n"@,
        _ => "\n["@ + m.username + " "@ + m.content + "]\n"@,
    }
}

/// Any line that is neither empty nor exactly one of the three commands is sent to
/// the server whole, however long: the sent text is the line followed by one line
/// end, and the input is then cleared.
pub proof fn lemma_plain_line_is_sent_whole(line: Seq<char>)
    requires
        line.len() > 0,
        line != "/help"@,
        line != "/clear"@,
        line != "/quit"@,
    ensures
        input_effects(line).len() == 2,
        input_effects(line)[0] matches UiEffectView::SendToServer(sent) && sent.len() == line.len()
            + 1 && sent.drop_last() == line && sent.last() == '\n',
        input_effects(line)[1] is ClearInput,
{
    reveal_strlit("\n");
    assert((line + "\n"@).drop_last() =~= line);
}

/// The three commands and the empty line do not reach the server.
pub proof fn lemma_commands_stay_local(line: Seq<char>)
    requires
        line.len() == 0 || line == "/help"@ || line == "/clear"@ || line == "/quit"@,
    ensures
        forall|i: int|
            0 <= i < input_effects(line).len() ==> !(#[trigger] input_effects(line)[i] is SendToServer),
{
}

/// A user's line is shown whole, however long: the shown text is the time in
/// brackets, a line break, the name, the arrow, and every character of the content,
/// ending with a line end.
pub proof fn lemma_user_line_shown_whole(m: ChatMessageView)
    requires
        m.message_type == MessageType::UserMessage,
    ensures
        shown_text(m) == "┌─["@ + m.timestamp + "]\n└─ "@ + m.username + " ▶ "@ + m.content
            + "\n"@,
        shown_text(m).len() == m.timestamp.len() + m.username.len() + m.content.len() + 12,
        shown_text(m).subrange(
            shown_text(m).len() - 1 - m.content.len(),
            shown_text(m).len() - 1,
        ) == m.content,
        shown_text(m).last() == '\n',
{
    reveal_strlit("┌─[");
    reveal_strlit("]\n└─ ");
    reveal_strlit(" ▶ ");
    reveal_strlit("\n");
    let s = shown_text(m);
    assert(s.subrange(s.len() - 1 - m.content.len(), s.len() - 1) =~= m.content);
}

/// An announcement is shown whole in brackets: a blank line, then the name, a
/// space and every character of the content between brackets, ending with a line end.
pub proof fn lemma_announcement_shown_whole(m: ChatMessageView)
    requires
        m.message_type != MessageType::UserMessage,
    ensures
        shown_text(m) == "\n["@ + m.username + " "@ + m.content + "]\n"@,
        shown_text(m).len() == m.username.len() + m.content.len() + 5,
        shown_text(m).subrange(
            shown_text(m).len() - 2 - m.content.len(),
            shown_text(m).len() - 2,
        ) == m.content,
{
    reveal_strlit("\n[");
    reveal_strlit(" ");
    reveal_strlit("]\n");
    let s = shown_text(m);
    assert(s.subrange(s.len() - 2 - m.content.len(), s.len() - 2) =~= m.content);
}

/// The text that shows `msg` in the message area.
pub fn format_incoming(msg: &ChatMessage) -> (r: String)
    ensures
        r@ == shown_text(msg@),
{
    match msg.message_type {
        MessageType::UserMessage => {
            let mut out = "┌─[".to_owned();
            out.append(msg.timestamp.as_str());
            out.append("]\n└─ ");
            out.append(msg.username.as_str());
            out.append(" ▶ ");
            out.append(msg.content.as_str());
            out.append("\n");
            out
        },
        _ => {
            let mut out = "\n[".to_owned();
            out.append(msg.username.as_str());
            out.append(" ");
            out.append(msg.content.as_str());
            out.append("]\n");
            out
        },
    }
}

/// The title line of the screen.
pub open spec fn header_text(username: Seq<char>, time: Seq<char>) -> Seq<char> {
    "╔═ RETRO CHAT ═╗ User: "@ + username + " ╔═ "@ + time + " ═╗"@
}

/// The title line for `username`, with the time of `clock`.
pub fn header(username: &str, clock: &Clock) -> (r: String)
    ensures
        r@ == header_text(username@, clock@.text()),
{
    let mut out = "╔═ RETRO CHAT ═╗ User: ".to_owned();
    out.append(username);
    out.append(" ╔═ ");
    let stamp = clock.timestamp();
    out.append(stamp.as_str());
    out.append(" ═╗");
    out
}

} // verus!
