//! What the bot makes of what comes in from the chat, and what it sends.
use crate::html::str_eq;
use crate::make::common::{reply_view, Reply, ReplyView};
use vstd::prelude::*;

verus! {

/// How a message of the bot is to be shown.
#[derive(Clone, Copy, Debug, PartialEq, Eq, Structural)]
pub enum MessageType {
    RoomNotice,
    TextMessage,
    Image,
}

/// The name that the chat has for messages of the type `t`.
pub open spec fn kind_name(t: MessageType) -> Seq<char> {
    match t {
        MessageType::RoomNotice => "m.notice"@,
        MessageType::TextMessage => "m.text"@,
        MessageType::Image => "m.image"@,
    }
}

/// The name that the chat has for messages of the type `t`.
pub fn kind_of_message(t: MessageType) -> (name: &'static str)
    ensures
        name@ == kind_name(t),
{
    match t {
        MessageType::RoomNotice => "m.notice",
        MessageType::TextMessage => "m.text",
        MessageType::Image => "m.image",
    }
}

/// Whether the handlers that come next are to see a message.
#[derive(Clone, Copy, Debug, PartialEq, Eq, Structural)]
pub enum HandleResult {
    ContinueHandling,
    StopHandling,
}

/// What the chat reports to the bot.
#[derive(Clone, Debug)]
pub enum BotEvent {
    /// The rooms have changed.
    UpdateRooms,
    /// Messages have come in.
    RoomMessages,
    /// The bot is logged in, as this user.
    Token(String),
    /// A round of synchronisation is over.
    Sync,
    /// A round of synchronisation has failed.
    SyncError,
    /// The chat has shut down.
    ShutDown,
    /// The bot could not log in.
    LoginError,
    /// Anything else.
    Other,
}

/// What the bot does about what the chat reports.
#[derive(Clone, Copy, Debug, PartialEq, Eq, Structural)]
pub enum BotAction {
    /// Join the rooms to which the bot is invited, and let the handlers know.
    HandleRooms,
    /// Hand the messages to the handlers.
    HandleMessages,
    /// Remember the user, and synchronise for the first time.
    FirstSync,
    /// Synchronise again.
    NextSync,
    /// Stop.
    Stop,
    /// Give up: the bot cannot work.
    Panic,
    /// Nothing.
    Nothing,
}

/// What the bot does about `event`.
pub open spec fn reaction(event: BotEvent) -> BotAction {
    match event {
        BotEvent::UpdateRooms => BotAction::HandleRooms,
        BotEvent::RoomMessages => BotAction::HandleMessages,
        BotEvent::Token(_) => BotAction::FirstSync,
        BotEvent::Sync => BotAction::NextSync,
        BotEvent::SyncError => BotAction::NextSync,
        BotEvent::ShutDown => BotAction::Stop,
        BotEvent::LoginError => BotAction::Panic,
        BotEvent::Other => BotAction::Nothing,
    }
}

/// What the bot does about `event`.
pub fn handle_recvs(event: &BotEvent) -> (action: BotAction)
    ensures
        action == reaction(*event),
{
    match event {
        BotEvent::UpdateRooms => BotAction::HandleRooms,
        BotEvent::RoomMessages => BotAction::HandleMessages,
        BotEvent::Token(_) => BotAction::FirstSync,
        BotEvent::Sync => BotAction::NextSync,
        BotEvent::SyncError => BotAction::NextSync,
        BotEvent::ShutDown => BotAction::Stop,
        BotEvent::LoginError => BotAction::Panic,
        BotEvent::Other => BotAction::Nothing,
    }
}

/// Whether a message of the type `mtype` from `sender` is one for the
/// handlers of the bot that is logged in as `uid`: a text that is not the
/// bot's own.
pub fn is_for_handlers(mtype: &str, sender: &str, uid: &str) -> (b: bool)
    ensures
        b == (mtype@ == "m.text"@ && sender@ != uid@),
{
    str_eq(mtype, "m.text") && !str_eq(sender, uid)
}

/// What a message is to the bot.
#[derive(Clone, Debug, PartialEq)]
pub enum Incoming {
    /// The message that was handled last, once more.
    Repeated,
    /// Talk in the room: this is the line to log.
    Chat(String),
    /// A command.
    Command,
}

/// What an [`Incoming`] says.
pub enum IncomingView {
    Repeated,
    Chat(Seq<char>),
    Command,
}

impl View for Incoming {
    type V = IncomingView;

    open spec fn view(&self) -> IncomingView {
        match *self {
            Incoming::Repeated => IncomingView::Repeated,
            Incoming::Chat(line) => IncomingView::Chat(line@),
            Incoming::Command => IncomingView::Command,
        }
    }
}

/// What the message `id` with the text `body`, which `user` wrote in `room`,
/// is to the bot that handled `last_message_id` last. A command starts with
/// `!`.
pub open spec fn incoming(
    room: Seq<char>,
    user: Seq<char>,
    body: Seq<char>,
    id: Seq<char>,
    last_message_id: Seq<char>,
) -> IncomingView {
    if id == last_message_id {
        IncomingView::Repeated
    } else if body.len() > 0 && body[0] == '!' {
        IncomingView::Command
    } else {
        IncomingView::Chat("["@ + room + "] "@ + user + "> "@ + body)
    }
}

/// What the message `id` with the text `body`, which `user` wrote in `room`,
/// is to the bot that handled `last_message_id` last.
pub fn classify(room: &str, user: &str, body: &str, id: &str, last_message_id: &str) -> (kind:
    Incoming)
    ensures
        kind@ == incoming(room@, user@, body@, id@, last_message_id@),
{
    if str_eq(id, last_message_id) {
        return Incoming::Repeated;
    }
    if body.unicode_len() > 0 && body.get_char(0) == '!' {
        return Incoming::Command;
    }
    let mut line = String::from_str("[");
    line.append(room);
    line.append("] ");
    line.append(user);
    line.append("> ");
    line.append(body);
    Incoming::Chat(line)
}

/// What the bot sends.
#[derive(Clone, Debug, PartialEq)]
pub enum Outgoing {
    /// Nothing.
    Nothing,
    /// A text.
    Text(String),
    /// A text and its HTML form.
    Html(String, String),
}

/// What an [`Outgoing`] says.
pub enum OutgoingView {
    Nothing,
    Text(Seq<char>),
    Html(Seq<char>, Seq<char>),
}

impl View for Outgoing {
    type V = OutgoingView;

    open spec fn view(&self) -> OutgoingView {
        match *self {
            Outgoing::Nothing => OutgoingView::Nothing,
            Outgoing::Text(msg) => OutgoingView::Text(msg@),
            Outgoing::Html(msg, html) => OutgoingView::Html(msg@, html@),
        }
    }
}

/// What is sent for the reply `reply`: its text alone where its HTML form
/// is empty.
pub open spec fn outgoing_of(reply: ReplyView) -> OutgoingView {
    match reply {
        None => OutgoingView::Nothing,
        Some(r) => if r.1.len() == 0 {
            OutgoingView::Text(r.0)
        } else {
            OutgoingView::Html(r.0, r.1)
        },
    }
}

/// What is sent for the reply `reply`.
pub fn outgoing(reply: Reply) -> (out: Outgoing)
    ensures
        out@ == outgoing_of(reply_view(reply)),
{
    match reply {
        None => Outgoing::Nothing,
        Some((msg, html)) => {
            if html.as_str().unicode_len() == 0 {
                Outgoing::Text(msg)
            } else {
                Outgoing::Html(msg, html)
            }
        },
    }
}

/// What the bot says when it has joined a room and the store of the room
/// is ready.
pub const WELCOME: &'static str =
    "\n        Hello there! I'm ready to take commands, \n        type `!help` for help\n        ";

/// What the bot says when it has joined a room and could not make the
/// store of the room ready.
pub const NO_STORE: &'static str =
    "\n        Sorry there! Something went wrong when\n        creating your database. You might want \n        to kick me out and invite me again \n        in order to fix this.\n        ";

/// What the bot says when it has joined a room.
pub fn handle_join(store_ready: bool) -> (text: &'static str)
    ensures
        text@ == if store_ready {
            WELCOME@
        } else {
            NO_STORE@
        },
{
    if store_ready {
        WELCOME
    } else {
        NO_STORE
    }
}

} // verus!
