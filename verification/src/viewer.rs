//! The viewer's side of the wire: one reconnecting reader per feed, and the
//! decoding of what it reads.

use crate::outside::{decode_profile, decode_scores, decoded_profile};
use crate::structs::WsKind;
use rosu_v2::model::score::Score;
use rosu_v2::model::user::UserExtended;
use vstd::prelude::*;

verus! {

/// Seconds to wait after a connection attempt failed, before the next one.
pub const RECONNECT_BACKOFF_SECS: u64 = 1;

/// The state of one feed's connection; `S` is the open socket.
#[derive(Debug)]
pub enum State<S> {
    Disconnected,
    Connected(S),
}

/// A handle that comes with the news of a connection.
#[derive(Clone, Copy, PartialEq, Eq, Debug, Structural)]
pub struct Connection {}

/// What a feed delivers, decoded.
#[derive(Clone, Debug)]
pub enum Message {
    Connected,
    Disconnected,
    User(Box<UserExtended>),
    Tops(Vec<Score>),
    Firsts(Vec<Score>),
    Recent(Vec<Score>),
}

/// What a reader tells the user interface.
#[derive(Clone, Debug)]
pub enum Event {
    Connected(Connection),
    Disconnected,
    MessageReceived(Message),
}

/// A message, with each list as a sequence.
pub enum MessageView {
    Connected,
    Disconnected,
    User(UserExtended),
    Tops(Seq<Score>),
    Firsts(Seq<Score>),
    Recent(Seq<Score>),
}

/// An event, with its message as a view.
pub enum EventView {
    Connected(Connection),
    Disconnected,
    MessageReceived(MessageView),
}

impl View for Message {
    type V = MessageView;

    open spec fn view(&self) -> MessageView {
        match self {
            Message::Connected => MessageView::Connected,
            Message::Disconnected => MessageView::Disconnected,
            Message::User(profile) => MessageView::User(**profile),
            Message::Tops(scores) => MessageView::Tops(scores@),
            Message::Firsts(scores) => MessageView::Firsts(scores@),
            Message::Recent(scores) => MessageView::Recent(scores@),
        }
    }
}

impl View for Event {
    type V = EventView;

    open spec fn view(&self) -> EventView {
        match self {
            Event::Connected(connection) => EventView::Connected(*connection),
            Event::Disconnected => EventView::Disconnected,
            Event::MessageReceived(message) => EventView::MessageReceived(message@),
        }
    }
}

/// The message that a list of scores becomes on a feed. The profile feed
/// carries no list.
pub open spec fn scores_message(kind: WsKind, scores: Seq<Score>) -> Option<MessageView> {
    match kind {
        WsKind::User => None,
        WsKind::Tops => Some(MessageView::Tops(scores)),
        WsKind::Firsts => Some(MessageView::Firsts(scores)),
        WsKind::Recent => Some(MessageView::Recent(scores)),
    }
}

/// The message that a text frame of the profile feed decodes to. A text that
/// does not decode gives no message.
pub open spec fn profile_frame(text: Seq<char>) -> Option<MessageView> {
    match decoded_profile(text) {
        Some(profile) => Some(MessageView::User(profile)),
        None => None,
    }
}

/// The message is of the one kind that the feed carries: a profile on the
/// profile feed, a list of scores under the feed's own name on the others.
pub open spec fn of_feed(kind: WsKind, message: MessageView) -> bool {
    match (kind, message) {
        (WsKind::User, MessageView::User(_)) => true,
        (WsKind::Tops, MessageView::Tops(_)) => true,
        (WsKind::Firsts, MessageView::Firsts(_)) => true,
        (WsKind::Recent, MessageView::Recent(_)) => true,
        _ => false,
    }
}

/// What the decoding of a text frame of a feed can give. On the profile feed
/// the text fixes it. On a score feed the decoder of the scores has the say:
/// whatever it does, a message that comes out is of the feed's kind.
pub open spec fn may_decode_to(kind: WsKind, text: Seq<char>, message: Option<MessageView>) -> bool {
    match kind {
        WsKind::User => message == profile_frame(text),
        _ => match message {
            Some(m) => of_feed(kind, m),
            None => true,
        },
    }
}

/// Wraps a decoded profile as the message of the profile feed.
pub fn profile_message(profile: UserExtended) -> (message: Message)
    ensures
        message@ == MessageView::User(profile),
{
    Message::User(Box::new(profile))
}

/// Wraps a decoded list of scores as the message of its feed.
pub fn into_message(kind: WsKind, scores: Vec<Score>) -> (message: Option<Message>)
    ensures
        view_of(message) == scores_message(kind, scores@),
{
    match kind {
        WsKind::User => None,
        WsKind::Tops => Some(Message::Tops(scores)),
        WsKind::Firsts => Some(Message::Firsts(scores)),
        WsKind::Recent => Some(Message::Recent(scores)),
    }
}

/// The view of a message that may be absent.
pub open spec fn view_of(message: Option<Message>) -> Option<MessageView> {
    match message {
        Some(m) => Some(m@),
        None => None,
    }
}

/// Decodes one text frame of a feed. What becomes of a decoded list of scores
/// is `into_message`.
pub fn decode_frame(kind: WsKind, text: &str) -> (message: Option<Message>)
    ensures
        may_decode_to(kind, text@, view_of(message)),
{
    match kind {
        WsKind::User => match decode_profile(text) {
            Ok(profile) => Some(profile_message(profile)),
            Err(_) => None,
        },
        _ => match decode_scores(text) {
            Ok(scores) => into_message(kind, scores),
            Err(_) => None,
        },
    }
}

/// What came off an open socket.
#[derive(Debug)]
pub enum Incoming {
    /// A text frame.
    Text(String),
    /// A frame that carries no text.
    Other,
    /// A close frame.
    Close,
    /// The stream failed or ended.
    Broken,
}

/// What a reader does next.
#[derive(Debug)]
pub struct Reaction<S> {
    /// The state to go on with.
    pub state: State<S>,
    /// Seconds to wait before anything else.
    pub wait_secs: u64,
    /// What to tell the user interface, after the wait.
    pub event: Option<Event>,
}

/// The view of an event that may be absent.
pub open spec fn event_view(event: Option<Event>) -> Option<EventView> {
    match event {
        Some(e) => Some(e@),
        None => None,
    }
}

/// Decides what follows a connection attempt. With a socket, the reader is
/// connected and says so at once. Without one it stays disconnected, waits the
/// backoff and then says that it is disconnected; the caller tries again.
pub fn on_connect<S>(attempt: Option<S>) -> (reaction: Reaction<S>)
    ensures
        match attempt {
            Some(socket) => {
                &&& reaction.state == State::Connected(socket)
                &&& reaction.wait_secs == 0
                &&& event_view(reaction.event) == Some(EventView::Connected(Connection {  }))
            },
            None => {
                &&& reaction.state == State::<S>::Disconnected
                &&& reaction.wait_secs == RECONNECT_BACKOFF_SECS
                &&& event_view(reaction.event) == Some(EventView::Disconnected)
            },
        },
{
    match attempt {
        Some(socket) => Reaction {
            state: State::Connected(socket),
            wait_secs: 0,
            event: Some(Event::Connected(Connection {  })),
        },
        None => Reaction {
            state: State::Disconnected,
            wait_secs: RECONNECT_BACKOFF_SECS,
            event: Some(Event::Disconnected),
        },
    }
}

/// The state after something came off the socket: a close frame or a broken
/// stream tears the connection down, anything else leaves the state as it is.
pub open spec fn state_after<S>(state: State<S>, incoming: Incoming) -> State<S> {
    match incoming {
        Incoming::Close => State::Disconnected,
        Incoming::Broken => State::Disconnected,
        _ => state,
    }
}

/// The event that can follow something that came off the socket of a feed.
/// Only a text frame on an open connection can give one, and then only the
/// message that the frame decodes to; everything else is silent.
pub open spec fn event_may_follow<S>(
    state: State<S>,
    kind: WsKind,
    incoming: Incoming,
    event: Option<EventView>,
) -> bool {
    match (state, incoming) {
        (State::Connected(_), Incoming::Text(text)) => match event {
            Some(EventView::MessageReceived(message)) => may_decode_to(kind, text@, Some(message)),
            Some(_) => false,
            None => may_decode_to(kind, text@, None),
        },
        _ => event.is_none(),
    }
}

/// Decides what follows something that came off the socket of a feed. The
/// reader never waits here: after a teardown the caller connects again at
/// once.
pub fn on_incoming<S>(state: State<S>, kind: WsKind, incoming: Incoming) -> (reaction: Reaction<S>)
    ensures
        reaction.state == state_after(state, incoming),
        reaction.wait_secs == 0,
        event_may_follow(state, kind, incoming, event_view(reaction.event)),
{
    match incoming {
        Incoming::Close => Reaction { state: State::Disconnected, wait_secs: 0, event: None },
        Incoming::Broken => Reaction { state: State::Disconnected, wait_secs: 0, event: None },
        Incoming::Other => Reaction { state, wait_secs: 0, event: None },
        Incoming::Text(text) => {
            let event = match &state {
                State::Connected(_) => match decode_frame(kind, text.as_str()) {
                    Some(message) => Some(Event::MessageReceived(message)),
                    None => None,
                },
                State::Disconnected => None,
            };
            Reaction { state, wait_secs: 0, event }
        },
    }
}

/// On the profile feed the text fixes the event: a frame that decodes is
/// passed on with the profile it holds, and one that does not is dropped.
pub proof fn law_profile_frames_are_fixed<S>(socket: S, text: String, event: Option<EventView>)
    requires
        event_may_follow(State::Connected(socket), WsKind::User, Incoming::Text(text), event),
    ensures
        event == match decoded_profile(text@) {
            Some(profile) => Some(EventView::MessageReceived(MessageView::User(profile))),
            None => None,
        },
{
}

} // verus!
