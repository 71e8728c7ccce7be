//! Sessions.
//!
//! A session is one client's stream, served in two directions that run side
//! by side. The relay direction writes what the bus delivers to the client,
//! as it is. The command direction reads what the client sends, takes each
//! chunk read as one message, and dispatches it. Each direction ends on its
//! own; the session has ended when both have.

use vstd::prelude::*;

pub mod docker;
pub mod system;

use crate::bus::{BroadcastBus, BusView, Cursor, Delivery};
use crate::events::{Event, EventView};
use crate::serializers::{decode_message, decode_text_spec};
use docker::{first_turn, silent, Fault, Turn, TurnView};

verus! {

/// The text that `String::from_utf8_lossy` makes of bytes.
pub uninterp spec fn utf8_lossy(bytes: Seq<u8>) -> Seq<char>;

/// Calls `String::from_utf8_lossy` and takes the text as its own.
#[verifier::external_body]
fn lossy_text(bytes: &[u8]) -> (text: String)
    ensures
        text@ == utf8_lossy(bytes@),
{
    String::from_utf8_lossy(bytes).into_owned()
}

/// The first turn for a message from a client.
pub open spec fn message_turn(message: Seq<char>) -> TurnView {
    match decode_text_spec(message) {
        Ok(EventView::Docker(event)) => first_turn(event),
        Ok(EventView::System(_)) => silent(None),
        Err(error) => silent(Some(Fault::Rejected(error))),
    }
}

/// Takes up a message from a client: reads it as an event and routes the
/// event to its handler. A message that cannot be read is dropped, without
/// a response.
pub fn handle_message(message: &str) -> (turn: Turn)
    ensures
        turn@ == message_turn(message@),
{
    match decode_message(message) {
        Ok(Event::Docker(event)) => docker::handle_message(&event),
        Ok(Event::System(event)) => system::handle_message(&event),
        Err(error) => {
            let turn = Turn { responses: Vec::new(), next: None, fault: Some(Fault::Rejected(error)) };
            assert(turn.responses.deep_view() =~= Seq::empty());
            turn
        },
    }
}

/// What reading from the client's stream gave.
#[derive(Debug, PartialEq, Eq)]
pub enum Read {
    /// The bytes of one read.
    Data(Vec<u8>),
    /// The stream has no more data.
    Finished,
    /// Reading failed.
    Failed,
}

/// What the relay direction does with a delivery.
#[derive(Debug, PartialEq, Eq)]
pub enum Relay {
    /// Write this text to the client.
    Write(String),
    /// Wait for the bus to have news.
    Wait,
    /// The direction has ended.
    Stop,
}

pub enum RelayView {
    Write(Seq<char>),
    Wait,
    Stop,
}

impl View for Relay {
    type V = RelayView;

    open spec fn view(&self) -> RelayView {
        match self {
            Relay::Write(text) => RelayView::Write(text@),
            Relay::Wait => RelayView::Wait,
            Relay::Stop => RelayView::Stop,
        }
    }
}

/// One client's session: its place on the bus, and which of its two
/// directions are still running.
pub struct Session {
    cursor: Cursor,
    relaying: bool,
    commanding: bool,
}

pub struct SessionView {
    /// The number of the message that the relay direction reads next.
    pub position: nat,
    pub relaying: bool,
    pub commanding: bool,
}

impl View for Session {
    type V = SessionView;

    closed spec fn view(&self) -> SessionView {
        SessionView {
            position: self.cursor@,
            relaying: self.relaying,
            commanding: self.commanding,
        }
    }
}

impl SessionView {
    /// Whether both directions have ended.
    pub open spec fn ended(self) -> bool {
        !self.relaying && !self.commanding
    }
}

/// What the relay direction does next, and where that leaves the session.
pub open spec fn relay_step(session: SessionView, bus: BusView) -> (RelayView, SessionView) {
    if !session.relaying {
        (RelayView::Stop, session)
    } else {
        match bus.next_index(session.position) {
            Some(index) => (
                RelayView::Write(bus.history[index as int]),
                SessionView { position: index + 1, ..session },
            ),
            None => if bus.closed {
                (RelayView::Stop, SessionView { relaying: false, ..session })
            } else {
                (RelayView::Wait, session)
            },
        }
    }
}

/// Whether a read keeps the command direction running: it does when it
/// brought at least one byte.
pub open spec fn read_continues(read: Read) -> bool {
    read matches Read::Data(bytes) && bytes@.len() > 0
}

/// What the command direction does with a read, and where that leaves the
/// session.
pub open spec fn command_step(session: SessionView, read: Read) -> (Option<TurnView>, SessionView) {
    if session.commanding && read_continues(read) {
        (Some(message_turn(utf8_lossy(read->Data_0@))), session)
    } else {
        (None, SessionView { commanding: false, ..session })
    }
}

impl Session {
    /// A session on a stream that was just accepted: both directions run,
    /// and the relay direction starts at what the bus publishes from now on.
    pub fn new(bus: &BroadcastBus) -> (session: Session)
        ensures
            session@ == (SessionView {
                position: bus@.history.len(),
                relaying: true,
                commanding: true,
            }),
    {
        Session { cursor: bus.subscribe(), relaying: true, commanding: true }
    }

    /// Whether the relay direction still runs.
    pub fn is_relaying(&self) -> (relaying: bool)
        ensures
            relaying == self@.relaying,
    {
        self.relaying
    }

    /// Whether the command direction still runs.
    pub fn is_commanding(&self) -> (commanding: bool)
        ensures
            commanding == self@.commanding,
    {
        self.commanding
    }

    /// Whether both directions have ended.
    pub fn is_ended(&self) -> (ended: bool)
        ensures
            ended == self@.ended(),
    {
        !self.relaying && !self.commanding
    }

    /// The relay direction's step. The next message that the bus has for
    /// this session is to be written to the client, as it is. Where there
    /// is none the direction waits, or ends if the bus is closed. Once it
    /// has ended it does nothing.
    pub fn relay(&mut self, bus: &BroadcastBus) -> (action: Relay)
        ensures
            (action@, final(self)@) == relay_step(old(self)@, bus@),
    {
        if !self.relaying {
            return Relay::Stop;
        }
        match bus.next(&mut self.cursor) {
            Delivery::Message { sequence: _, text } => Relay::Write(text),
            Delivery::Pending => Relay::Wait,
            Delivery::Closed => {
                self.relaying = false;
                Relay::Stop
            },
        }
    }

    /// Ends the relay direction, after a write to the client failed.
    pub fn relay_failed(&mut self)
        ensures
            final(self)@ == (SessionView { relaying: false, ..old(self)@ }),
    {
        self.relaying = false;
    }

    /// The command direction's step. The bytes of one read are one
    /// message, taken up as [`handle_message`] says. The direction ends
    /// when the read brought nothing or failed. Once it has ended it does
    /// nothing.
    pub fn command(&mut self, read: Read) -> (turn: Option<Turn>)
        ensures
            (turn.deep_view(), final(self)@) == command_step(old(self)@, read),
    {
        if !self.commanding {
            return None;
        }
        match read {
            Read::Data(bytes) => {
                if bytes.len() == 0 {
                    self.commanding = false;
                    None
                } else {
                    let message = lossy_text(bytes.as_slice());
                    Some(handle_message(message.as_str()))
                }
            },
            _ => {
                self.commanding = false;
                None
            },
        }
    }

    /// Ends the command direction, after a response could not be written.
    pub fn command_failed(&mut self)
        ensures
            final(self)@ == (SessionView { commanding: false, ..old(self)@ }),
    {
        self.commanding = false;
    }
}

/// A message that is published is relayed, as it is, to every session that
/// had been relayed everything before it.
pub proof fn lemma_publication_relayed(session: SessionView, bus: BusView, message: Seq<char>)
    requires
        bus.capacity >= 1,
        session.relaying,
        session.position == bus.history.len(),
    ensures
        relay_step(session, bus.with(message)) == (
            RelayView::Write(message),
            SessionView { position: session.position + 1, ..session },
        ),
{
}

/// What two sessions at the same place on the bus are told to write is the
/// same text: a message reaches every session as the same envelope.
pub proof fn lemma_sessions_read_alike(first: SessionView, second: SessionView, bus: BusView)
    requires
        first.relaying,
        second.relaying,
        first.position == second.position,
    ensures
        relay_step(first, bus).0 == relay_step(second, bus).0,
{
}

} // verus!
