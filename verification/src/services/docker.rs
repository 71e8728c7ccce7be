//! The upstream event source.
//!
//! The runtime reports what happens to its objects as raw messages: the
//! kind of object, what was done to it, and who it is. Each is given a tag,
//! made from the first two, and read as the event that the tag names. The
//! connection to the runtime is kept by a small machine: it is told what
//! happened and answers with the next thing to do.

use vstd::prelude::*;
use vstd::string::*;
use crate::bus::{drained, lemma_drained_in_order, BusView};
use crate::events::docker::{DockerEvent, DockerEventView, DockerStatusData};
use crate::events::{Event, EventView};
use crate::json::{find_member, lemma_object_view, member, JsonModel, JsonValue};
use crate::serializers::{
    decode, decode_spec, decoded, dto_text, lemma_wire_names, DecodeError,
};

verus! {

/// Seconds between two attempts to reach the runtime.
pub const INTERVAL: u64 = 10;

/// The characters that `char::to_uppercase` yields for a character.
pub uninterp spec fn char_uppercase(c: char) -> Seq<char>;

/// The text that `str::to_lowercase` returns for a text.
pub uninterp spec fn text_lowercase(text: Seq<char>) -> Seq<char>;

/// Collects what `char::to_uppercase` yields.
#[verifier::external_body]
fn uppercase_of(c: char) -> (upper: String)
    ensures
        upper@ == char_uppercase(c),
{
    c.to_uppercase().collect()
}

/// Calls `str::to_lowercase`.
#[verifier::external_body]
fn lowercase_of(text: &str) -> (lower: String)
    ensures
        lower@ == text_lowercase(text@),
{
    text.to_lowercase()
}

/// A word with its first character in upper case and the rest in lower
/// case.
pub open spec fn formatted_value(text: Seq<char>) -> Seq<char> {
    if text.len() == 0 {
        Seq::empty()
    } else {
        char_uppercase(text[0]) + text_lowercase(text.subrange(1, text.len() as int))
    }
}

/// Puts the first character of a word in upper case and the rest in lower
/// case.
pub fn format_docker_event_value(s: &str) -> (formatted: String)
    ensures
        formatted@ == formatted_value(s@),
{
    let len = s.unicode_len();
    if len == 0 {
        String::new()
    } else {
        let first = uppercase_of(s.get_char(0));
        let rest = lowercase_of(s.substring_char(1, len));
        first.concat(rest.as_str())
    }
}

/// The tag of a raw message about an object of kind `typ` to which `action`
/// was done.
pub open spec fn event_tag_spec(typ: Seq<char>, action: Seq<char>) -> Seq<char> {
    "Docker"@ + formatted_value(typ) + formatted_value(action)
}

/// Makes the tag of a raw message from the kind of its object and the
/// action.
pub fn event_tag(typ: &str, action: &str) -> (tag: String)
    ensures
        tag@ == event_tag_spec(typ@, action@),
{
    let kind = format_docker_event_value(typ);
    let verb = format_docker_event_value(action);
    "Docker".to_owned().concat(kind.as_str()).concat(verb.as_str())
}

/// Who a raw message is about.
#[derive(Debug, Clone, PartialEq, Eq)]
pub struct EventActor {
    pub id: Option<String>,
}

/// A raw message of the runtime's event feed, as far as the relay reads it.
#[derive(Debug, Clone, PartialEq, Eq)]
pub struct EventMessage {
    pub typ: Option<String>,
    pub action: Option<String>,
    pub actor: Option<EventActor>,
}

pub struct EventMessageView {
    pub typ: Option<Seq<char>>,
    pub action: Option<Seq<char>>,
    pub actor: Option<Option<Seq<char>>>,
}

impl View for EventActor {
    type V = Option<Seq<char>>;

    open spec fn view(&self) -> Option<Seq<char>> {
        self.id.deep_view()
    }
}

impl DeepView for EventActor {
    type V = Option<Seq<char>>;

    open spec fn deep_view(&self) -> Option<Seq<char>> {
        self@
    }
}

impl View for EventMessage {
    type V = EventMessageView;

    open spec fn view(&self) -> EventMessageView {
        EventMessageView {
            typ: self.typ.deep_view(),
            action: self.action.deep_view(),
            actor: self.actor.deep_view(),
        }
    }
}

/// The payload that an actor is read as: its id under `ID`, and `null`
/// where the message names no actor.
pub open spec fn actor_payload(actor: Option<Option<Seq<char>>>) -> JsonModel {
    match actor {
        None => JsonModel::Null,
        Some(None) => JsonModel::Object(Seq::empty()),
        Some(Some(id)) => JsonModel::Object(seq![("ID"@, JsonModel::Text(id))]),
    }
}

/// The envelope that a raw message with the tag `tag` is read as.
pub open spec fn raw_envelope(tag: Seq<char>, actor: Option<Option<Seq<char>>>) -> JsonModel {
    JsonModel::Object(seq![("type"@, JsonModel::Text(tag)), ("data"@, actor_payload(actor))])
}

/// The event that a raw message stands for. A message without the kind of
/// its object or without an action has no tag.
pub open spec fn translated(message: EventMessageView) -> Result<EventView, DecodeError> {
    match (message.typ, message.action) {
        (Some(typ), Some(action)) => decode_spec(
            raw_envelope(event_tag_spec(typ, action), message.actor),
        ),
        _ => Err(DecodeError::MissingTag),
    }
}

/// A raw message with the tag of a container that was started, stopped or
/// restarted is read as that event, with the id of its actor.
pub proof fn lemma_container_messages(id: Option<Seq<char>>)
    ensures
        decode_spec(raw_envelope("DockerContainerStart"@, Some(id))) == Ok::<
            EventView,
            DecodeError,
        >(EventView::Docker(DockerEventView::DockerContainerStart { container_id: id })),
        decode_spec(raw_envelope("DockerContainerStop"@, Some(id))) == Ok::<
            EventView,
            DecodeError,
        >(EventView::Docker(DockerEventView::DockerContainerStop { container_id: id })),
        decode_spec(raw_envelope("DockerContainerRestart"@, Some(id))) == Ok::<
            EventView,
            DecodeError,
        >(EventView::Docker(DockerEventView::DockerContainerRestart { container_id: id })),
{
    lemma_wire_names();
    reveal_with_fuel(find_member, 3);
    let data = actor_payload(Some(id))->Object_0;
    assert(member(data, "containerId"@).is_none());
    if let Some(text) = id {
        assert(member(data, "ID"@) == Some(JsonModel::Text(text)));
    } else {
        assert(member(data, "ID"@).is_none());
    }
    let start = raw_envelope("DockerContainerStart"@, Some(id));
    assert(member(start->Object_0, "type"@) == Some(JsonModel::Text("DockerContainerStart"@)));
    assert(member(start->Object_0, "data"@) == Some(JsonModel::Object(data)));
    let stop = raw_envelope("DockerContainerStop"@, Some(id));
    assert(member(stop->Object_0, "type"@) == Some(JsonModel::Text("DockerContainerStop"@)));
    assert(member(stop->Object_0, "data"@) == Some(JsonModel::Object(data)));
    let restart = raw_envelope("DockerContainerRestart"@, Some(id));
    assert(member(restart->Object_0, "type"@) == Some(JsonModel::Text("DockerContainerRestart"@)));
    assert(member(restart->Object_0, "data"@) == Some(JsonModel::Object(data)));
}

/// Reads what a raw message says about `actor` as the event that `tag`
/// names.
pub fn translate_tagged(tag: &str, actor: &Option<EventActor>) -> (result: Result<
    Event,
    DecodeError,
>)
    ensures
        decoded(result) == decode_spec(raw_envelope(tag@, actor.deep_view())),
{
    let payload = match actor {
        None => JsonValue::Null,
        Some(actor) => {
            let mut members: Vec<(String, JsonValue)> = Vec::new();
            match &actor.id {
                Some(id) => {
                    members.push(("ID".to_owned(), JsonValue::Text(id.clone())));
                    assert(members.deep_view() =~= seq![("ID"@, JsonModel::Text(id@))]);
                },
                None => {
                    assert(members.deep_view() =~= Seq::empty());
                },
            }
            proof {
                lemma_object_view(members);
            }
            JsonValue::Object(members)
        },
    };
    let mut root: Vec<(String, JsonValue)> = Vec::new();
    root.push(("type".to_owned(), JsonValue::Text(tag.to_owned())));
    root.push(("data".to_owned(), payload));
    proof {
        assert(root.deep_view() =~= seq![
            ("type"@, JsonModel::Text(tag@)),
            ("data"@, actor_payload(actor.deep_view())),
        ]);
        lemma_object_view(root);
    }
    decode(&JsonValue::Object(root))
}

/// Reads a raw message as an event. A message that stands for none is to
/// be passed over: the feed goes on.
pub fn translate(message: &EventMessage) -> (result: Result<Event, DecodeError>)
    ensures
        decoded(result) == translated(message@),
{
    match (&message.typ, &message.action) {
        (Some(typ), Some(action)) => {
            let tag = event_tag(typ.as_str(), action.as_str());
            translate_tagged(tag.as_str(), &message.actor)
        },
        _ => Err(DecodeError::MissingTag),
    }
}

/// What a liveness probe of the runtime found.
#[derive(Debug, Clone, Copy, PartialEq, Eq)]
pub enum Liveness {
    /// No client connection to the runtime could be made.
    Unreachable,
    /// The runtime answered the probe.
    Reachable,
    /// A connection was made but the probe failed.
    Erroring,
}

impl Liveness {
    /// What a probe found that went as far as `connected` and `answered`
    /// say: without a connection the runtime is unreachable; with one, it
    /// is reachable where it answered and erroring where it did not.
    pub fn from_probe(connected: bool, answered: bool) -> (liveness: Liveness)
        ensures
            liveness == if !connected {
                Liveness::Unreachable
            } else if answered {
                Liveness::Reachable
            } else {
                Liveness::Erroring
            },
    {
        if !connected {
            Liveness::Unreachable
        } else if answered {
            Liveness::Reachable
        } else {
            Liveness::Erroring
        }
    }

    pub open spec fn spec_code(self) -> i8 {
        match self {
            Liveness::Unreachable => 0i8,
            Liveness::Reachable => 1i8,
            Liveness::Erroring => 2i8,
        }
    }

    /// The status code that clients are shown.
    #[verifier::when_used_as_spec(spec_code)]
    pub fn code(self) -> (code: i8)
        ensures
            code == self.spec_code(),
    {
        match self {
            Liveness::Unreachable => 0,
            Liveness::Reachable => 1,
            Liveness::Erroring => 2,
        }
    }
}

/// Where the connection to the runtime stands.
#[derive(Debug, Clone, Copy, PartialEq, Eq)]
pub enum UpstreamState {
    /// The runtime could not be reached; the next attempt is due after the
    /// retry interval.
    Disconnected,
    /// An attempt to reach the runtime is under way.
    Connecting,
    /// The event feed is open.
    Streaming,
}

/// What happened on the runtime's side.
#[derive(Debug, Clone, PartialEq, Eq)]
pub enum UpstreamInput {
    /// The attempt to reach the runtime failed.
    ConnectFailed,
    /// The runtime was reached.
    Connected,
    /// The retry interval is over.
    RetryElapsed,
    /// The feed delivered a raw message.
    Message(EventMessage),
    /// The feed ended or broke.
    FeedClosed,
}

pub enum UpstreamInputView {
    ConnectFailed,
    Connected,
    RetryElapsed,
    Message(EventMessageView),
    FeedClosed,
}

impl View for UpstreamInput {
    type V = UpstreamInputView;

    open spec fn view(&self) -> UpstreamInputView {
        match self {
            UpstreamInput::ConnectFailed => UpstreamInputView::ConnectFailed,
            UpstreamInput::Connected => UpstreamInputView::Connected,
            UpstreamInput::RetryElapsed => UpstreamInputView::RetryElapsed,
            UpstreamInput::Message(message) => UpstreamInputView::Message(message@),
            UpstreamInput::FeedClosed => UpstreamInputView::FeedClosed,
        }
    }
}

/// What to do next on the runtime's side.
#[derive(Debug, Clone, Copy, PartialEq, Eq)]
pub enum UpstreamCommand {
    /// Try to reach the runtime and open its event feed.
    Connect,
    /// Let this many seconds pass.
    Wait { seconds: u64 },
    /// Take the next raw message from the feed.
    NextMessage,
}

/// The outcome of one step of the upstream source: its new state, the event
/// to publish on the bus, if any, and what to do next.
#[derive(Debug, PartialEq, Eq)]
pub struct UpstreamStep {
    pub state: UpstreamState,
    pub publish: Option<Event>,
    pub command: UpstreamCommand,
}

pub struct UpstreamStepView {
    pub state: UpstreamState,
    pub publish: Option<EventView>,
    pub command: UpstreamCommand,
}

impl View for UpstreamStep {
    type V = UpstreamStepView;

    open spec fn view(&self) -> UpstreamStepView {
        UpstreamStepView {
            state: self.state,
            publish: self.publish.deep_view(),
            command: self.command,
        }
    }
}

/// The event that tells clients that the runtime cannot be reached.
pub open spec fn unreachable_event() -> EventView {
    EventView::Docker(DockerEventView::DockerStatus { status: Some(0i8) })
}

/// What a state does when nothing has happened that concerns it.
pub open spec fn command_of(state: UpstreamState) -> UpstreamCommand {
    match state {
        UpstreamState::Disconnected => UpstreamCommand::Wait { seconds: INTERVAL },
        UpstreamState::Connecting => UpstreamCommand::Connect,
        UpstreamState::Streaming => UpstreamCommand::NextMessage,
    }
}

/// One step of the upstream source. An input that does not concern the
/// state changes nothing.
pub open spec fn upstream_step(state: UpstreamState, input: UpstreamInputView) -> UpstreamStepView {
    match (state, input) {
        (UpstreamState::Connecting, UpstreamInputView::ConnectFailed) => UpstreamStepView {
            state: UpstreamState::Disconnected,
            publish: Some(unreachable_event()),
            command: UpstreamCommand::Wait { seconds: INTERVAL },
        },
        (UpstreamState::Connecting, UpstreamInputView::Connected) => UpstreamStepView {
            state: UpstreamState::Streaming,
            publish: None,
            command: UpstreamCommand::NextMessage,
        },
        (UpstreamState::Disconnected, UpstreamInputView::RetryElapsed) => UpstreamStepView {
            state: UpstreamState::Connecting,
            publish: None,
            command: UpstreamCommand::Connect,
        },
        (UpstreamState::Streaming, UpstreamInputView::Message(message)) => UpstreamStepView {
            state: UpstreamState::Streaming,
            publish: match translated(message) {
                Ok(event) => Some(event),
                Err(_) => None,
            },
            command: UpstreamCommand::NextMessage,
        },
        (UpstreamState::Streaming, UpstreamInputView::FeedClosed) => UpstreamStepView {
            state: UpstreamState::Connecting,
            publish: None,
            command: UpstreamCommand::Connect,
        },
        _ => UpstreamStepView { state, publish: None, command: command_of(state) },
    }
}

impl UpstreamState {
    /// The upstream source at the start: an attempt to reach the runtime is
    /// to be made.
    pub fn start() -> (begun: (UpstreamState, UpstreamCommand))
        ensures
            begun == (UpstreamState::Connecting, UpstreamCommand::Connect),
    {
        (UpstreamState::Connecting, UpstreamCommand::Connect)
    }

    /// Takes what happened and says what to publish and what to do next.
    ///
    /// A failed attempt is announced once, with the status 0, and tried
    /// again after the retry interval, without end. A raw message that
    /// stands for no event is passed over. When the feed closes the
    /// runtime is reached for anew.
    pub fn step(self, input: UpstreamInput) -> (next: UpstreamStep)
        ensures
            next@ == upstream_step(self, input@),
    {
        match (self, input) {
            (UpstreamState::Connecting, UpstreamInput::ConnectFailed) => UpstreamStep {
                state: UpstreamState::Disconnected,
                publish: Some(
                    Event::Docker(
                        DockerEvent::DockerStatus { data: DockerStatusData { status: Some(0) } },
                    ),
                ),
                command: UpstreamCommand::Wait { seconds: INTERVAL },
            },
            (UpstreamState::Connecting, UpstreamInput::Connected) => UpstreamStep {
                state: UpstreamState::Streaming,
                publish: None,
                command: UpstreamCommand::NextMessage,
            },
            (UpstreamState::Disconnected, UpstreamInput::RetryElapsed) => UpstreamStep {
                state: UpstreamState::Connecting,
                publish: None,
                command: UpstreamCommand::Connect,
            },
            (UpstreamState::Streaming, UpstreamInput::Message(message)) => {
                let publish = match translate(&message) {
                    Ok(event) => Some(event),
                    Err(_) => None,
                };
                UpstreamStep {
                    state: UpstreamState::Streaming,
                    publish,
                    command: UpstreamCommand::NextMessage,
                }
            },
            (UpstreamState::Streaming, UpstreamInput::FeedClosed) => UpstreamStep {
                state: UpstreamState::Connecting,
                publish: None,
                command: UpstreamCommand::Connect,
            },
            (state, _) => {
                let command = match state {
                    UpstreamState::Disconnected => UpstreamCommand::Wait { seconds: INTERVAL },
                    UpstreamState::Connecting => UpstreamCommand::Connect,
                    UpstreamState::Streaming => UpstreamCommand::NextMessage,
                };
                UpstreamStep { state, publish: None, command }
            },
        }
    }
}

/// The state after a run of inputs, and what was published on the way.
pub open spec fn upstream_run(state: UpstreamState, inputs: Seq<UpstreamInputView>) -> (
    UpstreamState,
    Seq<EventView>,
)
    decreases inputs.len(),
{
    if inputs.len() == 0 {
        (state, Seq::empty())
    } else {
        let first = upstream_step(state, inputs[0]);
        let rest = upstream_run(first.state, inputs.drop_first());
        (
            rest.0,
            match first.publish {
                Some(event) => seq![event] + rest.1,
                None => rest.1,
            },
        )
    }
}

/// An outage: `failures` attempts that fail, each followed by the retry
/// interval, and then one that succeeds.
pub open spec fn outage(failures: nat) -> Seq<UpstreamInputView>
    decreases failures,
{
    if failures == 0 {
        seq![UpstreamInputView::Connected]
    } else {
        seq![UpstreamInputView::ConnectFailed, UpstreamInputView::RetryElapsed] + outage(
            (failures - 1) as nat,
        )
    }
}

/// Over an outage the unreachable status is published once for each failed
/// attempt and nothing else is, and at its end the feed is open: so a
/// single failure followed by a success is announced exactly once.
pub proof fn lemma_outage_announced(failures: nat)
    ensures
        upstream_run(UpstreamState::Connecting, outage(failures)) == (
            UpstreamState::Streaming,
            Seq::new(failures, |i: int| unreachable_event()),
        ),
    decreases failures,
{
    let inputs = outage(failures);
    if failures == 0 {
        assert(inputs.drop_first() =~= Seq::empty());
        assert(upstream_run(UpstreamState::Streaming, inputs.drop_first()).1 =~= Seq::empty());
        assert(upstream_run(UpstreamState::Connecting, inputs).1 =~= Seq::new(
            failures,
            |i: int| unreachable_event(),
        ));
    } else {
        let rest = outage((failures - 1) as nat);
        lemma_outage_announced((failures - 1) as nat);
        let after_failure = inputs.drop_first();
        assert(after_failure.drop_first() =~= rest);
        assert(after_failure[0] == UpstreamInputView::RetryElapsed);
        assert(inputs[0] == UpstreamInputView::ConnectFailed);
        let tail = upstream_run(UpstreamState::Connecting, rest);
        assert(upstream_run(UpstreamState::Disconnected, after_failure) == tail);
        assert(upstream_run(UpstreamState::Connecting, inputs).1 == seq![unreachable_event()]
            + tail.1);
        assert(seq![unreachable_event()] + tail.1 =~= Seq::new(
            failures,
            |i: int| unreachable_event(),
        ));
    }
}

/// The bus after the events were published on it, one after the other.
pub open spec fn published_on(bus: BusView, events: Seq<EventView>) -> BusView
    decreases events.len(),
{
    if events.len() == 0 {
        bus
    } else {
        published_on(bus.with(dto_text(events[0])), events.drop_first())
    }
}

/// A failed attempt followed by one that succeeds puts exactly one message
/// on the bus, the unreachable status. Every subscriber reads it, once, as
/// the last of what it reads, wherever its cursor stood; and afterwards the
/// feed is open.
pub proof fn lemma_outage_seen_once(bus: BusView, position: nat)
    requires
        bus.capacity >= 1,
        position <= bus.history.len(),
    ensures
        upstream_run(UpstreamState::Connecting, outage(1)).0 == UpstreamState::Streaming,
        published_on(bus, upstream_run(UpstreamState::Connecting, outage(1)).1) == bus.with(
            dto_text(unreachable_event()),
        ),
        ({
            let after = bus.with(dto_text(unreachable_event()));
            let read = drained(after, position);
            &&& read.len() >= 1
            &&& read.last() == bus.history.len()
            &&& after.history[read.last() as int] == dto_text(unreachable_event())
            &&& forall|i: int, j: int| 0 <= i < j < read.len() ==> read[i] < read[j]
        }),
{
    lemma_outage_announced(1);
    let events = upstream_run(UpstreamState::Connecting, outage(1)).1;
    assert(events =~= seq![unreachable_event()]);
    let after = bus.with(dto_text(unreachable_event()));
    assert(events.drop_first() =~= Seq::<EventView>::empty());
    assert(published_on(after, events.drop_first()) == after);
    lemma_drained_in_order(after, position);
}

/// Once the feed is open, each raw message that stands for an event is
/// published as that event, each other one is passed over, and the feed
/// stays open.
pub proof fn lemma_feed_flows(message: EventMessageView)
    ensures
        upstream_step(UpstreamState::Streaming, UpstreamInputView::Message(message)).state
            == UpstreamState::Streaming,
        upstream_step(UpstreamState::Streaming, UpstreamInputView::Message(message)).publish
            == match translated(message) {
            Ok(event) => Some(event),
            Err(_) => None,
        },
{
}

} // verus!
