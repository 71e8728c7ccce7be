//! Dispatch of runtime commands.
//!
//! A command is carried out in turns. The first turn looks at the command
//! and says which call to make on the runtime, if any. Each later turn takes
//! the runtime's reply and says what to answer the client and whether
//! another call is needed. The caller makes the calls and writes the
//! responses; every decision is taken here.

use vstd::prelude::*;
use crate::events::docker::{
    ContainerInspectResponse, ContainerSummary, DockerContainerInspectData,
    DockerContainerListData, DockerEvent, DockerEventView, DockerStatusData,
};
use crate::events::{Event, EventView};
use crate::json::ObjectModel;
use crate::serializers::DecodeError;
use crate::services::docker::Liveness;

verus! {

/// A call to make on the runtime.
#[derive(Debug, PartialEq, Eq)]
pub enum RuntimeCall {
    Ping,
    ListContainers,
    InspectContainer { id: String },
    StartContainer { id: String },
    StopContainer { id: String },
    RestartContainer { id: String },
}

pub enum RuntimeCallView {
    Ping,
    ListContainers,
    InspectContainer { id: Seq<char> },
    StartContainer { id: Seq<char> },
    StopContainer { id: Seq<char> },
    RestartContainer { id: Seq<char> },
}

impl View for RuntimeCall {
    type V = RuntimeCallView;

    open spec fn view(&self) -> RuntimeCallView {
        match self {
            RuntimeCall::Ping => RuntimeCallView::Ping,
            RuntimeCall::ListContainers => RuntimeCallView::ListContainers,
            RuntimeCall::InspectContainer { id } => RuntimeCallView::InspectContainer { id: id@ },
            RuntimeCall::StartContainer { id } => RuntimeCallView::StartContainer { id: id@ },
            RuntimeCall::StopContainer { id } => RuntimeCallView::StopContainer { id: id@ },
            RuntimeCall::RestartContainer { id } => RuntimeCallView::RestartContainer { id: id@ },
        }
    }
}

/// What the runtime answered to a call. `None` and `false` stand for a
/// failed call.
#[derive(Debug, PartialEq, Eq)]
pub enum RuntimeReply {
    Liveness(Liveness),
    Containers(Option<Vec<ContainerSummary>>),
    Detail(Option<ContainerInspectResponse>),
    Done(bool),
}

pub enum RuntimeReplyView {
    Liveness(Liveness),
    Containers(Option<Seq<ObjectModel>>),
    Detail(Option<ObjectModel>),
    Done(bool),
}

impl View for RuntimeReply {
    type V = RuntimeReplyView;

    open spec fn view(&self) -> RuntimeReplyView {
        match self {
            RuntimeReply::Liveness(liveness) => RuntimeReplyView::Liveness(*liveness),
            RuntimeReply::Containers(containers) => RuntimeReplyView::Containers(
                containers.deep_view(),
            ),
            RuntimeReply::Detail(detail) => RuntimeReplyView::Detail(detail.deep_view()),
            RuntimeReply::Done(ok) => RuntimeReplyView::Done(*ok),
        }
    }
}

/// Where a command stands while a call on the runtime is in flight.
#[derive(Debug, PartialEq, Eq)]
pub enum Awaiting {
    /// A liveness probe, for a status query.
    Status,
    /// The list of containers.
    List,
    /// A liveness probe, after the list could not be had.
    StatusAfterFailedList,
    /// The detail of the container `id`.
    Inspect { id: String },
    Start,
    Stop,
    Restart,
}

pub enum AwaitingView {
    Status,
    List,
    StatusAfterFailedList,
    Inspect { id: Seq<char> },
    Start,
    Stop,
    Restart,
}

impl View for Awaiting {
    type V = AwaitingView;

    open spec fn view(&self) -> AwaitingView {
        match self {
            Awaiting::Status => AwaitingView::Status,
            Awaiting::List => AwaitingView::List,
            Awaiting::StatusAfterFailedList => AwaitingView::StatusAfterFailedList,
            Awaiting::Inspect { id } => AwaitingView::Inspect { id: id@ },
            Awaiting::Start => AwaitingView::Start,
            Awaiting::Stop => AwaitingView::Stop,
            Awaiting::Restart => AwaitingView::Restart,
        }
    }
}

/// Something that went wrong in a turn. It is never shown to the client;
/// the caller may log it.
#[derive(Debug, Clone, Copy, PartialEq, Eq)]
pub enum Fault {
    MissingContainerId,
    ListFailed,
    InspectFailed,
    StartFailed,
    StopFailed,
    RestartFailed,
    /// The reply does not answer the call that was in flight.
    UnexpectedReply,
    /// The message could not be read as an event.
    Rejected(DecodeError),
}

/// The outcome of one turn: the responses to write to the client that sent
/// the command, in order; the next call on the runtime with the state to
/// resume from, or `None` when the command is finished; and what went wrong.
#[derive(Debug, PartialEq, Eq)]
pub struct Turn {
    pub responses: Vec<Event>,
    pub next: Option<(RuntimeCall, Awaiting)>,
    pub fault: Option<Fault>,
}

pub struct TurnView {
    pub responses: Seq<EventView>,
    pub next: Option<(RuntimeCallView, AwaitingView)>,
    pub fault: Option<Fault>,
}

impl DeepView for Turn {
    type V = TurnView;

    open spec fn deep_view(&self) -> TurnView {
        self@
    }
}

impl View for Turn {
    type V = TurnView;

    open spec fn view(&self) -> TurnView {
        TurnView {
            responses: self.responses.deep_view(),
            next: match self.next {
                Some((call, awaiting)) => Some((call@, awaiting@)),
                None => None,
            },
            fault: self.fault,
        }
    }
}

/// A turn that ends the command without a response.
pub open spec fn silent(fault: Option<Fault>) -> TurnView {
    TurnView { responses: Seq::empty(), next: None, fault }
}

/// A turn that makes `call` and answers nothing yet.
pub open spec fn calling(call: RuntimeCallView, awaiting: AwaitingView) -> TurnView {
    TurnView { responses: Seq::empty(), next: Some((call, awaiting)), fault: None }
}

/// The status event that reports `liveness`.
pub open spec fn status_event(liveness: Liveness) -> EventView {
    EventView::Docker(DockerEventView::DockerStatus { status: Some(liveness.spec_code()) })
}

/// The first turn of a command.
pub open spec fn first_turn(event: DockerEventView) -> TurnView {
    match event {
        DockerEventView::DockerStatus { .. } => calling(RuntimeCallView::Ping, AwaitingView::Status),
        DockerEventView::DockerContainerList { .. } => calling(
            RuntimeCallView::ListContainers,
            AwaitingView::List,
        ),
        DockerEventView::DockerContainerInspect { container_id: Some(id), .. } => calling(
            RuntimeCallView::InspectContainer { id },
            AwaitingView::Inspect { id },
        ),
        DockerEventView::DockerContainerStart { container_id: Some(id) } => calling(
            RuntimeCallView::StartContainer { id },
            AwaitingView::Start,
        ),
        DockerEventView::DockerContainerStop { container_id: Some(id) } => calling(
            RuntimeCallView::StopContainer { id },
            AwaitingView::Stop,
        ),
        DockerEventView::DockerContainerRestart { container_id: Some(id) } => calling(
            RuntimeCallView::RestartContainer { id },
            AwaitingView::Restart,
        ),
        _ => silent(Some(Fault::MissingContainerId)),
    }
}

/// The turn that follows `reply` to the call that `awaiting` stands for.
pub open spec fn next_turn(awaiting: AwaitingView, reply: RuntimeReplyView) -> TurnView {
    match (awaiting, reply) {
        (AwaitingView::Status, RuntimeReplyView::Liveness(liveness)) => TurnView {
            responses: seq![status_event(liveness)],
            next: None,
            fault: None,
        },
        (AwaitingView::List, RuntimeReplyView::Containers(Some(containers))) => TurnView {
            responses: seq![
                EventView::Docker(
                    DockerEventView::DockerContainerList { containers: Some(containers) },
                ),
            ],
            next: None,
            fault: None,
        },
        (AwaitingView::List, RuntimeReplyView::Containers(None)) => TurnView {
            responses: Seq::empty(),
            next: Some((RuntimeCallView::Ping, AwaitingView::StatusAfterFailedList)),
            fault: Some(Fault::ListFailed),
        },
        (AwaitingView::StatusAfterFailedList, RuntimeReplyView::Liveness(liveness)) => TurnView {
            responses: seq![
                status_event(liveness),
                EventView::Docker(
                    DockerEventView::DockerContainerList { containers: Some(Seq::empty()) },
                ),
            ],
            next: None,
            fault: None,
        },
        (AwaitingView::Inspect { id }, RuntimeReplyView::Detail(Some(detail))) => TurnView {
            responses: seq![
                EventView::Docker(
                    DockerEventView::DockerContainerInspect {
                        container_id: Some(id),
                        container: Some(detail),
                    },
                ),
            ],
            next: None,
            fault: None,
        },
        (AwaitingView::Inspect { .. }, RuntimeReplyView::Detail(None)) => silent(
            Some(Fault::InspectFailed),
        ),
        (AwaitingView::Start, RuntimeReplyView::Done(ok)) => silent(
            if ok { None } else { Some(Fault::StartFailed) },
        ),
        (AwaitingView::Stop, RuntimeReplyView::Done(ok)) => silent(
            if ok { None } else { Some(Fault::StopFailed) },
        ),
        (AwaitingView::Restart, RuntimeReplyView::Done(ok)) => silent(
            if ok { None } else { Some(Fault::RestartFailed) },
        ),
        _ => silent(Some(Fault::UnexpectedReply)),
    }
}

/// What a command comes to when the runtime answers each call as `runtime`
/// says: the calls made on the runtime and the responses written to the
/// client, both in order.
pub open spec fn outcome(
    event: DockerEventView,
    runtime: spec_fn(RuntimeCallView) -> RuntimeReplyView,
) -> (Seq<RuntimeCallView>, Seq<EventView>) {
    let first = first_turn(event);
    match first.next {
        None => (Seq::empty(), first.responses),
        Some((call, awaiting)) => {
            let second = next_turn(awaiting, runtime(call));
            match second.next {
                None => (seq![call], first.responses + second.responses),
                Some((again, awaiting)) => {
                    let third = next_turn(awaiting, runtime(again));
                    (seq![call, again], first.responses + second.responses + third.responses)
                },
            }
        },
    }
}

/// Every command is finished after its third turn at the latest: it makes
/// at most two calls on the runtime.
pub proof fn lemma_command_finishes(
    event: DockerEventView,
    first_reply: RuntimeReplyView,
    second_reply: RuntimeReplyView,
)
    ensures
        first_turn(event).next matches Some((_, awaiting)) ==> (next_turn(
            awaiting,
            first_reply,
        ).next matches Some((_, awaiting)) ==> next_turn(awaiting, second_reply).next is None),
{
}

/// A status query is answered with the code of what the liveness probe
/// found, whatever it found.
pub proof fn lemma_status_query(
    status: Option<i8>,
    runtime: spec_fn(RuntimeCallView) -> RuntimeReplyView,
    liveness: Liveness,
)
    requires
        runtime(RuntimeCallView::Ping) == RuntimeReplyView::Liveness(liveness),
    ensures
        outcome(DockerEventView::DockerStatus { status }, runtime) == (
            seq![RuntimeCallView::Ping],
            seq![status_event(liveness)],
        ),
{
    let event = DockerEventView::DockerStatus { status };
    assert(outcome(event, runtime).1 =~= seq![status_event(liveness)]);
}

/// A list command is answered with the containers that the runtime lists.
pub proof fn lemma_list_answered(
    containers: Option<Seq<ObjectModel>>,
    runtime: spec_fn(RuntimeCallView) -> RuntimeReplyView,
    listed: Seq<ObjectModel>,
)
    requires
        runtime(RuntimeCallView::ListContainers) == RuntimeReplyView::Containers(Some(listed)),
    ensures
        outcome(DockerEventView::DockerContainerList { containers }, runtime) == (
            seq![RuntimeCallView::ListContainers],
            seq![
                EventView::Docker(DockerEventView::DockerContainerList { containers: Some(listed) }),
            ],
        ),
{
    let event = DockerEventView::DockerContainerList { containers };
    assert(outcome(event, runtime).1 =~= seq![
        EventView::Docker(DockerEventView::DockerContainerList { containers: Some(listed) }),
    ]);
}

/// Where the runtime fails to list its containers, a list command is
/// answered with the status that a liveness probe finds and then with an
/// empty list.
pub proof fn lemma_list_failed(
    containers: Option<Seq<ObjectModel>>,
    runtime: spec_fn(RuntimeCallView) -> RuntimeReplyView,
    liveness: Liveness,
)
    requires
        runtime(RuntimeCallView::ListContainers) == RuntimeReplyView::Containers(None),
        runtime(RuntimeCallView::Ping) == RuntimeReplyView::Liveness(liveness),
    ensures
        outcome(DockerEventView::DockerContainerList { containers }, runtime) == (
            seq![RuntimeCallView::ListContainers, RuntimeCallView::Ping],
            seq![
                status_event(liveness),
                EventView::Docker(
                    DockerEventView::DockerContainerList { containers: Some(Seq::empty()) },
                ),
            ],
        ),
{
    let event = DockerEventView::DockerContainerList { containers };
    assert(outcome(event, runtime).1 =~= seq![
        status_event(liveness),
        EventView::Docker(DockerEventView::DockerContainerList { containers: Some(Seq::empty()) }),
    ]);
}

/// A command that lacks its container id makes no call on the runtime and
/// gets no response.
pub proof fn lemma_missing_id(
    event: DockerEventView,
    runtime: spec_fn(RuntimeCallView) -> RuntimeReplyView,
)
    requires
        match event {
            DockerEventView::DockerContainerInspect { container_id, .. } => container_id is None,
            DockerEventView::DockerContainerStart { container_id } => container_id is None,
            DockerEventView::DockerContainerStop { container_id } => container_id is None,
            DockerEventView::DockerContainerRestart { container_id } => container_id is None,
            _ => false,
        },
    ensures
        outcome(event, runtime) == (Seq::<RuntimeCallView>::empty(), Seq::<EventView>::empty()),
        first_turn(event).fault == Some(Fault::MissingContainerId),
{
}

/// An inspect command for the container `id` makes one call on the runtime,
/// for that container. Where the runtime answers with a detail, the client
/// gets exactly one response, which holds `id` and that detail; where the
/// runtime fails, the client gets none.
pub proof fn lemma_inspect(
    id: Seq<char>,
    container: Option<ObjectModel>,
    runtime: spec_fn(RuntimeCallView) -> RuntimeReplyView,
)
    ensures
        outcome(
            DockerEventView::DockerContainerInspect { container_id: Some(id), container },
            runtime,
        ).0 == seq![RuntimeCallView::InspectContainer { id }],
        runtime(RuntimeCallView::InspectContainer { id }) matches RuntimeReplyView::Detail(
            Some(detail),
        ) ==> outcome(
            DockerEventView::DockerContainerInspect { container_id: Some(id), container },
            runtime,
        ).1 == seq![
            EventView::Docker(
                DockerEventView::DockerContainerInspect {
                    container_id: Some(id),
                    container: Some(detail),
                },
            ),
        ],
        runtime(RuntimeCallView::InspectContainer { id }) == RuntimeReplyView::Detail(None)
            ==> outcome(
            DockerEventView::DockerContainerInspect { container_id: Some(id), container },
            runtime,
        ).1 == Seq::<EventView>::empty(),
{
    let event = DockerEventView::DockerContainerInspect { container_id: Some(id), container };
    let reply = runtime(RuntimeCallView::InspectContainer { id });
    let second = next_turn(AwaitingView::Inspect { id }, reply);
    assert(second.next is None);
    assert(outcome(event, runtime).1 =~= second.responses);
}

/// A start, stop or restart command for the container `id` makes exactly
/// one call on the runtime, the one it names, for that container, and gets
/// no response, whatever the runtime answers.
pub proof fn lemma_lifecycle(id: Seq<char>, runtime: spec_fn(RuntimeCallView) -> RuntimeReplyView)
    ensures
        outcome(DockerEventView::DockerContainerStart { container_id: Some(id) }, runtime) == (
            seq![RuntimeCallView::StartContainer { id }],
            Seq::<EventView>::empty(),
        ),
        outcome(DockerEventView::DockerContainerStop { container_id: Some(id) }, runtime) == (
            seq![RuntimeCallView::StopContainer { id }],
            Seq::<EventView>::empty(),
        ),
        outcome(DockerEventView::DockerContainerRestart { container_id: Some(id) }, runtime) == (
            seq![RuntimeCallView::RestartContainer { id }],
            Seq::<EventView>::empty(),
        ),
{
    let start = DockerEventView::DockerContainerStart { container_id: Some(id) };
    let stop = DockerEventView::DockerContainerStop { container_id: Some(id) };
    let restart = DockerEventView::DockerContainerRestart { container_id: Some(id) };
    assert(next_turn(AwaitingView::Start, runtime(RuntimeCallView::StartContainer { id })).next is None);
    assert(next_turn(AwaitingView::Stop, runtime(RuntimeCallView::StopContainer { id })).next is None);
    assert(next_turn(
        AwaitingView::Restart,
        runtime(RuntimeCallView::RestartContainer { id }),
    ).next is None);
    assert(outcome(start, runtime).1 =~= Seq::<EventView>::empty());
    assert(outcome(stop, runtime).1 =~= Seq::<EventView>::empty());
    assert(outcome(restart, runtime).1 =~= Seq::<EventView>::empty());
}

fn finish(fault: Option<Fault>) -> (turn: Turn)
    ensures
        turn@ == silent(fault),
{
    let turn = Turn { responses: Vec::new(), next: None, fault };
    assert(turn.responses.deep_view() =~= Seq::empty());
    turn
}

fn call_runtime(call: RuntimeCall, awaiting: Awaiting, fault: Option<Fault>) -> (turn: Turn)
    ensures
        turn@ == (TurnView { responses: Seq::empty(), next: Some((call@, awaiting@)), fault }),
{
    let turn = Turn { responses: Vec::new(), next: Some((call, awaiting)), fault };
    assert(turn.responses.deep_view() =~= Seq::empty());
    turn
}

fn status_response(liveness: Liveness) -> (event: Event)
    ensures
        event@ == status_event(liveness),
{
    Event::Docker(DockerEvent::DockerStatus { data: DockerStatusData { status: Some(liveness.code()) } })
}

/// Takes up a command from a client: says which call on the runtime it
/// needs. A command that lacks its container id needs none and is dropped.
pub fn handle_message(event: &DockerEvent) -> (turn: Turn)
    ensures
        turn@ == first_turn(event@),
{
    match event {
        DockerEvent::DockerStatus { .. } => call_runtime(RuntimeCall::Ping, Awaiting::Status, None),
        DockerEvent::DockerContainerList { .. } => call_runtime(
            RuntimeCall::ListContainers,
            Awaiting::List,
            None,
        ),
        DockerEvent::DockerContainerInspect { data } => match &data.container_id {
            Some(id) => call_runtime(
                RuntimeCall::InspectContainer { id: id.clone() },
                Awaiting::Inspect { id: id.clone() },
                None,
            ),
            None => finish(Some(Fault::MissingContainerId)),
        },
        DockerEvent::DockerContainerStart { data } => match &data.container_id {
            Some(id) => call_runtime(
                RuntimeCall::StartContainer { id: id.clone() },
                Awaiting::Start,
                None,
            ),
            None => finish(Some(Fault::MissingContainerId)),
        },
        DockerEvent::DockerContainerRestart { data } => match &data.container_id {
            Some(id) => call_runtime(
                RuntimeCall::RestartContainer { id: id.clone() },
                Awaiting::Restart,
                None,
            ),
            None => finish(Some(Fault::MissingContainerId)),
        },
        DockerEvent::DockerContainerStop { data } => match &data.container_id {
            Some(id) => call_runtime(
                RuntimeCall::StopContainer { id: id.clone() },
                Awaiting::Stop,
                None,
            ),
            None => finish(Some(Fault::MissingContainerId)),
        },
    }
}

fn respond(responses: Vec<Event>) -> (turn: Turn)
    ensures
        turn@ == (TurnView { responses: responses.deep_view(), next: None, fault: None }),
{
    Turn { responses, next: None, fault: None }
}

fn lifecycle_done(ok: bool, fault: Fault) -> (turn: Turn)
    ensures
        turn@ == silent(if ok { None } else { Some(fault) }),
{
    if ok {
        finish(None)
    } else {
        finish(Some(fault))
    }
}

/// Takes the runtime's reply to the call that was in flight and says what
/// to answer the client. A reply of the wrong kind ends the command.
pub fn handle_reply(awaiting: Awaiting, reply: RuntimeReply) -> (turn: Turn)
    ensures
        turn@ == next_turn(awaiting@, reply@),
{
    match (awaiting, reply) {
        (Awaiting::Status, RuntimeReply::Liveness(liveness)) => {
            let mut responses: Vec<Event> = Vec::new();
            responses.push(status_response(liveness));
            assert(responses.deep_view() =~= seq![status_event(liveness)]);
            respond(responses)
        },
        (Awaiting::List, RuntimeReply::Containers(Some(containers))) => {
            let ghost listed = containers.deep_view();
            let mut responses: Vec<Event> = Vec::new();
            responses.push(
                Event::Docker(
                    DockerEvent::DockerContainerList {
                        data: DockerContainerListData { containers: Some(containers) },
                    },
                ),
            );
            assert(responses.deep_view() =~= seq![
                EventView::Docker(DockerEventView::DockerContainerList { containers: Some(listed) }),
            ]);
            respond(responses)
        },
        (Awaiting::List, RuntimeReply::Containers(None)) => call_runtime(
            RuntimeCall::Ping,
            Awaiting::StatusAfterFailedList,
            Some(Fault::ListFailed),
        ),
        (Awaiting::StatusAfterFailedList, RuntimeReply::Liveness(liveness)) => {
            let empty: Vec<ContainerSummary> = Vec::new();
            assert(empty.deep_view() =~= Seq::<ObjectModel>::empty());
            let mut responses: Vec<Event> = Vec::new();
            responses.push(status_response(liveness));
            responses.push(
                Event::Docker(
                    DockerEvent::DockerContainerList {
                        data: DockerContainerListData { containers: Some(empty) },
                    },
                ),
            );
            assert(responses.deep_view() =~= seq![
                status_event(liveness),
                EventView::Docker(
                    DockerEventView::DockerContainerList { containers: Some(Seq::empty()) },
                ),
            ]);
            respond(responses)
        },
        (Awaiting::Inspect { id }, RuntimeReply::Detail(Some(detail))) => {
            let ghost id_view = id@;
            let ghost detail_view = detail@;
            let mut responses: Vec<Event> = Vec::new();
            responses.push(
                Event::Docker(
                    DockerEvent::DockerContainerInspect {
                        data: DockerContainerInspectData {
                            container_id: Some(id),
                            container: Some(detail),
                        },
                    },
                ),
            );
            assert(responses.deep_view() =~= seq![
                EventView::Docker(
                    DockerEventView::DockerContainerInspect {
                        container_id: Some(id_view),
                        container: Some(detail_view),
                    },
                ),
            ]);
            respond(responses)
        },
        (Awaiting::Inspect { .. }, RuntimeReply::Detail(None)) => finish(Some(Fault::InspectFailed)),
        (Awaiting::Start, RuntimeReply::Done(ok)) => lifecycle_done(ok, Fault::StartFailed),
        (Awaiting::Stop, RuntimeReply::Done(ok)) => lifecycle_done(ok, Fault::StopFailed),
        (Awaiting::Restart, RuntimeReply::Done(ok)) => lifecycle_done(ok, Fault::RestartFailed),
        _ => finish(Some(Fault::UnexpectedReply)),
    }
}

} // verus!
