use docker_relay::events::docker::{
    ContainerInspectResponse, ContainerSummary, DockerContainerInspectData,
    DockerContainerListData, DockerContainerRestartData, DockerContainerStartData,
    DockerContainerStopData, DockerEvent, DockerStatusData,
};
use docker_relay::events::system::SystemEvent;
use docker_relay::events::Event;
use docker_relay::json::JsonValue;
use docker_relay::serializers::DecodeError;
use docker_relay::services::docker::Liveness;
use docker_relay::webtransport;
use docker_relay::webtransport::docker::{
    handle_message, handle_reply, Awaiting, Fault, RuntimeCall, RuntimeReply, Turn,
};

/// A runtime that answers as it was told to and remembers what it was asked.
struct Runtime {
    liveness: Liveness,
    containers: Option<Vec<ContainerSummary>>,
    detail: Option<ContainerInspectResponse>,
    done: bool,
    calls: Vec<RuntimeCall>,
}

impl Runtime {
    fn unreachable() -> Runtime {
        Runtime {
            liveness: Liveness::Unreachable,
            containers: None,
            detail: None,
            done: false,
            calls: Vec::new(),
        }
    }

    fn healthy() -> Runtime {
        Runtime {
            liveness: Liveness::Reachable,
            containers: Some(vec![summary("abc"), summary("def")]),
            detail: Some(detail("abc")),
            done: true,
            calls: Vec::new(),
        }
    }

    fn answer(&mut self, call: RuntimeCall) -> RuntimeReply {
        let reply = match &call {
            RuntimeCall::Ping => RuntimeReply::Liveness(self.liveness),
            RuntimeCall::ListContainers => RuntimeReply::Containers(self.containers.take()),
            RuntimeCall::InspectContainer { .. } => RuntimeReply::Detail(self.detail.take()),
            _ => RuntimeReply::Done(self.done),
        };
        self.calls.push(call);
        reply
    }

    /// Carries a command out to its end and returns every response.
    fn serve(&mut self, first: Turn) -> (Vec<Event>, Vec<Fault>) {
        let mut responses = Vec::new();
        let mut faults = Vec::new();
        let mut turn = first;
        loop {
            responses.extend(turn.responses);
            faults.extend(turn.fault);
            match turn.next {
                Some((call, awaiting)) => turn = handle_reply(awaiting, self.answer(call)),
                None => return (responses, faults),
            }
        }
    }
}

fn summary(id: &str) -> ContainerSummary {
    ContainerSummary { fields: vec![("Id".to_string(), JsonValue::Text(id.to_string()))] }
}

fn detail(id: &str) -> ContainerInspectResponse {
    ContainerInspectResponse {
        fields: vec![
            ("Id".to_string(), JsonValue::Text(id.to_string())),
            ("RestartCount".to_string(), JsonValue::Int(3)),
        ],
    }
}

fn status(code: i8) -> Event {
    Event::Docker(DockerEvent::DockerStatus { data: DockerStatusData { status: Some(code) } })
}

fn list(containers: Vec<ContainerSummary>) -> Event {
    Event::Docker(DockerEvent::DockerContainerList {
        data: DockerContainerListData { containers: Some(containers) },
    })
}

fn inspect(id: Option<&str>) -> DockerEvent {
    DockerEvent::DockerContainerInspect {
        data: DockerContainerInspectData {
            container_id: id.map(|id| id.to_string()),
            container: None,
        },
    }
}

#[test]
fn liveness_codes_are_zero_one_and_two() {
    assert_eq!(Liveness::Unreachable.code(), 0);
    assert_eq!(Liveness::Reachable.code(), 1);
    assert_eq!(Liveness::Erroring.code(), 2);
    assert_eq!(Liveness::from_probe(false, false), Liveness::Unreachable);
    assert_eq!(Liveness::from_probe(false, true), Liveness::Unreachable);
    assert_eq!(Liveness::from_probe(true, true), Liveness::Reachable);
    assert_eq!(Liveness::from_probe(true, false), Liveness::Erroring);
}

#[test]
fn status_query_is_answered_with_the_liveness_code() {
    for (liveness, code) in
        [(Liveness::Unreachable, 0), (Liveness::Reachable, 1), (Liveness::Erroring, 2)]
    {
        let mut runtime = Runtime::healthy();
        runtime.liveness = liveness;
        let query = DockerEvent::DockerStatus { data: DockerStatusData { status: None } };
        let (responses, faults) = runtime.serve(handle_message(&query));
        assert_eq!(responses, vec![status(code)]);
        assert_eq!(runtime.calls, vec![RuntimeCall::Ping]);
        assert!(faults.is_empty());
    }
}

#[test]
fn list_command_is_answered_with_the_containers() {
    let mut runtime = Runtime::healthy();
    let command = DockerEvent::DockerContainerList {
        data: DockerContainerListData { containers: None },
    };
    let (responses, faults) = runtime.serve(handle_message(&command));
    assert_eq!(responses, vec![list(vec![summary("abc"), summary("def")])]);
    assert_eq!(runtime.calls, vec![RuntimeCall::ListContainers]);
    assert!(faults.is_empty());
}

#[test]
fn unreachable_runtime_answers_status_zero_and_an_empty_list() {
    let mut runtime = Runtime::unreachable();
    let query = DockerEvent::DockerStatus { data: DockerStatusData { status: None } };
    assert_eq!(runtime.serve(handle_message(&query)).0, vec![status(0)]);

    let mut runtime = Runtime::unreachable();
    let command = DockerEvent::DockerContainerList {
        data: DockerContainerListData { containers: None },
    };
    let (responses, faults) = runtime.serve(handle_message(&command));
    assert_eq!(responses, vec![status(0), list(vec![])]);
    assert_eq!(runtime.calls, vec![RuntimeCall::ListContainers, RuntimeCall::Ping]);
    assert_eq!(faults, vec![Fault::ListFailed]);
}

#[test]
fn failed_list_on_a_reachable_runtime_reports_what_the_probe_found() {
    let mut runtime = Runtime::healthy();
    runtime.containers = None;
    runtime.liveness = Liveness::Erroring;
    let command = DockerEvent::DockerContainerList {
        data: DockerContainerListData { containers: None },
    };
    assert_eq!(runtime.serve(handle_message(&command)).0, vec![status(2), list(vec![])]);
}

#[test]
fn inspect_without_container_id_makes_no_call_and_gets_no_response() {
    let mut runtime = Runtime::healthy();
    let turn = handle_message(&inspect(None));
    assert_eq!(
        turn,
        Turn { responses: vec![], next: None, fault: Some(Fault::MissingContainerId) }
    );
    let (responses, _) = runtime.serve(turn);
    assert!(responses.is_empty());
    assert!(runtime.calls.is_empty());
}

#[test]
fn inspect_with_container_id_gets_exactly_one_response() {
    let mut runtime = Runtime::healthy();
    let (responses, faults) = runtime.serve(handle_message(&inspect(Some("abc"))));
    assert_eq!(
        responses,
        vec![Event::Docker(DockerEvent::DockerContainerInspect {
            data: DockerContainerInspectData {
                container_id: Some("abc".to_string()),
                container: Some(detail("abc")),
            },
        })]
    );
    assert_eq!(runtime.calls, vec![RuntimeCall::InspectContainer { id: "abc".to_string() }]);
    assert!(faults.is_empty());
}

#[test]
fn failed_inspect_gets_no_response() {
    let mut runtime = Runtime::unreachable();
    let (responses, faults) = runtime.serve(handle_message(&inspect(Some("abc"))));
    assert!(responses.is_empty());
    assert_eq!(runtime.calls, vec![RuntimeCall::InspectContainer { id: "abc".to_string() }]);
    assert_eq!(faults, vec![Fault::InspectFailed]);
}

#[test]
fn stop_command_makes_exactly_one_stop_call_and_gets_no_response() {
    let mut runtime = Runtime::healthy();
    let command = DockerEvent::DockerContainerStop {
        data: DockerContainerStopData { container_id: Some("x".to_string()) },
    };
    let (responses, faults) = runtime.serve(handle_message(&command));
    assert!(responses.is_empty());
    assert_eq!(runtime.calls, vec![RuntimeCall::StopContainer { id: "x".to_string() }]);
    assert!(faults.is_empty());
}

#[test]
fn start_and_restart_commands_call_the_runtime_once() {
    let mut runtime = Runtime::healthy();
    let start = DockerEvent::DockerContainerStart {
        data: DockerContainerStartData { container_id: Some("a".to_string()) },
    };
    let restart = DockerEvent::DockerContainerRestart {
        data: DockerContainerRestartData { container_id: Some("b".to_string()) },
    };
    assert!(runtime.serve(handle_message(&start)).0.is_empty());
    assert!(runtime.serve(handle_message(&restart)).0.is_empty());
    assert_eq!(
        runtime.calls,
        vec![
            RuntimeCall::StartContainer { id: "a".to_string() },
            RuntimeCall::RestartContainer { id: "b".to_string() },
        ]
    );
}

#[test]
fn failed_lifecycle_commands_are_reported_as_faults_only() {
    let mut runtime = Runtime::unreachable();
    let start = DockerEvent::DockerContainerStart {
        data: DockerContainerStartData { container_id: Some("a".to_string()) },
    };
    let stop = DockerEvent::DockerContainerStop {
        data: DockerContainerStopData { container_id: Some("a".to_string()) },
    };
    let restart = DockerEvent::DockerContainerRestart {
        data: DockerContainerRestartData { container_id: Some("a".to_string()) },
    };
    assert_eq!(runtime.serve(handle_message(&start)), (vec![], vec![Fault::StartFailed]));
    assert_eq!(runtime.serve(handle_message(&stop)), (vec![], vec![Fault::StopFailed]));
    assert_eq!(runtime.serve(handle_message(&restart)), (vec![], vec![Fault::RestartFailed]));
}

#[test]
fn lifecycle_commands_without_container_id_make_no_call() {
    let commands = [
        DockerEvent::DockerContainerStart { data: DockerContainerStartData { container_id: None } },
        DockerEvent::DockerContainerStop { data: DockerContainerStopData { container_id: None } },
        DockerEvent::DockerContainerRestart {
            data: DockerContainerRestartData { container_id: None },
        },
    ];
    for command in &commands {
        let mut runtime = Runtime::healthy();
        let (responses, faults) = runtime.serve(handle_message(command));
        assert!(responses.is_empty());
        assert!(runtime.calls.is_empty());
        assert_eq!(faults, vec![Fault::MissingContainerId]);
    }
}

#[test]
fn a_reply_of_the_wrong_kind_ends_the_command() {
    let wrong = [
        (Awaiting::Status, RuntimeReply::Done(true)),
        (Awaiting::List, RuntimeReply::Liveness(Liveness::Reachable)),
        (Awaiting::StatusAfterFailedList, RuntimeReply::Containers(None)),
        (Awaiting::Inspect { id: "a".to_string() }, RuntimeReply::Done(true)),
        (Awaiting::Start, RuntimeReply::Detail(None)),
        (Awaiting::Stop, RuntimeReply::Liveness(Liveness::Unreachable)),
        (Awaiting::Restart, RuntimeReply::Containers(Some(vec![]))),
    ];
    for (awaiting, reply) in wrong {
        assert_eq!(
            handle_reply(awaiting, reply),
            Turn { responses: vec![], next: None, fault: Some(Fault::UnexpectedReply) }
        );
    }
}

#[test]
fn a_message_is_decoded_and_routed() {
    let turn = webtransport::handle_message(
        "{\"type\":\"DockerContainerStop\",\"data\":{\"containerId\":\"x\"}}",
    );
    assert_eq!(
        turn,
        Turn {
            responses: vec![],
            next: Some((RuntimeCall::StopContainer { id: "x".to_string() }, Awaiting::Stop)),
            fault: None,
        }
    );
    let turn = webtransport::handle_message("{\"type\":\"DockerStatus\"}");
    assert_eq!(
        turn,
        Turn { responses: vec![], next: Some((RuntimeCall::Ping, Awaiting::Status)), fault: None }
    );
}

#[test]
fn a_message_that_cannot_be_read_is_dropped() {
    for (message, error) in [
        ("not json", DecodeError::Malformed),
        ("{}", DecodeError::MissingTag),
        ("{\"type\":\"Nope\"}", DecodeError::UnknownTag),
        ("{\"type\":\"DockerStatus\",\"data\":1}", DecodeError::BadPayload),
    ] {
        assert_eq!(
            webtransport::handle_message(message),
            Turn { responses: vec![], next: None, fault: Some(Fault::Rejected(error)) }
        );
    }
}

#[test]
fn a_system_event_asks_for_nothing() {
    let silent = Turn { responses: vec![], next: None, fault: None };
    assert_eq!(webtransport::handle_message("{\"type\":\"SystemStatus\"}"), silent);
    assert_eq!(webtransport::system::handle_message(&SystemEvent::SystemStatus), silent);
}
