use docker_relay::bus::{BroadcastBus, Delivery};
use docker_relay::events::docker::{
    DockerContainerInspectData, DockerContainerListData, DockerContainerRestartData,
    DockerContainerStartData, DockerContainerStopData, DockerEvent, DockerStatusData,
};
use docker_relay::events::Event;
use docker_relay::serializers::{DecodeError, SendEvent};
use docker_relay::services::docker::{
    event_tag, format_docker_event_value, translate, translate_tagged, EventActor, EventMessage,
    UpstreamCommand, UpstreamInput, UpstreamState, UpstreamStep, INTERVAL,
};

fn raw(typ: Option<&str>, action: Option<&str>, id: Option<&str>) -> EventMessage {
    EventMessage {
        typ: typ.map(|typ| typ.to_string()),
        action: action.map(|action| action.to_string()),
        actor: Some(EventActor { id: id.map(|id| id.to_string()) }),
    }
}

fn started(id: &str) -> Event {
    Event::Docker(DockerEvent::DockerContainerStart {
        data: DockerContainerStartData { container_id: Some(id.to_string()) },
    })
}

fn unreachable() -> Event {
    Event::Docker(DockerEvent::DockerStatus { data: DockerStatusData { status: Some(0) } })
}

#[test]
fn words_are_capitalised() {
    assert_eq!(format_docker_event_value("container"), "Container");
    assert_eq!(format_docker_event_value("START"), "Start");
    assert_eq!(format_docker_event_value("rEsTaRt"), "Restart");
    assert_eq!(format_docker_event_value("x"), "X");
    assert_eq!(format_docker_event_value("X"), "X");
    assert_eq!(format_docker_event_value(""), "");
    assert_eq!(format_docker_event_value("exec_start: sh"), "Exec_start: sh");
    assert_eq!(format_docker_event_value("9lives"), "9lives");
}

#[test]
fn words_beyond_ascii_are_capitalised() {
    assert_eq!(format_docker_event_value("éCOLE"), "École");
    assert_eq!(format_docker_event_value("ßa"), "SSa");
    assert_eq!(format_docker_event_value("ǆX"), "Ǆx");
    assert_eq!(format_docker_event_value("ΑΣ"), "Ασ");
    assert_eq!(format_docker_event_value("αΑΣ"), "Αας");
}

#[test]
fn tags_are_made_of_kind_and_action() {
    assert_eq!(event_tag("container", "start"), "DockerContainerStart");
    assert_eq!(event_tag("CONTAINER", "Stop"), "DockerContainerStop");
    assert_eq!(event_tag("image", "pull"), "DockerImagePull");
    assert_eq!(event_tag("", ""), "Docker");
    assert_eq!(event_tag("container", ""), "DockerContainer");
}

#[test]
fn container_messages_are_read_as_their_events() {
    assert_eq!(translate(&raw(Some("container"), Some("start"), Some("abc"))), Ok(started("abc")));
    assert_eq!(
        translate(&raw(Some("container"), Some("stop"), Some("abc"))),
        Ok(Event::Docker(DockerEvent::DockerContainerStop {
            data: DockerContainerStopData { container_id: Some("abc".to_string()) },
        }))
    );
    assert_eq!(
        translate(&raw(Some("container"), Some("restart"), None)),
        Ok(Event::Docker(DockerEvent::DockerContainerRestart {
            data: DockerContainerRestartData { container_id: None },
        }))
    );
    assert_eq!(
        translate(&raw(Some("container"), Some("inspect"), Some("abc"))),
        Ok(Event::Docker(DockerEvent::DockerContainerInspect {
            data: DockerContainerInspectData {
                container_id: Some("abc".to_string()),
                container: None,
            },
        }))
    );
    assert_eq!(
        translate(&raw(Some("container"), Some("list"), Some("abc"))),
        Ok(Event::Docker(DockerEvent::DockerContainerList {
            data: DockerContainerListData { containers: None },
        }))
    );
}

#[test]
fn messages_that_stand_for_no_event_are_refused() {
    assert_eq!(
        translate(&raw(Some("image"), Some("pull"), Some("nginx"))),
        Err(DecodeError::UnknownTag)
    );
    assert_eq!(
        translate(&raw(Some("container"), Some("exec_start: sh"), Some("abc"))),
        Err(DecodeError::UnknownTag)
    );
    assert_eq!(translate(&raw(None, Some("start"), Some("abc"))), Err(DecodeError::MissingTag));
    assert_eq!(translate(&raw(Some("container"), None, Some("abc"))), Err(DecodeError::MissingTag));
    let nobody = EventMessage {
        typ: Some("container".to_string()),
        action: Some("start".to_string()),
        actor: None,
    };
    assert_eq!(translate(&nobody), Err(DecodeError::BadPayload));
}

#[test]
fn a_tagged_message_is_read_as_the_event_that_the_tag_names() {
    let actor = Some(EventActor { id: Some("abc".to_string()) });
    assert_eq!(translate_tagged("DockerContainerStart", &actor), Ok(started("abc")));
    assert_eq!(
        translate_tagged("DockerStatus", &actor),
        Ok(Event::Docker(DockerEvent::DockerStatus { data: DockerStatusData { status: None } }))
    );
    assert_eq!(translate_tagged("dockercontainerstart", &actor), Err(DecodeError::UnknownTag));
    assert_eq!(translate_tagged("DockerContainerStart", &None), Err(DecodeError::BadPayload));
    assert_eq!(translate_tagged("DockerVolumeMount", &None), Err(DecodeError::UnknownTag));
}

#[test]
fn the_retry_interval_is_ten_seconds() {
    assert_eq!(INTERVAL, 10);
}

#[test]
fn the_source_starts_by_reaching_for_the_runtime() {
    assert_eq!(UpstreamState::start(), (UpstreamState::Connecting, UpstreamCommand::Connect));
}

#[test]
fn a_failed_attempt_is_announced_and_retried() {
    assert_eq!(
        UpstreamState::Connecting.step(UpstreamInput::ConnectFailed),
        UpstreamStep {
            state: UpstreamState::Disconnected,
            publish: Some(unreachable()),
            command: UpstreamCommand::Wait { seconds: 10 },
        }
    );
    assert_eq!(
        UpstreamState::Disconnected.step(UpstreamInput::RetryElapsed),
        UpstreamStep {
            state: UpstreamState::Connecting,
            publish: None,
            command: UpstreamCommand::Connect,
        }
    );
}

#[test]
fn a_raw_message_is_published_as_its_event() {
    assert_eq!(
        UpstreamState::Streaming
            .step(UpstreamInput::Message(raw(Some("container"), Some("start"), Some("abc")))),
        UpstreamStep {
            state: UpstreamState::Streaming,
            publish: Some(started("abc")),
            command: UpstreamCommand::NextMessage,
        }
    );
}

#[test]
fn a_malformed_raw_message_does_not_end_the_feed() {
    for message in [
        raw(Some("network"), Some("connect"), Some("n")),
        raw(None, None, None),
        EventMessage { typ: Some("container".to_string()), action: Some("die".to_string()), actor: None },
    ] {
        assert_eq!(
            UpstreamState::Streaming.step(UpstreamInput::Message(message)),
            UpstreamStep {
                state: UpstreamState::Streaming,
                publish: None,
                command: UpstreamCommand::NextMessage,
            }
        );
    }
}

#[test]
fn a_closed_feed_is_reopened() {
    assert_eq!(
        UpstreamState::Streaming.step(UpstreamInput::FeedClosed),
        UpstreamStep {
            state: UpstreamState::Connecting,
            publish: None,
            command: UpstreamCommand::Connect,
        }
    );
}

#[test]
fn an_input_that_does_not_concern_the_state_changes_nothing() {
    let idle = [
        (UpstreamState::Disconnected, UpstreamInput::Connected, UpstreamCommand::Wait { seconds: 10 }),
        (UpstreamState::Disconnected, UpstreamInput::ConnectFailed, UpstreamCommand::Wait { seconds: 10 }),
        (UpstreamState::Disconnected, UpstreamInput::FeedClosed, UpstreamCommand::Wait { seconds: 10 }),
        (UpstreamState::Connecting, UpstreamInput::RetryElapsed, UpstreamCommand::Connect),
        (UpstreamState::Connecting, UpstreamInput::FeedClosed, UpstreamCommand::Connect),
        (UpstreamState::Streaming, UpstreamInput::Connected, UpstreamCommand::NextMessage),
        (UpstreamState::Streaming, UpstreamInput::ConnectFailed, UpstreamCommand::NextMessage),
        (UpstreamState::Streaming, UpstreamInput::RetryElapsed, UpstreamCommand::NextMessage),
    ];
    for (state, input, command) in idle {
        assert_eq!(state.step(input), UpstreamStep { state, publish: None, command });
    }
    assert_eq!(
        UpstreamState::Connecting
            .step(UpstreamInput::Message(raw(Some("container"), Some("start"), Some("abc")))),
        UpstreamStep {
            state: UpstreamState::Connecting,
            publish: None,
            command: UpstreamCommand::Connect,
        }
    );
}

/// Runs the source over what happened and publishes on the bus.
fn run(bus: &mut BroadcastBus, inputs: Vec<UpstreamInput>) -> (UpstreamState, Vec<UpstreamCommand>) {
    let (mut state, first) = UpstreamState::start();
    let mut commands = vec![first];
    for input in inputs {
        let step = state.step(input);
        state = step.state;
        commands.push(step.command);
        if let Some(event) = step.publish {
            assert!(bus.send_event(event));
        }
    }
    (state, commands)
}

fn read_all(bus: &BroadcastBus, cursor: &mut docker_relay::bus::Cursor) -> Vec<String> {
    let mut texts = Vec::new();
    while let Delivery::Message { text, .. } = bus.next(cursor) {
        texts.push(text);
    }
    texts
}

#[test]
fn an_outage_is_announced_once_to_every_session_and_the_feed_resumes() {
    let mut bus = BroadcastBus::new(100).unwrap();
    let mut first = bus.subscribe();
    let mut second = bus.subscribe();
    let (state, commands) = run(
        &mut bus,
        vec![UpstreamInput::ConnectFailed, UpstreamInput::RetryElapsed, UpstreamInput::Connected],
    );
    assert_eq!(state, UpstreamState::Streaming);
    assert_eq!(
        commands,
        vec![
            UpstreamCommand::Connect,
            UpstreamCommand::Wait { seconds: 10 },
            UpstreamCommand::Connect,
            UpstreamCommand::NextMessage,
        ]
    );
    let announced = vec!["{\"type\":\"DockerStatus\",\"data\":{\"status\":0}}".to_string()];
    assert_eq!(read_all(&bus, &mut first), announced);
    assert_eq!(read_all(&bus, &mut second), announced);

    let step = state.step(UpstreamInput::Message(raw(Some("container"), Some("start"), Some("abc"))));
    assert_eq!(step.state, UpstreamState::Streaming);
    assert!(bus.send_event(step.publish.unwrap()));
    let resumed =
        vec!["{\"type\":\"DockerContainerStart\",\"data\":{\"containerId\":\"abc\"}}".to_string()];
    assert_eq!(read_all(&bus, &mut first), resumed);
    assert_eq!(read_all(&bus, &mut second), resumed);
}

#[test]
fn every_failed_attempt_of_a_long_outage_is_announced() {
    let mut bus = BroadcastBus::new(100).unwrap();
    let mut cursor = bus.subscribe();
    let mut inputs = Vec::new();
    for _ in 0..5 {
        inputs.push(UpstreamInput::ConnectFailed);
        inputs.push(UpstreamInput::RetryElapsed);
    }
    inputs.push(UpstreamInput::Connected);
    let (state, _) = run(&mut bus, inputs);
    assert_eq!(state, UpstreamState::Streaming);
    assert_eq!(read_all(&bus, &mut cursor).len(), 5);
}
