use docker_relay::bus::BroadcastBus;
use docker_relay::serializers::DecodeError;
use docker_relay::webtransport::docker::{Awaiting, Fault, RuntimeCall, Turn};
use docker_relay::webtransport::{Read, Relay, Session};

fn bus_of(capacity: usize) -> BroadcastBus {
    BroadcastBus::new(capacity).unwrap()
}

#[test]
fn a_new_session_runs_in_both_directions() {
    let session = Session::new(&bus_of(2));
    assert!(session.is_relaying());
    assert!(session.is_commanding());
    assert!(!session.is_ended());
}

#[test]
fn a_session_reads_what_is_published_after_it_was_opened() {
    let mut bus = bus_of(4);
    bus.publish("before".to_string());
    let mut session = Session::new(&bus);
    assert_eq!(session.relay(&bus), Relay::Wait);
    bus.publish("{\"type\":1".to_string());
    assert_eq!(session.relay(&bus), Relay::Write("{\"type\":1".to_string()));
    assert_eq!(session.relay(&bus), Relay::Wait);
    assert!(session.is_relaying());
}

#[test]
fn the_relay_direction_ends_with_the_bus() {
    let mut bus = bus_of(4);
    let mut session = Session::new(&bus);
    bus.publish("last".to_string());
    bus.close();
    assert_eq!(session.relay(&bus), Relay::Write("last".to_string()));
    assert!(session.is_relaying());
    assert_eq!(session.relay(&bus), Relay::Stop);
    assert!(!session.is_relaying());
    assert!(session.is_commanding());
    assert_eq!(session.relay(&bus), Relay::Stop);
}

#[test]
fn a_relay_direction_that_has_ended_reads_no_more() {
    let mut bus = bus_of(4);
    let mut session = Session::new(&bus);
    session.relay_failed();
    bus.publish("late".to_string());
    assert_eq!(session.relay(&bus), Relay::Stop);
    assert_eq!(session.relay(&bus), Relay::Stop);
}

#[test]
fn a_session_that_fell_behind_is_relayed_the_messages_kept() {
    let mut bus = bus_of(2);
    let mut session = Session::new(&bus);
    bus.publish("one".to_string());
    bus.publish("two".to_string());
    bus.publish("three".to_string());
    let mut written = Vec::new();
    loop {
        match session.relay(&bus) {
            Relay::Write(text) => written.push(text),
            Relay::Wait => break,
            Relay::Stop => panic!("the bus is open"),
        }
    }
    assert_eq!(written, vec!["two".to_string(), "three".to_string()]);
}

#[test]
fn two_sessions_are_relayed_the_same_envelopes_in_order() {
    let mut bus = bus_of(100);
    let mut first = Session::new(&bus);
    let mut second = Session::new(&bus);
    let envelopes = [
        "{\"type\":\"DockerContainerStart\",\"data\":{\"containerId\":\"abc\"}}",
        "{\"type\":\"DockerContainerStop\",\"data\":{\"containerId\":\"abc\"}}",
    ];
    for envelope in envelopes {
        assert!(bus.publish(envelope.to_string()));
    }
    for session in [&mut first, &mut second] {
        assert_eq!(session.relay(&bus), Relay::Write(envelopes[0].to_string()));
        assert_eq!(session.relay(&bus), Relay::Write(envelopes[1].to_string()));
        assert_eq!(session.relay(&bus), Relay::Wait);
    }
}

#[test]
fn the_bytes_of_one_read_are_one_message() {
    let mut session = Session::new(&bus_of(2));
    let bytes = b"{\"type\":\"DockerContainerRestart\",\"data\":{\"containerId\":\"abc\"}}".to_vec();
    assert_eq!(
        session.command(Read::Data(bytes)),
        Some(Turn {
            responses: vec![],
            next: Some((RuntimeCall::RestartContainer { id: "abc".to_string() }, Awaiting::Restart)),
            fault: None,
        })
    );
    assert!(session.is_commanding());
}

#[test]
fn half_a_message_is_dropped_and_the_session_goes_on() {
    let mut session = Session::new(&bus_of(2));
    let rejected =
        Turn { responses: vec![], next: None, fault: Some(Fault::Rejected(DecodeError::Malformed)) };
    assert_eq!(session.command(Read::Data(b"{\"type\":\"Docker".to_vec())), Some(rejected));
    assert!(session.is_commanding());
    let rejected =
        Turn { responses: vec![], next: None, fault: Some(Fault::Rejected(DecodeError::Malformed)) };
    assert_eq!(session.command(Read::Data(b"Status\"}".to_vec())), Some(rejected));
    assert!(session.is_commanding());
}

#[test]
fn bytes_that_are_not_text_are_read_with_replacement_characters() {
    let mut session = Session::new(&bus_of(2));
    let mut bytes = b"{\"type\":\"DockerContainerStop\",\"data\":{\"containerId\":\"a".to_vec();
    bytes.push(0xff);
    bytes.extend_from_slice(b"\"}}");
    assert_eq!(
        session.command(Read::Data(bytes)),
        Some(Turn {
            responses: vec![],
            next: Some((RuntimeCall::StopContainer { id: "a\u{fffd}".to_string() }, Awaiting::Stop)),
            fault: None,
        })
    );
    assert_eq!(
        session.command(Read::Data(vec![0xc3, 0x28])),
        Some(Turn {
            responses: vec![],
            next: None,
            fault: Some(Fault::Rejected(DecodeError::Malformed)),
        })
    );
}

#[test]
fn the_command_direction_ends_when_nothing_more_can_be_read() {
    for read in [Read::Data(vec![]), Read::Finished, Read::Failed] {
        let mut session = Session::new(&bus_of(2));
        assert_eq!(session.command(read), None);
        assert!(!session.is_commanding());
        assert!(session.is_relaying());
        assert!(!session.is_ended());
        assert_eq!(session.command(Read::Data(b"{\"type\":\"DockerStatus\"}".to_vec())), None);
    }
}

#[test]
fn a_session_has_ended_when_both_directions_have() {
    let mut session = Session::new(&bus_of(2));
    session.relay_failed();
    assert!(!session.is_relaying());
    assert!(session.is_commanding());
    assert!(!session.is_ended());
    session.command_failed();
    assert!(session.is_ended());

    let mut bus = bus_of(2);
    let mut session = Session::new(&bus);
    assert_eq!(session.command(Read::Finished), None);
    assert!(!session.is_ended());
    bus.close();
    assert_eq!(session.relay(&bus), Relay::Stop);
    assert!(session.is_ended());
}
