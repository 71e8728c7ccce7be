//! The events that travel between clients, the relay and the runtime.

use vstd::prelude::*;

pub mod docker;
pub mod system;

use docker::{DockerEvent, DockerEventView};
use system::SystemEvent;

verus! {

#[derive(Debug, PartialEq, Eq)]
pub enum Event {
    System(SystemEvent),
    Docker(DockerEvent),
}

/// The mathematical value of an [`Event`].
pub enum EventView {
    System(SystemEvent),
    Docker(DockerEventView),
}

impl View for Event {
    type V = EventView;

    open spec fn view(&self) -> EventView {
        match self {
            Event::System(event) => EventView::System(*event),
            Event::Docker(event) => EventView::Docker(event@),
        }
    }
}

impl Event {
    /// The tag that names this event on the wire.
    pub fn tag(&self) -> (tag: &'static str)
        ensures
            tag@ == self@.tag(),
    {
        match self {
            Event::System(SystemEvent::SystemStatus) => "SystemStatus",
            Event::Docker(DockerEvent::DockerStatus { .. }) => "DockerStatus",
            Event::Docker(DockerEvent::DockerContainerList { .. }) => "DockerContainerList",
            Event::Docker(DockerEvent::DockerContainerInspect { .. }) => "DockerContainerInspect",
            Event::Docker(DockerEvent::DockerContainerStart { .. }) => "DockerContainerStart",
            Event::Docker(DockerEvent::DockerContainerRestart { .. }) => "DockerContainerRestart",
            Event::Docker(DockerEvent::DockerContainerStop { .. }) => "DockerContainerStop",
        }
    }
}

impl DeepView for Event {
    type V = EventView;

    open spec fn deep_view(&self) -> EventView {
        self@
    }
}

impl EventView {
    /// The tag that names this event on the wire.
    pub open spec fn tag(self) -> Seq<char> {
        match self {
            EventView::System(event) => event.tag(),
            EventView::Docker(event) => event.tag(),
        }
    }
}

} // verus!
