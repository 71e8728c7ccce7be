//! Events about the container runtime, and their payloads.

use vstd::prelude::*;
use crate::json::{json_parse, lemma_object_view, parse, JsonModel, JsonValue, ObjectModel};

verus! {

/// The runtime's summary of one container: the members of a JSON object,
/// which the relay carries without reading them.
#[derive(Debug, PartialEq, Eq)]
pub struct ContainerSummary {
    pub fields: Vec<(String, JsonValue)>,
}

/// The runtime's detailed description of one container: the members of a
/// JSON object, which the relay carries without reading them.
#[derive(Debug, PartialEq, Eq)]
pub struct ContainerInspectResponse {
    pub fields: Vec<(String, JsonValue)>,
}

/// Liveness of the runtime: 0 unreachable, 1 reachable, 2 reachable but
/// answering with an error. Absent in a query.
#[derive(Debug, Clone, Copy, PartialEq, Eq)]
pub struct DockerStatusData {
    pub status: Option<i8>,
}

#[derive(Debug, PartialEq, Eq)]
pub struct DockerContainerListData {
    pub containers: Option<Vec<ContainerSummary>>,
}

#[derive(Debug, PartialEq, Eq)]
pub struct DockerContainerInspectData {
    pub container_id: Option<String>,
    pub container: Option<ContainerInspectResponse>,
}

#[derive(Debug, PartialEq, Eq)]
pub struct DockerContainerStartData {
    pub container_id: Option<String>,
}

#[derive(Debug, PartialEq, Eq)]
pub struct DockerContainerRestartData {
    pub container_id: Option<String>,
}

#[derive(Debug, PartialEq, Eq)]
pub struct DockerContainerStopData {
    pub container_id: Option<String>,
}

#[derive(Debug, PartialEq, Eq)]
#[allow(inconsistent_fields)]
pub enum DockerEvent {
    DockerStatus { data: DockerStatusData },
    DockerContainerList { data: DockerContainerListData },
    DockerContainerInspect { data: DockerContainerInspectData },
    DockerContainerStart { data: DockerContainerStartData },
    DockerContainerRestart { data: DockerContainerRestartData },
    DockerContainerStop { data: DockerContainerStopData },
}

/// The mathematical value of a [`DockerEvent`].
pub enum DockerEventView {
    DockerStatus { status: Option<i8> },
    DockerContainerList { containers: Option<Seq<ObjectModel>> },
    DockerContainerInspect { container_id: Option<Seq<char>>, container: Option<ObjectModel> },
    DockerContainerStart { container_id: Option<Seq<char>> },
    DockerContainerRestart { container_id: Option<Seq<char>> },
    DockerContainerStop { container_id: Option<Seq<char>> },
}

impl View for ContainerSummary {
    type V = ObjectModel;

    open spec fn view(&self) -> ObjectModel {
        self.fields.deep_view()
    }
}

impl DeepView for ContainerSummary {
    type V = ObjectModel;

    open spec fn deep_view(&self) -> ObjectModel {
        self@
    }
}

impl View for ContainerInspectResponse {
    type V = ObjectModel;

    open spec fn view(&self) -> ObjectModel {
        self.fields.deep_view()
    }
}

impl DeepView for ContainerInspectResponse {
    type V = ObjectModel;

    open spec fn deep_view(&self) -> ObjectModel {
        self@
    }
}

/// The members of the object that a text holds, where it holds one.
pub open spec fn object_in(text: Seq<char>) -> Option<ObjectModel> {
    match json_parse(text) {
        Some(JsonModel::Object(members)) => Some(members),
        _ => None,
    }
}

fn members_in(text: &str) -> (members: Option<Vec<(String, JsonValue)>>)
    ensures
        members.deep_view() == object_in(text@),
{
    match parse(text) {
        Some(JsonValue::Object(members)) => {
            proof {
                lemma_object_view(members);
            }
            Some(members)
        },
        _ => None,
    }
}

impl ContainerSummary {
    /// Takes a summary from the JSON text that the runtime's client writes
    /// it as. A text that does not hold an object holds no summary.
    pub fn from_text(text: &str) -> (summary: Option<ContainerSummary>)
        ensures
            summary.deep_view() == object_in(text@),
    {
        match members_in(text) {
            Some(fields) => Some(ContainerSummary { fields }),
            None => None,
        }
    }
}

impl ContainerInspectResponse {
    /// Takes a detail from the JSON text that the runtime's client writes
    /// it as. A text that does not hold an object holds no detail.
    pub fn from_text(text: &str) -> (detail: Option<ContainerInspectResponse>)
        ensures
            detail.deep_view() == object_in(text@),
    {
        match members_in(text) {
            Some(fields) => Some(ContainerInspectResponse { fields }),
            None => None,
        }
    }
}

impl View for DockerStatusData {
    type V = Option<i8>;

    open spec fn view(&self) -> Option<i8> {
        self.status
    }
}

impl View for DockerContainerListData {
    type V = Option<Seq<ObjectModel>>;

    open spec fn view(&self) -> Option<Seq<ObjectModel>> {
        self.containers.deep_view()
    }
}

impl View for DockerContainerInspectData {
    type V = (Option<Seq<char>>, Option<ObjectModel>);

    open spec fn view(&self) -> (Option<Seq<char>>, Option<ObjectModel>) {
        (self.container_id.deep_view(), self.container.deep_view())
    }
}

impl View for DockerContainerStartData {
    type V = Option<Seq<char>>;

    open spec fn view(&self) -> Option<Seq<char>> {
        self.container_id.deep_view()
    }
}

impl View for DockerContainerRestartData {
    type V = Option<Seq<char>>;

    open spec fn view(&self) -> Option<Seq<char>> {
        self.container_id.deep_view()
    }
}

impl View for DockerContainerStopData {
    type V = Option<Seq<char>>;

    open spec fn view(&self) -> Option<Seq<char>> {
        self.container_id.deep_view()
    }
}

impl View for DockerEvent {
    type V = DockerEventView;

    open spec fn view(&self) -> DockerEventView {
        match self {
            DockerEvent::DockerStatus { data } => DockerEventView::DockerStatus { status: data@ },
            DockerEvent::DockerContainerList { data } => DockerEventView::DockerContainerList {
                containers: data@,
            },
            DockerEvent::DockerContainerInspect { data } => DockerEventView::DockerContainerInspect {
                container_id: data@.0,
                container: data@.1,
            },
            DockerEvent::DockerContainerStart { data } => DockerEventView::DockerContainerStart {
                container_id: data@,
            },
            DockerEvent::DockerContainerRestart { data } => DockerEventView::DockerContainerRestart {
                container_id: data@,
            },
            DockerEvent::DockerContainerStop { data } => DockerEventView::DockerContainerStop {
                container_id: data@,
            },
        }
    }
}

impl DockerEventView {
    /// The tag that names this event on the wire.
    pub open spec fn tag(self) -> Seq<char> {
        match self {
            DockerEventView::DockerStatus { .. } => "DockerStatus"@,
            DockerEventView::DockerContainerList { .. } => "DockerContainerList"@,
            DockerEventView::DockerContainerInspect { .. } => "DockerContainerInspect"@,
            DockerEventView::DockerContainerStart { .. } => "DockerContainerStart"@,
            DockerEventView::DockerContainerRestart { .. } => "DockerContainerRestart"@,
            DockerEventView::DockerContainerStop { .. } => "DockerContainerStop"@,
        }
    }
}

} // verus!
