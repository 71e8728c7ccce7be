//! The envelope codec.
//!
//! On the wire an event is an envelope: a JSON object with the event's tag
//! under `type` and, for a runtime event, its payload under `data`.
//! [`envelope`] says which tree an event is written as, and [`decode_spec`]
//! says which event, or which failure, a tree is read as.

use vstd::prelude::*;
pub use crate::datas::EventDTO;

use crate::bus::BroadcastBus;
use crate::events::docker::{
    ContainerInspectResponse, ContainerSummary, DockerContainerInspectData,
    DockerContainerListData, DockerContainerRestartData, DockerContainerStartData,
    DockerContainerStopData, DockerEvent, DockerEventView, DockerStatusData,
};
use crate::events::system::SystemEvent;
use crate::events::{Event, EventView};
use crate::json::{
    duplicate_members, find_member, get, json_parse, json_text, lemma_array_view,
    lemma_object_view, member, parse, same_text, to_text, JsonModel, JsonValue, ObjectModel,
};

verus! {

/// Why a message could not be read as an event.
#[derive(Debug, Clone, Copy, PartialEq, Eq)]
pub enum DecodeError {
    /// The message is not JSON text.
    Malformed,
    /// The message is not an object with a text under `type`.
    MissingTag,
    /// The tag names no event.
    UnknownTag,
    /// The payload does not have the shape that the tag asks for.
    BadPayload,
}

/// A text, or `null` where there is none.
pub open spec fn text_or_null(text: Option<Seq<char>>) -> JsonModel {
    match text {
        Some(text) => JsonModel::Text(text),
        None => JsonModel::Null,
    }
}

/// An object, or `null` where there is none.
pub open spec fn object_or_null(object: Option<ObjectModel>) -> JsonModel {
    match object {
        Some(members) => JsonModel::Object(members),
        None => JsonModel::Null,
    }
}

/// The objects of a list, each as a tree.
pub open spec fn objects(list: Seq<ObjectModel>) -> Seq<JsonModel> {
    Seq::new(list.len(), |i: int| JsonModel::Object(list[i]))
}

/// The members of the payload of a runtime event.
pub open spec fn payload(event: DockerEventView) -> ObjectModel {
    match event {
        DockerEventView::DockerStatus { status } => seq![
            (
                "status"@,
                match status {
                    Some(code) => JsonModel::Int(code as int),
                    None => JsonModel::Null,
                },
            ),
        ],
        DockerEventView::DockerContainerList { containers } => seq![
            (
                "containers"@,
                match containers {
                    Some(list) => JsonModel::Array(objects(list)),
                    None => JsonModel::Null,
                },
            ),
        ],
        DockerEventView::DockerContainerInspect { container_id, container } => seq![
            ("containerId"@, text_or_null(container_id)),
            ("container"@, object_or_null(container)),
        ],
        DockerEventView::DockerContainerStart { container_id } => seq![
            ("containerId"@, text_or_null(container_id)),
        ],
        DockerEventView::DockerContainerRestart { container_id } => seq![
            ("containerId"@, text_or_null(container_id)),
        ],
        DockerEventView::DockerContainerStop { container_id } => seq![
            ("containerId"@, text_or_null(container_id)),
        ],
    }
}

/// The envelope that an event is written as.
pub open spec fn envelope(event: EventView) -> JsonModel {
    match event {
        EventView::System(system) => JsonModel::Object(
            seq![("type"@, JsonModel::Text(system.tag()))],
        ),
        EventView::Docker(docker) => JsonModel::Object(
            seq![
                ("type"@, JsonModel::Text(docker.tag())),
                ("data"@, JsonModel::Object(payload(docker))),
            ],
        ),
    }
}

/// The text that an event is sent as: its envelope as compact JSON, or
/// nothing where a document that the event carries cannot be written.
pub open spec fn dto_text(event: EventView) -> Seq<char> {
    if envelope(event).well_formed() {
        json_text(envelope(event))
    } else {
        Seq::empty()
    }
}

/// An optional text field: absent and `null` both stand for none.
pub open spec fn text_field(value: Option<JsonModel>) -> Result<Option<Seq<char>>, DecodeError> {
    match value {
        None => Ok(None),
        Some(JsonModel::Null) => Ok(None),
        Some(JsonModel::Text(text)) => Ok(Some(text)),
        Some(_) => Err(DecodeError::BadPayload),
    }
}

/// An optional object field: absent and `null` both stand for none.
pub open spec fn object_field(value: Option<JsonModel>) -> Result<
    Option<ObjectModel>,
    DecodeError,
> {
    match value {
        None => Ok(None),
        Some(JsonModel::Null) => Ok(None),
        Some(JsonModel::Object(members)) => Ok(Some(members)),
        Some(_) => Err(DecodeError::BadPayload),
    }
}

/// The status code of a payload: an integer that fits eight bits.
pub open spec fn status_of(data: ObjectModel) -> Result<Option<i8>, DecodeError> {
    match member(data, "status"@) {
        None => Ok(None),
        Some(JsonModel::Null) => Ok(None),
        Some(JsonModel::Int(code)) => if i8::MIN <= code <= i8::MAX {
            Ok(Some(code as i8))
        } else {
            Err(DecodeError::BadPayload)
        },
        Some(_) => Err(DecodeError::BadPayload),
    }
}

/// The container id of a payload. It is spelled `containerId` or `ID`; a
/// payload with both is refused.
pub open spec fn container_id_of(data: ObjectModel) -> Result<Option<Seq<char>>, DecodeError> {
    if member(data, "containerId"@).is_some() && member(data, "ID"@).is_some() {
        Err(DecodeError::BadPayload)
    } else if member(data, "containerId"@).is_some() {
        text_field(member(data, "containerId"@))
    } else {
        text_field(member(data, "ID"@))
    }
}

/// Every item is an object.
pub open spec fn all_objects(items: Seq<JsonModel>) -> bool {
    forall|i: int| 0 <= i < items.len() ==> (#[trigger] items[i]) is Object
}

/// The container summaries of a payload: an array of objects.
pub open spec fn containers_of(data: ObjectModel) -> Result<Option<Seq<ObjectModel>>, DecodeError> {
    match member(data, "containers"@) {
        None => Ok(None),
        Some(JsonModel::Null) => Ok(None),
        Some(JsonModel::Array(items)) => if all_objects(items) {
            Ok(Some(Seq::new(items.len(), |i: int| items[i]->Object_0)))
        } else {
            Err(DecodeError::BadPayload)
        },
        Some(_) => Err(DecodeError::BadPayload),
    }
}

/// The payload of an envelope: the object under `data`, or no members where
/// `data` is left out.
pub open spec fn data_of(root: ObjectModel) -> Result<ObjectModel, DecodeError> {
    match member(root, "data"@) {
        None => Ok(Seq::empty()),
        Some(JsonModel::Object(members)) => Ok(members),
        Some(_) => Err(DecodeError::BadPayload),
    }
}

/// Whether `tag` names a runtime event.
pub open spec fn is_docker_tag(tag: Seq<char>) -> bool {
    ||| tag == "DockerStatus"@
    ||| tag == "DockerContainerList"@
    ||| tag == "DockerContainerInspect"@
    ||| tag == "DockerContainerStart"@
    ||| tag == "DockerContainerRestart"@
    ||| tag == "DockerContainerStop"@
}

/// The runtime event that `tag` and the payload `data` stand for.
pub open spec fn docker_event_of(tag: Seq<char>, data: ObjectModel) -> Result<
    DockerEventView,
    DecodeError,
> {
    if tag == "DockerStatus"@ {
        match status_of(data) {
            Ok(status) => Ok(DockerEventView::DockerStatus { status }),
            Err(error) => Err(error),
        }
    } else if tag == "DockerContainerList"@ {
        match containers_of(data) {
            Ok(containers) => Ok(DockerEventView::DockerContainerList { containers }),
            Err(error) => Err(error),
        }
    } else if tag == "DockerContainerInspect"@ {
        match container_id_of(data) {
            Ok(container_id) => match object_field(member(data, "container"@)) {
                Ok(container) => Ok(
                    DockerEventView::DockerContainerInspect { container_id, container },
                ),
                Err(error) => Err(error),
            },
            Err(error) => Err(error),
        }
    } else if tag == "DockerContainerStart"@ {
        match container_id_of(data) {
            Ok(container_id) => Ok(DockerEventView::DockerContainerStart { container_id }),
            Err(error) => Err(error),
        }
    } else if tag == "DockerContainerRestart"@ {
        match container_id_of(data) {
            Ok(container_id) => Ok(DockerEventView::DockerContainerRestart { container_id }),
            Err(error) => Err(error),
        }
    } else if tag == "DockerContainerStop"@ {
        match container_id_of(data) {
            Ok(container_id) => Ok(DockerEventView::DockerContainerStop { container_id }),
            Err(error) => Err(error),
        }
    } else {
        Err(DecodeError::UnknownTag)
    }
}

/// The tag of an envelope: the text under `type`.
pub open spec fn tag_of(tree: JsonModel) -> Option<Seq<char>> {
    match tree {
        JsonModel::Object(root) => match member(root, "type"@) {
            Some(JsonModel::Text(tag)) => Some(tag),
            _ => None,
        },
        _ => None,
    }
}

/// The event that a tree is read as, or why it is none.
pub open spec fn decode_spec(tree: JsonModel) -> Result<EventView, DecodeError> {
    match tag_of(tree) {
        None => Err(DecodeError::MissingTag),
        Some(tag) => if tag == "SystemStatus"@ {
            Ok(EventView::System(SystemEvent::SystemStatus))
        } else if is_docker_tag(tag) {
            match data_of(tree->Object_0) {
                Ok(data) => match docker_event_of(tag, data) {
                    Ok(event) => Ok(EventView::Docker(event)),
                    Err(error) => Err(error),
                },
                Err(error) => Err(error),
            }
        } else {
            Err(DecodeError::UnknownTag)
        },
    }
}

/// The event that a message is read as, or why it is none.
pub open spec fn decode_text_spec(message: Seq<char>) -> Result<EventView, DecodeError> {
    match json_parse(message) {
        Some(tree) => decode_spec(tree),
        None => Err(DecodeError::Malformed),
    }
}

/// Whether `tag` names an event.
pub open spec fn is_known_tag(tag: Seq<char>) -> bool {
    tag == "SystemStatus"@ || is_docker_tag(tag)
}

/// The names of the wire format differ from one another.
pub proof fn lemma_wire_names()
    ensures
        "type"@ != "data"@,
        "ID"@ != "status"@,
        "ID"@ != "containers"@,
        "containerId"@ != "ID"@,
        "containerId"@ != "container"@,
        "container"@ != "ID"@,
        "SystemStatus"@ != "DockerStatus"@,
        "SystemStatus"@ != "DockerContainerList"@,
        "SystemStatus"@ != "DockerContainerInspect"@,
        "SystemStatus"@ != "DockerContainerStart"@,
        "SystemStatus"@ != "DockerContainerRestart"@,
        "SystemStatus"@ != "DockerContainerStop"@,
        "DockerStatus"@ != "DockerContainerList"@,
        "DockerStatus"@ != "DockerContainerInspect"@,
        "DockerStatus"@ != "DockerContainerStart"@,
        "DockerStatus"@ != "DockerContainerRestart"@,
        "DockerStatus"@ != "DockerContainerStop"@,
        "DockerContainerList"@ != "DockerContainerInspect"@,
        "DockerContainerList"@ != "DockerContainerStart"@,
        "DockerContainerList"@ != "DockerContainerRestart"@,
        "DockerContainerList"@ != "DockerContainerStop"@,
        "DockerContainerInspect"@ != "DockerContainerStart"@,
        "DockerContainerInspect"@ != "DockerContainerRestart"@,
        "DockerContainerInspect"@ != "DockerContainerStop"@,
        "DockerContainerStart"@ != "DockerContainerRestart"@,
        "DockerContainerStart"@ != "DockerContainerStop"@,
        "DockerContainerRestart"@ != "DockerContainerStop"@,
{
    reveal_strlit("type");
    reveal_strlit("data");
    reveal_strlit("containerId");
    reveal_strlit("ID");
    reveal_strlit("status");
    reveal_strlit("containers");
    reveal_strlit("container");
    reveal_strlit("SystemStatus");
    reveal_strlit("DockerStatus");
    reveal_strlit("DockerContainerList");
    reveal_strlit("DockerContainerInspect");
    reveal_strlit("DockerContainerStart");
    reveal_strlit("DockerContainerRestart");
    reveal_strlit("DockerContainerStop");
    assert("type"@[0] == 't' && "data"@[0] == 'd');
    assert("containerId"@.len() == 11 && "ID"@.len() == 2 && "container"@.len() == 9);
    assert("status"@.len() == 6 && "containers"@.len() == 10);
    assert("SystemStatus"@[0] == 'S' && "SystemStatus"@.len() == 12);
    assert("DockerStatus"@[0] == 'D' && "DockerStatus"@.len() == 12);
    assert("DockerContainerList"@.len() == 19 && "DockerContainerList"@[15] == 'L');
    assert("DockerContainerInspect"@.len() == 22 && "DockerContainerInspect"@[15] == 'I');
    assert("DockerContainerStart"@.len() == 20);
    assert("DockerContainerRestart"@.len() == 22 && "DockerContainerRestart"@[15] == 'R');
    assert("DockerContainerStop"@.len() == 19 && "DockerContainerStop"@[15] == 'S');
}

/// Reading the envelope of an event gives that event back, whatever the
/// event is.
pub proof fn lemma_decode_inverts_encode(event: EventView)
    ensures
        decode_spec(envelope(event)) == Ok::<EventView, DecodeError>(event),
{
    lemma_wire_names();
    reveal_with_fuel(find_member, 3);
    let tree = envelope(event);
    match event {
        EventView::System(system) => {
            assert(member(tree->Object_0, "type"@) == Some(JsonModel::Text(system.tag())));
        },
        EventView::Docker(docker) => {
            let root = tree->Object_0;
            let data = payload(docker);
            assert(member(root, "type"@) == Some(JsonModel::Text(docker.tag())));
            assert(member(root, "data"@) == Some(JsonModel::Object(data)));
            assert(data_of(root) == Ok::<ObjectModel, DecodeError>(data));
            match docker {
                DockerEventView::DockerStatus { status } => {
                    assert(member(data, "status"@) == Some(data[0].1));
                },
                DockerEventView::DockerContainerList { containers } => {
                    assert(member(data, "containers"@) == Some(data[0].1));
                    if let Some(list) = containers {
                        let items = objects(list);
                        assert(all_objects(items));
                        assert(Seq::new(items.len(), |i: int| items[i]->Object_0) =~= list);
                    }
                },
                DockerEventView::DockerContainerInspect { container_id, container } => {
                    assert(member(data, "containerId"@) == Some(data[0].1));
                    assert(member(data, "ID"@).is_none());
                    assert(member(data, "container"@) == Some(data[1].1));
                },
                DockerEventView::DockerContainerStart { container_id } => {
                    assert(member(data, "containerId"@) == Some(data[0].1));
                    assert(member(data, "ID"@).is_none());
                },
                DockerEventView::DockerContainerRestart { container_id } => {
                    assert(member(data, "containerId"@) == Some(data[0].1));
                    assert(member(data, "ID"@).is_none());
                },
                DockerEventView::DockerContainerStop { container_id } => {
                    assert(member(data, "containerId"@) == Some(data[0].1));
                    assert(member(data, "ID"@).is_none());
                },
            }
        },
    }
}

/// Two events with the same envelope are the same event.
pub proof fn lemma_envelope_tells_events_apart(first: EventView, second: EventView)
    requires
        envelope(first) == envelope(second),
    ensures
        first == second,
{
    lemma_decode_inverts_encode(first);
    lemma_decode_inverts_encode(second);
}

/// The tag decides the kind of the event: what a tree is read as carries
/// the tree's own tag.
pub proof fn lemma_decode_keeps_tag(tree: JsonModel)
    ensures
        decode_spec(tree) matches Ok(event) ==> tag_of(tree) == Some(event.tag()),
{
}

/// An event that is written as text and read again is the same event,
/// wherever the JSON reader gives back the envelope that the JSON writer was
/// given.
pub proof fn lemma_text_round_trip(event: EventView)
    ensures
        envelope(event).well_formed() && json_parse(json_text(envelope(event))) == Some(
            envelope(event),
        ) ==> decode_text_spec(dto_text(event)) == Ok::<EventView, DecodeError>(event),
{
    lemma_decode_inverts_encode(event);
}

/// A message is refused when it is not JSON, when it has no tag, and when
/// its tag names no event; in each case with the error that says so.
pub proof fn lemma_decode_refuses(message: Seq<char>)
    ensures
        json_parse(message) is None ==> decode_text_spec(message) == Err::<
            EventView,
            DecodeError,
        >(DecodeError::Malformed),
        json_parse(message) matches Some(tree) && tag_of(tree) is None ==> decode_text_spec(
            message,
        ) == Err::<EventView, DecodeError>(DecodeError::MissingTag),
        json_parse(message) matches Some(tree) && tag_of(tree) matches Some(tag) && !is_known_tag(
            tag,
        ) ==> decode_text_spec(message) == Err::<EventView, DecodeError>(DecodeError::UnknownTag),
{
}

/// The mathematical value of a decoding result.
pub open spec fn decoded(result: Result<Event, DecodeError>) -> Result<EventView, DecodeError> {
    match result {
        Ok(event) => Ok(event@),
        Err(error) => Err(error),
    }
}

fn text_tree(text: &Option<String>) -> (tree: JsonValue)
    ensures
        tree@ == text_or_null(text.deep_view()),
{
    match text {
        Some(text) => JsonValue::Text(text.clone()),
        None => JsonValue::Null,
    }
}

fn object_tree(members: &Vec<(String, JsonValue)>) -> (tree: JsonValue)
    ensures
        tree@ == JsonModel::Object(members.deep_view()),
{
    let copy = duplicate_members(members);
    proof {
        lemma_object_view(copy);
    }
    JsonValue::Object(copy)
}

fn summaries_tree(list: &Vec<ContainerSummary>) -> (tree: JsonValue)
    ensures
        tree@ == JsonModel::Array(objects(list.deep_view())),
{
    let mut items: Vec<JsonValue> = Vec::new();
    let mut i: usize = 0;
    while i < list.len()
        invariant
            i <= list.len(),
            items.len() == i,
            forall|k: int| 0 <= k < i ==> items@[k]@ == JsonModel::Object(list@[k]@),
        decreases list.len() - i,
    {
        items.push(object_tree(&list[i].fields));
        i += 1;
    }
    proof {
        assert(items.deep_view() =~= objects(list.deep_view()));
        lemma_array_view(items);
    }
    JsonValue::Array(items)
}

fn one_member(name: &str, value: JsonValue) -> (members: Vec<(String, JsonValue)>)
    ensures
        members.deep_view() == seq![(name@, value@)],
{
    let mut members: Vec<(String, JsonValue)> = Vec::new();
    members.push((name.to_owned(), value));
    assert(members.deep_view() =~= seq![(name@, value@)]);
    members
}

fn two_members(first: &str, first_value: JsonValue, second: &str, second_value: JsonValue) -> (members:
    Vec<(String, JsonValue)>)
    ensures
        members.deep_view() == seq![(first@, first_value@), (second@, second_value@)],
{
    let mut members: Vec<(String, JsonValue)> = Vec::new();
    members.push((first.to_owned(), first_value));
    members.push((second.to_owned(), second_value));
    assert(members.deep_view() =~= seq![(first@, first_value@), (second@, second_value@)]);
    members
}

fn payload_members(event: &DockerEvent) -> (members: Vec<(String, JsonValue)>)
    ensures
        members.deep_view() == payload(event@),
{
    match event {
        DockerEvent::DockerStatus { data } => {
            let value = match data.status {
                Some(code) => JsonValue::Int(code as i64),
                None => JsonValue::Null,
            };
            one_member("status", value)
        },
        DockerEvent::DockerContainerList { data } => {
            let value = match &data.containers {
                Some(list) => summaries_tree(list),
                None => JsonValue::Null,
            };
            one_member("containers", value)
        },
        DockerEvent::DockerContainerInspect { data } => {
            let detail = match &data.container {
                Some(container) => object_tree(&container.fields),
                None => JsonValue::Null,
            };
            two_members("containerId", text_tree(&data.container_id), "container", detail)
        },
        DockerEvent::DockerContainerStart { data } => one_member(
            "containerId",
            text_tree(&data.container_id),
        ),
        DockerEvent::DockerContainerRestart { data } => one_member(
            "containerId",
            text_tree(&data.container_id),
        ),
        DockerEvent::DockerContainerStop { data } => one_member(
            "containerId",
            text_tree(&data.container_id),
        ),
    }
}

/// Builds the envelope of an event.
pub fn encode_payload(event: &Event) -> (tree: JsonValue)
    ensures
        tree@ == envelope(event@),
{
    let tag = JsonValue::Text(event.tag().to_owned());
    let members = match event {
        Event::System(_) => one_member("type", tag),
        Event::Docker(docker) => {
            let data = payload_members(docker);
            proof {
                lemma_object_view(data);
            }
            two_members("type", tag, "data", JsonValue::Object(data))
        },
    };
    proof {
        lemma_object_view(members);
    }
    JsonValue::Object(members)
}

/// Writes an event as the text that is sent for it. This never fails: an
/// event that carries a document which cannot be written yields the empty
/// text.
pub fn create_event_dto(event: Event) -> (text: String)
    ensures
        text@ == dto_text(event@),
{
    let tree = encode_payload(&event);
    match to_text(&tree) {
        Some(text) => text,
        None => String::new(),
    }
}

/// Something that events can be sent to.
pub trait SendEvent {
    /// Whether the receiving end takes another text.
    spec fn takes(&self) -> bool;

    /// Every text that the receiving end was given, in order.
    spec fn outbox(&self) -> Seq<Seq<char>>;

    /// Sends an event as its text, and says whether it was taken.
    fn send_event(&mut self, event: Event) -> (sent: bool)
        ensures
            sent == old(self).takes(),
            final(self).outbox() == if sent {
                old(self).outbox().push(dto_text(event@))
            } else {
                old(self).outbox()
            },
    ;
}

impl SendEvent for BroadcastBus {
    open spec fn takes(&self) -> bool {
        self@.accepts()
    }

    open spec fn outbox(&self) -> Seq<Seq<char>> {
        self@.history
    }

    fn send_event(&mut self, event: Event) -> (sent: bool) {
        self.publish(create_event_dto(event))
    }
}

fn read_text(value: Option<&JsonValue>) -> (result: Result<Option<String>, DecodeError>)
    ensures
        match result {
            Ok(text) => text_field(value.deep_view()) == Ok::<Option<Seq<char>>, DecodeError>(
                text.deep_view(),
            ),
            Err(error) => text_field(value.deep_view()) == Err::<Option<Seq<char>>, DecodeError>(
                error,
            ),
        },
{
    match value {
        None => Ok(None),
        Some(JsonValue::Null) => Ok(None),
        Some(JsonValue::Text(text)) => Ok(Some(text.clone())),
        Some(_) => Err(DecodeError::BadPayload),
    }
}

fn read_status(data: &Vec<(String, JsonValue)>) -> (result: Result<Option<i8>, DecodeError>)
    ensures
        result == status_of(data.deep_view()),
{
    match get(data, "status") {
        None => Ok(None),
        Some(JsonValue::Null) => Ok(None),
        Some(JsonValue::Int(code)) => {
            if -128 <= *code && *code <= 127 {
                Ok(Some(*code as i8))
            } else {
                Err(DecodeError::BadPayload)
            }
        },
        Some(_) => Err(DecodeError::BadPayload),
    }
}

fn read_container_id(data: &Vec<(String, JsonValue)>) -> (result: Result<
    Option<String>,
    DecodeError,
>)
    ensures
        match result {
            Ok(id) => container_id_of(data.deep_view()) == Ok::<Option<Seq<char>>, DecodeError>(
                id.deep_view(),
            ),
            Err(error) => container_id_of(data.deep_view()) == Err::<
                Option<Seq<char>>,
                DecodeError,
            >(error),
        },
{
    let long = get(data, "containerId");
    let short = get(data, "ID");
    if long.is_some() && short.is_some() {
        Err(DecodeError::BadPayload)
    } else if long.is_some() {
        read_text(long)
    } else {
        read_text(short)
    }
}

fn read_object(value: Option<&JsonValue>) -> (result: Result<
    Option<Vec<(String, JsonValue)>>,
    DecodeError,
>)
    ensures
        match result {
            Ok(members) => object_field(value.deep_view()) == Ok::<Option<ObjectModel>, DecodeError>(
                members.deep_view(),
            ),
            Err(error) => object_field(value.deep_view()) == Err::<Option<ObjectModel>, DecodeError>(
                error,
            ),
        },
{
    match value {
        None => Ok(None),
        Some(JsonValue::Null) => Ok(None),
        Some(JsonValue::Object(members)) => {
            proof {
                lemma_object_view(*members);
            }
            Ok(Some(duplicate_members(members)))
        },
        Some(_) => Err(DecodeError::BadPayload),
    }
}

fn read_containers(data: &Vec<(String, JsonValue)>) -> (result: Result<
    Option<Vec<ContainerSummary>>,
    DecodeError,
>)
    ensures
        match result {
            Ok(list) => containers_of(data.deep_view()) == Ok::<
                Option<Seq<ObjectModel>>,
                DecodeError,
            >(list.deep_view()),
            Err(error) => containers_of(data.deep_view()) == Err::<
                Option<Seq<ObjectModel>>,
                DecodeError,
            >(error),
        },
{
    match get(data, "containers") {
        None => Ok(None),
        Some(JsonValue::Null) => Ok(None),
        Some(JsonValue::Array(items)) => {
            proof {
                lemma_array_view(*items);
            }
            let mut list: Vec<ContainerSummary> = Vec::new();
            let mut i: usize = 0;
            while i < items.len()
                invariant
                    member(data.deep_view(), "containers"@) == Some(
                        JsonModel::Array(items.deep_view()),
                    ),
                    i <= items.len(),
                    list.len() == i,
                    forall|k: int| 0 <= k < i ==> (#[trigger] items.deep_view()[k]) is Object,
                    forall|k: int|
                        0 <= k < i ==> (#[trigger] list@[k])@ == items.deep_view()[k]->Object_0,
                decreases items.len() - i,
            {
                match &items[i] {
                    JsonValue::Object(members) => {
                        proof {
                            lemma_object_view(*members);
                        }
                        list.push(ContainerSummary { fields: duplicate_members(members) });
                    },
                    _ => {
                        assert(!(items.deep_view()[i as int] is Object));
                        return Err(DecodeError::BadPayload);
                    },
                }
                i += 1;
            }
            assert(all_objects(items.deep_view()));
            assert(list.deep_view() =~= Seq::new(
                items.deep_view().len(),
                |i: int| items.deep_view()[i]->Object_0,
            ));
            Ok(Some(list))
        },
        Some(_) => Err(DecodeError::BadPayload),
    }
}

fn read_docker_event(tag: &str, data: &Vec<(String, JsonValue)>) -> (result: Result<
    DockerEvent,
    DecodeError,
>)
    ensures
        match result {
            Ok(event) => docker_event_of(tag@, data.deep_view()) == Ok::<
                DockerEventView,
                DecodeError,
            >(event@),
            Err(error) => docker_event_of(tag@, data.deep_view()) == Err::<
                DockerEventView,
                DecodeError,
            >(error),
        },
{
    if same_text(tag, "DockerStatus") {
        match read_status(data) {
            Ok(status) => Ok(DockerEvent::DockerStatus { data: DockerStatusData { status } }),
            Err(error) => Err(error),
        }
    } else if same_text(tag, "DockerContainerList") {
        match read_containers(data) {
            Ok(containers) => Ok(
                DockerEvent::DockerContainerList { data: DockerContainerListData { containers } },
            ),
            Err(error) => Err(error),
        }
    } else if same_text(tag, "DockerContainerInspect") {
        match read_container_id(data) {
            Ok(container_id) => match read_object(get(data, "container")) {
                Ok(Some(fields)) => Ok(
                    DockerEvent::DockerContainerInspect {
                        data: DockerContainerInspectData {
                            container_id,
                            container: Some(ContainerInspectResponse { fields }),
                        },
                    },
                ),
                Ok(None) => Ok(
                    DockerEvent::DockerContainerInspect {
                        data: DockerContainerInspectData { container_id, container: None },
                    },
                ),
                Err(error) => Err(error),
            },
            Err(error) => Err(error),
        }
    } else if same_text(tag, "DockerContainerStart") {
        match read_container_id(data) {
            Ok(container_id) => Ok(
                DockerEvent::DockerContainerStart { data: DockerContainerStartData { container_id } },
            ),
            Err(error) => Err(error),
        }
    } else if same_text(tag, "DockerContainerRestart") {
        match read_container_id(data) {
            Ok(container_id) => Ok(
                DockerEvent::DockerContainerRestart {
                    data: DockerContainerRestartData { container_id },
                },
            ),
            Err(error) => Err(error),
        }
    } else if same_text(tag, "DockerContainerStop") {
        match read_container_id(data) {
            Ok(container_id) => Ok(
                DockerEvent::DockerContainerStop { data: DockerContainerStopData { container_id } },
            ),
            Err(error) => Err(error),
        }
    } else {
        Err(DecodeError::UnknownTag)
    }
}

fn names_docker_event(tag: &str) -> (known: bool)
    ensures
        known == is_docker_tag(tag@),
{
    same_text(tag, "DockerStatus") || same_text(tag, "DockerContainerList") || same_text(
        tag,
        "DockerContainerInspect",
    ) || same_text(tag, "DockerContainerStart") || same_text(tag, "DockerContainerRestart")
        || same_text(tag, "DockerContainerStop")
}

/// Reads an envelope. The tag decides the shape of the payload; members
/// that the shape does not name are passed over.
pub fn decode(tree: &JsonValue) -> (result: Result<Event, DecodeError>)
    ensures
        decoded(result) == decode_spec(tree@),
{
    let root = match tree {
        JsonValue::Object(root) => root,
        _ => {
            return Err(DecodeError::MissingTag);
        },
    };
    proof {
        lemma_object_view(*root);
    }
    let tag = match get(root, "type") {
        Some(JsonValue::Text(tag)) => tag,
        _ => {
            return Err(DecodeError::MissingTag);
        },
    };
    if same_text(tag.as_str(), "SystemStatus") {
        return Ok(Event::System(SystemEvent::SystemStatus));
    }
    if !names_docker_event(tag.as_str()) {
        return Err(DecodeError::UnknownTag);
    }
    let none: Vec<(String, JsonValue)> = Vec::new();
    assert(none.deep_view() =~= Seq::empty());
    let data = match get(root, "data") {
        None => &none,
        Some(JsonValue::Object(data)) => {
            proof {
                lemma_object_view(*data);
            }
            data
        },
        Some(_) => {
            return Err(DecodeError::BadPayload);
        },
    };
    match read_docker_event(tag.as_str(), data) {
        Ok(event) => Ok(Event::Docker(event)),
        Err(error) => Err(error),
    }
}

/// Reads a message as an event.
pub fn decode_message(message: &str) -> (result: Result<Event, DecodeError>)
    ensures
        decoded(result) == decode_text_spec(message@),
{
    match parse(message) {
        Some(tree) => decode(&tree),
        None => Err(DecodeError::Malformed),
    }
}

} // verus!
