//! Payloads as documents.
//!
//! Besides the envelope that carries its own payload, an event can be sent
//! with a payload that the caller supplies as a document. [`EventDTO`] says
//! how a value is turned into such a document.

use vstd::prelude::*;
use crate::events::docker::ContainerSummary;
use crate::events::{Event, EventView};
use crate::json::{
    get, json_text, lemma_array_view, lemma_object_view, lemma_object_well_formed, member,
    to_text, JsonModel, JsonValue, ObjectModel,
};

verus! {

/// The envelope of an event whose payload is `data`.
pub open spec fn envelope_with(event: EventView, data: JsonModel) -> JsonModel {
    JsonModel::Object(seq![("type"@, JsonModel::Text(event.tag())), ("data"@, data)])
}

/// The text that an event is sent as with the payload `data`: its envelope
/// as compact JSON, or nothing where `data` cannot be written.
pub open spec fn dto_text_with(event: EventView, data: JsonModel) -> Seq<char> {
    if data.well_formed() {
        json_text(envelope_with(event, data))
    } else {
        Seq::empty()
    }
}

/// Writes an event with the payload `data` in place of its own.
pub fn create_event_dto(event: Event, data: JsonValue) -> (text: String)
    ensures
        text@ == dto_text_with(event@, data@),
{
    let tag = JsonValue::Text(event.tag().to_owned());
    let mut members: Vec<(String, JsonValue)> = Vec::new();
    members.push(("type".to_owned(), tag));
    members.push(("data".to_owned(), data));
    proof {
        assert(members.deep_view() =~= seq![
            ("type"@, JsonModel::Text(event@.tag())),
            ("data"@, data@),
        ]);
        lemma_object_view(members);
        lemma_object_well_formed(members.deep_view());
        assert(members.deep_view()[1].1 == data@);
    }
    let tree = JsonValue::Object(members);
    match to_text(&tree) {
        Some(text) => text,
        None => String::new(),
    }
}

/// A value that can be sent as the payload of an event.
pub trait EventDTO {
    /// The document that the value is written as.
    spec fn json(&self) -> JsonModel;

    /// Writes the value as a document.
    fn to_json(&self) -> (tree: JsonValue)
        ensures
            tree@ == self.json(),
    ;
}

impl EventDTO for i8 {
    open spec fn json(&self) -> JsonModel {
        JsonModel::Int(*self as int)
    }

    fn to_json(&self) -> (tree: JsonValue) {
        JsonValue::Int(*self as i64)
    }
}

/// The value of the member named `name`, or `null` where there is none.
pub open spec fn field_or_null(fields: ObjectModel, name: Seq<char>) -> JsonModel {
    match member(fields, name) {
        Some(value) => value,
        None => JsonModel::Null,
    }
}

/// What a client is shown of a container summary: twelve of its fields,
/// under names of the relay's own.
pub open spec fn summary_members(fields: ObjectModel) -> ObjectModel {
    seq![
        ("id"@, field_or_null(fields, "Id"@)),
        ("names"@, field_or_null(fields, "Names"@)),
        ("image"@, field_or_null(fields, "Image"@)),
        ("command"@, field_or_null(fields, "Command"@)),
        ("created"@, field_or_null(fields, "Created"@)),
        ("state"@, field_or_null(fields, "State"@)),
        ("status"@, field_or_null(fields, "Status"@)),
        ("ports"@, field_or_null(fields, "Ports"@)),
        ("labels"@, field_or_null(fields, "Labels"@)),
        ("size_rw"@, field_or_null(fields, "SizeRw"@)),
        ("size_root_fs"@, field_or_null(fields, "SizeRootFs"@)),
        ("mounts"@, field_or_null(fields, "Mounts"@)),
    ]
}

fn shown(fields: &Vec<(String, JsonValue)>, name: &str, under: &str) -> (shown: (String, JsonValue))
    ensures
        shown.deep_view() == (under@, field_or_null(fields.deep_view(), name@)),
{
    let value = match get(fields, name) {
        Some(value) => value.duplicate(),
        None => JsonValue::Null,
    };
    (under.to_owned(), value)
}

impl EventDTO for ContainerSummary {
    open spec fn json(&self) -> JsonModel {
        JsonModel::Object(summary_members(self@))
    }

    fn to_json(&self) -> (tree: JsonValue) {
        let mut members: Vec<(String, JsonValue)> = Vec::new();
        members.push(shown(&self.fields, "Id", "id"));
        members.push(shown(&self.fields, "Names", "names"));
        members.push(shown(&self.fields, "Image", "image"));
        members.push(shown(&self.fields, "Command", "command"));
        members.push(shown(&self.fields, "Created", "created"));
        members.push(shown(&self.fields, "State", "state"));
        members.push(shown(&self.fields, "Status", "status"));
        members.push(shown(&self.fields, "Ports", "ports"));
        members.push(shown(&self.fields, "Labels", "labels"));
        members.push(shown(&self.fields, "SizeRw", "size_rw"));
        members.push(shown(&self.fields, "SizeRootFs", "size_root_fs"));
        members.push(shown(&self.fields, "Mounts", "mounts"));
        proof {
            assert(members.deep_view() =~= summary_members(self@));
            lemma_object_view(members);
        }
        JsonValue::Object(members)
    }
}

impl EventDTO for Vec<ContainerSummary> {
    open spec fn json(&self) -> JsonModel {
        JsonModel::Array(Seq::new(self@.len(), |i: int| self@[i].json()))
    }

    fn to_json(&self) -> (tree: JsonValue) {
        let mut items: Vec<JsonValue> = Vec::new();
        let mut i: usize = 0;
        while i < self.len()
            invariant
                i <= self.len(),
                items.len() == i,
                forall|k: int| 0 <= k < i ==> items@[k]@ == self@[k].json(),
            decreases self.len() - i,
        {
            items.push(self[i].to_json());
            i += 1;
        }
        proof {
            assert(items.deep_view() =~= Seq::new(self@.len(), |i: int| self@[i].json()));
            lemma_array_view(items);
        }
        JsonValue::Array(items)
    }
}

} // verus!
