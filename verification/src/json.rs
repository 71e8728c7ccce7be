//! JSON documents as plain trees.
//!
//! The relay reads only the outer layers of what it carries: a tag, a few
//! scalar fields, and otherwise whole documents that it hands on untouched.
//! A [`JsonValue`] holds such a document as a tree of plain values, so that
//! the rules about tags and fields can be stated and proved over it. Turning
//! text into a tree and a tree into text is `serde_json`'s work; the two
//! directions are named by [`json_parse`] and [`json_text`].

use vstd::prelude::*;

verus! {

/// A JSON document.
#[derive(Debug, PartialEq, Eq)]
pub enum JsonValue {
    Null,
    Bool(bool),
    /// A number that fits a signed 64-bit integer.
    Int(i64),
    /// Any other number, held as its literal.
    Number(String),
    Text(String),
    Array(Vec<JsonValue>),
    /// The members of an object, in order.
    Object(Vec<(String, JsonValue)>),
}

/// The mathematical value of a [`JsonValue`].
pub enum JsonModel {
    Null,
    Bool(bool),
    Int(int),
    Number(Seq<char>),
    Text(Seq<char>),
    Array(Seq<JsonModel>),
    Object(Seq<(Seq<char>, JsonModel)>),
}

/// The members of a JSON object, in order.
pub type ObjectModel = Seq<(Seq<char>, JsonModel)>;

/// What `serde_json::from_str` makes of a text, as a tree; `None` where it
/// reports an error.
pub uninterp spec fn json_parse(text: Seq<char>) -> Option<JsonModel>;

/// The compact text that `serde_json::to_string` writes for a tree.
pub uninterp spec fn json_text(tree: JsonModel) -> Seq<char>;

/// Whether `serde_json::Number` can be parsed from a literal.
pub uninterp spec fn number_literal(text: Seq<char>) -> bool;

/// Every member of `members` holds a well-formed tree.
pub open spec fn members_well_formed(members: ObjectModel) -> bool {
    forall|i: int| 0 <= i < members.len() ==> (#[trigger] members[i]).1.well_formed()
}

/// The index of the first member at or after `from` that is named `key`.
pub open spec fn find_member(members: ObjectModel, key: Seq<char>, from: int) -> Option<int>
    decreases members.len() - from,
{
    if from < 0 || from >= members.len() {
        None
    } else if members[from].0 == key {
        Some(from)
    } else {
        find_member(members, key, from + 1)
    }
}

/// The value of the first member named `key`.
pub open spec fn member(members: ObjectModel, key: Seq<char>) -> Option<JsonModel> {
    match find_member(members, key, 0) {
        Some(i) => Some(members[i].1),
        None => None,
    }
}

impl JsonModel {
    /// Every number literal in the tree is one that the JSON number parser
    /// accepts. Only such a tree can be written as text.
    pub open spec fn well_formed(self) -> bool
        decreases self,
    {
        match self {
            JsonModel::Number(literal) => number_literal(literal),
            JsonModel::Array(items) => forall|i: int|
                0 <= i < items.len() ==> (#[trigger] items[i]).well_formed(),
            JsonModel::Object(members) => forall|i: int|
                0 <= i < members.len() ==> (#[trigger] members[i]).1.well_formed(),
            _ => true,
        }
    }
}

/// The value of a tree.
pub open spec fn model_of(value: JsonValue) -> JsonModel
    decreases value,
{
    match value {
        JsonValue::Null => JsonModel::Null,
        JsonValue::Bool(b) => JsonModel::Bool(b),
        JsonValue::Int(i) => JsonModel::Int(i as int),
        JsonValue::Number(literal) => JsonModel::Number(literal@),
        JsonValue::Text(text) => JsonModel::Text(text@),
        JsonValue::Array(items) => JsonModel::Array(
            Seq::new(
                items@.len(),
                |i: int|
                    if 0 <= i < items@.len() {
                        model_of(items@[i])
                    } else {
                        JsonModel::Null
                    },
            ),
        ),
        JsonValue::Object(members) => JsonModel::Object(
            Seq::new(
                members@.len(),
                |i: int|
                    if 0 <= i < members@.len() {
                        (members@[i].0@, model_of(members@[i].1))
                    } else {
                        (Seq::empty(), JsonModel::Null)
                    },
            ),
        ),
    }
}

impl View for JsonValue {
    type V = JsonModel;

    open spec fn view(&self) -> JsonModel {
        model_of(*self)
    }
}

impl DeepView for JsonValue {
    type V = JsonModel;

    open spec fn deep_view(&self) -> JsonModel {
        self@
    }
}

/// The value of an array is the sequence of the values of its items.
pub proof fn lemma_array_view(items: Vec<JsonValue>)
    ensures
        JsonValue::Array(items)@ == JsonModel::Array(items.deep_view()),
{
    assert(JsonValue::Array(items)@->Array_0 =~= items.deep_view());
}

/// The value of an object is the sequence of its members' names and values.
pub proof fn lemma_object_view(members: Vec<(String, JsonValue)>)
    ensures
        JsonValue::Object(members)@ == JsonModel::Object(members.deep_view()),
{
    assert forall|i: int| 0 <= i < members@.len() implies members.deep_view()[i] == (
        members@[i].0@,
        members@[i].1@,
    ) by {
        assert(members.deep_view()[i] == members@[i].deep_view());
    }
    let whole = JsonValue::Object(members);
    assert(whole@->Object_0 =~= members.deep_view());
}

/// An object is well-formed exactly when its members are.
pub proof fn lemma_object_well_formed(members: ObjectModel)
    ensures
        JsonModel::Object(members).well_formed() == members_well_formed(members),
{
    let whole = JsonModel::Object(members);
    assert forall|i: int| 0 <= i < members.len() implies decreases_to!(whole => #[trigger] members[i].1) by {
        assert(decreases_to!(whole => whole->Object_0));
        assert(decreases_to!(whole->Object_0 => whole->Object_0[i]));
        assert(decreases_to!(whole->Object_0[i] => whole->Object_0[i].1));
    }
    if members_well_formed(members) {
        assert(whole.well_formed());
    }
    if whole.well_formed() {
        assert forall|i: int| 0 <= i < members.len() implies (#[trigger] members[i]).1.well_formed() by {
            assert(decreases_to!(whole => whole->Object_0[i].1));
            assert(whole->Object_0[i].1.well_formed());
        }
    }
}

/// An array is well-formed exactly when its items are.
pub proof fn lemma_array_well_formed(items: Seq<JsonModel>)
    ensures
        JsonModel::Array(items).well_formed() == (forall|i: int|
            0 <= i < items.len() ==> (#[trigger] items[i]).well_formed()),
{
    let whole = JsonModel::Array(items);
    assert forall|i: int| 0 <= i < items.len() implies decreases_to!(whole => #[trigger] items[i]) by {
        assert(decreases_to!(whole => whole->Array_0));
        assert(decreases_to!(whole->Array_0 => whole->Array_0[i]));
    }
    if forall|i: int| 0 <= i < items.len() ==> (#[trigger] items[i]).well_formed() {
        assert(whole.well_formed());
    }
    if whole.well_formed() {
        assert forall|i: int| 0 <= i < items.len() implies (#[trigger] items[i]).well_formed() by {
            assert(decreases_to!(whole => whole->Array_0[i]));
            assert(whole->Array_0[i].well_formed());
        }
    }
}

#[verifier::external_type_specification]
#[verifier::external_body]
pub struct ExValue(serde_json::Value);

/// Calls `str::parse::<serde_json::Number>` and reports whether it
/// succeeded.
#[verifier::external_body]
fn is_number_literal(text: &str) -> (ok: bool)
    ensures
        ok == number_literal(text@),
{
    text.parse::<serde_json::Number>().is_ok()
}

/// Moves a `serde_json::Value` into a tree, variant by variant. An integer
/// that `Number::as_i64` yields becomes `Int`; any other number keeps the
/// literal that its `Display` writes.
#[verifier::external_body]
fn tree_of_value(value: &serde_json::Value) -> (tree: JsonValue) {
    match value {
        serde_json::Value::Null => JsonValue::Null,
        serde_json::Value::Bool(b) => JsonValue::Bool(*b),
        serde_json::Value::Number(n) => match n.as_i64() {
            Some(i) => JsonValue::Int(i),
            None => JsonValue::Number(n.to_string()),
        },
        serde_json::Value::String(s) => JsonValue::Text(s.clone()),
        serde_json::Value::Array(a) => JsonValue::Array(a.iter().map(tree_of_value).collect()),
        serde_json::Value::Object(m) => JsonValue::Object(
            m.iter().map(|(k, v)| (k.clone(), tree_of_value(v))).collect(),
        ),
    }
}

/// Calls `serde_json::from_str` for a `serde_json::Value`. The result is
/// the tree of that value, or `None` where the text is not JSON.
#[verifier::external_body]
fn parse_text(text: &str) -> (tree: Option<JsonValue>)
    ensures
        tree.deep_view() == json_parse(text@),
{
    match serde_json::from_str::<serde_json::Value>(text) {
        Ok(value) => Some(tree_of_value(&value)),
        Err(_) => None,
    }
}

/// Moves a tree into a `serde_json::Value`, variant by variant. A `Number`
/// goes through `str::parse::<serde_json::Number>`, which accepts every
/// literal of a well-formed tree.
#[verifier::external_body]
fn value_of_tree(tree: &JsonValue) -> (value: serde_json::Value)
    requires
        tree@.well_formed(),
{
    match tree {
        JsonValue::Null => serde_json::Value::Null,
        JsonValue::Bool(b) => serde_json::Value::Bool(*b),
        JsonValue::Int(i) => serde_json::Value::from(*i),
        JsonValue::Number(s) => s.parse().map_or(serde_json::Value::Null, serde_json::Value::Number),
        JsonValue::Text(s) => serde_json::Value::String(s.clone()),
        JsonValue::Array(a) => serde_json::Value::Array(a.iter().map(value_of_tree).collect()),
        JsonValue::Object(m) => serde_json::Value::Object(
            m.iter().map(|(k, v)| (k.clone(), value_of_tree(v))).collect(),
        ),
    }
}

/// Calls `serde_json::to_string` on the value of a well-formed tree.
#[verifier::external_body]
fn print_tree(tree: &JsonValue) -> (text: String)
    requires
        tree@.well_formed(),
    ensures
        text@ == json_text(tree@),
{
    serde_json::to_string(&value_of_tree(tree)).unwrap_or_default()
}

/// Whether two texts are the same sequence of characters.
pub fn same_text(left: &str, right: &str) -> (same: bool)
    ensures
        same == (left@ == right@),
{
    left.to_owned() == right.to_owned()
}

/// Reads a JSON text.
pub fn parse(text: &str) -> (tree: Option<JsonValue>)
    ensures
        tree.deep_view() == json_parse(text@),
{
    parse_text(text)
}

/// Writes a tree as compact JSON text, if it is well-formed.
pub fn to_text(tree: &JsonValue) -> (text: Option<String>)
    ensures
        text.deep_view() == if tree@.well_formed() {
            Some(json_text(tree@))
        } else {
            None
        },
{
    if tree.is_well_formed() {
        Some(print_tree(tree))
    } else {
        None
    }
}

/// Finds the first member named `key`.
pub fn find(members: &Vec<(String, JsonValue)>, key: &str) -> (found: Option<usize>)
    ensures
        match found {
            Some(i) => find_member(members.deep_view(), key@, 0) == Some(i as int) && i
                < members.len(),
            None => find_member(members.deep_view(), key@, 0).is_none(),
        },
{
    let wanted = key.to_owned();
    let mut i: usize = 0;
    while i < members.len()
        invariant
            wanted@ == key@,
            i <= members.len(),
            find_member(members.deep_view(), key@, 0) == find_member(
                members.deep_view(),
                key@,
                i as int,
            ),
        decreases members.len() - i,
    {
        if members[i].0 == wanted {
            return Some(i);
        }
        i += 1;
    }
    None
}

/// The value of the first member named `key`.
pub fn get<'a>(members: &'a Vec<(String, JsonValue)>, key: &str) -> (value: Option<&'a JsonValue>)
    ensures
        value.deep_view() == member(members.deep_view(), key@),
{
    match find(members, key) {
        Some(i) => Some(&members[i].1),
        None => None,
    }
}

/// Copies the members of an object.
pub fn duplicate_members(members: &Vec<(String, JsonValue)>) -> (copy: Vec<(String, JsonValue)>)
    ensures
        copy.deep_view() == members.deep_view(),
    decreases members,
{
    let mut copy: Vec<(String, JsonValue)> = Vec::new();
    let mut i: usize = 0;
    while i < members.len()
        invariant
            i <= members.len(),
            copy.len() == i,
            forall|k: int|
                0 <= k < i ==> copy@[k].0@ == members@[k].0@ && copy@[k].1@ == members@[k].1@,
        decreases members.len() - i,
    {
        proof {
            assert(decreases_to!(*members => members[i as int]));
            assert(decreases_to!(members[i as int] => members[i as int].1));
        }
        let value = members[i].1.duplicate();
        copy.push((members[i].0.clone(), value));
        i += 1;
    }
    assert(copy.deep_view() =~= members.deep_view());
    copy
}

/// Whether every member holds a well-formed tree.
pub fn are_members_well_formed(members: &Vec<(String, JsonValue)>) -> (ok: bool)
    ensures
        ok == members_well_formed(members.deep_view()),
    decreases members,
{
    let mut i: usize = 0;
    while i < members.len()
        invariant
            i <= members.len(),
            forall|k: int| 0 <= k < i ==> (#[trigger] members.deep_view()[k]).1.well_formed(),
        decreases members.len() - i,
    {
        proof {
            assert(decreases_to!(*members => members[i as int]));
            assert(decreases_to!(members[i as int] => members[i as int].1));
        }
        if !members[i].1.is_well_formed() {
            assert(!members.deep_view()[i as int].1.well_formed());
            return false;
        }
        i += 1;
    }
    true
}

impl JsonValue {
    /// Copies the tree.
    pub fn duplicate(&self) -> (copy: JsonValue)
        ensures
            copy@ == self@,
        decreases self,
    {
        match self {
            JsonValue::Null => JsonValue::Null,
            JsonValue::Bool(b) => JsonValue::Bool(*b),
            JsonValue::Int(i) => JsonValue::Int(*i),
            JsonValue::Number(literal) => JsonValue::Number(literal.clone()),
            JsonValue::Text(text) => JsonValue::Text(text.clone()),
            JsonValue::Array(items) => {
                let mut copy: Vec<JsonValue> = Vec::new();
                let mut i: usize = 0;
                while i < items.len()
                    invariant
                        *self == JsonValue::Array(*items),
                        i <= items.len(),
                        copy.len() == i,
                        forall|k: int| 0 <= k < i ==> copy@[k]@ == items@[k]@,
                    decreases items.len() - i,
                {
                    proof {
                        assert(decreases_to!(*self => self->Array_0));
                        assert(decreases_to!(self->Array_0 => self->Array_0[i as int]));
                    }
                    let item = items[i].duplicate();
                    copy.push(item);
                    i += 1;
                }
                proof {
                    assert(copy.deep_view() =~= items.deep_view());
                    lemma_array_view(copy);
                    lemma_array_view(*items);
                }
                JsonValue::Array(copy)
            },
            JsonValue::Object(members) => {
                proof {
                    assert(decreases_to!(*self => self->Object_0));
                }
                let copy = duplicate_members(members);
                proof {
                    lemma_object_view(copy);
                    lemma_object_view(*members);
                }
                JsonValue::Object(copy)
            },
        }
    }

    /// Whether the tree can be written as text.
    pub fn is_well_formed(&self) -> (ok: bool)
        ensures
            ok == self@.well_formed(),
        decreases self,
    {
        match self {
            JsonValue::Number(literal) => is_number_literal(literal.as_str()),
            JsonValue::Array(items) => {
                proof {
                    lemma_array_view(*items);
                    lemma_array_well_formed(items.deep_view());
                }
                let mut i: usize = 0;
                while i < items.len()
                    invariant
                        *self == JsonValue::Array(*items),
                        i <= items.len(),
                        forall|k: int| 0 <= k < i ==> (#[trigger] items.deep_view()[k]).well_formed(),
                    decreases items.len() - i,
                {
                    proof {
                        assert(decreases_to!(*self => self->Array_0));
                        assert(decreases_to!(self->Array_0 => self->Array_0[i as int]));
                    }
                    if !items[i].is_well_formed() {
                        proof {
                            lemma_array_view(*items);
                            lemma_array_well_formed(items.deep_view());
                            assert(!items.deep_view()[i as int].well_formed());
                        }
                        return false;
                    }
                    i += 1;
                }
                true
            },
            JsonValue::Object(members) => {
                proof {
                    lemma_object_view(*members);
                    lemma_object_well_formed(members.deep_view());
                    assert(decreases_to!(*self => self->Object_0));
                }
                are_members_well_formed(members)
            },
            _ => true,
        }
    }
}

} // verus!
