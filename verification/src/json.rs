//! JSON documents as plain data: the tree that manifests are read from and
//! written to, lookups in it, and the passage between the tree and its text.

use crate::error::{SchemaError, SchemaErrorView};
use crate::utils::str_eq;
use vstd::prelude::*;

verus! {

#[verifier::external_type_specification]
#[verifier::external_body]
pub struct ExNumber(serde_json::Number);

#[verifier::external_type_specification]
#[verifier::external_body]
pub struct ExValue(serde_json::Value);

#[verifier::external_type_specification]
#[verifier::external_body]
pub struct ExJsonError(serde_json::Error);

#[verifier::external_type_specification]
#[verifier::external_body]
#[verifier::reject_recursive_types(K)]
#[verifier::reject_recursive_types(V)]
pub struct ExMap<K, V>(serde_json::Map<K, V>);

/// The collection that custom data is kept in: serde_json's map from keys
/// to documents.
pub type JsonMap = serde_json::Map<String, serde_json::Value>;

/// What a `serde_json::Map` holds: the mapping from each of its keys to the
/// document that stands under it, a `serde_json::Value` taken variant for
/// variant as a [`JsonView`].
pub uninterp spec fn map_members(
    map: serde_json::Map<String, serde_json::Value>,
) -> Map<Seq<char>, JsonView>;

/// What `Clone::clone` of a `serde_json::Map` returns: a map that holds the
/// same.
pub assume_specification[ <serde_json::Map<String, serde_json::Value> as Clone>::clone ](
    map: &serde_json::Map<String, serde_json::Value>,
) -> (r: serde_json::Map<String, serde_json::Value>)
    ensures
        map_members(r) == map_members(*map),
;

/// What `Clone::clone` of a `serde_json::Number` returns: the same number.
pub assume_specification[ <serde_json::Number as Clone>::clone ](
    n: &serde_json::Number,
) -> (r: serde_json::Number)
    ensures
        r == *n,
;

/// A JSON document. An object keeps its members in a list; what it means
/// is a mapping, in which the later member counts where a key occurs twice.
#[derive(Debug, PartialEq, Eq)]
pub enum JsonValue {
    Null,
    Bool(bool),
    Number(serde_json::Number),
    String(String),
    Array(Vec<JsonValue>),
    Object(Vec<Member>),
}

/// A member of a JSON object: a key and what it stands for.
#[derive(Debug, Clone, PartialEq, Eq)]
pub struct Member {
    pub key: String,
    pub value: JsonValue,
}

/// The mathematical content of a [`JsonValue`]. An object is a mapping from
/// keys to documents: the order of its members is no part of it.
pub enum JsonView {
    Null,
    Bool(bool),
    Number(serde_json::Number),
    String(Seq<char>),
    Array(Seq<JsonView>),
    Object(Map<Seq<char>, JsonView>),
}

/// Index of the last member that carries the key, or -1 where none does.
pub open spec fn spec_last_index(members: Seq<Member>, key: Seq<char>) -> int
    decreases members.len(),
{
    if members.len() == 0 {
        -1
    } else if members.last().key@ == key {
        members.len() - 1
    } else {
        spec_last_index(members.drop_last(), key)
    }
}

impl View for JsonValue {
    type V = JsonView;

    open spec fn view(&self) -> JsonView
        decreases self,
    {
        match self {
            JsonValue::Null => JsonView::Null,
            JsonValue::Bool(b) => JsonView::Bool(*b),
            JsonValue::Number(n) => JsonView::Number(*n),
            JsonValue::String(s) => JsonView::String(s@),
            JsonValue::Array(items) => JsonView::Array(
                Seq::new(
                    items@.len(),
                    |i: int|
                        if 0 <= i < items@.len() {
                            items@[i].view()
                        } else {
                            JsonView::Null
                        },
                ),
            ),
            JsonValue::Object(members) => JsonView::Object(
                Map::new(
                    |key: Seq<char>| spec_last_index(members@, key) >= 0,
                    |key: Seq<char>|
                        {
                            let i = spec_last_index(members@, key);
                            if 0 <= i < members@.len() {
                                members@[i].value.view()
                            } else {
                                JsonView::Null
                            }
                        },
                ),
            ),
        }
    }
}

/// The content of a list of documents.
pub open spec fn items_view(items: Seq<JsonValue>) -> Seq<JsonView> {
    Seq::new(items.len(), |i: int| items[i]@)
}

/// The content of a list of members: the mapping that they spell out.
pub open spec fn members_view(members: Seq<Member>) -> Map<Seq<char>, JsonView> {
    Map::new(
        |key: Seq<char>| spec_last_index(members, key) >= 0,
        |key: Seq<char>| members[spec_last_index(members, key)].value@,
    )
}

/// The content of an optional string.
pub open spec fn text_view(text: Option<String>) -> Option<Seq<char>> {
    match text {
        Some(s) => Some(s@),
        None => None,
    }
}

/// The mapping holds nothing.
pub open spec fn spec_is_empty(members: Map<Seq<char>, JsonView>) -> bool {
    members =~= Map::<Seq<char>, JsonView>::empty()
}

/// What a key stands for in a mapping, if anything.
pub open spec fn spec_get(members: Map<Seq<char>, JsonView>, key: Seq<char>) -> Option<JsonView> {
    if members.contains_key(key) {
        Some(members[key])
    } else {
        None
    }
}

/// The index of the last member with a key lies within the list, and the
/// member there carries the key.
pub proof fn lemma_last_index_range(members: Seq<Member>, key: Seq<char>)
    ensures
        -1 <= spec_last_index(members, key) < members.len(),
        spec_last_index(members, key) >= 0 ==> members[spec_last_index(members, key)].key@ == key,
    decreases members.len(),
{
    if members.len() > 0 && members.last().key@ != key {
        lemma_last_index_range(members.drop_last(), key);
    }
}

/// An array's content is the content of its items.
pub proof fn lemma_array_view(items: Vec<JsonValue>)
    ensures
        JsonValue::Array(items)@ == JsonView::Array(items_view(items@)),
{
    assert(JsonValue::Array(items)@->Array_0 =~= items_view(items@));
}

/// An object's content is the mapping that its members spell out.
pub proof fn lemma_object_view(members: Vec<Member>)
    ensures
        JsonValue::Object(members)@ == JsonView::Object(members_view(members@)),
{
    assert forall|key: Seq<char>| spec_last_index(members@, key) >= 0 implies 0
        <= spec_last_index(members@, key) < members@.len() by {
        lemma_last_index_range(members@, key);
    }
    assert(JsonValue::Object(members)@->Object_0 =~= members_view(members@));
}

/// No members spell out the empty mapping.
pub proof fn lemma_members_empty(members: Seq<Member>)
    requires
        members.len() == 0,
    ensures
        members_view(members) == Map::<Seq<char>, JsonView>::empty(),
{
    assert(members_view(members) =~= Map::<Seq<char>, JsonView>::empty());
}

/// One member more puts its key into the mapping, over what the key stood
/// for before.
pub proof fn lemma_members_push(members: Seq<Member>, m: Member)
    ensures
        members_view(members.push(m)) == members_view(members).insert(m.key@, m.value@),
{
    let after = members.push(m);
    assert(after.drop_last() =~= members);
    assert forall|key: Seq<char>| members_view(after).contains_key(key) implies members_view(
        after,
    )[key] == members_view(members).insert(m.key@, m.value@)[key] by {
        lemma_last_index_range(members, key);
    }
    assert(members_view(after) =~= members_view(members).insert(m.key@, m.value@));
}

/// In lists whose keys agree one by one, a key is found at the same place.
pub proof fn lemma_last_index_agrees(a: Seq<Member>, b: Seq<Member>, key: Seq<char>)
    requires
        a.len() == b.len(),
        forall|i: int| 0 <= i < a.len() ==> a[i].key@ == b[i].key@,
    ensures
        spec_last_index(a, key) == spec_last_index(b, key),
    decreases a.len(),
{
    if a.len() > 0 {
        assert(a.last().key@ == b.last().key@);
        if a.last().key@ != key {
            lemma_last_index_agrees(a.drop_last(), b.drop_last(), key);
        }
    }
}

/// Members that agree one by one, in key and in content, spell out the same
/// mapping.
pub proof fn lemma_members_agree(a: Seq<Member>, b: Seq<Member>)
    requires
        a.len() == b.len(),
        forall|i: int| 0 <= i < a.len() ==> a[i].key@ == b[i].key@ && a[i].value@ == b[i].value@,
    ensures
        members_view(a) == members_view(b),
{
    assert forall|key: Seq<char>|
        members_view(a).contains_key(key) == members_view(b).contains_key(key) by {
        lemma_last_index_agrees(a, b, key);
    }
    assert forall|key: Seq<char>| members_view(a).contains_key(key) implies members_view(a)[key]
        == members_view(b)[key] by {
        lemma_last_index_agrees(a, b, key);
        lemma_last_index_range(a, key);
    }
    assert(members_view(a) =~= members_view(b));
}

/// What `serde_json::from_slice` makes of a text: the document it denotes,
/// or nothing where the text is no JSON.
pub uninterp spec fn json_parsed(text: Seq<u8>) -> Option<JsonView>;

/// What `serde_json::to_vec` prints for a document, or nothing where it
/// gives up.
pub uninterp spec fn json_text(value: JsonView) -> Option<Seq<u8>>;

/// Rebuilds a `serde_json::Value` as a [`JsonValue`], variant by variant.
/// Nothing is stated of the result here; [`parse`] names it.
#[verifier::external_body]
fn from_serde(value: serde_json::Value) -> (r: JsonValue) {
    match value {
        serde_json::Value::Null => JsonValue::Null,
        serde_json::Value::Bool(b) => JsonValue::Bool(b),
        serde_json::Value::Number(n) => JsonValue::Number(n),
        serde_json::Value::String(s) => JsonValue::String(s),
        serde_json::Value::Array(items) => JsonValue::Array(
            items.into_iter().map(from_serde).collect(),
        ),
        serde_json::Value::Object(map) => JsonValue::Object(
            map.into_iter().map(|(key, v)| Member { key, value: from_serde(v) }).collect(),
        ),
    }
}

/// Rebuilds a [`JsonValue`] as a `serde_json::Value`, variant by variant.
/// The members of an object go into the `serde_json::Map` one by one, in
/// order, with `Map::insert`, which gives a key that is present its new
/// value: the later member counts. Nothing is stated of the result here;
/// [`print`] names what is printed.
#[verifier::external_body]
fn to_serde(value: &JsonValue) -> (r: serde_json::Value) {
    match value {
        JsonValue::Null => serde_json::Value::Null,
        JsonValue::Bool(b) => serde_json::Value::Bool(*b),
        JsonValue::Number(n) => serde_json::Value::Number(n.clone()),
        JsonValue::String(s) => serde_json::Value::String(s.clone()),
        JsonValue::Array(items) => serde_json::Value::Array(items.iter().map(to_serde).collect()),
        JsonValue::Object(members) => {
            let mut map = serde_json::Map::new();
            for m in members.iter() {
                map.insert(m.key.clone(), to_serde(&m.value));
            }
            serde_json::Value::Object(map)
        },
    }
}

/// Calls `Map::new`: a map that holds nothing.
#[verifier::external_body]
pub(crate) fn new_map() -> (r: JsonMap)
    ensures
        spec_is_empty(map_members(r)),
{
    serde_json::Map::new()
}

/// Calls `Map::is_empty`: whether the map holds nothing.
#[verifier::external_body]
pub(crate) fn map_is_empty(map: &JsonMap) -> (r: bool)
    ensures
        r == spec_is_empty(map_members(*map)),
{
    map.is_empty()
}

/// Calls `Map::insert` with the document as a `serde_json::Value`, variant
/// for variant. The key stands for the document afterwards, whether or not
/// it was present; the other keys stand for what they stood for.
#[verifier::external_body]
pub(crate) fn map_insert(map: &mut JsonMap, key: String, value: &JsonValue)
    ensures
        map_members(*final(map)) == map_members(*old(map)).insert(key@, value@),
{
    map.insert(key, to_serde(value));
}

/// Walks the map with `Map::iter` and hands each key out with its document
/// as a [`JsonValue`], variant for variant. The map has each key once, so
/// the members spell out what the map holds.
#[verifier::external_body]
pub(crate) fn map_to_members(map: &JsonMap) -> (r: Vec<Member>)
    ensures
        members_view(r@) == map_members(*map),
{
    map.iter().map(|(key, v)| Member { key: key.clone(), value: from_serde(v.clone()) }).collect()
}

/// Calls `serde_json::from_slice` for a `serde_json::Value` and hands the
/// document over as a [`JsonValue`]. The contract gives the outcome its name,
/// [`json_parsed`], and claims no more than that the same text always has
/// the same outcome.
#[verifier::external_body]
pub(crate) fn parse(text: &[u8]) -> (r: Result<JsonValue, serde_json::Error>)
    ensures
        r matches Ok(value) ==> json_parsed(text@) == Some(value@),
        r is Err ==> json_parsed(text@) is None,
{
    match serde_json::from_slice::<serde_json::Value>(text) {
        Ok(value) => Ok(from_serde(value)),
        Err(error) => Err(error),
    }
}

/// Calls `serde_json::to_vec` on the document as a `serde_json::Value`. The
/// contract gives the outcome its name, [`json_text`], and claims no more
/// than that documents of the same content always have the same outcome.
#[verifier::external_body]
pub(crate) fn print(value: &JsonValue) -> (r: Result<Vec<u8>, serde_json::Error>)
    ensures
        r matches Ok(text) ==> json_text(value@) == Some(text@),
        r is Err ==> json_text(value@) is None,
{
    serde_json::to_vec(&to_serde(value))
}

/// Looks a key up among the members of an object.
pub fn get<'a>(members: &'a Vec<Member>, key: &str) -> (r: Option<&'a JsonValue>)
    ensures
        match r {
            Some(value) => spec_get(members_view(members@), key@) == Some(value@),
            None => spec_get(members_view(members@), key@) is None,
        },
{
    let mut i: usize = members.len();
    assert(members@.subrange(0, i as int) =~= members@);
    while i > 0
        invariant
            i <= members@.len(),
            spec_last_index(members@, key@) == spec_last_index(
                members@.subrange(0, i as int),
                key@,
            ),
        decreases i,
    {
        i -= 1;
        assert(members@.subrange(0, i + 1).drop_last() =~= members@.subrange(0, i as int));
        if str_eq(members[i].key.as_str(), key) {
            return Some(&members[i].value);
        }
    }
    None
}

/// Appends a member under a fixed key.
pub fn put(members: &mut Vec<Member>, key: &'static str, value: JsonValue)
    ensures
        members_view(final(members)@) == members_view(old(members)@).insert(key@, value@),
        final(members)@.len() == old(members)@.len() + 1,
{
    let m = Member { key: key.to_owned(), value };
    proof {
        lemma_members_push(members@, m);
    }
    members.push(m);
}

/// The string that a member holds, where the member may be absent or null.
pub open spec fn spec_optional_string(members: Map<Seq<char>, JsonView>, key: Seq<char>) -> Result<
    Option<Seq<char>>,
    SchemaErrorView,
> {
    match spec_get(members, key) {
        None => Ok(None),
        Some(JsonView::Null) => Ok(None),
        Some(JsonView::String(text)) => Ok(Some(text)),
        Some(_) => Err(SchemaErrorView::InvalidField { field: key }),
    }
}

/// The string that a member holds, where the member must be present.
pub open spec fn spec_required_string(members: Map<Seq<char>, JsonView>, key: Seq<char>) -> Result<
    Seq<char>,
    SchemaErrorView,
> {
    match spec_get(members, key) {
        None => Err(SchemaErrorView::MissingField { field: key }),
        Some(JsonView::String(text)) => Ok(text),
        Some(_) => Err(SchemaErrorView::InvalidField { field: key }),
    }
}

/// The mapping of the object that a member holds, empty where the member is
/// absent.
pub open spec fn spec_optional_object(members: Map<Seq<char>, JsonView>, key: Seq<char>) -> Result<
    Map<Seq<char>, JsonView>,
    SchemaErrorView,
> {
    match spec_get(members, key) {
        None => Ok(Map::empty()),
        Some(JsonView::Object(inner)) => Ok(inner),
        Some(_) => Err(SchemaErrorView::InvalidField { field: key }),
    }
}

/// A string as a document, null where there is none.
pub open spec fn spec_text_json(text: Option<Seq<char>>) -> JsonView {
    match text {
        Some(s) => JsonView::String(s),
        None => JsonView::Null,
    }
}

/// Reads a string from a member that may be absent or null.
pub fn optional_string(members: &Vec<Member>, key: &'static str) -> (r: Result<
    Option<String>,
    SchemaError,
>)
    ensures
        match r {
            Ok(text) => spec_optional_string(members_view(members@), key@) == Ok::<
                Option<Seq<char>>,
                SchemaErrorView,
            >(text_view(text)),
            Err(error) => spec_optional_string(members_view(members@), key@) == Err::<
                Option<Seq<char>>,
                SchemaErrorView,
            >(error@),
        },
{
    match get(members, key) {
        None => Ok(None),
        Some(JsonValue::Null) => Ok(None),
        Some(JsonValue::String(text)) => Ok(Some(text.clone())),
        Some(_) => Err(SchemaError::InvalidField { field: key }),
    }
}

/// Reads a string from a member that must be present.
pub fn required_string(members: &Vec<Member>, key: &'static str) -> (r: Result<
    String,
    SchemaError,
>)
    ensures
        match r {
            Ok(text) => spec_required_string(members_view(members@), key@) == Ok::<
                Seq<char>,
                SchemaErrorView,
            >(text@),
            Err(error) => spec_required_string(members_view(members@), key@) == Err::<
                Seq<char>,
                SchemaErrorView,
            >(error@),
        },
{
    match get(members, key) {
        None => Err(SchemaError::MissingField { field: key }),
        Some(JsonValue::String(text)) => Ok(text.clone()),
        Some(_) => Err(SchemaError::InvalidField { field: key }),
    }
}

/// Reads the members of an object from a member that may be absent.
pub fn optional_object(members: &Vec<Member>, key: &'static str) -> (r: Result<
    Vec<Member>,
    SchemaError,
>)
    ensures
        match r {
            Ok(inner) => spec_optional_object(members_view(members@), key@) == Ok::<
                Map<Seq<char>, JsonView>,
                SchemaErrorView,
            >(members_view(inner@)),
            Err(error) => spec_optional_object(members_view(members@), key@) == Err::<
                Map<Seq<char>, JsonView>,
                SchemaErrorView,
            >(error@),
        },
{
    match get(members, key) {
        None => {
            let inner: Vec<Member> = Vec::new();
            proof {
                lemma_members_empty(inner@);
            }
            Ok(inner)
        },
        Some(JsonValue::Object(inner)) => {
            proof {
                lemma_object_view(*inner);
            }
            Ok(duplicate_members(inner))
        },
        Some(_) => Err(SchemaError::InvalidField { field: key }),
    }
}

/// A string as a document, null where there is none.
pub fn text_json(text: &Option<String>) -> (r: JsonValue)
    ensures
        r@ == spec_text_json(text_view(*text)),
{
    match text {
        Some(s) => JsonValue::String(s.clone()),
        None => JsonValue::Null,
    }
}

impl JsonValue {
    /// A copy of the document.
    pub fn duplicate(&self) -> (r: JsonValue)
        ensures
            r@ == self@,
        decreases self,
    {
        match self {
            JsonValue::Null => JsonValue::Null,
            JsonValue::Bool(b) => JsonValue::Bool(*b),
            JsonValue::Number(n) => JsonValue::Number(n.clone()),
            JsonValue::String(s) => JsonValue::String(s.clone()),
            JsonValue::Array(items) => {
                let mut out: Vec<JsonValue> = Vec::new();
                let mut i: usize = 0;
                while i < items.len()
                    invariant
                        i <= items@.len(),
                        out@.len() == i,
                        forall|j: int| 0 <= j < i ==> out@[j]@ == items@[j]@,
                        decreases_to!(*self => *items),
                    decreases items@.len() - i,
                {
                    proof {
                        vstd::std_specs::vec::axiom_vec_index_decreases(*items, i as int);
                    }
                    let item = items[i].duplicate();
                    out.push(item);
                    i += 1;
                }
                proof {
                    lemma_array_view(out);
                    lemma_array_view(*items);
                    assert(items_view(out@) =~= items_view(items@));
                }
                JsonValue::Array(out)
            },
            JsonValue::Object(members) => {
                let mut out: Vec<Member> = Vec::new();
                let mut i: usize = 0;
                while i < members.len()
                    invariant
                        i <= members@.len(),
                        out@.len() == i,
                        forall|j: int|
                            0 <= j < i ==> out@[j].key@ == members@[j].key@ && out@[j].value@
                                == members@[j].value@,
                        decreases_to!(*self => *members),
                    decreases members@.len() - i,
                {
                    proof {
                        vstd::std_specs::vec::axiom_vec_index_decreases(*members, i as int);
                    }
                    let value = members[i].value.duplicate();
                    out.push(Member { key: members[i].key.clone(), value });
                    i += 1;
                }
                proof {
                    lemma_object_view(out);
                    lemma_object_view(*members);
                    lemma_members_agree(out@, members@);
                }
                JsonValue::Object(out)
            },
        }
    }
}

impl Member {
    /// A copy of the member.
    pub fn duplicate(&self) -> (r: Member)
        ensures
            r.key@ == self.key@,
            r.value@ == self.value@,
    {
        Member { key: self.key.clone(), value: self.value.duplicate() }
    }
}

impl Clone for JsonValue {
    fn clone(&self) -> (r: Self)
        ensures
            r@ == self@,
    {
        self.duplicate()
    }
}

/// The map that a list of members spells out.
pub fn members_to_map(members: &Vec<Member>) -> (r: JsonMap)
    ensures
        map_members(r) == members_view(members@),
{
    let mut map = new_map();
    let mut i: usize = 0;
    proof {
        lemma_members_empty(members@.subrange(0, 0));
    }
    while i < members.len()
        invariant
            i <= members@.len(),
            map_members(map) == members_view(members@.subrange(0, i as int)),
        decreases members@.len() - i,
    {
        proof {
            assert(members@.subrange(0, i + 1) =~= members@.subrange(0, i as int).push(
                members@[i as int],
            ));
            lemma_members_push(members@.subrange(0, i as int), members@[i as int]);
        }
        map_insert(&mut map, members[i].key.clone(), &members[i].value);
        i += 1;
    }
    assert(members@.subrange(0, i as int) =~= members@);
    map
}

/// A copy of a list of members.
pub fn duplicate_members(members: &Vec<Member>) -> (r: Vec<Member>)
    ensures
        members_view(r@) == members_view(members@),
        r@.len() == members@.len(),
{
    let mut out: Vec<Member> = Vec::new();
    let mut i: usize = 0;
    while i < members.len()
        invariant
            i <= members@.len(),
            out@.len() == i,
            forall|j: int|
                0 <= j < i ==> out@[j].key@ == members@[j].key@ && out@[j].value@
                    == members@[j].value@,
        decreases members@.len() - i,
    {
        let copy = members[i].duplicate();
        out.push(copy);
        i += 1;
    }
    proof {
        lemma_members_agree(out@, members@);
    }
    out
}

} // verus!
