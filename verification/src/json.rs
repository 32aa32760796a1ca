//! JSON values as the gateway holds them.

use vstd::prelude::*;

use crate::text::same;

verus! {

#[verifier::external_type_specification]
#[verifier::external_body]
pub struct ExNumber(serde_json::Number);

#[verifier::external_type_specification]
#[verifier::external_body]
pub struct ExValue(serde_json::Value);

/// Cloning a `serde_json::Number` gives the same number.
pub assume_specification[ <serde_json::Number as Clone>::clone ](n: &serde_json::Number) -> (r:
    serde_json::Number)
    ensures
        r == *n,
;

/// One `"key": value` entry of an object.
#[derive(Debug, PartialEq)]
pub struct Member {
    pub key: String,
    pub value: Json,
}

/// A JSON value. An object keeps its entries in the order they were written.
///
/// Nothing keeps an object from holding a key twice, but a value that came
/// from JSON text never does. Such values are the well-formed ones (see
/// [`JsonValue::well_formed`], [`Json::is_well_formed`]); what the library
/// builds from well-formed values is well-formed. On any other value, `get`
/// reads the first entry under a key, while the JSON text keeps the last.
#[derive(Debug, PartialEq)]
pub enum Json {
    Null,
    Bool(bool),
    Number(serde_json::Number),
    String(String),
    Array(Vec<Json>),
    Object(Vec<Member>),
}

/// The mathematical value of a [`Json`].
pub enum JsonValue {
    Null,
    Bool(bool),
    Number(serde_json::Number),
    String(Seq<char>),
    Array(Seq<JsonValue>),
    Object(Seq<(Seq<char>, JsonValue)>),
}

impl View for Member {
    type V = (Seq<char>, JsonValue);

    open spec fn view(&self) -> (Seq<char>, JsonValue)
        decreases self,
    {
        (self.key@, self.value@)
    }
}

/// The values of a list of items, in order.
pub open spec fn values(items: Seq<Json>) -> Seq<JsonValue>
    decreases items,
{
    Seq::new(
        items.len(),
        |i: int|
            if 0 <= i < items.len() {
                items[i]@
            } else {
                JsonValue::Null
            },
    )
}

/// The entries of a list of members, in order.
pub open spec fn entries(members: Seq<Member>) -> Seq<(Seq<char>, JsonValue)>
    decreases members,
{
    Seq::new(
        members.len(),
        |i: int|
            if 0 <= i < members.len() {
                members[i]@
            } else {
                (Seq::empty(), JsonValue::Null)
            },
    )
}

impl View for Json {
    type V = JsonValue;

    open spec fn view(&self) -> JsonValue
        decreases self,
    {
        match self {
            Json::Null => JsonValue::Null,
            Json::Bool(b) => JsonValue::Bool(*b),
            Json::Number(n) => JsonValue::Number(*n),
            Json::String(s) => JsonValue::String(s@),
            Json::Array(items) => JsonValue::Array(values(items@)),
            Json::Object(members) => JsonValue::Object(entries(members@)),
        }
    }
}

/// The text that `serde_json::to_string` writes for the `serde_json::Value`
/// that holds the same JSON value: compact, an object's entries sorted by
/// key, the later of two entries under one key standing for both.
pub uninterp spec fn json_text(value: JsonValue) -> Seq<char>;

/// The `serde_json::Value` that holds the same JSON value. An object is
/// collected entry by entry, so a later entry under a key replaces an
/// earlier one.
#[verifier::external_body]
fn to_value(json: &Json) -> serde_json::Value {
    match json {
        Json::Null => serde_json::Value::Null,
        Json::Bool(b) => serde_json::Value::Bool(*b),
        Json::Number(n) => serde_json::Value::Number(n.clone()),
        Json::String(s) => serde_json::Value::String(s.clone()),
        Json::Array(items) => serde_json::Value::Array(items.iter().map(to_value).collect()),
        Json::Object(members) => serde_json::Value::Object(
            members.iter().map(|m| (m.key.clone(), to_value(&m.value))).collect(),
        ),
    }
}

/// The JSON text of the value, written by `serde_json::to_string`. Writing
/// a `serde_json::Value` does not fail; the empty text stands for a
/// failure.
#[verifier::external_body]
pub(crate) fn write_json(json: &Json) -> (r: String)
    ensures
        r@ == json_text(json@),
{
    serde_json::to_string(&to_value(json)).unwrap_or_default()
}

/// The position of the first entry under `key`, or the number of entries if
/// there is none.
pub open spec fn index_of(members: Seq<(Seq<char>, JsonValue)>, key: Seq<char>) -> int
    decreases members.len(),
{
    if members.len() == 0 || members[0].0 == key {
        0
    } else {
        1 + index_of(members.drop_first(), key)
    }
}

/// The value of the first entry under `key`.
pub open spec fn lookup(members: Seq<(Seq<char>, JsonValue)>, key: Seq<char>) -> Option<JsonValue> {
    let i = index_of(members, key);
    if 0 <= i < members.len() {
        Some(members[i].1)
    } else {
        None
    }
}

/// `index_of` is the least position that holds `key`.
pub proof fn lemma_index_of(members: Seq<(Seq<char>, JsonValue)>, key: Seq<char>)
    ensures
        0 <= index_of(members, key) <= members.len(),
        index_of(members, key) < members.len() ==> members[index_of(members, key)].0 == key,
        forall|i: int| 0 <= i < index_of(members, key) ==> (#[trigger] members[i]).0 != key,
    decreases members.len(),
{
    if members.len() == 0 || members[0].0 == key {
    } else {
        let rest = members.drop_first();
        lemma_index_of(rest, key);
        assert forall|i: int| 0 <= i < index_of(members, key) implies (#[trigger] members[i]).0
            != key by {
            if i > 0 {
                assert(members[i] == rest[i - 1]);
            }
        }
    }
}

/// An entry under `key` with no such entry before it is the one `lookup` finds.
pub proof fn lemma_lookup_found(members: Seq<(Seq<char>, JsonValue)>, key: Seq<char>, at: int)
    requires
        0 <= at < members.len(),
        members[at].0 == key,
        forall|i: int| 0 <= i < at ==> (#[trigger] members[i]).0 != key,
    ensures
        index_of(members, key) == at,
        lookup(members, key) == Some(members[at].1),
{
    lemma_index_of(members, key);
    let found = index_of(members, key);
    if found < at {
        assert(members[found].0 == key);
    }
    if at < found {
        assert(members[at].0 == key);
    }
}

/// Where no entry is under `key`, `lookup` finds none.
pub proof fn lemma_lookup_absent(members: Seq<(Seq<char>, JsonValue)>, key: Seq<char>)
    requires
        forall|i: int| 0 <= i < members.len() ==> (#[trigger] members[i]).0 != key,
    ensures
        index_of(members, key) == members.len(),
        lookup(members, key) is None,
{
    lemma_index_of(members, key);
    let found = index_of(members, key);
    if found < members.len() {
        assert(members[found].0 == key);
    }
}

/// Whether no two of the entries have the same key.
pub open spec fn distinct_keys(entries: Seq<(Seq<char>, JsonValue)>) -> bool {
    forall|i: int, j: int|
        0 <= i < j < entries.len() ==> (#[trigger] entries[i]).0 != (#[trigger] entries[j]).0
}

impl JsonValue {
    /// Whether every object in the value, at any depth, has distinct keys.
    /// `serde_json` holds no other values: on these, the first entry under
    /// a key is the only one, so that what `get` finds and what the JSON
    /// text holds under the key are the same.
    pub open spec fn well_formed(self) -> bool
        decreases self,
    {
        match self {
            JsonValue::Array(items) => forall|i: int|
                0 <= i < items.len() ==> (#[trigger] items[i]).well_formed(),
            JsonValue::Object(entries) => distinct_keys(entries) && forall|i: int|
                0 <= i < entries.len() ==> (#[trigger] entries[i]).1.well_formed(),
            _ => true,
        }
    }
}

/// An array is well-formed exactly where each of its items is.
pub proof fn lemma_array_well_formed(items: Seq<JsonValue>)
    ensures
        JsonValue::Array(items).well_formed() <==> forall|i: int|
            0 <= i < items.len() ==> (#[trigger] items[i]).well_formed(),
{
    let whole = JsonValue::Array(items);
    assert(whole->Array_0 == items);
    if whole.well_formed() {
        assert forall|i: int| 0 <= i < items.len() implies (#[trigger] items[i]).well_formed() by {
            assert(whole->Array_0[i].well_formed());
        }
    }
}

/// Among entries with distinct keys, an entry under `key` is the one that
/// `lookup` finds: there is no other.
pub proof fn lemma_lookup_unique(members: Seq<(Seq<char>, JsonValue)>, key: Seq<char>, at: int)
    requires
        distinct_keys(members),
        0 <= at < members.len(),
        members[at].0 == key,
    ensures
        lookup(members, key) == Some(members[at].1),
{
    assert forall|i: int| 0 <= i < at implies (#[trigger] members[i]).0 != key by {
        assert(members[i].0 != members[at].0);
    }
    lemma_lookup_found(members, key, at);
}

/// What `lookup` finds in a well-formed object is well-formed.
pub proof fn lemma_lookup_well_formed(members: Seq<(Seq<char>, JsonValue)>, key: Seq<char>)
    requires
        JsonValue::Object(members).well_formed(),
    ensures
        lookup(members, key) matches Some(found) ==> found.well_formed(),
{
    lemma_index_of(members, key);
    let at = index_of(members, key);
    if at < members.len() {
        assert(members[at].1.well_formed());
    }
}

/// Whether no two of the members have the same key.
pub fn keys_distinct(members: &Vec<Member>) -> (r: bool)
    ensures
        r == distinct_keys(entries(members@)),
{
    let ghost all = entries(members@);
    let mut j: usize = 0;
    while j < members.len()
        invariant
            j <= members.len(),
            all == entries(members@),
            forall|a: int, b: int| 0 <= a < b < j ==> (#[trigger] all[a]).0 != (#[trigger] all[b]).0,
        decreases members.len() - j,
    {
        let mut i: usize = 0;
        while i < j
            invariant
                i <= j < members.len(),
                all == entries(members@),
                forall|a: int| 0 <= a < i ==> (#[trigger] all[a]).0 != all[j as int].0,
            decreases j - i,
        {
            if same(members[i].key.as_str(), members[j].key.as_str()) {
                assert(all[i as int].0 == all[j as int].0);
                return false;
            }
            i += 1;
        }
        j += 1;
    }
    true
}

/// Whether each of the items is well-formed.
fn items_well_formed(items: &Vec<Json>) -> (r: bool)
    ensures
        r == (forall|k: int| 0 <= k < items.len() ==> (#[trigger] values(items@)[k]).well_formed()),
    decreases items,
{
    let mut i: usize = 0;
    while i < items.len()
        invariant
            i <= items.len(),
            forall|k: int| 0 <= k < i ==> (#[trigger] values(items@)[k]).well_formed(),
        decreases items.len() - i,
    {
        assert(values(items@)[i as int] == items[i as int]@);
        if !items[i].is_well_formed() {
            return false;
        }
        i += 1;
    }
    true
}

/// Whether the value of each member is well-formed.
fn member_values_well_formed(members: &Vec<Member>) -> (r: bool)
    ensures
        r == (forall|k: int|
            0 <= k < members.len() ==> (#[trigger] entries(members@)[k]).1.well_formed()),
    decreases members,
{
    let mut i: usize = 0;
    while i < members.len()
        invariant
            i <= members.len(),
            forall|k: int| 0 <= k < i ==> (#[trigger] entries(members@)[k]).1.well_formed(),
        decreases members.len() - i,
    {
        assert(entries(members@)[i as int].1 == members[i as int].value@);
        if !members[i].value.is_well_formed() {
            return false;
        }
        i += 1;
    }
    true
}

impl Json {
    /// Whether every object in the value, at any depth, has distinct keys.
    pub fn is_well_formed(&self) -> (r: bool)
        ensures
            r == self@.well_formed(),
        decreases self,
    {
        match self {
            Json::Array(items) => {
                let r = items_well_formed(items);
                proof {
                    let all = values(items@);
                    assert(self@ == JsonValue::Array(all));
                    assert(all.len() == items.len());
                    lemma_array_well_formed(all);
                }
                r
            },
            Json::Object(members) => keys_distinct(members) && member_values_well_formed(members),
            _ => true,
        }
    }
}

impl Clone for Member {
    fn clone(&self) -> (r: Self)
        ensures
            r@ == self@,
        decreases self,
    {
        Member { key: self.key.clone(), value: self.value.clone() }
    }
}

impl Clone for Json {
    fn clone(&self) -> (r: Self)
        ensures
            r@ == self@,
        decreases self,
    {
        match self {
            Json::Null => Json::Null,
            Json::Bool(b) => Json::Bool(*b),
            Json::Number(n) => Json::Number(n.clone()),
            Json::String(s) => Json::String(s.clone()),
            Json::Array(items) => Json::Array(clone_items(items)),
            Json::Object(members) => Json::Object(clone_members(members)),
        }
    }
}

/// A copy of each item, in order.
pub fn clone_items(items: &Vec<Json>) -> (r: Vec<Json>)
    ensures
        values(r@) == values(items@),
    decreases items,
{
    let mut out: Vec<Json> = Vec::new();
    let mut i: usize = 0;
    while i < items.len()
        invariant
            i <= items.len(),
            out.len() == i,
            forall|k: int| 0 <= k < i ==> (#[trigger] out[k])@ == items[k]@,
        decreases items.len() - i,
    {
        out.push(items[i].clone());
        i += 1;
    }
    assert(values(out@) =~= values(items@));
    out
}

/// A copy of each member, in order.
pub fn clone_members(members: &Vec<Member>) -> (r: Vec<Member>)
    ensures
        entries(r@) == entries(members@),
    decreases members,
{
    let mut out: Vec<Member> = Vec::new();
    let mut i: usize = 0;
    while i < members.len()
        invariant
            i <= members.len(),
            out.len() == i,
            forall|k: int| 0 <= k < i ==> (#[trigger] out[k])@ == members[k]@,
        decreases members.len() - i,
    {
        out.push(members[i].clone());
        i += 1;
    }
    assert(entries(out@) =~= entries(members@));
    out
}

impl Member {
    /// The entry `key: value`.
    pub fn new(key: &str, value: Json) -> (r: Member)
        ensures
            r@ == (key@, value@),
    {
        Member { key: key.to_owned(), value }
    }
}

impl Json {
    /// The JSON string that holds `text`.
    pub fn text(text: &str) -> (r: Json)
        ensures
            r@ == JsonValue::String(text@),
    {
        Json::String(text.to_owned())
    }

    /// Whether `self` is the JSON string that holds `text`.
    pub fn is_text(&self, text: &str) -> (r: bool)
        ensures
            r == (self@ == JsonValue::String(text@)),
    {
        match self {
            Json::String(s) => same(s.as_str(), text),
            _ => false,
        }
    }

    /// The value under `key` when `self` is an object that has one.
    pub fn get(&self, key: &str) -> (r: Option<&Json>)
        ensures
            r is Some <==> self@ is Object && lookup(self@->Object_0, key@) is Some,
            r matches Some(v) ==> lookup(self@->Object_0, key@) == Some(v@),
    {
        match self {
            Json::Object(members) => find(members, key),
            _ => None,
        }
    }
}

/// The value of the first of `members` under `key`.
pub fn find<'a>(members: &'a Vec<Member>, key: &str) -> (r: Option<&'a Json>)
    ensures
        r is Some <==> lookup(entries(members@), key@) is Some,
        r matches Some(v) ==> lookup(entries(members@), key@) == Some(v@),
{
    let mut i: usize = 0;
    while i < members.len()
        invariant
            i <= members.len(),
            forall|k: int| 0 <= k < i ==> (#[trigger] entries(members@)[k]).0 != key@,
        decreases members.len() - i,
    {
        if same(members[i].key.as_str(), key) {
            proof {
                lemma_lookup_found(entries(members@), key@, i as int);
            }
            return Some(&members[i].value);
        }
        i += 1;
    }
    proof {
        lemma_lookup_absent(entries(members@), key@);
    }
    None
}

} // verus!
