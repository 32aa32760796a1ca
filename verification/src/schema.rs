//! Reduction of a tool's parameter schema to the subset that the REST backend
//! accepts.
//!
//! The reduced schema is an object with exactly the entries `type`,
//! `properties` and `required`. Each property keeps its `type`, `description`
//! and `enum`; an array property gets `items`, an object property with
//! `properties` of its own is reduced in the same way. Everything else is
//! dropped.

use vstd::prelude::*;

use crate::json::{entries, find, lookup, Json, JsonValue, Member};
use crate::schema_laws::{lemma_cleaned_items_well_formed, lemma_cleaned_well_formed};

verus! {

/// An entry of an object's value.
pub type Entry = (Seq<char>, JsonValue);

/// No entry, or the one entry `key: value`.
pub open spec fn entry_if(key: Seq<char>, value: Option<JsonValue>) -> Seq<Entry> {
    match value {
        Some(v) => seq![(key, v)],
        None => Seq::empty(),
    }
}

/// The type that a schema resolves to: `"string"` where it names none, the
/// first of a list of types, nothing for an empty list, else what it names.
pub open spec fn type_of(schema: Seq<Entry>) -> Option<JsonValue> {
    match lookup(schema, "type"@) {
        None => Some(JsonValue::String("string"@)),
        Some(JsonValue::Array(types)) => if types.len() > 0 {
            Some(types[0])
        } else {
            None
        },
        Some(named) => Some(named),
    }
}

/// The entries kept of any schema: `type`, `description` and `enum`.
pub open spec fn plain_entries(schema: Seq<Entry>) -> Seq<Entry> {
    entry_if("type"@, type_of(schema)) + entry_if("description"@, lookup(schema, "description"@))
        + entry_if("enum"@, lookup(schema, "enum"@))
}

/// The item schema of an array that names none: `{"type": "string"}`.
pub open spec fn default_items() -> JsonValue {
    JsonValue::Object(seq![("type"@, JsonValue::String("string"@))])
}

/// The reduced form of an array's item schema.
pub open spec fn cleaned_items(items: JsonValue) -> JsonValue {
    match items {
        JsonValue::Object(schema) => JsonValue::Object(plain_entries(schema)),
        _ => default_items(),
    }
}

/// The `items` of a property: present exactly for an array.
pub open spec fn items_of(property: Seq<Entry>) -> Option<JsonValue> {
    if type_of(property) == Some(JsonValue::String("array"@)) {
        Some(
            match lookup(property, "items"@) {
                Some(items) => cleaned_items(items),
                None => default_items(),
            },
        )
    } else {
        None
    }
}

/// Whether a property is an object with `properties` of its own.
pub open spec fn is_nested(property: Seq<Entry>) -> bool {
    type_of(property) == Some(JsonValue::String("object"@)) && lookup(property, "properties"@)
        is Some
}

/// The `required` list of a schema, as it stands; the empty list where the
/// schema has none.
pub open spec fn required_of(schema: JsonValue) -> JsonValue {
    match schema {
        JsonValue::Object(entries) => match lookup(entries, "required"@) {
            Some(required) => required,
            None => JsonValue::Array(Seq::empty()),
        },
        _ => JsonValue::Array(Seq::empty()),
    }
}

/// The reduced properties of a schema; none where `properties` is missing or
/// is not an object.
pub open spec fn properties_of(schema: JsonValue) -> JsonValue
    decreases schema, 2int,
{
    match schema {
        JsonValue::Object(entries) => match lookup(entries, "properties"@) {
            Some(JsonValue::Object(properties)) => JsonValue::Object(
                cleaned_properties(properties),
            ),
            _ => JsonValue::Object(Seq::empty()),
        },
        _ => JsonValue::Object(Seq::empty()),
    }
}

/// Each property that is an object, reduced, under its name and in order.
pub open spec fn cleaned_properties(properties: Seq<Entry>) -> Seq<Entry>
    decreases properties, 1int,
{
    if properties.len() == 0 {
        Seq::empty()
    } else {
        cleaned_properties(properties.drop_last()) + (match properties.last().1 {
            JsonValue::Object(property) => seq![
                (properties.last().0, cleaned_property(properties.last().1)),
            ],
            _ => Seq::empty(),
        })
    }
}

/// The `properties` and `required` entries of a property: present exactly
/// where it is nested.
pub open spec fn nested_entries(property: JsonValue) -> Seq<Entry>
    decreases property, 3int,
{
    if property is Object && is_nested(property->Object_0) {
        seq![("properties"@, properties_of(property)), ("required"@, required_of(property))]
    } else {
        Seq::empty()
    }
}

/// The reduced form of one property, which is an object.
pub open spec fn cleaned_property(property: JsonValue) -> JsonValue
    decreases property, 4int,
{
    JsonValue::Object(
        plain_entries(property->Object_0) + entry_if("items"@, items_of(property->Object_0))
            + nested_entries(property),
    )
}

/// The reduced form of a schema.
pub open spec fn cleaned(schema: JsonValue) -> JsonValue {
    JsonValue::Object(
        seq![
            ("type"@, JsonValue::String("object"@)),
            ("properties"@, properties_of(schema)),
            ("required"@, required_of(schema)),
        ],
    )
}

/// Whether `schema` resolves to the type called `name`.
fn resolves_to(schema: &Vec<Member>, name: &str) -> (r: bool)
    ensures
        r == (type_of(entries(schema@)) == Some(JsonValue::String(name@))),
{
    match find(schema, "type") {
        None => {
            let fallback = Json::text("string");
            fallback.is_text(name)
        },
        Some(Json::Array(types)) => types.len() > 0 && types[0].is_text(name),
        Some(named) => named.is_text(name),
    }
}

/// The members kept of any schema: `type`, `description` and `enum`.
fn plain_members(schema: &Vec<Member>) -> (r: Vec<Member>)
    ensures
        entries(r@) == plain_entries(entries(schema@)),
{
    let mut out: Vec<Member> = Vec::new();
    match find(schema, "type") {
        None => {
            out.push(Member::new("type", Json::text("string")));
        },
        Some(Json::Array(types)) => {
            if types.len() > 0 {
                out.push(Member::new("type", types[0].clone()));
            }
        },
        Some(named) => {
            out.push(Member::new("type", named.clone()));
        },
    }
    assert(entries(out@) =~= entry_if("type"@, type_of(entries(schema@))));
    if let Some(description) = find(schema, "description") {
        out.push(Member::new("description", description.clone()));
    }
    assert(entries(out@) =~= entry_if("type"@, type_of(entries(schema@))) + entry_if(
        "description"@,
        lookup(entries(schema@), "description"@),
    ));
    if let Some(choices) = find(schema, "enum") {
        out.push(Member::new("enum", choices.clone()));
    }
    assert(entries(out@) =~= plain_entries(entries(schema@)));
    out
}

/// The item schema `{"type": "string"}`.
fn string_items() -> (r: Json)
    ensures
        r@ == default_items(),
{
    let members = vec![Member::new("type", Json::text("string"))];
    assert(entries(members@) =~= seq![("type"@, JsonValue::String("string"@))]);
    Json::Object(members)
}

/// Reduces the item schema of an array to its `type`, `description` and
/// `enum`; anything but an object becomes `{"type": "string"}`.
pub fn clean_array_items(items: &Json) -> (r: Json)
    ensures
        r@ == cleaned_items(items@),
        items@.well_formed() ==> r@.well_formed(),
{
    proof {
        if items@.well_formed() {
            lemma_cleaned_items_well_formed(items@);
        }
    }
    match items {
        Json::Object(schema) => Json::Object(plain_members(schema)),
        _ => string_items(),
    }
}

/// The `required` list of `schema`, copied; the empty list where it has none.
fn required_list(schema: &Json) -> (r: Json)
    ensures
        r@ == required_of(schema@),
{
    match schema.get("required") {
        Some(required) => required.clone(),
        None => {
            let none: Vec<Json> = Vec::new();
            assert(crate::json::values(none@) =~= Seq::empty());
            Json::Array(none)
        },
    }
}

/// The reduced properties of `schema`.
fn clean_properties_of(schema: &Json) -> (r: Json)
    ensures
        r@ == properties_of(schema@),
    decreases schema@, 2int,
{
    match schema.get("properties") {
        Some(Json::Object(properties)) => Json::Object(clean_properties(properties)),
        _ => {
            let none: Vec<Member> = Vec::new();
            assert(entries(none@) =~= Seq::empty());
            Json::Object(none)
        },
    }
}

/// Each of `properties` that is an object, reduced, under its name.
fn clean_properties(properties: &Vec<Member>) -> (r: Vec<Member>)
    ensures
        entries(r@) == cleaned_properties(entries(properties@)),
    decreases entries(properties@), 1int,
{
    let mut out: Vec<Member> = Vec::new();
    let mut i: usize = 0;
    assert(entries(properties@).take(0) =~= Seq::empty());
    while i < properties.len()
        invariant
            i <= properties.len(),
            entries(out@) == cleaned_properties(entries(properties@).take(i as int)),
        decreases properties.len() - i,
    {
        let ghost before = entries(properties@).take(i as int);
        let ghost upto = entries(properties@).take(i + 1);
        assert(upto.drop_last() =~= before);
        assert(upto.last() == entries(properties@)[i as int]);
        if let Json::Object(_) = &properties[i].value {
            assert(entries(properties@)[i as int].1 == properties[i as int].value@);
            let cleaned = clean_property(&properties[i].value);
            out.push(Member { key: properties[i].key.clone(), value: cleaned });
        }
        assert(entries(out@) =~= cleaned_properties(upto));
        i += 1;
    }
    assert(entries(properties@).take(i as int) =~= entries(properties@));
    out
}

/// The reduced form of `property`, which is an object.
fn clean_property(property: &Json) -> (r: Json)
    requires
        property@ is Object,
    ensures
        r@ == cleaned_property(property@),
    decreases property@, 4int,
{
    match property {
        Json::Object(schema) => {
            let mut out = plain_members(schema);
            if resolves_to(schema, "array") {
                let items = match find(schema, "items") {
                    Some(items) => clean_array_items(items),
                    None => string_items(),
                };
                out.push(Member::new("items", items));
            }
            assert(entries(out@) =~= plain_entries(property@->Object_0) + entry_if(
                "items"@,
                items_of(property@->Object_0),
            ));
            if resolves_to(schema, "object") && find(schema, "properties").is_some() {
                out.push(Member::new("properties", clean_properties_of(property)));
                out.push(Member::new("required", required_list(property)));
            }
            assert(entries(out@) =~= plain_entries(property@->Object_0) + entry_if(
                "items"@,
                items_of(property@->Object_0),
            ) + nested_entries(property@));
            Json::Object(out)
        },
        _ => Json::Null,
    }
}

/// Reduces a tool's parameter schema to the subset that the REST backend
/// accepts. Any JSON value is taken: what is missing or of the wrong kind
/// gives the empty default.
pub fn clean_parameters_for_gemini(parameters: &Json) -> (r: Json)
    ensures
        r@ == cleaned(parameters@),
        r@ matches JsonValue::Object(entries) && entries.len() == 3 && entries[0] == (
            "type"@,
            JsonValue::String("object"@),
        ) && entries[1].0 == "properties"@ && entries[1].1 is Object && entries[2].0
            == "required"@,
        parameters@.well_formed() ==> r@.well_formed(),
{
    proof {
        if parameters@.well_formed() {
            lemma_cleaned_well_formed(parameters@);
        }
    }
    let members = vec![
        Member::new("type", Json::text("object")),
        Member::new("properties", clean_properties_of(parameters)),
        Member::new("required", required_list(parameters)),
    ];
    assert(entries(members@) =~= cleaned(parameters@)->Object_0);
    Json::Object(members)
}

} // verus!
