//! What holds of schema reduction for every input.

use vstd::prelude::*;

use crate::json::{
    distinct_keys, index_of, lemma_index_of, lemma_lookup_well_formed, lookup, JsonValue,
};
use crate::schema::{
    cleaned, cleaned_items, cleaned_properties, cleaned_property, default_items, entry_if,
    is_nested, items_of, plain_entries, properties_of, required_of, type_of,
    Entry,
};

verus! {

/// Whether a schema names a single type: no empty list of types, and no
/// list of types that starts with a list.
pub open spec fn single_type(schema: Seq<Entry>) -> bool {
    type_of(schema) matches Some(named) && !(named is Array)
}

/// Whether an array's item schema names a single type, if it is an object.
pub open spec fn single_typed_items(items: JsonValue) -> bool {
    items matches JsonValue::Object(schema) ==> single_type(schema)
}

/// Whether one property, which is an object, names single types throughout:
/// itself, its items if it is an array, its properties if it is nested.
pub open spec fn single_typed_property(property: JsonValue) -> bool
    decreases property, 4int,
{
    let schema = property->Object_0;
    &&& single_type(schema)
    &&& type_of(schema) == Some(JsonValue::String("array"@)) ==> (lookup(schema, "items"@)
        matches Some(items) ==> single_typed_items(items))
    &&& property is Object && is_nested(schema) ==> single_typed(property)
}

/// Whether each property that is an object names single types throughout.
pub open spec fn single_typed_properties(properties: Seq<Entry>) -> bool
    decreases properties, 1int,
{
    properties.len() == 0 || (single_typed_properties(properties.drop_last()) && (
    properties.last().1 is Object ==> single_typed_property(properties.last().1)))
}

/// Whether every property that reduction reaches in `schema` names a single
/// type. A schema without `properties`, or one that is no object, does.
pub open spec fn single_typed(schema: JsonValue) -> bool
    decreases schema, 2int,
{
    schema matches JsonValue::Object(entries) ==> (lookup(entries, "properties"@) matches Some(
        JsonValue::Object(properties),
    ) ==> single_typed_properties(properties))
}

/// The six keys of a reduced property are six different texts.
proof fn lemma_keys_differ()
    ensures
        "type"@ != "description"@,
        "type"@ != "enum"@,
        "type"@ != "items"@,
        "type"@ != "properties"@,
        "type"@ != "required"@,
        "description"@ != "enum"@,
        "description"@ != "items"@,
        "description"@ != "properties"@,
        "description"@ != "required"@,
        "enum"@ != "items"@,
        "enum"@ != "properties"@,
        "enum"@ != "required"@,
        "items"@ != "properties"@,
        "items"@ != "required"@,
        "properties"@ != "required"@,
{
    reveal_strlit("type");
    reveal_strlit("description");
    reveal_strlit("enum");
    reveal_strlit("items");
    reveal_strlit("properties");
    reveal_strlit("required");
    assert("type"@.len() == 4);
    assert("description"@.len() == 11);
    assert("enum"@.len() == 4);
    assert("items"@.len() == 5);
    assert("properties"@.len() == 10);
    assert("required"@.len() == 8);
    assert("type"@[0] == 't');
    assert("enum"@[0] == 'e');
}

/// Looking a key up behind an optional entry: the entry answers for its own
/// key, the rest for every other.
proof fn lemma_lookup_behind(
    key: Seq<char>,
    value: Option<JsonValue>,
    rest: Seq<Entry>,
    wanted: Seq<char>,
)
    ensures
        lookup(entry_if(key, value) + rest, wanted) == (if value is Some && key == wanted {
            value
        } else {
            lookup(rest, wanted)
        }),
{
    let all = entry_if(key, value) + rest;
    match value {
        Some(v) => {
            assert(all[0] == (key, v));
            assert(all.drop_first() =~= rest);
            lemma_index_of(rest, wanted);
            if key != wanted {
                let at = index_of(rest, wanted);
                assert(index_of(all, wanted) == 1 + at);
                if at < rest.len() {
                    assert(all[1 + at] == rest[at]);
                }
            }
        },
        None => {
            assert(all =~= rest);
        },
    }
}

/// The entries of a reduced property, written out key by key.
spec fn fields(
    ty: Option<JsonValue>,
    description: Option<JsonValue>,
    choices: Option<JsonValue>,
    items: Option<JsonValue>,
    properties: Option<JsonValue>,
    required: Option<JsonValue>,
) -> Seq<Entry> {
    entry_if("type"@, ty) + (entry_if("description"@, description) + (entry_if("enum"@, choices) + (
    entry_if("items"@, items) + (entry_if("properties"@, properties) + (entry_if(
        "required"@,
        required,
    ) + Seq::<Entry>::empty())))))
}

/// Each of the six keys finds its own value among `fields`.
proof fn lemma_fields_lookup(
    ty: Option<JsonValue>,
    description: Option<JsonValue>,
    choices: Option<JsonValue>,
    items: Option<JsonValue>,
    properties: Option<JsonValue>,
    required: Option<JsonValue>,
)
    ensures
        ({
            let all = fields(ty, description, choices, items, properties, required);
            &&& lookup(all, "type"@) == ty
            &&& lookup(all, "description"@) == description
            &&& lookup(all, "enum"@) == choices
            &&& lookup(all, "items"@) == items
            &&& lookup(all, "properties"@) == properties
            &&& lookup(all, "required"@) == required
        }),
{
    lemma_keys_differ();
    let r6 = Seq::<Entry>::empty();
    let r5 = entry_if("required"@, required) + r6;
    let r4 = entry_if("properties"@, properties) + r5;
    let r3 = entry_if("items"@, items) + r4;
    let r2 = entry_if("enum"@, choices) + r3;
    let r1 = entry_if("description"@, description) + r2;
    assert forall|wanted: Seq<char>| #[trigger] lookup(r6, wanted) is None by {
        lemma_index_of(r6, wanted);
    }
    assert forall|wanted: Seq<char>|
        #[trigger] lookup(r5, wanted) == (if required is Some && "required"@ == wanted {
            required
        } else {
            None
        }) by {
        lemma_lookup_behind("required"@, required, r6, wanted);
    }
    assert forall|wanted: Seq<char>|
        #[trigger] lookup(r4, wanted) == (if properties is Some && "properties"@ == wanted {
            properties
        } else {
            lookup(r5, wanted)
        }) by {
        lemma_lookup_behind("properties"@, properties, r5, wanted);
    }
    assert forall|wanted: Seq<char>|
        #[trigger] lookup(r3, wanted) == (if items is Some && "items"@ == wanted {
            items
        } else {
            lookup(r4, wanted)
        }) by {
        lemma_lookup_behind("items"@, items, r4, wanted);
    }
    assert forall|wanted: Seq<char>|
        #[trigger] lookup(r2, wanted) == (if choices is Some && "enum"@ == wanted {
            choices
        } else {
            lookup(r3, wanted)
        }) by {
        lemma_lookup_behind("enum"@, choices, r3, wanted);
    }
    assert forall|wanted: Seq<char>|
        #[trigger] lookup(r1, wanted) == (if description is Some && "description"@ == wanted {
            description
        } else {
            lookup(r2, wanted)
        }) by {
        lemma_lookup_behind("description"@, description, r2, wanted);
    }
    assert forall|wanted: Seq<char>|
        #[trigger] lookup(entry_if("type"@, ty) + r1, wanted) == (if ty is Some && "type"@
            == wanted {
            ty
        } else {
            lookup(r1, wanted)
        }) by {
        lemma_lookup_behind("type"@, ty, r1, wanted);
    }
}

/// The `properties` entry of a reduced property.
spec fn nested_properties(property: JsonValue) -> Option<JsonValue> {
    if property is Object && is_nested(property->Object_0) {
        Some(properties_of(property))
    } else {
        None
    }
}

/// The `required` entry of a reduced property.
spec fn nested_required(property: JsonValue) -> Option<JsonValue> {
    if property is Object && is_nested(property->Object_0) {
        Some(required_of(property))
    } else {
        None
    }
}

/// A reduced property is its six optional entries in their fixed order.
proof fn lemma_cleaned_property_fields(property: JsonValue)
    ensures
        cleaned_property(property) == JsonValue::Object(
            fields(
                type_of(property->Object_0),
                lookup(property->Object_0, "description"@),
                lookup(property->Object_0, "enum"@),
                items_of(property->Object_0),
                nested_properties(property),
                nested_required(property),
            ),
        ),
{
    let schema = property->Object_0;
    let all = fields(
        type_of(schema),
        lookup(schema, "description"@),
        lookup(schema, "enum"@),
        items_of(schema),
        nested_properties(property),
        nested_required(property),
    );
    assert(cleaned_property(property)->Object_0 =~= all);
}

/// The plain entries of a schema are three of the six, the others absent.
proof fn lemma_plain_entries_fields(schema: Seq<Entry>)
    ensures
        plain_entries(schema) == fields(
            type_of(schema),
            lookup(schema, "description"@),
            lookup(schema, "enum"@),
            None,
            None,
            None,
        ),
{
    assert(plain_entries(schema) =~= fields(
        type_of(schema),
        lookup(schema, "description"@),
        lookup(schema, "enum"@),
        None,
        None,
        None,
    ));
}

/// The plain entries of a schema's plain entries are those entries again,
/// where the schema names a single type.
proof fn lemma_plain_entries_idempotent(schema: Seq<Entry>)
    requires
        single_type(schema),
    ensures
        plain_entries(plain_entries(schema)) == plain_entries(schema),
        single_type(plain_entries(schema)),
{
    lemma_plain_entries_fields(schema);
    lemma_fields_lookup(
        type_of(schema),
        lookup(schema, "description"@),
        lookup(schema, "enum"@),
        None,
        None,
        None,
    );
}

/// Reduced items reduce to themselves, where they name a single type.
proof fn lemma_cleaned_items_idempotent(items: JsonValue)
    requires
        single_typed_items(items),
    ensures
        cleaned_items(cleaned_items(items)) == cleaned_items(items),
{
    match items {
        JsonValue::Object(schema) => {
            lemma_plain_entries_idempotent(schema);
        },
        _ => {
            lemma_default_items_idempotent();
        },
    }
}

/// `{"type": "string"}` reduces to itself.
proof fn lemma_default_items_idempotent()
    ensures
        cleaned_items(default_items()) == default_items(),
{
    let only = seq![("type"@, JsonValue::String("string"@))];
    assert(only =~= fields(Some(JsonValue::String("string"@)), None, None, None, None, None));
    lemma_fields_lookup(Some(JsonValue::String("string"@)), None, None, None, None, None);
    lemma_plain_entries_fields(only);
}

/// Reduction of a list of properties goes entry by entry.
proof fn lemma_cleaned_properties_concat(front: Seq<Entry>, back: Seq<Entry>)
    ensures
        cleaned_properties(front + back) == cleaned_properties(front) + cleaned_properties(back),
    decreases back.len(),
{
    if back.len() == 0 {
        assert(front + back =~= front);
        assert(cleaned_properties(front) + cleaned_properties(back) =~= cleaned_properties(
            front,
        ));
    } else {
        let all = front + back;
        assert(all.drop_last() =~= front + back.drop_last());
        assert(all.last() == back.last());
        lemma_cleaned_properties_concat(front, back.drop_last());
        let tail: Seq<Entry> = match back.last().1 {
            JsonValue::Object(_) => seq![(back.last().0, cleaned_property(back.last().1))],
            _ => Seq::empty(),
        };
        assert(cleaned_properties(all) =~= cleaned_properties(front) + (cleaned_properties(
            back.drop_last(),
        ) + tail));
    }
}

/// A reduced property reduces to itself, where it names single types
/// throughout.
proof fn lemma_cleaned_property_idempotent(property: JsonValue)
    requires
        property is Object,
        single_typed_property(property),
    ensures
        cleaned_property(cleaned_property(property)) == cleaned_property(property),
    decreases property, 4int,
{
    let schema = property->Object_0;
    let once = cleaned_property(property);
    lemma_cleaned_property_fields(property);
    lemma_fields_lookup(
        type_of(schema),
        lookup(schema, "description"@),
        lookup(schema, "enum"@),
        items_of(schema),
        nested_properties(property),
        nested_required(property),
    );
    let reduced = once->Object_0;
    assert(type_of(reduced) == type_of(schema));
    if type_of(schema) == Some(JsonValue::String("array"@)) {
        match lookup(schema, "items"@) {
            Some(items) => {
                lemma_cleaned_items_idempotent(items);
            },
            None => {
                lemma_default_items_idempotent();
            },
        }
    }
    assert(items_of(reduced) == items_of(schema));
    assert(is_nested(reduced) == is_nested(schema));
    if is_nested(schema) {
        lemma_properties_of_idempotent(property);
        assert(lookup(reduced, "properties"@) == Some(properties_of(property)));
        assert(properties_of(once) == properties_of(property));
        assert(required_of(once) == required_of(property));
    }
    assert(nested_properties(once) == nested_properties(property));
    assert(nested_required(once) == nested_required(property));
    lemma_cleaned_property_fields(once);
}

/// The reduced properties of a schema reduce to themselves, where the
/// schema names single types throughout.
proof fn lemma_properties_of_idempotent(schema: JsonValue)
    requires
        single_typed(schema),
    ensures
        properties_of(schema) is Object,
        cleaned_properties(properties_of(schema)->Object_0) == properties_of(schema)->Object_0,
    decreases schema, 2int,
{
    match schema {
        JsonValue::Object(entries) => {
            lemma_index_of(entries, "properties"@);
            match lookup(entries, "properties"@) {
                Some(JsonValue::Object(properties)) => {
                    lemma_cleaned_properties_idempotent(properties);
                },
                _ => {},
            }
        },
        _ => {},
    }
}

/// A reduced list of properties reduces to itself, where each property
/// names single types throughout.
proof fn lemma_cleaned_properties_idempotent(properties: Seq<Entry>)
    requires
        single_typed_properties(properties),
    ensures
        cleaned_properties(cleaned_properties(properties)) == cleaned_properties(properties),
    decreases properties, 1int,
{
    if properties.len() > 0 {
        let front = properties.drop_last();
        let last = properties.last();
        lemma_cleaned_properties_idempotent(front);
        let tail: Seq<Entry> = match last.1 {
            JsonValue::Object(_) => seq![(last.0, cleaned_property(last.1))],
            _ => Seq::empty(),
        };
        lemma_cleaned_properties_concat(cleaned_properties(front), tail);
        if last.1 is Object {
            lemma_cleaned_property_idempotent(last.1);
            assert(tail.drop_last() =~= Seq::<Entry>::empty());
            assert(cleaned_properties(Seq::<Entry>::empty()) =~= Seq::<Entry>::empty());
            assert(tail.last() == (last.0, cleaned_property(last.1)));
            assert(cleaned_property(last.1) is Object);
            assert(cleaned_properties(tail) =~= tail);
        }
    }
}

/// In a reduced schema, `properties` and `required` are found as the
/// reduction put them there.
proof fn lemma_cleaned_lookups(schema: JsonValue)
    ensures
        lookup(cleaned(schema)->Object_0, "properties"@) == Some(properties_of(schema)),
        lookup(cleaned(schema)->Object_0, "required"@) == Some(required_of(schema)),
        properties_of(cleaned(schema)) == (match properties_of(schema) {
            JsonValue::Object(properties) => JsonValue::Object(cleaned_properties(properties)),
            _ => JsonValue::Object(Seq::empty()),
        }),
        required_of(cleaned(schema)) == required_of(schema),
{
    lemma_keys_differ();
    let entries = cleaned(schema)->Object_0;
    let behind_type = seq![
        ("properties"@, properties_of(schema)),
        ("required"@, required_of(schema)),
    ];
    let behind_properties = seq![("required"@, required_of(schema))];
    lemma_lookup_behind("type"@, Some(JsonValue::String("object"@)), behind_type, "properties"@);
    lemma_lookup_behind("type"@, Some(JsonValue::String("object"@)), behind_type, "required"@);
    lemma_lookup_behind(
        "properties"@,
        Some(properties_of(schema)),
        behind_properties,
        "properties"@,
    );
    lemma_lookup_behind(
        "properties"@,
        Some(properties_of(schema)),
        behind_properties,
        "required"@,
    );
    lemma_lookup_behind("required"@, Some(required_of(schema)), Seq::empty(), "required"@);
    assert(entries =~= entry_if("type"@, Some(JsonValue::String("object"@))) + behind_type);
    assert(behind_type =~= entry_if("properties"@, Some(properties_of(schema)))
        + behind_properties);
    assert(behind_properties =~= entry_if("required"@, Some(required_of(schema)))
        + Seq::empty());
}

/// Reducing a reduced schema changes nothing: `cleaned` is idempotent on
/// every schema whose properties name single types throughout.
pub proof fn lemma_cleaned_idempotent(schema: JsonValue)
    requires
        single_typed(schema),
    ensures
        cleaned(cleaned(schema)) == cleaned(schema),
{
    lemma_properties_of_idempotent(schema);
    lemma_cleaned_lookups(schema);
}

/// A schema that is no object reduces to the schema without properties and
/// without required names; so does an object that has neither.
pub proof fn lemma_cleaned_of_nothing(schema: JsonValue)
    requires
        schema matches JsonValue::Object(entries) ==> lookup(entries, "properties"@) is None
            && lookup(entries, "required"@) is None,
    ensures
        cleaned(schema) == JsonValue::Object(
            seq![
                ("type"@, JsonValue::String("object"@)),
                ("properties"@, JsonValue::Object(Seq::empty())),
                ("required"@, JsonValue::Array(Seq::empty())),
            ],
        ),
{
}

/// A type that is not single does not stay: where the `type` entry of
/// `entries` is missing, or is a list, the type that `entries` resolve to is
/// another than that entry.
proof fn lemma_type_shifts(entries: Seq<Entry>)
    requires
        !(lookup(entries, "type"@) matches Some(named) && !(named is Array)),
    ensures
        type_of(entries) != lookup(entries, "type"@),
{
    match lookup(entries, "type"@) {
        Some(JsonValue::Array(types)) => {
            if types.len() > 0 {
                assert(decreases_to!(JsonValue::Array(types) => types[0]));
            }
        },
        _ => {},
    }
}

/// The plain entries of a schema that names no single type change when
/// they are taken again.
proof fn lemma_plain_entries_change(schema: Seq<Entry>)
    requires
        !single_type(schema),
    ensures
        plain_entries(plain_entries(schema)) != plain_entries(schema),
{
    let once = plain_entries(schema);
    lemma_plain_entries_fields(schema);
    lemma_fields_lookup(
        type_of(schema),
        lookup(schema, "description"@),
        lookup(schema, "enum"@),
        None,
        None,
        None,
    );
    lemma_type_shifts(once);
    lemma_plain_entries_fields(once);
    lemma_fields_lookup(
        type_of(once),
        lookup(once, "description"@),
        lookup(once, "enum"@),
        None,
        None,
        None,
    );
    assert(lookup(plain_entries(once), "type"@) != lookup(once, "type"@));
}

/// Reducing properties that are all objects keeps their number, and gives
/// objects.
proof fn lemma_cleaned_properties_of_objects(properties: Seq<Entry>)
    requires
        forall|i: int| 0 <= i < properties.len() ==> (#[trigger] properties[i]).1 is Object,
    ensures
        cleaned_properties(properties).len() == properties.len(),
    decreases properties.len(),
{
    if properties.len() > 0 {
        let front = properties.drop_last();
        assert forall|i: int| 0 <= i < front.len() implies (#[trigger] front[i]).1 is Object by {
            assert(front[i] == properties[i]);
        }
        lemma_cleaned_properties_of_objects(front);
        assert(properties.last() == properties[properties.len() - 1]);
    }
}

/// Reduced properties are all objects.
proof fn lemma_cleaned_properties_are_objects(properties: Seq<Entry>)
    ensures
        forall|i: int|
            0 <= i < cleaned_properties(properties).len() ==> (#[trigger] cleaned_properties(
                properties,
            )[i]).1 is Object,
    decreases properties.len(),
{
    if properties.len() > 0 {
        let front = properties.drop_last();
        lemma_cleaned_properties_are_objects(front);
        let all = cleaned_properties(properties);
        assert forall|i: int| 0 <= i < all.len() implies (#[trigger] all[i]).1 is Object by {
            if i < cleaned_properties(front).len() {
                assert(all[i] == cleaned_properties(front)[i]);
            } else {
                assert(properties.last().1 is Object);
                assert(all[i] == (
                    properties.last().0,
                    cleaned_property(properties.last().1),
                ));
            }
        }
    }
}

/// A reduced property changes when it is reduced again, where it does not
/// name single types throughout.
proof fn lemma_cleaned_property_changes(property: JsonValue)
    requires
        property is Object,
        !single_typed_property(property),
    ensures
        cleaned_property(cleaned_property(property)) != cleaned_property(property),
    decreases property, 4int,
{
    let schema = property->Object_0;
    let once = cleaned_property(property);
    let reduced = once->Object_0;
    lemma_cleaned_property_fields(property);
    lemma_fields_lookup(
        type_of(schema),
        lookup(schema, "description"@),
        lookup(schema, "enum"@),
        items_of(schema),
        nested_properties(property),
        nested_required(property),
    );
    lemma_cleaned_property_fields(once);
    lemma_fields_lookup(
        type_of(reduced),
        lookup(reduced, "description"@),
        lookup(reduced, "enum"@),
        items_of(reduced),
        nested_properties(once),
        nested_required(once),
    );
    let again = cleaned_property(once)->Object_0;
    if !single_type(schema) {
        lemma_type_shifts(reduced);
        assert(lookup(again, "type"@) != lookup(reduced, "type"@));
    } else {
        assert(type_of(reduced) == type_of(schema));
        if type_of(schema) == Some(JsonValue::String("array"@)) && (lookup(schema, "items"@)
            matches Some(items) && !single_typed_items(items)) {
            let items = lookup(schema, "items"@)->Some_0;
            lemma_plain_entries_change(items->Object_0);
            assert(lookup(again, "items"@) != lookup(reduced, "items"@));
        } else {
            assert(is_nested(schema) && !single_typed(property));
            assert(is_nested(reduced));
            lemma_properties_of_changes(property);
            assert(lookup(reduced, "properties"@) == Some(properties_of(property)));
            assert(properties_of(once) == JsonValue::Object(
                cleaned_properties(properties_of(property)->Object_0),
            ));
            assert(lookup(again, "properties"@) != lookup(reduced, "properties"@));
        }
    }
}

/// The reduced properties of a schema change when they are reduced again,
/// where the schema does not name single types throughout.
proof fn lemma_properties_of_changes(schema: JsonValue)
    requires
        !single_typed(schema),
    ensures
        properties_of(schema) is Object,
        cleaned_properties(properties_of(schema)->Object_0) != properties_of(schema)->Object_0,
    decreases schema, 2int,
{
    let entries = schema->Object_0;
    lemma_index_of(entries, "properties"@);
    let properties = lookup(entries, "properties"@)->Some_0->Object_0;
    lemma_cleaned_properties_change(properties);
}

/// A reduced list of properties changes when it is reduced again, where
/// one of the properties does not name single types throughout.
proof fn lemma_cleaned_properties_change(properties: Seq<Entry>)
    requires
        !single_typed_properties(properties),
    ensures
        cleaned_properties(cleaned_properties(properties)) != cleaned_properties(properties),
    decreases properties, 1int,
{
    let front = properties.drop_last();
    let last = properties.last();
    let tail: Seq<Entry> = match last.1 {
        JsonValue::Object(_) => seq![(last.0, cleaned_property(last.1))],
        _ => Seq::empty(),
    };
    let once_front = cleaned_properties(front);
    lemma_cleaned_properties_concat(once_front, tail);
    lemma_cleaned_properties_are_objects(front);
    lemma_cleaned_properties_of_objects(once_front);
    let twice = cleaned_properties(once_front) + cleaned_properties(tail);
    let once = once_front + tail;
    if twice == once {
        assert(twice.take(once_front.len() as int) =~= cleaned_properties(once_front));
        assert(once.take(once_front.len() as int) =~= once_front);
        assert(twice.skip(once_front.len() as int) =~= cleaned_properties(tail));
        assert(once.skip(once_front.len() as int) =~= tail);
        if !single_typed_properties(front) {
            lemma_cleaned_properties_change(front);
        } else {
            lemma_cleaned_property_changes(last.1);
            assert(tail.drop_last() =~= Seq::<Entry>::empty());
            assert(cleaned_properties(Seq::<Entry>::empty()) =~= Seq::<Entry>::empty());
            assert(tail.last() == (last.0, cleaned_property(last.1)));
            assert(cleaned_property(last.1) is Object);
            assert(cleaned_properties(tail) =~= seq![
                (last.0, cleaned_property(cleaned_property(last.1))),
            ]);
            assert(cleaned_properties(tail)[0] == tail[0]);
        }
    }
}

/// Reducing a reduced schema changes it wherever some property that the
/// reduction reaches does not name a single type.
pub proof fn lemma_cleaned_changes_otherwise(schema: JsonValue)
    requires
        !single_typed(schema),
    ensures
        cleaned(cleaned(schema)) != cleaned(schema),
{
    lemma_properties_of_changes(schema);
    lemma_cleaned_lookups(schema);
    assert(cleaned(cleaned(schema))->Object_0[1] != cleaned(schema)->Object_0[1]);
}

/// Reduction is idempotent exactly on the schemas whose reachable
/// properties name single types.
pub proof fn lemma_cleaned_idempotent_exactly(schema: JsonValue)
    ensures
        cleaned(cleaned(schema)) == cleaned(schema) <==> single_typed(schema),
{
    if single_typed(schema) {
        lemma_cleaned_idempotent(schema);
    } else {
        lemma_cleaned_changes_otherwise(schema);
    }
}

/// An entry put before well-formed entries that have none under its key
/// gives well-formed entries, where its value is well-formed.
proof fn lemma_entry_before_well_formed(key: Seq<char>, value: Option<JsonValue>, rest: Seq<Entry>)
    requires
        JsonValue::Object(rest).well_formed(),
        lookup(rest, key) is None,
        value matches Some(v) ==> v.well_formed(),
    ensures
        JsonValue::Object(entry_if(key, value) + rest).well_formed(),
{
    let all = entry_if(key, value) + rest;
    lemma_index_of(rest, key);
    match value {
        Some(v) => {
            assert forall|i: int, j: int| 0 <= i < j < all.len() implies (#[trigger] all[i]).0 != (
            #[trigger] all[j]).0 by {
                assert(all[j] == rest[j - 1]);
                if i > 0 {
                    assert(all[i] == rest[i - 1]);
                }
            }
            assert forall|i: int| 0 <= i < all.len() implies (#[trigger] all[i]).1.well_formed() by {
                if i > 0 {
                    assert(all[i] == rest[i - 1]);
                }
            }
        },
        None => {
            assert(all =~= rest);
        },
    }
}

/// The six optional entries of a reduced property are well-formed where
/// their values are.
proof fn lemma_fields_well_formed(
    ty: Option<JsonValue>,
    description: Option<JsonValue>,
    choices: Option<JsonValue>,
    items: Option<JsonValue>,
    properties: Option<JsonValue>,
    required: Option<JsonValue>,
)
    requires
        ty matches Some(v) ==> v.well_formed(),
        description matches Some(v) ==> v.well_formed(),
        choices matches Some(v) ==> v.well_formed(),
        items matches Some(v) ==> v.well_formed(),
        properties matches Some(v) ==> v.well_formed(),
        required matches Some(v) ==> v.well_formed(),
    ensures
        JsonValue::Object(
            fields(ty, description, choices, items, properties, required),
        ).well_formed(),
{
    lemma_keys_differ();
    let r6 = Seq::<Entry>::empty();
    let r5 = entry_if("required"@, required) + r6;
    let r4 = entry_if("properties"@, properties) + r5;
    let r3 = entry_if("items"@, items) + r4;
    let r2 = entry_if("enum"@, choices) + r3;
    let r1 = entry_if("description"@, description) + r2;
    lemma_index_of(r6, "required"@);
    lemma_entry_before_well_formed("required"@, required, r6);
    lemma_fields_lookup(None, None, None, None, None, required);
    assert(fields(None, None, None, None, None, required) =~= r5);
    lemma_entry_before_well_formed("properties"@, properties, r5);
    lemma_fields_lookup(None, None, None, None, properties, required);
    assert(fields(None, None, None, None, properties, required) =~= r4);
    lemma_entry_before_well_formed("items"@, items, r4);
    lemma_fields_lookup(None, None, None, items, properties, required);
    assert(fields(None, None, None, items, properties, required) =~= r3);
    lemma_entry_before_well_formed("enum"@, choices, r3);
    lemma_fields_lookup(None, None, choices, items, properties, required);
    assert(fields(None, None, choices, items, properties, required) =~= r2);
    lemma_entry_before_well_formed("description"@, description, r2);
    lemma_fields_lookup(None, description, choices, items, properties, required);
    assert(fields(None, description, choices, items, properties, required) =~= r1);
    lemma_entry_before_well_formed("type"@, ty, r1);
}

/// The type that a well-formed schema resolves to is well-formed.
proof fn lemma_type_of_well_formed(schema: Seq<Entry>)
    requires
        JsonValue::Object(schema).well_formed(),
    ensures
        type_of(schema) matches Some(named) ==> named.well_formed(),
{
    lemma_lookup_well_formed(schema, "type"@);
    match lookup(schema, "type"@) {
        Some(JsonValue::Array(types)) => {
            if types.len() > 0 {
                assert(types[0].well_formed());
            }
        },
        _ => {},
    }
}

/// The plain entries of a well-formed schema are well-formed.
proof fn lemma_plain_entries_well_formed(schema: Seq<Entry>)
    requires
        JsonValue::Object(schema).well_formed(),
    ensures
        JsonValue::Object(plain_entries(schema)).well_formed(),
{
    lemma_type_of_well_formed(schema);
    lemma_lookup_well_formed(schema, "description"@);
    lemma_lookup_well_formed(schema, "enum"@);
    lemma_plain_entries_fields(schema);
    lemma_fields_well_formed(
        type_of(schema),
        lookup(schema, "description"@),
        lookup(schema, "enum"@),
        None,
        None,
        None,
    );
}

/// Reduced items are well-formed where the items are.
pub proof fn lemma_cleaned_items_well_formed(items: JsonValue)
    requires
        items.well_formed(),
    ensures
        cleaned_items(items).well_formed(),
{
    match items {
        JsonValue::Object(schema) => {
            lemma_plain_entries_well_formed(schema);
        },
        _ => {
            let only = seq![("type"@, JsonValue::String("string"@))];
            assert(only =~= fields(
                Some(JsonValue::String("string"@)),
                None,
                None,
                None,
                None,
                None,
            ));
            lemma_fields_well_formed(
                Some(JsonValue::String("string"@)),
                None,
                None,
                None,
                None,
                None,
            );
        },
    }
}

/// Every name among reduced properties is the name of one of the
/// properties.
proof fn lemma_cleaned_properties_names(properties: Seq<Entry>)
    ensures
        forall|a: int|
            0 <= a < cleaned_properties(properties).len() ==> exists|i: int|
                0 <= i < properties.len() && (#[trigger] properties[i]).0 == (
                #[trigger] cleaned_properties(properties)[a]).0,
    decreases properties.len(),
{
    if properties.len() > 0 {
        let front = properties.drop_last();
        lemma_cleaned_properties_names(front);
        let all = cleaned_properties(properties);
        let once_front = cleaned_properties(front);
        assert forall|a: int| 0 <= a < all.len() implies exists|i: int|
            0 <= i < properties.len() && (#[trigger] properties[i]).0 == (#[trigger] all[a]).0 by {
            if a < once_front.len() {
                assert(all[a] == once_front[a]);
                let i = choose|i: int|
                    0 <= i < front.len() && (#[trigger] front[i]).0 == once_front[a].0;
                assert(properties[i] == front[i]);
            } else {
                assert(all[a].0 == properties[properties.len() - 1].0);
            }
        }
    }
}

/// A reduced property is well-formed where the property is.
proof fn lemma_cleaned_property_well_formed(property: JsonValue)
    requires
        property is Object,
        property.well_formed(),
    ensures
        cleaned_property(property).well_formed(),
    decreases property, 4int,
{
    let schema = property->Object_0;
    lemma_type_of_well_formed(schema);
    lemma_lookup_well_formed(schema, "description"@);
    lemma_lookup_well_formed(schema, "enum"@);
    lemma_lookup_well_formed(schema, "items"@);
    lemma_lookup_well_formed(schema, "required"@);
    if type_of(schema) == Some(JsonValue::String("array"@)) {
        match lookup(schema, "items"@) {
            Some(items) => {
                lemma_cleaned_items_well_formed(items);
            },
            None => {
                lemma_cleaned_items_well_formed(JsonValue::Null);
            },
        }
    }
    if is_nested(schema) {
        lemma_properties_of_well_formed(property);
    }
    lemma_cleaned_property_fields(property);
    lemma_fields_well_formed(
        type_of(schema),
        lookup(schema, "description"@),
        lookup(schema, "enum"@),
        items_of(schema),
        nested_properties(property),
        nested_required(property),
    );
}

/// The reduced properties of a well-formed schema are well-formed.
proof fn lemma_properties_of_well_formed(schema: JsonValue)
    requires
        schema.well_formed(),
    ensures
        properties_of(schema).well_formed(),
    decreases schema, 2int,
{
    match schema {
        JsonValue::Object(entries) => {
            lemma_index_of(entries, "properties"@);
            lemma_lookup_well_formed(entries, "properties"@);
            match lookup(entries, "properties"@) {
                Some(JsonValue::Object(properties)) => {
                    lemma_cleaned_properties_well_formed(properties);
                },
                _ => {},
            }
        },
        _ => {},
    }
}

/// Reduced properties are well-formed where the properties are.
proof fn lemma_cleaned_properties_well_formed(properties: Seq<Entry>)
    requires
        JsonValue::Object(properties).well_formed(),
    ensures
        JsonValue::Object(cleaned_properties(properties)).well_formed(),
    decreases properties, 1int,
{
    if properties.len() > 0 {
        let front = properties.drop_last();
        let last = properties.last();
        assert forall|i: int, j: int| 0 <= i < j < front.len() implies (#[trigger] front[i]).0 != (
        #[trigger] front[j]).0 by {
            assert(front[i] == properties[i]);
            assert(front[j] == properties[j]);
        }
        assert forall|i: int| 0 <= i < front.len() implies (#[trigger] front[i]).1.well_formed() by {
            assert(front[i] == properties[i]);
        }
        lemma_cleaned_properties_well_formed(front);
        lemma_cleaned_properties_names(front);
        assert(last == properties[properties.len() - 1]);
        if last.1 is Object {
            lemma_cleaned_property_well_formed(last.1);
        }
        let once_front = cleaned_properties(front);
        let all = cleaned_properties(properties);
        assert forall|a: int, b: int| 0 <= a < b < all.len() implies (#[trigger] all[a]).0 != (
        #[trigger] all[b]).0 by {
            assert(all[a] == once_front[a]);
            if b < once_front.len() {
                assert(all[b] == once_front[b]);
            } else {
                assert(all[b].0 == last.0);
                let i = choose|i: int|
                    0 <= i < front.len() && (#[trigger] front[i]).0 == once_front[a].0;
                assert(front[i] == properties[i]);
                assert(properties[i].0 != properties[properties.len() - 1].0);
            }
        }
        assert forall|a: int| 0 <= a < all.len() implies (#[trigger] all[a]).1.well_formed() by {
            if a < once_front.len() {
                assert(all[a] == once_front[a]);
            } else {
                assert(all[a].1 == cleaned_property(last.1));
            }
        }
    }
}

/// Reduction keeps values well-formed: where every object of a schema has
/// distinct keys, so has every object of the reduced schema.
pub proof fn lemma_cleaned_well_formed(schema: JsonValue)
    requires
        schema.well_formed(),
    ensures
        cleaned(schema).well_formed(),
{
    lemma_keys_differ();
    lemma_properties_of_well_formed(schema);
    if let JsonValue::Object(entries) = schema {
        lemma_lookup_well_formed(entries, "required"@);
    }
    let all = cleaned(schema)->Object_0;
    assert(distinct_keys(all));
    assert forall|i: int| 0 <= i < all.len() implies (#[trigger] all[i]).1.well_formed() by {}
}

} // verus!
