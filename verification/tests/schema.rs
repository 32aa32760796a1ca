use chat_gateway::json::{Json, Member};
use chat_gateway::schema::{clean_array_items, clean_parameters_for_gemini};

fn text(s: &str) -> Json {
    Json::String(s.to_string())
}

fn number(n: u64) -> Json {
    Json::Number(serde_json::Number::from(n))
}

fn object(members: Vec<(&str, Json)>) -> Json {
    Json::Object(
        members
            .into_iter()
            .map(|(key, value)| Member { key: key.to_string(), value })
            .collect(),
    )
}

fn empty_schema() -> Json {
    object(vec![
        ("type", text("object")),
        ("properties", object(vec![])),
        ("required", Json::Array(vec![])),
    ])
}

#[test]
fn test_clean_parameters_for_gemini() {
    let schema = object(vec![
        ("$schema", text("http://json-schema.org/draft-07/schema#")),
        ("type", text("object")),
        ("additionalProperties", Json::Bool(false)),
        (
            "properties",
            object(vec![(
                "path",
                object(vec![
                    ("type", Json::Array(vec![text("string"), text("null")])),
                    ("description", text("Path to file")),
                    ("additionalProperties", Json::Bool(false)),
                    ("exclusiveMinimum", Json::Bool(true)),
                ]),
            )]),
        ),
    ]);

    let cleaned = clean_parameters_for_gemini(&schema);

    assert!(cleaned.get("$schema").is_none());
    assert!(cleaned.get("additionalProperties").is_none());

    let path_prop = cleaned.get("properties").unwrap().get("path").unwrap();
    assert!(path_prop.get("additionalProperties").is_none());
    assert!(path_prop.get("exclusiveMinimum").is_none());

    assert_eq!(path_prop.get("type"), Some(&text("string")));

    assert_eq!(
        cleaned,
        object(vec![
            ("type", text("object")),
            (
                "properties",
                object(vec![(
                    "path",
                    object(vec![("type", text("string")), ("description", text("Path to file"))]),
                )]),
            ),
            ("required", Json::Array(vec![])),
        ])
    );
}

#[test]
fn clean_takes_any_value() {
    assert_eq!(clean_parameters_for_gemini(&Json::Null), empty_schema());
    assert_eq!(clean_parameters_for_gemini(&object(vec![])), empty_schema());
    assert_eq!(clean_parameters_for_gemini(&Json::Array(vec![text("x")])), empty_schema());
    assert_eq!(clean_parameters_for_gemini(&Json::Bool(true)), empty_schema());
    assert_eq!(clean_parameters_for_gemini(&text("schema")), empty_schema());
    assert_eq!(clean_parameters_for_gemini(&number(3)), empty_schema());
    assert_eq!(
        clean_parameters_for_gemini(&object(vec![("properties", text("none"))])),
        empty_schema()
    );
}

#[test]
fn clean_copies_required_as_it_stands() {
    let cleaned = clean_parameters_for_gemini(&object(vec![("required", number(5))]));
    assert_eq!(cleaned.get("required"), Some(&number(5)));
    let cleaned = clean_parameters_for_gemini(&object(vec![(
        "required",
        Json::Array(vec![text("a"), text("b")]),
    )]));
    assert_eq!(cleaned.get("required"), Some(&Json::Array(vec![text("a"), text("b")])));
}

#[test]
fn clean_drops_properties_that_are_no_objects() {
    let cleaned = clean_parameters_for_gemini(&object(vec![(
        "properties",
        object(vec![("a", text("string")), ("b", object(vec![])), ("c", Json::Null)]),
    )]));
    assert_eq!(
        cleaned.get("properties"),
        Some(&object(vec![("b", object(vec![("type", text("string"))]))]))
    );
}

#[test]
fn clean_keeps_description_and_enum() {
    let cleaned = clean_parameters_for_gemini(&object(vec![(
        "properties",
        object(vec![(
            "mode",
            object(vec![
                ("enum", Json::Array(vec![text("Line"), text("Directory")])),
                ("minimum", number(0)),
                ("description", text("The mode")),
                ("type", text("string")),
            ]),
        )]),
    )]));
    assert_eq!(
        cleaned.get("properties").unwrap().get("mode"),
        Some(&object(vec![
            ("type", text("string")),
            ("description", text("The mode")),
            ("enum", Json::Array(vec![text("Line"), text("Directory")])),
        ]))
    );
}

#[test]
fn clean_gives_arrays_their_items() {
    let cleaned = clean_parameters_for_gemini(&object(vec![(
        "properties",
        object(vec![
            ("plain", object(vec![("type", text("array"))])),
            (
                "typed",
                object(vec![
                    ("type", text("array")),
                    (
                        "items",
                        object(vec![
                            ("type", Json::Array(vec![text("integer"), text("null")])),
                            ("description", text("one")),
                            ("minimum", number(1)),
                            ("items", object(vec![("type", text("string"))])),
                        ]),
                    ),
                ]),
            ),
            ("odd", object(vec![("type", text("array")), ("items", number(1))])),
            ("listed", object(vec![("type", Json::Array(vec![text("array"), text("null")]))])),
            ("none", object(vec![("type", text("string")), ("items", object(vec![]))])),
        ]),
    )]));
    let properties = cleaned.get("properties").unwrap();
    let string_items = object(vec![("type", text("string"))]);
    assert_eq!(
        properties.get("plain"),
        Some(&object(vec![("type", text("array")), ("items", string_items.clone())]))
    );
    assert_eq!(
        properties.get("typed"),
        Some(&object(vec![
            ("type", text("array")),
            ("items", object(vec![("type", text("integer")), ("description", text("one"))])),
        ]))
    );
    assert_eq!(
        properties.get("odd"),
        Some(&object(vec![("type", text("array")), ("items", string_items.clone())]))
    );
    assert_eq!(
        properties.get("listed"),
        Some(&object(vec![("type", text("array")), ("items", string_items.clone())]))
    );
    assert_eq!(properties.get("none"), Some(&object(vec![("type", text("string"))])));
}

#[test]
fn clean_reduces_nested_objects() {
    let nested = object(vec![
        ("type", text("object")),
        ("title", text("Inner")),
        ("required", Json::Array(vec![text("x")])),
        (
            "properties",
            object(vec![("x", object(vec![("type", text("number")), ("maximum", number(9))]))]),
        ),
    ]);
    let cleaned = clean_parameters_for_gemini(&object(vec![(
        "properties",
        object(vec![
            ("inner", nested),
            ("flat", object(vec![("type", text("object")), ("required", Json::Array(vec![]))])),
        ]),
    )]));
    let properties = cleaned.get("properties").unwrap();
    assert_eq!(
        properties.get("inner"),
        Some(&object(vec![
            ("type", text("object")),
            ("properties", object(vec![("x", object(vec![("type", text("number"))]))])),
            ("required", Json::Array(vec![text("x")])),
        ]))
    );
    assert_eq!(properties.get("flat"), Some(&object(vec![("type", text("object"))])));
}

#[test]
fn clean_of_empty_type_list_names_no_type() {
    let cleaned = clean_parameters_for_gemini(&object(vec![(
        "properties",
        object(vec![("p", object(vec![("type", Json::Array(vec![]))]))]),
    )]));
    assert_eq!(cleaned.get("properties").unwrap().get("p"), Some(&object(vec![])));
}

#[test]
fn clean_twice_is_clean_once() {
    let schema = object(vec![
        ("$schema", text("http://json-schema.org/draft-07/schema#")),
        ("required", Json::Array(vec![text("path")])),
        (
            "properties",
            object(vec![
                (
                    "path",
                    object(vec![
                        ("type", Json::Array(vec![text("string"), text("null")])),
                        ("description", text("Path to file")),
                    ]),
                ),
                (
                    "lines",
                    object(vec![
                        ("type", text("array")),
                        ("items", object(vec![("type", text("integer")), ("minimum", number(0))])),
                    ]),
                ),
                (
                    "options",
                    object(vec![
                        ("type", text("object")),
                        (
                            "properties",
                            object(vec![(
                                "deep",
                                object(vec![("enum", Json::Array(vec![number(1), number(2)]))]),
                            )]),
                        ),
                    ]),
                ),
                ("skipped", Json::Bool(true)),
            ]),
        ),
    ]);
    let once = clean_parameters_for_gemini(&schema);
    let twice = clean_parameters_for_gemini(&once);
    assert_eq!(once, twice);
    assert_ne!(once, schema);
}

#[test]
fn clean_twice_differs_for_an_empty_type_list() {
    let schema = object(vec![(
        "properties",
        object(vec![("p", object(vec![("type", Json::Array(vec![]))]))]),
    )]);
    let once = clean_parameters_for_gemini(&schema);
    let twice = clean_parameters_for_gemini(&once);
    assert_ne!(once, twice);
    assert_eq!(
        twice.get("properties").unwrap().get("p"),
        Some(&object(vec![("type", text("string"))]))
    );
}

#[test]
fn clean_array_items_of_anything_but_an_object_is_string() {
    let string_items = object(vec![("type", text("string"))]);
    assert_eq!(clean_array_items(&Json::Null), string_items);
    assert_eq!(clean_array_items(&text("integer")), string_items);
    assert_eq!(clean_array_items(&Json::Array(vec![])), string_items);
    assert_eq!(clean_array_items(&object(vec![])), string_items);
    assert_eq!(
        clean_array_items(&object(vec![("type", number(7)), ("format", text("x"))])),
        object(vec![("type", number(7))])
    );
}

#[test]
fn get_finds_the_first_entry_under_a_key() {
    let value = object(vec![("a", number(1)), ("b", number(2)), ("a", number(3))]);
    assert_eq!(value.get("a"), Some(&number(1)));
    assert_eq!(value.get("b"), Some(&number(2)));
    assert_eq!(value.get("c"), None);
    assert_eq!(Json::Null.get("a"), None);
    assert_eq!(Json::Array(vec![number(1)]).get("a"), None);
}

#[test]
fn clone_copies_the_whole_value() {
    let value = object(vec![
        ("n", Json::Number(serde_json::Number::from(-3i64))),
        ("list", Json::Array(vec![Json::Null, Json::Bool(false), text("t")])),
        ("o", object(vec![("k", object(vec![]))])),
    ]);
    assert_eq!(value.clone(), value);
    assert!(Json::text("abc").is_text("abc"));
    assert!(!Json::text("abc").is_text("abd"));
    assert!(!Json::Null.is_text(""));
    assert_eq!(Member::new("k", Json::Null), Member { key: "k".to_string(), value: Json::Null });
}

#[test]
fn well_formed_values_have_distinct_keys_at_every_depth() {
    assert!(Json::Null.is_well_formed());
    assert!(number(1).is_well_formed());
    assert!(object(vec![]).is_well_formed());
    assert!(object(vec![("a", number(1)), ("b", number(2))]).is_well_formed());
    assert!(!object(vec![("a", number(1)), ("b", number(2)), ("a", number(3))]).is_well_formed());
    assert!(!Json::Array(vec![Json::Null, object(vec![("k", Json::Null), ("k", Json::Null)])])
        .is_well_formed());
    assert!(!object(vec![("outer", object(vec![("k", Json::Null), ("k", Json::Null)]))])
        .is_well_formed());
    assert!(object(vec![("k", object(vec![("k", Json::Array(vec![object(vec![("k", Json::Null)])]))]))])
        .is_well_formed());
}

#[test]
fn cleaning_keeps_well_formed_values_well_formed() {
    let schema = object(vec![
        ("required", Json::Array(vec![text("a")])),
        (
            "properties",
            object(vec![
                ("a", object(vec![("type", text("array")), ("items", object(vec![]))])),
                (
                    "b",
                    object(vec![
                        ("type", text("object")),
                        ("properties", object(vec![("c", object(vec![]))])),
                    ]),
                ),
            ]),
        ),
    ]);
    assert!(schema.is_well_formed());
    assert!(clean_parameters_for_gemini(&schema).is_well_formed());
    assert!(clean_array_items(&schema).is_well_formed());
}
