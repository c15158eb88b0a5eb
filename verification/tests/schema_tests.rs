use ghosty_launch::schema::{sanitize_for_kimi, Json};

fn text(s: &str) -> Json {
    Json::Str(s.to_string())
}

fn obj(members: Vec<(&str, Json)>) -> Json {
    Json::Object(members.into_iter().map(|(k, v)| (k.to_string(), v)).collect())
}

fn get<'a>(j: &'a Json, key: &str) -> Option<&'a Json> {
    match j {
        Json::Object(m) => m.iter().find(|(k, _)| k == key).map(|(_, v)| v),
        _ => None,
    }
}

fn at(j: &Json, i: usize) -> &Json {
    match j {
        Json::Array(v) => &v[i],
        _ => panic!("not an array"),
    }
}

fn is_text(j: Option<&Json>, s: &str) -> bool {
    matches!(j, Some(Json::Str(t)) if t == s)
}

#[test]
fn kimi_sanitize_pushes_type_into_anyof_items() {
    let mut schema = obj(vec![
        ("type", text("object")),
        (
            "properties",
            obj(vec![(
                "handle",
                obj(vec![
                    ("type", text("object")),
                    (
                        "anyOf",
                        Json::Array(vec![
                            obj(vec![("type", text("string"))]),
                            obj(vec![("type", text("null"))]),
                        ]),
                    ),
                ]),
            )]),
        ),
    ]);
    sanitize_for_kimi(&mut schema);
    let handle = get(get(&schema, "properties").unwrap(), "handle").unwrap();
    assert!(get(handle, "type").is_none(), "root type should be removed");
    let any_of = get(handle, "anyOf").unwrap();
    assert!(is_text(get(at(any_of, 0), "type"), "string"));
    assert!(is_text(get(at(any_of, 1), "type"), "null"));
}

#[test]
fn kimi_sanitize_injects_missing_anyof_item_types() {
    let mut schema = obj(vec![
        ("type", text("object")),
        (
            "anyOf",
            Json::Array(vec![
                obj(vec![("properties", obj(vec![("path", obj(vec![("type", text("string"))]))]))]),
                obj(vec![
                    ("required", Json::Array(vec![text("url")])),
                    ("properties", obj(vec![("url", obj(vec![("type", text("string"))]))])),
                ]),
            ]),
        ),
    ]);

    sanitize_for_kimi(&mut schema);

    assert!(get(&schema, "type").is_none(), "parent type should be removed");
    let any_of = get(&schema, "anyOf").unwrap();
    assert!(is_text(get(at(any_of, 0), "type"), "object"));
    assert!(is_text(get(at(any_of, 1), "type"), "object"));
}

#[test]
fn kimi_sanitize_preserves_type_injected_into_nested_anyof_item() {
    let mut schema = obj(vec![
        ("type", text("object")),
        (
            "anyOf",
            Json::Array(vec![obj(vec![(
                "anyOf",
                Json::Array(vec![obj(vec![(
                    "properties",
                    obj(vec![("path", obj(vec![("type", text("string"))]))]),
                )])]),
            )])]),
        ),
    ]);

    sanitize_for_kimi(&mut schema);

    let outer_item = at(get(&schema, "anyOf").unwrap(), 0);
    assert!(is_text(get(outer_item, "type"), "object"));
}

#[test]
fn kimi_sanitize_leaves_plain_schema_alone() {
    let mut schema = obj(vec![
        ("type", text("object")),
        ("properties", obj(vec![("n", obj(vec![("type", text("number"))]))])),
        ("required", Json::Array(vec![text("n")])),
    ]);
    sanitize_for_kimi(&mut schema);
    assert!(is_text(get(&schema, "type"), "object"));
    let n = get(get(&schema, "properties").unwrap(), "n").unwrap();
    assert!(is_text(get(n, "type"), "number"));
    assert!(matches!(get(&schema, "required"), Some(Json::Array(v)) if v.len() == 1));
}

#[test]
fn kimi_sanitize_pushes_into_oneof_and_walks_arrays() {
    let mut schema = Json::Array(vec![obj(vec![
        ("type", text("string")),
        ("oneOf", Json::Array(vec![obj(vec![("format", text("uri"))]), Json::Null])),
    ])]);
    sanitize_for_kimi(&mut schema);
    let item = at(&schema, 0);
    assert!(get(item, "type").is_none());
    let one_of = get(item, "oneOf").unwrap();
    assert!(is_text(get(at(one_of, 0), "type"), "string"));
    assert!(matches!(at(one_of, 1), Json::Null));
}

#[test]
fn kimi_sanitize_keeps_type_when_alternatives_are_absent() {
    let mut schema = obj(vec![("type", text("object")), ("allOf", Json::Array(vec![]))]);
    sanitize_for_kimi(&mut schema);
    assert!(is_text(get(&schema, "type"), "object"));
}
