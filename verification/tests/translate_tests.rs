use dagcbor_json::{json_to_ipld, IpldValue, JsonValue};

const CID_V0: &str = "QmYwAPJzv5CZsnA625s3Xf2nemtYgPpHdWEz79ojWnPbdG";

#[test]
fn scalars_copy_across() {
    assert_eq!(json_to_ipld(&JsonValue::Null), IpldValue::Null);
    assert_eq!(json_to_ipld(&JsonValue::Bool(true)), IpldValue::Bool(true));
    assert_eq!(json_to_ipld(&JsonValue::Int(-5)), IpldValue::Integer(-5));
    assert_eq!(
        json_to_ipld(&JsonValue::Float("2.5".to_string())),
        IpldValue::Float("2.5".to_string()),
    );
}

#[test]
fn identifier_text_is_promoted_to_link() {
    let v = JsonValue::Text(CID_V0.to_string());
    assert_eq!(json_to_ipld(&v), IpldValue::Link(CID_V0.to_string()));
}

#[test]
fn plain_text_stays_text() {
    let v = JsonValue::Text("hello".to_string());
    assert_eq!(json_to_ipld(&v), IpldValue::Text("hello".to_string()));
}

#[test]
fn unsigned_overflow_clamps_to_max_signed() {
    assert_eq!(
        json_to_ipld(&JsonValue::UInt(u64::MAX)),
        IpldValue::Integer(i64::MAX),
    );
    assert_eq!(
        json_to_ipld(&JsonValue::UInt(9223372036854775808)),
        IpldValue::Integer(9223372036854775807),
    );
    assert_eq!(json_to_ipld(&JsonValue::UInt(7)), IpldValue::Integer(7));
}

#[test]
fn cid_entry_becomes_tagged_map() {
    let v = JsonValue::Object(vec![(
        "cid".to_string(),
        JsonValue::Text(CID_V0.to_string()),
    )]);
    let expected = IpldValue::Mapping(vec![(
        "cid".to_string(),
        IpldValue::Mapping(vec![("42".to_string(), IpldValue::Link(CID_V0.to_string()))]),
    )]);
    assert_eq!(json_to_ipld(&v), expected);
}

#[test]
fn cid_entry_with_plain_string_is_not_tagged() {
    let v = JsonValue::Object(vec![(
        "cid".to_string(),
        JsonValue::Text("not-an-id".to_string()),
    )]);
    let expected = IpldValue::Mapping(vec![(
        "cid".to_string(),
        IpldValue::Text("not-an-id".to_string()),
    )]);
    assert_eq!(json_to_ipld(&v), expected);
}

#[test]
fn cid_entry_with_non_string_recurses_normally() {
    let v = JsonValue::Object(vec![("cid".to_string(), JsonValue::Int(3))]);
    let expected = IpldValue::Mapping(vec![("cid".to_string(), IpldValue::Integer(3))]);
    assert_eq!(json_to_ipld(&v), expected);
}

#[test]
fn other_keys_recurse_even_with_identifier_values() {
    // The promotion heuristic still applies under any key; only the tagging
    // shape is reserved for the key "cid".
    let v = JsonValue::Object(vec![(
        "other".to_string(),
        JsonValue::Text(CID_V0.to_string()),
    )]);
    let expected = IpldValue::Mapping(vec![(
        "other".to_string(),
        IpldValue::Link(CID_V0.to_string()),
    )]);
    assert_eq!(json_to_ipld(&v), expected);
}

#[test]
fn lists_translate_elementwise_in_order() {
    let v = JsonValue::List(vec![
        JsonValue::Int(1),
        JsonValue::Text(CID_V0.to_string()),
        JsonValue::Null,
    ]);
    let expected = IpldValue::List(vec![
        IpldValue::Integer(1),
        IpldValue::Link(CID_V0.to_string()),
        IpldValue::Null,
    ]);
    assert_eq!(json_to_ipld(&v), expected);
}
