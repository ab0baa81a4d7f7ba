use dagcbor_json::{decode_dag_cbor, encode_dag_cbor};

// A well-known, syntactically valid version-0 content identifier (base58).
const CID_V0: &str = "QmYwAPJzv5CZsnA625s3Xf2nemtYgPpHdWEz79ojWnPbdG";
// A well-known, syntactically valid version-1 content identifier (base32).
const CID_V1: &str = "bafybeigdyrzt5sfp7udm7hu76uh7y26nf3efuylqabf3oclgtqy55fbzdi";

fn round_trip(text: &str) -> String {
    let bytes = encode_dag_cbor(text).expect("encoding should succeed");
    decode_dag_cbor(&bytes).expect("decoding should succeed")
}

#[test]
fn round_trip_plain_object() {
    let text = r#"{"a":1,"b":[true,null,"x"]}"#;
    assert_eq!(round_trip(text), text);
}

#[test]
fn round_trip_empty_object() {
    assert_eq!(round_trip("{}"), "{}");
}

#[test]
fn round_trip_empty_list() {
    assert_eq!(round_trip("[]"), "[]");
}

#[test]
fn round_trip_scalars() {
    assert_eq!(round_trip("null"), "null");
    assert_eq!(round_trip("true"), "true");
    assert_eq!(round_trip("false"), "false");
    assert_eq!(round_trip("42"), "42");
    assert_eq!(round_trip("-7"), "-7");
    assert_eq!(round_trip("\"hello\""), "\"hello\"");
}

#[test]
fn round_trip_floats() {
    assert_eq!(round_trip("1.5"), "1.5");
    assert_eq!(round_trip("-0.25"), "-0.25");
    // The printer writes the exponent sign back explicitly.
    assert_eq!(round_trip("1e30"), "1e+30");
}

#[test]
fn round_trip_key_order_is_normalized() {
    // Canonical DAG-CBOR orders keys by length first, JSON text printing by
    // bytes; equality holds up to key order.
    let decoded = round_trip(r#"{"aa":2,"b":1}"#);
    assert_eq!(decoded, r#"{"aa":2,"b":1}"#);
}

#[test]
fn exact_encodings() {
    assert_eq!(encode_dag_cbor("{}").unwrap(), vec![0xa0]);
    assert_eq!(encode_dag_cbor("[]").unwrap(), vec![0x80]);
    assert_eq!(encode_dag_cbor("1").unwrap(), vec![0x01]);
    assert_eq!(encode_dag_cbor("true").unwrap(), vec![0xf5]);
}

#[test]
fn identifier_string_round_trips_to_itself() {
    let text = format!("\"{}\"", CID_V0);
    assert_eq!(round_trip(&text), text);
    let text = format!("\"{}\"", CID_V1);
    assert_eq!(round_trip(&text), text);
}

#[test]
fn identifier_string_encodes_as_tagged_link() {
    let text = format!("\"{}\"", CID_V0);
    let bytes = encode_dag_cbor(&text).unwrap();
    // The reserved CBOR tag for links is 42, encoded as 0xd8 0x2a.
    assert_eq!(bytes[0], 0xd8);
    assert_eq!(bytes[1], 0x2a);
    // A plain string encodes without any tag.
    let plain = encode_dag_cbor("\"hello\"").unwrap();
    assert_ne!(plain[0], 0xd8);
}

#[test]
fn cid_field_round_trips_to_tagged_shape() {
    let text = format!(r#"{{"cid":"{}"}}"#, CID_V0);
    let expected = format!(r#"{{"cid":{{"42":"{}"}}}}"#, CID_V0);
    assert_eq!(round_trip(&text), expected);
}

#[test]
fn cid_field_with_plain_string_round_trips_unchanged() {
    let text = r#"{"cid":"not-an-id"}"#;
    assert_eq!(round_trip(text), text);
}

#[test]
fn max_signed_integer_round_trips_exactly() {
    assert_eq!(round_trip("9223372036854775807"), "9223372036854775807");
}

#[test]
fn integer_one_beyond_signed_range_degrades() {
    // One past the largest signed 64-bit value degrades through the lossy
    // conversion to the largest signed value rather than failing.
    assert_eq!(round_trip("9223372036854775808"), "9223372036854775807");
}

#[test]
fn malformed_json_fails_with_parse_stage_message() {
    let err = encode_dag_cbor("{not json").unwrap_err();
    assert!(err.starts_with("Failed to parse JSON: "), "{}", err);
}

#[test]
fn malformed_bytes_fail_with_codec_stage_message() {
    // A truncated array: the header promises two elements, one follows.
    let err = decode_dag_cbor(&[0x82, 0x01]).unwrap_err();
    assert!(err.starts_with("Failed to parse DAG-CBOR: "), "{}", err);
    let err = decode_dag_cbor(&[0xff]).unwrap_err();
    assert!(err.starts_with("Failed to parse DAG-CBOR: "), "{}", err);
}

#[test]
fn byte_string_has_no_json_form() {
    // A one-byte CBOR byte string decodes, but cannot be printed as JSON.
    let err = decode_dag_cbor(&[0x41, 0x00]).unwrap_err();
    assert!(err.starts_with("Failed to encode to JSON: "), "{}", err);
}

#[test]
fn overly_nested_text_fails_at_the_parse_stage() {
    // The JSON parser bounds nesting (128 containers), which is what keeps
    // every successfully encoded document within the decoder's own bound.
    let deep = format!("{}1{}", "[".repeat(200), "]".repeat(200));
    let err = encode_dag_cbor(&deep).unwrap_err();
    assert!(err.starts_with("Failed to parse JSON: "), "{}", err);
    // Nesting within the parser's bound goes through and round-trips.
    let ok = format!("{}1{}", "[".repeat(100), "]".repeat(100));
    assert_eq!(round_trip(&ok), ok);
}

#[test]
fn nested_links_round_trip() {
    let text = format!(r#"[{{"deep":["{}"]}}]"#, CID_V1);
    assert_eq!(round_trip(&text), text);
}
