use vstd::prelude::*;
use std::str::FromStr;
use ipld_core::ipld::Ipld;
use serde_json::{Number, Value};
use crate::laws::lemma_translation_links_valid;
use crate::translate::{json_to_ipld, to_ipld_model};
use crate::laws::lemma_translation_within_depth;
use crate::value::{
    ipld_within_depth, json_within_depth, lemma_ipld_depth_monotone, links_valid, IpldModel,
    IpldValue, JsonModel, JsonValue,
};

verus! {

#[verifier::external_type_specification]
#[verifier::external_body]
pub struct ExIpld(Ipld);

#[verifier::external_type_specification]
#[verifier::external_body]
pub struct ExJsonTree(Value);

/// Whether a text is well-formed JSON: exactly the texts that
/// `serde_json::from_str` accepts for a generic tree value.
pub uninterp spec fn is_json_text(s: Seq<char>) -> bool;

/// The JSON value a well-formed text denotes, as `serde_json::from_str`
/// reads it (numbers split by the 64-bit rules the parser itself applies).
pub uninterp spec fn json_value_of(s: Seq<char>) -> JsonModel;

/// The canonical DAG-CBOR encoding of a linked-data value, the bytes that
/// `serde_ipld_dagcbor::to_vec` writes: a function of the value alone.
pub uninterp spec fn dag_cbor_of(v: IpldModel) -> Seq<u8>;

/// Whether a byte sequence is a well-formed DAG-CBOR document: exactly the
/// inputs that `serde_ipld_dagcbor::from_slice` accepts.
pub uninterp spec fn is_dag_cbor(b: Seq<u8>) -> bool;

/// Whether `serde_ipld_dagcbor::to_vec` accepts a linked-data value: it
/// rejects exactly the non-finite floats and the integers outside 64-bit
/// range, so acceptance is a function of the value alone.
pub uninterp spec fn dag_cbor_encodable(v: IpldModel) -> bool;

/// Whether the tree decoded from a well-formed DAG-CBOR document can be
/// reconstituted and printed as JSON text: a function of the bytes alone.
pub uninterp spec fn dag_json_ok(b: Seq<u8>) -> bool;

/// The JSON text printed for a well-formed, JSON-representable DAG-CBOR
/// document: a function of the bytes alone.
pub uninterp spec fn dag_json_text(b: Seq<u8>) -> Seq<char>;

/// The first characters of `s` are exactly `p`.
pub open spec fn has_prefix(s: Seq<char>, p: Seq<char>) -> bool {
    p.len() <= s.len() && s.subrange(0, p.len() as int) == p
}

/// The message prefix of a failure in the JSON parse stage.
pub open spec fn parse_stage_prefix() -> Seq<char> {
    "Failed to parse JSON: "@
}

/// The message prefix of a failure in the DAG-CBOR encode stage.
pub open spec fn encode_stage_prefix() -> Seq<char> {
    "Failed to encode to DAG-CBOR: "@
}

/// The message prefix of a failure in the DAG-CBOR decode stage.
pub open spec fn decode_stage_prefix() -> Seq<char> {
    "Failed to parse DAG-CBOR: "@
}

/// The message prefix of a failure in the JSON text production stage.
pub open spec fn json_stage_prefix() -> Seq<char> {
    "Failed to encode to JSON: "@
}

/// Mirrors each `serde_json::Value` variant onto `JsonValue`, one arm each:
/// a number is split by the parser's own 64-bit reading (`as_i64`, then
/// `as_u64`, else its printed decimal text), every other variant moves its
/// fields. Only `parse_json_text` below calls this; its contract covers the
/// composition.
#[verifier::external_body]
fn json_value_tree(v: Value) -> JsonValue {
    match v {
        Value::Null => JsonValue::Null,
        Value::Bool(b) => JsonValue::Bool(b),
        Value::Number(n) => match (n.as_i64(), n.as_u64()) {
            (Some(i), _) => JsonValue::Int(i),
            (None, Some(u)) => JsonValue::UInt(u),
            (None, None) => JsonValue::Float(n.to_string()),
        },
        Value::String(s) => JsonValue::Text(s),
        Value::Array(a) => JsonValue::List(a.into_iter().map(json_value_tree).collect()),
        Value::Object(o) => JsonValue::Object(o.into_iter().map(|e| (e.0, json_value_tree(e.1))).collect()),
    }
}

/// Relies on `serde_json::from_str`: it accepts exactly the well-formed JSON
/// texts, acceptance and the parsed tree depending on the characters alone,
/// and its error prints behind the parse-stage prefix. The parser limits
/// nesting to 128 containers, so every accepted value is comfortably within
/// 130 nodes of depth.
#[verifier::external_body]
fn parse_json_text(s: &str) -> (r: Result<JsonValue, String>)
    ensures
        r is Ok <==> is_json_text(s@),
        r matches Ok(v) ==> v.model() == json_value_of(s@),
        r is Ok ==> json_within_depth(json_value_of(s@), 130),
        r matches Err(m) ==> has_prefix(m@, parse_stage_prefix()),
{
    match serde_json::from_str::<Value>(s) {
        Ok(v) => Ok(json_value_tree(v)),
        Err(e) => Err(format!("Failed to parse JSON: {}", e)),
    }
}

/// Mirrors each `IpldValue` variant onto ipld-core's `Ipld`, one arm each: a
/// link's text reparses through `cid::Cid::from_str` (the callers guarantee
/// it parses), a float's text reparses as the floating-point number whose
/// printing produced it (text that does not parse, which the library never
/// hands in, encodes as zero), and map entries collect into the codec's
/// ordered map. Only `encode_ipld` below calls this.
#[verifier::external_body]
fn ipld_tree(v: &IpldValue) -> Ipld
    requires
        links_valid(v.model()),
{
    match v {
        IpldValue::Null => Ipld::Null,
        IpldValue::Bool(b) => Ipld::Bool(*b),
        IpldValue::Integer(i) => Ipld::Integer(*i as i128),
        IpldValue::Float(t) => Ipld::Float(t.parse().unwrap_or_default()),
        IpldValue::Text(s) => Ipld::String(s.clone()),
        IpldValue::Link(s) => Ipld::Link(ipld_core::cid::Cid::from_str(s).unwrap()),
        IpldValue::List(l) => Ipld::List(l.iter().map(ipld_tree).collect()),
        IpldValue::Mapping(m) => Ipld::Map(m.iter().map(|e| (e.0.clone(), ipld_tree(&e.1))).collect()),
    }
}

/// Relies on `serde_ipld_dagcbor::to_vec` with ipld-core's `Ipld`: it writes
/// the canonical DAG-CBOR bytes of the value — a function of the value alone,
/// with deterministic map-key order and tag 42 around every link. It accepts
/// a value exactly when every float is finite and every integer fits 64 bits
/// (allocation is assumed to succeed, as verified code assumes elsewhere),
/// and its error prints behind the encode-stage prefix. The decoder steps
/// into at most one nesting level per node and allows 256 levels, so the
/// bytes of a value within 200 nodes of depth decode back.
#[verifier::external_body]
fn encode_ipld(v: &IpldValue) -> (r: Result<Vec<u8>, String>)
    requires
        links_valid(v.model()),
    ensures
        r is Ok <==> dag_cbor_encodable(v.model()),
        r matches Ok(b) ==> b@ == dag_cbor_of(v.model()),
        r matches Ok(b) ==> (ipld_within_depth(v.model(), 200) ==> is_dag_cbor(b@)),
        r matches Err(m) ==> has_prefix(m@, encode_stage_prefix()),
{
    match serde_ipld_dagcbor::to_vec(&ipld_tree(v)) {
        Ok(b) => Ok(b),
        Err(e) => Err(format!("Failed to encode to DAG-CBOR: {}", e)),
    }
}

/// Relies on `serde_ipld_dagcbor::from_slice` with ipld-core's `Ipld` and on
/// `serde_json::to_string`: the decoder accepts exactly the well-formed
/// DAG-CBOR documents and yields a tree determined by the bytes alone (a
/// tag-42 link decodes to a parsed content identifier); the reconstitution
/// below and the printer are functions of that tree, so whether the whole
/// chain succeeds and the text it prints are functions of the bytes. A
/// malformed document fails behind the decode-stage prefix; a decoded tree
/// with no JSON form fails behind the JSON-stage prefix.
#[verifier::external_body]
fn decode_json_text(bytes: &[u8]) -> (r: Result<String, String>)
    ensures
        r is Ok <==> (is_dag_cbor(bytes@) && dag_json_ok(bytes@)),
        r matches Ok(t) ==> t@ == dag_json_text(bytes@),
        r matches Err(m) ==> (!is_dag_cbor(bytes@) ==> has_prefix(m@, decode_stage_prefix())),
        r matches Err(m) ==> (is_dag_cbor(bytes@) ==> has_prefix(m@, json_stage_prefix())),
{
    let tree = match serde_ipld_dagcbor::from_slice::<Ipld>(bytes) {
        Ok(v) => v,
        Err(e) => return Err(format!("Failed to parse DAG-CBOR: {}", e)),
    };
    match ipld_to_tree(tree) {
        Ok(v) => serde_json::to_string(&v).map_err(|e| format!("Failed to encode to JSON: {}", e)),
        Err(m) => Err(m),
    }
}

/// Mirrors a decoded integer onto a JSON number exactly when it fits 64
/// bits, the same rule serde_json's own decoding applies; a larger one fails
/// behind the JSON-stage prefix.
#[verifier::external_body]
fn integer_tree(i: i128) -> (r: Result<Value, String>)
    ensures
        r matches Err(m) ==> has_prefix(m@, json_stage_prefix()),
{
    i64::try_from(i).map(Value::from).or_else(|_| u64::try_from(i).map(Value::from)).map_err(
        |_| "Failed to encode to JSON: number out of 64-bit range".to_string(),
    )
}

/// Mirrors a decoded tree onto a JSON tree the way serde_json's own decoding
/// rules read foreign data: an integer becomes a JSON number only if it fits
/// 64 bits, a non-finite float becomes null, a byte string has no JSON form,
/// and a link becomes its canonical text through `cid::Cid`'s display form.
/// Every failure prints behind the JSON-stage prefix. Only `decode_json_text`
/// above calls this.
#[verifier::external_body]
fn ipld_to_tree(v: Ipld) -> (r: Result<Value, String>)
    ensures
        r matches Err(m) ==> has_prefix(m@, json_stage_prefix()),
{
    match v {
        Ipld::Null => Ok(Value::Null),
        Ipld::Bool(b) => Ok(Value::Bool(b)),
        Ipld::Integer(i) => integer_tree(i),
        Ipld::Float(f) => Ok(Number::from_f64(f).map_or(Value::Null, Value::Number)),
        Ipld::String(s) => Ok(Value::String(s)),
        Ipld::Bytes(_) => Err("Failed to encode to JSON: bytes have no JSON form".to_string()),
        Ipld::Link(c) => Ok(Value::String(c.to_string())),
        Ipld::List(l) => Ok(Value::Array(l.into_iter().map(ipld_to_tree).collect::<Result<_, _>>()?)),
        Ipld::Map(m) => map_tree(m),
    }
}

/// Mirrors the entries of a decoded map onto a JSON object, in order, each
/// value through `ipld_to_tree`; a failure prints behind the JSON-stage
/// prefix.
#[verifier::external_body]
fn map_tree(m: std::collections::BTreeMap<String, Ipld>) -> (r: Result<Value, String>)
    ensures
        r matches Err(e) ==> has_prefix(e@, json_stage_prefix()),
{
    let entries: Result<_, String> = m.into_iter().map(|e| Ok((e.0, ipld_to_tree(e.1)?))).collect();
    Ok(Value::Object(entries?))
}


/// Encodes a JSON text as canonical DAG-CBOR: parse the text, translate the
/// tree with the link-promotion rules, then encode through the external
/// codec. Succeeds exactly when the text is JSON and the encoder accepts the
/// translated value, and then returns its canonical bytes, which the decoder
/// accepts back. Text that is not JSON fails with a parse-stage message; a
/// value the encoder rejects fails with an encode-stage message.
pub fn encode_dag_cbor(json: &str) -> (r: Result<Vec<u8>, String>)
    ensures
        r is Ok <==> (is_json_text(json@) && dag_cbor_encodable(
            to_ipld_model(json_value_of(json@)),
        )),
        !is_json_text(json@) ==> (r matches Err(m) && has_prefix(m@, parse_stage_prefix())),
        is_json_text(json@) ==> (match r {
            Ok(b) => b@ == dag_cbor_of(to_ipld_model(json_value_of(json@))),
            Err(m) => has_prefix(m@, encode_stage_prefix()),
        }),
        r matches Ok(b) ==> is_dag_cbor(b@),
{
    match parse_json_text(json) {
        Ok(v) => {
            let ipld = json_to_ipld(&v);
            proof {
                lemma_translation_links_valid(v.model());
                lemma_translation_within_depth(json_value_of(json@), 130);
                lemma_ipld_depth_monotone(to_ipld_model(json_value_of(json@)), 131, 200);
            }
            encode_ipld(&ipld)
        },
        Err(m) => Err(m),
    }
}

/// Decodes DAG-CBOR bytes back to JSON text through the external codec:
/// links come back in their textual identifier form and no link promotion is
/// re-applied, so decoding is deliberately not the inverse of encoding.
/// Succeeds exactly when the bytes are well-formed DAG-CBOR whose decoded
/// tree has a JSON form, and then returns the text that tree prints as.
/// Bytes that are not DAG-CBOR fail with a decode-stage message; a decoded
/// value with no JSON form fails with a JSON-stage message.
pub fn decode_dag_cbor(bytes: &[u8]) -> (r: Result<String, String>)
    ensures
        r is Ok <==> (is_dag_cbor(bytes@) && dag_json_ok(bytes@)),
        r matches Ok(t) ==> t@ == dag_json_text(bytes@),
        !is_dag_cbor(bytes@) ==> (r matches Err(m) && has_prefix(m@, decode_stage_prefix())),
        (is_dag_cbor(bytes@) && !dag_json_ok(bytes@)) ==> (r matches Err(m) && has_prefix(
            m@,
            json_stage_prefix(),
        )),
{
    decode_json_text(bytes)
}

} // verus!
