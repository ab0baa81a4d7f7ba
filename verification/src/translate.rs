use vstd::prelude::*;
use crate::ident::{is_cid_text, is_valid_cid};
use crate::value::{
    ipld_entries_model, ipld_seq_model, lemma_ipld_entries_model, lemma_ipld_seq_model,
    lemma_json_entries_model, lemma_json_seq_model, json_entries_model, json_entry_model,
    json_seq_model, IpldModel, IpldValue, JsonModel, JsonValue,
};

verus! {

/// The translation policy for one entry of a JSON object. The single reserved
/// key is `"cid"`: when its value is a string holding a syntactically valid
/// content identifier, the entry's value becomes a one-entry map whose sole
/// key is the literal tag number `"42"` and whose value is the link — the
/// explicitly tagged link shape. Every other entry is translated by the
/// ordinary rules.
pub open spec fn entry_model(e: (Seq<char>, JsonModel)) -> IpldModel
    decreases e, 2int,
{
    match e.1 {
        JsonModel::Text(s) => if e.0 == "cid"@ && is_cid_text(s) {
            IpldModel::Mapping(seq![("42"@, IpldModel::Link(s))])
        } else {
            to_ipld_model(e.1)
        },
        _ => to_ipld_model(e.1),
    }
}

/// The translation of a JSON value into a linked-data value.
///
/// Null, booleans, signed integers and floats copy across. A whole number
/// above signed 64-bit range clamps to the largest signed value, the same
/// silent degradation the lossy float detour of a 64-bit unsigned number
/// produces. A string that is a syntactically valid content identifier is
/// promoted to a link; any other string stays text. Lists translate
/// elementwise in order; objects keep every key in order, each entry under
/// the `entry_model` policy. The translation is total: no input is rejected.
pub open spec fn to_ipld_model(j: JsonModel) -> IpldModel
    decreases j, 0int,
{
    match j {
        JsonModel::Null => IpldModel::Null,
        JsonModel::Bool(b) => IpldModel::Bool(b),
        JsonModel::Int(i) => IpldModel::Integer(i),
        JsonModel::UInt(u) => IpldModel::Integer(
            if u > i64::MAX as int {
                i64::MAX as int
            } else {
                u
            },
        ),
        JsonModel::Float(t) => IpldModel::Float(t),
        JsonModel::Text(s) => if is_cid_text(s) {
            IpldModel::Link(s)
        } else {
            IpldModel::Text(s)
        },
        JsonModel::List(l) => IpldModel::List(seq_to_ipld(l)),
        JsonModel::Object(o) => IpldModel::Mapping(entries_to_ipld(o)),
    }
}

/// Elementwise translation of a sequence of JSON values.
pub open spec fn seq_to_ipld(l: Seq<JsonModel>) -> Seq<IpldModel>
    decreases l, 1int,
{
    if l.len() == 0 {
        Seq::empty()
    } else {
        seq![to_ipld_model(l.first())] + seq_to_ipld(l.drop_first())
    }
}

/// Entrywise translation of a sequence of JSON object entries: every key is
/// kept in order, every value goes through the `entry_model` policy.
pub open spec fn entries_to_ipld(o: Seq<(Seq<char>, JsonModel)>) -> Seq<(Seq<char>, IpldModel)>
    decreases o, 1int,
{
    if o.len() == 0 {
        Seq::empty()
    } else {
        seq![(o.first().0, entry_model(o.first()))] + entries_to_ipld(o.drop_first())
    }
}

pub proof fn lemma_seq_to_ipld(l: Seq<JsonModel>)
    ensures
        seq_to_ipld(l).len() == l.len(),
        forall|i: int| 0 <= i < l.len() ==> seq_to_ipld(l)[i] == to_ipld_model(l[i]),
    decreases l,
{
    if l.len() > 0 {
        lemma_seq_to_ipld(l.drop_first());
        assert forall|i: int| 0 <= i < l.len() implies seq_to_ipld(l)[i] == to_ipld_model(l[i]) by {
            if i > 0 {
                assert(seq_to_ipld(l)[i] == seq_to_ipld(l.drop_first())[i - 1]);
                assert(l.drop_first()[i - 1] == l[i]);
            }
        }
    }
}

pub proof fn lemma_entries_to_ipld(o: Seq<(Seq<char>, JsonModel)>)
    ensures
        entries_to_ipld(o).len() == o.len(),
        forall|i: int|
            0 <= i < o.len() ==> entries_to_ipld(o)[i] == (o[i].0, entry_model(o[i])),
    decreases o,
{
    if o.len() > 0 {
        lemma_entries_to_ipld(o.drop_first());
        assert forall|i: int|
            0 <= i < o.len() implies entries_to_ipld(o)[i] == (o[i].0, entry_model(o[i])) by {
            if i > 0 {
                assert(entries_to_ipld(o)[i] == entries_to_ipld(o.drop_first())[i - 1]);
                assert(o.drop_first()[i - 1] == o[i]);
            }
        }
    }
}

/// Translates one object entry, as `entry_model` describes.
fn translate_entry(e: &(String, JsonValue)) -> (r: IpldValue)
    ensures
        r.model() == entry_model((e.0@, e.1.model())),
    decreases json_entry_model(*e), 2int,
{
    let reserved: String = "cid".to_owned();
    if e.0 == reserved {
        if let JsonValue::Text(s) = &e.1 {
            if is_valid_cid(s.as_str()) {
                let mut inner: Vec<(String, IpldValue)> = Vec::new();
                inner.push(("42".to_owned(), IpldValue::Link(s.clone())));
                let r = IpldValue::Mapping(inner);
                proof {
                    lemma_ipld_entries_model(inner@);
                    assert(ipld_entries_model(inner@) =~= seq![("42"@, IpldModel::Link(s@))]);
                }
                return r;
            }
        }
    }
    proof {
        assert(decreases_to!(json_entry_model(*e) => json_entry_model(*e).1));
    }
    json_to_ipld(&e.1)
}

/// Translates every element of a list, in order.
fn translate_list(l: &Vec<JsonValue>) -> (r: Vec<IpldValue>)
    ensures
        ipld_seq_model(r@) == seq_to_ipld(json_seq_model(l@)),
    decreases json_seq_model(l@), 1int,
{
    let mut out: Vec<IpldValue> = Vec::new();
    let mut idx: usize = 0;
    while idx < l.len()
        invariant
            idx <= l.len(),
            out.len() == idx,
            forall|k: int|
                0 <= k < idx ==> (#[trigger] out@[k]).model() == to_ipld_model(l@[k].model()),
        decreases l.len() - idx,
    {
        proof {
            lemma_json_seq_model(l@);
            let ghost s = json_seq_model(l@);
            assert(s[idx as int] == l@[idx as int].model());
            assert(decreases_to!(s => s[idx as int]));
        }
        let child = json_to_ipld(&l[idx]);
        out.push(child);
        idx += 1;
    }
    proof {
        lemma_json_seq_model(l@);
        lemma_seq_to_ipld(json_seq_model(l@));
        lemma_ipld_seq_model(out@);
        assert(ipld_seq_model(out@) =~= seq_to_ipld(json_seq_model(l@)));
    }
    out
}

/// Translates every entry of an object, in order.
fn translate_entries(o: &Vec<(String, JsonValue)>) -> (r: Vec<(String, IpldValue)>)
    ensures
        ipld_entries_model(r@) == entries_to_ipld(json_entries_model(o@)),
    decreases json_entries_model(o@), 1int,
{
    let mut out: Vec<(String, IpldValue)> = Vec::new();
    let mut idx: usize = 0;
    while idx < o.len()
        invariant
            idx <= o.len(),
            out.len() == idx,
            forall|k: int|
                0 <= k < idx ==> (#[trigger] out@[k]).0@ == o@[k].0@ && out@[k].1.model()
                    == entry_model((o@[k].0@, o@[k].1.model())),
        decreases o.len() - idx,
    {
        let pair = &o[idx];
        proof {
            lemma_json_entries_model(o@);
            let ghost s = json_entries_model(o@);
            assert(s[idx as int] == json_entry_model(o@[idx as int]));
            assert(decreases_to!(s => s[idx as int]));
        }
        let translated = translate_entry(pair);
        out.push((pair.0.clone(), translated));
        idx += 1;
    }
    proof {
        lemma_json_entries_model(o@);
        lemma_entries_to_ipld(json_entries_model(o@));
        lemma_ipld_entries_model(out@);
        assert(ipld_entries_model(out@) =~= entries_to_ipld(json_entries_model(o@)));
    }
    out
}

/// Converts a JSON tree into the linked-data tree that the binary codec
/// encodes, applying the string-to-link promotion and the reserved `"cid"`
/// field convention. Total over all JSON values; no error is possible.
pub fn json_to_ipld(v: &JsonValue) -> (r: IpldValue)
    ensures
        r.model() == to_ipld_model(v.model()),
    decreases v.model(), 0int,
{
    match v {
        JsonValue::Null => IpldValue::Null,
        JsonValue::Bool(b) => IpldValue::Bool(*b),
        JsonValue::Int(i) => IpldValue::Integer(*i),
        JsonValue::UInt(u) => if *u > i64::MAX as u64 {
            IpldValue::Integer(i64::MAX)
        } else {
            IpldValue::Integer(*u as i64)
        },
        JsonValue::Float(t) => IpldValue::Float(t.clone()),
        JsonValue::Text(s) => if is_valid_cid(s.as_str()) {
            IpldValue::Link(s.clone())
        } else {
            IpldValue::Text(s.clone())
        },
        JsonValue::List(l) => {
            proof {
                assert(decreases_to!(v.model() => json_seq_model(l@)));
            }
            IpldValue::List(translate_list(l))
        },
        JsonValue::Object(o) => {
            proof {
                assert(decreases_to!(v.model() => json_entries_model(o@)));
            }
            IpldValue::Mapping(translate_entries(o))
        },
    }
}

} // verus!

