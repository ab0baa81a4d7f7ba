use vstd::prelude::*;
use crate::ident::is_cid_text;

verus! {

/// A JSON document as a tree of plain values, the textual interchange form.
///
/// Numbers are split the way the JSON parser reports them: `Int` for a whole
/// number in signed 64-bit range, `UInt` for a whole number above it that
/// still fits unsigned 64 bits, and `Float` for everything else. A `Float`
/// carries the number's decimal text as the parser printed it, so the value
/// passes through this crate without any floating-point arithmetic here.
#[derive(Debug, PartialEq, Eq)]
pub enum JsonValue {
    Null,
    Bool(bool),
    Int(i64),
    UInt(u64),
    Float(String),
    Text(String),
    List(Vec<JsonValue>),
    Object(Vec<(String, JsonValue)>),
}

/// The mathematical model of a `JsonValue`.
pub ghost enum JsonModel {
    Null,
    Bool(bool),
    Int(int),
    UInt(int),
    Float(Seq<char>),
    Text(Seq<char>),
    List(Seq<JsonModel>),
    Object(Seq<(Seq<char>, JsonModel)>),
}

impl JsonValue {
    /// The value this tree stands for, with every string as a sequence of
    /// characters and every container as a sequence.
    pub open spec fn model(&self) -> JsonModel
        decreases self, 0int,
    {
        match self {
            JsonValue::Null => JsonModel::Null,
            JsonValue::Bool(b) => JsonModel::Bool(*b),
            JsonValue::Int(i) => JsonModel::Int(*i as int),
            JsonValue::UInt(u) => JsonModel::UInt(*u as int),
            JsonValue::Float(t) => JsonModel::Float(t@),
            JsonValue::Text(s) => JsonModel::Text(s@),
            JsonValue::List(l) => JsonModel::List(json_seq_model(l@)),
            JsonValue::Object(o) => JsonModel::Object(json_entries_model(o@)),
        }
    }
}

/// The models of a sequence of JSON values, in order.
pub open spec fn json_seq_model(l: Seq<JsonValue>) -> Seq<JsonModel>
    decreases l, 1int,
{
    if l.len() == 0 {
        Seq::empty()
    } else {
        seq![l.first().model()] + json_seq_model(l.drop_first())
    }
}

/// The models of a sequence of JSON object entries, in order.
pub open spec fn json_entries_model(o: Seq<(String, JsonValue)>) -> Seq<(Seq<char>, JsonModel)>
    decreases o, 1int,
{
    if o.len() == 0 {
        Seq::empty()
    } else {
        seq![json_entry_model(o.first())] + json_entries_model(o.drop_first())
    }
}

/// The model of one JSON object entry.
pub open spec fn json_entry_model(e: (String, JsonValue)) -> (Seq<char>, JsonModel)
    decreases e, 2int,
{
    (e.0@, e.1.model())
}

pub proof fn lemma_json_seq_model(l: Seq<JsonValue>)
    ensures
        json_seq_model(l).len() == l.len(),
        forall|i: int| 0 <= i < l.len() ==> json_seq_model(l)[i] == l[i].model(),
    decreases l,
{
    if l.len() > 0 {
        lemma_json_seq_model(l.drop_first());
        assert forall|i: int| 0 <= i < l.len() implies json_seq_model(l)[i] == l[i].model() by {
            if i > 0 {
                assert(json_seq_model(l)[i] == json_seq_model(l.drop_first())[i - 1]);
                assert(l.drop_first()[i - 1] == l[i]);
            }
        }
    }
}

pub proof fn lemma_json_entries_model(o: Seq<(String, JsonValue)>)
    ensures
        json_entries_model(o).len() == o.len(),
        forall|i: int| 0 <= i < o.len() ==> json_entries_model(o)[i] == json_entry_model(o[i]),
    decreases o,
{
    if o.len() > 0 {
        lemma_json_entries_model(o.drop_first());
        assert forall|i: int|
            0 <= i < o.len() implies json_entries_model(o)[i] == json_entry_model(o[i]) by {
            if i > 0 {
                assert(json_entries_model(o)[i] == json_entries_model(o.drop_first())[i - 1]);
                assert(o.drop_first()[i - 1] == o[i]);
            }
        }
    }
}

/// A linked-data tree, the model that the binary codec encodes. It differs
/// from `JsonValue` in exactly one way: it has a `Link` variant, a parsed
/// content identifier kept in its textual form, which the codec encodes as a
/// typed binary link rather than as a string.
#[derive(Debug, PartialEq, Eq)]
pub enum IpldValue {
    Null,
    Bool(bool),
    Integer(i64),
    Float(String),
    Text(String),
    Link(String),
    List(Vec<IpldValue>),
    Mapping(Vec<(String, IpldValue)>),
}

/// The mathematical model of an `IpldValue`.
pub ghost enum IpldModel {
    Null,
    Bool(bool),
    Integer(int),
    Float(Seq<char>),
    Text(Seq<char>),
    Link(Seq<char>),
    List(Seq<IpldModel>),
    Mapping(Seq<(Seq<char>, IpldModel)>),
}

impl IpldValue {
    /// The value this tree stands for.
    pub open spec fn model(&self) -> IpldModel
        decreases self, 0int,
    {
        match self {
            IpldValue::Null => IpldModel::Null,
            IpldValue::Bool(b) => IpldModel::Bool(*b),
            IpldValue::Integer(i) => IpldModel::Integer(*i as int),
            IpldValue::Float(t) => IpldModel::Float(t@),
            IpldValue::Text(s) => IpldModel::Text(s@),
            IpldValue::Link(s) => IpldModel::Link(s@),
            IpldValue::List(l) => IpldModel::List(ipld_seq_model(l@)),
            IpldValue::Mapping(m) => IpldModel::Mapping(ipld_entries_model(m@)),
        }
    }
}

/// The models of a sequence of linked-data values, in order.
pub open spec fn ipld_seq_model(l: Seq<IpldValue>) -> Seq<IpldModel>
    decreases l, 1int,
{
    if l.len() == 0 {
        Seq::empty()
    } else {
        seq![l.first().model()] + ipld_seq_model(l.drop_first())
    }
}

/// The models of a sequence of linked-data map entries, in order.
pub open spec fn ipld_entries_model(m: Seq<(String, IpldValue)>) -> Seq<(Seq<char>, IpldModel)>
    decreases m, 1int,
{
    if m.len() == 0 {
        Seq::empty()
    } else {
        seq![ipld_entry_model(m.first())] + ipld_entries_model(m.drop_first())
    }
}

/// The model of one linked-data map entry.
pub open spec fn ipld_entry_model(e: (String, IpldValue)) -> (Seq<char>, IpldModel)
    decreases e, 2int,
{
    (e.0@, e.1.model())
}

pub proof fn lemma_ipld_seq_model(l: Seq<IpldValue>)
    ensures
        ipld_seq_model(l).len() == l.len(),
        forall|i: int| 0 <= i < l.len() ==> ipld_seq_model(l)[i] == l[i].model(),
    decreases l,
{
    if l.len() > 0 {
        lemma_ipld_seq_model(l.drop_first());
        assert forall|i: int| 0 <= i < l.len() implies ipld_seq_model(l)[i] == l[i].model() by {
            if i > 0 {
                assert(ipld_seq_model(l)[i] == ipld_seq_model(l.drop_first())[i - 1]);
                assert(l.drop_first()[i - 1] == l[i]);
            }
        }
    }
}

pub proof fn lemma_ipld_entries_model(m: Seq<(String, IpldValue)>)
    ensures
        ipld_entries_model(m).len() == m.len(),
        forall|i: int| 0 <= i < m.len() ==> ipld_entries_model(m)[i] == ipld_entry_model(m[i]),
    decreases m,
{
    if m.len() > 0 {
        lemma_ipld_entries_model(m.drop_first());
        assert forall|i: int|
            0 <= i < m.len() implies ipld_entries_model(m)[i] == ipld_entry_model(m[i]) by {
            if i > 0 {
                assert(ipld_entries_model(m)[i] == ipld_entries_model(m.drop_first())[i - 1]);
                assert(m.drop_first()[i - 1] == m[i]);
            }
        }
    }
}

/// Every path from the root passes through at most `d` nodes. The JSON
/// parser bounds the nesting of what it accepts, and the binary decoder
/// bounds the nesting of what it reads back, so the depth of a value is what
/// connects the two bounds.
pub open spec fn json_within_depth(j: JsonModel, d: nat) -> bool
    decreases j,
{
    d > 0 && match j {
        JsonModel::List(l) => forall|i: int|
            0 <= i < l.len() ==> json_within_depth(#[trigger] l[i], (d - 1) as nat),
        JsonModel::Object(o) => forall|i: int|
            0 <= i < o.len() ==> json_within_depth((#[trigger] o[i]).1, (d - 1) as nat),
        _ => true,
    }
}

/// Every path from the root passes through at most `d` nodes.
pub open spec fn ipld_within_depth(v: IpldModel, d: nat) -> bool
    decreases v,
{
    d > 0 && match v {
        IpldModel::List(l) => forall|i: int|
            0 <= i < l.len() ==> ipld_within_depth(#[trigger] l[i], (d - 1) as nat),
        IpldModel::Mapping(m) => forall|i: int|
            0 <= i < m.len() ==> ipld_within_depth((#[trigger] m[i]).1, (d - 1) as nat),
        _ => true,
    }
}

/// A depth bound stays a bound when it is raised.
pub proof fn lemma_ipld_depth_monotone(v: IpldModel, d: nat, d2: nat)
    requires
        ipld_within_depth(v, d),
        d <= d2,
    ensures
        ipld_within_depth(v, d2),
    decreases v,
{
    match v {
        IpldModel::List(l) => {
            assert forall|i: int|
                0 <= i < l.len() implies ipld_within_depth(#[trigger] l[i], (d2 - 1) as nat) by {
                lemma_ipld_depth_monotone(l[i], (d - 1) as nat, (d2 - 1) as nat);
            }
        },
        IpldModel::Mapping(m) => {
            assert forall|i: int|
                0 <= i < m.len() implies ipld_within_depth(
                    (#[trigger] m[i]).1,
                    (d2 - 1) as nat,
                ) by {
                lemma_ipld_depth_monotone(m[i].1, (d - 1) as nat, (d2 - 1) as nat);
            }
        },
        _ => {},
    }
}

/// Every link in the tree carries syntactically valid identifier text. The
/// translator establishes this for all of its output, and the binary encoder
/// requires it: a link's text is reparsed into a content identifier there.
pub open spec fn links_valid(v: IpldModel) -> bool
    decreases v,
{
    match v {
        IpldModel::Link(s) => is_cid_text(s),
        IpldModel::List(l) => forall|i: int| 0 <= i < l.len() ==> links_valid(#[trigger] l[i]),
        IpldModel::Mapping(m) => forall|i: int|
            0 <= i < m.len() ==> links_valid((#[trigger] m[i]).1),
        _ => true,
    }
}

} // verus!
