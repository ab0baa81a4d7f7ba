use vstd::prelude::*;
use crate::ident::is_cid_text;
use crate::translate::{
    entries_to_ipld, entry_model, lemma_entries_to_ipld, lemma_seq_to_ipld, seq_to_ipld,
    to_ipld_model,
};
use crate::value::{ipld_within_depth, json_within_depth, links_valid, IpldModel, JsonModel};

verus! {

/// No text anywhere in the value is identifier-shaped.
pub open spec fn link_free(j: JsonModel) -> bool
    decreases j,
{
    match j {
        JsonModel::Text(s) => !is_cid_text(s),
        JsonModel::List(l) => forall|i: int| 0 <= i < l.len() ==> link_free(#[trigger] l[i]),
        JsonModel::Object(o) => forall|i: int| 0 <= i < o.len() ==> link_free((#[trigger] o[i]).1),
        _ => true,
    }
}

/// The plain structural embedding of the JSON model into the linked-data
/// model: every variant maps to its counterpart, no string is promoted to a
/// link and no entry is tagged. Numbers follow the same rules as the
/// translation.
pub open spec fn embed(j: JsonModel) -> IpldModel
    decreases j, 0int,
{
    match j {
        JsonModel::Null => IpldModel::Null,
        JsonModel::Bool(b) => IpldModel::Bool(b),
        JsonModel::Int(i) => IpldModel::Integer(i),
        JsonModel::UInt(u) => IpldModel::Integer(
            if u > i64::MAX as int {
                i64::MAX as int
            } else {
                u
            },
        ),
        JsonModel::Float(t) => IpldModel::Float(t),
        JsonModel::Text(s) => IpldModel::Text(s),
        JsonModel::List(l) => IpldModel::List(embed_seq(l)),
        JsonModel::Object(o) => IpldModel::Mapping(embed_entries(o)),
    }
}

/// Elementwise embedding of a sequence of JSON values.
pub open spec fn embed_seq(l: Seq<JsonModel>) -> Seq<IpldModel>
    decreases l, 1int,
{
    if l.len() == 0 {
        Seq::empty()
    } else {
        seq![embed(l.first())] + embed_seq(l.drop_first())
    }
}

/// Entrywise embedding of a sequence of JSON object entries.
pub open spec fn embed_entries(o: Seq<(Seq<char>, JsonModel)>) -> Seq<(Seq<char>, IpldModel)>
    decreases o, 1int,
{
    if o.len() == 0 {
        Seq::empty()
    } else {
        seq![(o.first().0, embed(o.first().1))] + embed_entries(o.drop_first())
    }
}

pub proof fn lemma_embed_seq(l: Seq<JsonModel>)
    ensures
        embed_seq(l).len() == l.len(),
        forall|i: int| 0 <= i < l.len() ==> embed_seq(l)[i] == embed(l[i]),
    decreases l,
{
    if l.len() > 0 {
        lemma_embed_seq(l.drop_first());
        assert forall|i: int| 0 <= i < l.len() implies embed_seq(l)[i] == embed(l[i]) by {
            if i > 0 {
                assert(embed_seq(l)[i] == embed_seq(l.drop_first())[i - 1]);
                assert(l.drop_first()[i - 1] == l[i]);
            }
        }
    }
}

pub proof fn lemma_embed_entries(o: Seq<(Seq<char>, JsonModel)>)
    ensures
        embed_entries(o).len() == o.len(),
        forall|i: int| 0 <= i < o.len() ==> embed_entries(o)[i] == (o[i].0, embed(o[i].1)),
    decreases o,
{
    if o.len() > 0 {
        lemma_embed_entries(o.drop_first());
        assert forall|i: int|
            0 <= i < o.len() implies embed_entries(o)[i] == (o[i].0, embed(o[i].1)) by {
            if i > 0 {
                assert(embed_entries(o)[i] == embed_entries(o.drop_first())[i - 1]);
                assert(o.drop_first()[i - 1] == o[i]);
            }
        }
    }
}

/// When no string in the input is identifier-shaped, the promotion heuristic
/// and the reserved `"cid"` convention change nothing: the translation is the
/// plain structural embedding, so the translation stage loses no information
/// on such inputs.
pub proof fn lemma_link_free_translation(j: JsonModel)
    requires
        link_free(j),
    ensures
        to_ipld_model(j) == embed(j),
    decreases j, 0int,
{
    match j {
        JsonModel::List(l) => {
            lemma_seq_to_ipld(l);
            lemma_embed_seq(l);
            assert forall|i: int| 0 <= i < l.len() implies seq_to_ipld(l)[i] == embed_seq(l)[i] by {
                assert(link_free(l[i]));
                lemma_link_free_translation(l[i]);
            }
            assert(seq_to_ipld(l) =~= embed_seq(l));
        },
        JsonModel::Object(o) => {
            lemma_entries_to_ipld(o);
            lemma_embed_entries(o);
            assert forall|i: int|
                0 <= i < o.len() implies entries_to_ipld(o)[i] == embed_entries(o)[i] by {
                assert(link_free((o[i]).1));
                lemma_link_free_translation(o[i].1);
            }
            assert(entries_to_ipld(o) =~= embed_entries(o));
        },
        _ => {},
    }
}

/// Every link in a translated value carries syntactically valid identifier
/// text: a link only ever arises from a string the identifier parser
/// accepted, so the encoder can reparse it.
pub proof fn lemma_translation_links_valid(j: JsonModel)
    ensures
        links_valid(to_ipld_model(j)),
    decreases j, 0int,
{
    match j {
        JsonModel::List(l) => {
            lemma_seq_to_ipld(l);
            let s = seq_to_ipld(l);
            assert forall|i: int| 0 <= i < s.len() implies links_valid(#[trigger] s[i]) by {
                lemma_translation_links_valid(l[i]);
            }
        },
        JsonModel::Object(o) => {
            lemma_entries_to_ipld(o);
            let s = entries_to_ipld(o);
            assert forall|i: int| 0 <= i < s.len() implies links_valid((#[trigger] s[i]).1) by {
                lemma_entry_links_valid(o[i]);
            }
        },
        _ => {},
    }
}

/// Every link in a translated object entry carries syntactically valid
/// identifier text, the tagged `"cid"` shape included.
pub proof fn lemma_entry_links_valid(e: (Seq<char>, JsonModel))
    ensures
        links_valid(entry_model(e)),
    decreases e, 2int,
{
    match e.1 {
        JsonModel::Text(s) => {
            if e.0 == "cid"@ && is_cid_text(s) {
                let m = seq![("42"@, IpldModel::Link(s))];
                assert forall|i: int| 0 <= i < m.len() implies links_valid((#[trigger] m[i]).1) by {
                    assert(m[i] == ("42"@, IpldModel::Link(s)));
                }
            } else {
                lemma_translation_links_valid(e.1);
            }
        },
        _ => {
            lemma_translation_links_valid(e.1);
        },
    }
}

/// Translation deepens a value by at most one level: only the tagged `"cid"`
/// shape inserts a node, the one-entry map around the link. This carries the
/// parser's nesting bound over to the encoder's output.
pub proof fn lemma_translation_within_depth(j: JsonModel, d: nat)
    requires
        json_within_depth(j, d),
    ensures
        ipld_within_depth(to_ipld_model(j), d + 1),
    decreases j, 0int,
{
    match j {
        JsonModel::List(l) => {
            lemma_seq_to_ipld(l);
            let s = seq_to_ipld(l);
            assert forall|i: int|
                0 <= i < s.len() implies ipld_within_depth(#[trigger] s[i], d) by {
                assert(json_within_depth(l[i], (d - 1) as nat));
                lemma_translation_within_depth(l[i], (d - 1) as nat);
            }
        },
        JsonModel::Object(o) => {
            lemma_entries_to_ipld(o);
            let s = entries_to_ipld(o);
            assert forall|i: int|
                0 <= i < s.len() implies ipld_within_depth((#[trigger] s[i]).1, d) by {
                assert(json_within_depth((o[i]).1, (d - 1) as nat));
                lemma_entry_within_depth(o[i], (d - 1) as nat);
            }
        },
        _ => {},
    }
}

/// Translating one object entry deepens its value by at most one level.
pub proof fn lemma_entry_within_depth(e: (Seq<char>, JsonModel), d: nat)
    requires
        json_within_depth(e.1, d),
    ensures
        ipld_within_depth(entry_model(e), d + 1),
    decreases e, 2int,
{
    match e.1 {
        JsonModel::Text(s) => {
            if e.0 == "cid"@ && is_cid_text(s) {
                let m = seq![("42"@, IpldModel::Link(s))];
                assert forall|i: int|
                    0 <= i < m.len() implies ipld_within_depth((#[trigger] m[i]).1, d) by {
                    assert(m[i] == ("42"@, IpldModel::Link(s)));
                }
            } else {
                lemma_translation_within_depth(e.1, d);
            }
        },
        _ => {
            lemma_translation_within_depth(e.1, d);
        },
    }
}

/// No whole number anywhere in the value lies above signed 64-bit range:
/// the one numeric shape whose translation is lossy is absent.
pub open spec fn in_signed_range(j: JsonModel) -> bool
    decreases j,
{
    match j {
        JsonModel::UInt(_) => false,
        JsonModel::List(l) => forall|i: int| 0 <= i < l.len() ==> in_signed_range(#[trigger] l[i]),
        JsonModel::Object(o) => forall|i: int|
            0 <= i < o.len() ==> in_signed_range((#[trigger] o[i]).1),
        _ => true,
    }
}

/// The plain embedding loses nothing: two values without out-of-range whole
/// numbers embed equally only if they are equal. Together with
/// `lemma_link_free_translation`, the translation stage is lossless on
/// inputs with no identifier-shaped text and no out-of-range number.
pub proof fn lemma_embed_injective(a: JsonModel, b: JsonModel)
    requires
        in_signed_range(a),
        in_signed_range(b),
        embed(a) == embed(b),
    ensures
        a == b,
    decreases a,
{
    match a {
        JsonModel::List(la) => {
            assert(b is List);
            let lb = b->List_0;
            lemma_embed_seq(la);
            lemma_embed_seq(lb);
            assert forall|i: int| 0 <= i < la.len() implies la[i] == lb[i] by {
                assert(embed_seq(la)[i] == embed(la[i]));
                assert(embed_seq(lb)[i] == embed(lb[i]));
                assert(in_signed_range(la[i]));
                assert(in_signed_range(lb[i]));
                lemma_embed_injective(la[i], lb[i]);
            }
            assert(la =~= lb);
        },
        JsonModel::Object(oa) => {
            assert(b is Object);
            let ob = b->Object_0;
            lemma_embed_entries(oa);
            lemma_embed_entries(ob);
            assert forall|i: int| 0 <= i < oa.len() implies oa[i] == ob[i] by {
                assert(embed_entries(oa)[i] == (oa[i].0, embed(oa[i].1)));
                assert(embed_entries(ob)[i] == (ob[i].0, embed(ob[i].1)));
                assert(in_signed_range((oa[i]).1));
                assert(in_signed_range((ob[i]).1));
                lemma_embed_injective(oa[i].1, ob[i].1);
            }
            assert(oa =~= ob);
        },
        _ => {},
    }
}

/// A string that is a syntactically valid identifier is promoted to a link
/// to exactly that identifier; the text is kept verbatim.
pub proof fn lemma_identifier_promotion(s: Seq<char>)
    requires
        is_cid_text(s),
    ensures
        to_ipld_model(JsonModel::Text(s)) == IpldModel::Link(s),
{
}

/// A `"cid"` entry holding a valid identifier becomes the nested tagged
/// shape: a one-entry map from the literal key `"42"` to the link.
pub proof fn lemma_cid_field_tagging(s: Seq<char>)
    requires
        is_cid_text(s),
    ensures
        entry_model(("cid"@, JsonModel::Text(s))) == IpldModel::Mapping(
            seq![("42"@, IpldModel::Link(s))],
        ),
{
}

/// A `"cid"` entry whose value is not identifier-shaped is not promoted and
/// not tagged: it keeps its plain text value.
pub proof fn lemma_cid_field_not_promoted(s: Seq<char>)
    requires
        !is_cid_text(s),
    ensures
        entry_model(("cid"@, JsonModel::Text(s))) == IpldModel::Text(s),
{
}

/// A whole number in signed 64-bit range translates exactly; a whole number
/// beyond that range degrades to the largest signed 64-bit value.
pub proof fn lemma_integer_boundary(i: int, u: int)
    requires
        u > i64::MAX as int,
    ensures
        to_ipld_model(JsonModel::Int(i)) == IpldModel::Integer(i),
        to_ipld_model(JsonModel::UInt(u)) == IpldModel::Integer(i64::MAX as int),
{
}

} // verus!
