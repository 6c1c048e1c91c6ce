//! Decoding the entity collections and the top-level document.
//!
//! Entities are a one-field-to-one-field mapping; the only shape judgment
//! here is the scalar coercion shared with the capability decoder (native
//! form first, then string-coerced) and the tolerance for a list field that
//! arrives as a single object instead of a sequence of one.

use vstd::prelude::*;
use crate::decode::{res_view, spec_decode_api_value, decode_api};
use crate::elements::{
    Api, Attributes, AttributesV, ElementRef, ElementRefV, ElementType, Node, NodeRef, NodeV, OSM,
    OSMV, Relation, RelationV, Tag, TagV, Way, WayV,
};
use crate::error::{Error, FieldName};
use crate::value::{
    find2, find_alias2, lookup, lookup_key, scalar_bool, scalar_i64, scalar_number, scalar_u8,
    spec_scalar_bool, spec_scalar_i64, spec_scalar_number, spec_scalar_u8, Number, NumberV, Value,
};

verus! {

/// A required textual field under a two-alias list: absence and
/// malformed presence are distinct failures.
pub open spec fn spec_req_text(
    m: Seq<(String, Value)>,
    a1: Seq<char>,
    a2: Seq<char>,
    f: FieldName,
) -> Result<Seq<char>, Error> {
    match find2(m, a1, a2) {
        None => Err(Error::MissingRequiredField(f)),
        Some(x) => match x {
            Value::Text(s) => Ok(s@),
            _ => Err(Error::ShapeMismatch(f)),
        },
    }
}

/// Decode a required textual field.
fn req_text(m: &Vec<(String, Value)>, a1: &str, a2: &str, f: FieldName) -> (r: Result<
    String,
    Error,
>)
    ensures
        res_view(r) == spec_req_text(m@, a1@, a2@, f),
{
    match find_alias2(m, a1, a2) {
        None => Err(Error::MissingRequiredField(f)),
        Some(x) => match x {
            Value::Text(s) => Ok(s.clone()),
            _ => Err(Error::ShapeMismatch(f)),
        },
    }
}

/// An optional textual field under a two-alias list.
pub open spec fn spec_opt_text(
    m: Seq<(String, Value)>,
    a1: Seq<char>,
    a2: Seq<char>,
    f: FieldName,
) -> Result<Option<Seq<char>>, Error> {
    match find2(m, a1, a2) {
        None => Ok(None),
        Some(x) => match x {
            Value::Text(s) => Ok(Some(s@)),
            _ => Err(Error::ShapeMismatch(f)),
        },
    }
}

/// The view of an optional-text decode result.
pub open spec fn opt_text_view(r: Result<Option<String>, Error>) -> Result<
    Option<Seq<char>>,
    Error,
> {
    match r {
        Ok(Some(s)) => Ok(Some(s@)),
        Ok(None) => Ok(None),
        Err(e) => Err(e),
    }
}

/// Decode an optional textual field.
fn opt_text(m: &Vec<(String, Value)>, a1: &str, a2: &str, f: FieldName) -> (r: Result<
    Option<String>,
    Error,
>)
    ensures
        opt_text_view(r) == spec_opt_text(m@, a1@, a2@, f),
{
    match find_alias2(m, a1, a2) {
        None => Ok(None),
        Some(x) => match x {
            Value::Text(s) => Ok(Some(s.clone())),
            _ => Err(Error::ShapeMismatch(f)),
        },
    }
}

/// A required integer field under a two-alias list.
pub open spec fn spec_req_i64(
    m: Seq<(String, Value)>,
    a1: Seq<char>,
    a2: Seq<char>,
    f: FieldName,
) -> Result<i64, Error> {
    match find2(m, a1, a2) {
        None => Err(Error::MissingRequiredField(f)),
        Some(x) => match spec_scalar_i64(x) {
            Some(i) => Ok(i),
            None => Err(Error::ShapeMismatch(f)),
        },
    }
}

/// Decode a required integer field.
fn req_i64(m: &Vec<(String, Value)>, a1: &str, a2: &str, f: FieldName) -> (r: Result<i64, Error>)
    ensures
        r == spec_req_i64(m@, a1@, a2@, f),
{
    match find_alias2(m, a1, a2) {
        None => Err(Error::MissingRequiredField(f)),
        Some(x) => match scalar_i64(x) {
            Some(i) => Ok(i),
            None => Err(Error::ShapeMismatch(f)),
        },
    }
}

/// A required boolean field under a two-alias list.
pub open spec fn spec_req_bool(
    m: Seq<(String, Value)>,
    a1: Seq<char>,
    a2: Seq<char>,
    f: FieldName,
) -> Result<bool, Error> {
    match find2(m, a1, a2) {
        None => Err(Error::MissingRequiredField(f)),
        Some(x) => match spec_scalar_bool(x) {
            Some(b) => Ok(b),
            None => Err(Error::ShapeMismatch(f)),
        },
    }
}

/// Decode a required boolean field.
fn req_bool(m: &Vec<(String, Value)>, a1: &str, a2: &str, f: FieldName) -> (r: Result<bool, Error>)
    ensures
        r == spec_req_bool(m@, a1@, a2@, f),
{
    match find_alias2(m, a1, a2) {
        None => Err(Error::MissingRequiredField(f)),
        Some(x) => match scalar_bool(x) {
            Some(b) => Ok(b),
            None => Err(Error::ShapeMismatch(f)),
        },
    }
}

/// A required small unsigned field under a two-alias list.
pub open spec fn spec_req_u8(
    m: Seq<(String, Value)>,
    a1: Seq<char>,
    a2: Seq<char>,
    f: FieldName,
) -> Result<u8, Error> {
    match find2(m, a1, a2) {
        None => Err(Error::MissingRequiredField(f)),
        Some(x) => match spec_scalar_u8(x) {
            Some(i) => Ok(i),
            None => Err(Error::ShapeMismatch(f)),
        },
    }
}

/// Decode a required small unsigned field.
fn req_u8(m: &Vec<(String, Value)>, a1: &str, a2: &str, f: FieldName) -> (r: Result<u8, Error>)
    ensures
        r == spec_req_u8(m@, a1@, a2@, f),
{
    match find_alias2(m, a1, a2) {
        None => Err(Error::MissingRequiredField(f)),
        Some(x) => match scalar_u8(x) {
            Some(i) => Ok(i),
            None => Err(Error::ShapeMismatch(f)),
        },
    }
}

/// A required numeric field under a two-alias list.
pub open spec fn spec_req_number(
    m: Seq<(String, Value)>,
    a1: Seq<char>,
    a2: Seq<char>,
    f: FieldName,
) -> Result<NumberV, Error> {
    match find2(m, a1, a2) {
        None => Err(Error::MissingRequiredField(f)),
        Some(x) => match spec_scalar_number(x) {
            Some(n) => Ok(n),
            None => Err(Error::ShapeMismatch(f)),
        },
    }
}

/// Decode a required numeric field.
fn req_number(m: &Vec<(String, Value)>, a1: &str, a2: &str, f: FieldName) -> (r: Result<
    Number,
    Error,
>)
    ensures
        res_view(r) == spec_req_number(m@, a1@, a2@, f),
{
    match find_alias2(m, a1, a2) {
        None => Err(Error::MissingRequiredField(f)),
        Some(x) => match scalar_number(x) {
            Some(n) => Ok(n),
            None => Err(Error::ShapeMismatch(f)),
        },
    }
}

/// What decoding one tag yields: both the key and the value are required
/// text.
pub open spec fn spec_decode_tag(v: Value) -> Result<TagV, Error> {
    match v {
        Value::Mapping(m) => {
            let rk = spec_req_text(m@, "@k"@, "k"@, FieldName::TagKey);
            let rv = spec_req_text(m@, "@v"@, "v"@, FieldName::TagValue);
            if rk is Err {
                Err(rk->Err_0)
            } else if rv is Err {
                Err(rv->Err_0)
            } else {
                Ok((TagV { key: rk->Ok_0, value: rv->Ok_0 }))
            }
        },
        _ => Err(Error::ShapeMismatch(FieldName::TagList)),
    }
}

/// Decode one tag.
pub fn decode_tag(v: &Value) -> (r: Result<Tag, Error>)
    ensures
        res_view(r) == spec_decode_tag(*v),
{
    match v {
        Value::Mapping(m) => {
            let key = match req_text(m, "@k", "k", FieldName::TagKey) {
                Ok(s) => s,
                Err(e) => {
                    return Err(e);
                },
            };
            let value = match req_text(m, "@v", "v", FieldName::TagValue) {
                Ok(s) => s,
                Err(e) => {
                    return Err(e);
                },
            };
            Ok(Tag { key, value })
        },
        _ => Err(Error::ShapeMismatch(FieldName::TagList)),
    }
}

/// What decoding one node reference of a way yields.
pub open spec fn spec_decode_node_ref(v: Value) -> Result<NodeRef, Error> {
    match v {
        Value::Mapping(m) => match spec_req_i64(m@, "@ref"@, "ref"@, FieldName::NodeRefId) {
            Ok(i) => Ok((NodeRef { reference: i })),
            Err(e) => Err(e),
        },
        _ => Err(Error::ShapeMismatch(FieldName::NodeRefList)),
    }
}

/// Decode one node reference.
pub fn decode_node_ref(v: &Value) -> (r: Result<NodeRef, Error>)
    ensures
        res_view(r) == spec_decode_node_ref(*v),
{
    match v {
        Value::Mapping(m) => match req_i64(m, "@ref", "ref", FieldName::NodeRefId) {
            Ok(i) => Ok(NodeRef { reference: i }),
            Err(e) => Err(e),
        },
        _ => Err(Error::ShapeMismatch(FieldName::NodeRefList)),
    }
}

/// What one entity-kind token decodes to.
pub open spec fn spec_parse_element_type(s: Seq<char>) -> Option<ElementType> {
    if s == "node"@ {
        Some(ElementType::Node)
    } else if s == "way"@ {
        Some(ElementType::Way)
    } else if s == "relation"@ {
        Some(ElementType::Relation)
    } else {
        None
    }
}

/// Decode one entity-kind token.
pub fn parse_element_type(s: &str) -> (r: Option<ElementType>)
    ensures
        r == spec_parse_element_type(s@),
{
    if crate::scalar::str_is(s, "node") {
        Some(ElementType::Node)
    } else if crate::scalar::str_is(s, "way") {
        Some(ElementType::Way)
    } else if crate::scalar::str_is(s, "relation") {
        Some(ElementType::Relation)
    } else {
        None
    }
}

/// What decoding one relation member yields: its entity kind, the
/// reference, and the member's role, all required.
pub open spec fn spec_decode_element_ref(v: Value) -> Result<ElementRefV, Error> {
    match v {
        Value::Mapping(m) => {
            let rt = spec_req_text(m@, "@type"@, "type"@, FieldName::MemberType);
            let rr = spec_req_i64(m@, "@ref"@, "ref"@, FieldName::MemberRef);
            let ro = spec_req_text(m@, "@role"@, "role"@, FieldName::MemberRole);
            if rt is Err {
                Err(rt->Err_0)
            } else if spec_parse_element_type(rt->Ok_0) is None {
                Err(Error::ShapeMismatch(FieldName::MemberType))
            } else if rr is Err {
                Err(rr->Err_0)
            } else if ro is Err {
                Err(ro->Err_0)
            } else {
                Ok(
                    (ElementRefV {
                        element_type: spec_parse_element_type(rt->Ok_0)->0,
                        reference: rr->Ok_0,
                        role: ro->Ok_0,
                    }),
                )
            }
        },
        _ => Err(Error::ShapeMismatch(FieldName::MemberList)),
    }
}

/// Decode one relation member.
pub fn decode_element_ref(v: &Value) -> (r: Result<ElementRef, Error>)
    ensures
        res_view(r) == spec_decode_element_ref(*v),
{
    match v {
        Value::Mapping(m) => {
            let tt = match req_text(m, "@type", "type", FieldName::MemberType) {
                Ok(s) => s,
                Err(e) => {
                    return Err(e);
                },
            };
            let element_type = match parse_element_type(tt.as_str()) {
                Some(t) => t,
                None => {
                    return Err(Error::ShapeMismatch(FieldName::MemberType));
                },
            };
            let reference = match req_i64(m, "@ref", "ref", FieldName::MemberRef) {
                Ok(i) => i,
                Err(e) => {
                    return Err(e);
                },
            };
            let role = match req_text(m, "@role", "role", FieldName::MemberRole) {
                Ok(s) => s,
                Err(e) => {
                    return Err(e);
                },
            };
            Ok(ElementRef { element_type, reference, role })
        },
        _ => Err(Error::ShapeMismatch(FieldName::MemberList)),
    }
}

/// What decoding the bookkeeping attributes of an entity yields; they sit
/// in the entity's own mapping, and each one is required.
pub open spec fn spec_decode_attributes(m: Seq<(String, Value)>) -> Result<AttributesV, Error> {
    let ru = spec_req_text(m, "@user"@, "user"@, FieldName::UserAttr);
    let rid = spec_req_i64(m, "@uid"@, "uid"@, FieldName::UidAttr);
    let rts = spec_req_text(m, "@timestamp"@, "timestamp"@, FieldName::TimestampAttr);
    let rvis = spec_req_bool(m, "@visible"@, "visible"@, FieldName::VisibleAttr);
    let rver = spec_req_u8(m, "@version"@, "version"@, FieldName::VersionAttr);
    let rcs = spec_req_i64(m, "@changeset"@, "changeset"@, FieldName::ChangesetAttr);
    if ru is Err {
        Err(ru->Err_0)
    } else if rid is Err {
        Err(rid->Err_0)
    } else if rts is Err {
        Err(rts->Err_0)
    } else if rvis is Err {
        Err(rvis->Err_0)
    } else if rver is Err {
        Err(rver->Err_0)
    } else if rcs is Err {
        Err(rcs->Err_0)
    } else {
        Ok(
            (AttributesV {
                user: ru->Ok_0,
                uid: rid->Ok_0,
                timestamp: rts->Ok_0,
                visible: rvis->Ok_0,
                version: rver->Ok_0,
                changeset: rcs->Ok_0,
            }),
        )
    }
}

/// Decode the bookkeeping attributes of an entity.
pub fn decode_attributes(m: &Vec<(String, Value)>) -> (r: Result<Attributes, Error>)
    ensures
        res_view(r) == spec_decode_attributes(m@),
{
    let user = match req_text(m, "@user", "user", FieldName::UserAttr) {
        Ok(s) => s,
        Err(e) => {
            return Err(e);
        },
    };
    let uid = match req_i64(m, "@uid", "uid", FieldName::UidAttr) {
        Ok(i) => i,
        Err(e) => {
            return Err(e);
        },
    };
    let timestamp = match req_text(m, "@timestamp", "timestamp", FieldName::TimestampAttr) {
        Ok(s) => s,
        Err(e) => {
            return Err(e);
        },
    };
    let visible = match req_bool(m, "@visible", "visible", FieldName::VisibleAttr) {
        Ok(b) => b,
        Err(e) => {
            return Err(e);
        },
    };
    let version = match req_u8(m, "@version", "version", FieldName::VersionAttr) {
        Ok(i) => i,
        Err(e) => {
            return Err(e);
        },
    };
    let changeset = match req_i64(m, "@changeset", "changeset", FieldName::ChangesetAttr) {
        Ok(i) => i,
        Err(e) => {
            return Err(e);
        },
    };
    Ok(Attributes { user, uid, timestamp, visible, version, changeset })
}

/// Prepend an already-decoded prefix to a list decode result.
pub open spec fn seq_res_append<T>(prefix: Seq<T>, r: Result<Seq<T>, Error>) -> Result<
    Seq<T>,
    Error,
> {
    match r {
        Ok(rest) => Ok(prefix + rest),
        Err(e) => Err(e),
    }
}

/// An empty prefix prepends to nothing.
proof fn lemma_append_nil<T>(prefix: Seq<T>, r: Result<Seq<T>, Error>)
    requires
        prefix.len() == 0,
    ensures
        seq_res_append(prefix, r) == r,
{
    match r {
        Ok(rest) => {
            assert(prefix + rest =~= rest);
        },
        Err(_) => {},
    }
}

/// The views of a decoded tag list.
pub open spec fn tags_view(ts: Seq<Tag>) -> Seq<TagV> {
    ts.map_values(|t: Tag| t@)
}

/// The views of a decoded member list.
pub open spec fn members_view(ms: Seq<ElementRef>) -> Seq<ElementRefV> {
    ms.map_values(|m: ElementRef| m@)
}

/// The views of a decoded node list.
pub open spec fn nodes_view(ns: Seq<Node>) -> Seq<NodeV> {
    ns.map_values(|n: Node| n@)
}

/// The views of a decoded way list.
pub open spec fn ways_view(ws: Seq<Way>) -> Seq<WayV> {
    ws.map_values(|w: Way| w@)
}

/// The views of a decoded relation list.
pub open spec fn relations_view(rs: Seq<Relation>) -> Seq<RelationV> {
    rs.map_values(|r: Relation| r@)
}

/// What decoding a sequence of tags yields: every element must decode; the
/// first failure is reported.
pub open spec fn spec_tag_list(elems: Seq<Value>) -> Result<Seq<TagV>, Error>
    decreases elems.len(),
{
    if elems.len() == 0 {
        Ok(Seq::empty())
    } else {
        match spec_decode_tag(elems[0]) {
            Err(e) => Err(e),
            Ok(t) => match spec_tag_list(elems.skip(1)) {
                Err(e) => Err(e),
                Ok(rest) => Ok(seq![t] + rest),
            },
        }
    }
}

proof fn lemma_tag_list_step(prefix: Seq<TagV>, elems: Seq<Value>, i: int)
    requires
        0 <= i < elems.len(),
        spec_decode_tag(elems[i]) is Ok,
    ensures
        seq_res_append(prefix, spec_tag_list(elems.skip(i))) == seq_res_append(
            prefix + seq![spec_decode_tag(elems[i])->Ok_0],
            spec_tag_list(elems.skip(i + 1)),
        ),
{
    assert(elems.skip(i)[0] == elems[i]);
    assert(elems.skip(i).skip(1) =~= elems.skip(i + 1));
    match spec_tag_list(elems.skip(i + 1)) {
        Ok(rest) => {
            assert(prefix + (seq![spec_decode_tag(elems[i])->Ok_0] + rest) =~= (prefix + seq![
                spec_decode_tag(elems[i])->Ok_0,
            ]) + rest);
        },
        Err(_) => {},
    }
}

/// Decode a sequence of tag values.
fn decode_tag_vec(elems: &Vec<Value>) -> (r: Result<Vec<Tag>, Error>)
    ensures
        match r {
            Ok(ts) => spec_tag_list(elems@) == Ok::<Seq<TagV>, Error>(tags_view(ts@)),
            Err(e) => spec_tag_list(elems@) == Err::<Seq<TagV>, Error>(e),
        },
{
    let mut out: Vec<Tag> = Vec::new();
    proof {
        assert(elems@.skip(0) =~= elems@);
        assert(tags_view(out@) =~= Seq::<TagV>::empty());
        lemma_append_nil(tags_view(out@), spec_tag_list(elems@));
    }
    let mut i: usize = 0;
    while i < elems.len()
        invariant
            0 <= i <= elems@.len(),
            seq_res_append(tags_view(out@), spec_tag_list(elems@.skip(i as int)))
                == spec_tag_list(elems@),
        decreases elems@.len() - i,
    {
        proof {
            assert(elems@.skip(i as int)[0] == elems@[i as int]);
        }
        match decode_tag(&elems[i]) {
            Ok(t) => {
                let ghost old_view = tags_view(out@);
                proof {
                    lemma_tag_list_step(old_view, elems@, i as int);
                }
                out.push(t);
                proof {
                    assert(tags_view(out@) =~= old_view + seq![t@]);
                }
            },
            Err(e) => {
                return Err(e);
            },
        }
        i = i + 1;
    }
    proof {
        assert(elems@.skip(i as int).len() == 0);
        assert(tags_view(out@) + Seq::<TagV>::empty() =~= tags_view(out@));
    }
    Ok(out)
}

/// What decoding a tag-list field yields: a sequence of tags, or — the
/// tree encoding collapses a list of one — a single tag object.
pub open spec fn spec_decode_tags(v: Value) -> Result<Seq<TagV>, Error> {
    match v {
        Value::Sequence(elems) => spec_tag_list(elems@),
        Value::Mapping(_) => match spec_decode_tag(v) {
            Ok(t) => Ok(seq![t]),
            Err(e) => Err(e),
        },
        _ => Err(Error::ShapeMismatch(FieldName::TagList)),
    }
}

/// Decode a tag-list field.
pub fn decode_tags(v: &Value) -> (r: Result<Vec<Tag>, Error>)
    ensures
        match r {
            Ok(ts) => spec_decode_tags(*v) == Ok::<Seq<TagV>, Error>(tags_view(ts@)),
            Err(e) => spec_decode_tags(*v) == Err::<Seq<TagV>, Error>(e),
        },
{
    match v {
        Value::Sequence(elems) => decode_tag_vec(elems),
        Value::Mapping(_) => match decode_tag(v) {
            Ok(t) => {
                let ghost tv = t@;
                let out: Vec<Tag> = vec![t];
                proof {
                    assert(tags_view(out@) =~= seq![tv]);
                }
                Ok(out)
            },
            Err(e) => Err(e),
        },
        _ => Err(Error::ShapeMismatch(FieldName::TagList)),
    }
}

/// What decoding a sequence of node references yields.
pub open spec fn spec_node_ref_list(elems: Seq<Value>) -> Result<Seq<NodeRef>, Error>
    decreases elems.len(),
{
    if elems.len() == 0 {
        Ok(Seq::empty())
    } else {
        match spec_decode_node_ref(elems[0]) {
            Err(e) => Err(e),
            Ok(t) => match spec_node_ref_list(elems.skip(1)) {
                Err(e) => Err(e),
                Ok(rest) => Ok(seq![t] + rest),
            },
        }
    }
}

proof fn lemma_node_ref_list_step(prefix: Seq<NodeRef>, elems: Seq<Value>, i: int)
    requires
        0 <= i < elems.len(),
        spec_decode_node_ref(elems[i]) is Ok,
    ensures
        seq_res_append(prefix, spec_node_ref_list(elems.skip(i))) == seq_res_append(
            prefix + seq![spec_decode_node_ref(elems[i])->Ok_0],
            spec_node_ref_list(elems.skip(i + 1)),
        ),
{
    assert(elems.skip(i)[0] == elems[i]);
    assert(elems.skip(i).skip(1) =~= elems.skip(i + 1));
    match spec_node_ref_list(elems.skip(i + 1)) {
        Ok(rest) => {
            assert(prefix + (seq![spec_decode_node_ref(elems[i])->Ok_0] + rest) =~= (prefix + seq![
                spec_decode_node_ref(elems[i])->Ok_0,
            ]) + rest);
        },
        Err(_) => {},
    }
}

/// Decode a sequence of node-reference values.
fn decode_node_ref_vec(elems: &Vec<Value>) -> (r: Result<Vec<NodeRef>, Error>)
    ensures
        match r {
            Ok(ns) => spec_node_ref_list(elems@) == Ok::<Seq<NodeRef>, Error>(ns@),
            Err(e) => spec_node_ref_list(elems@) == Err::<Seq<NodeRef>, Error>(e),
        },
{
    let mut out: Vec<NodeRef> = Vec::new();
    proof {
        assert(elems@.skip(0) =~= elems@);
        lemma_append_nil(out@, spec_node_ref_list(elems@));
    }
    let mut i: usize = 0;
    while i < elems.len()
        invariant
            0 <= i <= elems@.len(),
            seq_res_append(out@, spec_node_ref_list(elems@.skip(i as int))) == spec_node_ref_list(
                elems@,
            ),
        decreases elems@.len() - i,
    {
        proof {
            assert(elems@.skip(i as int)[0] == elems@[i as int]);
        }
        match decode_node_ref(&elems[i]) {
            Ok(t) => {
                let ghost old_view = out@;
                proof {
                    lemma_node_ref_list_step(old_view, elems@, i as int);
                }
                out.push(t);
                proof {
                    assert(out@ =~= old_view + seq![t]);
                }
            },
            Err(e) => {
                return Err(e);
            },
        }
        i = i + 1;
    }
    proof {
        assert(elems@.skip(i as int).len() == 0);
        assert(out@ + Seq::<NodeRef>::empty() =~= out@);
    }
    Ok(out)
}

/// What decoding a node-reference list field yields: a sequence, or a
/// collapsed single object.
pub open spec fn spec_decode_node_refs(v: Value) -> Result<Seq<NodeRef>, Error> {
    match v {
        Value::Sequence(elems) => spec_node_ref_list(elems@),
        Value::Mapping(_) => match spec_decode_node_ref(v) {
            Ok(t) => Ok(seq![t]),
            Err(e) => Err(e),
        },
        _ => Err(Error::ShapeMismatch(FieldName::NodeRefList)),
    }
}

/// Decode a node-reference list field.
pub fn decode_node_refs(v: &Value) -> (r: Result<Vec<NodeRef>, Error>)
    ensures
        match r {
            Ok(ns) => spec_decode_node_refs(*v) == Ok::<Seq<NodeRef>, Error>(ns@),
            Err(e) => spec_decode_node_refs(*v) == Err::<Seq<NodeRef>, Error>(e),
        },
{
    match v {
        Value::Sequence(elems) => decode_node_ref_vec(elems),
        Value::Mapping(_) => match decode_node_ref(v) {
            Ok(t) => {
                let out: Vec<NodeRef> = vec![t];
                proof {
                    assert(out@ =~= seq![t]);
                }
                Ok(out)
            },
            Err(e) => Err(e),
        },
        _ => Err(Error::ShapeMismatch(FieldName::NodeRefList)),
    }
}

/// What decoding a sequence of relation members yields.
pub open spec fn spec_member_list(elems: Seq<Value>) -> Result<Seq<ElementRefV>, Error>
    decreases elems.len(),
{
    if elems.len() == 0 {
        Ok(Seq::empty())
    } else {
        match spec_decode_element_ref(elems[0]) {
            Err(e) => Err(e),
            Ok(t) => match spec_member_list(elems.skip(1)) {
                Err(e) => Err(e),
                Ok(rest) => Ok(seq![t] + rest),
            },
        }
    }
}

proof fn lemma_member_list_step(prefix: Seq<ElementRefV>, elems: Seq<Value>, i: int)
    requires
        0 <= i < elems.len(),
        spec_decode_element_ref(elems[i]) is Ok,
    ensures
        seq_res_append(prefix, spec_member_list(elems.skip(i))) == seq_res_append(
            prefix + seq![spec_decode_element_ref(elems[i])->Ok_0],
            spec_member_list(elems.skip(i + 1)),
        ),
{
    assert(elems.skip(i)[0] == elems[i]);
    assert(elems.skip(i).skip(1) =~= elems.skip(i + 1));
    match spec_member_list(elems.skip(i + 1)) {
        Ok(rest) => {
            assert(prefix + (seq![spec_decode_element_ref(elems[i])->Ok_0] + rest) =~= (prefix
                + seq![spec_decode_element_ref(elems[i])->Ok_0]) + rest);
        },
        Err(_) => {},
    }
}

/// Decode a sequence of relation-member values.
fn decode_member_vec(elems: &Vec<Value>) -> (r: Result<Vec<ElementRef>, Error>)
    ensures
        match r {
            Ok(ms) => spec_member_list(elems@) == Ok::<Seq<ElementRefV>, Error>(members_view(ms@)),
            Err(e) => spec_member_list(elems@) == Err::<Seq<ElementRefV>, Error>(e),
        },
{
    let mut out: Vec<ElementRef> = Vec::new();
    proof {
        assert(elems@.skip(0) =~= elems@);
        assert(members_view(out@) =~= Seq::<ElementRefV>::empty());
        lemma_append_nil(members_view(out@), spec_member_list(elems@));
    }
    let mut i: usize = 0;
    while i < elems.len()
        invariant
            0 <= i <= elems@.len(),
            seq_res_append(members_view(out@), spec_member_list(elems@.skip(i as int)))
                == spec_member_list(elems@),
        decreases elems@.len() - i,
    {
        proof {
            assert(elems@.skip(i as int)[0] == elems@[i as int]);
        }
        match decode_element_ref(&elems[i]) {
            Ok(t) => {
                let ghost old_view = members_view(out@);
                proof {
                    lemma_member_list_step(old_view, elems@, i as int);
                }
                out.push(t);
                proof {
                    assert(members_view(out@) =~= old_view + seq![t@]);
                }
            },
            Err(e) => {
                return Err(e);
            },
        }
        i = i + 1;
    }
    proof {
        assert(elems@.skip(i as int).len() == 0);
        assert(members_view(out@) + Seq::<ElementRefV>::empty() =~= members_view(out@));
    }
    Ok(out)
}

/// What decoding a member-list field yields: a sequence, or a collapsed
/// single object.
pub open spec fn spec_decode_members(v: Value) -> Result<Seq<ElementRefV>, Error> {
    match v {
        Value::Sequence(elems) => spec_member_list(elems@),
        Value::Mapping(_) => match spec_decode_element_ref(v) {
            Ok(t) => Ok(seq![t]),
            Err(e) => Err(e),
        },
        _ => Err(Error::ShapeMismatch(FieldName::MemberList)),
    }
}

/// Decode a member-list field.
pub fn decode_members(v: &Value) -> (r: Result<Vec<ElementRef>, Error>)
    ensures
        match r {
            Ok(ms) => spec_decode_members(*v) == Ok::<Seq<ElementRefV>, Error>(members_view(ms@)),
            Err(e) => spec_decode_members(*v) == Err::<Seq<ElementRefV>, Error>(e),
        },
{
    match v {
        Value::Sequence(elems) => decode_member_vec(elems),
        Value::Mapping(_) => match decode_element_ref(v) {
            Ok(t) => {
                let ghost tv = t@;
                let out: Vec<ElementRef> = vec![t];
                proof {
                    assert(members_view(out@) =~= seq![tv]);
                }
                Ok(out)
            },
            Err(e) => Err(e),
        },
        _ => Err(Error::ShapeMismatch(FieldName::MemberList)),
    }
}

/// What decoding one node yields: identifier and both coordinates are
/// required; tags default to none; the bookkeeping attributes sit in the
/// node's own mapping.
pub open spec fn spec_decode_node(v: Value) -> Result<NodeV, Error> {
    match v {
        Value::Mapping(m) => {
            let rid = spec_req_i64(m@, "@id"@, "id"@, FieldName::NodeId);
            let rlat = spec_req_number(m@, "@lat"@, "lat"@, FieldName::NodeLat);
            let rlon = spec_req_number(m@, "@lon"@, "lon"@, FieldName::NodeLon);
            let rtags = match lookup(m@, "tag"@) {
                None => Ok(Seq::<TagV>::empty()),
                Some(tv) => spec_decode_tags(tv),
            };
            let rattr = spec_decode_attributes(m@);
            if rid is Err {
                Err(rid->Err_0)
            } else if rlat is Err {
                Err(rlat->Err_0)
            } else if rlon is Err {
                Err(rlon->Err_0)
            } else if rtags is Err {
                Err(rtags->Err_0)
            } else if rattr is Err {
                Err(rattr->Err_0)
            } else {
                Ok(
                    (NodeV {
                        id: rid->Ok_0,
                        lat: rlat->Ok_0,
                        lon: rlon->Ok_0,
                        tags: rtags->Ok_0,
                        attributes: rattr->Ok_0,
                    }),
                )
            }
        },
        _ => Err(Error::ShapeMismatch(FieldName::NodeList)),
    }
}

/// Decode one node.
pub fn decode_node(v: &Value) -> (r: Result<Node, Error>)
    ensures
        res_view(r) == spec_decode_node(*v),
{
    match v {
        Value::Mapping(m) => {
            let id = match req_i64(m, "@id", "id", FieldName::NodeId) {
                Ok(i) => i,
                Err(e) => {
                    return Err(e);
                },
            };
            let lat = match req_number(m, "@lat", "lat", FieldName::NodeLat) {
                Ok(n) => n,
                Err(e) => {
                    return Err(e);
                },
            };
            let lon = match req_number(m, "@lon", "lon", FieldName::NodeLon) {
                Ok(n) => n,
                Err(e) => {
                    return Err(e);
                },
            };
            let tags: Vec<Tag> = match lookup_key(m, "tag") {
                None => {
                    let out: Vec<Tag> = Vec::new();
                    proof {
                        assert(tags_view(out@) =~= Seq::<TagV>::empty());
                    }
                    out
                },
                Some(tv) => match decode_tags(tv) {
                    Ok(ts) => ts,
                    Err(e) => {
                        return Err(e);
                    },
                },
            };
            let attributes = match decode_attributes(m) {
                Ok(a) => a,
                Err(e) => {
                    return Err(e);
                },
            };
            Ok(Node { id, lat, lon, tags, attributes })
        },
        _ => Err(Error::ShapeMismatch(FieldName::NodeList)),
    }
}

/// What decoding one way yields: the identifier is required; node
/// references and tags default to none.
pub open spec fn spec_decode_way(v: Value) -> Result<WayV, Error> {
    match v {
        Value::Mapping(m) => {
            let rid = spec_req_i64(m@, "@id"@, "id"@, FieldName::WayId);
            let rnodes = match lookup(m@, "nd"@) {
                None => Ok(Seq::<NodeRef>::empty()),
                Some(nv) => spec_decode_node_refs(nv),
            };
            let rtags = match lookup(m@, "tag"@) {
                None => Ok(Seq::<TagV>::empty()),
                Some(tv) => spec_decode_tags(tv),
            };
            let rattr = spec_decode_attributes(m@);
            if rid is Err {
                Err(rid->Err_0)
            } else if rnodes is Err {
                Err(rnodes->Err_0)
            } else if rtags is Err {
                Err(rtags->Err_0)
            } else if rattr is Err {
                Err(rattr->Err_0)
            } else {
                Ok(
                    (WayV {
                        id: rid->Ok_0,
                        nodes: rnodes->Ok_0,
                        tags: rtags->Ok_0,
                        attributes: rattr->Ok_0,
                    }),
                )
            }
        },
        _ => Err(Error::ShapeMismatch(FieldName::WayList)),
    }
}

/// Decode one way.
pub fn decode_way(v: &Value) -> (r: Result<Way, Error>)
    ensures
        res_view(r) == spec_decode_way(*v),
{
    match v {
        Value::Mapping(m) => {
            let id = match req_i64(m, "@id", "id", FieldName::WayId) {
                Ok(i) => i,
                Err(e) => {
                    return Err(e);
                },
            };
            let nodes: Vec<NodeRef> = match lookup_key(m, "nd") {
                None => {
                    let out: Vec<NodeRef> = Vec::new();
                    proof {
                        assert(out@ =~= Seq::<NodeRef>::empty());
                    }
                    out
                },
                Some(nv) => match decode_node_refs(nv) {
                    Ok(ns) => ns,
                    Err(e) => {
                        return Err(e);
                    },
                },
            };
            let tags: Vec<Tag> = match lookup_key(m, "tag") {
                None => {
                    let out: Vec<Tag> = Vec::new();
                    proof {
                        assert(tags_view(out@) =~= Seq::<TagV>::empty());
                    }
                    out
                },
                Some(tv) => match decode_tags(tv) {
                    Ok(ts) => ts,
                    Err(e) => {
                        return Err(e);
                    },
                },
            };
            let attributes = match decode_attributes(m) {
                Ok(a) => a,
                Err(e) => {
                    return Err(e);
                },
            };
            Ok(Way { id, nodes, tags, attributes })
        },
        _ => Err(Error::ShapeMismatch(FieldName::WayList)),
    }
}

/// What decoding one relation yields: members and tags default to none.
pub open spec fn spec_decode_relation(v: Value) -> Result<RelationV, Error> {
    match v {
        Value::Mapping(m) => {
            let rmembers = match lookup(m@, "member"@) {
                None => Ok(Seq::<ElementRefV>::empty()),
                Some(mv) => spec_decode_members(mv),
            };
            let rtags = match lookup(m@, "tag"@) {
                None => Ok(Seq::<TagV>::empty()),
                Some(tv) => spec_decode_tags(tv),
            };
            let rattr = spec_decode_attributes(m@);
            if rmembers is Err {
                Err(rmembers->Err_0)
            } else if rtags is Err {
                Err(rtags->Err_0)
            } else if rattr is Err {
                Err(rattr->Err_0)
            } else {
                Ok(
                    (RelationV {
                        members: rmembers->Ok_0,
                        tags: rtags->Ok_0,
                        attributes: rattr->Ok_0,
                    }),
                )
            }
        },
        _ => Err(Error::ShapeMismatch(FieldName::RelationList)),
    }
}

/// Decode one relation.
pub fn decode_relation(v: &Value) -> (r: Result<Relation, Error>)
    ensures
        res_view(r) == spec_decode_relation(*v),
{
    match v {
        Value::Mapping(m) => {
            let members: Vec<ElementRef> = match lookup_key(m, "member") {
                None => {
                    let out: Vec<ElementRef> = Vec::new();
                    proof {
                        assert(members_view(out@) =~= Seq::<ElementRefV>::empty());
                    }
                    out
                },
                Some(mv) => match decode_members(mv) {
                    Ok(ms) => ms,
                    Err(e) => {
                        return Err(e);
                    },
                },
            };
            let tags: Vec<Tag> = match lookup_key(m, "tag") {
                None => {
                    let out: Vec<Tag> = Vec::new();
                    proof {
                        assert(tags_view(out@) =~= Seq::<TagV>::empty());
                    }
                    out
                },
                Some(tv) => match decode_tags(tv) {
                    Ok(ts) => ts,
                    Err(e) => {
                        return Err(e);
                    },
                },
            };
            let attributes = match decode_attributes(m) {
                Ok(a) => a,
                Err(e) => {
                    return Err(e);
                },
            };
            Ok(Relation { members, tags, attributes })
        },
        _ => Err(Error::ShapeMismatch(FieldName::RelationList)),
    }
}

/// What decoding a sequence of nodes yields.
pub open spec fn spec_node_list(elems: Seq<Value>) -> Result<Seq<NodeV>, Error>
    decreases elems.len(),
{
    if elems.len() == 0 {
        Ok(Seq::empty())
    } else {
        match spec_decode_node(elems[0]) {
            Err(e) => Err(e),
            Ok(t) => match spec_node_list(elems.skip(1)) {
                Err(e) => Err(e),
                Ok(rest) => Ok(seq![t] + rest),
            },
        }
    }
}

proof fn lemma_node_list_step(prefix: Seq<NodeV>, elems: Seq<Value>, i: int)
    requires
        0 <= i < elems.len(),
        spec_decode_node(elems[i]) is Ok,
    ensures
        seq_res_append(prefix, spec_node_list(elems.skip(i))) == seq_res_append(
            prefix + seq![spec_decode_node(elems[i])->Ok_0],
            spec_node_list(elems.skip(i + 1)),
        ),
{
    assert(elems.skip(i)[0] == elems[i]);
    assert(elems.skip(i).skip(1) =~= elems.skip(i + 1));
    match spec_node_list(elems.skip(i + 1)) {
        Ok(rest) => {
            assert(prefix + (seq![spec_decode_node(elems[i])->Ok_0] + rest) =~= (prefix + seq![
                spec_decode_node(elems[i])->Ok_0,
            ]) + rest);
        },
        Err(_) => {},
    }
}

/// Decode a sequence of node values.
fn decode_node_vec(elems: &Vec<Value>) -> (r: Result<Vec<Node>, Error>)
    ensures
        match r {
            Ok(ns) => spec_node_list(elems@) == Ok::<Seq<NodeV>, Error>(nodes_view(ns@)),
            Err(e) => spec_node_list(elems@) == Err::<Seq<NodeV>, Error>(e),
        },
{
    let mut out: Vec<Node> = Vec::new();
    proof {
        assert(elems@.skip(0) =~= elems@);
        assert(nodes_view(out@) =~= Seq::<NodeV>::empty());
        lemma_append_nil(nodes_view(out@), spec_node_list(elems@));
    }
    let mut i: usize = 0;
    while i < elems.len()
        invariant
            0 <= i <= elems@.len(),
            seq_res_append(nodes_view(out@), spec_node_list(elems@.skip(i as int)))
                == spec_node_list(elems@),
        decreases elems@.len() - i,
    {
        proof {
            assert(elems@.skip(i as int)[0] == elems@[i as int]);
        }
        match decode_node(&elems[i]) {
            Ok(t) => {
                let ghost old_view = nodes_view(out@);
                proof {
                    lemma_node_list_step(old_view, elems@, i as int);
                }
                out.push(t);
                proof {
                    assert(nodes_view(out@) =~= old_view + seq![t@]);
                }
            },
            Err(e) => {
                return Err(e);
            },
        }
        i = i + 1;
    }
    proof {
        assert(elems@.skip(i as int).len() == 0);
        assert(nodes_view(out@) + Seq::<NodeV>::empty() =~= nodes_view(out@));
    }
    Ok(out)
}

/// What decoding a node-list field yields: a sequence, or a collapsed
/// single object.
pub open spec fn spec_decode_nodes(v: Value) -> Result<Seq<NodeV>, Error> {
    match v {
        Value::Sequence(elems) => spec_node_list(elems@),
        Value::Mapping(_) => match spec_decode_node(v) {
            Ok(t) => Ok(seq![t]),
            Err(e) => Err(e),
        },
        _ => Err(Error::ShapeMismatch(FieldName::NodeList)),
    }
}

/// Decode a node-list field.
pub fn decode_nodes(v: &Value) -> (r: Result<Vec<Node>, Error>)
    ensures
        match r {
            Ok(ns) => spec_decode_nodes(*v) == Ok::<Seq<NodeV>, Error>(nodes_view(ns@)),
            Err(e) => spec_decode_nodes(*v) == Err::<Seq<NodeV>, Error>(e),
        },
{
    match v {
        Value::Sequence(elems) => decode_node_vec(elems),
        Value::Mapping(_) => match decode_node(v) {
            Ok(t) => {
                let ghost tv = t@;
                let out: Vec<Node> = vec![t];
                proof {
                    assert(nodes_view(out@) =~= seq![tv]);
                }
                Ok(out)
            },
            Err(e) => Err(e),
        },
        _ => Err(Error::ShapeMismatch(FieldName::NodeList)),
    }
}

/// What decoding a sequence of ways yields.
pub open spec fn spec_way_list(elems: Seq<Value>) -> Result<Seq<WayV>, Error>
    decreases elems.len(),
{
    if elems.len() == 0 {
        Ok(Seq::empty())
    } else {
        match spec_decode_way(elems[0]) {
            Err(e) => Err(e),
            Ok(t) => match spec_way_list(elems.skip(1)) {
                Err(e) => Err(e),
                Ok(rest) => Ok(seq![t] + rest),
            },
        }
    }
}

proof fn lemma_way_list_step(prefix: Seq<WayV>, elems: Seq<Value>, i: int)
    requires
        0 <= i < elems.len(),
        spec_decode_way(elems[i]) is Ok,
    ensures
        seq_res_append(prefix, spec_way_list(elems.skip(i))) == seq_res_append(
            prefix + seq![spec_decode_way(elems[i])->Ok_0],
            spec_way_list(elems.skip(i + 1)),
        ),
{
    assert(elems.skip(i)[0] == elems[i]);
    assert(elems.skip(i).skip(1) =~= elems.skip(i + 1));
    match spec_way_list(elems.skip(i + 1)) {
        Ok(rest) => {
            assert(prefix + (seq![spec_decode_way(elems[i])->Ok_0] + rest) =~= (prefix + seq![
                spec_decode_way(elems[i])->Ok_0,
            ]) + rest);
        },
        Err(_) => {},
    }
}

/// Decode a sequence of way values.
fn decode_way_vec(elems: &Vec<Value>) -> (r: Result<Vec<Way>, Error>)
    ensures
        match r {
            Ok(ws) => spec_way_list(elems@) == Ok::<Seq<WayV>, Error>(ways_view(ws@)),
            Err(e) => spec_way_list(elems@) == Err::<Seq<WayV>, Error>(e),
        },
{
    let mut out: Vec<Way> = Vec::new();
    proof {
        assert(elems@.skip(0) =~= elems@);
        assert(ways_view(out@) =~= Seq::<WayV>::empty());
        lemma_append_nil(ways_view(out@), spec_way_list(elems@));
    }
    let mut i: usize = 0;
    while i < elems.len()
        invariant
            0 <= i <= elems@.len(),
            seq_res_append(ways_view(out@), spec_way_list(elems@.skip(i as int))) == spec_way_list(
                elems@,
            ),
        decreases elems@.len() - i,
    {
        proof {
            assert(elems@.skip(i as int)[0] == elems@[i as int]);
        }
        match decode_way(&elems[i]) {
            Ok(t) => {
                let ghost old_view = ways_view(out@);
                proof {
                    lemma_way_list_step(old_view, elems@, i as int);
                }
                out.push(t);
                proof {
                    assert(ways_view(out@) =~= old_view + seq![t@]);
                }
            },
            Err(e) => {
                return Err(e);
            },
        }
        i = i + 1;
    }
    proof {
        assert(elems@.skip(i as int).len() == 0);
        assert(ways_view(out@) + Seq::<WayV>::empty() =~= ways_view(out@));
    }
    Ok(out)
}

/// What decoding a way-list field yields: a sequence, or a collapsed
/// single object.
pub open spec fn spec_decode_ways(v: Value) -> Result<Seq<WayV>, Error> {
    match v {
        Value::Sequence(elems) => spec_way_list(elems@),
        Value::Mapping(_) => match spec_decode_way(v) {
            Ok(t) => Ok(seq![t]),
            Err(e) => Err(e),
        },
        _ => Err(Error::ShapeMismatch(FieldName::WayList)),
    }
}

/// Decode a way-list field.
pub fn decode_ways(v: &Value) -> (r: Result<Vec<Way>, Error>)
    ensures
        match r {
            Ok(ws) => spec_decode_ways(*v) == Ok::<Seq<WayV>, Error>(ways_view(ws@)),
            Err(e) => spec_decode_ways(*v) == Err::<Seq<WayV>, Error>(e),
        },
{
    match v {
        Value::Sequence(elems) => decode_way_vec(elems),
        Value::Mapping(_) => match decode_way(v) {
            Ok(t) => {
                let ghost tv = t@;
                let out: Vec<Way> = vec![t];
                proof {
                    assert(ways_view(out@) =~= seq![tv]);
                }
                Ok(out)
            },
            Err(e) => Err(e),
        },
        _ => Err(Error::ShapeMismatch(FieldName::WayList)),
    }
}

/// What decoding a sequence of relations yields.
pub open spec fn spec_relation_list(elems: Seq<Value>) -> Result<Seq<RelationV>, Error>
    decreases elems.len(),
{
    if elems.len() == 0 {
        Ok(Seq::empty())
    } else {
        match spec_decode_relation(elems[0]) {
            Err(e) => Err(e),
            Ok(t) => match spec_relation_list(elems.skip(1)) {
                Err(e) => Err(e),
                Ok(rest) => Ok(seq![t] + rest),
            },
        }
    }
}

proof fn lemma_relation_list_step(prefix: Seq<RelationV>, elems: Seq<Value>, i: int)
    requires
        0 <= i < elems.len(),
        spec_decode_relation(elems[i]) is Ok,
    ensures
        seq_res_append(prefix, spec_relation_list(elems.skip(i))) == seq_res_append(
            prefix + seq![spec_decode_relation(elems[i])->Ok_0],
            spec_relation_list(elems.skip(i + 1)),
        ),
{
    assert(elems.skip(i)[0] == elems[i]);
    assert(elems.skip(i).skip(1) =~= elems.skip(i + 1));
    match spec_relation_list(elems.skip(i + 1)) {
        Ok(rest) => {
            assert(prefix + (seq![spec_decode_relation(elems[i])->Ok_0] + rest) =~= (prefix + seq![
                spec_decode_relation(elems[i])->Ok_0,
            ]) + rest);
        },
        Err(_) => {},
    }
}

/// Decode a sequence of relation values.
fn decode_relation_vec(elems: &Vec<Value>) -> (r: Result<Vec<Relation>, Error>)
    ensures
        match r {
            Ok(rs) => spec_relation_list(elems@) == Ok::<Seq<RelationV>, Error>(
                relations_view(rs@),
            ),
            Err(e) => spec_relation_list(elems@) == Err::<Seq<RelationV>, Error>(e),
        },
{
    let mut out: Vec<Relation> = Vec::new();
    proof {
        assert(elems@.skip(0) =~= elems@);
        assert(relations_view(out@) =~= Seq::<RelationV>::empty());
        lemma_append_nil(relations_view(out@), spec_relation_list(elems@));
    }
    let mut i: usize = 0;
    while i < elems.len()
        invariant
            0 <= i <= elems@.len(),
            seq_res_append(relations_view(out@), spec_relation_list(elems@.skip(i as int)))
                == spec_relation_list(elems@),
        decreases elems@.len() - i,
    {
        proof {
            assert(elems@.skip(i as int)[0] == elems@[i as int]);
        }
        match decode_relation(&elems[i]) {
            Ok(t) => {
                let ghost old_view = relations_view(out@);
                proof {
                    lemma_relation_list_step(old_view, elems@, i as int);
                }
                out.push(t);
                proof {
                    assert(relations_view(out@) =~= old_view + seq![t@]);
                }
            },
            Err(e) => {
                return Err(e);
            },
        }
        i = i + 1;
    }
    proof {
        assert(elems@.skip(i as int).len() == 0);
        assert(relations_view(out@) + Seq::<RelationV>::empty() =~= relations_view(out@));
    }
    Ok(out)
}

/// What decoding a relation-list field yields: a sequence, or a collapsed
/// single object.
pub open spec fn spec_decode_relations(v: Value) -> Result<Seq<RelationV>, Error> {
    match v {
        Value::Sequence(elems) => spec_relation_list(elems@),
        Value::Mapping(_) => match spec_decode_relation(v) {
            Ok(t) => Ok(seq![t]),
            Err(e) => Err(e),
        },
        _ => Err(Error::ShapeMismatch(FieldName::RelationList)),
    }
}

/// Decode a relation-list field.
pub fn decode_relations(v: &Value) -> (r: Result<Vec<Relation>, Error>)
    ensures
        match r {
            Ok(rs) => spec_decode_relations(*v) == Ok::<Seq<RelationV>, Error>(
                relations_view(rs@),
            ),
            Err(e) => spec_decode_relations(*v) == Err::<Seq<RelationV>, Error>(e),
        },
{
    match v {
        Value::Sequence(elems) => decode_relation_vec(elems),
        Value::Mapping(_) => match decode_relation(v) {
            Ok(t) => {
                let ghost tv = t@;
                let out: Vec<Relation> = vec![t];
                proof {
                    assert(relations_view(out@) =~= seq![tv]);
                }
                Ok(out)
            },
            Err(e) => Err(e),
        },
        _ => Err(Error::ShapeMismatch(FieldName::RelationList)),
    }
}

/// What decoding a whole document yields: the document metadata (generator,
/// copyright, license and attribution are required; the version string
/// defaults to empty; the base-data timestamp and the server-reported error
/// string are optional), the entity collections (absent means empty), and
/// the optional capability document under its `api` key.  The document root
/// must be a mapping.
pub open spec fn spec_decode_osm(v: Value) -> Result<OSMV, Error> {
    match v {
        Value::Mapping(m) => spec_decode_osm_entries(m@),
        _ => Err(Error::DecodeFailure),
    }
}

/// [`spec_decode_osm`] on the root mapping's entries, field by field in
/// declared order; the first malformed field's error is reported.
pub open spec fn spec_decode_osm_entries(m: Seq<(String, Value)>) -> Result<OSMV, Error> {
    let rversion = match find2(m, "@version"@, "version"@) {
        None => Ok(Seq::<char>::empty()),
        Some(x) => match x {
            Value::Text(s) => Ok(s@),
            _ => Err(Error::ShapeMismatch(FieldName::DocumentVersion)),
        },
    };
    let rgen = spec_req_text(m, "@generator"@, "generator"@, FieldName::Generator);
    let rts = spec_opt_text(m, "@timestamp"@, "timestamp"@, FieldName::DocumentTimestamp);
    let rcopy = spec_req_text(m, "@copyright"@, "copyright"@, FieldName::Copyright);
    let rlic = spec_req_text(m, "@license"@, "license"@, FieldName::License);
    let rattr = spec_req_text(m, "@attribution"@, "attribution"@, FieldName::Attribution);
    let rerr = spec_opt_text(m, "@error"@, "error"@, FieldName::DocumentError);
    let rnode = match lookup(m, "node"@) {
        None => Ok(Seq::<NodeV>::empty()),
        Some(x) => spec_decode_nodes(x),
    };
    let rway = match lookup(m, "way"@) {
        None => Ok(Seq::<WayV>::empty()),
        Some(x) => spec_decode_ways(x),
    };
    let rrel = match lookup(m, "relation"@) {
        None => Ok(Seq::<RelationV>::empty()),
        Some(x) => spec_decode_relations(x),
    };
    let rapi = match lookup(m, "api"@) {
        None => Ok(None),
        Some(x) => match spec_decode_api_value(x) {
            Ok(a) => Ok(Some(a)),
            Err(e) => Err(e),
        },
    };
    if rversion is Err {
        Err(rversion->Err_0)
    } else if rgen is Err {
        Err(rgen->Err_0)
    } else if rts is Err {
        Err(rts->Err_0)
    } else if rcopy is Err {
        Err(rcopy->Err_0)
    } else if rlic is Err {
        Err(rlic->Err_0)
    } else if rattr is Err {
        Err(rattr->Err_0)
    } else if rerr is Err {
        Err(rerr->Err_0)
    } else if rnode is Err {
        Err(rnode->Err_0)
    } else if rway is Err {
        Err(rway->Err_0)
    } else if rrel is Err {
        Err(rrel->Err_0)
    } else if rapi is Err {
        Err(rapi->Err_0)
    } else {
        Ok(
            (OSMV {
                version: rversion->Ok_0,
                generator: rgen->Ok_0,
                time_stamp_osm_base: rts->Ok_0,
                copyright: rcopy->Ok_0,
                license: rlic->Ok_0,
                attribution: rattr->Ok_0,
                error: rerr->Ok_0,
                node: rnode->Ok_0,
                way: rway->Ok_0,
                relation: rrel->Ok_0,
                api: rapi->Ok_0,
            }),
        )
    }
}

/// Decode a whole document out of the semi-structured value the bridge
/// produced for either wire encoding.
pub fn decode_osm(v: &Value) -> (r: Result<OSM, Error>)
    ensures
        res_view(r) == spec_decode_osm(*v),
{
    let m = match v {
        Value::Mapping(m) => m,
        _ => {
            return Err(Error::DecodeFailure);
        },
    };
    let version: String = match find_alias2(m, "@version", "version") {
        None => String::new(),
        Some(x) => match x {
            Value::Text(s) => s.clone(),
            _ => {
                return Err(Error::ShapeMismatch(FieldName::DocumentVersion));
            },
        },
    };
    let generator = match req_text(m, "@generator", "generator", FieldName::Generator) {
        Ok(s) => s,
        Err(e) => {
            return Err(e);
        },
    };
    let time_stamp_osm_base = match opt_text(
        m,
        "@timestamp",
        "timestamp",
        FieldName::DocumentTimestamp,
    ) {
        Ok(o) => o,
        Err(e) => {
            return Err(e);
        },
    };
    let copyright = match req_text(m, "@copyright", "copyright", FieldName::Copyright) {
        Ok(s) => s,
        Err(e) => {
            return Err(e);
        },
    };
    let license = match req_text(m, "@license", "license", FieldName::License) {
        Ok(s) => s,
        Err(e) => {
            return Err(e);
        },
    };
    let attribution = match req_text(m, "@attribution", "attribution", FieldName::Attribution) {
        Ok(s) => s,
        Err(e) => {
            return Err(e);
        },
    };
    let error = match opt_text(m, "@error", "error", FieldName::DocumentError) {
        Ok(o) => o,
        Err(e) => {
            return Err(e);
        },
    };
    let node: Vec<Node> = match lookup_key(m, "node") {
        None => {
            let out: Vec<Node> = Vec::new();
            proof {
                assert(nodes_view(out@) =~= Seq::<NodeV>::empty());
            }
            out
        },
        Some(x) => match decode_nodes(x) {
            Ok(ns) => ns,
            Err(e) => {
                return Err(e);
            },
        },
    };
    let way: Vec<Way> = match lookup_key(m, "way") {
        None => {
            let out: Vec<Way> = Vec::new();
            proof {
                assert(ways_view(out@) =~= Seq::<WayV>::empty());
            }
            out
        },
        Some(x) => match decode_ways(x) {
            Ok(ws) => ws,
            Err(e) => {
                return Err(e);
            },
        },
    };
    let relation: Vec<Relation> = match lookup_key(m, "relation") {
        None => {
            let out: Vec<Relation> = Vec::new();
            proof {
                assert(relations_view(out@) =~= Seq::<RelationV>::empty());
            }
            out
        },
        Some(x) => match decode_relations(x) {
            Ok(rs) => rs,
            Err(e) => {
                return Err(e);
            },
        },
    };
    let api: Option<Api> = match lookup_key(m, "api") {
        None => None,
        Some(x) => match decode_api(x) {
            Ok(a) => Some(a),
            Err(e) => {
                return Err(e);
            },
        },
    };
    Ok(
        OSM {
            version,
            generator,
            time_stamp_osm_base,
            copyright,
            license,
            attribution,
            error,
            node,
            way,
            relation,
            api,
        },
    )
}

} // verus!
