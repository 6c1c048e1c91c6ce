//! The shape-polymorphic capability decoder.
//!
//! The server has emitted its capability document in several shapes across
//! protocol epochs: the supported-versions field alone has three legal
//! forms, and every limit may sit one level inside a wrapper object named
//! after its resource.  Each decoder here inspects the semi-structured value
//! with ordered checks (first match wins) and normalizes it into the typed
//! model; each contract states exactly which shape decodes to what, and
//! which error every other shape raises.

use vstd::prelude::*;
use crate::elements::{Api, ApiStatus, ApiV, ApiVersion, ApiVersionV, QueryLimit, Status};
use crate::error::{Error, FieldName};
use crate::value::{
    find2, find_alias2, lookup, lookup_key, scalar_i64, scalar_number, spec_scalar_i64,
    spec_scalar_number, Number, NumberV, Value,
};

verus! {

/// The mathematical image of a decode result: the value's view on success,
/// the same error on failure.
pub open spec fn res_view<T: View>(r: Result<T, Error>) -> Result<T::V, Error> {
    match r {
        Ok(t) => Ok(t@),
        Err(e) => Err(e),
    }
}

/// Every element of the sequence is a textual scalar.
pub open spec fn all_texts(elems: Seq<Value>) -> bool {
    forall|i: int| 0 <= i < elems.len() ==> elems[i] is Text
}

/// The textual content of each element, in original order.
pub open spec fn texts_of(elems: Seq<Value>) -> Seq<Seq<char>> {
    elems.map_values(|v: Value| v->Text_0@)
}

/// What decoding the version field yields, by its ordered legal shapes:
///
/// 1. a sequence of version strings — an explicit list;
/// 2. a mapping with the reserved single-text-content key — a wrapped
///    scalar, an explicit list of one;
/// 3. a mapping with both a maximum alias and a minimum alias — a range,
///    stored maximum first;
/// 4. anything else is `InvalidVersionShape`; a legal shape whose entries
///    are not strings is `InvalidVersionEntry`.
///
/// There is no fallback to `Unknown` here: that variant is reserved for a
/// version field that is absent altogether.
pub open spec fn spec_decode_version(v: Value) -> Result<ApiVersionV, Error> {
    match v {
        Value::Sequence(elems) => {
            if all_texts(elems@) {
                Ok(ApiVersionV::Versions(texts_of(elems@)))
            } else {
                Err(Error::InvalidVersionEntry)
            }
        },
        Value::Mapping(m) => {
            match lookup(m@, "$text"@) {
                Some(tv) => match tv {
                    Value::Text(s) => Ok(ApiVersionV::Versions(seq![s@])),
                    _ => Err(Error::InvalidVersionEntry),
                },
                None => {
                    let mx = find2(m@, "@maximum"@, "maximum"@);
                    let mn = find2(m@, "@minimum"@, "minimum"@);
                    if mx is Some && mn is Some {
                        match (mx->0, mn->0) {
                            (Value::Text(a), Value::Text(b)) => Ok(
                                ApiVersionV::VersionRange(a@, b@),
                            ),
                            _ => Err(Error::InvalidVersionEntry),
                        }
                    } else {
                        Err(Error::InvalidVersionShape)
                    }
                },
            }
        },
        _ => Err(Error::InvalidVersionShape),
    }
}

/// Decode the version field from whichever of its three legal shapes it is
/// in.  The stored range order is maximum first, then minimum.
pub fn decode_version(v: &Value) -> (r: Result<ApiVersion, Error>)
    ensures
        res_view(r) == spec_decode_version(*v),
{
    match v {
        Value::Sequence(elems) => {
            let mut out: Vec<String> = Vec::new();
            let mut i: usize = 0;
            while i < elems.len()
                invariant
                    *v is Sequence,
                    v->Sequence_0 == *elems,
                    0 <= i <= elems@.len(),
                    out@.len() == i,
                    forall|j: int| 0 <= j < i ==> elems@[j] is Text,
                    forall|j: int| 0 <= j < i ==> out@[j]@ == elems@[j]->Text_0@,
                decreases elems@.len() - i,
            {
                match &elems[i] {
                    Value::Text(s) => {
                        out.push(s.clone());
                    },
                    _ => {
                        proof {
                            assert(!all_texts(elems@));
                        }
                        return Err(Error::InvalidVersionEntry);
                    },
                }
                i = i + 1;
            }
            proof {
                assert(all_texts(elems@));
                assert(out@.map_values(|s: String| s@) =~= texts_of(elems@));
            }
            Ok(ApiVersion::Versions(out))
        },
        Value::Mapping(m) => {
            match lookup_key(m, "$text") {
                Some(tv) => match tv {
                    Value::Text(s) => {
                        let out: Vec<String> = vec![s.clone()];
                        proof {
                            assert(out@.map_values(|x: String| x@) =~= seq![s@]);
                        }
                        Ok(ApiVersion::Versions(out))
                    },
                    _ => Err(Error::InvalidVersionEntry),
                },
                None => {
                    let mx = find_alias2(m, "@maximum", "maximum");
                    let mn = find_alias2(m, "@minimum", "minimum");
                    match (mx, mn) {
                        (Some(a), Some(b)) => match (a, b) {
                            (Value::Text(sa), Value::Text(sb)) => Ok(
                                ApiVersion::VersionRange(sa.clone(), sb.clone()),
                            ),
                            _ => Err(Error::InvalidVersionEntry),
                        },
                        _ => Err(Error::InvalidVersionShape),
                    }
                },
            }
        },
        _ => Err(Error::InvalidVersionShape),
    }
}

/// What extracting an optional integer out of a limit wrapper yields: the
/// wrapper must be a mapping; an absent inner field is `None` (an empty
/// wrapper is legal and means "no ceiling published"); a present but
/// non-integer inner field is a `ShapeMismatch`.
pub open spec fn spec_extract_i64(v: Value, a1: Seq<char>, a2: Seq<char>, f: FieldName) -> Result<
    Option<i64>,
    Error,
> {
    match v {
        Value::Mapping(m) => match find2(m@, a1, a2) {
            None => Ok(None),
            Some(x) => match spec_scalar_i64(x) {
                Some(i) => Ok(Some(i)),
                None => Err(Error::ShapeMismatch(f)),
            },
        },
        _ => Err(Error::ShapeMismatch(f)),
    }
}

/// Extract an optional integer from a limit wrapper under a two-alias list.
pub fn extract_inner_i64(v: &Value, a1: &str, a2: &str, f: FieldName) -> (r: Result<
    Option<i64>,
    Error,
>)
    ensures
        r == spec_extract_i64(*v, a1@, a2@, f),
{
    match v {
        Value::Mapping(m) => match find_alias2(m, a1, a2) {
            None => Ok(None),
            Some(x) => match scalar_i64(x) {
                Some(i) => Ok(Some(i)),
                None => Err(Error::ShapeMismatch(f)),
            },
        },
        _ => Err(Error::ShapeMismatch(f)),
    }
}

/// Like [`spec_extract_i64`], for a numeric field that may carry a
/// fractional part.
pub open spec fn spec_extract_number(v: Value, a1: Seq<char>, a2: Seq<char>, f: FieldName) -> Result<
    Option<NumberV>,
    Error,
> {
    match v {
        Value::Mapping(m) => match find2(m@, a1, a2) {
            None => Ok(None),
            Some(x) => match spec_scalar_number(x) {
                Some(n) => Ok(Some(n)),
                None => Err(Error::ShapeMismatch(f)),
            },
        },
        _ => Err(Error::ShapeMismatch(f)),
    }
}

/// The view of an optional-number decode result.
pub open spec fn opt_number_view(r: Result<Option<Number>, Error>) -> Result<
    Option<NumberV>,
    Error,
> {
    match r {
        Ok(Some(n)) => Ok(Some(n@)),
        Ok(None) => Ok(None),
        Err(e) => Err(e),
    }
}

/// Extract an optional numeric value from a limit wrapper.
pub fn extract_inner_number(v: &Value, a1: &str, a2: &str, f: FieldName) -> (r: Result<
    Option<Number>,
    Error,
>)
    ensures
        opt_number_view(r) == spec_extract_number(*v, a1@, a2@, f),
{
    match v {
        Value::Mapping(m) => match find_alias2(m, a1, a2) {
            None => Ok(None),
            Some(x) => match scalar_number(x) {
                Some(n) => Ok(Some(n)),
                None => Err(Error::ShapeMismatch(f)),
            },
        },
        _ => Err(Error::ShapeMismatch(f)),
    }
}

/// Extract the resource ceiling under a `maximum` alias.
pub fn extract_maximum(v: &Value, f: FieldName) -> (r: Result<Option<i64>, Error>)
    ensures
        r == spec_extract_i64(*v, "@maximum"@, "maximum"@, f),
{
    extract_inner_i64(v, "@maximum", "maximum", f)
}

/// Extract the advertised request timeout under a `seconds` alias.
pub fn extract_seconds(v: &Value, f: FieldName) -> (r: Result<Option<i64>, Error>)
    ensures
        r == spec_extract_i64(*v, "@seconds"@, "seconds"@, f),
{
    extract_inner_i64(v, "@seconds", "seconds", f)
}

/// Extract the page-size ceiling under a `per_page` alias.
pub fn extract_per_page(v: &Value, f: FieldName) -> (r: Result<Option<i64>, Error>)
    ensures
        r == spec_extract_i64(*v, "@per_page"@, "per_page"@, f),
{
    extract_inner_i64(v, "@per_page", "per_page", f)
}

/// What decoding a paging-limit object yields: `default` and `max` are
/// required under their attribute-prefixed or bare aliases and must be
/// integers; `max_elements` follows the same alias pattern but is optional.
pub open spec fn spec_query_limit_entries(m: Seq<(String, Value)>) -> Result<QueryLimit, Error> {
    let rd = find2(m, "@default_query_limit"@, "default_query_limit"@);
    let rm = find2(m, "@maximum_query_limit"@, "maximum_query_limit"@);
    let re = find2(m, "@maximum_elements"@, "maximum_elements"@);
    if rd is None {
        Err(Error::MissingRequiredField(FieldName::DefaultQueryLimit))
    } else if spec_scalar_i64(rd->0) is None {
        Err(Error::ShapeMismatch(FieldName::DefaultQueryLimit))
    } else if rm is None {
        Err(Error::MissingRequiredField(FieldName::MaximumQueryLimit))
    } else if spec_scalar_i64(rm->0) is None {
        Err(Error::ShapeMismatch(FieldName::MaximumQueryLimit))
    } else if re is Some && spec_scalar_i64(re->0) is None {
        Err(Error::ShapeMismatch(FieldName::MaximumElements))
    } else {
        Ok(
            (QueryLimit {
                default: spec_scalar_i64(rd->0)->0,
                max: spec_scalar_i64(rm->0)->0,
                max_elements: if re is Some {
                    Some(spec_scalar_i64(re->0)->0)
                } else {
                    None
                },
            }),
        )
    }
}

/// Dispatch of [`spec_query_limit_entries`] on the wrapper value's shape.
pub open spec fn spec_decode_query_limit(v: Value, f: FieldName) -> Result<QueryLimit, Error> {
    match v {
        Value::Mapping(m) => spec_query_limit_entries(m@),
        _ => Err(Error::ShapeMismatch(f)),
    }
}

/// Decode a paging-limit object.
pub fn decode_query_limit(v: &Value, f: FieldName) -> (r: Result<QueryLimit, Error>)
    ensures
        r == spec_decode_query_limit(*v, f),
{
    match v {
        Value::Mapping(m) => {
            let default_v = match find_alias2(m, "@default_query_limit", "default_query_limit") {
                None => {
                    return Err(Error::MissingRequiredField(FieldName::DefaultQueryLimit));
                },
                Some(x) => x,
            };
            let default_i = match scalar_i64(default_v) {
                None => {
                    return Err(Error::ShapeMismatch(FieldName::DefaultQueryLimit));
                },
                Some(i) => i,
            };
            let max_v = match find_alias2(m, "@maximum_query_limit", "maximum_query_limit") {
                None => {
                    return Err(Error::MissingRequiredField(FieldName::MaximumQueryLimit));
                },
                Some(x) => x,
            };
            let max_i = match scalar_i64(max_v) {
                None => {
                    return Err(Error::ShapeMismatch(FieldName::MaximumQueryLimit));
                },
                Some(i) => i,
            };
            let max_elements = match find_alias2(m, "@maximum_elements", "maximum_elements") {
                None => None,
                Some(x) => match scalar_i64(x) {
                    None => {
                        return Err(Error::ShapeMismatch(FieldName::MaximumElements));
                    },
                    Some(i) => Some(i),
                },
            };
            Ok(QueryLimit { default: default_i, max: max_i, max_elements })
        },
        _ => Err(Error::ShapeMismatch(f)),
    }
}

/// What one sub-service status token decodes to.  The bare spelling
/// `readonly` and the canonical `read_only` name the same state.
pub open spec fn spec_parse_status(s: Seq<char>) -> Option<Status> {
    if s == "online"@ {
        Some(Status::Online)
    } else if s == "readonly"@ || s == "read_only"@ {
        Some(Status::ReadOnly)
    } else if s == "offline"@ {
        Some(Status::Offline)
    } else {
        None
    }
}

/// Decode one sub-service status token.
pub fn parse_status(s: &str) -> (r: Option<Status>)
    ensures
        r == spec_parse_status(s@),
{
    if crate::scalar::str_is(s, "online") {
        Some(Status::Online)
    } else if crate::scalar::str_is(s, "readonly") || crate::scalar::str_is(s, "read_only") {
        Some(Status::ReadOnly)
    } else if crate::scalar::str_is(s, "offline") {
        Some(Status::Offline)
    } else {
        None
    }
}

/// What decoding one required sub-service entry of a status object yields.
pub open spec fn spec_status_entry(
    m: Seq<(String, Value)>,
    a1: Seq<char>,
    a2: Seq<char>,
    f: FieldName,
) -> Result<Status, Error> {
    match find2(m, a1, a2) {
        None => Err(Error::IncompleteStatusTriple),
        Some(x) => match x {
            Value::Text(s) => match spec_parse_status(s@) {
                Some(st) => Ok(st),
                None => Err(Error::ShapeMismatch(f)),
            },
            _ => Err(Error::ShapeMismatch(f)),
        },
    }
}

/// Decode one required sub-service entry of a status object.
fn status_entry(m: &Vec<(String, Value)>, a1: &str, a2: &str, f: FieldName) -> (r: Result<
    Status,
    Error,
>)
    ensures
        r == spec_status_entry(m@, a1@, a2@, f),
{
    match find_alias2(m, a1, a2) {
        None => Err(Error::IncompleteStatusTriple),
        Some(x) => match x {
            Value::Text(s) => match parse_status(s.as_str()) {
                Some(st) => Ok(st),
                None => Err(Error::ShapeMismatch(f)),
            },
            _ => Err(Error::ShapeMismatch(f)),
        },
    }
}

/// What decoding a status object yields: all three sub-service entries are
/// required at once — partial presence is `IncompleteStatusTriple`, a
/// decode error, never a partial result.
pub open spec fn spec_decode_status(v: Value) -> Result<ApiStatus, Error> {
    match v {
        Value::Mapping(m) => {
            let rd = spec_status_entry(m@, "@database"@, "database"@, FieldName::StatusDatabase);
            let ra = spec_status_entry(m@, "@api"@, "api"@, FieldName::StatusApi);
            let rg = spec_status_entry(m@, "@gpx"@, "gpx"@, FieldName::StatusGpx);
            if rd is Err {
                Err(rd->Err_0)
            } else if ra is Err {
                Err(ra->Err_0)
            } else if rg is Err {
                Err(rg->Err_0)
            } else {
                Ok((ApiStatus { database: rd->Ok_0, api: ra->Ok_0, gpx: rg->Ok_0 }))
            }
        },
        _ => Err(Error::ShapeMismatch(FieldName::StatusTriple)),
    }
}

/// Decode a status object.
pub fn decode_status(v: &Value) -> (r: Result<ApiStatus, Error>)
    ensures
        r == spec_decode_status(*v),
{
    match v {
        Value::Mapping(m) => {
            let database = match status_entry(m, "@database", "database", FieldName::StatusDatabase)
                {
                Ok(s) => s,
                Err(e) => {
                    return Err(e);
                },
            };
            let api = match status_entry(m, "@api", "api", FieldName::StatusApi) {
                Ok(s) => s,
                Err(e) => {
                    return Err(e);
                },
            };
            let gpx = match status_entry(m, "@gpx", "gpx", FieldName::StatusGpx) {
                Ok(s) => s,
                Err(e) => {
                    return Err(e);
                },
            };
            Ok(ApiStatus { database, api, gpx })
        },
        _ => Err(Error::ShapeMismatch(FieldName::StatusTriple)),
    }
}

/// The version field of a capability document: absent under both of its
/// top-level aliases means `Unknown`; present, it must be in one of its
/// three legal shapes.
pub open spec fn spec_opt_version(entries: Seq<(String, Value)>) -> Result<ApiVersionV, Error> {
    match find2(entries, "version"@, "versions"@) {
        None => Ok(ApiVersionV::Unknown),
        Some(vv) => spec_decode_version(vv),
    }
}

/// An optional integer limit one level inside a wrapper object: an absent
/// wrapper, like an absent inner field, is `None`, never an error.
pub open spec fn spec_opt_limit_i64(
    entries: Seq<(String, Value)>,
    top: Seq<char>,
    a1: Seq<char>,
    a2: Seq<char>,
    f: FieldName,
) -> Result<Option<i64>, Error> {
    match lookup(entries, top) {
        None => Ok(None),
        Some(w) => spec_extract_i64(w, a1, a2, f),
    }
}

/// An optional numeric limit one level inside a wrapper object.
pub open spec fn spec_opt_limit_number(
    entries: Seq<(String, Value)>,
    top: Seq<char>,
    a1: Seq<char>,
    a2: Seq<char>,
    f: FieldName,
) -> Result<Option<NumberV>, Error> {
    match lookup(entries, top) {
        None => Ok(None),
        Some(w) => spec_extract_number(w, a1, a2, f),
    }
}

/// An optional paging-limit object under its own top-level key.
pub open spec fn spec_opt_query_limit(
    entries: Seq<(String, Value)>,
    top: Seq<char>,
    f: FieldName,
) -> Result<Option<QueryLimit>, Error> {
    match lookup(entries, top) {
        None => Ok(None),
        Some(w) => match spec_decode_query_limit(w, f) {
            Ok(q) => Ok(Some(q)),
            Err(e) => Err(e),
        },
    }
}

/// The optional status triple under its top-level key.
pub open spec fn spec_opt_status(entries: Seq<(String, Value)>) -> Result<
    Option<ApiStatus>,
    Error,
> {
    match lookup(entries, "status"@) {
        None => Ok(None),
        Some(w) => match spec_decode_status(w) {
            Ok(s) => Ok(Some(s)),
            Err(e) => Err(e),
        },
    }
}

/// What decoding a whole capability document yields, field by field in
/// declared order; the first malformed field's error is reported.
pub open spec fn spec_decode_api(entries: Seq<(String, Value)>) -> Result<ApiV, Error> {
    let rv = spec_opt_version(entries);
    let rareas = spec_opt_limit_number(
        entries,
        "area"@,
        "@maximum"@,
        "maximum"@,
        FieldName::AreaMax,
    );
    let rnote = spec_opt_limit_i64(
        entries,
        "note_area"@,
        "@maximum"@,
        "maximum"@,
        FieldName::NoteAreaMax,
    );
    let rtrace = spec_opt_limit_i64(
        entries,
        "tracepoints"@,
        "@per_page"@,
        "per_page"@,
        FieldName::TracepointsPerPage,
    );
    let rway = spec_opt_limit_i64(
        entries,
        "waynodes"@,
        "@maximum"@,
        "maximum"@,
        FieldName::WaynodesMax,
    );
    let rrel = spec_opt_limit_i64(
        entries,
        "relationmembers"@,
        "@maximum"@,
        "maximum"@,
        FieldName::RelationmembersMax,
    );
    let rchange = spec_opt_query_limit(entries, "changesets"@, FieldName::ChangesetsLimit);
    let rnotes = spec_opt_query_limit(entries, "notes"@, FieldName::NotesLimit);
    let rtime = spec_opt_limit_i64(
        entries,
        "timeout"@,
        "@seconds"@,
        "seconds"@,
        FieldName::TimeoutSeconds,
    );
    let rstatus = spec_opt_status(entries);
    if rv is Err {
        Err(rv->Err_0)
    } else if rareas is Err {
        Err(rareas->Err_0)
    } else if rnote is Err {
        Err(rnote->Err_0)
    } else if rtrace is Err {
        Err(rtrace->Err_0)
    } else if rway is Err {
        Err(rway->Err_0)
    } else if rrel is Err {
        Err(rrel->Err_0)
    } else if rchange is Err {
        Err(rchange->Err_0)
    } else if rnotes is Err {
        Err(rnotes->Err_0)
    } else if rtime is Err {
        Err(rtime->Err_0)
    } else if rstatus is Err {
        Err(rstatus->Err_0)
    } else {
        Ok(
            (ApiV {
                version: rv->Ok_0,
                max_areas: rareas->Ok_0,
                max_note_areas: rnote->Ok_0,
                trackpoints_per_page: rtrace->Ok_0,
                max_way_nodes: rway->Ok_0,
                max_relation_members: rrel->Ok_0,
                changesets: rchange->Ok_0,
                notes: rnotes->Ok_0,
                timeout: rtime->Ok_0,
                status: rstatus->Ok_0,
            }),
        )
    }
}

/// What decoding the value under the capability document's top-level key
/// yields: it must be a mapping.
pub open spec fn spec_decode_api_value(v: Value) -> Result<ApiV, Error> {
    match v {
        Value::Mapping(m) => spec_decode_api(m@),
        _ => Err(Error::ShapeMismatch(FieldName::ApiSection)),
    }
}

/// Decode a whole capability document out of a semi-structured value.
pub fn decode_api(v: &Value) -> (r: Result<Api, Error>)
    ensures
        res_view(r) == spec_decode_api_value(*v),
{
    let m = match v {
        Value::Mapping(m) => m,
        _ => {
            return Err(Error::ShapeMismatch(FieldName::ApiSection));
        },
    };
    let version = match find_alias2(m, "version", "versions") {
        None => ApiVersion::Unknown,
        Some(vv) => match decode_version(vv) {
            Ok(x) => x,
            Err(e) => {
                return Err(e);
            },
        },
    };
    let max_areas = match lookup_key(m, "area") {
        None => None,
        Some(w) => match extract_inner_number(w, "@maximum", "maximum", FieldName::AreaMax) {
            Ok(o) => o,
            Err(e) => {
                return Err(e);
            },
        },
    };
    let max_note_areas = match lookup_key(m, "note_area") {
        None => None,
        Some(w) => match extract_maximum(w, FieldName::NoteAreaMax) {
            Ok(o) => o,
            Err(e) => {
                return Err(e);
            },
        },
    };
    let trackpoints_per_page = match lookup_key(m, "tracepoints") {
        None => None,
        Some(w) => match extract_per_page(w, FieldName::TracepointsPerPage) {
            Ok(o) => o,
            Err(e) => {
                return Err(e);
            },
        },
    };
    let max_way_nodes = match lookup_key(m, "waynodes") {
        None => None,
        Some(w) => match extract_maximum(w, FieldName::WaynodesMax) {
            Ok(o) => o,
            Err(e) => {
                return Err(e);
            },
        },
    };
    let max_relation_members = match lookup_key(m, "relationmembers") {
        None => None,
        Some(w) => match extract_maximum(w, FieldName::RelationmembersMax) {
            Ok(o) => o,
            Err(e) => {
                return Err(e);
            },
        },
    };
    let changesets = match lookup_key(m, "changesets") {
        None => None,
        Some(w) => match decode_query_limit(w, FieldName::ChangesetsLimit) {
            Ok(q) => Some(q),
            Err(e) => {
                return Err(e);
            },
        },
    };
    let notes = match lookup_key(m, "notes") {
        None => None,
        Some(w) => match decode_query_limit(w, FieldName::NotesLimit) {
            Ok(q) => Some(q),
            Err(e) => {
                return Err(e);
            },
        },
    };
    let timeout = match lookup_key(m, "timeout") {
        None => None,
        Some(w) => match extract_seconds(w, FieldName::TimeoutSeconds) {
            Ok(o) => o,
            Err(e) => {
                return Err(e);
            },
        },
    };
    let status = match lookup_key(m, "status") {
        None => None,
        Some(w) => match decode_status(w) {
            Ok(s) => Some(s),
            Err(e) => {
                return Err(e);
            },
        },
    };
    Ok(
        Api {
            version,
            max_areas,
            max_note_areas,
            trackpoints_per_page,
            max_way_nodes,
            max_relation_members,
            changesets,
            notes,
            timeout,
            status,
        },
    )
}

/// Law: a version field that is a sequence of strings decodes to the
/// explicit list of exactly those strings, in their original order.
pub proof fn lemma_version_list_decode(v: Value)
    requires
        v is Sequence,
        all_texts(v->Sequence_0@),
    ensures
        spec_decode_version(v) == Ok::<ApiVersionV, Error>(
            ApiVersionV::Versions(texts_of(v->Sequence_0@)),
        ),
{
}

/// Law: a version field that is a mapping with both a maximum alias and a
/// minimum alias (and no single-text-content marker) decodes to a range
/// holding the maximum value first and the minimum value second — never the
/// reversed pair, regardless of where either alias stands in the input.
pub proof fn lemma_version_range_decode(v: Value)
    requires
        v is Mapping,
        lookup(v->Mapping_0@, "$text"@) is None,
        find2(v->Mapping_0@, "@maximum"@, "maximum"@) matches Some(mx) && mx is Text,
        find2(v->Mapping_0@, "@minimum"@, "minimum"@) matches Some(mn) && mn is Text,
    ensures
        spec_decode_version(v) == Ok::<ApiVersionV, Error>(
            ApiVersionV::VersionRange(
                find2(v->Mapping_0@, "@maximum"@, "maximum"@)->0->Text_0@,
                find2(v->Mapping_0@, "@minimum"@, "minimum"@)->0->Text_0@,
            ),
        ),
{
}

/// Law: a version field that is neither a sequence, nor a mapping with the
/// single-text-content marker, nor a mapping with both range aliases, fails
/// with `InvalidVersionShape` — it never falls back to `Unknown`.
pub proof fn lemma_version_bad_shape(v: Value)
    requires
        !(v is Sequence),
        !(v is Mapping && lookup(v->Mapping_0@, "$text"@) is Some),
        !(v is Mapping && find2(v->Mapping_0@, "@maximum"@, "maximum"@) is Some && find2(
            v->Mapping_0@,
            "@minimum"@,
            "minimum"@,
        ) is Some),
    ensures
        spec_decode_version(v) == Err::<ApiVersionV, Error>(Error::InvalidVersionShape),
{
}

/// Law: decoding a present version field never yields `Unknown`, whatever
/// the input; that variant is reserved for an absent field.
pub proof fn lemma_version_never_unknown(v: Value)
    ensures
        spec_decode_version(v) != Ok::<ApiVersionV, Error>(ApiVersionV::Unknown),
{
}

/// Law: a paging-limit object is read only through its declared alias
/// chains, so two mappings whose alias lookups agree decode to the same
/// limits — in particular, the attribute-prefixed spellings and the bare
/// spellings of the sub-fields are interchangeable.
pub proof fn lemma_query_limit_alias_equivalence(
    m1: Seq<(String, Value)>,
    m2: Seq<(String, Value)>,
)
    requires
        find2(m1, "@default_query_limit"@, "default_query_limit"@) == find2(
            m2,
            "@default_query_limit"@,
            "default_query_limit"@,
        ),
        find2(m1, "@maximum_query_limit"@, "maximum_query_limit"@) == find2(
            m2,
            "@maximum_query_limit"@,
            "maximum_query_limit"@,
        ),
        find2(m1, "@maximum_elements"@, "maximum_elements"@) == find2(
            m2,
            "@maximum_elements"@,
            "maximum_elements"@,
        ),
    ensures
        spec_query_limit_entries(m1) == spec_query_limit_entries(m2),
{
}

/// Law: the bare status token `readonly` decodes to the same state as the
/// canonical spelling `read_only`, and the three advertised tokens decode
/// to three distinct states.
pub proof fn lemma_status_tokens()
    ensures
        spec_parse_status("readonly"@) == spec_parse_status("read_only"@),
        spec_parse_status("online"@) == Some(Status::Online),
        spec_parse_status("readonly"@) == Some(Status::ReadOnly),
        spec_parse_status("offline"@) == Some(Status::Offline),
        spec_parse_status("online"@) != spec_parse_status("readonly"@),
        spec_parse_status("online"@) != spec_parse_status("offline"@),
        spec_parse_status("readonly"@) != spec_parse_status("offline"@),
{
    reveal_strlit("online");
    reveal_strlit("readonly");
    reveal_strlit("read_only");
    reveal_strlit("offline");
    assert("online"@.len() == 6);
    assert("readonly"@.len() == 8);
    assert("read_only"@.len() == 9);
    assert("offline"@.len() == 7);
}

/// Law: a capability document lacking the `area`, `timeout` and `status`
/// keys decodes those three fields successfully to absence — none of them
/// can be the cause of a decode failure, and on overall success all three
/// are `None`.
pub proof fn lemma_missing_optionals_decode(entries: Seq<(String, Value)>)
    requires
        lookup(entries, "area"@) is None,
        lookup(entries, "timeout"@) is None,
        lookup(entries, "status"@) is None,
    ensures
        spec_opt_limit_number(entries, "area"@, "@maximum"@, "maximum"@, FieldName::AreaMax)
            == Ok::<Option<NumberV>, Error>(None),
        spec_opt_limit_i64(entries, "timeout"@, "@seconds"@, "seconds"@, FieldName::TimeoutSeconds)
            == Ok::<Option<i64>, Error>(None),
        spec_opt_status(entries) == Ok::<Option<ApiStatus>, Error>(None),
        spec_decode_api(entries) matches Ok(a) ==> a.max_areas is None && a.timeout is None
            && a.status is None,
{
}

} // verus!
